use resize_image_bot::polling::{
    exponential_backoff_strategy, PollAction, PollOutcome, Polling, MAX_BACKOFF_EXPONENT,
};
use resize_image_bot::source::EventSource;

#[test]
fn backoff_doubles_up_to_sixty_four_seconds() {
    assert_eq!(MAX_BACKOFF_EXPONENT, 6);
    let expected = [1u64, 2, 4, 8, 16, 32, 64, 64, 64];
    for (count, secs) in expected.iter().enumerate() {
        assert_eq!(exponential_backoff_strategy(count as u32), *secs);
    }
    assert_eq!(exponential_backoff_strategy(42), 64);
    assert_eq!(exponential_backoff_strategy(u32::MAX), 64);
}

#[test]
fn polling_starts_at_cursor_zero() {
    let (state, action) = Polling::start();
    assert_eq!(state, Polling { cursor: 0, error_count: 0, cancelled: false });
    assert_eq!(action, PollAction::Poll { cursor: 0, delay_secs: 0 });
}

#[test]
fn updates_move_the_cursor_past_the_newest() {
    let (state, _) = Polling::start();
    let (state, action) = state.next(PollOutcome::Updates { newest: Some(41) });
    assert_eq!(state.cursor, 42);
    assert_eq!(action, PollAction::Poll { cursor: 42, delay_secs: 0 });
    let (state, action) = state.next(PollOutcome::Updates { newest: None });
    assert_eq!(action, PollAction::Poll { cursor: 42, delay_secs: 0 });
    let (state, action) = state.next(PollOutcome::Updates { newest: Some(7) });
    assert_eq!(state.cursor, 42);
    assert_eq!(action, PollAction::Poll { cursor: 42, delay_secs: 0 });
    let (state, action) = state.next(PollOutcome::Updates { newest: Some(u32::MAX) });
    assert_eq!(state.cursor, u32::MAX as u64 + 1);
    assert_eq!(action, PollAction::Poll { cursor: 4294967296, delay_secs: 0 });
}

#[test]
fn failures_back_off_and_keep_the_cursor() {
    let state = Polling { cursor: 10, error_count: 0, cancelled: false };
    let (state, action) = state.next(PollOutcome::TransientFailure);
    assert_eq!(action, PollAction::Poll { cursor: 10, delay_secs: 1 });
    let (state, action) = state.next(PollOutcome::TransientFailure);
    assert_eq!(action, PollAction::Poll { cursor: 10, delay_secs: 2 });
    let (mut state, action) = state.next(PollOutcome::TransientFailure);
    assert_eq!(action, PollAction::Poll { cursor: 10, delay_secs: 4 });
    assert_eq!(state.error_count, 3);
    for _ in 0..100 {
        let (next, action) = state.next(PollOutcome::TransientFailure);
        assert!(matches!(action, PollAction::Poll { cursor: 10, delay_secs } if delay_secs <= 64));
        state = next;
    }
    let (_, action) = state.next(PollOutcome::TransientFailure);
    assert_eq!(action, PollAction::Poll { cursor: 10, delay_secs: 64 });
}

#[test]
fn a_success_resets_the_backoff() {
    let state = Polling { cursor: 10, error_count: 5, cancelled: false };
    let (state, _) = state.next(PollOutcome::Updates { newest: None });
    assert_eq!(state.error_count, 0);
    let (_, action) = state.next(PollOutcome::TransientFailure);
    assert_eq!(action, PollAction::Poll { cursor: 10, delay_secs: 1 });
}

#[test]
fn the_error_count_saturates() {
    let state = Polling { cursor: 0, error_count: u32::MAX, cancelled: false };
    let (state, action) = state.next(PollOutcome::TransientFailure);
    assert_eq!(state.error_count, u32::MAX);
    assert_eq!(action, PollAction::Poll { cursor: 0, delay_secs: 64 });
}

#[test]
fn a_refused_cursor_starts_over() {
    let state = Polling { cursor: 999, error_count: 3, cancelled: false };
    let (state, action) = state.next(PollOutcome::CursorInvalid);
    assert_eq!(state, Polling { cursor: 0, error_count: 0, cancelled: false });
    assert_eq!(action, PollAction::Poll { cursor: 0, delay_secs: 0 });
}

#[test]
fn only_cancellation_stops_polling() {
    let outcomes = [
        PollOutcome::Updates { newest: Some(1) },
        PollOutcome::Updates { newest: None },
        PollOutcome::TransientFailure,
        PollOutcome::CursorInvalid,
    ];
    let running = Polling { cursor: 5, error_count: 2, cancelled: false };
    for outcome in outcomes {
        assert_ne!(running.next(outcome).1, PollAction::Stop);
        let cancelled = running.cancel();
        assert_eq!(cancelled, Polling { cursor: 5, error_count: 2, cancelled: true });
        assert_eq!(cancelled.next(outcome), (cancelled, PollAction::Stop));
    }
}

#[test]
fn the_source_is_chosen_once() {
    let polling = EventSource::select(true);
    assert!(matches!(polling, EventSource::Polling(p) if p.cursor == 0 && p.error_count == 0));
    assert!(polling.is_accepting());
    let webhook = EventSource::select(false);
    assert!(matches!(&webhook, EventSource::Webhook(q) if q.len() == 0 && !q.is_closed()));
    assert!(webhook.is_accepting());
}

#[test]
fn a_source_that_is_shut_down_takes_nothing_in() {
    let polling = EventSource::select(true).shutdown();
    assert!(!polling.is_accepting());
    match polling {
        EventSource::Polling(p) => {
            assert_eq!(p.next(PollOutcome::Updates { newest: Some(3) }).1, PollAction::Stop)
        }
        EventSource::Webhook(_) => panic!("the kind of source must not change"),
    }
    let webhook = EventSource::select(false).shutdown();
    assert!(!webhook.is_accepting());
    assert!(matches!(webhook, EventSource::Webhook(q) if q.is_closed()));
}
