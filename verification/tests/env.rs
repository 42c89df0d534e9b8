use resize_image_bot::env::{get_env, use_polling};

#[test]
fn get_env_hands_the_value_on() {
    assert_eq!(get_env("PORT", Some("8080".to_string())), Ok("8080".to_string()));
    assert_eq!(get_env("PORT", Some(String::new())), Ok(String::new()));
}

#[test]
fn get_env_names_the_missing_variable() {
    assert_eq!(
        get_env("WEBHOOK_HOST", None),
        Err("Could not get the WEBHOOK_HOST env variable".to_string())
    );
    assert_eq!(get_env("", None), Err("Could not get the  env variable".to_string()));
}

#[test]
fn polling_is_the_default() {
    assert!(use_polling(None));
    assert!(use_polling(Some("true".to_string())));
    assert!(use_polling(Some("yes".to_string())));
    assert!(use_polling(Some("".to_string())));
    assert!(use_polling(Some("False".to_string())));
    assert!(use_polling(Some("0".to_string())));
}

#[test]
fn only_false_selects_the_webhook() {
    assert!(!use_polling(Some("false".to_string())));
}

#[test]
fn use_polling_agrees_with_the_standard_parser() {
    for text in ["true", "false", "TRUE", "FALSE", " false", "false ", "1", "no", ""] {
        assert_eq!(
            use_polling(Some(text.to_string())),
            text.parse::<bool>().unwrap_or(true),
            "{text:?}"
        );
    }
}
