use resize_image_bot::error::PipelineError;
use resize_image_bot::event::FileReference;
use resize_image_bot::pipeline::{MediaPipeline, Request, Response, Stage};
use resize_image_bot::resize_image_handler::handle_result;
use resize_image_bot::commands::Reply;

fn file(id: &str) -> FileReference {
    FileReference { id: id.to_string(), size: None }
}

fn png_of(width: u32, height: u32) -> Vec<u8> {
    let img = image::RgbaImage::from_pixel(width, height, image::Rgba([1, 2, 3, 255]));
    let mut out = std::io::Cursor::new(Vec::new());
    image::DynamicImage::ImageRgba8(img)
        .write_to(&mut out, image::ImageFormat::Png)
        .unwrap();
    out.into_inner()
}

/// What a run did, as seen from outside.
struct Trace {
    result: Result<(), PipelineError>,
    assets_alive: i32,
    acquired: u32,
    released: u32,
    uploads: Vec<Vec<u8>>,
    downloads: Vec<String>,
    resolved: Vec<String>,
    requests: usize,
}

/// Performs the requests of one run; `answers` says how each kind of request ends.
fn drive(
    file_id: &str,
    path: Result<&str, Response>,
    acquire: Response,
    download: Response,
    upload: Response,
) -> Trace {
    let mut trace = Trace {
        result: Ok(()),
        assets_alive: 0,
        acquired: 0,
        released: 0,
        uploads: vec![],
        downloads: vec![],
        resolved: vec![],
        requests: 0,
    };
    let mut download = Some(download);
    let mut acquire = Some(acquire);
    let mut upload = Some(upload);
    let mut path = Some(path);
    let (mut pipeline, mut request) = MediaPipeline::start(file(file_id));
    loop {
        trace.requests += 1;
        assert!(trace.requests <= 6, "a run takes at most five responses");
        assert_eq!(pipeline.holds_asset(), trace.assets_alive == 1);
        let response = match request {
            Request::ResolvePath { file_id } => {
                trace.resolved.push(file_id);
                match path.take().unwrap() {
                    Ok(p) => Response::PathResolved(p.to_string()),
                    Err(r) => r,
                }
            }
            Request::AcquireAsset => {
                let r = acquire.take().unwrap();
                if r == Response::AssetAcquired {
                    trace.assets_alive += 1;
                    trace.acquired += 1;
                }
                r
            }
            Request::Download { path } => {
                trace.downloads.push(path);
                download.take().unwrap()
            }
            Request::Upload { png } => {
                trace.uploads.push(png);
                upload.take().unwrap()
            }
            Request::ReleaseAsset => {
                trace.assets_alive -= 1;
                trace.released += 1;
                Response::AssetReleased
            }
            Request::Finish(result) => {
                assert_eq!(pipeline.stage(), Stage::Done);
                assert_eq!(pipeline.result(), Some(result));
                assert!(!pipeline.holds_asset());
                trace.result = result;
                return trace;
            }
        };
        assert_eq!(pipeline.result(), None);
        let (next, next_request) = pipeline.step(response);
        pipeline = next;
        request = next_request;
    }
}

#[test]
fn start_asks_for_the_path_of_the_file() {
    let (pipeline, request) = MediaPipeline::start(file("file-1"));
    assert_eq!(request, Request::ResolvePath { file_id: "file-1".to_string() });
    assert_eq!(pipeline.stage(), Stage::Resolve);
    assert!(!pipeline.holds_asset());
    assert_eq!(pipeline.result(), None);
}

#[test]
fn a_successful_run_uploads_one_png_and_releases_the_asset() {
    let trace = drive(
        "f",
        Ok("photos/f.jpg"),
        Response::AssetAcquired,
        Response::Downloaded(png_of(100, 50)),
        Response::Uploaded,
    );
    assert_eq!(trace.result, Ok(()));
    assert_eq!(trace.resolved, vec!["f".to_string()]);
    assert_eq!(trace.downloads, vec!["photos/f.jpg".to_string()]);
    assert_eq!(trace.uploads.len(), 1);
    let sent = image::load_from_memory(&trace.uploads[0]).unwrap();
    assert_eq!(image::guess_format(&trace.uploads[0]).unwrap(), image::ImageFormat::Png);
    assert_eq!((sent.width(), sent.height()), (512, 256));
    assert_eq!((trace.acquired, trace.released, trace.assets_alive), (1, 1, 0));
    assert_eq!(trace.requests, 6);
    assert_eq!(handle_result(trace.result), None);
}

#[test]
fn corrupt_bytes_leave_no_asset_behind() {
    let trace = drive(
        "f",
        Ok("documents/f.bin"),
        Response::AssetAcquired,
        Response::Downloaded(b"\x00\x01 this is no image at all".to_vec()),
        Response::Uploaded,
    );
    assert_eq!(trace.result, Err(PipelineError::DecodeError));
    assert_eq!((trace.acquired, trace.released, trace.assets_alive), (1, 1, 0));
    assert!(trace.uploads.is_empty());
    assert_eq!(handle_result(trace.result), Some(Reply::ProcessingFailed));
}

#[test]
fn running_twice_on_corrupt_bytes_leaves_no_asset_either_time() {
    for _ in 0..2 {
        let trace = drive(
            "f",
            Ok("p"),
            Response::AssetAcquired,
            Response::Downloaded(vec![0xff; 64]),
            Response::Uploaded,
        );
        assert_eq!(trace.result, Err(PipelineError::DecodeError));
        assert_eq!(trace.assets_alive, 0);
        assert_eq!(trace.acquired, trace.released);
    }
}

#[test]
fn a_failed_resolve_ends_the_run_before_any_asset_exists() {
    let trace = drive(
        "f",
        Err(Response::RemoteFailure),
        Response::AssetAcquired,
        Response::Downloaded(png_of(1, 1)),
        Response::Uploaded,
    );
    assert_eq!(trace.result, Err(PipelineError::RemoteCommunicationError));
    assert_eq!((trace.acquired, trace.released, trace.assets_alive), (0, 0, 0));
    assert!(trace.downloads.is_empty() && trace.uploads.is_empty());
    assert_eq!(trace.requests, 2);
}

#[test]
fn a_failed_acquisition_is_a_local_resource_error() {
    let trace = drive(
        "f",
        Ok("p"),
        Response::LocalFailure,
        Response::Downloaded(png_of(1, 1)),
        Response::Uploaded,
    );
    assert_eq!(trace.result, Err(PipelineError::LocalResourceError));
    assert_eq!((trace.acquired, trace.released, trace.assets_alive), (0, 0, 0));
    assert!(trace.downloads.is_empty());
}

#[test]
fn a_failed_download_releases_the_asset() {
    let trace = drive(
        "f",
        Ok("p"),
        Response::AssetAcquired,
        Response::RemoteFailure,
        Response::Uploaded,
    );
    assert_eq!(trace.result, Err(PipelineError::RemoteCommunicationError));
    assert_eq!((trace.acquired, trace.released, trace.assets_alive), (1, 1, 0));
    assert!(trace.uploads.is_empty());

    let local = drive(
        "f",
        Ok("p"),
        Response::AssetAcquired,
        Response::LocalFailure,
        Response::Uploaded,
    );
    assert_eq!(local.result, Err(PipelineError::LocalResourceError));
    assert_eq!(local.assets_alive, 0);
}

#[test]
fn a_failed_upload_releases_the_asset() {
    let trace = drive(
        "f",
        Ok("p"),
        Response::AssetAcquired,
        Response::Downloaded(png_of(8, 8)),
        Response::RemoteFailure,
    );
    assert_eq!(trace.result, Err(PipelineError::RemoteCommunicationError));
    assert_eq!(trace.uploads.len(), 1);
    assert_eq!((trace.acquired, trace.released, trace.assets_alive), (1, 1, 0));
    assert_eq!(handle_result(trace.result), Some(Reply::ProcessingFailed));
}

#[test]
fn an_answer_out_of_turn_counts_as_a_local_failure() {
    let trace = drive(
        "f",
        Err(Response::Uploaded),
        Response::AssetAcquired,
        Response::Downloaded(png_of(1, 1)),
        Response::Uploaded,
    );
    assert_eq!(trace.result, Err(PipelineError::LocalResourceError));
    assert_eq!(trace.assets_alive, 0);

    let trace = drive(
        "f",
        Ok("p"),
        Response::AssetAcquired,
        Response::PathResolved("again".to_string()),
        Response::Uploaded,
    );
    assert_eq!(trace.result, Err(PipelineError::LocalResourceError));
    assert_eq!((trace.acquired, trace.released, trace.assets_alive), (1, 1, 0));
}

#[test]
fn after_transform_uploads_what_it_is_given() {
    let (p, _) = MediaPipeline::start(file("f"));
    let (p, _) = p.step(Response::PathResolved("p".to_string()));
    let (p, request) = p.step(Response::AssetAcquired);
    assert_eq!(request, Request::Download { path: "p".to_string() });
    let (p, request) = p.after_transform(Ok(vec![1, 2, 3]));
    assert_eq!(request, Request::Upload { png: vec![1, 2, 3] });
    assert_eq!(p.stage(), Stage::Upload);
    assert!(p.holds_asset());
}

#[test]
fn after_transform_records_each_error() {
    for e in [
        PipelineError::DecodeError,
        PipelineError::LocalResourceError,
        PipelineError::RemoteCommunicationError,
        PipelineError::NoMediaFound,
    ] {
        let (p, _) = MediaPipeline::start(file("f"));
        let (p, _) = p.step(Response::PathResolved("p".to_string()));
        let (p, _) = p.step(Response::AssetAcquired);
        let (p, request) = p.after_transform(Err(e));
        assert_eq!(request, Request::ReleaseAsset);
        assert_eq!(p.stage(), Stage::Release);
        assert!(p.holds_asset());
        let (p, request) = p.step(Response::AssetReleased);
        assert_eq!(request, Request::Finish(Err(e)));
        assert_eq!(p.result(), Some(Err(e)));
        assert!(!p.holds_asset());
    }
}

#[test]
fn after_transform_out_of_turn_fails_the_outstanding_request() {
    let (p, _) = MediaPipeline::start(file("f"));
    let (p, request) = p.after_transform(Ok(vec![1]));
    assert_eq!(request, Request::Finish(Err(PipelineError::LocalResourceError)));
    assert_eq!(p.stage(), Stage::Done);
}

#[test]
fn the_release_ends_the_run_whatever_is_reported() {
    for response in [Response::AssetReleased, Response::LocalFailure, Response::RemoteFailure] {
        let (p, _) = MediaPipeline::start(file("f"));
        let (p, _) = p.step(Response::PathResolved("p".to_string()));
        let (p, _) = p.step(Response::AssetAcquired);
        let (p, request) = p.step(Response::RemoteFailure);
        assert_eq!(request, Request::ReleaseAsset);
        let (p, request) = p.step(response);
        assert_eq!(request, Request::Finish(Err(PipelineError::RemoteCommunicationError)));
        assert!(!p.holds_asset());
    }
}

#[test]
fn a_finished_run_stays_finished() {
    let (p, _) = MediaPipeline::start(file("f"));
    let (p, first) = p.step(Response::RemoteFailure);
    let (p, second) = p.step(Response::Uploaded);
    let (p, third) = p.step(Response::AssetAcquired);
    assert_eq!(first, Request::Finish(Err(PipelineError::RemoteCommunicationError)));
    assert_eq!(second, first);
    assert_eq!(third, first);
    assert_eq!(p.stage(), Stage::Done);
}

#[test]
fn any_five_responses_end_a_run() {
    let responses = || {
        vec![
            Response::PathResolved("p".to_string()),
            Response::AssetAcquired,
            Response::Downloaded(vec![1, 2, 3]),
            Response::Uploaded,
            Response::AssetReleased,
            Response::RemoteFailure,
            Response::LocalFailure,
        ]
    };
    let n = responses().len();
    for code in 0..n.pow(5) {
        let (mut p, _) = MediaPipeline::start(file("f"));
        let mut c = code;
        for _ in 0..5 {
            let (next, _) = p.step(responses().swap_remove(c % n));
            p = next;
            c /= n;
        }
        assert_eq!(p.stage(), Stage::Done);
        assert!(!p.holds_asset());
        assert!(p.result().is_some());
    }
}

#[test]
fn cancelling_releases_an_asset_the_run_owns() {
    let (p, _) = MediaPipeline::start(file("f"));
    let (p, request) = p.cancel();
    assert_eq!(request, Request::Finish(Err(PipelineError::RemoteCommunicationError)));
    assert!(!p.holds_asset());

    let (p, _) = MediaPipeline::start(file("f"));
    let (p, _) = p.step(Response::PathResolved("p".to_string()));
    let (p, _) = p.step(Response::AssetAcquired);
    assert!(p.holds_asset());
    let (p, request) = p.cancel();
    assert_eq!(request, Request::ReleaseAsset);
    assert!(p.holds_asset());
    let (p, request) = p.step(Response::AssetReleased);
    assert_eq!(request, Request::Finish(Err(PipelineError::RemoteCommunicationError)));
    assert!(!p.holds_asset());

    let (p, _) = MediaPipeline::start(file("f"));
    let (p, _) = p.step(Response::PathResolved("p".to_string()));
    let (p, _) = p.step(Response::AssetAcquired);
    let (p, _) = p.after_transform(Ok(vec![1]));
    let (p, request) = p.cancel();
    assert_eq!(request, Request::ReleaseAsset);
    let (p, _) = p.step(Response::AssetReleased);
    assert_eq!(p.result(), Some(Err(PipelineError::RemoteCommunicationError)));
}
