//! The media pipeline as a step function: the caller performs each request
//! (resolve, acquire, download, upload, release) and reports what happened;
//! the pipeline decides what comes next and decodes, resizes and encodes
//! the image in between.

use crate::error::PipelineError;
use crate::event::FileReference;
use crate::transformer::{bytes_agree, transform, transformed};
use vstd::prelude::*;

verus! {

/// Where a pipeline run stands: the request that is outstanding.
#[derive(Clone, Copy, Debug, PartialEq, Eq, Structural)]
pub enum Stage {
    /// The download path is being resolved.
    Resolve,
    /// The temporary asset is being acquired.
    Acquire,
    /// The file is being downloaded into the asset.
    Download,
    /// The resized image is being uploaded.
    Upload,
    /// The temporary asset is being released.
    Release,
    /// The run has ended.
    Done,
}

/// Whether a run at this stage owns a temporary asset.
pub open spec fn holds_asset(stage: Stage) -> bool {
    stage is Download || stage is Upload || stage is Release
}

/// The most responses a run at this stage still takes before it ends.
pub open spec fn steps_left(stage: Stage) -> nat {
    match stage {
        Stage::Resolve => 5,
        Stage::Acquire => 4,
        Stage::Download => 3,
        Stage::Upload => 2,
        Stage::Release => 1,
        Stage::Done => 0,
    }
}

/// What the caller is asked to do next.
#[derive(Debug, PartialEq, Eq)]
pub enum Request {
    /// Resolve the file to a download path.
    ResolvePath { file_id: String },
    /// Create the temporary asset of this run.
    AcquireAsset,
    /// Download the file at `path` into the asset and report its bytes.
    Download { path: String },
    /// Send `png` to the conversation as a document.
    Upload { png: Vec<u8> },
    /// Remove the temporary asset.
    ReleaseAsset,
    /// Nothing more: the run has ended with this result.
    Finish(Result<(), PipelineError>),
}

/// A request as the contracts see it.
pub enum RequestView {
    ResolvePath { file_id: Seq<char> },
    AcquireAsset,
    Download { path: Seq<char> },
    Upload { png: Seq<u8> },
    ReleaseAsset,
    Finish(Result<(), PipelineError>),
}

impl View for Request {
    type V = RequestView;

    open spec fn view(&self) -> RequestView {
        match self {
            Request::ResolvePath { file_id } => RequestView::ResolvePath { file_id: file_id@ },
            Request::AcquireAsset => RequestView::AcquireAsset,
            Request::Download { path } => RequestView::Download { path: path@ },
            Request::Upload { png } => RequestView::Upload { png: png@ },
            Request::ReleaseAsset => RequestView::ReleaseAsset,
            Request::Finish(result) => RequestView::Finish(*result),
        }
    }
}

/// What the caller reports back.
#[derive(Debug, PartialEq, Eq)]
pub enum Response {
    /// The file can be downloaded at this path.
    PathResolved(String),
    /// The temporary asset exists.
    AssetAcquired,
    /// The file was downloaded; these are its bytes.
    Downloaded(Vec<u8>),
    /// The platform took the document.
    Uploaded,
    /// The temporary asset is gone.
    AssetReleased,
    /// The request failed on the way to or at the platform.
    RemoteFailure,
    /// The request failed on this machine.
    LocalFailure,
}

/// The error that a response stands for where it is not the answer the
/// stage waits for: a remote failure is one; a local failure, and any answer
/// out of turn, is a local fault.
pub open spec fn failure_of(response: Response) -> PipelineError {
    match response {
        Response::RemoteFailure => PipelineError::RemoteCommunicationError,
        _ => PipelineError::LocalResourceError,
    }
}

/// A pipeline run as the contracts see it.
pub struct PipelineView {
    pub stage: Stage,
    /// The download path, once resolved.
    pub path: Seq<char>,
    /// The first failure of the run, if any.
    pub error: Option<PipelineError>,
}

impl PipelineView {
    /// No failure is on record while the run still moves forward.
    pub open spec fn well_formed(self) -> bool {
        (self.stage is Resolve || self.stage is Acquire || self.stage is Download
            || self.stage is Upload) ==> self.error is None
    }

    /// The result of the run so far: a success unless a failure is on record.
    pub open spec fn result(self) -> Result<(), PipelineError> {
        match self.error {
            None => Ok(()),
            Some(e) => Err(e),
        }
    }

    pub open spec fn at(self, stage: Stage) -> PipelineView {
        PipelineView { stage, ..self }
    }

    pub open spec fn failed(self, stage: Stage, error: PipelineError) -> PipelineView {
        PipelineView { stage, error: Some(error), ..self }
    }
}

/// The state of a run that has just been started.
pub open spec fn initial() -> PipelineView {
    PipelineView { stage: Stage::Resolve, path: Seq::empty(), error: None }
}

/// What a run that waits for its download does with the transformed image:
/// upload it, or record the failure and release the asset.
pub open spec fn after_transform_of(
    p: PipelineView,
    outcome: Result<Seq<u8>, PipelineError>,
) -> (PipelineView, RequestView) {
    match outcome {
        Ok(png) => (p.at(Stage::Upload), RequestView::Upload { png }),
        Err(e) => (p.failed(Stage::Release, e), RequestView::ReleaseAsset),
    }
}

/// The step function: the next state and request for a state and a
/// response. A failure before the asset exists ends the run at once; one
/// after it leads to the release first.
pub open spec fn step_of(p: PipelineView, response: Response) -> (PipelineView, RequestView) {
    let e = failure_of(response);
    match p.stage {
        Stage::Resolve => match response {
            Response::PathResolved(path) => (
                PipelineView { stage: Stage::Acquire, path: path@, error: p.error },
                RequestView::AcquireAsset,
            ),
            _ => (p.failed(Stage::Done, e), RequestView::Finish(Err(e))),
        },
        Stage::Acquire => match response {
            Response::AssetAcquired => (
                p.at(Stage::Download),
                RequestView::Download { path: p.path },
            ),
            _ => (p.failed(Stage::Done, e), RequestView::Finish(Err(e))),
        },
        Stage::Download => match response {
            Response::Downloaded(bytes) => after_transform_of(p, transformed(bytes@)),
            _ => (p.failed(Stage::Release, e), RequestView::ReleaseAsset),
        },
        Stage::Upload => match response {
            Response::Uploaded => (p.at(Stage::Release), RequestView::ReleaseAsset),
            _ => (p.failed(Stage::Release, e), RequestView::ReleaseAsset),
        },
        Stage::Release => (p.at(Stage::Done), RequestView::Finish(p.result())),
        Stage::Done => (p, RequestView::Finish(p.result())),
    }
}

/// One run of the media pipeline.
#[derive(Debug)]
pub struct MediaPipeline {
    stage: Stage,
    path: String,
    error: Option<PipelineError>,
}

impl View for MediaPipeline {
    type V = PipelineView;

    closed spec fn view(&self) -> PipelineView {
        PipelineView { stage: self.stage, path: self.path@, error: self.error }
    }
}

impl MediaPipeline {
    #[verifier::type_invariant]
    spec fn invariant_holds(self) -> bool {
        self@.well_formed()
    }

    /// Starts a run on `file`: the first request is to resolve its path.
    pub fn start(file: FileReference) -> (r: (MediaPipeline, Request))
        ensures
            r.0@ == initial(),
            r.1@ == (RequestView::ResolvePath { file_id: file.id@ }),
    {
        (
            MediaPipeline { stage: Stage::Resolve, path: String::new(), error: None },
            Request::ResolvePath { file_id: file.id },
        )
    }

    /// The stage of this run.
    pub fn stage(&self) -> (stage: Stage)
        ensures
            stage == self@.stage,
            self@.well_formed(),
    {
        proof {
            use_type_invariant(self);
        }
        self.stage
    }

    /// Whether this run owns a temporary asset right now.
    pub fn holds_asset(&self) -> (held: bool)
        ensures
            held == holds_asset(self@.stage),
    {
        match self.stage {
            Stage::Download | Stage::Upload | Stage::Release => true,
            _ => false,
        }
    }

    /// The result of this run, once it has ended.
    pub fn result(&self) -> (r: Option<Result<(), PipelineError>>)
        ensures
            r == if self@.stage is Done {
                Some(self@.result())
            } else {
                None
            },
    {
        match self.stage {
            Stage::Done => match self.error {
                None => Some(Ok(())),
                Some(e) => Some(Err(e)),
            },
            _ => None,
        }
    }

    fn fail(self, stage: Stage, error: PipelineError) -> (r: MediaPipeline)
        requires
            stage is Release || stage is Done,
        ensures
            r@ == self@.failed(stage, error),
    {
        MediaPipeline { stage, path: self.path, error: Some(error) }
    }

    /// Goes on after the download with the outcome of the transform. Out of
    /// turn it counts as a local failure of the outstanding request.
    pub fn after_transform(self, outcome: Result<Vec<u8>, PipelineError>) -> (r: (
        MediaPipeline,
        Request,
    ))
        ensures
            (r.0@, r.1@) == if self@.stage is Download {
                after_transform_of(
                    self@,
                    match outcome {
                        Ok(png) => Ok(png@),
                        Err(e) => Err(e),
                    },
                )
            } else {
                step_of(self@, Response::LocalFailure)
            },
    {
        proof {
            use_type_invariant(&self);
        }
        match self.stage {
            Stage::Download => match outcome {
                Ok(png) => (
                    MediaPipeline { stage: Stage::Upload, path: self.path, error: self.error },
                    Request::Upload { png },
                ),
                Err(e) => (self.fail(Stage::Release, e), Request::ReleaseAsset),
            },
            _ => self.step_without_image(Response::LocalFailure),
        }
    }

    /// Takes the response to the outstanding request and decides what comes
    /// next.
    pub fn step(self, response: Response) -> (r: (MediaPipeline, Request))
        ensures
            (r.0@, r.1@) == step_of(self@, response),
    {
        match response {
            Response::Downloaded(bytes) => match self.stage {
                Stage::Download => {
                    let outcome = transform(bytes.as_slice());
                    self.after_transform(outcome)
                },
                _ => self.step_without_image(Response::Downloaded(bytes)),
            },
            other => self.step_without_image(other),
        }
    }

    /// Cuts the run short, as on shutdown: the outstanding request counts as
    /// failed on the way, so that an asset the run owns is released before
    /// the run ends.
    pub fn cancel(self) -> (r: (MediaPipeline, Request))
        ensures
            (r.0@, r.1@) == step_of(self@, Response::RemoteFailure),
    {
        self.step_without_image(Response::RemoteFailure)
    }

    fn step_without_image(self, response: Response) -> (r: (MediaPipeline, Request))
        requires
            !(self@.stage is Download && response is Downloaded),
        ensures
            (r.0@, r.1@) == step_of(self@, response),
    {
        proof {
            use_type_invariant(&self);
        }
        let e = match response {
            Response::RemoteFailure => PipelineError::RemoteCommunicationError,
            _ => PipelineError::LocalResourceError,
        };
        match self.stage {
            Stage::Resolve => match response {
                Response::PathResolved(path) => (
                    MediaPipeline { stage: Stage::Acquire, path, error: self.error },
                    Request::AcquireAsset,
                ),
                _ => (self.fail(Stage::Done, e), Request::Finish(Err(e))),
            },
            Stage::Acquire => match response {
                Response::AssetAcquired => {
                    let path = self.path.clone();
                    (
                        MediaPipeline { stage: Stage::Download, path: self.path, error: self.error },
                        Request::Download { path },
                    )
                },
                _ => (self.fail(Stage::Done, e), Request::Finish(Err(e))),
            },
            Stage::Download => (self.fail(Stage::Release, e), Request::ReleaseAsset),
            Stage::Upload => match response {
                Response::Uploaded => (
                    MediaPipeline { stage: Stage::Release, path: self.path, error: self.error },
                    Request::ReleaseAsset,
                ),
                _ => (self.fail(Stage::Release, e), Request::ReleaseAsset),
            },
            Stage::Release => {
                let result = match self.error {
                    None => Ok(()),
                    Some(e) => Err(e),
                };
                (
                    MediaPipeline { stage: Stage::Done, path: self.path, error: self.error },
                    Request::Finish(result),
                )
            },
            Stage::Done => {
                let result = match self.error {
                    None => Ok(()),
                    Some(e) => Err(e),
                };
                (self, Request::Finish(result))
            },
        }
    }
}

/// The state a run reaches from `p` when these responses arrive in turn.
pub open spec fn run_of(p: PipelineView, responses: Seq<Response>) -> PipelineView
    decreases responses.len(),
{
    if responses.len() == 0 {
        p
    } else {
        run_of(step_of(p, responses[0]).0, responses.drop_first())
    }
}

/// Every step brings a run nearer to its end, whatever the response: the
/// state stays well formed and the count of steps left falls, until the run
/// is done and stays so.
pub proof fn step_makes_progress(p: PipelineView, response: Response)
    requires
        p.well_formed(),
    ensures
        step_of(p, response).0.well_formed(),
        !(p.stage is Done) ==> steps_left(step_of(p, response).0.stage) < steps_left(p.stage),
        p.stage is Done ==> step_of(p, response).0 == p,
{
}

/// The temporary asset never outlives the run. It comes into being only
/// when the acquisition is confirmed, and a run that owns it ends only by
/// way of the release: the request to release is made exactly on entering
/// the release stage, and the run finishes from a stage that owns nothing
/// or from the release itself.
pub proof fn asset_is_released(p: PipelineView, response: Response)
    requires
        p.well_formed(),
    ensures
        ({
            let (next, request) = step_of(p, response);
            &&& !holds_asset(p.stage) && holds_asset(next.stage) ==> p.stage is Acquire
                && response is AssetAcquired
            &&& holds_asset(p.stage) && !holds_asset(next.stage) ==> p.stage is Release
            &&& request is ReleaseAsset <==> next.stage is Release
            &&& request is Finish <==> next.stage is Done
            &&& next.stage is Done ==> !holds_asset(next.stage) && request
                == RequestView::Finish(next.result())
        }),
{
}

/// The first failure of a run is its result, and a run succeeds only if the
/// platform took the document: past the upload no failure is on record
/// exactly when the upload was confirmed.
pub proof fn success_means_delivered(p: PipelineView, response: Response)
    requires
        p.well_formed(),
    ensures
        ({
            let (next, request) = step_of(p, response);
            &&& p.error is Some ==> next.error == p.error
            &&& p.stage is Upload ==> (next.error is None <==> response is Uploaded)
            &&& request is Upload ==> p.stage is Download && response is Downloaded
        }),
{
}

/// Every run ends: once as many responses have arrived as the stage has
/// steps left (five from the start), the run is done and owns no asset,
/// whatever the responses were.
pub proof fn every_run_ends(p: PipelineView, responses: Seq<Response>)
    requires
        p.well_formed(),
        responses.len() >= steps_left(p.stage),
    ensures
        run_of(p, responses).stage is Done,
        !holds_asset(run_of(p, responses).stage),
        run_of(p, responses).well_formed(),
    decreases responses.len(),
{
    if responses.len() > 0 {
        step_makes_progress(p, responses[0]);
        every_run_ends(step_of(p, responses[0]).0, responses.drop_first());
    }
}

} // verus!
