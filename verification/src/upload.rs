//! The upload pipeline: from the caller's settings to a plan, and from
//! the plan through upload, import, polling and registration.
//!
//! The pipeline itself performs nothing. It is a state machine: it names
//! the next thing to do, and is told how that went.

use crate::error::UploadError;
use crate::ops::{ImageId, ImportTaskId, SnapshotId};
use crate::region::{parse_region, region_known};
use crate::source::{extension_of, follows_a_dot, path_extension};
use rusoto_core::Region;
use vstd::prelude::*;
use vstd::string::StringExecFns;

verus! {

/// The destination key that stands for "none chosen".
pub const DEFAULT_AWS_BUCKET_KEY: &'static str = "new-ami-source-image";

/// The number of stages of the pipeline.
pub const TOTAL_STEPS: usize = 4;

/// What the caller asks for.
#[derive(Clone, Debug, PartialEq, Eq)]
pub struct UploadParams {
    /// Name of the region to work in.
    pub region: String,
    /// Destination bucket.
    pub bucket: String,
    /// Destination key, or `DEFAULT_AWS_BUCKET_KEY`.
    pub key: String,
    /// Path of the source image. Its extension names the image's format.
    pub image: String,
    /// Whether the image supports enhanced networking.
    pub ena: bool,
    /// Name of the machine image to register.
    pub name: String,
}

/// What a run works from, once the settings have been checked.
#[derive(Debug, PartialEq, Eq)]
pub struct UploadPlan {
    pub region: Region,
    pub bucket: String,
    /// The key under which the image is stored.
    pub key: String,
    pub source_path: String,
    /// The format of the image: the extension of `source_path`.
    pub format: String,
    pub image_name: String,
    pub ena: bool,
}

/// An `UploadPlan` with its texts as sequences of characters.
pub struct UploadPlanView {
    pub region: Region,
    pub bucket: Seq<char>,
    pub key: Seq<char>,
    pub source_path: Seq<char>,
    pub format: Seq<char>,
    pub image_name: Seq<char>,
    pub ena: bool,
}

impl View for UploadPlan {
    type V = UploadPlanView;

    open spec fn view(&self) -> UploadPlanView {
        UploadPlanView {
            region: self.region,
            bucket: self.bucket@,
            key: self.key@,
            source_path: self.source_path@,
            format: self.format@,
            image_name: self.image_name@,
            ena: self.ena,
        }
    }
}

/// The key under which an image of format `format` is stored when the
/// caller asked for `key`: the default key gets a dot and the format
/// added, any other key stays as it is.
pub open spec fn effective_key(key: Seq<char>, format: Seq<char>) -> Seq<char> {
    if key == DEFAULT_AWS_BUCKET_KEY@ {
        key + "."@ + format
    } else {
        key
    }
}

/// The key under which an image of format `format` is stored when the
/// caller asked for `key`.
pub fn destination_key(key: String, format: &str) -> (r: String)
    ensures
        r@ == effective_key(key@, format@),
        key@ != DEFAULT_AWS_BUCKET_KEY@ ==> r == key,
{
    let default_key: String = DEFAULT_AWS_BUCKET_KEY.to_owned();
    if key == default_key {
        let mut suffixed: String = key;
        suffixed.append(".");
        suffixed.append(format);
        suffixed
    } else {
        key
    }
}

/// The plan for `params` in `region`, given the extension of the image's
/// path: `Config` if the path has none; else the settings as they are,
/// with the extension as format and the key made effective.
pub fn plan_from(params: UploadParams, region: Region, extension: Option<String>) -> (r: Result<
    UploadPlan,
    UploadError,
>)
    ensures
        match extension {
            None => r == Err::<UploadPlan, UploadError>(UploadError::Config),
            Some(format) => r matches Ok(plan) && plan@ == (UploadPlanView {
                region,
                bucket: params.bucket@,
                key: effective_key(params.key@, format@),
                source_path: params.image@,
                format: format@,
                image_name: params.name@,
                ena: params.ena,
            }),
        },
{
    match extension {
        None => Err(UploadError::Config),
        Some(format) => {
            let key = destination_key(params.key, format.as_str());
            Ok(
                UploadPlan {
                    region,
                    bucket: params.bucket,
                    key,
                    source_path: params.image,
                    format,
                    image_name: params.name,
                    ena: params.ena,
                },
            )
        },
    }
}

/// Checks the settings and makes the plan. An unknown region name is
/// refused with `RegionParse`. With a known one, the image's path decides:
/// without an extension it is refused with `Config`; with one, a plan is
/// made, which holds the settings as they are, the extension as format and
/// the effective key.
pub fn prepare(params: UploadParams) -> (r: Result<UploadPlan, UploadError>)
    ensures
        !region_known(params.region@) ==> r == Err::<UploadPlan, UploadError>(
            UploadError::RegionParse,
        ),
        region_known(params.region@) ==> match extension_of(params.image@) {
            None => r == Err::<UploadPlan, UploadError>(UploadError::Config),
            Some(format) => {
                &&& r matches Ok(plan)
                &&& plan.bucket@ == params.bucket@
                &&& plan.key@ == effective_key(params.key@, format)
                &&& plan.source_path@ == params.image@
                &&& plan.format@ == format
                &&& plan.image_name@ == params.name@
                &&& plan.ena == params.ena
                &&& follows_a_dot(params.image@, format)
            },
        },
{
    match parse_region(params.region.as_str()) {
        Err(_) => Err(UploadError::RegionParse),
        Ok(region) => {
            let extension = path_extension(params.image.as_str());
            plan_from(params, region, extension)
        },
    }
}

/// Where a run stands.
#[derive(Clone, Copy, Debug, PartialEq, Eq, Structural)]
pub enum Phase {
    /// The image is being copied to object storage.
    Uploading,
    /// The import job is being started.
    Submitting,
    /// The import job is being waited for.
    Polling,
    /// The machine image is being registered.
    Registering,
    /// The machine image exists.
    Done,
    /// A stage has failed; nothing more is done.
    Failed,
}

/// The place of a phase among the stages, counted from one; zero for a
/// run that has ended.
pub open spec fn position_of(phase: Phase) -> nat {
    match phase {
        Phase::Uploading => 1,
        Phase::Submitting => 2,
        Phase::Polling => 3,
        Phase::Registering => 4,
        Phase::Done => 0,
        Phase::Failed => 0,
    }
}

/// The words that tell a user what a phase does; empty for a run that has
/// ended.
pub open spec fn message_of(phase: Phase) -> Seq<char> {
    match phase {
        Phase::Uploading => "Copying to S3..."@,
        Phase::Submitting => "Importing snapshot..."@,
        Phase::Polling => "Waiting on snapshot task queue..."@,
        Phase::Registering => "Registering new AWS AMI image..."@,
        Phase::Done => ""@,
        Phase::Failed => ""@,
    }
}

impl Phase {
    /// Whether the run is still going on.
    pub fn is_running(&self) -> (r: bool)
        ensures
            r == (position_of(*self) != 0),
            r == (*self != Phase::Done && *self != Phase::Failed),
    {
        match self {
            Phase::Done => false,
            Phase::Failed => false,
            _ => true,
        }
    }

    /// The place of the phase among the `TOTAL_STEPS` stages, counted from
    /// one; zero once the run has ended.
    pub fn position(&self) -> (r: usize)
        ensures
            r == position_of(*self),
            r <= TOTAL_STEPS,
    {
        match self {
            Phase::Uploading => 1,
            Phase::Submitting => 2,
            Phase::Polling => 3,
            Phase::Registering => 4,
            Phase::Done => 0,
            Phase::Failed => 0,
        }
    }

    /// The words that tell a user what the phase does; empty once the run
    /// has ended.
    pub fn message(&self) -> (r: &'static str)
        ensures
            r@ == message_of(*self),
    {
        match self {
            Phase::Uploading => "Copying to S3...",
            Phase::Submitting => "Importing snapshot...",
            Phase::Polling => "Waiting on snapshot task queue...",
            Phase::Registering => "Registering new AWS AMI image...",
            Phase::Done => "",
            Phase::Failed => "",
        }
    }
}

/// What the pipeline is told: how the thing it last named went.
#[derive(Clone, Debug, PartialEq, Eq)]
pub enum StageEvent {
    /// The image is in object storage.
    Uploaded,
    /// The import job has been started under this name.
    Submitted { task: ImportTaskId },
    /// The import job is completed and has produced this snapshot.
    Polled { snapshot: SnapshotId },
    /// The machine image has been registered under this name.
    Registered { image_id: ImageId },
    /// The stage has failed.
    Failed { error: UploadError },
}

/// A `StageEvent` with its texts as sequences of characters.
pub enum StageEventView {
    Uploaded,
    Submitted { task: Seq<char> },
    Polled { snapshot: Seq<char> },
    Registered { image_id: Seq<char> },
    Failed { error: UploadError },
}

impl View for StageEvent {
    type V = StageEventView;

    open spec fn view(&self) -> StageEventView {
        match *self {
            StageEvent::Uploaded => StageEventView::Uploaded,
            StageEvent::Submitted { task } => StageEventView::Submitted { task: task@ },
            StageEvent::Polled { snapshot } => StageEventView::Polled { snapshot: snapshot@ },
            StageEvent::Registered { image_id } => StageEventView::Registered {
                image_id: image_id@,
            },
            StageEvent::Failed { error } => StageEventView::Failed { error },
        }
    }
}

/// What the pipeline names as the next thing to do.
#[derive(Clone, Debug, PartialEq, Eq)]
pub enum StageAction {
    /// Copy the file at `source_path` to `key` in `bucket`.
    Upload { bucket: String, key: String, source_path: String },
    /// Start the import of the image at `key` in `bucket`.
    Submit { bucket: String, key: String, format: String },
    /// Wait until the import job `task` is completed.
    Poll { task: ImportTaskId },
    /// Register the machine image `name` on `snapshot`.
    Register { snapshot: SnapshotId, name: String, ena: bool },
    /// Report the machine image: the run has succeeded.
    Finish { image_id: ImageId },
    /// Report the failure: the run is over.
    Abort { error: UploadError },
}

/// A `StageAction` with its texts as sequences of characters.
pub enum StageActionView {
    Upload { bucket: Seq<char>, key: Seq<char>, source_path: Seq<char> },
    Submit { bucket: Seq<char>, key: Seq<char>, format: Seq<char> },
    Poll { task: Seq<char> },
    Register { snapshot: Seq<char>, name: Seq<char>, ena: bool },
    Finish { image_id: Seq<char> },
    Abort { error: UploadError },
}

impl View for StageAction {
    type V = StageActionView;

    open spec fn view(&self) -> StageActionView {
        match *self {
            StageAction::Upload { bucket, key, source_path } => StageActionView::Upload {
                bucket: bucket@,
                key: key@,
                source_path: source_path@,
            },
            StageAction::Submit { bucket, key, format } => StageActionView::Submit {
                bucket: bucket@,
                key: key@,
                format: format@,
            },
            StageAction::Poll { task } => StageActionView::Poll { task: task@ },
            StageAction::Register { snapshot, name, ena } => StageActionView::Register {
                snapshot: snapshot@,
                name: name@,
                ena,
            },
            StageAction::Finish { image_id } => StageActionView::Finish { image_id: image_id@ },
            StageAction::Abort { error } => StageActionView::Abort { error },
        }
    }
}

/// The first thing to do for a plan: the upload.
pub open spec fn first_action(plan: UploadPlanView) -> StageActionView {
    StageActionView::Upload { bucket: plan.bucket, key: plan.key, source_path: plan.source_path }
}

/// The step of the pipeline: from the phase and the event to the next
/// phase and the next thing to do. Each stage follows on the success of
/// the one before and works on what that one produced; a failure ends the
/// run at once. `None` where the event does not answer what the phase is
/// waiting for.
pub open spec fn pipeline_next(plan: UploadPlanView, phase: Phase, event: StageEventView) -> Option<
    (Phase, StageActionView),
> {
    match (phase, event) {
        (Phase::Uploading, StageEventView::Uploaded) => Some(
            (
                Phase::Submitting,
                StageActionView::Submit { bucket: plan.bucket, key: plan.key, format: plan.format },
            ),
        ),
        (Phase::Submitting, StageEventView::Submitted { task }) => Some(
            (Phase::Polling, StageActionView::Poll { task }),
        ),
        (Phase::Polling, StageEventView::Polled { snapshot }) => Some(
            (
                Phase::Registering,
                StageActionView::Register { snapshot, name: plan.image_name, ena: plan.ena },
            ),
        ),
        (Phase::Registering, StageEventView::Registered { image_id }) => Some(
            (Phase::Done, StageActionView::Finish { image_id }),
        ),
        (_, StageEventView::Failed { error }) => if position_of(phase) != 0 {
            Some((Phase::Failed, StageActionView::Abort { error }))
        } else {
            None
        },
        _ => None,
    }
}

/// A run of the pipeline between two steps: its plan and where it stands.
#[derive(Debug, PartialEq, Eq)]
pub struct Pipeline {
    pub plan: UploadPlan,
    pub phase: Phase,
}

impl Pipeline {
    /// Begins a run: the pipeline is uploading, and the upload is the
    /// thing to do.
    pub fn start(plan: UploadPlan) -> (r: (Pipeline, StageAction))
        ensures
            r.0.plan == plan,
            r.0.phase == Phase::Uploading,
            r.1@ == first_action(plan@),
    {
        let action = StageAction::Upload {
            bucket: plan.bucket.clone(),
            key: plan.key.clone(),
            source_path: plan.source_path.clone(),
        };
        (Pipeline { plan, phase: Phase::Uploading }, action)
    }

    /// Takes an event. Where it answers what the pipeline is waiting for,
    /// the pipeline moves on as `pipeline_next` says and names the next
    /// thing to do; where it does not, the pipeline stays as it is and
    /// names nothing.
    pub fn step(self, event: StageEvent) -> (r: (Pipeline, Option<StageAction>))
        ensures
            r.0.plan == self.plan,
            match pipeline_next(self.plan@, self.phase, event@) {
                Some((phase, action)) => {
                    &&& r.0.phase == phase
                    &&& r.1 matches Some(a)
                    &&& a@ == action
                },
                None => r.0.phase == self.phase && r.1 is None,
            },
    {
        let Pipeline { plan, phase } = self;
        match (phase, event) {
            (Phase::Uploading, StageEvent::Uploaded) => {
                let action = StageAction::Submit {
                    bucket: plan.bucket.clone(),
                    key: plan.key.clone(),
                    format: plan.format.clone(),
                };
                (Pipeline { plan, phase: Phase::Submitting }, Some(action))
            },
            (Phase::Submitting, StageEvent::Submitted { task }) => {
                (Pipeline { plan, phase: Phase::Polling }, Some(StageAction::Poll { task }))
            },
            (Phase::Polling, StageEvent::Polled { snapshot }) => {
                let action = StageAction::Register {
                    snapshot,
                    name: plan.image_name.clone(),
                    ena: plan.ena,
                };
                (Pipeline { plan, phase: Phase::Registering }, Some(action))
            },
            (Phase::Registering, StageEvent::Registered { image_id }) => {
                (Pipeline { plan, phase: Phase::Done }, Some(StageAction::Finish { image_id }))
            },
            (phase, StageEvent::Failed { error }) => {
                if phase.is_running() {
                    (Pipeline { plan, phase: Phase::Failed }, Some(StageAction::Abort { error }))
                } else {
                    (Pipeline { plan, phase }, None)
                }
            },
            (phase, _) => (Pipeline { plan, phase }, None),
        }
    }
}

/// What the pipeline does when it takes `events` one by one, beginning in
/// `phase`: the phase it ends in and the things it names, one for each
/// event. `None` if it does not take one of the events.
pub open spec fn pipeline_run(plan: UploadPlanView, phase: Phase, events: Seq<StageEventView>)
    -> Option<(Phase, Seq<StageActionView>)>
    decreases events.len(),
{
    if events.len() == 0 {
        Some((phase, Seq::empty()))
    } else {
        match pipeline_next(plan, phase, events[0]) {
            None => None,
            Some((next, action)) => match pipeline_run(plan, next, events.drop_first()) {
                None => None,
                Some((end, rest)) => Some((end, seq![action] + rest)),
            },
        }
    }
}

/// The place among the stages of the work that an action begins, counted
/// from one, with the final report in fifth place; zero for a failure
/// report, which begins nothing.
pub open spec fn rank_of(action: StageActionView) -> nat {
    match action {
        StageActionView::Upload { .. } => 1,
        StageActionView::Submit { .. } => 2,
        StageActionView::Poll { .. } => 3,
        StageActionView::Register { .. } => 4,
        StageActionView::Finish { .. } => 5,
        StageActionView::Abort { .. } => 0,
    }
}

/// The error that an event reports, if it reports a failure.
pub open spec fn failure_of(event: StageEventView) -> Option<UploadError> {
    match event {
        StageEventView::Failed { error } => Some(error),
        _ => None,
    }
}

/// The first failure ends the run. The pipeline names one thing for each
/// event that it takes. At a failure it names the report of that failure
/// and nothing else, the failure is the last event it takes, and it ends
/// as failed: no stage is begun after a failure. At an event that is no
/// failure it reports none.
pub proof fn law_first_failure_aborts(
    plan: UploadPlanView,
    phase: Phase,
    events: Seq<StageEventView>,
)
    requires
        pipeline_run(plan, phase, events) is Some,
    ensures
        pipeline_run(plan, phase, events) matches Some((end, actions)) && {
            &&& actions.len() == events.len()
            &&& forall|k: int|
                0 <= k < events.len() ==> match failure_of(#[trigger] events[k]) {
                    Some(error) => actions[k] == (StageActionView::Abort { error }) && k
                        == events.len() - 1 && end == Phase::Failed,
                    None => !(actions[k] is Abort),
                }
        },
    decreases events.len(),
{
    if events.len() > 0 {
        let (next, action) = pipeline_next(plan, phase, events[0])->Some_0;
        let tail = events.drop_first();
        law_first_failure_aborts(plan, next, tail);
        let (end, rest) = pipeline_run(plan, next, tail)->Some_0;
        let actions = seq![action] + rest;
        assert forall|k: int| 0 <= k < events.len() implies match failure_of(#[trigger] events[k]) {
            Some(error) => actions[k] == (StageActionView::Abort { error }) && k == events.len() - 1
                && end == Phase::Failed,
            None => !(actions[k] is Abort),
        } by {
            if k > 0 {
                assert(events[k] == tail[k - 1]);
            }
        }
    }
}

/// The stages come in their order, one at a time. In a run that begins in
/// a stage, the thing named at each event is either the report of a failure
/// or the work of the stage that follows the one just done: nothing is
/// skipped, nothing is done twice, and four events at most are taken.
pub proof fn law_stages_in_order(plan: UploadPlanView, phase: Phase, events: Seq<StageEventView>)
    requires
        position_of(phase) != 0,
        pipeline_run(plan, phase, events) is Some,
    ensures
        pipeline_run(plan, phase, events) matches Some((end, actions)) && {
            &&& actions.len() == events.len()
            &&& position_of(phase) + events.len() <= 5
            &&& forall|k: int|
                0 <= k < events.len() ==> (#[trigger] actions[k]) is Abort || rank_of(actions[k])
                    == position_of(phase) + k + 1
        },
    decreases events.len(),
{
    if events.len() > 0 {
        let (next, action) = pipeline_next(plan, phase, events[0])->Some_0;
        let tail = events.drop_first();
        if position_of(next) != 0 {
            law_stages_in_order(plan, next, tail);
        }
    }
}

/// A run in which every stage succeeds: the upload, then the import of
/// what was uploaded, then the wait for the job that the import began, then
/// the registration on the snapshot that the job produced, and at last the
/// report of the image that the registration made.
pub proof fn law_successful_run(
    plan: UploadPlanView,
    task: Seq<char>,
    snapshot: Seq<char>,
    image_id: Seq<char>,
)
    ensures
        pipeline_run(
            plan,
            Phase::Uploading,
            seq![
                StageEventView::Uploaded,
                StageEventView::Submitted { task },
                StageEventView::Polled { snapshot },
                StageEventView::Registered { image_id },
            ],
        ) == Some(
            (
                Phase::Done,
                seq![
                    StageActionView::Submit {
                        bucket: plan.bucket,
                        key: plan.key,
                        format: plan.format,
                    },
                    StageActionView::Poll { task },
                    StageActionView::Register { snapshot, name: plan.image_name, ena: plan.ena },
                    StageActionView::Finish { image_id },
                ],
            ),
        ),
{
    let events = seq![
        StageEventView::Uploaded,
        StageEventView::Submitted { task },
        StageEventView::Polled { snapshot },
        StageEventView::Registered { image_id },
    ];
    let after_upload = events.drop_first();
    let after_submit = after_upload.drop_first();
    let after_poll = after_submit.drop_first();
    let after_register = after_poll.drop_first();
    let finish = StageActionView::Finish { image_id };
    let register = StageActionView::Register { snapshot, name: plan.image_name, ena: plan.ena };
    let poll = StageActionView::Poll { task };
    let submit = StageActionView::Submit {
        bucket: plan.bucket,
        key: plan.key,
        format: plan.format,
    };
    let none = Seq::<StageActionView>::empty();
    assert(pipeline_run(plan, Phase::Done, after_register) == Some((Phase::Done, none)));
    assert(pipeline_run(plan, Phase::Registering, after_poll) == Some(
        (Phase::Done, seq![finish] + none),
    ));
    assert(pipeline_run(plan, Phase::Polling, after_submit) == Some(
        (Phase::Done, seq![register] + (seq![finish] + none)),
    ));
    assert(pipeline_run(plan, Phase::Submitting, after_upload) == Some(
        (Phase::Done, seq![poll] + (seq![register] + (seq![finish] + none))),
    ));
    assert(pipeline_run(plan, Phase::Uploading, events) == Some(
        (Phase::Done, seq![submit] + (seq![poll] + (seq![register] + (seq![finish] + none)))),
    ));
    assert(seq![submit] + (seq![poll] + (seq![register] + (seq![finish] + none))) == seq![
        submit,
        poll,
        register,
        finish,
    ]);
}

} // verus!
