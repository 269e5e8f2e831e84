//! One tick of the daemon as a state machine: the library decides the next
//! action from the tick's phase and the last event; the program performs the
//! action (a request, a process scan, a launch) and reports what came of it.

use crate::detect::{channel_id_of, live_video, live_video_of, resolve_channel_id};
use crate::inspect::{recorder_binary, recorder_name, recording, ProcessInfo};
use crate::model::{LiveVideo, UserResponse, YoutubeSearchListResponse};
use crate::supervise::{decide, plan_of, Decision, Plan};
use crate::urls::{user_search, user_search_url, video_search, video_search_url, watch_url};
use vstd::prelude::*;

verus! {

/// What the daemon is configured with at start: fixed for its lifetime.
#[derive(Clone, Debug)]
pub struct Config {
    pub api_key: String,
    pub channel: String,
    /// The recorder's executable name.
    pub recorder: String,
}

impl Config {
    /// The configuration for `channel`, with the recorder named as on the
    /// platform that `windows` tells.
    pub fn new(api_key: String, channel: String, windows: bool) -> (r: Config)
        ensures
            r.api_key == api_key,
            r.channel == channel,
            r.recorder@ == recorder_name(windows),
    {
        Config { api_key, channel, recorder: recorder_binary(windows) }
    }
}

/// Why a request to the platform failed.
#[derive(Clone, Copy, Debug, PartialEq, Eq)]
pub enum FetchError {
    /// The request did not reach the platform or its answer was cut off.
    Network,
    /// The platform answered with this status, outside 200 to 299.
    Status(u16),
    /// The body did not have the expected shape.
    Decode,
}

/// Why a tick ended without recording.
#[derive(Clone, Copy, Debug, PartialEq, Eq)]
pub enum TickError {
    /// A request failed.
    Fetch(FetchError),
    /// The channel name matched no channel.
    ChannelNotFound,
    /// The recorder could not be launched or awaited.
    Launch,
    /// An event came that the tick's phase does not wait for.
    OutOfOrder,
}

/// How a tick ended.
#[derive(Clone, Copy, Debug, PartialEq, Eq)]
pub enum TickOutcome {
    /// The channel is not live.
    NotLive,
    /// A recorder already captures the broadcast.
    AlreadyRecording,
    /// A recorder was launched and has exited, with this exit code if it had one.
    Recorded(Option<i32>),
    /// The tick was cut short.
    Failed(TickError),
}

/// Where a tick stands.
#[derive(Debug)]
pub enum TickPhase {
    /// Waiting for the channel lookup.
    AwaitUser,
    /// Waiting for the live search.
    AwaitSearch,
    /// Waiting for a snapshot of the process table; this broadcast is live.
    AwaitProcesses(LiveVideo),
    /// Waiting for the recorder launched on this address to exit.
    AwaitExit(String),
    /// The tick is over.
    Done,
}

/// What the program reports to the tick.
#[derive(Debug)]
pub enum TickEvent {
    UserFetched(Result<UserResponse, FetchError>),
    SearchFetched(Result<YoutubeSearchListResponse, FetchError>),
    ProcessesScanned(Vec<ProcessInfo>),
    /// The recorder exited, with this exit code if it had one.
    RecorderExited(Option<i32>),
    /// The recorder could not be launched or awaited.
    RecorderFailed,
}

/// What the tick asks the program to do next.
#[derive(Debug)]
pub enum TickAction {
    /// Get this address and decode the body as a channel lookup.
    FetchUser(String),
    /// Get this address and decode the body as a live search.
    FetchSearch(String),
    /// Take a snapshot of the process table.
    ScanProcesses,
    /// Launch `program` with `url` as its one argument, standard output and
    /// error inherited, and wait for it to exit.
    Spawn { program: String, url: String },
    /// The tick is over.
    Finish(TickOutcome),
}

/// A phase with its address as characters.
pub enum PhaseModel {
    AwaitUser,
    AwaitSearch,
    AwaitProcesses(LiveVideo),
    AwaitExit(Seq<char>),
    Done,
}

/// An action with its addresses as characters.
pub enum ActionModel {
    FetchUser(Seq<char>),
    FetchSearch(Seq<char>),
    ScanProcesses,
    Spawn(Seq<char>, Seq<char>),
    Finish(TickOutcome),
}

impl View for TickPhase {
    type V = PhaseModel;

    open spec fn view(&self) -> PhaseModel {
        match self {
            TickPhase::AwaitUser => PhaseModel::AwaitUser,
            TickPhase::AwaitSearch => PhaseModel::AwaitSearch,
            TickPhase::AwaitProcesses(v) => PhaseModel::AwaitProcesses(*v),
            TickPhase::AwaitExit(u) => PhaseModel::AwaitExit(u@),
            TickPhase::Done => PhaseModel::Done,
        }
    }
}

impl View for TickAction {
    type V = ActionModel;

    open spec fn view(&self) -> ActionModel {
        match self {
            TickAction::FetchUser(u) => ActionModel::FetchUser(u@),
            TickAction::FetchSearch(u) => ActionModel::FetchSearch(u@),
            TickAction::ScanProcesses => ActionModel::ScanProcesses,
            TickAction::Spawn { program, url } => ActionModel::Spawn(program@, url@),
            TickAction::Finish(o) => ActionModel::Finish(*o),
        }
    }
}

/// A tick ends here with `o`.
pub open spec fn finished(o: TickOutcome) -> (PhaseModel, ActionModel) {
    (PhaseModel::Done, ActionModel::Finish(o))
}

/// The first phase and action of a tick.
pub open spec fn start_of(config: Config) -> (PhaseModel, ActionModel) {
    (PhaseModel::AwaitUser, ActionModel::FetchUser(user_search_url(config.api_key@, config.channel@)))
}

/// The next phase and action of a tick that stands at `phase` when `event` comes.
pub open spec fn step_of(config: Config, phase: PhaseModel, event: TickEvent) -> (
    PhaseModel,
    ActionModel,
) {
    match (phase, event) {
        (PhaseModel::AwaitUser, TickEvent::UserFetched(Err(e))) => finished(
            TickOutcome::Failed(TickError::Fetch(e)),
        ),
        (PhaseModel::AwaitUser, TickEvent::UserFetched(Ok(user))) => match channel_id_of(
            user.items@,
        ) {
            None => finished(TickOutcome::Failed(TickError::ChannelNotFound)),
            Some(id) => (
                PhaseModel::AwaitSearch,
                ActionModel::FetchSearch(video_search_url(config.api_key@, id@)),
            ),
        },
        (PhaseModel::AwaitSearch, TickEvent::SearchFetched(Err(e))) => finished(
            TickOutcome::Failed(TickError::Fetch(e)),
        ),
        (PhaseModel::AwaitSearch, TickEvent::SearchFetched(Ok(search))) => match live_video_of(
            search.items@,
        ) {
            None => finished(TickOutcome::NotLive),
            Some(v) => (PhaseModel::AwaitProcesses(v), ActionModel::ScanProcesses),
        },
        (PhaseModel::AwaitProcesses(v), TickEvent::ProcessesScanned(procs)) => match plan_of(
            Some(v),
            procs@,
            config.recorder@,
        ) {
            Plan::Record(url) => (
                PhaseModel::AwaitExit(url),
                ActionModel::Spawn(config.recorder@, url),
            ),
            Plan::AlreadyRecording(_) => finished(TickOutcome::AlreadyRecording),
            Plan::NotLive => finished(TickOutcome::NotLive),
        },
        (PhaseModel::AwaitExit(_), TickEvent::RecorderExited(code)) => finished(
            TickOutcome::Recorded(code),
        ),
        (PhaseModel::AwaitExit(_), TickEvent::RecorderFailed) => finished(
            TickOutcome::Failed(TickError::Launch),
        ),
        _ => finished(TickOutcome::Failed(TickError::OutOfOrder)),
    }
}

/// Ends a tick with `o`.
fn finish(o: TickOutcome) -> (r: (TickPhase, TickAction))
    ensures
        (r.0@, r.1@) == finished(o),
{
    (TickPhase::Done, TickAction::Finish(o))
}

/// Begins a tick: look the channel up.
pub fn start(config: &Config) -> (r: (TickPhase, TickAction))
    ensures
        (r.0@, r.1@) == start_of(*config),
{
    (TickPhase::AwaitUser, TickAction::FetchUser(user_search(&config.api_key, &config.channel)))
}

/// Moves a tick on from `phase` by `event`.
pub fn step(config: &Config, phase: TickPhase, event: TickEvent) -> (r: (TickPhase, TickAction))
    ensures
        (r.0@, r.1@) == step_of(*config, phase@, event),
{
    match (phase, event) {
        (TickPhase::AwaitUser, TickEvent::UserFetched(Err(e))) => finish(
            TickOutcome::Failed(TickError::Fetch(e)),
        ),
        (TickPhase::AwaitUser, TickEvent::UserFetched(Ok(user))) => match resolve_channel_id(
            &user,
        ) {
            Err(_) => finish(TickOutcome::Failed(TickError::ChannelNotFound)),
            Ok(id) => (TickPhase::AwaitSearch, TickAction::FetchSearch(video_search(&config.api_key, &id))),
        },
        (TickPhase::AwaitSearch, TickEvent::SearchFetched(Err(e))) => finish(
            TickOutcome::Failed(TickError::Fetch(e)),
        ),
        (TickPhase::AwaitSearch, TickEvent::SearchFetched(Ok(search))) => match live_video(
            &search,
        ) {
            None => finish(TickOutcome::NotLive),
            Some(v) => (TickPhase::AwaitProcesses(v), TickAction::ScanProcesses),
        },
        (TickPhase::AwaitProcesses(v), TickEvent::ProcessesScanned(procs)) => {
            let live = Some(v);
            match decide(&live, &procs, &config.recorder) {
                Decision::Record(url) => {
                    let program = config.recorder.clone();
                    let shown = url.clone();
                    (TickPhase::AwaitExit(url), TickAction::Spawn { program, url: shown })
                },
                Decision::AlreadyRecording(_) => finish(TickOutcome::AlreadyRecording),
                Decision::NotLive => finish(TickOutcome::NotLive),
            }
        },
        (TickPhase::AwaitExit(_), TickEvent::RecorderExited(code)) => finish(
            TickOutcome::Recorded(code),
        ),
        (TickPhase::AwaitExit(_), TickEvent::RecorderFailed) => finish(
            TickOutcome::Failed(TickError::Launch),
        ),
        _ => finish(TickOutcome::Failed(TickError::OutOfOrder)),
    }
}

/// A search that finds no live video ends the tick as not live, without a
/// launch and without an error.
pub proof fn lemma_empty_search_ends_not_live(config: Config, search: YoutubeSearchListResponse)
    requires
        search.items@.len() == 0,
    ensures
        step_of(config, PhaseModel::AwaitSearch, TickEvent::SearchFetched(Ok(search)))
            == finished(TickOutcome::NotLive),
{
}

/// Whatever the search found, a tick whose channel is not live launches no
/// recorder: it ends at once.
pub proof fn lemma_not_live_never_spawns(config: Config, search: YoutubeSearchListResponse)
    requires
        live_video_of(search.items@) is None,
    ensures
        !(step_of(config, PhaseModel::AwaitSearch, TickEvent::SearchFetched(Ok(search))).1 is Spawn),
        step_of(config, PhaseModel::AwaitSearch, TickEvent::SearchFetched(Ok(search))).0
            is Done,
{
}

/// A live broadcast that no recorder captures has the recorder launched on
/// its watch address, and the tick then waits for that one process.
pub proof fn lemma_live_unrecorded_spawns(config: Config, v: LiveVideo, procs: Vec<ProcessInfo>)
    requires
        !recording(procs@, config.recorder@, watch_url(v.video_id@)),
    ensures
        step_of(config, PhaseModel::AwaitProcesses(v), TickEvent::ProcessesScanned(procs)) == (
            PhaseModel::AwaitExit(watch_url(v.video_id@)),
            ActionModel::Spawn(config.recorder@, watch_url(v.video_id@)),
        ),
{
}

/// A tick launches at most one recorder: once it has asked for a launch,
/// every event ends it, and an ended tick asks for nothing more.
pub proof fn lemma_single_spawn(config: Config, url: Seq<char>, event: TickEvent)
    ensures
        step_of(config, PhaseModel::AwaitExit(url), event).0 is Done,
        step_of(config, PhaseModel::AwaitExit(url), event).1 is Finish,
        step_of(config, PhaseModel::Done, event) == finished(
            TickOutcome::Failed(TickError::OutOfOrder),
        ),
{
}

/// Where a recorder already runs on the live broadcast's watch address, the
/// tick ends without a launch.
pub proof fn lemma_recording_never_respawns(config: Config, v: LiveVideo, procs: Vec<ProcessInfo>)
    requires
        recording(procs@, config.recorder@, watch_url(v.video_id@)),
    ensures
        step_of(config, PhaseModel::AwaitProcesses(v), TickEvent::ProcessesScanned(procs))
            == finished(TickOutcome::AlreadyRecording),
{
}

/// A whole tick on a channel that resolves and is live, with no recorder on
/// the broadcast: it looks the channel up, searches that channel, scans the
/// process table and launches the recorder on the first result's watch address.
pub proof fn lemma_live_tick_records(
    config: Config,
    user: UserResponse,
    search: YoutubeSearchListResponse,
    procs: Vec<ProcessInfo>,
)
    requires
        user.items@.len() > 0,
        search.items@.len() > 0,
        !recording(procs@, config.recorder@, watch_url(search.items@[0].id.video_id@)),
    ensures
        start_of(config).1 == ActionModel::FetchUser(
            user_search_url(config.api_key@, config.channel@),
        ),
        step_of(config, start_of(config).0, TickEvent::UserFetched(Ok(user))) == (
            PhaseModel::AwaitSearch,
            ActionModel::FetchSearch(video_search_url(config.api_key@, user.items@[0].id@)),
        ),
        step_of(config, PhaseModel::AwaitSearch, TickEvent::SearchFetched(Ok(search))) == (
            PhaseModel::AwaitProcesses(live_video_of(search.items@)->Some_0),
            ActionModel::ScanProcesses,
        ),
        step_of(
            config,
            PhaseModel::AwaitProcesses(live_video_of(search.items@)->Some_0),
            TickEvent::ProcessesScanned(procs),
        ).1 == ActionModel::Spawn(config.recorder@, watch_url(search.items@[0].id.video_id@)),
{
}

} // verus!
