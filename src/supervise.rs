//! The recording decision: launch a recorder only for a live broadcast that
//! no running recorder captures yet.

use crate::inspect::{is_already_recording, recording, targets, ProcessInfo};
use crate::model::LiveVideo;
use crate::urls::{watch_url, youtube_live_link};
use vstd::prelude::*;

verus! {

/// What a tick does about recording.
#[derive(Clone, Debug)]
pub enum Decision {
    /// The channel is not live: nothing to record.
    NotLive,
    /// A recorder already captures the broadcast at this address.
    AlreadyRecording(String),
    /// Launch one recorder on this address.
    Record(String),
}

/// A decision with its address as characters.
pub enum Plan {
    NotLive,
    AlreadyRecording(Seq<char>),
    Record(Seq<char>),
}

impl View for Decision {
    type V = Plan;

    open spec fn view(&self) -> Plan {
        match self {
            Decision::NotLive => Plan::NotLive,
            Decision::AlreadyRecording(u) => Plan::AlreadyRecording(u@),
            Decision::Record(u) => Plan::Record(u@),
        }
    }
}

/// The decision for the broadcast `live`, given the process table `procs` and
/// the recorder's executable name `name`.
pub open spec fn plan_of(live: Option<LiveVideo>, procs: Seq<ProcessInfo>, name: Seq<char>) -> Plan {
    match live {
        None => Plan::NotLive,
        Some(v) => {
            let url = watch_url(v.video_id@);
            if recording(procs, name, url) {
                Plan::AlreadyRecording(url)
            } else {
                Plan::Record(url)
            }
        },
    }
}

/// Decides whether to launch the recorder `recorder` for `live`.
pub fn decide(live: &Option<LiveVideo>, procs: &Vec<ProcessInfo>, recorder: &String) -> (d: Decision)
    ensures
        d@ == plan_of(*live, procs@, recorder@),
{
    match live {
        None => Decision::NotLive,
        Some(v) => {
            let url = youtube_live_link(&v.video_id);
            if is_already_recording(procs, recorder, &url) {
                Decision::AlreadyRecording(url)
            } else {
                Decision::Record(url)
            }
        },
    }
}

/// A channel that is not live never has a recorder launched.
pub proof fn lemma_not_live_never_records(procs: Seq<ProcessInfo>, name: Seq<char>)
    ensures
        !(plan_of(None, procs, name) is Record),
{
}

/// A live broadcast that no recorder captures gets exactly one recorder,
/// launched on the broadcast's watch address.
pub proof fn lemma_live_unrecorded_records(v: LiveVideo, procs: Seq<ProcessInfo>, name: Seq<char>)
    requires
        !recording(procs, name, watch_url(v.video_id@)),
    ensures
        plan_of(Some(v), procs, name) == Plan::Record(watch_url(v.video_id@)),
{
}

/// Where a recorder already runs on the watch address of what is live, or
/// nothing is live, no recorder is launched.
pub proof fn lemma_recorded_never_relaunched(
    live: Option<LiveVideo>,
    procs: Seq<ProcessInfo>,
    name: Seq<char>,
)
    requires
        live is Some ==> recording(procs, name, watch_url(live->Some_0.video_id@)),
    ensures
        !(plan_of(live, procs, name) is Record),
{
}

/// Once the launched recorder shows in the process table, the next decision
/// on the same broadcast launches nothing.
pub proof fn lemma_launch_then_idle(
    v: LiveVideo,
    procs: Seq<ProcessInfo>,
    name: Seq<char>,
    launched: ProcessInfo,
)
    requires
        plan_of(Some(v), procs, name) is Record,
        targets(launched, name, watch_url(v.video_id@)),
    ensures
        plan_of(Some(v), procs.push(launched), name) == Plan::AlreadyRecording(
            watch_url(v.video_id@),
        ),
{
    let after = procs.push(launched);
    assert(after[procs.len() as int] == launched);
    assert(targets(after[procs.len() as int], name, watch_url(v.video_id@)));
}

} // verus!
