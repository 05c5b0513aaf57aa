//! The per-stream lifecycle: which capturer a stream gets, the clamping of
//! its capture interval, and the registry of running capture tasks.
//!
//! The registry is the state behind the manager's lock.  At most one task
//! handle exists per stream id at any instant: the registry is a map, a
//! start replaces any earlier handle, and a restart is a stop followed by a
//! start.

use std::collections::HashMap;

use vstd::prelude::*;

use crate::model::{SourceType, StreamRecord};

verus! {

broadcast use vstd::std_specs::hash::group_hash_axioms;

/// Declares tokio's task handle, which the registry holds per stream.
#[verifier::external_type_specification]
#[verifier::external_body]
#[verifier::reject_recursive_types(T)]
pub struct ExJoinHandle<T>(tokio::task::JoinHandle<T>);

/// Declared so the task handle's trait surface is visible; never read.
#[verifier::external_type_specification]
#[verifier::external_body]
pub struct ExJoinError(tokio::task::JoinError);

/// Relies on tokio's JoinHandle::abort: asks the runtime to cancel the
/// task at its next yield point.
#[verifier::external_body]
fn abort_task(handle: tokio::task::JoinHandle<()>) {
    handle.abort();
}

/// Which of the two capturer shapes serves a source.
#[derive(Debug, Clone, Copy, PartialEq, Eq, Structural)]
pub enum CapturerKind {
    /// A media-tool subprocess piping MJPEG frames.
    Subprocess,
    /// Periodic HTTP GET polling.
    Snapshot,
}

/// Snapshot sources poll over HTTP; every other kind runs the media tool.
pub fn capturer_kind(source: SourceType) -> (k: CapturerKind)
    ensures
        (k == CapturerKind::Snapshot) == (source == SourceType::Snapshot),
{
    if source == SourceType::Snapshot {
        CapturerKind::Snapshot
    } else {
        CapturerKind::Subprocess
    }
}

/// The capture interval in seconds, clamped so that zero or negative
/// configured values become one second.
pub fn clamp_interval_secs(configured: i32) -> (r: u64)
    ensures
        r == if configured < 1 {
            1u64
        } else {
            configured as u64
        },
{
    if configured < 1 {
        1
    } else {
        configured as u64
    }
}

/// The clamped capture interval in milliseconds, as the throttle takes it.
pub fn interval_ms(configured: i32) -> (r: i64)
    ensures
        r == 1000 * if configured < 1 {
            1i64
        } else {
            configured as i64
        },
{
    let secs: i64 = if configured < 1 {
        1
    } else {
        configured as i64
    };
    1000 * secs
}

/// Everything the spawner needs for one stream: the capturer shape, the
/// parsed source kind, and the clamped analysis interval.
pub struct CapturePlan {
    pub kind: CapturerKind,
    pub source: SourceType,
    pub interval_ms: i64,
}

/// Decides how a stream record is captured: parses its source kind and
/// clamps its interval.  A record with an unknown source kind starts no
/// capturer.
pub fn capture_plan(stream: &StreamRecord) -> (r: Option<CapturePlan>)
    ensures
        match r {
            Some(p) => {
                &&& SourceType::spec_from_str(stream.source_type@) == Some(p.source)
                &&& (p.kind == CapturerKind::Snapshot) == (p.source == SourceType::Snapshot)
                &&& p.interval_ms == 1000 * if stream.capture_interval_sec < 1 {
                    1i64
                } else {
                    stream.capture_interval_sec as i64
                }
            },
            None => SourceType::spec_from_str(stream.source_type@) is None,
        },
{
    match SourceType::from_str(stream.source_type.as_str()) {
        Some(source) => Some(
            CapturePlan {
                kind: capturer_kind(source),
                source,
                interval_ms: interval_ms(stream.capture_interval_sec),
            },
        ),
        None => None,
    }
}

/// The running capture tasks, one per stream id.  Keys are stream UUIDs as
/// 128-bit values.  This is the state behind the manager's lock.
pub struct TaskRegistry {
    tasks: HashMap<u128, tokio::task::JoinHandle<()>>,
}

impl TaskRegistry {
    /// The running capture task of each stream.
    pub closed spec fn task_map(self) -> Map<u128, tokio::task::JoinHandle<()>> {
        self.tasks@
    }

    /// Which streams have a running capture task.
    pub open spec fn task_ids(self) -> Set<u128> {
        self.task_map().dom()
    }

    /// An empty registry.
    pub fn new() -> (r: Self)
        ensures
            r.task_ids() == Set::<u128>::empty(),
    {
        TaskRegistry { tasks: HashMap::new() }
    }

    /// Records a freshly spawned capture task for a stream.  Any earlier
    /// handle for the same stream is handed back; this layer does not
    /// enforce idempotency, a restart is the supported mutation.
    pub fn insert_task(&mut self, stream_id: u128, handle: tokio::task::JoinHandle<()>) -> (r:
        Option<tokio::task::JoinHandle<()>>)
        ensures
            final(self).task_map() == old(self).task_map().insert(stream_id, handle),
            r is Some <==> old(self).task_ids().contains(stream_id),
    {
        let r = self.tasks.insert(stream_id, handle);
        proof {
            assert(final(self).tasks@.dom() =~= old(self).tasks@.dom().insert(stream_id));
        }
        r
    }

    /// Stops a stream's capture task, if it has one, and forgets it.  The
    /// aborted subprocess is reaped by the OS when its pipe closes.
    pub fn stop_stream(&mut self, stream_id: u128)
        ensures
            final(self).task_map() == old(self).task_map().remove(stream_id),
    {
        match self.tasks.remove(&stream_id) {
            Some(handle) => {
                abort_task(handle);
            },
            None => {},
        }
        proof {
            assert(final(self).tasks@.dom() =~= old(self).tasks@.dom().remove(stream_id));
        }
    }

    /// Replaces a stream's capture task: stop (removing and aborting any
    /// earlier task), then record the fresh handle.  Afterwards exactly
    /// one handle exists for the stream — the newly spawned one — and
    /// every other stream's task is untouched.
    pub fn restart_stream(&mut self, stream_id: u128, handle: tokio::task::JoinHandle<()>)
        ensures
            final(self).task_map() == old(self).task_map().insert(stream_id, handle),
            final(self).task_ids().contains(stream_id),
            final(self).task_map()[stream_id] == handle,
            forall|other: u128|
                other != stream_id ==> (final(self).task_ids().contains(other) == old(
                    self,
                ).task_ids().contains(other)),
    {
        self.stop_stream(stream_id);
        let _ = self.insert_task(stream_id, handle);
        proof {
            assert(final(self).task_map() =~= old(self).task_map().insert(stream_id, handle));
        }
    }
}

} // verus!
