//! The live-frame store: the most recent JPEG of every active stream, and a
//! small bounded broadcast channel per stream for live viewers.
//!
//! This is the state behind the store's lock; the surrounding process wraps
//! it in a reader-writer lock and shares it.  A `push` replaces the latest
//! frame and publishes a shared handle to the frame bytes; viewers that fall
//! behind the channel's small buffer skip forward rather than slowing
//! capture down.

use std::collections::HashMap;
use std::sync::Arc;

use vstd::prelude::*;

verus! {

broadcast use vstd::std_specs::hash::group_hash_axioms;

/// How many frames each per-stream broadcast channel buffers.  Live viewers
/// that fall behind drop frames, which is intended.
pub const LIVE_CHANNEL_CAPACITY: usize = 2;

/// Declares tokio's broadcast sender, the publish end of a live channel.
#[verifier::external_type_specification]
#[verifier::external_body]
#[verifier::reject_recursive_types(T)]
pub struct ExBroadcastSender<T>(tokio::sync::broadcast::Sender<T>);

/// Declares tokio's broadcast receiver, handed to each live viewer.
#[verifier::external_type_specification]
#[verifier::external_body]
#[verifier::reject_recursive_types(T)]
pub struct ExBroadcastReceiver<T>(tokio::sync::broadcast::Receiver<T>);

/// Relies on tokio's broadcast::Sender::new: a fresh channel with the given
/// buffer capacity; it panics on a zero capacity and rounds small ones up.
#[verifier::external_body]
fn bc_new_sender(capacity: usize) -> (tx: tokio::sync::broadcast::Sender<Arc<Vec<u8>>>)
    requires
        1 <= capacity <= usize::MAX / 4,
{
    tokio::sync::broadcast::Sender::new(capacity)
}

/// Relies on tokio's broadcast::Sender::send: hands the value to every
/// current subscriber; the result says whether any subscriber existed, which
/// depends on the process's other tasks.
#[verifier::external_body]
fn bc_send(tx: &tokio::sync::broadcast::Sender<Arc<Vec<u8>>>, value: Arc<Vec<u8>>) -> (delivered:
    bool) {
    match tx.send(value) {
        Ok(_) => true,
        Err(_) => false,
    }
}

/// Relies on tokio's broadcast::Sender::subscribe: a fresh receiver that
/// sees every value sent after this call.
#[verifier::external_body]
fn bc_subscribe(tx: &tokio::sync::broadcast::Sender<Arc<Vec<u8>>>) -> (rx:
    tokio::sync::broadcast::Receiver<Arc<Vec<u8>>>) {
    tx.subscribe()
}

/// The latest-frame slot and live channel of every stream that has pushed
/// or been subscribed to.  Keys are stream UUIDs as 128-bit values.
pub struct FrameStore {
    latest: HashMap<u128, Vec<u8>>,
    channels: HashMap<u128, tokio::sync::broadcast::Sender<Arc<Vec<u8>>>>,
}

impl FrameStore {
    /// The latest frame of each stream.
    pub closed spec fn latest_map(self) -> Map<u128, Vec<u8>> {
        self.latest@
    }

    /// Which streams have a live channel.
    pub closed spec fn channel_ids(self) -> Set<u128> {
        self.channels@.dom()
    }

    /// An empty store: no frames, no channels.
    pub fn new() -> (s: Self)
        ensures
            s.latest_map() == Map::<u128, Vec<u8>>::empty(),
            s.channel_ids() == Set::<u128>::empty(),
    {
        FrameStore { latest: HashMap::new(), channels: HashMap::new() }
    }

    /// Stores `frame` as the stream's latest frame, replacing the previous
    /// one, and publishes a shared handle to it on the stream's live
    /// channel, creating the channel on first use.  A publish with no
    /// subscribers is not an error.
    pub fn push(&mut self, stream_id: u128, frame: Vec<u8>)
        ensures
            final(self).latest_map() == old(self).latest_map().insert(stream_id, frame),
            final(self).channel_ids() == old(self).channel_ids().insert(stream_id),
    {
        let handle: Arc<Vec<u8>> = Arc::new(frame.clone());
        self.latest.insert(stream_id, frame);
        if !self.channels.contains_key(&stream_id) {
            let tx = bc_new_sender(LIVE_CHANNEL_CAPACITY);
            self.channels.insert(stream_id, tx);
        }
        match self.channels.get(&stream_id) {
            Some(tx) => {
                let _ = bc_send(tx, handle);
            },
            None => {},
        }
        proof {
            assert(final(self).channels@.dom() =~= old(self).channels@.dom().insert(stream_id));
        }
    }

    /// A copy of the stream's most recent frame, or nothing when the stream
    /// has never pushed.
    pub fn get_latest(&self, stream_id: u128) -> (r: Option<Vec<u8>>)
        ensures
            match r {
                Some(f) => self.latest_map().contains_key(stream_id) && f@
                    == self.latest_map().index(stream_id)@,
                None => !self.latest_map().contains_key(stream_id),
            },
    {
        match self.latest.get(&stream_id) {
            Some(f) => Some(f.clone()),
            None => None,
        }
    }

    /// A receiver for the stream's live channel, created on first use.  The
    /// receiver sees every frame pushed after this call, up to the
    /// channel's small buffer.
    pub fn subscribe(&mut self, stream_id: u128) -> (rx: tokio::sync::broadcast::Receiver<
        Arc<Vec<u8>>,
    >)
        ensures
            final(self).latest_map() == old(self).latest_map(),
            final(self).channel_ids() == old(self).channel_ids().insert(stream_id),
    {
        if !self.channels.contains_key(&stream_id) {
            let tx = bc_new_sender(LIVE_CHANNEL_CAPACITY);
            self.channels.insert(stream_id, tx);
        }
        let rx = match self.channels.get(&stream_id) {
            Some(tx) => bc_subscribe(tx),
            None => {
                let tx = bc_new_sender(LIVE_CHANNEL_CAPACITY);
                bc_subscribe(&tx)
            },
        };
        proof {
            assert(final(self).channels@.dom() =~= old(self).channels@.dom().insert(stream_id));
        }
        rx
    }
}

/// The latest map after a sequence of pushes for one stream, in the order
/// the store's lock serialized them.
pub open spec fn apply_pushes(m: Map<u128, Vec<u8>>, id: u128, frames: Seq<Vec<u8>>) -> Map<
    u128,
    Vec<u8>,
>
    decreases frames.len(),
{
    if frames.len() == 0 {
        m
    } else {
        apply_pushes(m, id, frames.drop_last()).insert(id, frames.last())
    }
}

/// However many pushes for one stream race, they serialize through the
/// store's lock into some order, and afterwards the latest slot holds
/// exactly the frame pushed last in that order — always one of the pushed
/// frames, whole, never a mixture.
pub proof fn lemma_concurrent_pushes(m: Map<u128, Vec<u8>>, id: u128, frames: Seq<Vec<u8>>)
    requires
        frames.len() > 0,
    ensures
        apply_pushes(m, id, frames).contains_key(id),
        apply_pushes(m, id, frames)[id] == frames.last(),
        frames.contains(apply_pushes(m, id, frames)[id]),
    decreases frames.len(),
{
    assert(frames[frames.len() - 1] == frames.last());
}

/// What a reader observes after a write: once a frame is pushed for a
/// stream, that stream's latest slot holds exactly that frame, and no other
/// stream's slot has moved.
pub proof fn lemma_push_then_get(store: FrameStore, pushed: FrameStore, id: u128, frame: Vec<u8>)
    requires
        pushed.latest_map() == store.latest_map().insert(id, frame),
    ensures
        pushed.latest_map().contains_key(id),
        pushed.latest_map()[id] == frame,
        forall|other: u128|
            other != id && store.latest_map().contains_key(other)
                ==> #[trigger] pushed.latest_map()[other] == store.latest_map()[other],
{
}

} // verus!
