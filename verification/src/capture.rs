//! The capture pipeline around one stream: the media-tool command line for
//! each source kind, the resolver call for mock web sources, the rolling
//! byte buffer that turns pipe reads into frames, and the throttled,
//! non-blocking hand-off of frames to the analysis queue.
//!
//! The surrounding process does the reading, spawning and sleeping; every
//! decision in between is made here.

use vstd::prelude::*;

use crate::frame_store::FrameStore;
use crate::jpeg::{extract_jpeg_frames, spec_frames, spec_remainder};
use crate::model::{CapturedFrame, SourceType};
use crate::text::{spec_trim, spec_u64_str, starts_with, trim, u64_to_string};

verus! {

/// Frames per second the media tool is asked for, for a smooth live view.
/// Analysis is throttled separately.
pub const LIVE_FPS: u64 = 15;

/// Seconds to wait before retrying after the media tool failed to spawn.
pub const SPAWN_RETRY_SECS: u64 = 5;

/// Seconds to wait before restarting after the media tool's pipe closed.
pub const PIPE_RETRY_SECS: u64 = 3;

/// Seconds to wait before retrying a failed mock-URL resolution.
pub const RESOLVE_RETRY_SECS: u64 = 10;

/// Timeout, in seconds, of one snapshot HTTP request.
pub const SNAPSHOT_TIMEOUT_SECS: u64 = 10;

/// The host platforms whose USB capture flags differ.
#[derive(Debug, Clone, Copy, PartialEq, Eq, Structural)]
pub enum HostOs {
    Windows,
    Linux,
    MacOs,
}

/// The output-side arguments shared by every media-tool command: throttle
/// to the live frame rate, allow the unofficial encoder strictness (as an
/// output option, after the input, or some builds drop it), and emit MJPEG
/// frames over the image pipe.
pub open spec fn spec_output_args() -> Seq<Seq<char>> {
    seq![
        "-vf"@,
        "fps="@ + spec_u64_str(LIVE_FPS as nat),
        "-strict"@,
        "unofficial"@,
        "-f"@,
        "image2pipe"@,
        "-vcodec"@,
        "mjpeg"@,
        "pipe:1"@,
    ]
}

/// A URL handled over HTTP rather than as a local path or device.
pub open spec fn spec_is_web_url(url: Seq<char>) -> bool {
    crate::text::spec_starts_with(url, "http://"@) || crate::text::spec_starts_with(
        url,
        "https://"@,
    )
}

/// Whether the URL is a web URL (`http://` or `https://`).
pub fn is_web_url(url: &str) -> (r: bool)
    ensures
        r == spec_is_web_url(url@),
{
    starts_with(url, "http://") || starts_with(url, "https://")
}

/// The media-tool argument list for capturing `url` of the given source
/// kind on the given host.  Snapshot sources never use the media tool and
/// get no arguments.
pub open spec fn spec_capture_args(os: HostOs, source: SourceType, url: Seq<char>) -> Seq<
    Seq<char>,
> {
    match source {
        SourceType::Rtsp => seq!["-y"@, "-rtsp_transport"@, "tcp"@, "-i"@, url]
            + spec_output_args(),
        SourceType::Mjpeg => seq!["-y"@, "-i"@, url] + spec_output_args(),
        SourceType::Usb => match os {
            HostOs::Windows => seq![
                "-y"@,
                "-f"@,
                "dshow"@,
                "-rtbufsize"@,
                "100M"@,
                "-i"@,
                "video="@ + url,
            ] + spec_output_args(),
            HostOs::Linux => seq!["-y"@, "-f"@, "v4l2"@, "-i"@, url] + spec_output_args(),
            HostOs::MacOs => seq!["-y"@, "-f"@, "avfoundation"@, "-i"@, url]
                + spec_output_args(),
        },
        SourceType::Mock => if spec_is_web_url(url) {
            seq!["-y"@, "-re"@, "-i"@, url] + spec_output_args()
        } else {
            seq!["-y"@, "-re"@, "-stream_loop"@, "-1"@, "-i"@, url] + spec_output_args()
        },
        SourceType::Snapshot => Seq::empty(),
    }
}

fn push_output_args(args: &mut Vec<String>)
    ensures
        final(args).deep_view() == old(args).deep_view() + spec_output_args(),
{
    args.push(String::from_str("-vf"));
    let mut fps = String::from_str("fps=");
    fps.append(u64_to_string(LIVE_FPS).as_str());
    args.push(fps);
    args.push(String::from_str("-strict"));
    args.push(String::from_str("unofficial"));
    args.push(String::from_str("-f"));
    args.push(String::from_str("image2pipe"));
    args.push(String::from_str("-vcodec"));
    args.push(String::from_str("mjpeg"));
    args.push(String::from_str("pipe:1"));
    proof {
        assert(final(args).deep_view() =~= old(args).deep_view() + spec_output_args());
    }
}

/// Builds the media-tool argument list for one capture process.  `url` is
/// the effective source URL, already resolved for mock web sources.
pub fn build_capture_args(os: HostOs, source: SourceType, url: &str) -> (args: Vec<String>)
    requires
        source != SourceType::Snapshot,
    ensures
        args.deep_view() == spec_capture_args(os, source, url@),
{
    let mut args: Vec<String> = Vec::new();
    args.push(String::from_str("-y"));
    match source {
        SourceType::Rtsp => {
            args.push(String::from_str("-rtsp_transport"));
            args.push(String::from_str("tcp"));
            args.push(String::from_str("-i"));
            args.push(url.to_owned());
        },
        SourceType::Mjpeg => {
            args.push(String::from_str("-i"));
            args.push(url.to_owned());
        },
        SourceType::Usb => {
            match os {
                HostOs::Windows => {
                    args.push(String::from_str("-f"));
                    args.push(String::from_str("dshow"));
                    args.push(String::from_str("-rtbufsize"));
                    args.push(String::from_str("100M"));
                    args.push(String::from_str("-i"));
                    let mut dev = String::from_str("video=");
                    dev.append(url);
                    args.push(dev);
                },
                HostOs::Linux => {
                    args.push(String::from_str("-f"));
                    args.push(String::from_str("v4l2"));
                    args.push(String::from_str("-i"));
                    args.push(url.to_owned());
                },
                HostOs::MacOs => {
                    args.push(String::from_str("-f"));
                    args.push(String::from_str("avfoundation"));
                    args.push(String::from_str("-i"));
                    args.push(url.to_owned());
                },
            }
        },
        SourceType::Mock => {
            args.push(String::from_str("-re"));
            if !is_web_url(url) {
                args.push(String::from_str("-stream_loop"));
                args.push(String::from_str("-1"));
            }
            args.push(String::from_str("-i"));
            args.push(url.to_owned());
        },
        SourceType::Snapshot => {},
    }
    push_output_args(&mut args);
    proof {
        assert(args.deep_view() =~= spec_capture_args(os, source, url@));
    }
    args
}

/// In every media-tool command this crate builds, the strictness flag
/// stands after the input option, where the encoder sees it: some builds
/// silently drop it as a global flag.
pub proof fn lemma_strict_flag_after_input(os: HostOs, source: SourceType, url: Seq<char>)
    requires
        source != SourceType::Snapshot,
    ensures
        exists|i: int, j: int|
            #![trigger spec_capture_args(os, source, url)[i], spec_capture_args(os, source, url)[j]]
            0 <= i < j < spec_capture_args(os, source, url).len() && spec_capture_args(
                os,
                source,
                url,
            )[i] == "-i"@ && spec_capture_args(os, source, url)[j] == "-strict"@,
{
    let args = spec_capture_args(os, source, url);
    let n = args.len() as int;
    assert(args[n - 7] == "-strict"@);
    match source {
        SourceType::Rtsp => {
            assert(args[3] == "-i"@ && 3 < n - 7);
        },
        SourceType::Mjpeg => {
            assert(args[1] == "-i"@ && 1 < n - 7);
        },
        SourceType::Usb => {
            match os {
                HostOs::Windows => {
                    assert(args[5] == "-i"@ && 5 < n - 7);
                },
                HostOs::Linux => {
                    assert(args[3] == "-i"@ && 3 < n - 7);
                },
                HostOs::MacOs => {
                    assert(args[3] == "-i"@ && 3 < n - 7);
                },
            }
        },
        SourceType::Mock => {
            if spec_is_web_url(url) {
                assert(args[2] == "-i"@ && 2 < n - 7);
            } else {
                assert(args[4] == "-i"@ && 4 < n - 7);
            }
        },
        SourceType::Snapshot => {},
    }
}

/// The URL-extractor arguments for resolving a mock web source: print the
/// direct URL of the best mp4 (or best available) format, no playlists.
pub open spec fn spec_resolver_args(url: Seq<char>) -> Seq<Seq<char>> {
    seq!["-g"@, "--no-playlist"@, "-f"@, "best[ext=mp4]/best"@, url]
}

/// Builds the URL-extractor argument list for a mock web source.
pub fn resolver_args(url: &str) -> (args: Vec<String>)
    ensures
        args.deep_view() == spec_resolver_args(url@),
{
    let mut args: Vec<String> = Vec::new();
    args.push(String::from_str("-g"));
    args.push(String::from_str("--no-playlist"));
    args.push(String::from_str("-f"));
    args.push(String::from_str("best[ext=mp4]/best"));
    args.push(url.to_owned());
    proof {
        assert(args.deep_view() =~= spec_resolver_args(url@));
    }
    args
}

/// What the resolver run yields: the trimmed URL it printed, or nothing
/// when it failed or printed only whitespace.  The caller backs off and
/// retries on nothing.
pub fn resolver_outcome(success: bool, stdout: &str) -> (r: Option<String>)
    ensures
        match r {
            Some(u) => success && u@ == spec_trim(stdout@) && u@.len() > 0,
            None => !success || spec_trim(stdout@).len() == 0,
        },
{
    if !success {
        return None;
    }
    let t = trim(stdout);
    if t.unicode_len() == 0 {
        None
    } else {
        Some(t.to_owned())
    }
}

/// Declares tokio's bounded-queue sender, the capturers' end of the
/// analysis queue.
#[verifier::external_type_specification]
#[verifier::external_body]
#[verifier::reject_recursive_types(T)]
pub struct ExMpscSender<T>(tokio::sync::mpsc::Sender<T>);

/// What became of a non-blocking hand-off to the analysis queue.
#[derive(Debug, Clone, Copy, PartialEq, Eq, Structural)]
pub enum SendOutcome {
    /// The queue took the frame.
    Sent,
    /// The queue is full; the frame is dropped and capture goes on.
    QueueFull,
    /// The queue is gone; capture should stop.
    QueueClosed,
}

/// Relies on tokio's mpsc::Sender::try_send: never waits; fails on a full
/// or closed queue.  The outcome depends on the other tasks of the process.
#[verifier::external_body]
fn queue_try_send(tx: &tokio::sync::mpsc::Sender<CapturedFrame>, frame: CapturedFrame) -> (r:
    SendOutcome) {
    match tx.try_send(frame) {
        Ok(()) => SendOutcome::Sent,
        Err(tokio::sync::mpsc::error::TrySendError::Full(_)) => SendOutcome::QueueFull,
        Err(tokio::sync::mpsc::error::TrySendError::Closed(_)) => SendOutcome::QueueClosed,
    }
}

/// The per-capturer state between pipe reads: the rolling byte buffer and
/// the analysis throttle.  Times are milliseconds since the epoch.
pub struct CapturePipe {
    /// Unconsumed bytes after the last extracted frame.
    pub buf: Vec<u8>,
    /// When a frame was last forwarded to the analysis queue.
    pub last_analysis: i64,
    /// The configured gap between forwarded frames.
    pub interval_ms: i64,
}

impl CapturePipe {
    /// A fresh pipe whose first extracted frame is forwarded immediately:
    /// the throttle starts one full interval in the past.
    pub fn new(now_ms: i64, interval_ms: i64) -> (p: Self)
        requires
            0 <= now_ms,
            0 <= interval_ms,
        ensures
            p.buf@ == Seq::<u8>::empty(),
            p.last_analysis == now_ms - interval_ms,
            p.interval_ms == interval_ms,
    {
        CapturePipe { buf: Vec::new(), last_analysis: now_ms - interval_ms, interval_ms }
    }

    /// Takes one pipe read, appends it to the rolling buffer, and hands
    /// back every complete frame; the buffer keeps the unconsumed
    /// remainder.
    pub fn ingest(&mut self, chunk: &[u8]) -> (frames: Vec<Vec<u8>>)
        ensures
            frames.deep_view() == spec_frames(old(self).buf@ + chunk@),
            final(self).buf@ == spec_remainder(old(self).buf@ + chunk@),
            final(self).last_analysis == old(self).last_analysis,
            final(self).interval_ms == old(self).interval_ms,
    {
        let mut incoming = vstd::slice::slice_to_vec(chunk);
        self.buf.append(&mut incoming);
        let (frames, remainder) = extract_jpeg_frames(self.buf.as_slice());
        self.buf = remainder;
        frames
    }

    /// Whether a frame that arrived now should go to the analysis queue:
    /// only when a full interval has passed since the last forward, which
    /// then resets the throttle.
    pub fn should_forward(&mut self, now_ms: i64) -> (send: bool)
        ensures
            send == (now_ms - old(self).last_analysis >= old(self).interval_ms),
            final(self).last_analysis == if send {
                now_ms
            } else {
                old(self).last_analysis
            },
            final(self).buf == old(self).buf,
            final(self).interval_ms == old(self).interval_ms,
    {
        let elapsed: i128 = (now_ms as i128) - (self.last_analysis as i128);
        if elapsed >= (self.interval_ms as i128) {
            self.last_analysis = now_ms;
            true
        } else {
            false
        }
    }
}

/// The throttle's accepted forward times, given the times at which frames
/// arrive: a frame is forwarded exactly when a full interval has passed
/// since the last forwarded one.  This is the repeated application of
/// [`CapturePipe::should_forward`].
pub open spec fn spec_forward_times(last: int, interval: int, arrivals: Seq<int>) -> Seq<int>
    decreases arrivals.len(),
{
    if arrivals.len() == 0 {
        Seq::empty()
    } else if arrivals[0] - last >= interval {
        seq![arrivals[0]] + spec_forward_times(arrivals[0], interval, arrivals.drop_first())
    } else {
        spec_forward_times(last, interval, arrivals.drop_first())
    }
}

/// Throttling: however fast frames arrive, any two frames forwarded to the
/// analysis queue are at least one interval apart, and every forwarded
/// frame is at least one interval after the throttle's starting point.
pub proof fn lemma_throttle_spacing(last: int, interval: int, arrivals: Seq<int>)
    requires
        interval >= 0,
    ensures
        forall|k: int|
            0 <= k < spec_forward_times(last, interval, arrivals).len()
                ==> #[trigger] spec_forward_times(last, interval, arrivals)[k] >= last + interval,
        forall|a: int, b: int|
            #![trigger spec_forward_times(last, interval, arrivals)[a], spec_forward_times(last, interval, arrivals)[b]]
            0 <= a && b == a + 1 && b < spec_forward_times(last, interval, arrivals).len()
                ==> spec_forward_times(last, interval, arrivals)[b] >= spec_forward_times(
                last,
                interval,
                arrivals,
            )[a] + interval,
    decreases arrivals.len(),
{
    if arrivals.len() == 0 {
    } else {
        let t = arrivals[0];
        let rest = arrivals.drop_first();
        if t - last >= interval {
            lemma_throttle_spacing(t, interval, rest);
            let tail = spec_forward_times(t, interval, rest);
            let whole = spec_forward_times(last, interval, arrivals);
            assert(whole == seq![t] + tail);
            assert(forall|k: int| 0 <= k < tail.len() ==> whole[k + 1] == #[trigger] tail[k]);
            assert(whole[0] == t);
            assert forall|k: int| 0 <= k < whole.len() implies #[trigger] whole[k] >= last
                + interval by {
                if k > 0 {
                    assert(whole[k] == tail[k - 1]);
                    assert(tail[k - 1] >= t + interval);
                }
            }
            assert forall|a: int, b: int|
                #![trigger whole[a], whole[b]]
                0 <= a && b == a + 1 && b < whole.len() implies whole[b] >= whole[a]
                + interval by {
                if a == 0 {
                    assert(whole[1] == tail[0]);
                    assert(tail[0] >= t + interval);
                } else {
                    assert(whole[a] == tail[a - 1] && whole[b] == tail[b - 1]);
                    assert(tail[b - 1] >= tail[a - 1] + interval);
                }
            }
        } else {
            lemma_throttle_spacing(last, interval, rest);
            assert(spec_forward_times(last, interval, arrivals) == spec_forward_times(
                last,
                interval,
                rest,
            ));
        }
    }
}

/// What the capture loop should do after handling one frame.
#[derive(Debug, Clone, Copy, PartialEq, Eq, Structural)]
pub enum CapturerAction {
    /// Keep reading the pipe.
    Continue,
    /// The analysis queue is gone: kill the subprocess and exit cleanly.
    Stop,
}

/// What the capture loop does with a try-send outcome: a taken frame and
/// a full queue both let capture go on — a full queue means the frame is
/// dropped silently — and only a closed queue ends the capturer.
pub fn capturer_action(outcome: SendOutcome) -> (r: CapturerAction)
    ensures
        (r == CapturerAction::Stop) <==> (outcome == SendOutcome::QueueClosed),
{
    match outcome {
        SendOutcome::Sent => CapturerAction::Continue,
        SendOutcome::QueueFull => CapturerAction::Continue,
        SendOutcome::QueueClosed => CapturerAction::Stop,
    }
}

/// Handles one extracted frame: always stores it for live viewers, and
/// forwards it to the analysis queue only when the throttle allows,
/// without ever waiting on the queue.  Only complete JPEGs — as the
/// extractor emits them — ever reach the store.
///
/// Returns the action together with the try-send outcome (absent when the
/// throttle held the frame back): the frame is offered to the queue
/// exactly when the throttle fires, a full queue drops it and capture
/// continues, and the capturer stops exactly on a closed queue.
pub fn process_extracted_frame(
    pipe: &mut CapturePipe,
    store: &mut FrameStore,
    tx: &tokio::sync::mpsc::Sender<CapturedFrame>,
    stream_id: u128,
    stream_name: &str,
    frame: Vec<u8>,
    now_ms: i64,
) -> (r: (CapturerAction, Option<SendOutcome>))
    requires
        crate::jpeg::frame_delimited(frame@),
    ensures
        final(store).latest_map().contains_key(stream_id),
        final(store).latest_map().index(stream_id)@ == frame@,
        final(store).latest_map().dom() == old(store).latest_map().dom().insert(stream_id),
        forall|other: u128|
            other != stream_id && old(store).latest_map().contains_key(other)
                ==> #[trigger] final(store).latest_map().index(other) == old(
                store,
            ).latest_map().index(other),
        final(store).channel_ids() == old(store).channel_ids().insert(stream_id),
        final(pipe).buf == old(pipe).buf,
        final(pipe).interval_ms == old(pipe).interval_ms,
        final(pipe).last_analysis == if now_ms - old(pipe).last_analysis >= old(
            pipe,
        ).interval_ms {
            now_ms
        } else {
            old(pipe).last_analysis
        },
        (r.1 is Some) <==> now_ms - old(pipe).last_analysis >= old(pipe).interval_ms,
        (r.0 == CapturerAction::Stop) <==> (r.1 == Some(SendOutcome::QueueClosed)),
{
    let copy = vstd::slice::slice_to_vec(frame.as_slice());
    store.push(stream_id, copy);
    proof {
        assert(final(store).latest_map().dom() =~= old(store).latest_map().dom().insert(
            stream_id,
        ));
    }
    if pipe.should_forward(now_ms) {
        let captured = CapturedFrame::new(stream_id, stream_name, frame, now_ms);
        let outcome = queue_try_send(tx, captured);
        (capturer_action(outcome), Some(outcome))
    } else {
        (CapturerAction::Continue, None)
    }
}

/// Whether a snapshot poll's HTTP status means the body is a frame.
pub fn snapshot_status_ok(status: u16) -> (r: bool)
    ensures
        r == (200 <= status < 300),
{
    200 <= status && status < 300
}

/// Wraps a snapshot poll's body as a captured frame.  Snapshot sources are
/// already throttled by their polling sleep and do not feed the live
/// store.
pub fn snapshot_frame(stream_id: u128, stream_name: &str, body: Vec<u8>, now_ms: i64) -> (f:
    CapturedFrame)
    ensures
        f.stream_id == stream_id,
        f.stream_name@ == stream_name@,
        f.data == body,
        f.captured_at == now_ms,
{
    CapturedFrame::new(stream_id, stream_name, body, now_ms)
}

} // verus!
