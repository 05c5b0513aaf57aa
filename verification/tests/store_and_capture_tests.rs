use std::sync::Arc;

use cipher_shield::capture::{
    build_capture_args, capturer_action, is_web_url, resolver_args, resolver_outcome,
    snapshot_frame, snapshot_status_ok, CapturePipe, CapturerAction, HostOs, SendOutcome,
};
use cipher_shield::frame_store::FrameStore;
use cipher_shield::model::SourceType;

fn jpeg(payload: &[u8]) -> Vec<u8> {
    let mut f = vec![0xff, 0xd8];
    f.extend_from_slice(payload);
    f.extend_from_slice(&[0xff, 0xd9]);
    f
}

#[test]
fn store_returns_latest_push() {
    let mut store = FrameStore::new();
    assert_eq!(store.get_latest(7), None);
    store.push(7, vec![1, 2, 3]);
    store.push(7, vec![4, 5]);
    store.push(8, vec![9]);
    assert_eq!(store.get_latest(7), Some(vec![4, 5]));
    assert_eq!(store.get_latest(8), Some(vec![9]));
    assert_eq!(store.get_latest(9), None);
}

#[test]
fn subscriber_sees_later_pushes() {
    let mut store = FrameStore::new();
    let mut rx = store.subscribe(3);
    store.push(3, vec![1]);
    store.push(3, vec![2]);
    let rt = tokio::runtime::Runtime::new().unwrap();
    let first = rt.block_on(rx.recv()).unwrap();
    assert_eq!(*first, vec![1]);
    let second = rt.block_on(rx.recv()).unwrap();
    assert_eq!(*second, vec![2]);
}

#[test]
fn concurrent_pushes_leave_one_of_the_pushed_values() {
    let rt = tokio::runtime::Runtime::new().unwrap();
    rt.block_on(async {
        let store = Arc::new(tokio::sync::RwLock::new(FrameStore::new()));
        let mut handles = Vec::new();
        for i in 0u8..16 {
            let store = Arc::clone(&store);
            handles.push(tokio::spawn(async move {
                store.write().await.push(1, vec![i; 4]);
            }));
        }
        for h in handles {
            h.await.unwrap();
        }
        let latest = store.read().await.get_latest(1).unwrap();
        assert_eq!(latest.len(), 4);
        assert!(latest[0] < 16);
        assert!(latest.iter().all(|b| *b == latest[0]));
    });
}

#[test]
fn rtsp_command_forces_tcp_and_places_strict_after_input() {
    let args = build_capture_args(HostOs::Linux, SourceType::Rtsp, "rtsp://cam/1");
    assert_eq!(
        args,
        vec![
            "-y",
            "-rtsp_transport",
            "tcp",
            "-i",
            "rtsp://cam/1",
            "-vf",
            "fps=15",
            "-strict",
            "unofficial",
            "-f",
            "image2pipe",
            "-vcodec",
            "mjpeg",
            "pipe:1",
        ]
    );
    let input = args.iter().position(|a| a == "-i").unwrap();
    let strict = args.iter().position(|a| a == "-strict").unwrap();
    assert!(input < strict);
}

#[test]
fn usb_commands_differ_per_host() {
    let win = build_capture_args(HostOs::Windows, SourceType::Usb, "Integrated Camera");
    assert!(win.contains(&"dshow".to_string()));
    assert!(win.contains(&"-rtbufsize".to_string()));
    assert!(win.contains(&"video=Integrated Camera".to_string()));
    let linux = build_capture_args(HostOs::Linux, SourceType::Usb, "/dev/video0");
    assert!(linux.contains(&"v4l2".to_string()));
    let mac = build_capture_args(HostOs::MacOs, SourceType::Usb, "0");
    assert!(mac.contains(&"avfoundation".to_string()));
}

#[test]
fn mock_local_file_loops_and_web_does_not() {
    let local = build_capture_args(HostOs::Linux, SourceType::Mock, "/videos/a.mp4");
    assert!(local.contains(&"-stream_loop".to_string()));
    assert!(local.contains(&"-1".to_string()));
    let web = build_capture_args(HostOs::Linux, SourceType::Mock, "https://cdn/video.mp4");
    assert!(!web.contains(&"-stream_loop".to_string()));
    assert!(web.contains(&"-re".to_string()));
}

#[test]
fn web_url_detection() {
    assert!(is_web_url("http://a/b"));
    assert!(is_web_url("https://a/b"));
    assert!(!is_web_url("/dev/video0"));
    assert!(!is_web_url("ftp://a"));
}

#[test]
fn resolver_invocation_and_outcome() {
    assert_eq!(
        resolver_args("https://tube/watch?v=1"),
        vec!["-g", "--no-playlist", "-f", "best[ext=mp4]/best", "https://tube/watch?v=1"]
    );
    assert_eq!(resolver_outcome(false, "https://cdn/x"), None);
    assert_eq!(resolver_outcome(true, "  \n"), None);
    assert_eq!(resolver_outcome(true, " https://cdn/x \n"), Some("https://cdn/x".to_string()));
}

#[test]
fn pipe_accumulates_and_throttles() {
    let mut pipe = CapturePipe::new(10_000, 3_000);
    let f = jpeg(&[1, 2, 3]);
    let frames = pipe.ingest(&f[..3]);
    assert!(frames.is_empty());
    let frames = pipe.ingest(&f[3..]);
    assert_eq!(frames, vec![f.clone()]);
    // The first frame is forwarded immediately; then one per interval.
    assert!(pipe.should_forward(10_000));
    assert!(!pipe.should_forward(10_500));
    assert!(!pipe.should_forward(12_999));
    assert!(pipe.should_forward(13_000));
    assert!(!pipe.should_forward(14_000));
}

#[test]
fn throttle_counts_frames_like_the_live_rate() {
    // A 15 fps capturer over 10 s with a 3 s interval forwards 4 frames:
    // at 0 s, 3 s, 6 s and 9 s.
    let mut pipe = CapturePipe::new(0, 3_000);
    let mut forwarded = 0;
    let mut t: i64 = 0;
    for _ in 0..150 {
        if pipe.should_forward(t) {
            forwarded += 1;
        }
        t += 1_000 / 15;
    }
    assert_eq!(forwarded, 4);
}

#[test]
fn full_queue_drops_frames_without_waiting() {
    // Capacity one and a stalled consumer: the first frame is taken, the
    // rest are dropped, and the sender never blocks.
    let (tx, mut rx) = tokio::sync::mpsc::channel::<u32>(1);
    let mut sent = 0;
    let mut dropped = 0;
    for i in 0..30 {
        match tx.try_send(i) {
            Ok(()) => sent += 1,
            Err(tokio::sync::mpsc::error::TrySendError::Full(_)) => dropped += 1,
            Err(tokio::sync::mpsc::error::TrySendError::Closed(_)) => panic!("closed"),
        }
    }
    assert_eq!(sent, 1);
    assert_eq!(dropped, 29);
    assert_eq!(rx.try_recv().unwrap(), 0);
}

#[test]
fn store_keeps_filling_while_queue_is_full() {
    let mut store = FrameStore::new();
    let (tx, _rx) = tokio::sync::mpsc::channel::<u32>(1);
    let mut delivered = 0;
    for i in 0u8..30 {
        store.push(5, vec![i]);
        if tx.try_send(i as u32).is_ok() {
            delivered += 1;
        }
    }
    assert_eq!(delivered, 1);
    assert_eq!(store.get_latest(5), Some(vec![29]));
}

#[test]
fn snapshot_decisions() {
    assert!(snapshot_status_ok(200));
    assert!(snapshot_status_ok(204));
    assert!(!snapshot_status_ok(199));
    assert!(!snapshot_status_ok(301));
    assert!(!snapshot_status_ok(500));
    let f = snapshot_frame(42, "door", vec![9, 9], 777);
    assert_eq!(f.stream_id, 42);
    assert_eq!(f.stream_name, "door");
    assert_eq!(f.data, vec![9, 9]);
    assert_eq!(f.captured_at, 777);
}

#[test]
fn capture_step_stores_every_frame_and_throttles_sends() {
    let mut store = FrameStore::new();
    let mut pipe = CapturePipe::new(0, 3_000);
    let (tx, mut rx) = tokio::sync::mpsc::channel::<cipher_shield::model::CapturedFrame>(1);
    let mut t: i64 = 0;
    for i in 0u8..30 {
        let frame = jpeg(&[i]);
        let (action, outcome) = cipher_shield::capture::process_extracted_frame(
            &mut pipe, &mut store, &tx, 6, "lot", frame, t,
        );
        assert_eq!(action, CapturerAction::Continue);
        if i == 0 {
            assert_eq!(outcome, Some(SendOutcome::Sent));
        } else {
            assert_eq!(outcome, None);
        }
        t += 66;
    }
    // Every frame reached the store; only the first passed the throttle
    // and fit the queue.
    assert_eq!(store.get_latest(6), Some(jpeg(&[29])));
    let delivered = rx.try_recv().unwrap();
    assert_eq!(delivered.stream_id, 6);
    assert_eq!(delivered.stream_name, "lot");
    assert_eq!(delivered.data, jpeg(&[0]));
    assert!(rx.try_recv().is_err());
}

#[test]
fn full_queue_drops_and_continues_closed_queue_stops() {
    // Capacity one with nothing consuming: the first eligible frame is
    // taken, the next is dropped on the full queue and capture goes on.
    let mut store = FrameStore::new();
    let mut pipe = CapturePipe::new(0, 1_000);
    let (tx, rx) = tokio::sync::mpsc::channel::<cipher_shield::model::CapturedFrame>(1);
    let (a0, o0) = cipher_shield::capture::process_extracted_frame(
        &mut pipe, &mut store, &tx, 7, "door", jpeg(&[1]), 0,
    );
    assert_eq!((a0, o0), (CapturerAction::Continue, Some(SendOutcome::Sent)));
    let (a1, o1) = cipher_shield::capture::process_extracted_frame(
        &mut pipe, &mut store, &tx, 7, "door", jpeg(&[2]), 1_000,
    );
    assert_eq!((a1, o1), (CapturerAction::Continue, Some(SendOutcome::QueueFull)));
    // Dropping the receiver closes the queue: the next eligible frame
    // ends the capturer, and it still reached the store first.
    drop(rx);
    let (a2, o2) = cipher_shield::capture::process_extracted_frame(
        &mut pipe, &mut store, &tx, 7, "door", jpeg(&[3]), 2_000,
    );
    assert_eq!((a2, o2), (CapturerAction::Stop, Some(SendOutcome::QueueClosed)));
    assert_eq!(store.get_latest(7), Some(jpeg(&[3])));
    assert_eq!(capturer_action(SendOutcome::Sent), CapturerAction::Continue);
    assert_eq!(capturer_action(SendOutcome::QueueFull), CapturerAction::Continue);
    assert_eq!(capturer_action(SendOutcome::QueueClosed), CapturerAction::Stop);
}
