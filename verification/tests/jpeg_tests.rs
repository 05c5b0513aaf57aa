use cipher_shield::extract_jpeg_frames;

fn jpeg(payload: &[u8]) -> Vec<u8> {
    let mut f = vec![0xff, 0xd8];
    f.extend_from_slice(payload);
    f.extend_from_slice(&[0xff, 0xd9]);
    f
}

#[test]
fn extracts_single_frame() {
    let f = jpeg(&[1, 2, 3]);
    let (frames, rest) = extract_jpeg_frames(&f);
    assert_eq!(frames, vec![f.clone()]);
    assert!(rest.is_empty());
}

#[test]
fn frames_are_delimited_and_remainder_opens_a_frame() {
    let mut data = vec![9u8, 9, 9];
    data.extend_from_slice(&jpeg(&[1]));
    data.extend_from_slice(&[0u8, 0]);
    data.extend_from_slice(&jpeg(&[2, 2]));
    data.extend_from_slice(&[0xff, 0xd8, 5, 5]);
    let (frames, rest) = extract_jpeg_frames(&data);
    for f in &frames {
        assert!(f.len() >= 4);
        assert_eq!(&f[..2], &[0xff, 0xd8]);
        assert_eq!(&f[f.len() - 2..], &[0xff, 0xd9]);
    }
    assert_eq!(frames.len(), 2);
    assert_eq!(&rest[..2], &[0xff, 0xd8]);
}

#[test]
fn garbage_between_frames_is_discarded() {
    let a = jpeg(&[1, 2, 3]);
    let b = jpeg(&[4, 5]);
    let c = jpeg(&[6]);
    let mut data = vec![0x00u8, 0x10, 0x20];
    data.extend_from_slice(&a);
    data.extend_from_slice(&[0x30u8, 0x40]);
    data.extend_from_slice(&b);
    data.extend_from_slice(&[0x50u8]);
    data.extend_from_slice(&c);
    data.extend_from_slice(&[0x60u8, 0x70]);
    let (frames, rest) = extract_jpeg_frames(&data);
    assert_eq!(frames, vec![a, b, c]);
    assert!(rest.is_empty());
}

#[test]
fn spurious_end_marker_is_dropped() {
    let f = jpeg(&[7, 8]);
    let mut data = vec![0xffu8, 0xd9, 0x01];
    data.extend_from_slice(&f);
    let (frames, rest) = extract_jpeg_frames(&data);
    assert_eq!(frames, vec![f]);
    assert!(rest.is_empty());
}

#[test]
fn new_start_marker_discards_partial_frame() {
    let f = jpeg(&[9]);
    let mut data = vec![0xffu8, 0xd8, 1, 2, 3];
    data.extend_from_slice(&f);
    let (frames, rest) = extract_jpeg_frames(&data);
    assert_eq!(frames.len(), 1);
    assert_eq!(frames[0], f);
    assert!(rest.is_empty());
}

#[test]
fn split_frame_reassembles_across_chunks() {
    let f = jpeg(&[1, 2, 3, 4, 5, 6, 7, 8]);
    for cut1 in [2usize, 3, 5, 7] {
        for cut2 in [8usize, 9, 10] {
            if cut1 >= cut2 || cut2 > f.len() {
                continue;
            }
            let mut collected = Vec::new();
            let mut buf: Vec<u8> = Vec::new();
            for chunk in [&f[..cut1], &f[cut1..cut2], &f[cut2..]] {
                buf.extend_from_slice(chunk);
                let (frames, rest) = extract_jpeg_frames(&buf);
                collected.extend(frames);
                buf = rest;
            }
            assert_eq!(collected, vec![f.clone()]);
            assert!(buf.is_empty());
        }
    }
}

#[test]
fn empty_and_tiny_inputs() {
    let (frames, rest) = extract_jpeg_frames(&[]);
    assert!(frames.is_empty());
    assert!(rest.is_empty());
    let (frames, rest) = extract_jpeg_frames(&[0xff]);
    assert!(frames.is_empty());
    assert!(rest.is_empty());
    let (frames, rest) = extract_jpeg_frames(&[0xff, 0xd8]);
    assert!(frames.is_empty());
    assert_eq!(rest, vec![0xff, 0xd8]);
}
