//! The wire format of the live view: each frame travels as one part of a
//! `multipart/x-mixed-replace` response.

use vstd::prelude::*;

use vstd::utf8::encode_utf8;

use crate::text::{spec_u64_str, u64_to_string};

verus! {

/// The boundary name of the live multipart response.
pub const MULTIPART_BOUNDARY: &'static str = "frame";

/// The header line of one live-view part, announcing a JPEG of `n` bytes.
pub open spec fn spec_part_header(n: nat) -> Seq<char> {
    "--frame\r\nContent-Type: image/jpeg\r\nContent-Length: "@ + spec_u64_str(n) + "\r\n\r\n"@
}

/// One part of the live multipart stream: the boundary and headers, the
/// JPEG bytes, and the closing line break.
pub open spec fn spec_multipart_part(frame: Seq<u8>) -> Seq<u8> {
    encode_utf8(spec_part_header(frame.len())) + frame + encode_utf8("\r\n"@)
}

/// Frames one JPEG as a part of the live multipart stream.
pub fn multipart_part(frame: &[u8]) -> (r: Vec<u8>)
    requires
        frame@.len() <= u64::MAX,
    ensures
        r@ == spec_multipart_part(frame@),
{
    let mut header = String::from_str("--frame\r\nContent-Type: image/jpeg\r\nContent-Length: ");
    header.append(u64_to_string(frame.len() as u64).as_str());
    header.append("\r\n\r\n");
    proof {
        assert(header@ =~= spec_part_header(frame@.len()));
    }
    let mut out: Vec<u8> = vstd::slice::slice_to_vec(header.as_str().as_bytes());
    let mut body: Vec<u8> = vstd::slice::slice_to_vec(frame);
    out.append(&mut body);
    let mut tail: Vec<u8> = vstd::slice::slice_to_vec("\r\n".as_bytes());
    out.append(&mut tail);
    proof {
        assert(out@ =~= spec_multipart_part(frame@));
    }
    out
}

} // verus!
