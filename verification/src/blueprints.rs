//! The compute side of blueprint handling: the base64 image field of a
//! create or update request is decoded and validated here; storage and
//! transport stay with the process.

use vstd::prelude::*;

use crate::b64::{b64_decode, b64_decode_of, b64_of, b64_encode};
use crate::errors::AppError;

verus! {

/// Decodes the optional base64 image of a blueprint request: an unset or
/// empty field means no image, invalid base64 is a bad request.
pub fn decode_blueprint_image(image_base64: &Option<String>) -> (r: Result<
    Option<Vec<u8>>,
    AppError,
>)
    ensures
        match r {
            Ok(img) => match img {
                Some(bytes) => {
                    &&& *image_base64 matches Some(s) && s@.len() > 0
                    &&& image_base64 matches Some(s) && b64_decode_of(s@) == Some(bytes@)
                },
                None => match *image_base64 {
                    Some(s) => s@.len() == 0,
                    None => true,
                },
            },
            Err(e) => {
                &&& e is BadRequest
                &&& image_base64 matches Some(s) && s@.len() > 0 && b64_decode_of(s@) is None
            },
        },
{
    match image_base64 {
        Some(s) => {
            if s.as_str().unicode_len() == 0 {
                Ok(None)
            } else {
                match b64_decode(s.as_str()) {
                    Some(bytes) => Ok(Some(bytes)),
                    None => Err(AppError::BadRequest(String::from_str("invalid image_base64"))),
                }
            }
        },
        None => Ok(None),
    }
}

/// Encodes a stored blueprint image for the API response.
pub fn encode_blueprint_image(image: &Option<Vec<u8>>) -> (r: Option<String>)
    requires
        match image {
            Some(b) => b@.len() <= usize::MAX as nat / 4,
            None => true,
        },
    ensures
        match r {
            Some(s) => *image matches Some(b) && s@ == b64_of(b@),
            None => image is None,
        },
{
    match image {
        Some(bytes) => Some(b64_encode(bytes.as_slice())),
        None => None,
    }
}

} // verus!
