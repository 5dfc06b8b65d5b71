//! Images of shops and offers: where they are served from, and which uploads
//! are accepted.
use vstd::prelude::*;
use base64::Engine;

use crate::status::{fails_with, Code, Status};

verus! {

/// Whether `b` starts as JPEG image data does.
pub open spec fn spec_is_jpeg(b: Seq<u8>) -> bool {
    b.len() > 2 && b[0] == 0xFF && b[1] == 0xD8 && b[2] == 0xFF
}

/// Whether `b` starts as JPEG 2000 image data does.
pub open spec fn spec_is_jpeg2000(b: Seq<u8>) -> bool {
    &&& b.len() > 12
    &&& b[0] == 0x0 && b[1] == 0x0 && b[2] == 0x0 && b[3] == 0xC
    &&& b[4] == 0x6A && b[5] == 0x50 && b[6] == 0x20 && b[7] == 0x20
    &&& b[8] == 0xD && b[9] == 0xA && b[10] == 0x87 && b[11] == 0xA
    &&& b[12] == 0x0
}

/// Whether `b` starts as PNG image data does.
pub open spec fn spec_is_png(b: Seq<u8>) -> bool {
    b.len() > 3 && b[0] == 0x89 && b[1] == 0x50 && b[2] == 0x4E && b[3] == 0x47
}

/// Calls `infer::image::is_jpeg`, which tests the first three bytes.
#[verifier::external_body]
fn is_jpeg(buf: &[u8]) -> (r: bool)
    ensures
        r == spec_is_jpeg(buf@),
{
    infer::image::is_jpeg(buf)
}

/// Calls `infer::image::is_jpeg2000`, which tests the first thirteen bytes.
#[verifier::external_body]
fn is_jpeg2000(buf: &[u8]) -> (r: bool)
    ensures
        r == spec_is_jpeg2000(buf@),
{
    infer::image::is_jpeg2000(buf)
}

/// Calls `infer::image::is_png`, which tests the first four bytes.
#[verifier::external_body]
fn is_png(buf: &[u8]) -> (r: bool)
    ensures
        r == spec_is_png(buf@),
{
    infer::image::is_png(buf)
}

/// What the standard base64 engine of the `base64` crate decodes the text `s`
/// (as its UTF-8 bytes) to, or nothing where the text is not valid base64.
pub uninterp spec fn base64_standard_decode(s: Seq<char>) -> Option<Seq<u8>>;

/// Calls `decode` of `base64::engine::general_purpose::STANDARD`. The
/// contract claims only that the result is the one named
/// `base64_standard_decode` for the text; which texts are valid base64 is left
/// to the crate.
#[verifier::external_body]
fn base64_decode(s: &String) -> (r: Option<Vec<u8>>)
    ensures
        r matches Some(v) ==> base64_standard_decode(s@) == Some(v@),
        r is None ==> base64_standard_decode(s@) is None,
{
    match base64::engine::general_purpose::STANDARD.decode(s) {
        Ok(v) => Some(v),
        Err(_) => None,
    }
}

/// Where images are served from and how large an upload may be.
pub struct ImageService {
    pub base_url: String,
    pub max_size: usize,
}

impl ImageService {
    /// An image service serving from `base_url` that accepts uploads smaller
    /// than `max_size` bytes.
    pub fn new(base_url: String, max_size: usize) -> (r: ImageService)
        ensures
            r.base_url == base_url,
            r.max_size == max_size,
    {
        ImageService { base_url, max_size }
    }

    /// The URL of the image stored at `image_path`.
    pub fn get_image_url(&self, image_path: &String) -> (r: String)
        ensures
            r@ == self.base_url@ + image_path@,
    {
        let mut url = self.base_url.clone();
        url.append(image_path.as_str());
        url
    }

    /// The URL of the image stored at `image_path`, if there is one.
    pub fn get_opt_image_url(&self, image_path: Option<String>) -> (r: Option<String>)
        ensures
            r matches Some(u) ==> (image_path matches Some(p) && u@ == self.base_url@ + p@),
            r is None <==> image_path is None,
    {
        match image_path {
            Some(p) => Some(self.get_image_url(&p)),
            None => None,
        }
    }

    /// The bytes of an image sent as base64 text.
    pub fn decode_base64(image_string: &String) -> (r: Result<Vec<u8>, Status>)
        ensures
            base64_standard_decode(image_string@) matches Some(b) ==> (r matches Ok(v) && v@
                == b),
            base64_standard_decode(image_string@) is None ==> fails_with(
                r,
                Code::InvalidArgument,
                "image"@,
            ),
    {
        match base64_decode(image_string) {
            Some(v) => Ok(v),
            None => Err(Status::invalid_argument("image")),
        }
    }

    /// Accepts an upload smaller than the limit that is JPEG, JPEG 2000 or PNG
    /// data; one too large is refused as exhausting resources, one of another
    /// kind as an invalid argument.
    pub fn validate_image(&self, image_data: &[u8]) -> (r: Result<(), Status>)
        ensures
            (image_data@.len() < self.max_size && (spec_is_jpeg(image_data@) || spec_is_jpeg2000(
                image_data@,
            ) || spec_is_png(image_data@))) ==> r is Ok,
            image_data@.len() >= self.max_size ==> fails_with(
                r,
                Code::ResourceExhausted,
                "image"@,
            ),
            (image_data@.len() < self.max_size && !(spec_is_jpeg(image_data@) || spec_is_jpeg2000(
                image_data@,
            ) || spec_is_png(image_data@))) ==> fails_with(r, Code::InvalidArgument, "image"@),
    {
        let image_size_ok = image_data.len() < self.max_size;
        let image_mime_ok = is_jpeg(image_data) || is_jpeg2000(image_data) || is_png(image_data);
        if image_size_ok && image_mime_ok {
            Ok(())
        } else if !image_size_ok {
            Err(Status::resource_exhausted("image"))
        } else {
            Err(Status::invalid_argument("image"))
        }
    }
}

} // verus!
