//! The decisions of the upload form: how much each field may carry, and
//! whether an upload is taken and under which key.
use crate::key::{derive_key, derived_key, Rejected};
use vstd::prelude::*;
use vstd::string::*;

verus! {

/// The form field that carries the image name.
pub const IMG_NYM_FIELD_NAME: &'static str = "imagenym";

/// The form field that carries the image bytes.
pub const IMG_DATA_FIELD_NAME: &'static str = "imagefile";

/// Room for the multipart framing around the image bytes.
pub const FORM_OVERHEAD: usize = 1024;

/// The largest upload accepted, framing included: the blob maximum plus the
/// framing room, saturating at `usize::MAX`.
pub open spec fn upload_limit_spec(max_file_size: usize) -> usize {
    if max_file_size + FORM_OVERHEAD > usize::MAX {
        usize::MAX
    } else {
        (max_file_size + FORM_OVERHEAD) as usize
    }
}

pub fn upload_limit(max_file_size: usize) -> (r: usize)
    ensures
        r == upload_limit_spec(max_file_size),
{
    max_file_size.saturating_add(FORM_OVERHEAD)
}

/// Whether two texts hold the same characters.
pub fn same_text(a: &str, b: &str) -> (r: bool)
    ensures
        r == (a@ == b@),
{
    let n = a.unicode_len();
    if n != b.unicode_len() {
        return false;
    }
    let mut i: usize = 0;
    while i < n
        invariant
            n == a@.len(),
            n == b@.len(),
            i <= n,
            forall|j: int| 0 <= j < i ==> a@[j] == b@[j],
        decreases n - i,
    {
        if a.get_char(i) != b.get_char(i) {
            return false;
        }
        i = i + 1;
    }
    assert(a@ =~= b@);
    true
}

/// How many bytes the form field `field_name` may carry: the name limit for
/// the name field, the upload limit for the image field, none for others.
pub fn field_limit(field_name: &str, max_file_size: usize) -> (r: Option<usize>)
    ensures
        r == if field_name@ == IMG_NYM_FIELD_NAME@ {
            Some(crate::key::MAX_RESOURCE_NAME_LENGTH)
        } else if field_name@ == IMG_DATA_FIELD_NAME@ {
            Some(upload_limit_spec(max_file_size))
        } else {
            None::<usize>
        },
{
    if same_text(field_name, IMG_NYM_FIELD_NAME) {
        Some(crate::key::MAX_RESOURCE_NAME_LENGTH)
    } else if same_text(field_name, IMG_DATA_FIELD_NAME) {
        Some(upload_limit(max_file_size))
    } else {
        None
    }
}

/// Why an upload is turned away.
#[derive(Debug, Clone, Copy, PartialEq, Eq, Structural)]
pub enum UploadRejection {
    PayloadTooLarge,
    InvalidName,
}

/// Decides on an upload: too large when the declared content length exceeds
/// the upload limit; otherwise the key of its name, or an invalid name.
pub fn check_upload(content_length: usize, image_name: &str, max_file_size: usize) -> (r: Result<
    String,
    UploadRejection,
>)
    ensures
        content_length > upload_limit_spec(max_file_size) ==> r == Err::<String, UploadRejection>(
            UploadRejection::PayloadTooLarge,
        ),
        content_length <= upload_limit_spec(max_file_size) ==> match r {
            Ok(k) => derived_key(image_name@) == Some(k@),
            Err(e) => e == UploadRejection::InvalidName && derived_key(image_name@) is None,
        },
{
    if content_length > upload_limit(max_file_size) {
        return Err(UploadRejection::PayloadTooLarge);
    }
    match derive_key(image_name) {
        Ok(k) => Ok(k),
        Err(Rejected) => Err(UploadRejection::InvalidName),
    }
}

} // verus!
