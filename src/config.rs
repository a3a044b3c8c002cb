//! Configuration values that the store and the upload handler read, with
//! their defaults.
use vstd::prelude::*;
use vstd::string::*;

verus! {

/// The default maximum blob size, 8 MiB.
pub const DEFAULT_MAX_FILE_SIZE: u128 = 8 * 1024 * 1024;

/// The default total weight of the cache, 1 GiB.
pub const MAX_CACHE_SIZE: u64 = 1024 * 1024 * 1024;

/// The default root directory of the durable files.
pub const DEFAULT_STATIC_DIR: &'static str = "./static/";

/// The byte count that a size text such as `8MiB` denotes, if it is one.
pub uninterp spec fn byte_count_of(text: Seq<char>) -> Option<u128>;

/// Relies on byte_unit's `Byte::from_str` and `Byte::get_bytes`: the count is
/// a function of the text alone.
#[verifier::external_body]
fn parse_byte_count(text: &str) -> (r: Option<u128>)
    ensures
        r == byte_count_of(text@),
{
    match byte_unit::Byte::from_str(text) {
        Ok(b) => Some(b.get_bytes()),
        Err(_) => None,
    }
}

/// The maximum blob size that a parsed setting gives: the default where the
/// setting did not parse; `None` where it does not fit in `usize`.
pub fn size_limit_from(parsed: Option<u128>) -> (r: Option<usize>)
    ensures
        r == size_limit_from_spec(parsed),
{
    let n = match parsed {
        Some(n) => n,
        None => DEFAULT_MAX_FILE_SIZE,
    };
    if n <= usize::MAX as u128 {
        Some(n as usize)
    } else {
        None
    }
}

/// The maximum blob size in bytes, read from the configured size text, or the
/// default where none is configured or it does not parse. `None` where the
/// size does not fit in `usize`.
pub fn max_file_size(configured: Option<&str>) -> (r: Option<usize>)
    ensures
        r == size_limit_from_spec(
            match configured {
                Some(t) => byte_count_of(t@),
                None => None,
            },
        ),
{
    let parsed = match configured {
        Some(t) => parse_byte_count(t),
        None => None,
    };
    size_limit_from(parsed)
}

/// What `size_limit_from` returns.
pub open spec fn size_limit_from_spec(parsed: Option<u128>) -> Option<usize> {
    let n = match parsed {
        Some(n) => n,
        None => DEFAULT_MAX_FILE_SIZE,
    };
    if n <= usize::MAX {
        Some(n as usize)
    } else {
        None
    }
}

/// The root directory of the durable files: the configured one, or the
/// default.
pub fn static_image_dir(configured: Option<String>) -> (r: String)
    ensures
        r@ == match configured {
            Some(d) => d@,
            None => DEFAULT_STATIC_DIR@,
        },
{
    match configured {
        Some(d) => d,
        None => String::from_str(DEFAULT_STATIC_DIR),
    }
}

} // verus!
