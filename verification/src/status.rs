use vstd::prelude::*;

verus! {

/// The category a status code falls in: codes in `[200, 299]` are
/// `"Success"`, `404` is `"Not Found"`, and everything else is `"Unknown"`.
/// The ranges are tried in that order and the first match wins.
pub open spec fn status_category(code: u16) -> Seq<char> {
    if 200 <= code <= 299 {
        "Success"@
    } else if code == 404 {
        "Not Found"@
    } else {
        "Unknown"@
    }
}

/// Maps a status code to its human-readable category.
pub fn parse_status(code: u16) -> (r: &'static str)
    ensures
        r@ == status_category(code),
{
    match code {
        200..=299 => "Success",
        404 => "Not Found",
        _ => "Unknown",
    }
}

} // verus!
