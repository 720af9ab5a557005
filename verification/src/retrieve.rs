//! Video retrieval: the signed download URL and the temporary file.
//!
//! The generation service returns a signed URI; the download appends the
//! caller's key as one more query parameter and streams the body into a
//! fixed temporary file name, which the run deletes after extraction.  The
//! transfer and the write are the shell's work; what is fixed here is the
//! exact URL and the file name.

use vstd::prelude::*;

verus! {

/// The URL a returned video URI is fetched from: the URI with the caller's
/// key appended as a further query parameter.
pub fn build_download_url(video_uri: &str, api_key: &str) -> (r: String)
    ensures
        r@ == video_uri@ + "&key="@ + api_key@,
{
    let mut out = String::new();
    out.push_str(video_uri);
    out.push_str("&key=");
    out.push_str(api_key);
    out
}

/// The fixed name the downloaded video is stored under in the temporary
/// directory.  One run at a time owns it; it is removed after extraction.
pub fn video_temp_name() -> (r: String)
    ensures
        r@ == "video.mp4"@,
{
    "video.mp4".to_owned()
}

} // verus!
