//! The exact strings the service builds: the provider's content-download
//! location, the service's own proxy locations handed out on completion, and
//! the multipart body of a submission.

use vstd::prelude::*;
use vstd::string::StringExecFns;
use crate::strutil::{dec_int, i64_to_string};

verus! {

/// The provider's content-download location for a job and variant.
pub open spec fn spec_download_url(vid: Seq<char>, variant: Seq<char>) -> Seq<char> {
    "https://api.openai.com/v1/videos/"@ + vid + "/content?variant="@ + variant
}

/// Builds the provider's content-download location.
pub fn build_download_url(video_id: &str, variant: &str) -> (r: String)
    ensures
        r@ == spec_download_url(video_id@, variant@),
{
    String::from_str("https://api.openai.com/v1/videos/").concat(video_id).concat(
        "/content?variant=",
    ).concat(variant)
}

/// The service's proxy location for a job, variant and account.
pub open spec fn spec_proxy_url(
    base: Seq<char>,
    vid: Seq<char>,
    variant: Seq<char>,
    uid: Seq<char>,
) -> Seq<char> {
    base + "/v1/videos/"@ + vid + "/proxy?variant="@ + variant + "&user_id="@ + uid
}

/// Builds the service's proxy location handed out for completed content.
pub fn build_proxy_url(service_url: &str, openai_video_id: &str, variant: &str, user_id: &str)
    -> (r: String)
    ensures
        r@ == spec_proxy_url(service_url@, openai_video_id@, variant@, user_id@),
{
    String::from_str(service_url).concat("/v1/videos/").concat(openai_video_id).concat(
        "/proxy?variant=",
    ).concat(variant).concat("&user_id=").concat(user_id)
}

/// The multipart body of a submission to the provider.
pub open spec fn spec_video_form(
    model: Seq<char>,
    prompt: Seq<char>,
    size: Seq<char>,
    seconds: int,
) -> Seq<char> {
    "--boundary\r\nContent-Disposition: form-data; name=\"model\"\r\n\r\n"@ + model
        + "\r\n--boundary\r\nContent-Disposition: form-data; name=\"prompt\"\r\n\r\n"@ + prompt
        + "\r\n--boundary\r\nContent-Disposition: form-data; name=\"size\"\r\n\r\n"@ + size
        + "\r\n--boundary\r\nContent-Disposition: form-data; name=\"seconds\"\r\n\r\n"@ + dec_int(
        seconds,
    ) + "\r\n--boundary--\r\n"@
}

/// Builds the multipart body of a submission to the provider.
pub fn build_video_form(model: &str, prompt: &str, size: &str, seconds: i32) -> (r: String)
    ensures
        r@ == spec_video_form(model@, prompt@, size@, seconds as int),
{
    String::from_str("--boundary\r\nContent-Disposition: form-data; name=\"model\"\r\n\r\n").concat(
        model,
    ).concat("\r\n--boundary\r\nContent-Disposition: form-data; name=\"prompt\"\r\n\r\n").concat(
        prompt,
    ).concat("\r\n--boundary\r\nContent-Disposition: form-data; name=\"size\"\r\n\r\n").concat(
        size,
    ).concat("\r\n--boundary\r\nContent-Disposition: form-data; name=\"seconds\"\r\n\r\n").concat(
        i64_to_string(seconds as i64).as_str(),
    ).concat("\r\n--boundary--\r\n")
}

} // verus!
