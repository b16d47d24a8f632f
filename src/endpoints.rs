//! Addresses of the service's endpoints.
use vstd::prelude::*;

verus! {

/// Host that serves every endpoint.
pub const BASE_URL: &'static str = "https://id.eideasy.com";

pub const URL_FILE_UPLOAD: &'static str = "https://id.eideasy.com/api/signatures/prepare-files-for-signing";

pub const URL_FILE_DOWNLOAD: &'static str = "https://id.eideasy.com/api/signatures/download-signed-file";

pub const URL_CREATE_QUEUE: &'static str = "https://id.eideasy.com/api/signatures/signing-queues";

/// Address of the signer batch endpoint of the queue `queue_id`.
pub open spec fn push_signers_url(queue_id: Seq<char>) -> Seq<char> {
    URL_CREATE_QUEUE@ + "/"@ + queue_id + "/signers/batch"@
}

/// Address of the endpoint that starts the queue `queue_id`.
pub open spec fn run_queue_url(queue_id: Seq<char>) -> Seq<char> {
    URL_CREATE_QUEUE@ + "/"@ + queue_id + "/run"@
}

pub fn url_push_signers(signing_queue_id: &str) -> (r: String)
    ensures
        r@ == push_signers_url(signing_queue_id@),
{
    let mut r = String::from_str(URL_CREATE_QUEUE);
    r.append("/");
    r.append(signing_queue_id);
    r.append("/signers/batch");
    r
}

pub fn url_run_queue(signing_queue_id: &str) -> (r: String)
    ensures
        r@ == run_queue_url(signing_queue_id@),
{
    let mut r = String::from_str(URL_CREATE_QUEUE);
    r.append("/");
    r.append(signing_queue_id);
    r.append("/run");
    r
}

} // verus!
