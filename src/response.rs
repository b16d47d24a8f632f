//! What the service answers, once read from its JSON.
use vstd::prelude::*;
use crate::endpoints::BASE_URL;

verus! {

/// The answer to an upload.
#[derive(Debug, Clone)]
pub struct FileUploadResponse {
    pub status: String,
    pub doc_id: String,
}

/// The answer to the creation of a signing queue.
#[derive(Debug, Clone)]
pub struct CreateQueueResponse {
    pub id: usize,
    pub signing_queue_secret: String,
    pub management_page_url: String,
}

/// The answer to a download: the signed file's bytes and who signed it.
#[derive(Debug, Clone)]
pub struct FileDownloadResponse {
    pub signed_file_contents: Vec<u8>,
    pub signer_country: String,
    pub signer_idcode: String,
    pub signer_lastname: String,
    pub signer_firstname: String,
    pub signing_method: String,
    pub status: String,
    pub verification_level: Option<String>,
}

impl FileDownloadResponse {
    /// Moves the signed file's bytes out, leaving the rest of the answer
    /// as it was and no bytes behind.
    pub fn take_contents(&mut self) -> (r: Vec<u8>)
        ensures
            r@ == old(self).signed_file_contents@,
            final(self).signed_file_contents@.len() == 0,
            final(self).signer_country == old(self).signer_country,
            final(self).signer_idcode == old(self).signer_idcode,
            final(self).signer_lastname == old(self).signer_lastname,
            final(self).signer_firstname == old(self).signer_firstname,
            final(self).signing_method == old(self).signing_method,
            final(self).status == old(self).status,
            final(self).verification_level == old(self).verification_level,
    {
        let mut contents: Vec<u8> = Vec::new();
        std::mem::swap(&mut contents, &mut self.signed_file_contents);
        contents
    }
}

/// The page where the uploaded document `doc_id` is signed.
pub open spec fn signing_page_url(client_id: Seq<char>, doc_id: Seq<char>) -> Seq<char> {
    BASE_URL@ + "/sign_contract_external?client_id="@ + client_id + "&doc_id="@ + doc_id
}

pub fn sign_url(client_id: &str, doc_id: &str) -> (r: String)
    ensures
        r@ == signing_page_url(client_id@, doc_id@),
{
    let mut r = String::from_str(BASE_URL);
    r.append("/sign_contract_external?client_id=");
    r.append(client_id);
    r.append("&doc_id=");
    r.append(doc_id);
    r
}

} // verus!
