//! The records sent to the service and the HTTP requests that carry them.
use vstd::prelude::*;
use crate::codec::{as_base64, base64_encoded, json_quoted, mime_of, quote_json, mime_type_for};
use crate::endpoints::{
    push_signers_url, run_queue_url, url_push_signers, url_run_queue, URL_CREATE_QUEUE,
    URL_FILE_DOWNLOAD, URL_FILE_UPLOAD,
};
use crate::error::ApiError;

verus! {

/// A document to be signed: its bytes, its name and its MIME type.
#[derive(Debug, Clone)]
pub struct File {
    pub file_content: Vec<u8>,
    pub file_name: String,
    pub mime_type: String,
}

/// Someone asked to sign the documents of a queue.
#[derive(Debug, Clone)]
pub struct Signer {
    pub email: String,
    pub name: String,
}

/// A POST to the service: where it goes, the `Authorization` header if
/// any, and the JSON body if any.
#[derive(Debug, Clone)]
pub struct HttpRequest {
    pub url: String,
    pub authorization: Option<String>,
    pub body: Option<String>,
}

/// `"key":value`, where `value` is already JSON text.
pub open spec fn member(key: Seq<char>, value: Seq<char>) -> Seq<char> {
    "\""@ + key + "\":"@ + value
}

/// JSON texts separated by commas.
pub open spec fn joined(items: Seq<Seq<char>>) -> Seq<char>
    decreases items.len(),
{
    if items.len() == 0 {
        Seq::empty()
    } else if items.len() == 1 {
        items[0]
    } else {
        joined(items.drop_last()) + ","@ + items.last()
    }
}

pub open spec fn file_json(f: File) -> Seq<char> {
    "{"@ + member("fileContent"@, json_quoted(base64_encoded(f.file_content@))) + ","@
        + member("fileName"@, json_quoted(f.file_name@)) + ","@
        + member("mimeType"@, json_quoted(f.mime_type@)) + "}"@
}

pub open spec fn signer_json(s: Signer) -> Seq<char> {
    "{"@ + member("email"@, json_quoted(s.email@)) + ","@ + member("name"@, json_quoted(s.name@))
        + "}"@
}

/// The body of an upload.
pub open spec fn upload_json(files: Seq<File>, client_id: Seq<char>, secret: Seq<char>) -> Seq<
    char,
> {
    "{"@ + member("files"@, "["@ + joined(files.map_values(|f: File| file_json(f))) + "]"@)
        + ","@ + member("clientId"@, json_quoted(client_id)) + ","@ + member(
        "secret"@,
        json_quoted(secret),
    ) + ","@ + member("containerType"@, "\"pdf\""@) + "}"@
}

/// The body of a download.
pub open spec fn download_json(client_id: Seq<char>, secret: Seq<char>, doc_id: Seq<char>) -> Seq<
    char,
> {
    "{"@ + member("doc_id"@, json_quoted(doc_id)) + ","@ + member(
        "client_id"@,
        json_quoted(client_id),
    ) + ","@ + member("secret"@, json_quoted(secret)) + "}"@
}

/// The body that creates a queue with a management page.
pub open spec fn create_queue_json(
    client_id: Seq<char>,
    secret: Seq<char>,
    doc_id: Seq<char>,
    owner_email: Seq<char>,
) -> Seq<char> {
    "{"@ + member("client_id"@, json_quoted(client_id)) + ","@ + member(
        "secret"@,
        json_quoted(secret),
    ) + ","@ + member("has_management_page"@, "true"@) + ","@ + member(
        "doc_id"@,
        json_quoted(doc_id),
    ) + ","@ + member("owner_email"@, json_quoted(owner_email)) + "}"@
}

/// The body that adds signers to a queue.
pub open spec fn signers_json(signers: Seq<Signer>) -> Seq<char> {
    "{"@ + member("signers"@, "["@ + joined(signers.map_values(|s: Signer| signer_json(s))) + "]"@)
        + "}"@
}

/// The `Authorization` header value for a queue's secret.
pub open spec fn bearer(secret: Seq<char>) -> Seq<char> {
    "Bearer "@ + secret
}

proof fn lemma_joined_push(items: Seq<Seq<char>>, x: Seq<char>)
    ensures
        joined(items.push(x)) == if items.len() == 0 {
            x
        } else {
            joined(items) + ","@ + x
        },
{
    assert(items.push(x).drop_last() =~= items);
}

/// Appends `"key":value` to `out`, `value` being JSON text already.
fn push_member(out: &mut String, key: &str, value: &str)
    ensures
        final(out)@ == old(out)@ + member(key@, value@),
{
    out.append("\"");
    out.append(key);
    out.append("\":");
    out.append(value);
    proof {
        assert(final(out)@ =~= old(out)@ + member(key@, value@));
    }
}

/// Appends `"key":` and the JSON string literal of `value` to `out`.
fn push_string_member(out: &mut String, key: &str, value: &str)
    ensures
        final(out)@ == old(out)@ + member(key@, json_quoted(value@)),
{
    let quoted = quote_json(value);
    push_member(out, key, quoted.as_str());
}

impl File {
    /// A file with the MIME type that its name's extension gives.
    pub fn new(file_name: String, file_content: Vec<u8>) -> (r: File)
        ensures
            r.file_name@ == file_name@,
            r.file_content@ == file_content@,
            r.mime_type@ == mime_of(file_name@),
    {
        let mime_type = mime_type_for(file_name.as_str());
        File { file_content, file_name, mime_type }
    }

    /// The file as a JSON object, its contents in base64.
    pub fn to_json(&self) -> (r: String)
        ensures
            r@ == file_json(*self),
    {
        let mut r = String::from_str("{");
        let content = as_base64(&self.file_content);
        push_string_member(&mut r, "fileContent", content.as_str());
        r.append(",");
        push_string_member(&mut r, "fileName", self.file_name.as_str());
        r.append(",");
        push_string_member(&mut r, "mimeType", self.mime_type.as_str());
        r.append("}");
        proof {
            assert(r@ =~= file_json(*self));
        }
        r
    }
}

impl Signer {
    /// The signer as a JSON object.
    pub fn to_json(&self) -> (r: String)
        ensures
            r@ == signer_json(*self),
    {
        let mut r = String::from_str("{");
        push_string_member(&mut r, "email", self.email.as_str());
        r.append(",");
        push_string_member(&mut r, "name", self.name.as_str());
        r.append("}");
        proof {
            assert(r@ =~= signer_json(*self));
        }
        r
    }
}

/// The files as a JSON array.
fn files_json(files: &Vec<File>) -> (r: String)
    ensures
        r@ == "["@ + joined(files@.map_values(|f: File| file_json(f))) + "]"@,
{
    let mut r = String::from_str("[");
    let mut i: usize = 0;
    while i < files.len()
        invariant
            i <= files@.len(),
            r@ == "["@ + joined(files@.subrange(0, i as int).map_values(|f: File| file_json(f))),
        decreases files@.len() - i,
    {
        let item = files[i].to_json();
        proof {
            let done = files@.subrange(0, i as int).map_values(|f: File| file_json(f));
            lemma_joined_push(done, item@);
            assert(files@.subrange(0, i + 1).map_values(|f: File| file_json(f)) =~= done.push(
                item@,
            ));
        }
        if i > 0 {
            r.append(",");
        }
        r.append(item.as_str());
        i = i + 1;
    }
    r.append("]");
    proof {
        assert(files@.subrange(0, files@.len() as int) =~= files@);
    }
    r
}

/// The signers as a JSON array.
fn signers_array_json(signers: &Vec<Signer>) -> (r: String)
    ensures
        r@ == "["@ + joined(signers@.map_values(|s: Signer| signer_json(s))) + "]"@,
{
    let mut r = String::from_str("[");
    let mut i: usize = 0;
    while i < signers.len()
        invariant
            i <= signers@.len(),
            r@ == "["@ + joined(
                signers@.subrange(0, i as int).map_values(|s: Signer| signer_json(s)),
            ),
        decreases signers@.len() - i,
    {
        let item = signers[i].to_json();
        proof {
            let done = signers@.subrange(0, i as int).map_values(|s: Signer| signer_json(s));
            lemma_joined_push(done, item@);
            assert(signers@.subrange(0, i + 1).map_values(|s: Signer| signer_json(s))
                =~= done.push(item@));
        }
        if i > 0 {
            r.append(",");
        }
        r.append(item.as_str());
        i = i + 1;
    }
    r.append("]");
    proof {
        assert(signers@.subrange(0, signers@.len() as int) =~= signers@);
    }
    r
}

/// The upload of `files` for signing. Uploading no file at all is a
/// `Usage` error, found before anything is sent.
pub fn upload_request(client_id: &str, secret: &str, files: &Vec<File>) -> (r: Result<
    HttpRequest,
    ApiError,
>)
    ensures
        files@.len() == 0 <==> r is Err,
        r is Err ==> r matches Err(ApiError::Usage(_)),
        r matches Ok(req) ==> {
            &&& req.url@ == URL_FILE_UPLOAD@
            &&& req.authorization is None
            &&& req.body matches Some(b) && b@ == upload_json(files@, client_id@, secret@)
        },
{
    if files.len() == 0 {
        return Err(ApiError::Usage(String::from_str("No files specified.")));
    }
    let mut body = String::from_str("{");
    let list = files_json(files);
    push_member(&mut body, "files", list.as_str());
    body.append(",");
    push_string_member(&mut body, "clientId", client_id);
    body.append(",");
    push_string_member(&mut body, "secret", secret);
    body.append(",");
    push_member(&mut body, "containerType", "\"pdf\"");
    body.append("}");
    proof {
        reveal_strlit("\"pdf\"");
        assert(body@ =~= upload_json(files@, client_id@, secret@));
    }
    Ok(HttpRequest {
        url: String::from_str(URL_FILE_UPLOAD),
        authorization: None,
        body: Some(body),
    })
}

/// The download of the signed document `doc_id`.
pub fn download_request(client_id: &str, secret: &str, doc_id: &str) -> (r: HttpRequest)
    ensures
        r.url@ == URL_FILE_DOWNLOAD@,
        r.authorization is None,
        r.body matches Some(b) && b@ == download_json(client_id@, secret@, doc_id@),
{
    let mut body = String::from_str("{");
    push_string_member(&mut body, "doc_id", doc_id);
    body.append(",");
    push_string_member(&mut body, "client_id", client_id);
    body.append(",");
    push_string_member(&mut body, "secret", secret);
    body.append("}");
    proof {
        assert(body@ =~= download_json(client_id@, secret@, doc_id@));
    }
    HttpRequest { url: String::from_str(URL_FILE_DOWNLOAD), authorization: None, body: Some(body) }
}

/// The creation of a signing queue, with a management page, for the
/// document `doc_id` and owned by `owner_email`.
pub fn create_queue_request(client_id: &str, secret: &str, doc_id: &str, owner_email: &str) -> (r:
    HttpRequest)
    ensures
        r.url@ == URL_CREATE_QUEUE@,
        r.authorization is None,
        r.body matches Some(b) && b@ == create_queue_json(
            client_id@,
            secret@,
            doc_id@,
            owner_email@,
        ),
{
    let mut body = String::from_str("{");
    push_string_member(&mut body, "client_id", client_id);
    body.append(",");
    push_string_member(&mut body, "secret", secret);
    body.append(",");
    push_member(&mut body, "has_management_page", "true");
    body.append(",");
    push_string_member(&mut body, "doc_id", doc_id);
    body.append(",");
    push_string_member(&mut body, "owner_email", owner_email);
    body.append("}");
    proof {
        assert(body@ =~= create_queue_json(client_id@, secret@, doc_id@, owner_email@));
    }
    HttpRequest { url: String::from_str(URL_CREATE_QUEUE), authorization: None, body: Some(body) }
}

/// The `Authorization` header value that a queue's secret gives.
fn bearer_header(queue_secret: &str) -> (r: String)
    ensures
        r@ == bearer(queue_secret@),
{
    let mut r = String::from_str("Bearer ");
    r.append(queue_secret);
    r
}

/// Adds `signers` to the queue `queue_id`, authorised by the queue's secret.
pub fn push_signers_request(queue_id: &str, queue_secret: &str, signers: &Vec<Signer>) -> (r:
    HttpRequest)
    ensures
        r.url@ == push_signers_url(queue_id@),
        r.authorization matches Some(a) && a@ == bearer(queue_secret@),
        r.body matches Some(b) && b@ == signers_json(signers@),
{
    let mut body = String::from_str("{");
    let list = signers_array_json(signers);
    push_member(&mut body, "signers", list.as_str());
    body.append("}");
    proof {
        assert(body@ =~= signers_json(signers@));
    }
    HttpRequest {
        url: url_push_signers(queue_id),
        authorization: Some(bearer_header(queue_secret)),
        body: Some(body),
    }
}

/// Starts the queue `queue_id`, authorised by the queue's secret; no body.
pub fn run_queue_request(queue_id: &str, queue_secret: &str) -> (r: HttpRequest)
    ensures
        r.url@ == run_queue_url(queue_id@),
        r.authorization matches Some(a) && a@ == bearer(queue_secret@),
        r.body is None,
{
    HttpRequest {
        url: url_run_queue(queue_id),
        authorization: Some(bearer_header(queue_secret)),
        body: None,
    }
}

} // verus!
