//! A client library for a document e-signature service: it builds the
//! requests for uploading documents, downloading signed files and driving
//! signing queues, and checks and decodes what the service answers.

mod codec;
mod command;
mod endpoints;
mod error;
mod request;
mod response;

pub use command::QueueCommand;
pub use codec::{as_base64, from_base64, mime_type_for};
pub use endpoints::{url_push_signers, url_run_queue};
pub use error::{check_status, ApiError};
pub use request::{
    create_queue_request, download_request, push_signers_request, run_queue_request,
    upload_request, File, HttpRequest, Signer,
};
pub use response::{sign_url, CreateQueueResponse, FileDownloadResponse, FileUploadResponse};
