//! The signing-queue commands an operator can issue, and the request each
//! one sends.
use vstd::prelude::*;
use crate::endpoints::{push_signers_url, run_queue_url, URL_CREATE_QUEUE};
use crate::request::{
    bearer, create_queue_json, create_queue_request, push_signers_request, run_queue_request,
    signers_json, HttpRequest, Signer,
};

verus! {

/// One operation on a signing queue.
#[derive(Debug, Clone)]
pub enum QueueCommand {
    /// Creates a queue for an uploaded document.
    Create { client_id: String, secret: String, doc_id: String, email: String },
    /// Adds one signer to a queue.
    Push { queue_id: String, queue_secret: String, name: String, email: String },
    /// Starts a queue.
    Run { queue_id: String, queue_secret: String },
}

/// The request that a queue command sends.
pub open spec fn queue_command_sends(c: QueueCommand, r: HttpRequest) -> bool {
    match c {
        QueueCommand::Create { client_id, secret, doc_id, email } => {
            &&& r.url@ == URL_CREATE_QUEUE@
            &&& r.authorization is None
            &&& r.body matches Some(b) && b@ == create_queue_json(
                client_id@,
                secret@,
                doc_id@,
                email@,
            )
        },
        QueueCommand::Push { queue_id, queue_secret, name, email } => {
            &&& r.url@ == push_signers_url(queue_id@)
            &&& r.authorization matches Some(a) && a@ == bearer(queue_secret@)
            &&& r.body matches Some(b) && b@ == signers_json(
                seq![Signer { email, name }],
            )
        },
        QueueCommand::Run { queue_id, queue_secret } => {
            &&& r.url@ == run_queue_url(queue_id@)
            &&& r.authorization matches Some(a) && a@ == bearer(queue_secret@)
            &&& r.body is None
        },
    }
}

impl QueueCommand {
    pub fn request(&self) -> (r: HttpRequest)
        ensures
            queue_command_sends(*self, r),
    {
        match self {
            QueueCommand::Create { client_id, secret, doc_id, email } => create_queue_request(
                client_id.as_str(),
                secret.as_str(),
                doc_id.as_str(),
                email.as_str(),
            ),
            QueueCommand::Push { queue_id, queue_secret, name, email } => {
                let signer = Signer { email: email.clone(), name: name.clone() };
                let signers = vec![signer];
                let r = push_signers_request(queue_id.as_str(), queue_secret.as_str(), &signers);
                proof {
                    assert(signers@ =~= seq![Signer { email: *email, name: *name }]);
                }
                r
            },
            QueueCommand::Run { queue_id, queue_secret } => run_queue_request(
                queue_id.as_str(),
                queue_secret.as_str(),
            ),
        }
    }
}

} // verus!
