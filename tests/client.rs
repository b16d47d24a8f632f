use eideasy::{
    as_base64, check_status, create_queue_request, download_request, from_base64, mime_type_for,
    push_signers_request, run_queue_request, sign_url, upload_request, url_push_signers,
    url_run_queue, ApiError, File, FileDownloadResponse, QueueCommand, Signer,
};

#[test]
fn base64_round_trip_of_all_lengths() {
    for n in 0..40usize {
        let data: Vec<u8> = (0..n).map(|i| (i * 37 + 11) as u8).collect();
        let text = as_base64(&data);
        assert_eq!(from_base64(&text).unwrap(), data);
    }
}

#[test]
fn base64_round_trip_of_every_byte_value() {
    let data: Vec<u8> = (0..=255u8).collect();
    assert_eq!(from_base64(&as_base64(&data)).unwrap(), data);
}

#[test]
fn base64_exact_values() {
    assert_eq!(as_base64(&vec![]), "");
    assert_eq!(as_base64(&vec![1, 2, 3]), "AQID");
    assert_eq!(as_base64(&b"hello".to_vec()), "aGVsbG8=");
    assert_eq!(from_base64("aGVsbG8=").unwrap(), b"hello".to_vec());
}

#[test]
fn malformed_base64_is_a_decode_error() {
    assert!(matches!(from_base64("not base64!"), Err(ApiError::Decode(_))));
    assert!(matches!(from_base64("aGVsbG8"), Err(ApiError::Decode(_))));
}

#[test]
fn mime_of_known_extensions() {
    assert_eq!(mime_type_for("a.pdf"), "application/pdf");
    assert_eq!(mime_type_for("picture.png"), "image/png");
    assert_eq!(mime_type_for("SCAN.PDF"), "application/pdf");
}

#[test]
fn mime_of_unknown_or_missing_extension() {
    assert_eq!(mime_type_for("a.zzzunknown"), "application/octet-stream");
    assert_eq!(mime_type_for("README"), "application/octet-stream");
    assert_eq!(mime_type_for(""), "application/octet-stream");
}

#[test]
fn file_new_guesses_mime_from_name() {
    let f = File::new("contract.pdf".to_string(), vec![7; 4]);
    assert_eq!(f.mime_type, "application/pdf");
    assert_eq!(f.file_name, "contract.pdf");
    assert_eq!(f.file_content, vec![7; 4]);
}

#[test]
fn upload_with_no_files_is_a_usage_error() {
    let r = upload_request("c", "s", &vec![]);
    assert!(matches!(r, Err(ApiError::Usage(_))));
}

#[test]
fn upload_of_one_pdf_end_to_end() {
    let content: Vec<u8> = (0..10u8).collect();
    let files = vec![File::new("a.pdf".to_string(), content.clone())];
    let req = upload_request("c", "s", &files).unwrap();
    assert_eq!(
        req.url,
        "https://id.eideasy.com/api/signatures/prepare-files-for-signing"
    );
    assert_eq!(req.authorization, None);
    let expected = format!(
        "{{\"files\":[{{\"fileContent\":\"{}\",\"fileName\":\"a.pdf\",\"mimeType\":\"application/pdf\"}}],\"clientId\":\"c\",\"secret\":\"s\",\"containerType\":\"pdf\"}}",
        as_base64(&content)
    );
    assert_eq!(req.body.as_deref(), Some(expected.as_str()));
    assert_eq!(as_base64(&content), "AAECAwQFBgcICQ==");

    let body: serde_json::Value = serde_json::from_str(req.body.as_deref().unwrap()).unwrap();
    assert_eq!(body["files"][0]["fileName"], "a.pdf");

    let answer = check_status(200, "{\"status\":\"ok\",\"docId\":\"42\"}".to_string()).unwrap();
    let answer: serde_json::Value = serde_json::from_str(&answer).unwrap();
    let doc_id = answer["docId"].as_str().unwrap();
    let url = sign_url("c", doc_id);
    assert!(url.contains("doc_id=42"));
    assert_eq!(
        url,
        "https://id.eideasy.com/sign_contract_external?client_id=c&doc_id=42"
    );
}

#[test]
fn upload_of_two_files_lists_both_in_order() {
    let files = vec![
        File::new("one.pdf".to_string(), vec![1]),
        File::new("two.txt".to_string(), vec![2, 2]),
    ];
    let req = upload_request("id", "key", &files).unwrap();
    let body: serde_json::Value = serde_json::from_str(req.body.as_deref().unwrap()).unwrap();
    let listed = body["files"].as_array().unwrap();
    assert_eq!(listed.len(), 2);
    assert_eq!(listed[0]["fileName"], "one.pdf");
    assert_eq!(listed[0]["fileContent"], "AQ==");
    assert_eq!(listed[1]["fileName"], "two.txt");
    assert_eq!(listed[1]["mimeType"], "text/plain");
    assert_eq!(listed[1]["fileContent"], "AgI=");
}

#[test]
fn names_with_quotes_are_escaped() {
    let files = vec![File::new("say \"hi\".pdf".to_string(), vec![])];
    let req = upload_request("c\\d", "s", &files).unwrap();
    let body: serde_json::Value = serde_json::from_str(req.body.as_deref().unwrap()).unwrap();
    assert_eq!(body["files"][0]["fileName"], "say \"hi\".pdf");
    assert_eq!(body["clientId"], "c\\d");
}

#[test]
fn success_statuses_pass_the_body_on() {
    assert_eq!(check_status(200, "a".to_string()), Ok("a".to_string()));
    assert_eq!(check_status(204, String::new()), Ok(String::new()));
    assert_eq!(check_status(299, "b".to_string()), Ok("b".to_string()));
}

#[test]
fn other_statuses_are_http_errors_with_status_and_body() {
    for status in [100u16, 199, 300, 301, 404, 500, 503] {
        assert_eq!(
            check_status(status, "oops".to_string()),
            Err(ApiError::Http { status, body: "oops".to_string() })
        );
    }
}

#[test]
fn download_request_body() {
    let req = download_request("c", "s", "42");
    assert_eq!(req.url, "https://id.eideasy.com/api/signatures/download-signed-file");
    assert_eq!(req.authorization, None);
    assert_eq!(
        req.body.as_deref(),
        Some("{\"doc_id\":\"42\",\"client_id\":\"c\",\"secret\":\"s\"}")
    );
}

#[test]
fn downloaded_contents_are_the_decoded_bytes() {
    let bytes = from_base64("JVBERi0xLjQK").unwrap();
    assert_eq!(bytes, b"%PDF-1.4\n".to_vec());
    let mut res = FileDownloadResponse {
        signed_file_contents: bytes.clone(),
        signer_country: "EE".to_string(),
        signer_idcode: "123".to_string(),
        signer_lastname: "Tamm".to_string(),
        signer_firstname: "Mari".to_string(),
        signing_method: "smart-id".to_string(),
        status: "OK".to_string(),
        verification_level: None,
    };
    let taken = res.take_contents();
    assert_eq!(taken, bytes);
    assert!(res.signed_file_contents.is_empty());
    assert_eq!(res.signer_country, "EE");
    assert_eq!(res.verification_level, None);
}

#[test]
fn create_queue_request_body() {
    let req = create_queue_request("c", "s", "42", "o@x.ee");
    assert_eq!(req.url, "https://id.eideasy.com/api/signatures/signing-queues");
    assert_eq!(req.authorization, None);
    assert_eq!(
        req.body.as_deref(),
        Some("{\"client_id\":\"c\",\"secret\":\"s\",\"has_management_page\":true,\"doc_id\":\"42\",\"owner_email\":\"o@x.ee\"}")
    );
}

#[test]
fn queue_urls() {
    assert_eq!(
        url_push_signers("7"),
        "https://id.eideasy.com/api/signatures/signing-queues/7/signers/batch"
    );
    assert_eq!(
        url_run_queue("7"),
        "https://id.eideasy.com/api/signatures/signing-queues/7/run"
    );
}

#[test]
fn push_signers_uses_bearer_auth() {
    let signers = vec![
        Signer { email: "a@x.ee".to_string(), name: "A".to_string() },
        Signer { email: "b@x.ee".to_string(), name: "B".to_string() },
    ];
    let req = push_signers_request("7", "qs", &signers);
    assert_eq!(req.url, url_push_signers("7"));
    assert_eq!(req.authorization.as_deref(), Some("Bearer qs"));
    assert_eq!(
        req.body.as_deref(),
        Some("{\"signers\":[{\"email\":\"a@x.ee\",\"name\":\"A\"},{\"email\":\"b@x.ee\",\"name\":\"B\"}]}")
    );
}

#[test]
fn run_queue_has_no_body() {
    let req = run_queue_request("9", "qs");
    assert_eq!(req.url, url_run_queue("9"));
    assert_eq!(req.authorization.as_deref(), Some("Bearer qs"));
    assert_eq!(req.body, None);
}

#[test]
fn queue_commands_send_their_requests() {
    let create = QueueCommand::Create {
        client_id: "c".to_string(),
        secret: "s".to_string(),
        doc_id: "42".to_string(),
        email: "o@x.ee".to_string(),
    };
    assert_eq!(create.request().body, create_queue_request("c", "s", "42", "o@x.ee").body);

    let push = QueueCommand::Push {
        queue_id: "7".to_string(),
        queue_secret: "qs".to_string(),
        name: "A".to_string(),
        email: "a@x.ee".to_string(),
    };
    let req = push.request();
    assert_eq!(req.url, url_push_signers("7"));
    assert_eq!(
        req.body.as_deref(),
        Some("{\"signers\":[{\"email\":\"a@x.ee\",\"name\":\"A\"}]}")
    );

    let run = QueueCommand::Run { queue_id: "7".to_string(), queue_secret: "qs".to_string() };
    let req = run.request();
    assert_eq!(req.url, url_run_queue("7"));
    assert_eq!(req.body, None);
}
