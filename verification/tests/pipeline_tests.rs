use filedrop::auth::CredentialStore;
use filedrop::idgen::generate;
use filedrop::ledger::Ledger;
use filedrop::orchestrator::PartBody;
use filedrop::orchestrator::UploadPart;
use filedrop::orchestrator::handle_download;
use filedrop::orchestrator::handle_upload;
use filedrop::store::ObjectStore;

const BASE_URL: &str = "http://example.test";

fn png_bytes() -> Vec<u8> {
    // Ten bytes: the eight-byte PNG signature and two data bytes.
    vec![0x89, 0x50, 0x4E, 0x47, 0x0D, 0x0A, 0x1A, 0x0A, 0x7A, 0x7B]
}

fn text_part(name: &str, value: &str) -> UploadPart {
    UploadPart { name: name.to_string(), body: PartBody::Text(value.to_string()) }
}

fn file_part(name: &str, data: Vec<u8>) -> UploadPart {
    UploadPart { name: name.to_string(), body: PartBody::Binary(data) }
}

fn default_creds() -> CredentialStore {
    let mut creds = CredentialStore::new();
    creds.add("validkey".to_string(), true);
    creds.add("revokedkey".to_string(), false);
    creds
}

/// The identifier inside a public URL `<base>/<identifier>.<ext>`.
fn identifier_of(url: &str, ext: &str) -> String {
    let prefix = format!("{}/", BASE_URL);
    let suffix = format!(".{}", ext);
    assert!(url.starts_with(&prefix), "unexpected url: {}", url);
    assert!(url.ends_with(&suffix), "unexpected url: {}", url);
    url[prefix.len()..url.len() - suffix.len()].to_string()
}

#[test]
fn scenario_valid_png_upload_and_download() {
    let creds = default_creds();
    let mut store = ObjectStore::new();
    let mut ledger = Ledger::new();
    let parts = vec![
        file_part("file", png_bytes()),
        text_part("password", "validkey"),
    ];
    let r = handle_upload(&creds, &mut store, &mut ledger, &parts, &BASE_URL.to_string(), 100);
    assert!(r.success);
    let id = identifier_of(&r.content, "png");
    assert!(!id.is_empty());
    let served = handle_download(&store, &mut ledger, &id, &"png".to_string(), 150);
    assert_eq!(served, Some(png_bytes()));
}

#[test]
fn scenario_undetermined_type_writes_nothing() {
    let creds = default_creds();
    let mut store = ObjectStore::new();
    let mut ledger = Ledger::new();
    let parts = vec![
        file_part("file", b"just some plain words".to_vec()),
        text_part("password", "validkey"),
    ];
    let r = handle_upload(&creds, &mut store, &mut ledger, &parts, &BASE_URL.to_string(), 100);
    assert!(!r.success);
    assert_eq!(r.content, "File type could not be determined");
    assert_eq!(store.object_count(), 0);
    assert_eq!(ledger.record_count(), 0);
}

#[test]
fn scenario_empty_token_short_circuits() {
    let creds = default_creds();
    let mut store = ObjectStore::new();
    let mut ledger = Ledger::new();
    let parts = vec![
        file_part("file", png_bytes()),
        text_part("password", ""),
    ];
    let r = handle_upload(&creds, &mut store, &mut ledger, &parts, &BASE_URL.to_string(), 100);
    assert!(!r.success);
    assert_eq!(r.content, "Please supply an authentication token");
    assert_eq!(store.object_count(), 0);
}

#[test]
fn scenario_revoked_token_rejected() {
    let creds = default_creds();
    let mut store = ObjectStore::new();
    let mut ledger = Ledger::new();
    let parts = vec![
        file_part("file", png_bytes()),
        text_part("password", "revokedkey"),
    ];
    let r = handle_upload(&creds, &mut store, &mut ledger, &parts, &BASE_URL.to_string(), 100);
    assert!(!r.success);
    assert_eq!(r.content, "Invalid authentication token");
    assert_eq!(store.object_count(), 0);
}

#[test]
fn scenario_two_uploads_get_distinct_identifiers() {
    let creds = default_creds();
    let mut store = ObjectStore::new();
    let mut ledger = Ledger::new();
    let base = BASE_URL.to_string();
    let parts_a = vec![
        file_part("file", png_bytes()),
        text_part("password", "validkey"),
    ];
    let parts_b = vec![
        file_part("file", png_bytes()),
        text_part("password", "validkey"),
    ];
    let ra = handle_upload(&creds, &mut store, &mut ledger, &parts_a, &base, 100);
    let rb = handle_upload(&creds, &mut store, &mut ledger, &parts_b, &base, 110);
    assert!(ra.success && rb.success);
    let id_a = identifier_of(&ra.content, "png");
    let id_b = identifier_of(&rb.content, "png");
    assert_ne!(id_a, id_b);
    assert_eq!(store.object_count(), 2);
    let served_a = handle_download(&store, &mut ledger, &id_a, &"png".to_string(), 150);
    let served_b = handle_download(&store, &mut ledger, &id_b, &"png".to_string(), 160);
    assert_eq!(served_a, Some(png_bytes()));
    assert_eq!(served_b, Some(png_bytes()));
}

#[test]
fn unsupported_type_reports_sniffed_name_and_writes_nothing() {
    let creds = default_creds();
    let mut store = ObjectStore::new();
    let mut ledger = Ledger::new();
    let mut pdf = b"%PDF-1.5".to_vec();
    pdf.extend_from_slice(&[0x0A, 0x25, 0x25]);
    let parts = vec![
        file_part("file", pdf),
        text_part("password", "validkey"),
    ];
    let r = handle_upload(&creds, &mut store, &mut ledger, &parts, &BASE_URL.to_string(), 100);
    assert!(!r.success);
    assert_eq!(r.content, "Unsupported file type: application/pdf");
    assert_eq!(store.object_count(), 0);
}

#[test]
fn missing_file_part_rejected() {
    let creds = default_creds();
    let mut store = ObjectStore::new();
    let mut ledger = Ledger::new();
    let parts = vec![text_part("password", "validkey")];
    let r = handle_upload(&creds, &mut store, &mut ledger, &parts, &BASE_URL.to_string(), 100);
    assert!(!r.success);
    assert_eq!(r.content, "No file supplied");
    assert_eq!(store.object_count(), 0);
}

#[test]
fn missing_token_outranks_bad_file() {
    // Gate order: the token-presence short-circuit governs even when the
    // file is also unusable.
    let creds = default_creds();
    let mut store = ObjectStore::new();
    let mut ledger = Ledger::new();
    let parts = vec![file_part("file", b"not a known format".to_vec())];
    let r = handle_upload(&creds, &mut store, &mut ledger, &parts, &BASE_URL.to_string(), 100);
    assert!(!r.success);
    assert_eq!(r.content, "Please supply an authentication token");
}

#[test]
fn classifier_runs_before_credential_gate() {
    // With a token present but invalid and a bad file, the classifier's
    // rejection is the one surfaced.
    let creds = default_creds();
    let mut store = ObjectStore::new();
    let mut ledger = Ledger::new();
    let parts = vec![
        file_part("file", b"not a known format".to_vec()),
        text_part("password", "wrongkey"),
    ];
    let r = handle_upload(&creds, &mut store, &mut ledger, &parts, &BASE_URL.to_string(), 100);
    assert!(!r.success);
    assert_eq!(r.content, "File type could not be determined");
}

#[test]
fn first_matching_parts_win() {
    let creds = default_creds();
    let mut store = ObjectStore::new();
    let mut ledger = Ledger::new();
    let parts = vec![
        text_part("password", "validkey"),
        file_part("file", png_bytes()),
        text_part("password", "revokedkey"),
        file_part("file", b"later duplicate".to_vec()),
    ];
    let r = handle_upload(&creds, &mut store, &mut ledger, &parts, &BASE_URL.to_string(), 100);
    assert!(r.success);
    let id = identifier_of(&r.content, "png");
    let served = handle_download(&store, &mut ledger, &id, &"png".to_string(), 150);
    assert_eq!(served, Some(png_bytes()));
    assert_eq!(store.object_count(), 1);
}

#[test]
fn repeated_downloads_keep_bytes_and_count_accesses() {
    let creds = default_creds();
    let mut store = ObjectStore::new();
    let mut ledger = Ledger::new();
    let parts = vec![
        file_part("file", png_bytes()),
        text_part("password", "validkey"),
    ];
    let r = handle_upload(&creds, &mut store, &mut ledger, &parts, &BASE_URL.to_string(), 100);
    assert!(r.success);
    let id = identifier_of(&r.content, "png");
    let first = handle_download(&store, &mut ledger, &id, &"png".to_string(), 150);
    let second = handle_download(&store, &mut ledger, &id, &"png".to_string(), 175);
    assert_eq!(first, Some(png_bytes()));
    assert_eq!(second, Some(png_bytes()));
    let rec = ledger.get_record(&id).unwrap();
    assert_eq!(rec.times_accessed, 2);
    assert_eq!(rec.last_accessed, 175);
    assert_eq!(rec.api_key_used, "validkey");
    assert_eq!(rec.created_on, 100);
}

#[test]
fn download_of_missing_object_leaves_ledger_alone() {
    let mut ledger = Ledger::new();
    let store = ObjectStore::new();
    let served = handle_download(&store, &mut ledger, &"nothing".to_string(), &"png".to_string(), 150);
    assert_eq!(served, None);
    assert_eq!(ledger.record_count(), 0);
}

#[test]
fn generate_concatenates_three_words() {
    let id = generate();
    assert!(!id.is_empty());
    assert!(id.chars().all(|c| c.is_ascii_lowercase()));
}

#[test]
fn unknown_token_rejected() {
    let creds = default_creds();
    let mut store = ObjectStore::new();
    let mut ledger = Ledger::new();
    let parts = vec![
        file_part("file", png_bytes()),
        text_part("password", "nosuchkey"),
    ];
    let r = handle_upload(&creds, &mut store, &mut ledger, &parts, &BASE_URL.to_string(), 100);
    assert!(!r.success);
    assert_eq!(r.content, "Invalid authentication token");
    assert_eq!(store.object_count(), 0);
    assert_eq!(ledger.record_count(), 0);
}
