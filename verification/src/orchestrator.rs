//! Upload orchestrator: sequences field extraction, content
//! classification, token authentication, identifier generation,
//! persistence and ledger recording for one upload request, and the
//! access-ledger update for one download. Gates run in a fixed,
//! documented order and the first rejection ends the request.

use vstd::prelude::*;
use vstd::string::StringExecFns;
use crate::auth::CredentialStore;
use crate::auth::token_active;
use crate::classify::ClassifyError;
use crate::classify::LogicalType;
use crate::classify::allowed_type_of;
use crate::classify::classify;
use crate::classify::extension_view;
use crate::classify::sniffed_of;
use crate::idgen::generate;
use crate::idgen::is_generated_name;
use crate::ledger::Ledger;
use crate::ledger::UploadRecord;
use crate::ledger::access_recorded;
use crate::ledger::row_of;
use crate::store::ObjectStore;
use crate::store::StoredObject;
use crate::store::copy_bytes;
use crate::store::public_url;
use crate::store::stored_bytes;
use crate::store::url_view;

verus! {

/// The payload of one multipart field: a UTF-8 token field or a binary
/// file field.
#[derive(Debug)]
pub enum PartBody {
    Text(String),
    Binary(Vec<u8>),
}

/// One named multipart field of an upload request.
#[derive(Debug)]
pub struct UploadPart {
    pub name: String,
    pub body: PartBody,
}

/// The structured result of one upload request: the public URL on
/// success, a human-readable rejection message on failure.
#[derive(Debug)]
pub struct UploadResponse {
    pub success: bool,
    pub content: String,
}

/// The token carried by the first part named "password" with a text
/// body; later duplicates are ignored.
pub open spec fn token_from(parts: Seq<UploadPart>, i: int) -> Option<Seq<char>>
    decreases parts.len() - i,
{
    if i < 0 || i >= parts.len() {
        None
    } else {
        match parts[i].body {
            PartBody::Text(t) => if parts[i].name@ == "password"@ {
                Some(t@)
            } else {
                token_from(parts, i + 1)
            },
            PartBody::Binary(_) => token_from(parts, i + 1),
        }
    }
}

pub open spec fn token_field(parts: Seq<UploadPart>) -> Option<Seq<char>> {
    token_from(parts, 0)
}

/// The bytes carried by the first part named "file" with a binary body;
/// later duplicates are ignored.
pub open spec fn file_from(parts: Seq<UploadPart>, i: int) -> Option<Seq<u8>>
    decreases parts.len() - i,
{
    if i < 0 || i >= parts.len() {
        None
    } else {
        match parts[i].body {
            PartBody::Binary(d) => if parts[i].name@ == "file"@ {
                Some(d@)
            } else {
                file_from(parts, i + 1)
            },
            PartBody::Text(_) => file_from(parts, i + 1),
        }
    }
}

pub open spec fn file_field(parts: Seq<UploadPart>) -> Option<Seq<u8>> {
    file_from(parts, 0)
}

/// No token part, or a token of length zero: rejected before any store
/// lookup.
pub open spec fn token_missing(tok: Option<Seq<char>>) -> bool {
    match tok {
        None => true,
        Some(t) => t.len() == 0,
    }
}

pub open spec fn msg_no_token() -> Seq<char> {
    "Please supply an authentication token"@
}

pub open spec fn msg_invalid_token() -> Seq<char> {
    "Invalid authentication token"@
}

pub open spec fn msg_undetermined() -> Seq<char> {
    "File type could not be determined"@
}

pub open spec fn msg_no_file() -> Seq<char> {
    "No file supplied"@
}

pub open spec fn msg_unsupported(m: Seq<char>) -> Seq<char> {
    "Unsupported file type: "@ + m
}

/// The allow-listed type admitted for the file field, if the field is
/// present and its signature sniffs to an allow-listed type.
pub open spec fn file_admitted(fil: Option<Seq<u8>>) -> Option<LogicalType> {
    match fil {
        None => None,
        Some(b) => match sniffed_of(b) {
            None => None,
            Some(m) => allowed_type_of(m),
        },
    }
}

/// The rejection message owed when the file gate fails.
pub open spec fn file_gate_msg(fil: Option<Seq<u8>>) -> Seq<char> {
    match fil {
        None => msg_no_file(),
        Some(b) => match sniffed_of(b) {
            None => msg_undetermined(),
            Some(m) => msg_unsupported(m),
        },
    }
}

/// The response rejects the request with exactly this message.
pub open spec fn rejected_with(r: UploadResponse, msg: Seq<char>) -> bool {
    !r.success && r.content@ == msg
}

/// One ledger row was added for `id` at time `now`, keyed to the token
/// that authenticated the upload; a colliding row leaves the ledger
/// unchanged.
pub open spec fn upload_row_added(
    l0: Seq<UploadRecord>,
    l1: Seq<UploadRecord>,
    id: Seq<char>,
    key: Seq<char>,
    now: u64,
) -> bool {
    match row_of(l0, id) {
        Some(_) => l1 == l0,
        None => {
            &&& l1.len() == l0.len() + 1
            &&& l1.subrange(0, l0.len() as int) == l0
            &&& l1.last().identifier@ == id
            &&& l1.last().created_on == now
            &&& l1.last().api_key_used@ == key
            &&& l1.last().last_accessed == now
            &&& l1.last().times_accessed == 0
        },
    }
}

/// The upload went through: exactly one object was appended to the
/// store, named by a generated identifier and the extension derived
/// from the admitted type, holding exactly the uploaded bytes; the
/// response carries its public URL; and one provenance row was added to
/// the ledger.
pub open spec fn upload_succeeded(
    r: UploadResponse,
    store0: Seq<StoredObject>,
    store1: Seq<StoredObject>,
    l0: Seq<UploadRecord>,
    l1: Seq<UploadRecord>,
    data: Seq<u8>,
    t: LogicalType,
    key: Seq<char>,
    base: Seq<char>,
    now: u64,
) -> bool {
    &&& r.success
    &&& store1.len() == store0.len() + 1
    &&& store1.subrange(0, store0.len() as int) == store0
    &&& is_generated_name(store1.last().identifier@)
    &&& store1.last().extension@ == extension_view(t)
    &&& store1.last().data@ == data
    &&& r.content@ == url_view(base, store1.last().identifier@, store1.last().extension@)
    &&& upload_row_added(l0, l1, store1.last().identifier@, key, now)
}

/// Pull the token and file fields out of the ordered parts, first match
/// winning for each.
pub fn extract_fields(parts: &Vec<UploadPart>) -> (r: (Option<String>, Option<Vec<u8>>))
    ensures
        (r.0 matches Some(t) ==> token_field(parts@) == Some(t@)),
        (r.0 is None ==> token_field(parts@) is None),
        (r.1 matches Some(d) ==> file_field(parts@) == Some(d@)),
        (r.1 is None ==> file_field(parts@) is None),
{
    let password_name = String::from_str("password");
    let file_name = String::from_str("file");
    let mut token: Option<String> = None;
    let mut file: Option<Vec<u8>> = None;
    let n = parts.len();
    let mut i: usize = 0;
    while i < n
        invariant
            0 <= i <= n,
            n == parts.len(),
            password_name@ == "password"@,
            file_name@ == "file"@,
            (token matches Some(t) ==> token_field(parts@) == Some(t@)),
            (token is None ==> token_field(parts@) == token_from(parts@, i as int)),
            (file matches Some(d) ==> file_field(parts@) == Some(d@)),
            (file is None ==> file_field(parts@) == file_from(parts@, i as int)),
        decreases n - i,
    {
        match &parts[i].body {
            PartBody::Text(t) => {
                if token.is_none() && parts[i].name == password_name {
                    token = Some(t.clone());
                }
            },
            PartBody::Binary(d) => {
                if file.is_none() && parts[i].name == file_name {
                    file = Some(copy_bytes(d));
                }
            },
        }
        i = i + 1;
    }
    (token, file)
}

/// An upload that passed every gate: the authenticating token, the
/// admitted logical type and the validated bytes, ready to persist.
#[derive(Debug)]
pub struct AdmittedUpload {
    pub token: String,
    pub file_type: LogicalType,
    pub data: Vec<u8>,
}

/// Run the admission gates of one upload request, in this order:
/// token-presence short-circuit, file classification, token
/// authentication. Returns what to persist on success, and the exact
/// rejection response the client is owed on the first failing gate.
pub fn admit_upload(creds: &CredentialStore, parts: &Vec<UploadPart>) -> (r: Result<
    AdmittedUpload,
    UploadResponse,
>)
    ensures
        ({
            let tok = token_field(parts@);
            let fil = file_field(parts@);
            &&& (token_missing(tok) ==> (r matches Err(resp) && rejected_with(
                resp,
                msg_no_token(),
            )))
            &&& (!token_missing(tok) && file_admitted(fil) is None ==> (r matches Err(resp)
                && rejected_with(resp, file_gate_msg(fil))))
            &&& (!token_missing(tok) && file_admitted(fil) is Some && !token_active(creds@, tok->0)
                ==> (r matches Err(resp) && rejected_with(resp, msg_invalid_token())))
            &&& (!token_missing(tok) && file_admitted(fil) is Some && token_active(creds@, tok->0)
                ==> (r matches Ok(a) && a.token@ == tok->0 && a.file_type == file_admitted(fil)->0
                && a.data@ == fil->0))
        }),
{
    let (token_opt, file_opt) = extract_fields(parts);
    let token = match token_opt {
        None => {
            return Err(
                UploadResponse {
                    success: false,
                    content: String::from_str("Please supply an authentication token"),
                },
            );
        },
        Some(t) => t,
    };
    if token.as_str().is_empty() {
        return Err(
            UploadResponse {
                success: false,
                content: String::from_str("Please supply an authentication token"),
            },
        );
    }
    let data = match file_opt {
        None => {
            return Err(
                UploadResponse { success: false, content: String::from_str("No file supplied") },
            );
        },
        Some(d) => d,
    };
    let file_type = match classify(&data) {
        Err(ClassifyError::Undetermined) => {
            return Err(
                UploadResponse {
                    success: false,
                    content: String::from_str("File type could not be determined"),
                },
            );
        },
        Err(ClassifyError::Unsupported(m)) => {
            let mut msg = String::from_str("Unsupported file type: ");
            msg.append(m.as_str());
            return Err(UploadResponse { success: false, content: msg });
        },
        Ok(t) => t,
    };
    if !creds.authenticate(&token) {
        return Err(
            UploadResponse {
                success: false,
                content: String::from_str("Invalid authentication token"),
            },
        );
    }
    Ok(AdmittedUpload { token, file_type, data })
}

/// Run one upload request through the admission pipeline, in this
/// order: token-presence short-circuit, file classification, token
/// authentication, then persistence and provenance recording. The first
/// rejection ends the request and leaves the store and the ledger
/// untouched.
pub fn handle_upload(
    creds: &CredentialStore,
    store: &mut ObjectStore,
    ledger: &mut Ledger,
    parts: &Vec<UploadPart>,
    base_url: &String,
    now: u64,
) -> (r: UploadResponse)
    ensures
        ({
            let tok = token_field(parts@);
            let fil = file_field(parts@);
            let untouched = final(store)@ == old(store)@ && final(ledger)@ == old(ledger)@;
            &&& (token_missing(tok) ==> rejected_with(r, msg_no_token()) && untouched)
            &&& (!token_missing(tok) && file_admitted(fil) is None ==> rejected_with(
                r,
                file_gate_msg(fil),
            ) && untouched)
            &&& (!token_missing(tok) && file_admitted(fil) is Some && !token_active(creds@, tok->0)
                ==> rejected_with(r, msg_invalid_token()) && untouched)
            &&& (!token_missing(tok) && file_admitted(fil) is Some && token_active(creds@, tok->0)
                ==> upload_succeeded(
                r,
                old(store)@,
                final(store)@,
                old(ledger)@,
                final(ledger)@,
                fil->0,
                file_admitted(fil)->0,
                tok->0,
                base_url@,
                now,
            ))
        }),
{
    let admitted = match admit_upload(creds, parts) {
        Err(resp) => {
            return resp;
        },
        Ok(a) => a,
    };
    let identifier = generate();
    let extension = admitted.file_type.extension();
    let url = public_url(base_url, &identifier, &extension);
    store.persist(identifier.clone(), extension, admitted.data);
    ledger.record_upload(&identifier, &admitted.token, now);
    proof {
        assert(final(store)@.subrange(0, old(store)@.len() as int) =~= old(store)@);
        assert(final(ledger)@.len() > old(ledger)@.len() ==> final(ledger)@.subrange(
            0,
            old(ledger)@.len() as int,
        ) =~= old(ledger)@);
    }
    UploadResponse { success: true, content: url }
}

/// Serve one download: the bytes stored under `identifier`.`extension`,
/// if any, with the access-ledger update recorded for the identifier.
/// The store is read-only here: downloads never change stored bytes. A
/// missing object leaves the ledger untouched.
pub fn handle_download(
    store: &ObjectStore,
    ledger: &mut Ledger,
    identifier: &String,
    extension: &String,
    now: u64,
) -> (r: Option<Vec<u8>>)
    ensures
        (r matches Some(d) ==> stored_bytes(store@, identifier@, extension@) == Some(d@)
            && access_recorded(old(ledger)@, final(ledger)@, identifier@, now)),
        (r is None ==> stored_bytes(store@, identifier@, extension@) is None && final(ledger)@
            == old(ledger)@),
{
    match store.retrieve(identifier, extension) {
        None => None,
        Some(d) => {
            ledger.record_access(identifier, now);
            Some(d)
        },
    }
}

} // verus!
