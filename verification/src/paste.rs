//! The two paste services: how an upload request is phrased for each, and how
//! each service's response is turned into a link and an expiry estimate.
use vstd::prelude::*;
use vstd::string::StringExecFns;
use crate::clock::now_timestamp;
use crate::content_kind::ContentKind;
use crate::text::dec_spec;
use crate::text::decimal_string;
use crate::upload_request::UploadRequest;
use crate::upload_response::UploadResponse;

verus! {

/// Retention window of the log-paste service, in seconds (90 days).
pub const PASTES_DEV_EXPIRE_TIME: i64 = 60 * 60 * 24 * 90;

/// Retention window of the text-paste service, in seconds (30 days).
pub const PASTEBOOK_DEV_EXPIRE_TIME: i64 = 60 * 60 * 24 * 30;

/// Why processing an attachment failed. Any one of these aborts the whole
/// command invocation.
#[derive(Clone, Copy, Debug, PartialEq, Eq, Structural)]
pub enum UploadError {
    /// Downloading the attachment answered with a non-success status.
    Fetch { status: u16 },
    /// The paste service answered with a non-success status.
    Upload { status: u16 },
    /// The log-paste service answered without the Location header that names
    /// the created paste.
    MissingLocation,
}

/// The user-facing message of each error.
pub open spec fn error_message_spec(e: UploadError) -> Seq<char> {
    match e {
        UploadError::Fetch { status } => "Failed to fetch the attachment (status "@ + dec_spec(
            status as nat,
        ) + ")"@,
        UploadError::Upload { status } => "Upload failed (status "@ + dec_spec(status as nat)
            + ")"@,
        UploadError::MissingLocation => "Missing Location header"@,
    }
}

impl UploadError {
    /// Renders the error for the user.
    pub fn message(&self) -> (r: String)
        ensures
            r@ == error_message_spec(*self),
    {
        match self {
            UploadError::Fetch { status } => String::from_str(
                "Failed to fetch the attachment (status ",
            ).concat(decimal_string(*status as u64).as_str()).concat(")"),
            UploadError::Upload { status } => String::from_str("Upload failed (status ").concat(
                decimal_string(*status as u64).as_str(),
            ).concat(")"),
            UploadError::MissingLocation => String::from_str("Missing Location header"),
        }
    }
}

/// An HTTP status that counts as success.
pub open spec fn is_success_spec(status: u16) -> bool {
    200 <= status < 300
}

/// Whether an HTTP status counts as success.
pub fn is_success(status: u16) -> (r: bool)
    ensures
        r == is_success_spec(status),
{
    200 <= status && status < 300
}

/// Judges the status of an attachment download: anything but success is a
/// fetch error that aborts the invocation.
pub fn check_fetch(status: u16) -> (r: Result<(), UploadError>)
    ensures
        r is Ok <==> is_success_spec(status),
        !is_success_spec(status) ==> (r matches Err(e) && e == (UploadError::Fetch { status })),
{
    if is_success(status) {
        Ok(())
    } else {
        Err(UploadError::Fetch { status })
    }
}

/// The link under which the text-paste service serves the paste named by `id`.
pub fn pastebook_link(id: &str) -> (r: String)
    ensures
        r@ == "https://pastebook.dev/p/"@ + id@,
{
    String::from_str("https://pastebook.dev/p/").concat(id)
}

/// The link under which the log-paste service serves the paste at `location`.
pub fn pastes_dev_link(location: &str) -> (r: String)
    ensures
        r@ == "https://pastes.dev/"@ + location@,
{
    String::from_str("https://pastes.dev/").concat(location)
}

/// The title header of a text paste: the file's name and who posted it.
pub fn pastebook_title(filename: &str, author: &str) -> (r: String)
    ensures
        r@ == filename@ + " by "@ + author@,
{
    String::from_str(filename).concat(" by ").concat(author)
}

/// One outbound paste upload, phrased as plain values: the endpoint, the
/// content-type header, the optional title and expires headers, and the body.
pub struct HttpPost {
    pub url: String,
    pub content_type: String,
    pub title: Option<String>,
    pub expires_millis: Option<String>,
    pub body: String,
}

/// Phrases the upload call for `req`'s kind: logs go to the log-paste endpoint
/// with a `text/log` content type; text goes to the text-paste endpoint with a
/// title naming the file and author and an expires header in milliseconds.
pub fn upload_job(req: &UploadRequest) -> (job: HttpPost)
    ensures
        job.body@ == req.string_content@,
        req.content_type == ContentKind::Log ==> job.url@ == "https://api.pastes.dev/post"@
            && job.content_type@ == "text/log"@ && job.title is None && job.expires_millis is None,
        req.content_type == ContentKind::Text ==> job.url@ == "https://api.pastebook.dev/upload"@
            && job.content_type@ == "text/plain"@ && (job.title matches Some(t) && t@
            == req.filename@ + " by "@ + req.author@) && (job.expires_millis matches Some(e) && e@
            == dec_spec((PASTEBOOK_DEV_EXPIRE_TIME * 1000) as nat)),
{
    match req.content_type {
        ContentKind::Log => HttpPost {
            url: String::from_str("https://api.pastes.dev/post"),
            content_type: String::from_str("text/log"),
            title: None,
            expires_millis: None,
            body: req.string_content.clone(),
        },
        ContentKind::Text => HttpPost {
            url: String::from_str("https://api.pastebook.dev/upload"),
            content_type: String::from_str("text/plain"),
            title: Some(pastebook_title(req.filename.as_str(), req.author.as_str())),
            expires_millis: Some(decimal_string((PASTEBOOK_DEV_EXPIRE_TIME * 1000) as u64)),
            body: req.string_content.clone(),
        },
    }
}

/// Interprets the text-paste service's answer: on success the response body
/// names the paste and the paste expires 30 days from `now`; any other status
/// is an upload error.
pub fn handle_text_file(status: u16, body: &str, now: i64) -> (r: Result<
    UploadResponse,
    UploadError,
>)
    requires
        now <= i64::MAX - PASTEBOOK_DEV_EXPIRE_TIME,
    ensures
        is_success_spec(status) ==> (r matches Ok(resp) && resp.link@
            == "https://pastebook.dev/p/"@ + body@ && resp.expires == now
            + PASTEBOOK_DEV_EXPIRE_TIME),
        !is_success_spec(status) ==> (r matches Err(e) && e == (UploadError::Upload { status })),
{
    if is_success(status) {
        Ok(UploadResponse { link: pastebook_link(body), expires: now + PASTEBOOK_DEV_EXPIRE_TIME })
    } else {
        Err(UploadError::Upload { status })
    }
}

/// Interprets the log-paste service's answer: on success the Location header
/// names the paste and the paste expires 90 days from `now`; a success answer
/// without that header is an error, as is any other status.
pub fn handle_log_file(status: u16, location: Option<&String>, now: i64) -> (r: Result<
    UploadResponse,
    UploadError,
>)
    requires
        now <= i64::MAX - PASTES_DEV_EXPIRE_TIME,
    ensures
        is_success_spec(status) && location is Some ==> (r matches Ok(resp) && resp.link@
            == "https://pastes.dev/"@ + location->0@ && resp.expires == now
            + PASTES_DEV_EXPIRE_TIME),
        is_success_spec(status) && location is None ==> (r matches Err(e) && e
            == UploadError::MissingLocation),
        !is_success_spec(status) ==> (r matches Err(e) && e == (UploadError::Upload { status })),
{
    if is_success(status) {
        match location {
            Some(loc) => Ok(
                UploadResponse {
                    link: pastes_dev_link(loc.as_str()),
                    expires: now + PASTES_DEV_EXPIRE_TIME,
                },
            ),
            None => Err(UploadError::MissingLocation),
        }
    } else {
        Err(UploadError::Upload { status })
    }
}

/// What a finished upload call handed back: the response body for the
/// text-paste service, or the optional Location header for the log-paste
/// service.
pub enum UploadPayload {
    Body(String),
    Location(Option<String>),
}

/// The payload shape each kind's service answers with.
pub open spec fn payload_matches(kind: ContentKind, payload: UploadPayload) -> bool {
    match kind {
        ContentKind::Text => payload is Body,
        ContentKind::Log => payload is Location,
    }
}

/// Turns a finished upload call into an [`UploadResponse`], stamping the
/// expiry from the clock. Whatever the clock read, a failed status or a
/// missing Location header is an error, and a success answer yields the
/// service's link with an expiry one retention window past the clock reading.
pub fn finish_upload(kind: ContentKind, status: u16, payload: &UploadPayload) -> (r: Result<
    UploadResponse,
    UploadError,
>)
    requires
        payload_matches(kind, *payload),
    ensures
        !is_success_spec(status) ==> (r matches Err(e) && e == (UploadError::Upload { status })),
        is_success_spec(status) && kind == ContentKind::Text ==> (payload
            matches UploadPayload::Body(b) ==> (r matches Ok(resp) && resp.link@
            == "https://pastebook.dev/p/"@ + b@ && PASTEBOOK_DEV_EXPIRE_TIME <= resp.expires
            <= 9_000_000_000_000i64 + PASTEBOOK_DEV_EXPIRE_TIME)),
        is_success_spec(status) && kind == ContentKind::Log ==> (payload
            matches UploadPayload::Location(Some(loc)) ==> (r matches Ok(resp) && resp.link@
            == "https://pastes.dev/"@ + loc@ && PASTES_DEV_EXPIRE_TIME <= resp.expires
            <= 9_000_000_000_000i64 + PASTES_DEV_EXPIRE_TIME)),
        is_success_spec(status) && kind == ContentKind::Log ==> (payload
            matches UploadPayload::Location(None) ==> (r matches Err(e) && e
            == UploadError::MissingLocation)),
{
    let now = now_timestamp();
    match payload {
        UploadPayload::Body(b) => handle_text_file(status, b.as_str(), now),
        UploadPayload::Location(loc) => handle_log_file(status, loc.as_ref(), now),
    }
}

} // verus!
