//! Verified core of a chat-bot command that uploads the text attachments of a
//! message to paste-hosting services and summarises the results.
//!
//! The library holds the logic: classifying attachments, formatting sizes and
//! reply fields, building the outgoing paste requests, interpreting the
//! services' responses, and joining the per-attachment results into one reply.
//! The surrounding bot process performs the HTTP calls and hands their plain
//! results to these functions.
use vstd::prelude::*;

mod clock;
mod content_kind;
mod format;
mod orchestrator;
mod paste;
mod text;
mod upload_request;
mod upload_response;

pub use content_kind::ContentKind;
pub use content_kind::classify;
pub use format::format_bytes;
pub use orchestrator::Attachment;
pub use orchestrator::Reply;
pub use orchestrator::ReplyEntry;
pub use orchestrator::assemble_reply;
pub use orchestrator::build_upload_request;
pub use orchestrator::create_upload_embed;
pub use orchestrator::empty_attachments_notice;
pub use orchestrator::join_results;
pub use orchestrator::process_fetched;
pub use paste::HttpPost;
pub use paste::PASTEBOOK_DEV_EXPIRE_TIME;
pub use paste::PASTES_DEV_EXPIRE_TIME;
pub use paste::UploadError;
pub use paste::UploadPayload;
pub use paste::check_fetch;
pub use paste::finish_upload;
pub use paste::handle_log_file;
pub use paste::handle_text_file;
pub use paste::is_success;
pub use paste::pastebook_link;
pub use paste::pastebook_title;
pub use paste::pastes_dev_link;
pub use paste::upload_job;
pub use text::decimal_string;
pub use text::decimal_string_i64;
pub use text::format_field;
pub use upload_request::UploadRequest;
pub use upload_response::UploadResponse;

verus! {

/// Shared state handed to the command framework; this bot keeps none.
#[derive(Debug)]
pub struct Data {}

} // verus!
