//! Attachment classification: which paste service, if any, handles a file.
use vstd::prelude::*;
use crate::text::contains_spec;
use crate::text::ends_with_spec;
use crate::text::str_contains;
use crate::text::str_ends_with;

verus! {

/// The kind of content an attachment holds, deciding which paste service
/// receives it.
#[derive(Clone, Copy, Debug, PartialEq, Eq, Structural)]
pub enum ContentKind {
    Text,
    Log,
}

/// The view of an optional content-type header value.
pub open spec fn content_type_view(content_type: Option<&String>) -> Option<Seq<char>> {
    match content_type {
        Some(ct) => Some(ct@),
        None => None,
    }
}

/// The classification rule: a `.log` name is a log whatever the declared
/// content type says; otherwise a declared content type containing `"text/"`
/// makes it text; anything else has no kind and is skipped.
pub open spec fn classify_spec(filename: Seq<char>, content_type: Option<Seq<char>>) -> Option<
    ContentKind,
> {
    if ends_with_spec(filename, ".log"@) {
        Some(ContentKind::Log)
    } else if content_type matches Some(ct) && contains_spec(ct, "text/"@) {
        Some(ContentKind::Text)
    } else {
        None
    }
}

/// Classifies an attachment by its filename and declared content type.
pub fn classify(filename: &str, content_type: Option<&String>) -> (r: Option<ContentKind>)
    ensures
        r == classify_spec(filename@, content_type_view(content_type)),
{
    if str_ends_with(filename, ".log") {
        Some(ContentKind::Log)
    } else {
        match content_type {
            Some(ct) => {
                if str_contains(ct.as_str(), "text/") {
                    Some(ContentKind::Text)
                } else {
                    None
                }
            },
            None => None,
        }
    }
}

} // verus!
