//! The transient value built for each classifiable attachment and consumed by
//! exactly one upload call.
use vstd::prelude::*;
use crate::content_kind::ContentKind;

verus! {

/// Everything one upload call needs: the decoded text, the file's name, its
/// kind, its size already rendered for humans, and the message author's name.
pub struct UploadRequest {
    pub string_content: String,
    pub filename: String,
    pub content_type: ContentKind,
    pub human_readable_size: String,
    pub author: String,
}

/// The mathematical view of an [`UploadRequest`]: its strings as character
/// sequences.
pub struct UploadRequestView {
    pub string_content: Seq<char>,
    pub filename: Seq<char>,
    pub content_type: ContentKind,
    pub human_readable_size: Seq<char>,
    pub author: Seq<char>,
}

impl View for UploadRequest {
    type V = UploadRequestView;

    open spec fn view(&self) -> UploadRequestView {
        UploadRequestView {
            string_content: self.string_content@,
            filename: self.filename@,
            content_type: self.content_type,
            human_readable_size: self.human_readable_size@,
            author: self.author@,
        }
    }
}

} // verus!
