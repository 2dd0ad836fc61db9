//! The upload pipeline's decisions: which attachments are processed, how each
//! becomes an upload request and then a reply entry, and how the
//! per-attachment outcomes are joined, all-or-nothing, into one reply.
use vstd::prelude::*;
use vstd::string::StringExecFns;
use crate::content_kind::ContentKind;
use crate::content_kind::classify;
use crate::content_kind::classify_spec;
use crate::format::format_bytes;
use crate::format::format_bytes_spec;
use crate::paste::UploadError;
use crate::text::dec_i64_spec;
use crate::text::decimal_string_i64;
use crate::text::format_field;
use crate::text::format_field_spec;
use crate::text::utf8_lossy;
use crate::text::utf8_lossy_of;
use crate::upload_request::UploadRequest;
use crate::upload_request::UploadRequestView;
use crate::upload_response::UploadResponse;

verus! {

/// One attachment of the triggering message, as plain values: where to fetch
/// it, its name, and its declared content type if any.
pub struct Attachment {
    pub url: String,
    pub filename: String,
    pub content_type: Option<String>,
}

/// The view of an attachment's optional declared content type.
pub open spec fn att_ct_view(a: Attachment) -> Option<Seq<char>> {
    match a.content_type {
        Some(ct) => Some(ct@),
        None => None,
    }
}

/// The kind, if any, that classification assigns to `a`.
pub open spec fn att_kind(a: Attachment) -> Option<ContentKind> {
    classify_spec(a.filename@, att_ct_view(a))
}

/// The upload request built for attachment `a` with fetched bytes `content`,
/// posted by `author`, once classification assigned `kind`.
pub open spec fn request_view_of(
    a: Attachment,
    content: Seq<u8>,
    author: Seq<char>,
    kind: ContentKind,
) -> UploadRequestView {
    UploadRequestView {
        string_content: utf8_lossy_of(content),
        filename: a.filename@,
        content_type: kind,
        human_readable_size: format_bytes_spec(content.len()),
        author: author,
    }
}

/// The upload requests of a message: one per classifiable attachment, in the
/// order of the attachment list; attachments with no kind contribute nothing.
pub open spec fn requests_spec(
    atts: Seq<Attachment>,
    contents: Seq<Seq<u8>>,
    author: Seq<char>,
) -> Seq<UploadRequestView>
    decreases atts.len(),
{
    if atts.len() == 0 {
        Seq::empty()
    } else {
        let rest = requests_spec(atts.drop_last(), contents.drop_last(), author);
        match att_kind(atts.last()) {
            Some(kind) => rest.push(request_view_of(atts.last(), contents.last(), author, kind)),
            None => rest,
        }
    }
}

/// Builds the upload request for one attachment, or nothing when
/// classification assigns it no kind.
pub fn build_upload_request(attachment: &Attachment, content: &Vec<u8>, author: &str) -> (r: Option<
    UploadRequest,
>)
    ensures
        match att_kind(*attachment) {
            Some(kind) => r matches Some(req) && req@ == request_view_of(
                *attachment,
                content@,
                author@,
                kind,
            ),
            None => r is None,
        },
{
    match classify(attachment.filename.as_str(), attachment.content_type.as_ref()) {
        Some(kind) => Some(
            UploadRequest {
                string_content: utf8_lossy(content),
                filename: attachment.filename.clone(),
                content_type: kind,
                human_readable_size: format_bytes(content.len()),
                author: String::from_str(author),
            },
        ),
        None => None,
    }
}

/// Builds the upload requests of a whole message from its attachments and
/// their fetched contents: one request per classifiable attachment, in the
/// original order.
pub fn process_fetched(attachments: &Vec<Attachment>, contents: &Vec<Vec<u8>>, author: &str) -> (reqs: Vec<
    UploadRequest,
>)
    requires
        attachments@.len() == contents@.len(),
    ensures
        reqs@.map_values(|r: UploadRequest| r@) == requests_spec(
            attachments@,
            contents@.map_values(|c: Vec<u8>| c@),
            author@,
        ),
{
    let ghost contents_view = contents@.map_values(|c: Vec<u8>| c@);
    let mut reqs: Vec<UploadRequest> = Vec::new();
    let mut i: usize = 0;
    proof {
        assert(reqs@.map_values(|r: UploadRequest| r@) =~= requests_spec(
            attachments@.take(0),
            contents_view.take(0),
            author@,
        ));
    }
    while i < attachments.len()
        invariant
            i <= attachments@.len(),
            contents@.len() == attachments@.len(),
            contents_view == contents@.map_values(|c: Vec<u8>| c@),
            reqs@.map_values(|r: UploadRequest| r@) == requests_spec(
                attachments@.take(i as int),
                contents_view.take(i as int),
                author@,
            ),
        decreases attachments@.len() - i,
    {
        proof {
            assert(attachments@.take(i + 1).drop_last() =~= attachments@.take(i as int));
            assert(contents_view.take(i + 1).drop_last() =~= contents_view.take(i as int));
            assert(attachments@.take(i + 1).last() == attachments@[i as int]);
            assert(contents_view.take(i + 1).last() == contents@[i as int]@);
        }
        match build_upload_request(&attachments[i], &contents[i], author) {
            Some(req) => {
                reqs.push(req);
                proof {
                    assert(reqs@.map_values(|r: UploadRequest| r@) =~= requests_spec(
                        attachments@.take(i + 1),
                        contents_view.take(i + 1),
                        author@,
                    ));
                }
            },
            None => {
                proof {
                    assert(reqs@.map_values(|r: UploadRequest| r@) =~= requests_spec(
                        attachments@.take(i + 1),
                        contents_view.take(i + 1),
                        author@,
                    ));
                }
            },
        }
        i += 1;
    }
    proof {
        assert(attachments@.take(attachments@.len() as int) =~= attachments@);
        assert(contents_view.take(attachments@.len() as int) =~= contents_view);
    }
    reqs
}

/// Law: an attachment that classification assigns no kind contributes no
/// upload request, and so no reply entry — removing it from the message
/// leaves the request list unchanged.
pub proof fn lemma_no_kind_contributes_nothing(
    atts: Seq<Attachment>,
    contents: Seq<Seq<u8>>,
    author: Seq<char>,
    i: int,
)
    requires
        atts.len() == contents.len(),
        0 <= i < atts.len(),
        att_kind(atts[i]) is None,
    ensures
        requests_spec(atts, contents, author) == requests_spec(
            atts.remove(i),
            contents.remove(i),
            author,
        ),
    decreases atts.len(),
{
    if i == atts.len() - 1 {
        assert(atts.remove(i) =~= atts.drop_last());
        assert(contents.remove(i) =~= contents.drop_last());
    } else {
        assert(atts.remove(i).drop_last() =~= atts.drop_last().remove(i));
        assert(contents.remove(i).drop_last() =~= contents.drop_last().remove(i));
        assert(atts.remove(i).last() == atts.last());
        assert(contents.remove(i).last() == contents.last());
        lemma_no_kind_contributes_nothing(atts.drop_last(), contents.drop_last(), author, i);
    }
}

/// The number of attachments that classification assigns a kind.
pub open spec fn classifiable_count(atts: Seq<Attachment>) -> nat
    decreases atts.len(),
{
    if atts.len() == 0 {
        0
    } else {
        classifiable_count(atts.drop_last()) + if att_kind(atts.last()) is Some {
            1nat
        } else {
            0nat
        }
    }
}

/// Law: the reply holds exactly as many entries as attachments with a
/// recognized kind — one upload request per classifiable attachment.
pub proof fn lemma_one_request_per_classifiable(
    atts: Seq<Attachment>,
    contents: Seq<Seq<u8>>,
    author: Seq<char>,
)
    requires
        atts.len() == contents.len(),
    ensures
        requests_spec(atts, contents, author).len() == classifiable_count(atts),
    decreases atts.len(),
{
    if atts.len() > 0 {
        lemma_one_request_per_classifiable(atts.drop_last(), contents.drop_last(), author);
    }
}

/// One block of the final reply: the fields of the embed shown for one
/// uploaded attachment.
#[derive(Debug)]
pub struct ReplyEntry {
    pub title: String,
    pub file_name: String,
    pub file_size: String,
    pub expires: String,
    pub description: String,
    pub color: u32,
}

/// The mathematical view of a [`ReplyEntry`].
pub struct ReplyEntryView {
    pub title: Seq<char>,
    pub file_name: Seq<char>,
    pub file_size: Seq<char>,
    pub expires: Seq<char>,
    pub description: Seq<char>,
    pub color: u32,
}

impl View for ReplyEntry {
    type V = ReplyEntryView;

    open spec fn view(&self) -> ReplyEntryView {
        ReplyEntryView {
            title: self.title@,
            file_name: self.file_name@,
            file_size: self.file_size@,
            expires: self.expires@,
            description: self.description@,
            color: self.color,
        }
    }
}

/// The embed rendered for one uploaded attachment: fixed success title and
/// colour, the file's name and size in quoted code style, a relative expiry
/// stamp, and the paste link as the description.
pub open spec fn embed_spec(req: UploadRequestView, link: Seq<char>, expires: int) -> ReplyEntryView {
    ReplyEntryView {
        title: "File Successfully Uploaded"@,
        file_name: format_field_spec(req.filename),
        file_size: format_field_spec(req.human_readable_size),
        expires: "<t:"@ + dec_i64_spec(expires) + ":R>"@,
        description: link,
        color: 0x00FF00,
    }
}

/// Renders the reply embed for one uploaded attachment.
pub fn create_upload_embed(upload_request: &UploadRequest, upload_response: &UploadResponse) -> (e:
    ReplyEntry)
    ensures
        e@ == embed_spec(upload_request@, upload_response.link@, upload_response.expires as int),
{
    let expires_stamp = String::from_str("<t:").concat(
        decimal_string_i64(upload_response.expires).as_str(),
    ).concat(":R>");
    proof {
        assert(expires_stamp@ =~= "<t:"@ + dec_i64_spec(upload_response.expires as int) + ":R>"@);
    }
    ReplyEntry {
        title: String::from_str("File Successfully Uploaded"),
        file_name: format_field(upload_request.filename.as_str()),
        file_size: format_field(upload_request.human_readable_size.as_str()),
        expires: expires_stamp,
        description: upload_response.link.clone(),
        color: 0x00FF00,
    }
}

/// The index of the first failed outcome, if any failed.
pub open spec fn first_failure(results: Seq<Result<ReplyEntry, UploadError>>) -> Option<int> {
    if exists|i: int| 0 <= i < results.len() && results[i] is Err {
        Some(choose|i: int| 0 <= i < results.len() && results[i] is Err && forall|j: int|
            0 <= j < i ==> results[j] is Ok)
    } else {
        None
    }
}

/// Joins the per-attachment outcomes all-or-nothing: if every upload
/// succeeded, the reply holds every entry in order; if any failed, the whole
/// invocation fails with the first failure and no entries are kept.
pub fn join_results(results: Vec<Result<ReplyEntry, UploadError>>) -> (r: Result<
    Vec<ReplyEntry>,
    UploadError,
>)
    ensures
        r is Ok <==> (forall|i: int| 0 <= i < results@.len() ==> results@[i] is Ok),
        r matches Ok(entries) ==> entries@.len() == results@.len() && (forall|i: int|
            0 <= i < results@.len() ==> entries@[i]@ == results@[i]->Ok_0@),
        r matches Err(e) ==> (exists|i: int|
            0 <= i < results@.len() && results@[i] == Err::<ReplyEntry, UploadError>(e) && (
            forall|j: int| 0 <= j < i ==> results@[j] is Ok)),
{
    let mut entries: Vec<ReplyEntry> = Vec::new();
    let mut i: usize = 0;
    while i < results.len()
        invariant
            i <= results@.len(),
            entries@.len() == i,
            forall|j: int| 0 <= j < i ==> results@[j] is Ok,
            forall|j: int| 0 <= j < i ==> entries@[j]@ == results@[j]->Ok_0@,
        decreases results@.len() - i,
    {
        match &results[i] {
            Ok(entry) => {
                entries.push(entry.clone_entry());
            },
            Err(e) => {
                return Err(*e);
            },
        }
        i += 1;
    }
    Ok(entries)
}

impl ReplyEntry {
    /// A field-for-field copy of the entry.
    pub fn clone_entry(&self) -> (r: ReplyEntry)
        ensures
            r@ == self@,
    {
        ReplyEntry {
            title: self.title.clone(),
            file_name: self.file_name.clone(),
            file_size: self.file_size.clone(),
            expires: self.expires.clone(),
            description: self.description.clone(),
            color: self.color,
        }
    }
}

/// The reply the command sends: either a short notice, or the list of embeds
/// for the uploaded attachments; each carries whether it is shown only to the
/// invoking user.
pub enum Reply {
    Notice { content: String, ephemeral: bool },
    Entries { entries: Vec<ReplyEntry>, ephemeral: bool },
}

/// The short-circuit for a message without attachments: a private notice, and
/// nothing is fetched or uploaded.
pub fn empty_attachments_notice(attachments: &Vec<Attachment>) -> (r: Option<Reply>)
    ensures
        r is Some <==> attachments@.len() == 0,
        r matches Some(reply) ==> (reply matches Reply::Notice { content, ephemeral } && content@
            == "No file attached."@ && ephemeral == true),
{
    if attachments.len() == 0 {
        Some(Reply::Notice { content: String::from_str("No file attached."), ephemeral: true })
    } else {
        None
    }
}

/// Assembles the final reply: all entries, in order, shown privately unless
/// the command variant asked to display them.
pub fn assemble_reply(entries: Vec<ReplyEntry>, display: bool) -> (r: Reply)
    ensures
        r matches Reply::Entries { entries: e, ephemeral } && e == entries && ephemeral == !display,
{
    Reply::Entries { entries, ephemeral: !display }
}

} // verus!
