//! The collector's request-handling decisions: assembling a stored frame
//! from the fields of an upload, and classifying statuses for the access
//! log. Routing, multipart decoding, and response writing stay at the
//! I/O edge.

use vstd::prelude::*;
use vstd::string::StringExecFns;
use crate::frame::{Frame, MetaEntry};
use crate::text::{parse_i64, parse_i64_spec, str_eq};

verus! {

/// One decoded multipart field: its name, and its content as the edge
/// read it — raw bytes for payloads, text for values.
pub struct UploadField {
    pub name: String,
    pub content: FieldContent,
}

/// Content of one multipart field.
pub enum FieldContent {
    Bytes(Vec<u8>),
    Text(String),
}

/// Why an upload was rejected.
#[derive(Clone, Copy, Debug, PartialEq, Eq, Structural)]
pub enum UploadError {
    /// No image payload among the fields.
    MissingImage,
    /// A `frame_id` field that does not parse as a signed 64-bit decimal.
    InvalidFrameId,
}

/// Whether a field carries the image payload.
pub open spec fn is_image_field(f: UploadField) -> bool {
    f.name@ == "image"@ && f.content is Bytes
}

/// Whether a field carries a frame id.
pub open spec fn is_frame_id_field(f: UploadField) -> bool {
    f.name@ == "frame_id"@ && f.content is Text
}

/// Whether some frame-id field fails to parse.
pub open spec fn has_invalid_frame_id(fields: Seq<UploadField>) -> bool {
    exists|i: int| 0 <= i < fields.len() && is_frame_id_field(#[trigger] fields[i])
        && parse_i64_spec(fields[i].content->Text_0@) is None
}

/// Index of the last image field, or `-1` when there is none. Later
/// fields of the same name override earlier ones.
pub open spec fn last_image_index(fields: Seq<UploadField>) -> int
    decreases fields.len(),
{
    if fields.len() == 0 {
        -1
    } else if is_image_field(fields.last()) {
        fields.len() - 1
    } else {
        last_image_index(fields.drop_last())
    }
}

/// Index of the last frame-id field, or `-1` when there is none.
pub open spec fn last_frame_id_index(fields: Seq<UploadField>) -> int
    decreases fields.len(),
{
    if fields.len() == 0 {
        -1
    } else if is_frame_id_field(fields.last()) {
        fields.len() - 1
    } else {
        last_frame_id_index(fields.drop_last())
    }
}

/// The frame id an upload carries: the last frame-id field's value, or
/// zero when none was sent.
pub open spec fn upload_frame_id(fields: Seq<UploadField>) -> int
    recommends
        !has_invalid_frame_id(fields),
{
    let j = last_frame_id_index(fields);
    if j < 0 {
        0
    } else {
        parse_i64_spec(fields[j].content->Text_0@)->0 as int
    }
}

/// Assembles the frame a valid upload stores: the last image payload,
/// the last parsed frame id (zero when absent), the given receive time,
/// and a content-type entry in the metadata. Any unparseable frame-id
/// field rejects the upload; so does the absence of an image payload.
pub fn build_upload_frame(fields: Vec<UploadField>, timestamp: i64) -> (r: Result<
    Frame,
    UploadError,
>)
    ensures
        match r {
            Ok(f) => {
                &&& !has_invalid_frame_id(fields@)
                &&& last_image_index(fields@) >= 0
                &&& f@.data == fields@[last_image_index(fields@)].content->Bytes_0@
                &&& f@.id == upload_frame_id(fields@)
                &&& f@.timestamp == timestamp
                &&& f@.metadata.len() == 1
                &&& f@.metadata[0].key@ == "content-type"@
                &&& f@.metadata[0].value@ == "image/png"@
            },
            Err(e) => {
                &&& (e is InvalidFrameId <==> has_invalid_frame_id(fields@))
                &&& (e is MissingImage ==> !has_invalid_frame_id(fields@) && last_image_index(
                    fields@) < 0)
            },
        },
        r is Err <==> (has_invalid_frame_id(fields@) || last_image_index(fields@) < 0),
{
    let n = fields.len();
    let mut image_at: Option<usize> = Option::None;
    let mut frame_id: i64 = 0;
    let mut i: usize = 0;
    while i < n
        invariant
            i <= n,
            n == fields.len(),
            !has_invalid_frame_id(fields@.take(i as int)),
            frame_id == upload_frame_id(fields@.take(i as int)),
            match image_at {
                Some(j) => j < i && last_image_index(fields@.take(i as int)) == j,
                None => last_image_index(fields@.take(i as int)) == -1,
            },
        decreases n - i,
    {
        proof {
            // The two field names are distinct, which the branches below
            // rely on to keep the image and frame-id bookkeeping apart.
            reveal_strlit("image");
            reveal_strlit("frame_id");
            assert(("image"@).len() == 5);
            assert(("frame_id"@).len() == 8);
            assert(fields@.take(i + 1).drop_last() =~= fields@.take(i as int));
            assert(fields@.take(i + 1).last() == fields@[i as int]);
        }
        let field = &fields[i];
        if str_eq(field.name.as_str(), "image") {
            match &field.content {
                FieldContent::Bytes(_) => {
                    image_at = Option::Some(i);
                },
                FieldContent::Text(_) => {},
            }
        } else if str_eq(field.name.as_str(), "frame_id") {
            match &field.content {
                FieldContent::Text(text) => {
                    match parse_i64(text.as_str()) {
                        Option::Some(v) => {
                            frame_id = v;
                        },
                        Option::None => {
                            assert(has_invalid_frame_id(fields@)) by {
                                assert(is_frame_id_field(fields@[i as int]));
                            }
                            return Err(UploadError::InvalidFrameId);
                        },
                    }
                },
                FieldContent::Bytes(_) => {},
            }
        }
        proof {
            lemma_field_step(fields@, i as int);
            let pre = fields@.take(i as int);
            let post = fields@.take(i as int + 1);
            if last_frame_id_index(post) == last_frame_id_index(pre) {
                lemma_last_frame_id_bounds(pre);
                let j = last_frame_id_index(pre);
                if j >= 0 {
                    assert(pre[j] == post[j]);
                }
                assert(upload_frame_id(post) == upload_frame_id(pre));
            }
        }
        i = i + 1;
    }
    proof {
        assert(fields@.take(n as int) =~= fields@);
    }
    match image_at {
        Option::None => Err(UploadError::MissingImage),
        Option::Some(j) => {
            proof {
                lemma_last_image_is_image(fields@);
            }
            let data = match &fields[j] {
                UploadField { content: FieldContent::Bytes(b), .. } => b.clone(),
                _ => vstd::pervasive::unreached(),
            };
            proof {
                assert(data@ =~= fields@[j as int].content->Bytes_0@);
            }
            let mut metadata: Vec<MetaEntry> = Vec::new();
            metadata.push(
                MetaEntry {
                    key: String::from_str("content-type"),
                    value: String::from_str("image/png"),
                },
            );
            Ok(Frame::new(frame_id, data, timestamp, metadata))
        },
    }
}

/// The last image index, when there is one, points at an image field.
proof fn lemma_last_image_is_image(fields: Seq<UploadField>)
    requires
        last_image_index(fields) >= 0,
    ensures
        last_image_index(fields) < fields.len(),
        is_image_field(fields[last_image_index(fields)]),
    decreases fields.len(),
{
    if fields.len() > 0 && !is_image_field(fields.last()) {
        lemma_last_image_is_image(fields.drop_last());
    }
}

/// The last frame-id index is in range and, when present, points at a
/// frame-id field.
proof fn lemma_last_frame_id_bounds(fields: Seq<UploadField>)
    ensures
        -1 <= last_frame_id_index(fields) < fields.len(),
        last_frame_id_index(fields) >= 0 ==> is_frame_id_field(
            fields[last_frame_id_index(fields)]),
    decreases fields.len(),
{
    if fields.len() > 0 && !is_frame_id_field(fields.last()) {
        lemma_last_frame_id_bounds(fields.drop_last());
    }
}

/// One processing step keeps the running image index, frame id, and
/// validity in sync with the specs over the prefix.
proof fn lemma_field_step(fields: Seq<UploadField>, i: int)
    requires
        0 <= i < fields.len(),
    ensures
        ({
            let pre = fields.take(i);
            let post = fields.take(i + 1);
            &&& (is_image_field(fields[i]) ==> last_image_index(post) == i)
            &&& (!is_image_field(fields[i]) ==> last_image_index(post) == last_image_index(pre))
            &&& (is_frame_id_field(fields[i]) ==> last_frame_id_index(post) == i)
            &&& (!is_frame_id_field(fields[i]) ==> last_frame_id_index(post)
                == last_frame_id_index(pre))
            &&& (has_invalid_frame_id(post) <==> has_invalid_frame_id(pre) || (is_frame_id_field(
                fields[i]) && parse_i64_spec(fields[i].content->Text_0@) is None))
        }),
{
    let pre = fields.take(i);
    let post = fields.take(i + 1);
    assert(post.drop_last() =~= pre);
    assert(post.last() == fields[i]);
    assert forall|j: int| 0 <= j < post.len() implies post[j] == fields[j] by {}
    if has_invalid_frame_id(pre) {
        let w = choose|j: int| 0 <= j < pre.len() && is_frame_id_field(#[trigger] pre[j])
            && parse_i64_spec(pre[j].content->Text_0@) is None;
        assert(is_frame_id_field(post[w]));
        assert(has_invalid_frame_id(post));
    }
    if has_invalid_frame_id(post) && !(is_frame_id_field(fields[i]) && parse_i64_spec(
        fields[i].content->Text_0@,
    ) is None) {
        let w = choose|j: int| 0 <= j < post.len() && is_frame_id_field(#[trigger] post[j])
            && parse_i64_spec(post[j].content->Text_0@) is None;
        assert(w < i);
        assert(is_frame_id_field(pre[w]));
        assert(has_invalid_frame_id(pre));
    }
}

/// The access-log class of a response status.
#[derive(Clone, Copy, Debug, PartialEq, Eq, Structural)]
pub enum StatusClass {
    /// 2xx.
    Success,
    /// 4xx.
    ClientError,
    /// 5xx.
    ServerError,
    /// Everything else.
    Other,
}

/// Classifies a status code for the access log.
pub fn classify_status(code: u16) -> (r: StatusClass)
    ensures
        200 <= code <= 299 ==> r is Success,
        400 <= code <= 499 ==> r is ClientError,
        500 <= code <= 599 ==> r is ServerError,
        !(200 <= code <= 299 || 400 <= code <= 499 || 500 <= code <= 599) ==> r is Other,
{
    if 200 <= code && code <= 299 {
        StatusClass::Success
    } else if 400 <= code && code <= 499 {
        StatusClass::ClientError
    } else if 500 <= code && code <= 599 {
        StatusClass::ServerError
    } else {
        StatusClass::Other
    }
}

} // verus!
