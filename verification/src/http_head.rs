//! The head of an HTTP/1.x request: the request line and the header fields.
//!
//! Heads are read by the `httparse` crate and written out again by this
//! module, byte for byte as this module defines them.

use vstd::prelude::*;
use vstd::string::StringSliceAdditionalSpecFns;
use crate::wire::append_bytes;

verus! {

/// The number of header fields that a head may have.
pub const MAX_HEADERS: usize = 100;

/// The number of bytes that the relay takes in while it waits for a head to
/// become complete.
pub const MAX_HEAD_LEN: usize = 65536;

/// One header field: its name and its value, as the client sent them.
#[derive(Debug, PartialEq, Eq)]
pub struct HeaderField {
    pub name: Vec<u8>,
    pub value: Vec<u8>,
}

/// The mathematical value of a [`HeaderField`].
pub struct HeaderFieldView {
    pub name: Seq<u8>,
    pub value: Seq<u8>,
}

impl View for HeaderField {
    type V = HeaderFieldView;

    open spec fn view(&self) -> HeaderFieldView {
        HeaderFieldView { name: self.name@, value: self.value@ }
    }
}

/// The values of a sequence of header fields.
pub open spec fn fields_view(fields: Seq<HeaderField>) -> Seq<HeaderFieldView> {
    fields.map_values(|field: HeaderField| field@)
}

/// A request head: method, request target, the minor version of HTTP/1.x,
/// and the header fields in the order in which they came.
#[derive(Debug, PartialEq, Eq)]
pub struct RequestHead {
    pub method: Vec<u8>,
    pub target: Vec<u8>,
    pub minor_version: u8,
    pub headers: Vec<HeaderField>,
}

/// The mathematical value of a [`RequestHead`].
pub struct RequestHeadView {
    pub method: Seq<u8>,
    pub target: Seq<u8>,
    pub minor_version: u8,
    pub headers: Seq<HeaderFieldView>,
}

impl View for RequestHead {
    type V = RequestHeadView;

    open spec fn view(&self) -> RequestHeadView {
        RequestHeadView {
            method: self.method@,
            target: self.target@,
            minor_version: self.minor_version,
            headers: fields_view(self.headers@),
        }
    }
}

/// What the bytes received so far amount to when read as a request head.
#[derive(Debug, PartialEq, Eq)]
pub enum HeadParse {
    /// The head is not complete; nothing in it is wrong so far.
    Partial,
    /// The bytes are not a request head.
    Invalid,
    /// The head, and the offset at which the body starts.
    Complete(RequestHead, usize),
}

/// The mathematical value of a [`HeadParse`].
pub enum HeadParseView {
    Partial,
    Invalid,
    Complete(RequestHeadView, int),
}

impl View for HeadParse {
    type V = HeadParseView;

    open spec fn view(&self) -> HeadParseView {
        match self {
            HeadParse::Partial => HeadParseView::Partial,
            HeadParse::Invalid => HeadParseView::Invalid,
            HeadParse::Complete(head, n) => HeadParseView::Complete(head@, *n as int),
        }
    }
}

/// What `httparse` makes of `buf` as a request, with room for
/// [`MAX_HEADERS`] header fields.
pub uninterp spec fn httparse_request(buf: Seq<u8>) -> HeadParseView;

/// Calls `httparse::Request::parse` on `buf`, with room for [`MAX_HEADERS`]
/// header fields, and copies what it found.
///
/// Not proved: that the outcome depends on the bytes alone, and that the
/// offset of a complete head lies in the buffer and past its start. The
/// parser counts the bytes that it has consumed, and a complete head has at
/// least a method.
#[verifier::external_body]
pub(crate) fn httparse_parse(buf: &[u8]) -> (parse: HeadParse)
    ensures
        parse@ == httparse_request(buf@),
        parse matches HeadParse::Complete(_, n) ==> 0 < n <= buf@.len(),
{
    let mut slots = [httparse::EMPTY_HEADER; MAX_HEADERS];
    let mut request = httparse::Request::new(&mut slots);
    match request.parse(buf) {
        Ok(httparse::Status::Complete(n)) => HeadParse::Complete(RequestHead {
            method: request.method.unwrap_or_default().as_bytes().to_vec(),
            target: request.path.unwrap_or_default().as_bytes().to_vec(),
            minor_version: request.version.unwrap_or_default(),
            headers: request.headers.iter().map(|h| HeaderField {
                name: h.name.as_bytes().to_vec(), value: h.value.to_vec() }).collect(),
        }, n),
        Ok(httparse::Status::Partial) => HeadParse::Partial,
        Err(_) => HeadParse::Invalid,
    }
}

/// The name of the protocol version in a request line.
pub open spec fn version_bytes(minor_version: u8) -> Seq<u8> {
    if minor_version == 0 {
        "HTTP/1.0".spec_bytes()
    } else {
        "HTTP/1.1".spec_bytes()
    }
}

/// One header field as a line: name, colon, space, value, line end.
pub open spec fn field_bytes(field: HeaderFieldView) -> Seq<u8> {
    field.name + ": ".spec_bytes() + field.value + "\r\n".spec_bytes()
}

/// The header fields as lines, in order.
pub open spec fn fields_bytes(fields: Seq<HeaderFieldView>) -> Seq<u8>
    decreases fields.len(),
{
    if fields.len() == 0 {
        Seq::empty()
    } else {
        fields_bytes(fields.drop_last()) + field_bytes(fields.last())
    }
}

/// The request line: method, space, target, space, version, line end.
pub open spec fn request_line_bytes(head: RequestHeadView) -> Seq<u8> {
    head.method + " ".spec_bytes() + head.target + " ".spec_bytes() + version_bytes(
        head.minor_version,
    ) + "\r\n".spec_bytes()
}

/// A head as bytes: the request line, the header lines, and an empty line.
pub open spec fn head_bytes(head: RequestHeadView) -> Seq<u8> {
    request_line_bytes(head) + fields_bytes(head.headers) + "\r\n".spec_bytes()
}

/// Appends the bytes of a string to `out`.
fn append_text(out: &mut Vec<u8>, text: &str)
    ensures
        final(out)@ == old(out)@ + text.spec_bytes(),
{
    append_bytes(out, text.as_bytes());
}

/// Writes a head out.
pub fn encode_head(head: &RequestHead) -> (bytes: Vec<u8>)
    ensures
        bytes@ == head_bytes(head@),
{
    let mut bytes: Vec<u8> = Vec::new();
    append_bytes(&mut bytes, head.method.as_slice());
    append_text(&mut bytes, " ");
    append_bytes(&mut bytes, head.target.as_slice());
    append_text(&mut bytes, " ");
    if head.minor_version == 0 {
        append_text(&mut bytes, "HTTP/1.0");
    } else {
        append_text(&mut bytes, "HTTP/1.1");
    }
    append_text(&mut bytes, "\r\n");
    assert(bytes@ =~= request_line_bytes(head@));
    let ghost fields = fields_view(head.headers@);
    let mut i: usize = 0;
    while i < head.headers.len()
        invariant
            i <= head.headers@.len(),
            fields == fields_view(head.headers@),
            bytes@ == request_line_bytes(head@) + fields_bytes(fields.subrange(0, i as int)),
        decreases head.headers@.len() - i,
    {
        let field = &head.headers[i];
        proof {
            let upto = fields.subrange(0, i + 1);
            assert(upto.drop_last() =~= fields.subrange(0, i as int));
            assert(upto.last() == field@);
        }
        append_bytes(&mut bytes, field.name.as_slice());
        append_text(&mut bytes, ": ");
        append_bytes(&mut bytes, field.value.as_slice());
        append_text(&mut bytes, "\r\n");
        i = i + 1;
        assert(bytes@ =~= request_line_bytes(head@) + fields_bytes(fields.subrange(0, i as int)));
    }
    assert(fields.subrange(0, i as int) =~= fields);
    append_text(&mut bytes, "\r\n");
    bytes
}

/// A letter of the ASCII alphabet in lower case; any other byte as it is.
pub open spec fn spec_ascii_lower(byte: u8) -> u8 {
    if 0x41 <= byte <= 0x5a {
        (byte + 0x20) as u8
    } else {
        byte
    }
}

/// Whether two field names are the same but for the case of their letters.
pub open spec fn spec_same_name(a: Seq<u8>, b: Seq<u8>) -> bool {
    a.len() == b.len() && forall|i: int|
        0 <= i < a.len() ==> spec_ascii_lower(a[i]) == spec_ascii_lower(b[i])
}

/// Whether one of the fields has the name `wanted`, in whatever case.
pub open spec fn spec_has_field(fields: Seq<HeaderFieldView>, wanted: Seq<u8>) -> bool {
    exists|i: int| 0 <= i < fields.len() && spec_same_name(#[trigger] fields[i].name, wanted)
}

/// A letter of the ASCII alphabet in lower case; any other byte as it is.
#[verifier::when_used_as_spec(spec_ascii_lower)]
pub fn ascii_lower(byte: u8) -> (lower: u8)
    ensures
        lower == spec_ascii_lower(byte),
{
    if 0x41 <= byte && byte <= 0x5a {
        byte + 0x20
    } else {
        byte
    }
}

/// Whether two field names are the same but for the case of their letters.
pub fn same_name(a: &[u8], b: &[u8]) -> (same: bool)
    ensures
        same == spec_same_name(a@, b@),
{
    if a.len() != b.len() {
        return false;
    }
    let mut i: usize = 0;
    while i < a.len()
        invariant
            i <= a@.len(),
            a@.len() == b@.len(),
            forall|j: int| 0 <= j < i ==> spec_ascii_lower(a@[j]) == spec_ascii_lower(b@[j]),
        decreases a@.len() - i,
    {
        if ascii_lower(a[i]) != ascii_lower(b[i]) {
            return false;
        }
        i = i + 1;
    }
    true
}

/// Whether one of the fields has the name `wanted`, in whatever case.
pub fn has_field(fields: &Vec<HeaderField>, wanted: &[u8]) -> (found: bool)
    ensures
        found == spec_has_field(fields_view(fields@), wanted@),
{
    let mut i: usize = 0;
    while i < fields.len()
        invariant
            i <= fields@.len(),
            forall|j: int|
                0 <= j < i ==> !spec_same_name(#[trigger] fields_view(fields@)[j].name, wanted@),
        decreases fields@.len() - i,
    {
        if same_name(fields[i].name.as_slice(), wanted) {
            assert(spec_same_name(fields_view(fields@)[i as int].name, wanted@));
            return true;
        }
        i = i + 1;
    }
    false
}

} // verus!
