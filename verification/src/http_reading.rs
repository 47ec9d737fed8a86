//! What the outside parsers make of the bytes of a request: the head, and
//! what its method, its target and its `Content-Length` amount to.
//!
//! Everything that the HTTP front-end learns from `httparse`, `url` and
//! `hyper` is gathered here in one value, a [`Reading`]. What the front-end
//! does with a reading is decided elsewhere, and holds for every reading.

use vstd::prelude::*;
use vstd::string::StringSliceAdditionalSpecFns;
use crate::addr::{Address, AddressView};
use crate::http_head::{
    has_field, httparse_parse, httparse_request, spec_has_field, HeadParse, HeadParseView,
    RequestHead, RequestHeadView,
};
use crate::http_target::{
    address_view, body_length, bytes_view, connect_destination, content_length_header,
    in_absolute_form, is_origin_form, lemma_route_target_is_rewritten, method_is_connect,
    origin_form, rewrite_target, route, spec_body_length, spec_connect_destination,
    spec_forward_route, spec_rewrite_target, url_parse,
};

verus! {

/// A complete head, and what the parsers say of it.
#[derive(Debug, PartialEq, Eq)]
pub struct ReadRequest {
    pub head: RequestHead,
    /// The offset at which the body starts.
    pub consumed: usize,
    /// Whether the method is `CONNECT`.
    pub connect: bool,
    /// Where a `CONNECT` request goes, if anywhere.
    pub tunnel_to: Option<Address>,
    /// Where any other request goes, if anywhere.
    pub forward_to: Option<Address>,
    /// The request target in origin form, if it has one.
    pub rewritten: Option<Vec<u8>>,
    /// The number of body bytes that the head announces.
    pub body_length: u64,
    /// Whether the head has a `Transfer-Encoding` field, so that its body is
    /// not framed by its length.
    pub transfer_coded: bool,
}

/// The mathematical value of a [`ReadRequest`].
pub struct ReadRequestView {
    pub head: RequestHeadView,
    pub consumed: int,
    pub connect: bool,
    pub tunnel_to: Option<AddressView>,
    pub forward_to: Option<AddressView>,
    pub rewritten: Option<Seq<u8>>,
    pub body_length: u64,
    pub transfer_coded: bool,
}

impl View for ReadRequest {
    type V = ReadRequestView;

    open spec fn view(&self) -> ReadRequestView {
        ReadRequestView {
            head: self.head@,
            consumed: self.consumed as int,
            connect: self.connect,
            tunnel_to: address_view(self.tunnel_to),
            forward_to: address_view(self.forward_to),
            rewritten: bytes_view(self.rewritten),
            body_length: self.body_length,
            transfer_coded: self.transfer_coded,
        }
    }
}

/// What the bytes received so far amount to when read as a request.
#[derive(Debug, PartialEq, Eq)]
pub enum Reading {
    /// The head is not complete; nothing in it is wrong so far.
    Partial,
    /// The bytes are not a request head.
    Invalid,
    /// The head is complete.
    Complete(ReadRequest),
}

/// The mathematical value of a [`Reading`].
pub enum ReadingView {
    Partial,
    Invalid,
    Complete(ReadRequestView),
}

impl View for Reading {
    type V = ReadingView;

    open spec fn view(&self) -> ReadingView {
        match self {
            Reading::Partial => ReadingView::Partial,
            Reading::Invalid => ReadingView::Invalid,
            Reading::Complete(request) => ReadingView::Complete(request@),
        }
    }
}

/// What the parsers say of a complete head that ends at offset `consumed`.
pub open spec fn spec_read_head(head: RequestHeadView, consumed: int) -> ReadRequestView {
    let connect = head.method == "CONNECT".spec_bytes();
    ReadRequestView {
        head,
        consumed,
        connect,
        tunnel_to: if connect {
            spec_connect_destination(head.target)
        } else {
            None
        },
        forward_to: if connect {
            None
        } else {
            match spec_forward_route(head.target) {
                Some(route) => Some(route.destination),
                None => None,
            }
        },
        rewritten: spec_rewrite_target(head.target),
        body_length: spec_body_length(content_length_header(head.headers)),
        transfer_coded: spec_has_field(head.headers, "transfer-encoding".spec_bytes()),
    }
}

/// What the parsers make of `buf` as a request.
pub open spec fn spec_read_request(buf: Seq<u8>) -> ReadingView {
    match httparse_request(buf) {
        HeadParseView::Partial => ReadingView::Partial,
        HeadParseView::Invalid => ReadingView::Invalid,
        HeadParseView::Complete(head, consumed) => ReadingView::Complete(
            spec_read_head(head, consumed),
        ),
    }
}

/// Asks the parsers about a complete head.
fn read_head(head: RequestHead, consumed: usize) -> (request: ReadRequest)
    ensures
        request@ == spec_read_head(head@, consumed as int),
        request.forward_to is Some ==> request.rewritten is Some,
{
    proof {
        lemma_route_target_is_rewritten(head.target@);
    }
    let connect = method_is_connect(head.method.as_slice());
    let body_length = body_length(&head.headers);
    let transfer_coded = has_field(&head.headers, "transfer-encoding".as_bytes());
    let mut tunnel_to: Option<Address> = None;
    let mut forward_to: Option<Address> = None;
    let rewritten;
    if connect {
        tunnel_to = connect_destination(head.target.as_slice());
        rewritten = rewrite_target(head.target.as_slice());
    } else if in_absolute_form(head.target.as_slice()) {
        let parts = url_parse(head.target.as_slice());
        forward_to = match route(&parts) {
            Some(route) => Some(route.destination),
            None => None,
        };
        rewritten = origin_form(&parts);
    } else {
        rewritten = rewrite_target(head.target.as_slice());
    }
    ReadRequest {
        head,
        consumed,
        connect,
        tunnel_to,
        forward_to,
        rewritten,
        body_length,
        transfer_coded,
    }
}

/// Reads a request from the start of `buf`.
pub fn read_request(buf: &[u8]) -> (reading: Reading)
    ensures
        reading@ == spec_read_request(buf@),
        reading matches Reading::Complete(request) ==> 0 < request.consumed <= buf@.len(),
{
    match httparse_parse(buf) {
        HeadParse::Partial => Reading::Partial,
        HeadParse::Invalid => Reading::Invalid,
        HeadParse::Complete(head, consumed) => Reading::Complete(read_head(head, consumed)),
    }
}

/// In a reading that the parsers made, a rewritten target is in origin form,
/// and a request that goes somewhere as a request to forward has one.
pub proof fn lemma_reading_rewrites_to_origin_form(buf: Seq<u8>)
    ensures
        spec_read_request(buf) matches ReadingView::Complete(request) ==> {
            &&& request.rewritten matches Some(target) ==> is_origin_form(target)
            &&& request.forward_to is Some ==> request.rewritten is Some && !request.connect
            &&& request.tunnel_to is Some ==> request.connect
        },
{
    match httparse_request(buf) {
        HeadParseView::Complete(head, _) => {
            lemma_route_target_is_rewritten(head.target);
        },
        _ => {},
    }
}

} // verus!
