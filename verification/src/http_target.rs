//! What a request says about where it goes and how long it is: the method,
//! the request target, and the length of the body.
//!
//! URLs are read by the `url` crate, methods and the `Content-Length` field by
//! `hyper`; what to make of their answers is decided here.

use vstd::prelude::*;
use vstd::string::StringSliceAdditionalSpecFns;
use crate::addr::{Address, AddressView, SocketAddress, MAX_DOMAIN_LEN};
use crate::http_head::{fields_view, HeaderField, HeaderFieldView};
use crate::wire::{append_bytes, contains_byte, copy_range};

verus! {

/// The port of a target that names none.
pub const DEFAULT_PORT: u16 = 80;

/// The byte `/`.
pub const SLASH: u8 = 0x2f;

/// The byte `?`.
pub const QUESTION_MARK: u8 = 0x3f;

/// The host of a URL.
#[derive(Debug, PartialEq, Eq)]
pub enum UrlHost {
    Domain(Vec<u8>),
    V4(u32),
    V6(u128),
}

/// The mathematical value of a [`UrlHost`].
pub enum UrlHostView {
    Domain(Seq<u8>),
    V4(u32),
    V6(u128),
}

impl View for UrlHost {
    type V = UrlHostView;

    open spec fn view(&self) -> UrlHostView {
        match self {
            UrlHost::Domain(name) => UrlHostView::Domain(name@),
            UrlHost::V4(ip) => UrlHostView::V4(*ip),
            UrlHost::V6(ip) => UrlHostView::V6(*ip),
        }
    }
}

/// The parts of a URL that the relay reads.
#[derive(Debug, PartialEq, Eq)]
pub struct UrlParts {
    pub host: Option<UrlHost>,
    /// The port, where the URL names one that is not its scheme's own.
    pub port: Option<u16>,
    pub path: Vec<u8>,
    /// The query, without its question mark.
    pub query: Option<Vec<u8>>,
}

/// The mathematical value of a [`UrlParts`].
pub struct UrlPartsView {
    pub host: Option<UrlHostView>,
    pub port: Option<u16>,
    pub path: Seq<u8>,
    pub query: Option<Seq<u8>>,
}

impl View for UrlParts {
    type V = UrlPartsView;

    open spec fn view(&self) -> UrlPartsView {
        UrlPartsView {
            host: match self.host {
                Some(host) => Some(host@),
                None => None,
            },
            port: self.port,
            path: self.path@,
            query: match self.query {
                Some(query) => Some(query@),
                None => None,
            },
        }
    }
}

/// The value of an optional [`UrlParts`].
pub open spec fn parts_view(parts: Option<UrlParts>) -> Option<UrlPartsView> {
    match parts {
        Some(parts) => Some(parts@),
        None => None,
    }
}

/// The value of an optional [`Address`].
pub open spec fn address_view(address: Option<Address>) -> Option<AddressView> {
    match address {
        Some(address) => Some(address@),
        None => None,
    }
}

/// The value of an optional byte vector.
pub open spec fn bytes_view(bytes: Option<Vec<u8>>) -> Option<Seq<u8>> {
    match bytes {
        Some(bytes) => Some(bytes@),
        None => None,
    }
}

/// What the `url` crate makes of `text` as an absolute URL: its parts, or
/// nothing where `text` is no such URL.
pub uninterp spec fn url_parts(text: Seq<u8>) -> Option<UrlPartsView>;

/// The length that `hyper` reads from the `Content-Length` fields among
/// `headers`, or nothing where it reads none.
pub uninterp spec fn content_length_header(headers: Seq<HeaderFieldView>) -> Option<u64>;

/// Calls `Url::parse` (which `hyper` hands on from the `url` crate) on `text`
/// and copies the host, the port, the path and the query of the URL.
///
/// Not proved: that the outcome depends on the bytes alone. Text that is not
/// UTF-8 is no URL.
#[verifier::external_body]
pub(crate) fn url_parse(text: &[u8]) -> (parts: Option<UrlParts>)
    ensures
        parts_view(parts) == url_parts(text@),
{
    let url = hyper::Url::parse(std::str::from_utf8(text).ok()?).ok()?;
    Some(UrlParts {
        host: url.host().map(|host| match host {
            url::Host::Domain(name) => UrlHost::Domain(name.as_bytes().to_vec()),
            url::Host::Ipv4(ip) => UrlHost::V4(u32::from(ip)),
            url::Host::Ipv6(ip) => UrlHost::V6(u128::from(ip)),
        }),
        port: url.port(),
        path: url.path().as_bytes().to_vec(),
        query: url.query().map(|query| query.as_bytes().to_vec()),
    })
}

/// Asks `hyper` whether `name` is its method `CONNECT`.
///
/// Not proved: that `hyper::method::Method` reads exactly the name `CONNECT`,
/// in upper case, as `Method::Connect`.
#[verifier::external_body]
pub(crate) fn method_is_connect(name: &[u8]) -> (yes: bool)
    ensures
        yes == (name@ == "CONNECT".spec_bytes()),
{
    match std::str::from_utf8(name) {
        Ok(text) => matches!(text.parse::<hyper::method::Method>(), Ok(hyper::method::Method::Connect)),
        Err(_) => false,
    }
}

/// Hands the header fields to `hyper` and asks for the typed header
/// `ContentLength`.
///
/// Not proved: that the outcome depends on the names and values of the
/// fields alone.
#[verifier::external_body]
fn typed_content_length(headers: &Vec<HeaderField>) -> (length: Option<u64>)
    ensures
        length == content_length_header(fields_view(headers@)),
{
    let raw: Vec<httparse::Header> = headers.iter().map(|field| httparse::Header {
        name: std::str::from_utf8(&field.name).unwrap_or_default(),
        value: &field.value,
    }).collect();
    let typed = hyper::header::Headers::from_raw(&raw).ok()?;
    typed.get::<hyper::header::ContentLength>().map(|length| length.0)
}

/// The number of body bytes that a head with these fields announces: what
/// `Content-Length` says, and zero where the field is absent or unreadable.
pub open spec fn spec_body_length(announced: Option<u64>) -> u64 {
    match announced {
        Some(length) => length,
        None => 0,
    }
}

/// The number of body bytes that a head with these fields announces.
pub fn body_length(headers: &Vec<HeaderField>) -> (length: u64)
    ensures
        length == spec_body_length(content_length_header(fields_view(headers@))),
{
    match typed_content_length(headers) {
        Some(length) => length,
        None => 0,
    }
}

/// The address that a host and a port make.
pub open spec fn host_address(host: UrlHostView, port: u16) -> AddressView {
    match host {
        UrlHostView::Domain(name) => AddressView::Domain(name, port),
        UrlHostView::V4(ip) => AddressView::Socket(SocketAddress::V4 { ip, port }),
        UrlHostView::V6(ip) => AddressView::Socket(
            SocketAddress::V6 { ip, port, flowinfo: 0, scope_id: 0 },
        ),
    }
}

/// Where a URL leads: its host, with its port or else port 80. A URL without
/// a host leads nowhere, and neither does one whose domain name is too long
/// for an address.
pub open spec fn spec_destination(parts: Option<UrlPartsView>) -> Option<AddressView> {
    match parts {
        Some(parts) => match parts.host {
            Some(host) => {
                let address = host_address(
                    host,
                    match parts.port {
                        Some(port) => port,
                        None => DEFAULT_PORT,
                    },
                );
                if address.encodable() {
                    Some(address)
                } else {
                    None
                }
            },
            None => None,
        },
        None => None,
    }
}

/// Where a URL leads.
pub fn destination(parts: &Option<UrlParts>) -> (address: Option<Address>)
    ensures
        address_view(address) == spec_destination(parts_view(*parts)),
        address matches Some(a) ==> a@.encodable(),
{
    match parts {
        Some(parts) => {
            let port: u16 = match parts.port {
                Some(port) => port,
                None => DEFAULT_PORT,
            };
            match &parts.host {
                Some(UrlHost::Domain(name)) => {
                    if name.len() <= MAX_DOMAIN_LEN {
                        let copy = copy_range(name.as_slice(), 0, name.len());
                        assert(copy@ =~= name@);
                        Some(Address::DomainName(copy, port))
                    } else {
                        None
                    }
                },
                Some(UrlHost::V4(ip)) => Some(
                    Address::SocketAddress(SocketAddress::V4 { ip: *ip, port }),
                ),
                Some(UrlHost::V6(ip)) => Some(
                    Address::SocketAddress(
                        SocketAddress::V6 { ip: *ip, port, flowinfo: 0, scope_id: 0 },
                    ),
                ),
                None => None,
            }
        },
        None => None,
    }
}

/// The origin form of a URL: its path and, after a question mark, its query.
pub open spec fn origin_form_bytes(parts: UrlPartsView) -> Seq<u8> {
    match parts.query {
        Some(query) => parts.path + seq![QUESTION_MARK] + query,
        None => parts.path,
    }
}

/// The origin form of a URL, where it has one: a URL whose path does not
/// start with a slash has none.
pub open spec fn spec_origin_form(parts: Option<UrlPartsView>) -> Option<Seq<u8>> {
    match parts {
        Some(parts) => if parts.path.len() > 0 && parts.path[0] == SLASH {
            Some(origin_form_bytes(parts))
        } else {
            None
        },
        None => None,
    }
}

/// The origin form of a URL, where it has one.
pub fn origin_form(parts: &Option<UrlParts>) -> (target: Option<Vec<u8>>)
    ensures
        bytes_view(target) == spec_origin_form(parts_view(*parts)),
{
    match parts {
        Some(parts) => {
            if parts.path.len() > 0 && parts.path[0] == SLASH {
                let mut target = copy_range(parts.path.as_slice(), 0, parts.path.len());
                assert(target@ =~= parts.path@);
                match &parts.query {
                    Some(query) => {
                        target.push(QUESTION_MARK);
                        append_bytes(&mut target, query.as_slice());
                        assert(target@ =~= origin_form_bytes(parts@));
                    },
                    None => {},
                }
                Some(target)
            } else {
                None
            }
        },
        None => None,
    }
}

/// Whether a request target is in origin form: it starts with a slash.
pub open spec fn is_origin_form(target: Seq<u8>) -> bool {
    target.len() > 0 && target[0] == SLASH
}

/// Whether a request target is in absolute form: it holds a slash, and does
/// not start with one.
pub open spec fn is_absolute_form(target: Seq<u8>) -> bool {
    target.contains(SLASH) && target[0] != SLASH
}

/// A request target with its scheme and authority taken off. A target in
/// origin form stays as it is; one in absolute form becomes the origin form
/// of its URL; any other has no such form.
pub open spec fn spec_rewrite_target(target: Seq<u8>) -> Option<Seq<u8>> {
    if is_origin_form(target) {
        Some(target)
    } else if is_absolute_form(target) {
        spec_origin_form(url_parts(target))
    } else {
        None
    }
}

/// Where a request to forward goes, and the target that it is passed on with.
#[derive(Debug, PartialEq, Eq)]
pub struct ForwardRoute {
    pub destination: Address,
    pub target: Vec<u8>,
}

/// The mathematical value of a [`ForwardRoute`].
pub struct ForwardRouteView {
    pub destination: AddressView,
    pub target: Seq<u8>,
}

impl View for ForwardRoute {
    type V = ForwardRouteView;

    open spec fn view(&self) -> ForwardRouteView {
        ForwardRouteView { destination: self.destination@, target: self.target@ }
    }
}

/// The value of an optional [`ForwardRoute`].
pub open spec fn route_view(route: Option<ForwardRoute>) -> Option<ForwardRouteView> {
    match route {
        Some(route) => Some(route@),
        None => None,
    }
}

/// The route of a URL: where it leads, and its origin form. A URL that
/// leads nowhere, or has no origin form, has no route.
pub open spec fn spec_route(parts: Option<UrlPartsView>) -> Option<ForwardRouteView> {
    match (spec_destination(parts), spec_origin_form(parts)) {
        (Some(destination), Some(target)) => Some(ForwardRouteView { destination, target }),
        _ => None,
    }
}

/// The route of a request that is not a `CONNECT`: its target must be in
/// absolute form, and is read as a URL.
pub open spec fn spec_forward_route(target: Seq<u8>) -> Option<ForwardRouteView> {
    if is_absolute_form(target) {
        spec_route(url_parts(target))
    } else {
        None
    }
}

/// Where a `CONNECT` request goes, if anywhere: its target is `host:port`,
/// read as the authority of an `http` URL, and holds no slash.
pub open spec fn spec_connect_destination(target: Seq<u8>) -> Option<AddressView> {
    if target.len() > 0 && !target.contains(SLASH) {
        spec_destination(url_parts("http://".spec_bytes() + target))
    } else {
        None
    }
}

/// Whether a request target is in absolute form.
pub fn in_absolute_form(target: &[u8]) -> (yes: bool)
    ensures
        yes == is_absolute_form(target@),
{
    contains_byte(target, SLASH) && target[0] != SLASH
}

/// Takes the scheme and the authority off a request target.
pub fn rewrite_target(target: &[u8]) -> (rewritten: Option<Vec<u8>>)
    ensures
        bytes_view(rewritten) == spec_rewrite_target(target@),
        is_origin_form(target@) ==> bytes_view(rewritten) == Some(target@),
        rewritten matches Some(bytes) ==> is_origin_form(bytes@),
{
    if target.len() > 0 && target[0] == SLASH {
        let same = copy_range(target, 0, target.len());
        assert(same@ =~= target@);
        Some(same)
    } else if in_absolute_form(target) {
        let parts = url_parse(target);
        origin_form(&parts)
    } else {
        None
    }
}

/// The route of a URL.
pub fn route(parts: &Option<UrlParts>) -> (route: Option<ForwardRoute>)
    ensures
        route_view(route) == spec_route(parts_view(*parts)),
        route matches Some(r) ==> r.destination@.encodable() && is_origin_form(r.target@),
{
    match destination(parts) {
        Some(destination) => match origin_form(parts) {
            Some(target) => Some(ForwardRoute { destination, target }),
            None => None,
        },
        None => None,
    }
}

/// The route of a request that is not a `CONNECT`.
pub fn forward_route(target: &[u8]) -> (route: Option<ForwardRoute>)
    ensures
        route_view(route) == spec_forward_route(target@),
        route matches Some(r) ==> r.destination@.encodable() && is_origin_form(r.target@),
{
    if in_absolute_form(target) {
        let parts = url_parse(target);
        route(&parts)
    } else {
        None
    }
}

/// Where a `CONNECT` request goes, if anywhere.
pub fn connect_destination(target: &[u8]) -> (address: Option<Address>)
    ensures
        address_view(address) == spec_connect_destination(target@),
        address matches Some(a) ==> a@.encodable(),
{
    if target.len() > 0 && !contains_byte(target, SLASH) {
        let scheme = "http://".as_bytes();
        let mut text = copy_range(scheme, 0, scheme.len());
        append_bytes(&mut text, target);
        assert(text@ =~= "http://".spec_bytes() + target@);
        let parts = url_parse(text.as_slice());
        destination(&parts)
    } else {
        None
    }
}

/// Rewriting a target in origin form leaves it unchanged. A rewritten target
/// is in origin form, so that rewriting it again changes nothing.
pub proof fn lemma_rewrite_idempotent(target: Seq<u8>)
    ensures
        is_origin_form(target) ==> spec_rewrite_target(target) == Some(target),
        spec_rewrite_target(target) matches Some(rewritten) ==> is_origin_form(rewritten)
            && spec_rewrite_target(rewritten) == Some(rewritten),
{
}

/// The target that a forwarded request is passed on with is its rewritten
/// target, and is in origin form.
pub proof fn lemma_route_target_is_rewritten(target: Seq<u8>)
    ensures
        spec_forward_route(target) matches Some(route) ==> spec_rewrite_target(target) == Some(
            route.target,
        ) && is_origin_form(route.target) && route.destination.encodable(),
{
}

} // verus!
