//! One export attempt over the network: the request that carries a batch, and
//! the reading of the answer.

use crate::error::DeliveryFailure;
use crate::header::{canonical_name, is_header_name, is_header_value};
use crate::outside::{
    has_sure_room, header_map_clone, header_map_contains, header_map_entries,
    header_map_try_insert, is_compressible, parse_header_name, parse_header_value,
    snappy_block, snappy_compress,
};
use http::header::{HeaderMap, HeaderValue};
use vstd::prelude::*;
use vstd::utf8::encode_utf8;

verus! {

/// The header that states the remote-write protocol version.
pub open spec fn version_header() -> (Seq<char>, Seq<char>) {
    ("x-prometheus-remote-write-version"@, "0.1.0"@)
}

/// The header that states the encoding of the body.
pub open spec fn content_header() -> (Seq<char>, Seq<char>) {
    ("content-type"@, "application/x-protobuf"@)
}

/// The entries of a map after `header` has been filed in it, unless something
/// stood under its name already.
pub open spec fn with_default(
    entries: Map<Seq<char>, Seq<Seq<u8>>>,
    header: (Seq<char>, Seq<char>),
) -> Map<Seq<char>, Seq<Seq<u8>>> {
    if entries.dom().contains(header.0) {
        entries
    } else {
        entries.insert(header.0, seq![encode_utf8(header.1)])
    }
}

/// The headers of a request: the configured ones, and each of the two
/// protocol headers unless a configured header has its name.
pub open spec fn request_entries(custom: Map<Seq<char>, Seq<Seq<u8>>>) -> Map<
    Seq<char>,
    Seq<Seq<u8>>,
> {
    with_default(with_default(custom, version_header()), content_header())
}

/// A request carries every configured header as it is, and each protocol
/// header whose name no configured header has; it carries nothing else.
pub proof fn lemma_request_carries(custom: Map<Seq<char>, Seq<Seq<u8>>>)
    ensures
        forall|name: Seq<char>| #[trigger]
            custom.dom().contains(name) ==> request_entries(custom).dom().contains(name)
                && request_entries(custom)[name] == custom[name],
        request_entries(custom).dom() == custom.dom().insert(version_header().0).insert(
            content_header().0,
        ),
        !custom.dom().contains(version_header().0) ==> request_entries(custom)[version_header().0]
            == seq![encode_utf8(version_header().1)],
        !custom.dom().contains(content_header().0) ==> request_entries(custom)[content_header().0]
            == seq![encode_utf8(content_header().1)],
{
    reveal_strlit("x-prometheus-remote-write-version");
    reveal_strlit("content-type");
    assert(version_header().0 != content_header().0) by {
        assert(version_header().0.len() != content_header().0.len());
    }
    assert(request_entries(custom).dom() =~= custom.dom().insert(version_header().0).insert(
        content_header().0,
    ));
}

/// The address that a batch for `db` is posted to at `endpoint`.
pub open spec fn write_url(endpoint: Seq<char>, db: Seq<char>) -> Seq<char> {
    "http://"@ + endpoint + "/v1/prometheus/write?db="@ + db
}

/// The address that a batch for `db` is posted to at `endpoint`.
pub fn remote_write_url(endpoint: &str, db: &str) -> (url: String)
    ensures
        url@ == write_url(endpoint@, db@),
{
    let mut url = String::from_str("http://");
    url.append(endpoint);
    url.append("/v1/prometheus/write?db=");
    url.append(db);
    url
}

/// An HTTP POST, ready to be sent.
pub struct OutboundRequest {
    /// Where the request goes.
    pub url: String,
    /// Every header of the request.
    pub headers: HeaderMap<HeaderValue>,
    /// The compressed batch.
    pub body: Vec<u8>,
}

proof fn lemma_protocol_headers_are_legal()
    ensures
        is_header_name(version_header().0),
        is_header_value(version_header().1),
        canonical_name(version_header().0) == version_header().0,
        is_header_name(content_header().0),
        is_header_value(content_header().1),
        canonical_name(content_header().0) == content_header().0,
{
    reveal_strlit("x-prometheus-remote-write-version");
    reveal_strlit("0.1.0");
    reveal_strlit("content-type");
    reveal_strlit("application/x-protobuf");
    assert(canonical_name(version_header().0) =~= version_header().0);
    assert(canonical_name(content_header().0) =~= content_header().0);
}

/// Files a protocol header in `headers` unless its name is taken. Gives
/// `false` when the map refused it.
fn add_protocol_header(headers: &mut HeaderMap<HeaderValue>, name: &str, value: &str) -> (done: bool)
    requires
        is_header_name(name@),
        is_header_value(value@),
        canonical_name(name@) == name@,
    ensures
        done ==> header_map_entries(*final(headers)) == with_default(
            header_map_entries(*old(headers)),
            (name@, value@),
        ),
        !done ==> header_map_entries(*final(headers)) == header_map_entries(*old(headers)),
        has_sure_room(header_map_entries(*old(headers)), 1) ==> done,
        has_sure_room(header_map_entries(*old(headers)), 2) ==> has_sure_room(
            header_map_entries(*final(headers)),
            1,
        ),
{
    let parsed_name = parse_header_name(name);
    let parsed_value = parse_header_value(value);
    match (parsed_name, parsed_value) {
        (Some(header_name), Some(header_value)) => {
            if header_map_contains(headers, &header_name) {
                true
            } else {
                header_map_try_insert(headers, header_name, header_value)
            }
        },
        _ => false,
    }
}

/// The request that posts `body` to `url`: its headers are the configured
/// ones and, where these leave the name free, the two protocol headers, so
/// that a configured header overrides a protocol header of its name. Fails
/// only where the header map
/// refuses a protocol header, which it cannot do while it is sure of room for
/// two more names.
pub fn remote_write_request(url: &str, custom: &HeaderMap<HeaderValue>, body: Vec<u8>) -> (request:
    Result<OutboundRequest, DeliveryFailure>)
    ensures
        request matches Ok(r) ==> r.url@ == url@ && r.body@ == body@ && header_map_entries(
            r.headers,
        ) == request_entries(header_map_entries(*custom)),
        request matches Err(e) ==> e == DeliveryFailure::Headers,
        has_sure_room(header_map_entries(*custom), 2) ==> request is Ok,
{
    proof {
        lemma_protocol_headers_are_legal();
    }
    let mut headers = header_map_clone(custom);
    if !add_protocol_header(&mut headers, "x-prometheus-remote-write-version", "0.1.0") {
        return Err(DeliveryFailure::Headers);
    }
    if !add_protocol_header(&mut headers, "content-type", "application/x-protobuf") {
        return Err(DeliveryFailure::Headers);
    }
    Ok(OutboundRequest { url: String::from_str(url), headers, body })
}

/// The request that carries the encoded batch `encoded` to `url`: the batch
/// is compressed into one Snappy block and posted with the protocol headers
/// and the configured ones.
pub fn network_request(url: &str, custom: &HeaderMap<HeaderValue>, encoded: &[u8]) -> (request:
    Result<OutboundRequest, DeliveryFailure>)
    ensures
        request matches Ok(r) ==> r.url@ == url@ && r.body@ == snappy_block(encoded@)
            && header_map_entries(r.headers) == request_entries(header_map_entries(*custom)),
        request matches Err(e) ==> if is_compressible(encoded@.len()) {
            e == DeliveryFailure::Headers
        } else {
            e == DeliveryFailure::Compression
        },
        is_compressible(encoded@.len()) && has_sure_room(header_map_entries(*custom), 2)
            ==> request is Ok,
        !is_compressible(encoded@.len()) ==> request is Err,
{
    match snappy_compress(encoded) {
        Some(body) => remote_write_request(url, custom, body),
        None => Err(DeliveryFailure::Compression),
    }
}

/// Whether a response status reports success: 200 to 299.
pub open spec fn is_success(status: u16) -> bool {
    200 <= status < 300
}

/// Reads the status of a response: anything but success is a failure of the
/// attempt.
pub fn response_result(status: u16) -> (result: Result<(), DeliveryFailure>)
    ensures
        result is Ok <==> is_success(status),
        result matches Err(e) ==> e == DeliveryFailure::Status(status),
{
    if 200 <= status && status < 300 {
        Ok(())
    } else {
        Err(DeliveryFailure::Status(status))
    }
}

} // verus!
