//! The request server's bridge core: resolving asset request paths, building
//! HTTP responses for asset reads, and decoding/encoding the JSON call
//! traffic between the UI and the host-side call router.
//!
//! Network I/O (the listener, the per-connection tasks) lives outside the
//! library; the functions here compute, from plain values, exactly what each
//! response holds.

use vstd::prelude::*;
use vstd::string::StrSliceExecFns;
use vstd::string::StringExecFns;
use vstd::utf8::decode_utf8;
use vstd::utf8::encode_utf8;
use vstd::utf8::valid_utf8;
use crate::paths::join_path;
use crate::paths::path_join;

verus! {

/// The request methods the bridge distinguishes; every method other than
/// GET and POST takes the fallback route.
pub enum Method {
    Get,
    Post,
    Other,
}

/// A computed HTTP response: status code, optional `Content-Type` header
/// value, and body bytes.
pub struct HttpResponse {
    pub status: u16,
    pub content_type: Option<String>,
    pub body: Vec<u8>,
}

/// Where a request is routed, by method alone.
pub enum RouteAction {
    ServeStatic,
    CallApi,
    RespondNotFound,
}

/// The file the asset resolver picks for a request path: the entry document
/// for the root route `/`, and otherwise the request path, stripped of its
/// leading separator, joined onto the asset root. No `..` normalization is
/// performed; the trust boundary is local by design.
pub open spec fn resolved_asset_path(
    uri_path: Seq<char>,
    entry_path: Seq<char>,
    work_dir: Seq<char>,
) -> Seq<char> {
    if uri_path.len() == 1 {
        entry_path
    } else {
        path_join(work_dir, uri_path.skip(1))
    }
}

/// Maps a request path to the filesystem path to read. Pure path
/// computation; resolution itself cannot fail.
pub fn resolve_asset_path(uri_path: &str, entry_path: &str, work_dir: &str) -> (r: String)
    requires
        uri_path@.len() > 0,
        uri_path@[0] == '/',
    ensures
        r@ == resolved_asset_path(uri_path@, entry_path@, work_dir@),
        uri_path@ =~= seq!['/'] ==> r@ == entry_path@,
        uri_path@.len() > 1 ==> r@ == path_join(work_dir@, uri_path@.skip(1)),
{
    let n = uri_path.unicode_len();
    if n == 1 {
        entry_path.to_owned()
    } else {
        let rest = uri_path.substring_char(1, n);
        proof {
            assert(rest@ =~= uri_path@.skip(1));
        }
        join_path(work_dir, rest)
    }
}

/// Law: the root route resolves to the entry document whatever the asset
/// root is, and independently of anything under it.
pub proof fn lemma_root_route_ignores_asset_root(
    entry: Seq<char>,
    root_a: Seq<char>,
    root_b: Seq<char>,
)
    ensures
        resolved_asset_path(seq!['/'], entry, root_a) == resolved_asset_path(
            seq!['/'],
            entry,
            root_b,
        ),
        resolved_asset_path(seq!['/'], entry, root_a) == entry,
{
}

/// The MIME type that `mime_guess` associates with a path, if any; a pure
/// lookup of the path's extension in a fixed table.
pub uninterp spec fn mime_of(path: Seq<char>) -> Option<Seq<char>>;

/// Relies on `mime_guess::from_path(..).first()`: the guess is a
/// case-insensitive lookup of the path's extension in a static table, so it
/// depends on the path alone; it is `None` when the path has no extension or
/// the extension has no known mapping.
#[verifier::external_body]
fn guess_mime_type(path: &str) -> (r: Option<String>)
    ensures
        r is Some <==> mime_of(path@) is Some,
        r matches Some(m) ==> mime_of(path@) matches Some(s) && m@ == s,
{
    mime_guess::from_path(path).first().map(|m| m.as_ref().to_string())
}

/// Relies on `String::from_utf8`: it succeeds exactly on valid UTF-8 input
/// and decodes it to the corresponding character sequence.
#[verifier::external_body]
fn utf8_to_string(bytes: Vec<u8>) -> (r: Option<String>)
    ensures
        r is Some <==> valid_utf8(bytes@),
        r matches Some(s) ==> s@ == decode_utf8(bytes@),
{
    String::from_utf8(bytes).ok()
}

/// A 200 response with no explicit header: the plain-text fallback.
pub fn str_response(body: &str) -> (r: HttpResponse)
    ensures
        r.status == 200,
        r.content_type is None,
        r.body@ == encode_utf8(body@),
{
    HttpResponse { status: 200, content_type: None, body: body.as_bytes_vec() }
}

/// A response with the given status and a plain-text message body.
pub fn error_response(status: u16, message: String) -> (r: HttpResponse)
    ensures
        r.status == status,
        r.content_type is None,
        r.body@ == encode_utf8(message@),
{
    HttpResponse { status, content_type: None, body: message.as_str().as_bytes_vec() }
}

/// The response for a GET of `uri_path`, given the outcome of reading the
/// resolved file: on success, 200 with the file's bytes and the
/// `Content-Type` inferred from the resolved path's extension when the
/// inference succeeds; on failure, 404 with a body naming the request path.
pub fn static_file_response(
    uri_path: &str,
    resolved_path: &str,
    file_result: Option<Vec<u8>>,
) -> (r: HttpResponse)
    ensures
        file_result matches Some(data) ==> {
            &&& r.status == 200
            &&& r.body@ == data@
            &&& (r.content_type is Some <==> mime_of(resolved_path@) is Some)
            &&& (r.content_type matches Some(ct) ==> mime_of(resolved_path@) matches Some(m)
                && ct@ == m)
        },
        file_result is None ==> {
            &&& r.status == 404
            &&& r.content_type is None
            &&& r.body@ == encode_utf8(uri_path@ + " Not Found"@)
        },
{
    match file_result {
        Some(data) => HttpResponse {
            status: 200,
            content_type: guess_mime_type(resolved_path),
            body: data,
        },
        None => {
            let mut message = uri_path.to_owned();
            message.append(" Not Found");
            error_response(404, message)
        },
    }
}

/// Decodes a POST body for the call router. The text is handed to the router
/// exactly as received: re-encoding it yields the request bytes unchanged.
/// A body that is not valid UTF-8 is rejected, never forwarded.
pub fn api_call_request(body: Vec<u8>) -> (r: Option<String>)
    ensures
        r is Some <==> valid_utf8(body@),
        r matches Some(text) ==> text@ == decode_utf8(body@) && encode_utf8(text@) == body@,
{
    proof {
        if valid_utf8(body@) {
            vstd::utf8::decode_utf8_encode_utf8(body@);
        }
    }
    utf8_to_string(body)
}

/// Wraps the call router's output text as the response: 200, body exactly
/// the router's text, `Content-Type: application/json`.
pub fn api_call_response(router_output: &str) -> (r: HttpResponse)
    ensures
        r.status == 200,
        r.content_type matches Some(ct) && ct@ == "application/json"@,
        r.body@ == encode_utf8(router_output@),
{
    HttpResponse {
        status: 200,
        content_type: Some(String::from_str("application/json")),
        body: router_output.as_bytes_vec(),
    }
}

/// The response for a POST whose body is not valid UTF-8: rejected locally
/// with a structured error body rather than failing the connection.
pub fn invalid_body_response() -> (r: HttpResponse)
    ensures
        r.status == 400,
        r.content_type matches Some(ct) && ct@ == "application/json"@,
        r.body@ == encode_utf8("{\"error\":\"request body is not valid UTF-8\"}"@),
{
    HttpResponse {
        status: 400,
        content_type: Some(String::from_str("application/json")),
        body: "{\"error\":\"request body is not valid UTF-8\"}".as_bytes_vec(),
    }
}

/// The response for a request whose method is neither GET nor POST: the
/// plain-text fallback, with no explicit status set.
pub fn fallback_response() -> (r: HttpResponse)
    ensures
        r.status == 200,
        r.content_type is None,
        r.body@ == encode_utf8("Not Found"@),
{
    str_response("Not Found")
}

/// Dispatches a request by method: GET serves an asset, POST reaches the
/// call router, anything else gets the plain "Not Found" fallback.
pub fn route_request(method: &Method) -> (a: RouteAction)
    ensures
        a is ServeStatic <==> method is Get,
        a is CallApi <==> method is Post,
        a is RespondNotFound <==> method is Other,
{
    match method {
        Method::Get => RouteAction::ServeStatic,
        Method::Post => RouteAction::CallApi,
        Method::Other => RouteAction::RespondNotFound,
    }
}

/// Law: with a call router that echoes its input, the response body equals
/// the request body exactly. The text handed to the router is the decoding
/// of the request bytes, and the response body is the encoding of the
/// router's text, so the round trip through the call channel is the
/// identity on every valid UTF-8 request body.
pub proof fn lemma_echo_router_round_trip(body: Seq<u8>)
    requires
        valid_utf8(body),
    ensures
        encode_utf8(decode_utf8(body)) == body,
{
    vstd::utf8::decode_utf8_encode_utf8(body);
}

/// Law: the call channel is lossless in the other direction as well — any
/// router output text survives encoding into the response body and decoding
/// by the UI unchanged.
pub proof fn lemma_router_output_round_trip(text: Seq<char>)
    ensures
        decode_utf8(encode_utf8(text)) == text,
{
    vstd::utf8::encode_utf8_decode_utf8(text);
}

} // verus!
