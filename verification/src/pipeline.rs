use vstd::prelude::*;
use crate::decode::{computed_color, decode_and_resize, decode_ok};
use crate::errors::{error_message_spec, PipelineError};
use crate::fetch::{fix_url, normalized_url};
use crate::fingerprint::{fingerprint, fingerprint_spec};
use crate::reduce::average_color;

verus! {

/// An HTTP response: the status code and the JSON body.
pub struct HttpResponse {
    pub status: u16,
    pub body: String,
}

/// The JSON success body, `{"RGB":"<color>"}`; the field historically
/// carries the hex string, and the shape is kept for compatibility.
pub open spec fn rgb_body_spec(color: Seq<char>) -> Seq<char> {
    "{\"RGB\":\""@ + color + "\"}"@
}

/// The JSON error body, `{"error":"<message>"}`.
pub open spec fn error_body_spec(msg: Seq<char>) -> Seq<char> {
    "{\"error\":\""@ + msg + "\"}"@
}

/// The response every failure kind gets: status 500 with the error's
/// message in the JSON error body.
pub fn error_response(e: PipelineError) -> (r: HttpResponse)
    ensures
        r.status == 500,
        r.body@ == error_body_spec(error_message_spec(e)),
{
    let msg = e.message();
    let mut b = String::from_str("{\"error\":\"");
    b.append(msg.as_str());
    b.append("\"}");
    assert(b@ =~= error_body_spec(error_message_spec(e)));
    HttpResponse { status: 500, body: b }
}

/// The success response: status 200 with the color in the JSON body.
pub fn ok_response(color: &String) -> (r: HttpResponse)
    ensures
        r.status == 200,
        r.body@ == rgb_body_spec(color@),
{
    let mut b = String::from_str("{\"RGB\":\"");
    b.append(color.as_str());
    b.append("\"}");
    assert(b@ =~= rgb_body_spec(color@));
    HttpResponse { status: 200, body: b }
}

/// What the fetch collaborator reports back: the body bytes of a 2xx
/// response, a 404 from the origin, or any transport-level failure or
/// other status.
pub enum FetchReply {
    Success(Vec<u8>),
    NotFound,
    Transport,
}

/// What the cache store reports for a read.
pub enum CacheGetReply {
    Found(String),
    Miss,
    StoreFailed,
}

/// What the cache store reports for a write.
#[derive(Clone, Copy, PartialEq, Eq, Structural, Debug)]
pub enum CachePutReply {
    Stored,
    StoreFailed,
}

/// The first decision of a request: fetch this URL next, or answer at once.
pub enum StartStep {
    Fetch(String),
    Reply(HttpResponse),
}

/// The decision after the fetch: look this fingerprint up next, or answer
/// at once.
pub enum FetchStep {
    Lookup { fingerprint: String, bytes: Vec<u8> },
    Reply(HttpResponse),
}

/// The decision after the cache read: write this entry and then answer, or
/// answer at once.
pub enum LookupStep {
    Write { fingerprint: String, color: String },
    Reply(HttpResponse),
}

/// Entry of a request. With no `img` query parameter the request ends at
/// once with the error response; otherwise the normalized URL is what the
/// fetch collaborator must retrieve.
pub fn on_request(img: Option<String>) -> (r: StartStep)
    ensures
        match img {
            None => r matches StartStep::Reply(resp) && resp.status == 500 && resp.body@
                == error_body_spec(error_message_spec(PipelineError::MissingParameter)),
            Some(u) => r matches StartStep::Fetch(url) && url@ == normalized_url(u@),
        },
{
    match img {
        None => StartStep::Reply(error_response(PipelineError::MissingParameter)),
        Some(u) => StartStep::Fetch(fix_url(u.as_str())),
    }
}

/// The decision after the fetch. A 404 or a transport failure ends the
/// request with its error response — neither the decoder nor the cache is
/// ever reached. Fetched bytes are fingerprinted (before any decode work)
/// and handed on to the cache lookup.
pub fn on_fetch(reply: FetchReply) -> (r: FetchStep)
    ensures
        match reply {
            FetchReply::Success(bytes) => r matches FetchStep::Lookup {
                fingerprint: fp,
                bytes: b,
            } && b@ == bytes@ && fp@ == fingerprint_spec(bytes@),
            FetchReply::NotFound => r matches FetchStep::Reply(resp) && resp.status == 500
                && resp.body@ == error_body_spec(error_message_spec(PipelineError::FetchNotFound)),
            FetchReply::Transport => r matches FetchStep::Reply(resp) && resp.status == 500
                && resp.body@ == error_body_spec(
                error_message_spec(PipelineError::FetchTransportError),
            ),
        },
{
    match reply {
        FetchReply::Success(bytes) => {
            let fp = fingerprint(&bytes);
            FetchStep::Lookup { fingerprint: fp, bytes }
        },
        FetchReply::NotFound => FetchStep::Reply(error_response(PipelineError::FetchNotFound)),
        FetchReply::Transport => FetchStep::Reply(
            error_response(PipelineError::FetchTransportError),
        ),
    }
}

/// The dedup decision after the cache read. A hit answers at once with the
/// stored color — nothing is decoded. A failed read ends the request:
/// read errors are fatal. Only a miss decodes and reduces the bytes; the
/// computed color is handed on to be written under the fingerprint.
pub fn on_cache_get(fp: String, bytes: Vec<u8>, reply: CacheGetReply) -> (r: LookupStep)
    ensures
        match reply {
            CacheGetReply::Found(c) => r matches LookupStep::Reply(resp) && resp.status == 200
                && resp.body@ == rgb_body_spec(c@),
            CacheGetReply::StoreFailed => r matches LookupStep::Reply(resp) && resp.status == 500
                && resp.body@ == error_body_spec(
                error_message_spec(PipelineError::CacheReadError),
            ),
            CacheGetReply::Miss => if decode_ok(bytes@) {
                r matches LookupStep::Write { fingerprint: f, color: c } && f@ == fp@ && c@
                    == computed_color(bytes@)
            } else {
                r matches LookupStep::Reply(resp) && resp.status == 500 && resp.body@
                    == error_body_spec(error_message_spec(PipelineError::DecodeError))
            },
        },
{
    match reply {
        CacheGetReply::Found(c) => LookupStep::Reply(ok_response(&c)),
        CacheGetReply::StoreFailed => LookupStep::Reply(
            error_response(PipelineError::CacheReadError),
        ),
        CacheGetReply::Miss => match decode_and_resize(&bytes) {
            Err(e) => LookupStep::Reply(error_response(e)),
            Ok(grid) => {
                let color = average_color(&grid);
                LookupStep::Write { fingerprint: fp, color }
            },
        },
    }
}

/// The last step, after the computed color was written — or failed to be.
/// The response always succeeds with the computed color: a failed cache
/// write does not invalidate it, and is surfaced beside the response as
/// CacheWriteError.
pub fn on_cache_put(color: String, reply: CachePutReply) -> (r: (HttpResponse, Option<
    PipelineError,
>))
    ensures
        r.0.status == 200,
        r.0.body@ == rgb_body_spec(color@),
        r.1 == (match reply {
            CachePutReply::Stored => Option::<PipelineError>::None,
            CachePutReply::StoreFailed => Some(PipelineError::CacheWriteError),
        }),
{
    let surfaced = match reply {
        CachePutReply::Stored => None,
        CachePutReply::StoreFailed => Some(PipelineError::CacheWriteError),
    };
    (ok_response(&color), surfaced)
}

} // verus!
