//! The immutable content blob and the static-content responder.

use vstd::prelude::*;

verus! {

/// The request method, as far as the responder cares: `GET` is served the
/// content, every other method is answered with a 404. `Other` stands for
/// any extension method.
#[derive(Clone, Copy, Debug, PartialEq, Eq, Structural)]
pub enum Method {
    Get,
    Head,
    Post,
    Put,
    Delete,
    Connect,
    Options,
    Trace,
    Patch,
    Other,
}

/// Why a content blob could not be made.
#[derive(Clone, Copy, Debug, PartialEq, Eq, Structural)]
pub enum ContentError {
    Empty,
}

/// The single, immutable byte sequence served to every `GET` request.
/// It is created once at startup and never changes: the type has no
/// mutating method.
pub struct ContentBlob {
    bytes: Vec<u8>,
}

impl View for ContentBlob {
    type V = Seq<u8>;

    closed spec fn view(&self) -> Seq<u8> {
        self.bytes@
    }
}

impl ContentBlob {
    /// A well-formed blob is non-empty: startup fails on empty content.
    pub open spec fn wf(&self) -> bool {
        self@.len() > 0
    }

    /// Make the blob from the bytes read at startup; empty content is refused.
    pub fn new(bytes: Vec<u8>) -> (r: Result<ContentBlob, ContentError>)
        ensures
            match r {
                Ok(blob) => blob@ == bytes@ && blob.wf(),
                Err(e) => e is Empty && bytes@.len() == 0,
            },
    {
        if bytes.len() == 0 {
            Err(ContentError::Empty)
        } else {
            Ok(ContentBlob { bytes })
        }
    }

    /// The content, byte for byte.
    pub fn as_bytes(&self) -> (r: &[u8])
        ensures
            r@ == self@,
    {
        self.bytes.as_slice()
    }
}

/// The body sent with every 404 answer: the bytes of `"No such resource"`.
pub open spec fn spec_not_found_body() -> Seq<u8> {
    seq![
        78u8, 111u8, 32u8, 115u8, 117u8, 99u8, 104u8, 32u8, 114u8, 101u8, 115u8, 111u8,
        117u8, 114u8, 99u8, 101u8,
    ]
}

/// The status and body owed to a request: `GET` gets 200 with the content,
/// everything else 404 with the fixed body, whatever the path or headers.
pub open spec fn spec_response(m: Method, content: Seq<u8>) -> (u16, Seq<u8>) {
    if m is Get {
        (200u16, content)
    } else {
        (404u16, spec_not_found_body())
    }
}

/// A response as the multiplexer sends it back.
pub struct HttpResponse {
    pub status: u16,
    pub body: Vec<u8>,
}

/// Build the fixed 404 body.
fn not_found_body() -> (r: Vec<u8>)
    ensures
        r@ == spec_not_found_body(),
{
    let mut v: Vec<u8> = Vec::new();
    v.push(78u8);
    v.push(111u8);
    v.push(32u8);
    v.push(115u8);
    v.push(117u8);
    v.push(99u8);
    v.push(104u8);
    v.push(32u8);
    v.push(114u8);
    v.push(101u8);
    v.push(115u8);
    v.push(111u8);
    v.push(117u8);
    v.push(114u8);
    v.push(99u8);
    v.push(101u8);
    assert(v@ =~= spec_not_found_body());
    v
}

/// Answer one request: 200 with the whole blob for `GET`, 404 with the
/// fixed body for every other method.
pub fn serve_static_content(method: Method, content: &ContentBlob) -> (r: HttpResponse)
    ensures
        (r.status, r.body@) == spec_response(method, content@),
{
    match method {
        Method::Get => HttpResponse {
            status: 200,
            body: vstd::slice::slice_to_vec(content.as_bytes()),
        },
        _ => HttpResponse { status: 404, body: not_found_body() },
    }
}

/// Every non-`GET` request is answered 404 with the fixed body, whatever
/// the content blob holds.
pub proof fn lemma_non_get_is_not_found(m: Method, content: Seq<u8>)
    requires
        !(m is Get),
    ensures
        spec_response(m, content) == (404u16, spec_not_found_body()),
{
}

/// Every `GET` request is answered 200 with exactly the configured content;
/// the blob never changes, so every `GET` over the server's lifetime gets
/// the same bytes.
pub proof fn lemma_get_serves_blob(m: Method, content: Seq<u8>)
    requires
        m is Get,
    ensures
        spec_response(m, content) == (200u16, content),
{
}

} // verus!
