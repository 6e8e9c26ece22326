//! Response composition. A response is a status line, a blank line, and a
//! body: `HTTP/1.1 <status>\r\n\r\n<body>`. Three responses exist: the
//! fixed welcome page for the root path, a file's bytes for a path that
//! resolves, and a not-found page naming the requested path for one that
//! does not.

use vstd::prelude::*;

verus! {

/// The status line and blank line that precede every successful body.
pub open spec fn ok_prefix() -> Seq<u8> {
    vstd::utf8::encode_utf8("HTTP/1.1 200 OK\r\n\r\n"@)
}

/// The status line and blank line that precede the not-found body.
pub open spec fn not_found_prefix() -> Seq<u8> {
    vstd::utf8::encode_utf8("HTTP/1.1 404 NOT FOUND\r\n\r\n"@)
}

/// The fixed body served for the root path.
pub open spec fn welcome_body() -> Seq<u8> {
    vstd::utf8::encode_utf8("<html><body>Welcome</body></html>"@)
}

/// The not-found body: the requested path, quoted literally between a
/// fixed opening and closing.
pub open spec fn not_found_body(path: Seq<u8>) -> Seq<u8> {
    vstd::utf8::encode_utf8("<html><body>Not Found "@) + path + vstd::utf8::encode_utf8(
        "</body></html>"@,
    )
}

/// The whole response for the root path.
pub open spec fn welcome_response_bytes() -> Seq<u8> {
    ok_prefix() + welcome_body()
}

/// The whole response for a file that was read: its bytes, unchanged,
/// after the success prefix.
pub open spec fn file_response_bytes(contents: Seq<u8>) -> Seq<u8> {
    ok_prefix() + contents
}

/// The whole response for a path that did not resolve.
pub open spec fn not_found_response_bytes(path: Seq<u8>) -> Seq<u8> {
    not_found_prefix() + not_found_body(path)
}

/// The success prefix alone, for a caller that streams a file's bytes
/// right after it instead of buffering them.
pub fn ok_prefix_bytes() -> (r: Vec<u8>)
    ensures
        r@ == ok_prefix(),
{
    vstd::slice::slice_to_vec("HTTP/1.1 200 OK\r\n\r\n".as_bytes())
}

/// The response for the root path.
pub fn welcome_response() -> (r: Vec<u8>)
    ensures
        r@ == welcome_response_bytes(),
{
    let mut r = ok_prefix_bytes();
    let mut body = vstd::slice::slice_to_vec("<html><body>Welcome</body></html>".as_bytes());
    r.append(&mut body);
    r
}

/// The response for a file whose bytes were read whole.
pub fn file_response(contents: &[u8]) -> (r: Vec<u8>)
    ensures
        r@ == file_response_bytes(contents@),
{
    let mut r = ok_prefix_bytes();
    let mut body = vstd::slice::slice_to_vec(contents);
    r.append(&mut body);
    r
}

/// The response for a path that did not resolve to a file.
pub fn not_found_response(path: &[u8]) -> (r: Vec<u8>)
    ensures
        r@ == not_found_response_bytes(path@),
{
    let mut r = vstd::slice::slice_to_vec("HTTP/1.1 404 NOT FOUND\r\n\r\n".as_bytes());
    let mut opening = vstd::slice::slice_to_vec("<html><body>Not Found ".as_bytes());
    let mut quoted = vstd::slice::slice_to_vec(path);
    let mut closing = vstd::slice::slice_to_vec("</body></html>".as_bytes());
    r.append(&mut opening);
    r.append(&mut quoted);
    r.append(&mut closing);
    proof {
        assert(r@ =~= not_found_response_bytes(path@));
    }
    r
}

/// Whether `needle` occurs contiguously somewhere in `hay`.
pub open spec fn contains_bytes(hay: Seq<u8>, needle: Seq<u8>) -> bool {
    exists|i: int|
        0 <= i && i + needle.len() <= hay.len() && #[trigger] hay.subrange(i, i + needle.len())
            == needle
}

/// Law: a file response carries the file's bytes unchanged — it is exactly
/// the success prefix followed by the contents, so stripping the prefix
/// gives the contents back, byte for byte.
pub proof fn lemma_file_response_preserves_contents(contents: Seq<u8>)
    ensures
        file_response_bytes(contents).len() == ok_prefix().len() + contents.len(),
        file_response_bytes(contents).subrange(0, ok_prefix().len() as int) == ok_prefix(),
        file_response_bytes(contents).subrange(
            ok_prefix().len() as int,
            file_response_bytes(contents).len() as int,
        ) == contents,
{
    let r = file_response_bytes(contents);
    assert(r.subrange(0, ok_prefix().len() as int) =~= ok_prefix());
    assert(r.subrange(ok_prefix().len() as int, r.len() as int) =~= contents);
}

/// Law: the not-found response quotes the requested path literally — the
/// path's bytes occur contiguously in the response.
pub proof fn lemma_not_found_mentions_path(path: Seq<u8>)
    ensures
        contains_bytes(not_found_response_bytes(path), path),
{
    let r = not_found_response_bytes(path);
    let off = (not_found_prefix().len() + vstd::utf8::encode_utf8(
        "<html><body>Not Found "@,
    ).len()) as int;
    assert(r.subrange(off, off + path.len()) =~= path);
}

} // verus!
