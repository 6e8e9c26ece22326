//! The request line: parsing, query directives, and resource resolution.
//!
//! A request line is the first line of a connection's input,
//! `<METHOD> <PATH>[?<QUERY>] <VERSION>`. The parser splits it on spaces
//! and needs at least three tokens; a shorter line is malformed and the
//! handler closes the connection without writing a byte. The path token is
//! split at its first `?` into the resource path and the raw query string;
//! the query string is matched whole against the two directives `sleep`
//! (pause this handler before responding) and `quit` (begin shutdown after
//! responding).

use crate::scan::{
    bytes_eq, find_byte, find_from, lemma_find_from_offset, lemma_find_from_spec,
    lemma_split_first, lemma_split_len_pos, split_bytes, subrange_to_vec,
};
use vstd::prelude::*;

verus! {

/// How many seconds the `sleep` directive pauses a handler before it
/// responds.
pub const SLEEP_SECONDS: u64 = 4;

/// The byte the request line is split on.
pub const SPACE: u8 = 32;

/// The byte that separates the resource path from the query string.
pub const QUESTION_MARK: u8 = 63;

/// The byte a rooted path starts with.
pub const SLASH: u8 = 47;

/// The space-separated tokens of a request line, empty tokens kept.
pub open spec fn request_tokens(line: Seq<u8>) -> Seq<Seq<u8>> {
    split_bytes(line, SPACE)
}

/// The resource path of a path token: everything before its first `?`,
/// or the whole token when it has none.
pub open spec fn path_of(tok: Seq<u8>) -> Seq<u8> {
    match find_from(tok, QUESTION_MARK, 0) {
        Some(i) => tok.subrange(0, i),
        None => tok,
    }
}

/// The raw query string of a path token: everything after its first `?`,
/// or empty when it has none.
pub open spec fn query_of(tok: Seq<u8>) -> Seq<u8> {
    match find_from(tok, QUESTION_MARK, 0) {
        Some(i) => tok.subrange(i + 1, tok.len() as int),
        None => Seq::<u8>::empty(),
    }
}

/// The parsed request line: the method token, the resource path and the raw
/// query string taken from the second token. The protocol-version token is
/// checked for presence and otherwise ignored.
pub struct RequestLine {
    pub method: Vec<u8>,
    pub path: Vec<u8>,
    pub query: Vec<u8>,
}

impl RequestLine {
    /// The fields are exactly what the given line parses to.
    pub open spec fn parses_from(&self, line: Seq<u8>) -> bool {
        &&& request_tokens(line).len() >= 3
        &&& self.method@ == request_tokens(line)[0]
        &&& self.path@ == path_of(request_tokens(line)[1])
        &&& self.query@ == query_of(request_tokens(line)[1])
    }
}

/// Parse a request line. Returns the parsed line exactly when it has at
/// least three space-separated tokens; a line with fewer is malformed and
/// gets `None`, on which the caller closes the connection without writing
/// any response bytes.
pub fn parse_request_line(line: &[u8]) -> (r: Option<RequestLine>)
    ensures
        match r {
            Some(rl) => rl.parses_from(line@),
            None => request_tokens(line@).len() < 3,
        },
{
    proof {
        lemma_split_first(line@, SPACE);
        lemma_find_from_spec(line@, SPACE, 0);
    }
    let first_space = match find_byte(line, 0, SPACE) {
        Some(i) => i,
        None => {
            return None;
        },
    };
    proof {
        let tail = line@.subrange(first_space + 1, line@.len() as int);
        lemma_split_first(tail, SPACE);
        lemma_find_from_spec(tail, SPACE, 0);
        lemma_find_from_offset(line@, SPACE, first_space + 1);
        lemma_split_len_pos(tail, SPACE);
    }
    assert(first_space < line.len());
    let second_space = match find_byte(line, first_space + 1, SPACE) {
        Some(j) => j,
        None => {
            return None;
        },
    };
    proof {
        let tail = line@.subrange(first_space + 1, line@.len() as int);
        let tail2 = line@.subrange(second_space + 1, line@.len() as int);
        lemma_split_len_pos(tail2, SPACE);
        assert(tail.subrange(
            second_space - first_space,
            tail.len() as int,
        ) =~= tail2);
        assert(request_tokens(line@)[1] =~= tail.subrange(0, second_space - first_space - 1));
        assert(tail.subrange(0, second_space - first_space - 1) =~= line@.subrange(
            first_space + 1,
            second_space as int,
        ));
    }
    let method = subrange_to_vec(line, 0, first_space);
    let tok = subrange_to_vec(line, first_space + 1, second_space);
    let (path, query) = match find_byte(tok.as_slice(), 0, QUESTION_MARK) {
        Some(q) => {
            proof {
                lemma_find_from_spec(tok@, QUESTION_MARK, 0);
            }
            (
                subrange_to_vec(tok.as_slice(), 0, q),
                subrange_to_vec(tok.as_slice(), q + 1, tok.len()),
            )
        },
        None => (tok, Vec::<u8>::new()),
    };
    proof {
        assert(query@ =~= query_of(request_tokens(line@)[1]));
    }
    Some(RequestLine { method, path, query })
}

/// What a handler reports to the dispatcher when it finishes.
pub enum HandlerOutcome {
    /// Serve further connections.
    Continue,
    /// The request carried the `quit` directive: begin shutdown.
    ShutdownRequested,
}

/// What the server sends for a resolved path.
pub enum Resource {
    /// The fixed welcome page, served for the root path `/`.
    Welcome,
    /// The file at this path, relative to the working directory: the
    /// requested path with one leading `/` removed.
    FileAt(Vec<u8>),
}

/// The query string that pauses a handler before it responds.
pub open spec fn sleep_directive() -> Seq<u8> {
    vstd::utf8::encode_utf8("sleep"@)
}

/// The query string that requests shutdown once the response is written.
pub open spec fn quit_directive() -> Seq<u8> {
    vstd::utf8::encode_utf8("quit"@)
}

/// The root path, which resolves to the welcome page.
pub open spec fn root_path() -> Seq<u8> {
    vstd::utf8::encode_utf8("/"@)
}

/// A path with one leading `/` removed; a path without one is unchanged.
pub open spec fn relative_to_root(path: Seq<u8>) -> Seq<u8> {
    if path.len() > 0 && path[0] == SLASH {
        path.drop_first()
    } else {
        path
    }
}

/// Whether the request asks this handler to pause before responding:
/// its query string is exactly the `sleep` directive.
pub fn wants_sleep(rl: &RequestLine) -> (r: bool)
    ensures
        r == (rl.query@ == sleep_directive()),
{
    bytes_eq(rl.query.as_slice(), "sleep".as_bytes())
}

/// The outcome the handler reports after responding: shutdown is requested
/// exactly when the query string is the `quit` directive.
pub fn outcome_for(rl: &RequestLine) -> (o: HandlerOutcome)
    ensures
        (o is ShutdownRequested) <==> rl.query@ == quit_directive(),
{
    if bytes_eq(rl.query.as_slice(), "quit".as_bytes()) {
        HandlerOutcome::ShutdownRequested
    } else {
        HandlerOutcome::Continue
    }
}

/// Resolve the resource a parsed request asks for: the root path gets the
/// welcome page; any other path names a file, looked up with one leading
/// `/` removed.
pub fn resolve_resource(rl: &RequestLine) -> (r: Resource)
    ensures
        rl.path@ == root_path() ==> (r is Welcome),
        rl.path@ != root_path() ==> (match r {
            Resource::FileAt(p) => p@ == relative_to_root(rl.path@),
            Resource::Welcome => false,
        }),
{
    if bytes_eq(rl.path.as_slice(), "/".as_bytes()) {
        Resource::Welcome
    } else {
        let p = rl.path.as_slice();
        if p.len() > 0 && *vstd::slice::slice_index_get(p, 0) == SLASH {
            let rel = subrange_to_vec(p, 1, p.len());
            proof {
                assert(rel@ =~= relative_to_root(rl.path@));
            }
            Resource::FileAt(rel)
        } else {
            let whole = subrange_to_vec(p, 0, p.len());
            proof {
                assert(whole@ =~= relative_to_root(rl.path@));
            }
            Resource::FileAt(whole)
        }
    }
}

/// Everything a handler decides about one request, in one value. The
/// connection's I/O — reading the line, pausing, opening the file, writing
/// the bytes — is the caller's; every decision between reads and writes is
/// made here.
pub enum RequestDecision {
    /// The line is malformed: close the connection without writing a byte.
    Close,
    /// Serve the request: pause first when `pause` says so, send the
    /// response for `resource` (quoting `path` if a file does not
    /// resolve), and afterwards report `outcome` to the dispatcher.
    Serve { pause: bool, resource: Resource, path: Vec<u8>, outcome: HandlerOutcome },
}

/// Decide a whole request from its first line: reject a malformed line
/// outright, and otherwise fix the pause, the resource, the quotable path
/// and the reported outcome, exactly as the request's tokens say.
pub fn decide_request(line: &[u8]) -> (r: RequestDecision)
    ensures
        match r {
            RequestDecision::Close => request_tokens(line@).len() < 3,
            RequestDecision::Serve { pause, resource, path, outcome } => {
                let toks = request_tokens(line@);
                &&& toks.len() >= 3
                &&& path@ == path_of(toks[1])
                &&& pause == (query_of(toks[1]) == sleep_directive())
                &&& ((outcome is ShutdownRequested) <==> query_of(toks[1]) == quit_directive())
                &&& (path_of(toks[1]) == root_path() ==> (resource is Welcome))
                &&& (path_of(toks[1]) != root_path() ==> (match resource {
                    Resource::FileAt(p) => p@ == relative_to_root(path_of(toks[1])),
                    Resource::Welcome => false,
                }))
            },
        },
{
    let rl = match parse_request_line(line) {
        Some(rl) => rl,
        None => {
            return RequestDecision::Close;
        },
    };
    let pause = wants_sleep(&rl);
    let outcome = outcome_for(&rl);
    let resource = resolve_resource(&rl);
    RequestDecision::Serve { pause, resource, path: rl.path, outcome }
}

} // verus!
