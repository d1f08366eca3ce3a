//! Request handling for the small blocking server: a raw request buffer is
//! classified by exact byte-prefix match against two literal request lines,
//! and a response is rendered as a status line, a content-length header
//! computed from the body's byte length, a blank line and the body.
//!
//! Reading the socket, the artificial delay and loading the body files are
//! the caller's business; this module only decides and formats.

use vstd::prelude::*;

verus! {

/// What a request asks for: the root page, the root page after a delay, or
/// something unknown.
#[derive(Clone, Copy, Debug, PartialEq, Eq, Structural)]
pub enum Route {
    Root,
    Sleep,
    NotFound,
}

/// The request line whose prefix selects the root page.
pub open spec fn root_request_line() -> Seq<char> {
    "GET / HTTP/1.1\r\n"@
}

/// The request line whose prefix selects the root page after a delay.
pub open spec fn sleep_request_line() -> Seq<char> {
    "GET /sleep HTTP/1.1\r\n"@
}

/// The request bytes begin with the given line, byte for byte.
pub open spec fn starts_with_line(request: Seq<u8>, line: Seq<char>) -> bool {
    line.len() <= request.len() && forall|k: int|
        0 <= k < line.len() ==> request[k] == line[k] as u8
}

/// How a raw request is classified: the first matching prefix wins, and
/// everything else is not found.
pub open spec fn spec_route(request: Seq<u8>) -> Route {
    if starts_with_line(request, root_request_line()) {
        Route::Root
    } else if starts_with_line(request, sleep_request_line()) {
        Route::Sleep
    } else {
        Route::NotFound
    }
}

/// Whether the request bytes begin with `pattern`, byte for byte.
fn starts_with_pattern(request: &[u8], pattern: &str) -> (matches_prefix: bool)
    ensures
        matches_prefix == starts_with_line(request@, pattern@),
{
    let m: usize = pattern.unicode_len();
    if m > request.len() {
        return false;
    }
    let mut k: usize = 0;
    while k < m
        invariant
            m == pattern@.len(),
            m <= request@.len(),
            k <= m,
            forall|k2: int| 0 <= k2 < k ==> request@[k2] == pattern@[k2] as u8,
        decreases m - k,
    {
        if request[k] != pattern.get_char(k) as u8 {
            return false;
        }
        k += 1;
    }
    true
}

impl Route {
    /// Classifies a raw request buffer by its byte prefix.
    pub fn classify(request: &[u8]) -> (route: Route)
        ensures
            route == spec_route(request@),
    {
        if starts_with_pattern(request, "GET / HTTP/1.1\r\n") {
            Route::Root
        } else if starts_with_pattern(request, "GET /sleep HTTP/1.1\r\n") {
            Route::Sleep
        } else {
            Route::NotFound
        }
    }

    /// The status line answering this route.
    pub fn status_line(self) -> (line: &'static str)
        ensures
            self is Root || self is Sleep ==> line@ == "HTTP/1.1 200 OK"@,
            self is NotFound ==> line@ == "HTTP/1.1 404 NOT FOUND"@,
    {
        match self {
            Route::Root => "HTTP/1.1 200 OK",
            Route::Sleep => "HTTP/1.1 200 OK",
            Route::NotFound => "HTTP/1.1 404 NOT FOUND",
        }
    }

    /// The name of the file whose contents answer this route.
    pub fn body_filename(self) -> (name: &'static str)
        ensures
            self is Root || self is Sleep ==> name@ == "hello.html"@,
            self is NotFound ==> name@ == "404.html"@,
    {
        match self {
            Route::Root => "hello.html",
            Route::Sleep => "hello.html",
            Route::NotFound => "404.html",
        }
    }

    /// Whether answering this route is delayed by the fixed sleep.
    pub fn is_slow(self) -> (slow: bool)
        ensures
            slow == (self is Sleep),
    {
        match self {
            Route::Sleep => true,
            _ => false,
        }
    }
}

/// The character standing for the decimal digit `d`.
pub open spec fn digit_char(d: nat) -> char {
    ((d + 48) as u8) as char
}

/// The decimal digits of `n`, most significant first, with no leading
/// zeros (zero itself is a single digit).
pub open spec fn decimal_digits(n: nat) -> Seq<char>
    decreases n,
{
    if n < 10 {
        seq![digit_char(n)]
    } else {
        decimal_digits(n / 10).push(digit_char(n % 10))
    }
}

/// Relies on `String::push`: it appends one character.
#[verifier::external_body]
fn push_char(s: &mut String, c: char)
    ensures
        final(s)@ == old(s)@.push(c),
{
    s.push(c);
}

/// Appends the decimal digits of `n` to `s`.
fn push_decimal(s: &mut String, n: usize)
    ensures
        final(s)@ == old(s)@ + decimal_digits(n as nat),
    decreases n,
{
    if n < 10 {
        push_char(s, (48 + n as u8) as char);
        proof {
            assert(final(s)@ =~= old(s)@ + decimal_digits(n as nat));
        }
    } else {
        push_decimal(s, n / 10);
        push_char(s, (48 + (n % 10) as u8) as char);
        proof {
            assert(final(s)@ =~= old(s)@ + decimal_digits(n as nat));
        }
    }
}

/// The full response text for a status line and a body whose byte length
/// is `body_len`.
pub open spec fn response_text(status: Seq<char>, body: Seq<char>, body_len: nat) -> Seq<char> {
    status + "\r\nContent-Length: "@ + decimal_digits(body_len) + "\r\n\r\n"@ + body
}

/// Renders the complete response: the status line, a content-length header
/// holding the exact byte length of `body`, a blank line and the body.
pub fn render_response(status_line: &str, body: &str) -> (response: String)
    ensures
        response@ == response_text(status_line@, body@, body.len() as nat),
{
    let mut response: String = String::from_str(status_line);
    response.append("\r\nContent-Length: ");
    push_decimal(&mut response, body.len());
    response.append("\r\n\r\n");
    response.append(body);
    proof {
        assert(response@ =~= response_text(status_line@, body@, body.len() as nat));
    }
    response
}

/// The complete response owed to a raw request, given the contents of the
/// two body files.
pub open spec fn spec_response(request: Seq<u8>, success_body: &str, not_found_body: &str) -> Seq<
    char,
> {
    if spec_route(request) is NotFound {
        response_text(
            "HTTP/1.1 404 NOT FOUND"@,
            not_found_body@,
            not_found_body.len() as nat,
        )
    } else {
        response_text(
            "HTTP/1.1 200 OK"@,
            success_body@,
            success_body.len() as nat,
        )
    }
}

/// Classifies the request and renders its full response, given the
/// contents of the success and the not-found body files.
pub fn handle_request(request: &[u8], success_body: &str, not_found_body: &str) -> (response:
    String)
    ensures
        response@ == spec_response(request@, success_body, not_found_body),
{
    let route = Route::classify(request);
    let status = route.status_line();
    let body: &str = match route {
        Route::NotFound => not_found_body,
        _ => success_body,
    };
    render_response(status, body)
}

} // verus!
