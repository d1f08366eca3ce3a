use hello_web::handler::Route;
use hello_web::handler::handle_request;
use hello_web::handler::render_response;

const SUCCESS_BODY: &str = "<html><body>Hello!</body></html>";
const NOT_FOUND_BODY: &str = "<html><body>Oops!</body></html>";

#[test]
fn root_request_gets_the_success_page() {
    let request = b"GET / HTTP/1.1\r\nHost: localhost:7878\r\n\r\n";
    assert_eq!(Route::classify(request), Route::Root);

    let response = handle_request(request, SUCCESS_BODY, NOT_FOUND_BODY);
    let expected = format!(
        "HTTP/1.1 200 OK\r\nContent-Length: {}\r\n\r\n{}",
        SUCCESS_BODY.len(),
        SUCCESS_BODY
    );
    assert_eq!(response, expected);
}

#[test]
fn sleep_request_gets_the_same_content() {
    let request = b"GET /sleep HTTP/1.1\r\nHost: localhost:7878\r\n\r\n";
    let route = Route::classify(request);
    assert_eq!(route, Route::Sleep);
    // The delay occupies the worker; the response itself is identical to
    // the root page's.
    assert!(route.is_slow());
    assert!(!Route::Root.is_slow());

    let slow = handle_request(request, SUCCESS_BODY, NOT_FOUND_BODY);
    let fast = handle_request(b"GET / HTTP/1.1\r\n", SUCCESS_BODY, NOT_FOUND_BODY);
    assert_eq!(slow, fast);
}

#[test]
fn other_requests_get_not_found() {
    let request = b"GET /missing HTTP/1.1\r\nHost: localhost:7878\r\n\r\n";
    assert_eq!(Route::classify(request), Route::NotFound);

    let response = handle_request(request, SUCCESS_BODY, NOT_FOUND_BODY);
    let expected = format!(
        "HTTP/1.1 404 NOT FOUND\r\nContent-Length: {}\r\n\r\n{}",
        NOT_FOUND_BODY.len(),
        NOT_FOUND_BODY
    );
    assert_eq!(response, expected);

    assert_eq!(Route::classify(b""), Route::NotFound);
    assert_eq!(Route::classify(b"POST / HTTP/1.1\r\n"), Route::NotFound);
    // The prefix must match whole, terminator included.
    assert_eq!(Route::classify(b"GET / HTTP/1.0\r\n"), Route::NotFound);
}

#[test]
fn routes_pick_status_and_file() {
    assert_eq!(Route::Root.status_line(), "HTTP/1.1 200 OK");
    assert_eq!(Route::Sleep.status_line(), "HTTP/1.1 200 OK");
    assert_eq!(Route::NotFound.status_line(), "HTTP/1.1 404 NOT FOUND");
    assert_eq!(Route::Root.body_filename(), "hello.html");
    assert_eq!(Route::Sleep.body_filename(), "hello.html");
    assert_eq!(Route::NotFound.body_filename(), "404.html");
}

#[test]
fn content_length_is_the_exact_byte_count() {
    assert_eq!(
        render_response("HTTP/1.1 200 OK", ""),
        "HTTP/1.1 200 OK\r\nContent-Length: 0\r\n\r\n"
    );
    assert_eq!(
        render_response("HTTP/1.1 200 OK", "0123456789"),
        "HTTP/1.1 200 OK\r\nContent-Length: 10\r\n\r\n0123456789"
    );
    let body = "x".repeat(123);
    assert_eq!(
        render_response("HTTP/1.1 404 NOT FOUND", &body),
        format!("HTTP/1.1 404 NOT FOUND\r\nContent-Length: 123\r\n\r\n{}", body)
    );
    // Byte length, not character count: a two-byte character counts twice.
    assert_eq!(
        render_response("HTTP/1.1 200 OK", "é"),
        "HTTP/1.1 200 OK\r\nContent-Length: 2\r\n\r\né"
    );
}
