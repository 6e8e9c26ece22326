use rust_web::response::{file_response, not_found_response, ok_prefix_bytes, welcome_response};

#[test]
fn welcome_response_is_exact() {
    assert_eq!(
        welcome_response().as_slice(),
        b"HTTP/1.1 200 OK\r\n\r\n<html><body>Welcome</body></html>".as_slice()
    );
}

#[test]
fn ok_prefix_is_exact() {
    assert_eq!(ok_prefix_bytes().as_slice(), b"HTTP/1.1 200 OK\r\n\r\n".as_slice());
}

#[test]
fn file_response_carries_contents_verbatim() {
    let contents = b"line one\nline two\x00\xff binary too";
    let r = file_response(contents);
    assert_eq!(&r[..19], b"HTTP/1.1 200 OK\r\n\r\n".as_slice());
    assert_eq!(&r[19..], contents.as_slice());
}

#[test]
fn empty_file_response_is_just_the_prefix() {
    assert_eq!(file_response(b"").as_slice(), b"HTTP/1.1 200 OK\r\n\r\n".as_slice());
}

#[test]
fn not_found_response_quotes_the_path() {
    let r = not_found_response(b"/missing.html");
    assert_eq!(
        r.as_slice(),
        b"HTTP/1.1 404 NOT FOUND\r\n\r\n<html><body>Not Found /missing.html</body></html>"
            .as_slice()
    );
    let hay = r.as_slice();
    let needle = b"/missing.html";
    assert!(hay.windows(needle.len()).any(|w| w == needle.as_slice()));
}
