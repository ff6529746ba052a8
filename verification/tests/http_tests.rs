use ledstrip_core::http::classify;
use ledstrip_core::http::ok_response;
use ledstrip_core::http::page_response;
use ledstrip_core::http::InboundBuffer;
use ledstrip_core::http::RequestKind;

#[test]
fn classify_by_method_token() {
    assert_eq!(classify(b"POST / HTTP/1.0\r\n"), RequestKind::Write);
    assert_eq!(classify(b"GET / HTTP/1.0\r\n"), RequestKind::Read);
    assert_eq!(classify(b"PUT / HTTP/1.0\r\n"), RequestKind::Other);
    assert_eq!(classify(b"POS"), RequestKind::Other);
    assert_eq!(classify(b""), RequestKind::Other);
    assert_eq!(classify(b"GETX"), RequestKind::Read);
}

#[test]
fn ok_response_is_the_status_line() {
    assert_eq!(ok_response(), b"HTTP/1.0 200 OK\r\n\r\n".to_vec());
}

#[test]
fn page_response_is_status_line_then_page() {
    let page = b"<html>hello</html>";
    let r = page_response(page);
    let mut expected = b"HTTP/1.0 200 OK\r\n\r\n".to_vec();
    expected.extend_from_slice(page);
    assert_eq!(r, expected);
}

#[test]
fn page_response_is_identical_across_calls() {
    let page = b"<html>fixed page</html>";
    let first = page_response(page);
    // Unrelated activity between the two reads: commands queued and consumed.
    let mut q = ledstrip_core::channel::CommandQueue::new();
    q.try_push(ledstrip_core::color::ColorCommand::new(9, 9, 9));
    ledstrip_core::frame::driver_step(&mut q, 23);
    let second = page_response(page);
    assert_eq!(first, second);
}

#[test]
fn buffer_accumulates_chunks_in_order() {
    let mut b = InboundBuffer::new(16);
    assert_eq!(b.push_chunk(b"POST "), 5);
    assert_eq!(b.push_chunk(b"/ HTTP"), 6);
    assert_eq!(b.bytes(), b"POST / HTTP");
    assert_eq!(b.len(), 11);
    assert_eq!(b.capacity(), 16);
}

#[test]
fn buffer_refuses_bytes_past_capacity() {
    let mut b = InboundBuffer::new(4);
    assert_eq!(b.push_chunk(b"abcdef"), 4);
    assert_eq!(b.bytes(), b"abcd");
    assert_eq!(b.push_chunk(b"gh"), 0);
    assert_eq!(b.bytes(), b"abcd");
}
