use srvcs_exponent::http::parse_answer;

#[test]
fn answer_status_and_body_are_read() {
    let raw = b"HTTP/1.1 200 OK\r\ncontent-type: application/json\r\ncontent-length: 15\r\n\r\n{\"result\":8.0}";
    assert_eq!(parse_answer(raw), Some((200, b"{\"result\":8.0}".to_vec())));
}

#[test]
fn answer_body_starts_after_the_first_blank_line() {
    let raw = b"HTTP/1.1 422 Unprocessable Entity\r\n\r\nabc\r\n\r\ndef";
    assert_eq!(parse_answer(raw), Some((422, b"abc\r\n\r\ndef".to_vec())));
}

#[test]
fn answer_without_reason_phrase_is_read() {
    assert_eq!(parse_answer(b"HTTP/1.1 503\r\n\r\n"), Some((503, Vec::new())));
}

#[test]
fn answer_without_blank_line_is_none() {
    assert_eq!(parse_answer(b"HTTP/1.1 200 OK\r\ncontent-length: 0\r\n"), None);
    assert_eq!(parse_answer(b""), None);
}

#[test]
fn answer_without_three_digit_status_is_none() {
    assert_eq!(parse_answer(b"HTTP/1.1 20 OK\r\n\r\n"), None);
    assert_eq!(parse_answer(b"HTTP/1.1 2000 OK\r\n\r\n"), None);
    assert_eq!(parse_answer(b"HTTP/1.1 abc OK\r\n\r\n"), None);
    assert_eq!(parse_answer(b"HTTP/1.1\r\n\r\n 200 x"), None);
}
