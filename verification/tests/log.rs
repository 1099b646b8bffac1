use rustos::log::crlf_encode;

#[test]
fn crlf_encode_expands_line_feeds() {
    assert_eq!(crlf_encode(b"a\nb"), b"a\r\nb".to_vec());
    assert_eq!(crlf_encode(b"\n"), b"\r\n".to_vec());
    assert_eq!(crlf_encode(b"\n\n"), b"\r\n\r\n".to_vec());
}

#[test]
fn crlf_encode_leaves_other_bytes_alone() {
    assert_eq!(crlf_encode(b""), Vec::<u8>::new());
    assert_eq!(crlf_encode(b"hello"), b"hello".to_vec());
    assert_eq!(crlf_encode(b"a\rb"), b"a\rb".to_vec());
}

#[test]
fn crlf_encode_kernel_banner() {
    let line = crlf_encode(b"rustOS: kernel online\n");
    assert_eq!(line, b"rustOS: kernel online\r\n".to_vec());
}
