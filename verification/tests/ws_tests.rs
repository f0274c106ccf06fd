use nmts::ws::{
    accept_key, classify_request, editor_command, ends_head, extended_len_size, frame_action,
    frame_start, handshake_response, page_response_head, parse_header_line, payload_len, unmask,
    ws_frame, ws_text_frame, EditorCommand, FrameAction, Request,
};

#[test]
fn accept_key_matches_rfc_example() {
    assert_eq!(accept_key("dGhlIHNhbXBsZSBub25jZQ=="), "s3pPLMBiTxaQ9kYGzzhZRbK+xOo=");
    assert_eq!(
        handshake_response(Some("dGhlIHNhbXBsZSBub25jZQ==")).unwrap(),
        "HTTP/1.1 101 Switching Protocols\r\nUpgrade: websocket\r\nConnection: Upgrade\r\nSec-WebSocket-Accept: s3pPLMBiTxaQ9kYGzzhZRbK+xOo=\r\n\r\n"
    );
    assert_eq!(handshake_response(None), Err("缺少 Sec-WebSocket-Key".to_string()));
}

#[test]
fn frames_carry_their_length() {
    assert_eq!(ws_frame(0x81, b"hi"), vec![0x81, 2, b'h', b'i']);
    let mid = vec![7u8; 300];
    let f = ws_frame(0x81, &mid);
    assert_eq!(&f[..4], &[0x81, 126, 1, 44]);
    assert_eq!(f.len(), 304);
    let big = vec![0u8; 70000];
    let g = ws_frame(0x8A, &big);
    assert_eq!(&g[..10], &[0x8A, 127, 0, 0, 0, 0, 0, 1, 0x11, 0x70]);
    assert_eq!(ws_text_frame("中"), vec![0x81, 3, 0xE4, 0xB8, 0xAD]);
}

#[test]
fn frame_headers_read_back() {
    let s = frame_start(0x81, 0x85);
    assert_eq!((s.opcode, s.masked, s.len7), (1, true, 5));
    assert_eq!(extended_len_size(126), 2);
    assert_eq!(extended_len_size(127), 8);
    assert_eq!(extended_len_size(5), 0);
    assert_eq!(payload_len(5, &[]), 5);
    assert_eq!(payload_len(126, &[1, 44]), 300);
    assert_eq!(payload_len(127, &[0, 0, 0, 0, 0, 1, 0x11, 0x70]), 70000);
    // What the writer produces, the reader understands.
    let f = ws_frame(0x81, &vec![1u8; 300]);
    let st = frame_start(f[0], f[1]);
    let n = extended_len_size(st.len7);
    assert_eq!(payload_len(st.len7, &f[2..2 + n]), 300);
}

#[test]
fn unmasking_is_reversible() {
    let mask = [0x12u8, 0x34, 0x56, 0x78];
    let text = b"hello editor".to_vec();
    let mut p = text.clone();
    unmask(&mut p, mask);
    assert_eq!(p[0], b'h' ^ 0x12);
    assert_eq!(p[5], b' ' ^ 0x34);
    unmask(&mut p, mask);
    assert_eq!(p, text);
}

#[test]
fn frame_and_message_actions() {
    assert_eq!(frame_action(8), FrameAction::Close);
    assert_eq!(frame_action(9), FrameAction::Pong);
    assert_eq!(frame_action(1), FrameAction::Text);
    assert_eq!(frame_action(2), FrameAction::Ignore);
    assert_eq!(editor_command(Some("update")), Some(EditorCommand::Update));
    assert_eq!(editor_command(Some("save")), Some(EditorCommand::Save));
    assert_eq!(editor_command(Some("close")), Some(EditorCommand::Close));
    assert_eq!(editor_command(Some("ping")), None);
    assert_eq!(editor_command(None), None);
}

#[test]
fn request_head() {
    assert!(ends_head("\r\n"));
    assert!(ends_head("\n"));
    assert!(!ends_head("Host: x\r\n"));
    assert_eq!(
        parse_header_line(" Sec-WebSocket-Key : abc== \r\n"),
        Some(("sec-websocket-key".to_string(), "abc==".to_string()))
    );
    assert_eq!(parse_header_line("Host: 127.0.0.1:18765"), Some(("host".to_string(), "127.0.0.1:18765".to_string())));
    assert_eq!(parse_header_line("GET / HTTP/1.1\r\n"), None);
    let lines = vec![
        "GET /ws HTTP/1.1\r\n".to_string(),
        "Upgrade: WebSocket\r\n".to_string(),
        "Sec-WebSocket-Key: k1\r\n".to_string(),
    ];
    match classify_request(&lines) {
        Request::Upgrade { key } => assert_eq!(key.as_deref(), Some("k1")),
        Request::Page => panic!("upgrade expected"),
    }
    let page = vec!["GET / HTTP/1.1\r\n".to_string(), "Host: x\r\n".to_string()];
    assert!(matches!(classify_request(&page), Request::Page));
    assert_eq!(
        page_response_head(12),
        "HTTP/1.1 200 OK\r\nContent-Type: text/html; charset=utf-8\r\nContent-Length: 12\r\nConnection: close\r\n\r\n"
    );
}
