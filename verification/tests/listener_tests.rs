use fmodsilo::listener::{DefaultListener, ListenError, Listener};
use fmodsilo::lsp_any::LSPAny;

fn jsonrpc_content() -> serde_json::Value {
    let mut map = serde_json::Map::new();
    map.insert("jsonrpc".to_string(), serde_json::Value::String("2.0".to_string()));
    serde_json::Value::Object(map)
}

fn jsonrpc_any() -> LSPAny {
    LSPAny::Object(vec![("jsonrpc".to_string(), LSPAny::String("2.0".to_string()))])
}

fn frame(content: &str) -> String {
    format!("Content-Length: {}\r\n\r\n{}", content.len(), content)
}

#[test]
fn lib_process_message_integral() {
    let mut server = DefaultListener::new();
    let content = jsonrpc_content();
    let content_str = content.to_string();
    let msg = String::from(format!("Content-Length: {}\r\n\r\n{}", content_str.len(), content_str));

    let x = server.push_message(&msg).unwrap();
    assert_eq!(x[0], jsonrpc_any());
}

#[test]
fn lib_process_message_sliced() {
    let mut server = DefaultListener::new();
    let content = jsonrpc_content();
    let content_str = content.to_string();
    let msg = String::from(format!("Content-Length: {}\r\n\r\n{}Content-", content_str.len(), content_str));

    let (first, second) = msg.split_at(12);
    server.push_message(&String::from(first)).unwrap();

    let x = server.push_message(&String::from(second)).unwrap();
    assert_eq!(x[0], jsonrpc_any());
}

#[test]
fn two_messages_in_one_chunk() {
    let mut l = DefaultListener::new();
    let msg = format!("{}{}", frame("{\"a\":1}"), frame("[true,null,-3,2.5]"));
    let out = l.feed(&msg).unwrap();
    assert_eq!(out.len(), 2);
    assert_eq!(out[0], LSPAny::Object(vec![("a".to_string(), LSPAny::UInteger(1))]));
    assert_eq!(
        out[1],
        LSPAny::Array(vec![
            LSPAny::Boolean(true),
            LSPAny::Null,
            LSPAny::Integer(-3),
            LSPAny::Decimal("2.5".to_string()),
        ])
    );
}

#[test]
fn chunking_does_not_change_what_is_read() {
    let msg = format!("{}{}", frame("{\"a\":1}"), frame("{\"b\":\"x\"}"));
    let mut whole = DefaultListener::new();
    let all = whole.feed(&msg).unwrap();
    let mut pieces = DefaultListener::new();
    let mut got = Vec::new();
    for c in msg.chars() {
        let s = c.to_string();
        got.extend(pieces.feed(&s).unwrap());
    }
    assert_eq!(all, got);
    assert_eq!(got.len(), 2);
}

#[test]
fn content_length_counts_bytes() {
    let content = "{\"k\":\"\u{e9}\u{4e16}\"}";
    assert_eq!(content.len(), 13);
    let mut l = DefaultListener::new();
    let out = l.feed(&frame(content)).unwrap();
    assert_eq!(out, vec![LSPAny::Object(vec![("k".to_string(), LSPAny::String("\u{e9}\u{4e16}".to_string()))])]);
}

#[test]
fn incomplete_message_gives_nothing_yet() {
    let mut l = DefaultListener::new();
    let msg = frame("{\"a\":1}");
    let (first, second) = msg.split_at(msg.len() - 1);
    assert_eq!(l.feed(first).unwrap(), Vec::new());
    assert_eq!(l.feed(second).unwrap(), vec![LSPAny::Object(vec![("a".to_string(), LSPAny::UInteger(1))])]);
}

#[test]
fn content_type_header_is_accepted() {
    let mut l = DefaultListener::new();
    let msg = format!(
        "Content-Type: application/vscode-jsonrpc; charset=utf-8\r\nContent-Length: 2\r\n\r\n{{}}"
    );
    assert_eq!(l.feed(&msg).unwrap(), vec![LSPAny::Object(vec![])]);
}

#[test]
fn content_length_with_spaces_and_plus() {
    let mut l = DefaultListener::new();
    assert_eq!(l.feed("Content-Length:  +2 \r\n\r\n{}").unwrap(), vec![LSPAny::Object(vec![])]);
}

#[test]
fn backslash_in_content_type_keeps_the_value_open() {
    let mut l = DefaultListener::new();
    let msg = "Content-Type: a\\b\r\nContent-Length: 2\r\n\r\n{}";
    assert_eq!(l.feed(msg).unwrap(), Vec::new());
    assert_eq!(l.feed(&frame("{}")).unwrap(), Vec::new());
}

#[test]
fn unknown_header_field_is_refused() {
    let mut l = DefaultListener::new();
    assert_eq!(l.feed("Content-Size: 3\r\n"), Err(ListenError::InvalidHeaderField));
    let mut l = DefaultListener::new();
    assert_eq!(l.push_message(&"Accept: x".to_string()), Err("Invalid header field"));
}

#[test]
fn line_end_inside_field_name_is_refused() {
    let mut l = DefaultListener::new();
    assert_eq!(l.feed("Content\n"), Err(ListenError::InvalidHeaderCharacter));
    let mut l = DefaultListener::new();
    assert_eq!(
        l.push_message(&"Content\n".to_string()),
        Err("Invalid character when parsing headers")
    );
}

#[test]
fn bad_content_length_is_refused() {
    let mut l = DefaultListener::new();
    assert_eq!(l.feed("Content-Length: abc\r\n"), Err(ListenError::InvalidContentLength));
    let mut l = DefaultListener::new();
    assert_eq!(l.feed("Content-Length: -1\r\n"), Err(ListenError::InvalidContentLength));
    let mut l = DefaultListener::new();
    assert_eq!(
        l.push_message(&"Content-Length: 99999999999999999999999\r\n".to_string()),
        Err("Error when parsing Content-Length.")
    );
}

#[test]
fn bare_newline_after_header_value_is_refused() {
    let mut l = DefaultListener::new();
    assert_eq!(l.feed("Content-Length: 5\n"), Err(ListenError::InvalidLineEnding));
    let mut l = DefaultListener::new();
    assert_eq!(l.feed("Content-Type: x\n"), Err(ListenError::InvalidLineEnding));
    let mut l = DefaultListener::new();
    assert_eq!(
        l.push_message(&"Content-Length: 5\n".to_string()),
        Err("Invalid line ending when parsing header field.")
    );
}

#[test]
fn content_that_is_not_json_is_refused() {
    let mut l = DefaultListener::new();
    assert_eq!(l.feed(&frame("abc")), Err(ListenError::InvalidContent));
    let mut l = DefaultListener::new();
    assert_eq!(l.push_message(&frame("{x")), Err("Error when parsing JSON content"));
}

#[test]
fn error_messages_match_their_errors() {
    assert_eq!(ListenError::InvalidHeaderField.message(), "Invalid header field");
    assert_eq!(ListenError::InvalidHeaderCharacter.message(), "Invalid character when parsing headers");
    assert_eq!(ListenError::InvalidContentLength.message(), "Error when parsing Content-Length.");
    assert_eq!(ListenError::InvalidLineEnding.message(), "Invalid line ending when parsing header field.");
    assert_eq!(ListenError::InvalidContent.message(), "Error when parsing JSON content");
}

#[test]
fn any_get_and_clone() {
    let v = LSPAny::Object(vec![
        ("a".to_string(), LSPAny::UInteger(1)),
        ("b".to_string(), LSPAny::Array(vec![LSPAny::Null, LSPAny::String("s".to_string())])),
    ]);
    assert_eq!(v.get("a"), Some(&LSPAny::UInteger(1)));
    assert_eq!(v.get("c"), None);
    assert_eq!(LSPAny::Null.get("a"), None);
    assert_eq!(v.clone_value(), v);
}

#[test]
fn ending_content_gives_the_value_or_fails() {
    let mut l = DefaultListener::new();
    assert_eq!(l.end_content(Some(LSPAny::Null)), Ok(LSPAny::Null));
    assert_eq!(l.feed(&frame("1")).unwrap(), vec![LSPAny::UInteger(1)]);
    assert_eq!(l.end_content(None), Err(ListenError::InvalidContent));
    assert_eq!(l.feed(&frame("2")).unwrap(), vec![LSPAny::UInteger(2)]);
}

#[test]
fn refused_header_name_is_kept() {
    let mut l = DefaultListener::new();
    assert_eq!(l.push_message(&"Content-Size: 5\r\n".to_string()), Err("Invalid header field"));
    assert_eq!(l.pending_text(), "Content-Size:");
}

#[test]
fn many_framed_messages_read_back_in_order() {
    let mut l = DefaultListener::new();
    let msg = format!("{}{}{}", frame("1"), frame("\"two\""), frame("[3]"));
    assert_eq!(
        l.feed(&msg).unwrap(),
        vec![LSPAny::UInteger(1), LSPAny::String("two".to_string()), LSPAny::Array(vec![LSPAny::UInteger(3)])]
    );
    assert_eq!(l.pending_text(), "");
}
