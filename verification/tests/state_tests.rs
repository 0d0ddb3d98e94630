use fmodsilo::fmod::{LuaFile, Mod};
use fmodsilo::lsp_any::LSPAny;
use fmodsilo::lsp_json::{IntegerOrString, TraceValue};
use fmodsilo::message_manager::{trace_note, MessageManager};
use fmodsilo::paths::{file_uri_path, FileUri};
use fmodsilo::text::{char_utf8_len, chars_of, int_to_decimal, is_whitespace, parse_usize, string_of_chars, trim};
use fmodsilo::workspace::Workspace;

fn s(x: &str) -> String {
    x.to_string()
}

fn chars(x: &str) -> Vec<char> {
    x.chars().collect()
}

#[test]
fn held_request_is_read_back_until_freed() {
    let mut mm = MessageManager::new();
    let req = LSPAny::Object(vec![(s("method"), LSPAny::String(s("client/registerCapability")))]);
    mm.hold_request(s("a"), s("client/registerCapability"), req.clone_value());
    mm.hold_request(s("b"), s("other"), LSPAny::Null);
    assert_eq!(mm.get_request(&s("a")), Some(req));
    assert_eq!(mm.request_method(&s("a")), Some(s("client/registerCapability")));
    assert_eq!(mm.request_method(&s("b")), Some(s("other")));
    assert!(mm.free_request(&s("a")));
    assert_eq!(mm.get_request(&s("a")), None);
    assert_eq!(mm.request_method(&s("a")), None);
    assert!(!mm.free_request(&s("a")));
    assert_eq!(mm.get_request(&s("b")), Some(LSPAny::Null));
}

#[test]
fn holding_again_replaces_the_request() {
    let mut mm = MessageManager::new();
    mm.hold_request(s("a"), s("m1"), LSPAny::UInteger(1));
    mm.hold_request(s("a"), s("m2"), LSPAny::UInteger(2));
    assert_eq!(mm.get_request(&s("a")), Some(LSPAny::UInteger(2)));
    assert_eq!(mm.request_method(&s("a")), Some(s("m2")));
    assert!(mm.free_request(&s("a")));
    assert_eq!(mm.get_request(&s("a")), None);
}

#[test]
fn set_trace_logs_only_when_verbose() {
    let mut mm = MessageManager::new();
    assert_eq!(mm.get_trace(), TraceValue::Off);
    assert_eq!(mm.set_trace(TraceValue::Verbose), None);
    assert_eq!(mm.get_trace(), TraceValue::Verbose);
    assert_eq!(mm.set_trace(TraceValue::Messages), Some(s("Setting trace value to \"messages\"")));
    assert_eq!(mm.set_trace(TraceValue::Off), None);
    assert_eq!(mm.get_trace(), TraceValue::Off);
}

fn is_v4_uuid_text(s: &str) -> bool {
    let cs: Vec<char> = s.chars().collect();
    cs.len() == 36
        && cs.iter().enumerate().all(|(i, c)| {
            if i == 8 || i == 13 || i == 18 || i == 23 {
                *c == '-'
            } else {
                c.is_ascii_digit() || ('a'..='f').contains(c)
            }
        })
        && cs[14] == '4'
        && "89ab".contains(cs[19])
}

#[test]
fn request_ids_are_uuids() {
    let mm = MessageManager::new();
    let a = mm.new_request_id();
    let b = mm.new_request_id();
    assert!(is_v4_uuid_text(&a));
    assert!(is_v4_uuid_text(&b));
    assert_ne!(a, b);
}

#[test]
fn prepared_requests_are_held() {
    let mut mm = MessageManager::new();
    mm.set_trace(TraceValue::Messages);
    let params = LSPAny::Object(vec![(s("registrations"), LSPAny::Array(vec![]))]);
    let (id, request, note) = mm.prepare_request("client/registerCapability", Some(params.clone_value()));
    assert!(is_v4_uuid_text(&id));
    assert_eq!(
        request,
        LSPAny::Object(vec![
            (s("id"), LSPAny::String(id.clone())),
            (s("jsonrpc"), LSPAny::String(s("2.0"))),
            (s("method"), LSPAny::String(s("client/registerCapability"))),
            (s("params"), params),
        ])
    );
    let note = note.unwrap();
    assert_eq!(note.message, format!("Sending request client/registerCapability \"{}\"", id));
    assert!(!note.with_detail);
    assert_eq!(mm.get_request(&id), Some(request));
    assert_eq!(mm.request_method(&id), Some(s("client/registerCapability")));
    let (id2, request2, note2) = mm.prepare_request("shutdown", None);
    assert_ne!(id, id2);
    assert_eq!(request2.get("params"), None);
    assert!(note2.is_some());
    assert!(mm.free_request(&id));
    assert_eq!(mm.get_request(&id2), Some(request2));
}

#[test]
fn sending_traces() {
    let mut mm = MessageManager::new();
    assert!(mm.response_trace(&Some(IntegerOrString::Integer(1))).is_none());
    mm.set_trace(TraceValue::Messages);
    let t = mm.response_trace(&Some(IntegerOrString::Integer(12))).unwrap();
    assert_eq!(t.message, "Sending response 12");
    assert!(!t.with_detail);
    assert!(mm.response_trace(&None).is_none());
    let t = mm.notification_trace("window/logMessage").unwrap();
    assert_eq!(t.message, "Sending notification window/logMessage");
    assert!(mm.notification_trace("$/logTrace").is_none());
    mm.set_trace(TraceValue::Verbose);
    let t = mm.request_trace("client/registerCapability", &IntegerOrString::String(s("x"))).unwrap();
    assert_eq!(t.message, "Sending request client/registerCapability \"x\"");
    assert!(t.with_detail);
}

#[test]
fn trace_note_levels() {
    assert!(trace_note(TraceValue::Off, s("m")).is_none());
    let t = trace_note(TraceValue::Messages, s("m")).unwrap();
    assert_eq!((t.message.as_str(), t.with_detail), ("m", false));
    let t = trace_note(TraceValue::Verbose, s("m")).unwrap();
    assert_eq!((t.message.as_str(), t.with_detail), ("m", true));
    assert_eq!(fmodsilo::message_manager::concat("ab", "cd"), "abcd");
}

#[test]
fn id_display() {
    assert_eq!(IntegerOrString::Integer(-42).to_display_string(), "-42");
    assert_eq!(IntegerOrString::Integer(0).to_display_string(), "0");
    assert_eq!(IntegerOrString::Integer(i64::MIN).to_display_string(), "-9223372036854775808");
    assert_eq!(IntegerOrString::String(s("ab")).to_display_string(), "\"ab\"");
    assert_eq!(IntegerOrString::String(s("ab")).duplicate(), IntegerOrString::String(s("ab")));
    assert_eq!(int_to_decimal(i64::MAX), "9223372036854775807");
    assert_eq!(TraceValue::Messages.name(), "messages");
}

#[test]
fn text_helpers() {
    assert_eq!(trim(&chars(" \t a b\r\n")), chars("a b"));
    assert_eq!(trim(&chars("   ")), chars(""));
    assert!(is_whitespace('\u{3000}'));
    assert!(!is_whitespace('x'));
    assert_eq!(parse_usize(&chars("42")), Some(42));
    assert_eq!(parse_usize(&chars("+7")), Some(7));
    assert_eq!(parse_usize(&chars("")), None);
    assert_eq!(parse_usize(&chars("+")), None);
    assert_eq!(parse_usize(&chars("4 2")), None);
    assert_eq!(parse_usize(&chars("18446744073709551616")), None);
    assert_eq!(parse_usize(&chars("18446744073709551615")), Some(usize::MAX));
    assert_eq!(char_utf8_len('a'), 1);
    assert_eq!(char_utf8_len('\u{e9}'), 2);
    assert_eq!(char_utf8_len('\u{4e16}'), 3);
    assert_eq!(char_utf8_len('\u{1f600}'), 4);
    assert_eq!(string_of_chars(&chars_of("h\u{e9}")), "h\u{e9}");
}

#[test]
fn mods_are_added_found_and_removed() {
    let mut w = Workspace::new();
    w.add_mod(s("a"), s("/m/a"));
    w.add_mod(s("b"), s("/m/b"));
    assert_eq!(w.get_mod(&s("a")).unwrap().get_root(), "/m/a");
    assert!(w.get_mod(&s("c")).is_none());
    w.add_mod(s("a"), s("/m/a2"));
    assert_eq!(w.get_mod(&s("a")).unwrap().get_root(), "/m/a2");
    let names = w.map_mods(|(n, m)| (n.clone(), m.get_root().clone()));
    assert_eq!(names, vec![(s("a"), s("/m/a2")), (s("b"), s("/m/b"))]);
    w.add_lua_file(s("/m/a2/x.lua"));
    w.add_lua_file(s("/m/b/y.lua"));
    let removed = w.remove_mod(&s("a")).unwrap();
    assert_eq!(removed.get_root(), "/m/a2");
    assert!(w.get_mod(&s("a")).is_none());
    assert!(w.delete_lua_file(&s("/m/a2/x.lua")).is_none());
    assert!(w.delete_lua_file(&s("/m/b/y.lua")).is_some());
    assert!(w.remove_mod(&s("a")).is_none());
}

#[test]
fn lua_files_added_and_deleted() {
    let mut w = Workspace::new();
    w.add_lua_file(s("/p/a.lua"));
    w.add_lua_file(s("/p/a.lua"));
    let f = w.delete_lua_file(&s("/p/a.lua")).unwrap();
    assert_eq!(f.file.path, "/p/a.lua");
    assert!(w.delete_lua_file(&s("/p/a.lua")).is_none());
}

#[test]
fn remove_directory_compares_whole_components() {
    let mut w = Workspace::new();
    w.add_lua_file(s("/p/dir/a.lua"));
    w.add_lua_file(s("/p/dir/sub/b.lua"));
    w.add_lua_file(s("/p/dirx/c.lua"));
    w.remove_directory(&s("/p/dir"));
    assert!(w.delete_lua_file(&s("/p/dir/a.lua")).is_none());
    assert!(w.delete_lua_file(&s("/p/dir/sub/b.lua")).is_none());
    assert!(w.delete_lua_file(&s("/p/dirx/c.lua")).is_some());
}

#[test]
fn files_and_mods_hold_their_paths() {
    assert_eq!(LuaFile::new(s("/x.lua")).file.path, "/x.lua");
    assert_eq!(Mod::new(s("/r")).get_root(), "/r");
    assert!(Workspace::new().get_client_capabilities().is_none());
}

#[test]
fn file_uris() {
    assert_eq!(file_uri_path("file:///tmp/a%20b"), FileUri::Path(s("/tmp/a b")));
    assert_eq!(file_uri_path("http://example.com/x"), FileUri::NotAFile(s("http://example.com/x")));
    assert_eq!(file_uri_path("not a uri"), FileUri::Invalid(s("relative URL without a base")));
}

#[test]
fn made_requests_are_held_under_their_id() {
    let mut mm = MessageManager::new();
    mm.set_trace(TraceValue::Verbose);
    let (request, note) = mm.make_request(s("r-1"), "window/workDoneProgress/create", None);
    assert_eq!(
        request,
        LSPAny::Object(vec![
            (s("id"), LSPAny::String(s("r-1"))),
            (s("jsonrpc"), LSPAny::String(s("2.0"))),
            (s("method"), LSPAny::String(s("window/workDoneProgress/create"))),
        ])
    );
    let note = note.unwrap();
    assert_eq!(note.message, "Sending request window/workDoneProgress/create \"r-1\"");
    assert!(note.with_detail);
    assert_eq!(mm.get_request(&s("r-1")), Some(request));
    mm.set_trace(TraceValue::Off);
    let (_, note) = mm.make_request(s("r-2"), "m", Some(LSPAny::Null));
    assert!(note.is_none());
    assert_eq!(mm.request_method(&s("r-2")), Some(s("m")));
}
