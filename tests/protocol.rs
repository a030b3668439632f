use mcplease::types::{route, ContentResponse, Info, InitializeResponse, McpResponse, Route, METHOD_ERROR_CODE, PROTOCOL_VERSION};

#[test]
fn initialize_response_defaults() {
    let info = Info::new("server".to_string(), "1.2.3".to_string());
    let r = InitializeResponse::new(info);
    assert_eq!(r.protocol_version, "2024-11-05");
    assert_eq!(PROTOCOL_VERSION, "2024-11-05");
    assert!(r.capabilities.tools.is_empty());
    assert_eq!(r.server_info.name, "server");
    assert_eq!(r.server_info.version, "1.2.3");
    assert_eq!(r.instructions, None);
}

#[test]
fn initialize_response_with_instructions() {
    let info = Info::new("s".to_string(), "0.1.0".to_string());
    let r = InitializeResponse::new(info).with_instructions(Some("use the tools"));
    assert_eq!(r.instructions, Some("use the tools"));
    assert_eq!(r.protocol_version, "2024-11-05");
    let r = r.with_instructions(None);
    assert_eq!(r.instructions, None);
}

#[test]
fn content_response_text() {
    let r = ContentResponse::text("hello".to_string());
    assert_eq!(r.content.len(), 1);
    assert_eq!(r.content[0].kind, "text");
    assert_eq!(r.content[0].text, "hello");
}

#[test]
fn routes_by_method() {
    assert_eq!(route("initialize"), Route::Initialize);
    assert_eq!(route("tools/list"), Route::ToolsList);
    assert_eq!(route("tools/call"), Route::ToolsCall);
    assert_eq!(route("tools/lis"), Route::Unknown);
    assert_eq!(route(""), Route::Unknown);
    assert_eq!(route("Initialize"), Route::Unknown);
    assert_eq!(METHOD_ERROR_CODE, -32601);
}

#[test]
fn success_response_carries_result() {
    let r = McpResponse::success(serde_json::Value::from(7), serde_json::Value::from("done"));
    assert_eq!(r.jsonrpc, "2.0");
    assert_eq!(r.id, serde_json::Value::from(7));
    assert_eq!(r.result, Some(serde_json::Value::from("done")));
    assert!(r.error.is_none());
}

#[test]
fn error_response_carries_code_and_message() {
    let r = McpResponse::error(serde_json::Value::from("req-1"), "Unknown method: nope".to_string());
    assert_eq!(r.jsonrpc, "2.0");
    assert_eq!(r.id, serde_json::Value::from("req-1"));
    assert!(r.result.is_none());
    let e = r.error.expect("error part");
    assert_eq!(e.code, -32601);
    assert_eq!(e.message, "Unknown method: nope");
    assert!(e.data.is_none());
}
