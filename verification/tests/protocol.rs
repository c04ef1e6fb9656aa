use serde_json::Value;
use swiss_weather_mcp::mcp_engine::{
    initialize_result, route_request, run_json_tool, tool_call_result, tool_catalog, tools_list_response, CallResult,
    ContentBlock, McpRequest, McpResponse, RequestAction, ToolArguments, ToolCall, ToolCallParams,
};

fn object(pairs: &[(&str, Value)]) -> Value {
    let mut map = serde_json::Map::new();
    for (key, value) in pairs {
        map.insert(key.to_string(), value.clone());
    }
    Value::Object(map)
}

fn no_arguments() -> ToolArguments {
    ToolArguments { interval: None, station_id: None, species: None, point_query: None, hours: None }
}

fn request(method: &str, id: Option<Value>, name: Option<&str>, arguments: ToolArguments) -> McpRequest {
    McpRequest {
        jsonrpc: "2.0".to_string(),
        method: method.to_string(),
        id,
        params: ToolCallParams { name: name.map(str::to_string), arguments },
    }
}

fn rejection(action: RequestAction) -> (i32, String) {
    match action {
        RequestAction::Reject(error) => (error.code, error.message),
        other => panic!("expected a rejection, got {:?}", other),
    }
}

#[test]
fn test_mcp_response_ok() {
    let resp = McpResponse::ok(Value::from(0), object(&[("test", Value::Bool(true))]));
    assert_eq!(resp.jsonrpc, "2.0");
    assert_eq!(resp.id, Some(Value::from(0)));
    assert_eq!(resp.result, object(&[("test", Value::Bool(true))]));
    assert!(resp.error.is_none());
}

#[test]
fn test_mcp_response_err() {
    let resp = McpResponse::err(Value::from(0), -32601, "Method not found");
    assert_eq!(resp.jsonrpc, "2.0");
    assert_eq!(resp.id, Some(Value::from(0)));
    let error = resp.error.unwrap();
    assert_eq!(error.code, -32601);
    assert_eq!(error.message, "Method not found");
    assert_eq!(resp.result, object(&[]));
}

#[test]
fn content_block_text_is_a_text_block() {
    let block = ContentBlock::text("hello");
    assert_eq!(block.content_type, "text");
    assert_eq!(block.text, "hello");
}

#[test]
fn call_result_from_json_str_holds_the_json() {
    let result = CallResult::from_json_str("{\"a\": 1}");
    assert_eq!(result.content.len(), 1);
    assert_eq!(result.content[0].content_type, "text");
    assert_eq!(result.content[0].text, "{\"a\": 1}");
}

#[test]
fn call_result_error_prefixes_the_message() {
    let result = CallResult::error("No station matched 'xyz'");
    assert_eq!(result.content.len(), 1);
    assert_eq!(result.content[0].text, "Error: No station matched 'xyz'");
}

#[test]
fn tool_call_result_reports_errors_and_json() {
    let ok = tool_call_result(Ok("[1]".to_string()));
    assert_eq!(ok.content[0].text, "[1]");
    let err = tool_call_result(Err("boom".to_string()));
    assert_eq!(err.content[0].text, "Error: boom");
}

#[test]
fn run_json_tool_pretty_prints_the_answer() {
    let result = run_json_tool(Ok(object(&[("a", Value::from(1))])));
    assert_eq!(result.content.len(), 1);
    assert_eq!(result.content[0].text, "{\n  \"a\": 1\n}");
    let failed = run_json_tool(Err("Unsupported sunshine interval: 2d".to_string()));
    assert_eq!(failed.content[0].text, "Error: Unsupported sunshine interval: 2d");
}

#[test]
fn initialize_result_announces_version_and_server() {
    let result = initialize_result();
    assert_eq!(result.protocol_version, "2025-03-26");
    assert!(!result.capabilities.tools.list_changed);
    assert_eq!(result.server_info.name, "swiss-weather-mcp");
    assert_eq!(result.server_info.version, "0.1.0");
}

#[test]
fn test_tools_list_response() {
    let resp = tools_list_response(Value::from(1));
    assert_eq!(resp.jsonrpc, "2.0");
    assert_eq!(resp.id, Some(Value::from(1)));
    let tools = resp.tools;
    assert!(tools.iter().all(|tool| tool.input_schema.schema_type == "object"));
    assert_eq!(tools.len(), 9);
    assert_eq!(tools[0].name, "list_weather_stations");
    assert_eq!(tools[4].name, "get_sunshine");
    assert_eq!(tools[6].name, "list_pollen_stations");
    assert_eq!(tools[8].name, "get_local_forecast");
    assert_eq!(tools[7].input_schema.required, vec!["species".to_string()]);
    assert_eq!(tools[8].input_schema.required, vec!["point_query".to_string()]);
    assert!(tools[0].input_schema.properties.is_empty());
    let hours = &tools[8].input_schema.properties[1];
    assert_eq!(hours.name, "hours");
    assert_eq!(hours.value_type, "integer");
    assert_eq!(hours.minimum, Some(1));
    assert_eq!(hours.maximum, Some(96));
    assert_eq!(tools[1].input_schema.properties[0].allowed_values, vec!["10min", "1h", "24h", "48h"]);
}

#[test]
fn tool_list_is_the_same_for_every_id() {
    let a = tools_list_response(Value::from(1));
    let b = tools_list_response(Value::from("x"));
    let names_a: Vec<String> = a.tools.iter().map(|t| t.name.clone()).collect();
    let names_b: Vec<String> = b.tools.iter().map(|t| t.name.clone()).collect();
    assert_eq!(names_a, names_b);
    assert_eq!(b.id, Some(Value::from("x")));
}

#[test]
fn route_initialize_echoes_the_id() {
    let (id, action) = route_request(request("initialize", Some(Value::from(1)), None, no_arguments()));
    assert_eq!(id, Some(Value::from(1)));
    assert!(matches!(action, RequestAction::Initialize));
}

#[test]
fn route_without_id_keeps_the_missing_id() {
    let (id, action) = route_request(request("tools/list", None, None, no_arguments()));
    assert_eq!(id, None);
    assert!(matches!(action, RequestAction::ListTools));
}

#[test]
fn test_notification_initialized_returns_none() {
    let (_, action) = route_request(request("notifications/initialized", None, None, no_arguments()));
    assert!(matches!(action, RequestAction::Acknowledge));
}

#[test]
fn test_tools_call_missing_name_returns_error() {
    let (_, action) = route_request(request("tools/call", Some(Value::from(3)), None, no_arguments()));
    let (code, message) = rejection(action);
    assert_eq!(code, -32602);
    assert!(message.contains("Missing argument 'name'"));
}

#[test]
fn test_tools_call_unknown_tool_returns_error() {
    let (_, action) = route_request(request("tools/call", Some(Value::from(3)), Some("nonexistent"), no_arguments()));
    let (code, message) = rejection(action);
    assert_eq!(code, -32601);
    assert_eq!(message, "Unknown tool: nonexistent");
}

#[test]
fn test_get_pollen_measurement_missing_species_returns_error() {
    let (_, action) = route_request(request("tools/call", Some(Value::from(3)), Some("get_pollen_measurement"), no_arguments()));
    let (code, message) = rejection(action);
    assert_eq!(code, -32602);
    assert!(message.contains("Missing argument 'species'"));
}

#[test]
fn test_get_local_forecast_missing_point_query_returns_error() {
    let (_, action) = route_request(request("tools/call", Some(Value::from(3)), Some("get_local_forecast"), no_arguments()));
    let (code, message) = rejection(action);
    assert_eq!(code, -32602);
    assert!(message.contains("Missing argument 'point_query'"));
}

#[test]
fn test_unsupported_method_returns_error() {
    let (_, action) = route_request(request("unknown", Some(Value::from(3)), None, no_arguments()));
    let (code, message) = rejection(action);
    assert_eq!(code, -32601);
    assert_eq!(message, "Unsupported method: unknown");
}

#[test]
fn route_forecast_call_carries_its_arguments() {
    let mut arguments = no_arguments();
    arguments.point_query = Some("ARO".to_string());
    arguments.hours = Some(12);
    let (_, action) = route_request(request("tools/call", Some(Value::from(3)), Some("get_local_forecast"), arguments));
    match action {
        RequestAction::CallTool(ToolCall::GetLocalForecast { point_query, hours }) => {
            assert_eq!(point_query, "ARO");
            assert_eq!(hours, Some(12));
        }
        other => panic!("unexpected {:?}", other),
    }
}

#[test]
fn route_every_listed_tool_is_callable() {
    for tool in tool_catalog() {
        let mut arguments = no_arguments();
        arguments.species = Some("birch".to_string());
        arguments.point_query = Some("ARO".to_string());
        let (_, action) = route_request(request("tools/call", Some(Value::from(1)), Some(&tool.name), arguments));
        assert!(matches!(action, RequestAction::CallTool(_)), "{} is not callable", tool.name);
    }
}
