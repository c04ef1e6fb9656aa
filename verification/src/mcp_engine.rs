//! Core MCP protocol logic: the wire types that the library speaks of, request
//! routing, tool results and the tool catalog.
use vstd::prelude::*;

use crate::text::{concat2, owned, str_eq};

verus! {

/// A JSON document. The library carries such values through (request ids and
/// tool results) without looking inside them.
#[verifier::external_type_specification]
#[verifier::external_body]
pub struct ExJsonValue(serde_json::Value);

// ── Wrappers around serde_json ──────────────────────────────────────────────

/// An empty JSON object, built with `serde_json::Map::new`. Nothing is stated of
/// the value: it is opaque here.
#[verifier::external_body]
fn empty_json_object() -> serde_json::Value {
    serde_json::Value::Object(serde_json::Map::new())
}

/// The pretty-printed JSON text of a value (two-space indentation, one entry
/// per line), as `serde_json::to_string_pretty` writes it. It depends on the
/// value alone.
pub uninterp spec fn pretty_json(value: serde_json::Value) -> Seq<char>;

/// `serde_json::to_string_pretty` on a `serde_json::Value`, with the error type
/// turned into its message. The contract claims that it succeeds (a `Value`
/// always serialises: its map keys are strings) and that the text is
/// `pretty_json` of the value.
#[verifier::external_body]
fn json_to_string_pretty(value: &serde_json::Value) -> (r: Result<String, String>)
    ensures
        r == Ok::<String, String>(r->Ok_0),
        r->Ok_0@ == pretty_json(*value),
{
    serde_json::to_string_pretty(value).map_err(|error| error.to_string())
}

// ── MCP wire types ──────────────────────────────────────────────────────────

/// The protocol version that the server announces.
pub const MCP_VERSION: &'static str = "2025-03-26";

/// The server's name.
pub const SERVER_NAME: &'static str = "swiss-weather-mcp";

/// The server's version.
pub const SERVER_VERSION: &'static str = "0.1.0";

/// The JSON-RPC version of every response.
pub const JSONRPC_VERSION: &'static str = "2.0";

/// Arguments of a `tools/call` request that the tools read. Each is present
/// exactly when the request's `arguments` object holds that key with a value
/// of the right JSON type (a string, or for `hours` an unsigned integer).
#[derive(Debug, Clone)]
pub struct ToolArguments {
    pub interval: Option<String>,
    pub station_id: Option<String>,
    pub species: Option<String>,
    pub point_query: Option<String>,
    pub hours: Option<u64>,
}

/// The parameters of a request as far as routing reads them: the tool name
/// (present when `params.name` is a string) and the tool arguments.
#[derive(Debug, Clone)]
pub struct ToolCallParams {
    pub name: Option<String>,
    pub arguments: ToolArguments,
}

/// A JSON-RPC request line.
#[derive(Debug)]
pub struct McpRequest {
    pub jsonrpc: String,
    pub method: String,
    pub id: Option<serde_json::Value>,
    pub params: ToolCallParams,
}

/// A JSON-RPC error object.
#[derive(Debug, Clone)]
pub struct McpError {
    pub code: i32,
    pub message: String,
}

/// A JSON-RPC response line.
#[derive(Debug)]
pub struct McpResponse {
    pub jsonrpc: String,
    pub id: Option<serde_json::Value>,
    pub result: serde_json::Value,
    pub error: Option<McpError>,
}

impl McpResponse {
    /// A successful response carrying `result` for the request `id`.
    pub fn ok(id: serde_json::Value, result: serde_json::Value) -> (r: Self)
        ensures
            r.jsonrpc@ == JSONRPC_VERSION@,
            r.id == Some(id),
            r.result == result,
            r.error is None,
    {
        McpResponse { jsonrpc: owned(JSONRPC_VERSION), id: Some(id), result, error: None }
    }

    /// An error response with `code` and `message` for the request `id`; its
    /// `result` is an empty JSON object.
    pub fn err(id: serde_json::Value, code: i32, message: &str) -> (r: Self)
        ensures
            r.jsonrpc@ == JSONRPC_VERSION@,
            r.id == Some(id),
            r.error matches Some(e) && e.code == code && e.message@ == message@,
    {
        McpResponse {
            jsonrpc: owned(JSONRPC_VERSION),
            id: Some(id),
            result: empty_json_object(),
            error: Some(McpError { code, message: owned(message) }),
        }
    }
}

// ── Initialize ──────────────────────────────────────────────────────────────

#[derive(Debug, Clone)]
pub struct ToolCapabilities {
    pub list_changed: bool,
}

#[derive(Debug, Clone)]
pub struct McpCapabilities {
    pub tools: ToolCapabilities,
}

#[derive(Debug, Clone)]
pub struct ServerInfo {
    pub name: String,
    pub version: String,
}

#[derive(Debug, Clone)]
pub struct InitializeResult {
    pub protocol_version: String,
    pub capabilities: McpCapabilities,
    pub server_info: ServerInfo,
}

/// The answer to `initialize`: protocol version, tool capabilities (the tool
/// list never changes) and the server's name and version.
pub fn initialize_result() -> (r: InitializeResult)
    ensures
        r.protocol_version@ == MCP_VERSION@,
        !r.capabilities.tools.list_changed,
        r.server_info.name@ == SERVER_NAME@,
        r.server_info.version@ == SERVER_VERSION@,
{
    InitializeResult {
        protocol_version: owned(MCP_VERSION),
        capabilities: McpCapabilities { tools: ToolCapabilities { list_changed: false } },
        server_info: ServerInfo { name: owned(SERVER_NAME), version: owned(SERVER_VERSION) },
    }
}

// ── Tool results ────────────────────────────────────────────────────────────

#[derive(Debug, Clone)]
pub struct ContentBlock {
    pub content_type: String,
    pub text: String,
}

#[derive(Debug, Clone)]
pub struct CallResult {
    pub content: Vec<ContentBlock>,
}

/// The content type of every block.
pub const TEXT_CONTENT_TYPE: &'static str = "text";

/// The prefix of an error text in a tool result.
pub const ERROR_PREFIX: &'static str = "Error: ";

/// A call result made of one text block holding `text`.
pub open spec fn is_single_text(r: CallResult, text: Seq<char>) -> bool {
    &&& r.content.len() == 1
    &&& r.content[0].content_type@ == TEXT_CONTENT_TYPE@
    &&& r.content[0].text@ == text
}

impl ContentBlock {
    /// A text block.
    pub fn text(text: &str) -> (r: Self)
        ensures
            r.content_type@ == TEXT_CONTENT_TYPE@,
            r.text@ == text@,
    {
        ContentBlock { content_type: owned(TEXT_CONTENT_TYPE), text: owned(text) }
    }
}

impl CallResult {
    /// A result holding the JSON text of a tool's answer.
    pub fn from_json_str(json: &str) -> (r: Self)
        ensures
            is_single_text(r, json@),
    {
        let mut content = Vec::new();
        content.push(ContentBlock::text(json));
        CallResult { content }
    }

    /// A result reporting a failure: `Error: ` followed by the message.
    pub fn error(message: &str) -> (r: Self)
        ensures
            is_single_text(r, ERROR_PREFIX@ + message@),
    {
        let text = concat2(ERROR_PREFIX, message);
        let mut content = Vec::new();
        content.push(ContentBlock::text(text.as_str()));
        CallResult { content }
    }
}

/// The call result for a tool's outcome: its JSON text, or its error message
/// behind `Error: `.
pub fn tool_call_result(outcome: Result<String, String>) -> (r: CallResult)
    ensures
        match outcome {
            Ok(json) => is_single_text(r, json@),
            Err(message) => is_single_text(r, ERROR_PREFIX@ + message@),
        },
{
    match outcome {
        Ok(json) => CallResult::from_json_str(json.as_str()),
        Err(message) => CallResult::error(message.as_str()),
    }
}

/// The call result for a tool that answered `result`: one text block holding
/// the answer pretty-printed as JSON, or the failed tool's message behind
/// `Error: `.
pub fn run_json_tool(result: Result<serde_json::Value, String>) -> (r: CallResult)
    ensures
        result matches Ok(v) ==> is_single_text(r, pretty_json(v)),
        result matches Err(message) ==> is_single_text(r, ERROR_PREFIX@ + message@),
{
    match result {
        Ok(value) => tool_call_result(json_to_string_pretty(&value)),
        Err(message) => tool_call_result(Err(message)),
    }
}

// ── Routing ─────────────────────────────────────────────────────────────────

/// JSON-RPC code for an unknown method or tool.
pub const METHOD_NOT_FOUND: i32 = -32601;

/// JSON-RPC code for a missing argument.
pub const INVALID_PARAMS: i32 = -32602;

/// A tool invocation with the arguments that the tool takes.
#[derive(Debug, Clone)]
pub enum ToolCall {
    ListWeatherStations,
    GetPrecipitation { interval: Option<String>, station_id: Option<String> },
    GetWindSpeed10min { station_id: Option<String> },
    GetWindGusts10min { station_id: Option<String> },
    GetSunshine { interval: Option<String>, station_id: Option<String> },
    GetGlobalRadiation { interval: Option<String>, station_id: Option<String> },
    ListPollenStations,
    GetPollenMeasurement { species: String, station_id: Option<String> },
    GetLocalForecast { point_query: String, hours: Option<u64> },
}

/// What the server does with a request.
#[derive(Debug, Clone)]
pub enum RequestAction {
    /// Answer with the initialize result.
    Initialize,
    /// A notification: no response at all.
    Acknowledge,
    /// Answer with the tool list.
    ListTools,
    /// Run a tool and answer with its call result.
    CallTool(ToolCall),
    /// Answer with this JSON-RPC error.
    Reject(McpError),
}

/// `action` rejects the request with `code` and `message`.
pub open spec fn rejects(action: RequestAction, code: i32, message: Seq<char>) -> bool {
    action matches RequestAction::Reject(e) && e.code == code && e.message@ == message
}

/// How a `tools/call` request with these parameters is answered.
pub open spec fn routes_tool_call(params: ToolCallParams, action: RequestAction) -> bool {
    let args = params.arguments;
    match params.name {
        None => rejects(action, INVALID_PARAMS, "Missing argument 'name'"@),
        Some(name) => if name@ == "list_weather_stations"@ {
            action == RequestAction::CallTool(ToolCall::ListWeatherStations)
        } else if name@ == "get_precipitation"@ {
            action == RequestAction::CallTool(
                ToolCall::GetPrecipitation { interval: args.interval, station_id: args.station_id },
            )
        } else if name@ == "get_wind_speed_10min"@ {
            action == RequestAction::CallTool(
                ToolCall::GetWindSpeed10min { station_id: args.station_id },
            )
        } else if name@ == "get_wind_gusts_10min"@ {
            action == RequestAction::CallTool(
                ToolCall::GetWindGusts10min { station_id: args.station_id },
            )
        } else if name@ == "get_sunshine"@ {
            action == RequestAction::CallTool(
                ToolCall::GetSunshine { interval: args.interval, station_id: args.station_id },
            )
        } else if name@ == "get_global_radiation"@ {
            action == RequestAction::CallTool(
                ToolCall::GetGlobalRadiation {
                    interval: args.interval,
                    station_id: args.station_id,
                },
            )
        } else if name@ == "list_pollen_stations"@ {
            action == RequestAction::CallTool(ToolCall::ListPollenStations)
        } else if name@ == "get_pollen_measurement"@ {
            match args.species {
                None => rejects(action, INVALID_PARAMS, "Missing argument 'species'"@),
                Some(species) => action == RequestAction::CallTool(
                    ToolCall::GetPollenMeasurement { species, station_id: args.station_id },
                ),
            }
        } else if name@ == "get_local_forecast"@ {
            match args.point_query {
                None => rejects(action, INVALID_PARAMS, "Missing argument 'point_query'"@),
                Some(point_query) => action == RequestAction::CallTool(
                    ToolCall::GetLocalForecast { point_query, hours: args.hours },
                ),
            }
        } else {
            rejects(action, METHOD_NOT_FOUND, "Unknown tool: "@ + name@)
        },
    }
}

/// How a request with this method and these parameters is answered.
pub open spec fn routes_request(method: Seq<char>, params: ToolCallParams, action: RequestAction) -> bool {
    if method == "initialize"@ {
        action is Initialize
    } else if method == "notifications/initialized"@ {
        action is Acknowledge
    } else if method == "tools/list"@ {
        action is ListTools
    } else if method == "tools/call"@ {
        routes_tool_call(params, action)
    } else {
        rejects(action, METHOD_NOT_FOUND, "Unsupported method: "@ + method)
    }
}

fn reject(code: i32, message: String) -> (action: RequestAction)
    ensures
        rejects(action, code, message@),
{
    RequestAction::Reject(McpError { code, message })
}

fn route_tool_call(params: ToolCallParams) -> (action: RequestAction)
    ensures
        routes_tool_call(params, action),
{
    let ToolCallParams { name, arguments } = params;
    let ToolArguments { interval, station_id, species, point_query, hours } = arguments;
    let name = match name {
        None => {
            return reject(INVALID_PARAMS, owned("Missing argument 'name'"));
        },
        Some(name) => name,
    };
    let n = name.as_str();
    if str_eq(n, "list_weather_stations") {
        RequestAction::CallTool(ToolCall::ListWeatherStations)
    } else if str_eq(n, "get_precipitation") {
        RequestAction::CallTool(ToolCall::GetPrecipitation { interval, station_id })
    } else if str_eq(n, "get_wind_speed_10min") {
        RequestAction::CallTool(ToolCall::GetWindSpeed10min { station_id })
    } else if str_eq(n, "get_wind_gusts_10min") {
        RequestAction::CallTool(ToolCall::GetWindGusts10min { station_id })
    } else if str_eq(n, "get_sunshine") {
        RequestAction::CallTool(ToolCall::GetSunshine { interval, station_id })
    } else if str_eq(n, "get_global_radiation") {
        RequestAction::CallTool(ToolCall::GetGlobalRadiation { interval, station_id })
    } else if str_eq(n, "list_pollen_stations") {
        RequestAction::CallTool(ToolCall::ListPollenStations)
    } else if str_eq(n, "get_pollen_measurement") {
        match species {
            None => reject(INVALID_PARAMS, owned("Missing argument 'species'")),
            Some(species) => RequestAction::CallTool(
                ToolCall::GetPollenMeasurement { species, station_id },
            ),
        }
    } else if str_eq(n, "get_local_forecast") {
        match point_query {
            None => reject(INVALID_PARAMS, owned("Missing argument 'point_query'")),
            Some(point_query) => RequestAction::CallTool(
                ToolCall::GetLocalForecast { point_query, hours },
            ),
        }
    } else {
        reject(METHOD_NOT_FOUND, concat2("Unknown tool: ", n))
    }
}

/// Decides how to answer a request: `initialize` and `tools/list` are answered
/// directly, `notifications/initialized` gets no answer, `tools/call` runs the
/// named tool when its required arguments are there (`-32602` when the tool
/// name or a required argument is missing, `-32601` for an unknown tool), and
/// any other method is refused with `-32601`. The first component is the
/// request's id as it came (an answer to a request without one carries JSON
/// `null`).
pub fn route_request(request: McpRequest) -> (routed: (Option<serde_json::Value>, RequestAction))
    ensures
        routed.0 == request.id,
        routes_request(request.method@, request.params, routed.1),
{
    let McpRequest { jsonrpc: _, method, id, params } = request;
    let m = method.as_str();
    let action = if str_eq(m, "initialize") {
        RequestAction::Initialize
    } else if str_eq(m, "notifications/initialized") {
        RequestAction::Acknowledge
    } else if str_eq(m, "tools/list") {
        RequestAction::ListTools
    } else if str_eq(m, "tools/call") {
        route_tool_call(params)
    } else {
        reject(METHOD_NOT_FOUND, concat2("Unsupported method: ", m))
    };
    (id, action)
}

// ── Tool catalog ────────────────────────────────────────────────────────────

/// A property of a tool's input schema.
#[derive(Debug, Clone)]
pub struct SchemaProperty {
    pub name: String,
    pub value_type: String,
    pub allowed_values: Vec<String>,
    pub minimum: Option<u64>,
    pub maximum: Option<u64>,
    pub description: String,
}

/// A tool's input schema: a value of JSON type `schema_type` (an object for
/// every tool) with these properties, of which the `required` ones must be
/// given.
#[derive(Debug, Clone)]
pub struct InputSchema {
    pub schema_type: String,
    pub properties: Vec<SchemaProperty>,
    pub required: Vec<String>,
}

/// The JSON type of every tool's input schema.
pub const OBJECT_SCHEMA_TYPE: &'static str = "object";

/// Every tool's input schema describes a JSON object.
pub open spec fn object_schemas(tools: Seq<ToolInfo>) -> bool {
    forall|k: int| 0 <= k < tools.len() ==> #[trigger] tools[k].input_schema.schema_type@ == OBJECT_SCHEMA_TYPE@
}

/// A tool as the catalog lists it.
#[derive(Debug, Clone)]
pub struct ToolInfo {
    pub name: String,
    pub description: String,
    pub input_schema: InputSchema,
}

/// The texts of a list of strings.
pub open spec fn text_list(v: Seq<String>) -> Seq<Seq<char>> {
    v.map_values(|s: String| s@)
}

/// A property as plain values: name, type, allowed values, bounds, description.
pub open spec fn property_view(p: SchemaProperty) -> (Seq<char>, Seq<char>, Seq<Seq<char>>, Option<u64>, Option<u64>, Seq<char>) {
    (p.name@, p.value_type@, text_list(p.allowed_values@), p.minimum, p.maximum, p.description@)
}

/// A tool as plain values: name, description, properties, required properties.
pub open spec fn tool_view(t: ToolInfo) -> (
    Seq<char>,
    Seq<char>,
    Seq<(Seq<char>, Seq<char>, Seq<Seq<char>>, Option<u64>, Option<u64>, Seq<char>)>,
    Seq<Seq<char>>,
) {
    (
        t.name@,
        t.description@,
        t.input_schema.properties@.map_values(|p: SchemaProperty| property_view(p)),
        text_list(t.input_schema.required@),
    )
}

/// The tools that the server offers, in the order it lists them.
pub open spec fn tool_catalog_spec() -> Seq<(
    Seq<char>,
    Seq<char>,
    Seq<(Seq<char>, Seq<char>, Seq<Seq<char>>, Option<u64>, Option<u64>, Seq<char>)>,
    Seq<Seq<char>>,
)> {
    seq![
        ("list_weather_stations"@, "List MeteoSwiss current-weather station IDs and names from the latest 10-minute precipitation layer."@, seq![], seq![]),
        ("get_precipitation"@, "Get MeteoSwiss precipitation measurements from the official current layers.\n\nParameters:\n- interval: '10min' (default), '1h', '24h', or '48h'\n- station_id: Optional station ID filter such as 'ARO' or 'RAG'."@, seq![("interval"@, "string"@, seq!["10min"@, "1h"@, "24h"@, "48h"@], None, None, "Measurement interval. Defaults to '10min'."@), ("station_id"@, "string"@, seq![], None, None, "Optional MeteoSwiss station ID filter."@)], seq![]),
        ("get_wind_speed_10min"@, "Get the MeteoSwiss 10-minute mean wind speed layer. Optionally filter by station ID."@, seq![("station_id"@, "string"@, seq![], None, None, "Optional MeteoSwiss station ID filter."@)], seq![]),
        ("get_wind_gusts_10min"@, "Get the MeteoSwiss 10-minute maximum 1-second wind gust layer. Optionally filter by station ID."@, seq![("station_id"@, "string"@, seq![], None, None, "Optional MeteoSwiss station ID filter."@)], seq![]),
        ("get_sunshine"@, "Get MeteoSwiss sunshine duration measurements.\n\nParameters:\n- interval: '10min' (default) or '1d'\n- station_id: Optional MeteoSwiss station ID filter such as 'ARO' or 'RAG'."@, seq![("interval"@, "string"@, seq!["10min"@, "1d"@], None, None, "Measurement interval. Defaults to '10min'."@), ("station_id"@, "string"@, seq![], None, None, "Optional MeteoSwiss station ID filter."@)], seq![]),
        ("get_global_radiation"@, "Get MeteoSwiss global radiation measurements.\n\nParameters:\n- interval: '10min' (default) or '1d'\n- station_id: Optional MeteoSwiss station ID filter such as 'ARO' or 'RAG'."@, seq![("interval"@, "string"@, seq!["10min"@, "1d"@], None, None, "Measurement interval. Defaults to '10min'."@), ("station_id"@, "string"@, seq![], None, None, "Optional MeteoSwiss station ID filter."@)], seq![]),
        ("list_pollen_stations"@, "List MeteoSwiss pollen monitoring stations from the official pollen network dataset."@, seq![], seq![]),
        ("get_pollen_measurement"@, "Get the latest hourly species-specific pollen measurements.\n\nParameters:\n- species: one of 'alder', 'ash', 'beech', 'birch', 'grass', 'hazel', or 'oak'\n- station_id: Optional pollen station ID filter such as 'PBE' or 'PLO'."@, seq![("species"@, "string"@, seq!["alder"@, "ash"@, "beech"@, "birch"@, "grass"@, "hazel"@, "oak"@], None, None, "Pollen species to query."@), ("station_id"@, "string"@, seq![], None, None, "Optional pollen station ID filter."@)], seq!["species"@]),
        ("get_local_forecast"@, "Get the latest MeteoSwiss local forecast for a point with a daily summary and hourly breakdown. The response includes temperature, precipitation totals and probability, wind, gusts, wind direction, cloud cover, sunshine duration, global radiation, diffuse radiation, and weather icon codes.\n\nParameters:\n- point_query: point ID, station abbreviation, postal code, or point name\n- hours: Optional number of hourly forecast timestamps to return (default 24)."@, seq![("point_query"@, "string"@, seq![], None, None, "Point ID, station abbreviation, postal code, or point name."@), ("hours"@, "integer"@, seq![], Some(1u64), Some(96u64), "How many forecast timestamps to return. Defaults to 24."@)], seq!["point_query"@]),
    ]
}

fn schema_property(
    name: &str,
    value_type: &str,
    allowed_values: Vec<String>,
    minimum: Option<u64>,
    maximum: Option<u64>,
    description: &str,
) -> (r: SchemaProperty)
    ensures
        property_view(r) == (name@, value_type@, text_list(allowed_values@), minimum, maximum, description@),
{
    SchemaProperty {
        name: owned(name),
        value_type: owned(value_type),
        allowed_values,
        minimum,
        maximum,
        description: owned(description),
    }
}

fn tool_info(name: &str, description: &str, properties: Vec<SchemaProperty>, required: Vec<String>) -> (r: ToolInfo)
    ensures
        r.input_schema.schema_type@ == OBJECT_SCHEMA_TYPE@,
        tool_view(r) == (
            name@,
            description@,
            properties@.map_values(|p: SchemaProperty| property_view(p)),
            text_list(required@),
        ),
{
    ToolInfo {
        name: owned(name),
        description: owned(description),
        input_schema: InputSchema { schema_type: owned(OBJECT_SCHEMA_TYPE), properties, required },
    }
}

/// The tools that the server offers: their names, descriptions and input
/// schemas, in the order of `tools/list`.
#[verifier::rlimit(50)]
pub fn tool_catalog() -> (tools: Vec<ToolInfo>)
    ensures
        tools@.map_values(|t: ToolInfo| tool_view(t)) == tool_catalog_spec(),
        object_schemas(tools@),
{
    let mut tools: Vec<ToolInfo> = Vec::new();
    let mut properties: Vec<SchemaProperty> = Vec::new();
    assert(properties@.map_values(|p: SchemaProperty| property_view(p)) =~= seq![]);
    let mut required: Vec<String> = Vec::new();
    assert(text_list(required@) =~= seq![]);
    tools.push(tool_info("list_weather_stations", "List MeteoSwiss current-weather station IDs and names from the latest 10-minute precipitation layer.", properties, required));
    assert(tool_view(tools@[0]) == tool_catalog_spec()[0]);
    let mut properties: Vec<SchemaProperty> = Vec::new();
    let mut allowed: Vec<String> = Vec::new();
    allowed.push(owned("10min"));
    allowed.push(owned("1h"));
    allowed.push(owned("24h"));
    allowed.push(owned("48h"));
    assert(text_list(allowed@) =~= seq!["10min"@, "1h"@, "24h"@, "48h"@]);
    properties.push(schema_property("interval", "string", allowed, None, None, "Measurement interval. Defaults to '10min'."));
    let mut allowed: Vec<String> = Vec::new();
    assert(text_list(allowed@) =~= seq![]);
    properties.push(schema_property("station_id", "string", allowed, None, None, "Optional MeteoSwiss station ID filter."));
    assert(properties@.map_values(|p: SchemaProperty| property_view(p)) =~= seq![("interval"@, "string"@, seq!["10min"@, "1h"@, "24h"@, "48h"@], None, None, "Measurement interval. Defaults to '10min'."@), ("station_id"@, "string"@, seq![], None, None, "Optional MeteoSwiss station ID filter."@)]);
    let mut required: Vec<String> = Vec::new();
    assert(text_list(required@) =~= seq![]);
    tools.push(tool_info("get_precipitation", "Get MeteoSwiss precipitation measurements from the official current layers.\n\nParameters:\n- interval: '10min' (default), '1h', '24h', or '48h'\n- station_id: Optional station ID filter such as 'ARO' or 'RAG'.", properties, required));
    assert(tool_view(tools@[1]) == tool_catalog_spec()[1]);
    let mut properties: Vec<SchemaProperty> = Vec::new();
    let mut allowed: Vec<String> = Vec::new();
    assert(text_list(allowed@) =~= seq![]);
    properties.push(schema_property("station_id", "string", allowed, None, None, "Optional MeteoSwiss station ID filter."));
    assert(properties@.map_values(|p: SchemaProperty| property_view(p)) =~= seq![("station_id"@, "string"@, seq![], None, None, "Optional MeteoSwiss station ID filter."@)]);
    let mut required: Vec<String> = Vec::new();
    assert(text_list(required@) =~= seq![]);
    tools.push(tool_info("get_wind_speed_10min", "Get the MeteoSwiss 10-minute mean wind speed layer. Optionally filter by station ID.", properties, required));
    assert(tool_view(tools@[2]) == tool_catalog_spec()[2]);
    let mut properties: Vec<SchemaProperty> = Vec::new();
    let mut allowed: Vec<String> = Vec::new();
    assert(text_list(allowed@) =~= seq![]);
    properties.push(schema_property("station_id", "string", allowed, None, None, "Optional MeteoSwiss station ID filter."));
    assert(properties@.map_values(|p: SchemaProperty| property_view(p)) =~= seq![("station_id"@, "string"@, seq![], None, None, "Optional MeteoSwiss station ID filter."@)]);
    let mut required: Vec<String> = Vec::new();
    assert(text_list(required@) =~= seq![]);
    tools.push(tool_info("get_wind_gusts_10min", "Get the MeteoSwiss 10-minute maximum 1-second wind gust layer. Optionally filter by station ID.", properties, required));
    assert(tool_view(tools@[3]) == tool_catalog_spec()[3]);
    let mut properties: Vec<SchemaProperty> = Vec::new();
    let mut allowed: Vec<String> = Vec::new();
    allowed.push(owned("10min"));
    allowed.push(owned("1d"));
    assert(text_list(allowed@) =~= seq!["10min"@, "1d"@]);
    properties.push(schema_property("interval", "string", allowed, None, None, "Measurement interval. Defaults to '10min'."));
    let mut allowed: Vec<String> = Vec::new();
    assert(text_list(allowed@) =~= seq![]);
    properties.push(schema_property("station_id", "string", allowed, None, None, "Optional MeteoSwiss station ID filter."));
    assert(properties@.map_values(|p: SchemaProperty| property_view(p)) =~= seq![("interval"@, "string"@, seq!["10min"@, "1d"@], None, None, "Measurement interval. Defaults to '10min'."@), ("station_id"@, "string"@, seq![], None, None, "Optional MeteoSwiss station ID filter."@)]);
    let mut required: Vec<String> = Vec::new();
    assert(text_list(required@) =~= seq![]);
    tools.push(tool_info("get_sunshine", "Get MeteoSwiss sunshine duration measurements.\n\nParameters:\n- interval: '10min' (default) or '1d'\n- station_id: Optional MeteoSwiss station ID filter such as 'ARO' or 'RAG'.", properties, required));
    assert(tool_view(tools@[4]) == tool_catalog_spec()[4]);
    let mut properties: Vec<SchemaProperty> = Vec::new();
    let mut allowed: Vec<String> = Vec::new();
    allowed.push(owned("10min"));
    allowed.push(owned("1d"));
    assert(text_list(allowed@) =~= seq!["10min"@, "1d"@]);
    properties.push(schema_property("interval", "string", allowed, None, None, "Measurement interval. Defaults to '10min'."));
    let mut allowed: Vec<String> = Vec::new();
    assert(text_list(allowed@) =~= seq![]);
    properties.push(schema_property("station_id", "string", allowed, None, None, "Optional MeteoSwiss station ID filter."));
    assert(properties@.map_values(|p: SchemaProperty| property_view(p)) =~= seq![("interval"@, "string"@, seq!["10min"@, "1d"@], None, None, "Measurement interval. Defaults to '10min'."@), ("station_id"@, "string"@, seq![], None, None, "Optional MeteoSwiss station ID filter."@)]);
    let mut required: Vec<String> = Vec::new();
    assert(text_list(required@) =~= seq![]);
    tools.push(tool_info("get_global_radiation", "Get MeteoSwiss global radiation measurements.\n\nParameters:\n- interval: '10min' (default) or '1d'\n- station_id: Optional MeteoSwiss station ID filter such as 'ARO' or 'RAG'.", properties, required));
    assert(tool_view(tools@[5]) == tool_catalog_spec()[5]);
    let mut properties: Vec<SchemaProperty> = Vec::new();
    assert(properties@.map_values(|p: SchemaProperty| property_view(p)) =~= seq![]);
    let mut required: Vec<String> = Vec::new();
    assert(text_list(required@) =~= seq![]);
    tools.push(tool_info("list_pollen_stations", "List MeteoSwiss pollen monitoring stations from the official pollen network dataset.", properties, required));
    assert(tool_view(tools@[6]) == tool_catalog_spec()[6]);
    let mut properties: Vec<SchemaProperty> = Vec::new();
    let mut allowed: Vec<String> = Vec::new();
    allowed.push(owned("alder"));
    allowed.push(owned("ash"));
    allowed.push(owned("beech"));
    allowed.push(owned("birch"));
    allowed.push(owned("grass"));
    allowed.push(owned("hazel"));
    allowed.push(owned("oak"));
    assert(text_list(allowed@) =~= seq!["alder"@, "ash"@, "beech"@, "birch"@, "grass"@, "hazel"@, "oak"@]);
    properties.push(schema_property("species", "string", allowed, None, None, "Pollen species to query."));
    let mut allowed: Vec<String> = Vec::new();
    assert(text_list(allowed@) =~= seq![]);
    properties.push(schema_property("station_id", "string", allowed, None, None, "Optional pollen station ID filter."));
    assert(properties@.map_values(|p: SchemaProperty| property_view(p)) =~= seq![("species"@, "string"@, seq!["alder"@, "ash"@, "beech"@, "birch"@, "grass"@, "hazel"@, "oak"@], None, None, "Pollen species to query."@), ("station_id"@, "string"@, seq![], None, None, "Optional pollen station ID filter."@)]);
    let mut required: Vec<String> = Vec::new();
    required.push(owned("species"));
    assert(text_list(required@) =~= seq!["species"@]);
    tools.push(tool_info("get_pollen_measurement", "Get the latest hourly species-specific pollen measurements.\n\nParameters:\n- species: one of 'alder', 'ash', 'beech', 'birch', 'grass', 'hazel', or 'oak'\n- station_id: Optional pollen station ID filter such as 'PBE' or 'PLO'.", properties, required));
    assert(tool_view(tools@[7]) == tool_catalog_spec()[7]);
    let mut properties: Vec<SchemaProperty> = Vec::new();
    let mut allowed: Vec<String> = Vec::new();
    assert(text_list(allowed@) =~= seq![]);
    properties.push(schema_property("point_query", "string", allowed, None, None, "Point ID, station abbreviation, postal code, or point name."));
    let mut allowed: Vec<String> = Vec::new();
    assert(text_list(allowed@) =~= seq![]);
    properties.push(schema_property("hours", "integer", allowed, Some(1), Some(96), "How many forecast timestamps to return. Defaults to 24."));
    assert(properties@.map_values(|p: SchemaProperty| property_view(p)) =~= seq![("point_query"@, "string"@, seq![], None, None, "Point ID, station abbreviation, postal code, or point name."@), ("hours"@, "integer"@, seq![], Some(1u64), Some(96u64), "How many forecast timestamps to return. Defaults to 24."@)]);
    let mut required: Vec<String> = Vec::new();
    required.push(owned("point_query"));
    assert(text_list(required@) =~= seq!["point_query"@]);
    tools.push(tool_info("get_local_forecast", "Get the latest MeteoSwiss local forecast for a point with a daily summary and hourly breakdown. The response includes temperature, precipitation totals and probability, wind, gusts, wind direction, cloud cover, sunshine duration, global radiation, diffuse radiation, and weather icon codes.\n\nParameters:\n- point_query: point ID, station abbreviation, postal code, or point name\n- hours: Optional number of hourly forecast timestamps to return (default 24).", properties, required));
    assert(tool_view(tools@[8]) == tool_catalog_spec()[8]);
    assert(tools@.map_values(|t: ToolInfo| tool_view(t)) =~= tool_catalog_spec());
    tools
}

/// The answer to `tools/list`: the JSON-RPC version, the request's id and the
/// tools on offer.
#[derive(Debug)]
pub struct ToolsListResponse {
    pub jsonrpc: String,
    pub id: Option<serde_json::Value>,
    pub tools: Vec<ToolInfo>,
}

/// `r` answers a `tools/list` request with this id: it carries the id and the
/// whole tool catalog, every schema an object.
pub open spec fn lists_tools(r: ToolsListResponse, id: serde_json::Value) -> bool {
    &&& r.jsonrpc@ == JSONRPC_VERSION@
    &&& r.id == Some(id)
    &&& r.tools@.map_values(|t: ToolInfo| tool_view(t)) == tool_catalog_spec()
    &&& object_schemas(r.tools@)
}

/// The answer to a `tools/list` request with this id.
pub fn tools_list_response(id: serde_json::Value) -> (r: ToolsListResponse)
    ensures
        lists_tools(r, id),
{
    ToolsListResponse { jsonrpc: owned(JSONRPC_VERSION), id: Some(id), tools: tool_catalog() }
}

/// A downloadable asset of a STAC item.
#[derive(Debug, Clone)]
pub struct StacAsset {
    pub href: String,
}

} // verus!
