//! The JSON-RPC data shapes: requests, responses, errors, and the argument
//! records of each tool, with verified extraction of each record from an
//! opaque params value.
//!
//! A response carries exactly one of `result` and `error`, never both and
//! never neither; every builder here ensures that.

use crate::json::{obj_get, spec_lookup, JsonData, JsonValue};
use vstd::prelude::*;
use vstd::string::*;

verus! {

/// One incoming message.
pub struct JsonRpcRequest {
    pub jsonrpc: String,
    pub id: Option<JsonValue>,
    pub method: String,
    pub params: Option<JsonValue>,
}

/// One error report inside a response.
pub struct JsonRpcError {
    pub code: i32,
    pub message: String,
    pub data: Option<JsonValue>,
}

/// One outgoing message.
pub struct JsonRpcResponse {
    pub jsonrpc: String,
    pub id: Option<JsonValue>,
    pub result: Option<JsonValue>,
    pub error: Option<JsonRpcError>,
}

/// A response is well-formed when it is marked for the right protocol and
/// carries a result or an error, never both and never neither.
pub open spec fn response_wf(r: JsonRpcResponse) -> bool {
    r.jsonrpc@ == "2.0"@ && (r.result is Some <==> r.error is None)
}

/// Builds the error response for `id` with the given stable code.
pub fn create_error_response(id: Option<JsonValue>, code: i32, message: &str) -> (r: JsonRpcResponse)
    ensures
        response_wf(r),
        r.id == id,
        r.result is None,
        r.error matches Some(e) && e.code == code && e.message@ == message@ && e.data is None,
{
    JsonRpcResponse {
        jsonrpc: String::from_str("2.0"),
        id,
        result: None,
        error: Some(JsonRpcError { code, message: String::from_str(message), data: None }),
    }
}

/// Builds the success response for `id` carrying `result`.
pub fn create_ok_response(id: Option<JsonValue>, result: JsonValue) -> (r: JsonRpcResponse)
    ensures
        response_wf(r),
        r.id == id,
        r.error is None,
        r.result matches Some(v) && v@ == result@,
{
    JsonRpcResponse { jsonrpc: String::from_str("2.0"), id, result: Some(result), error: None }
}

/// The `initialize` params: an optional block of initialization options.
pub struct InitializeParams {
    pub initialization_options: Option<InitializationOptions>,
}

/// The options block of `initialize`: optional server settings.
pub struct InitializationOptions {
    pub settings: Option<ServerSettings>,
}

/// Server settings a client may send: an optional connection URL override.
pub struct ServerSettings {
    pub database_url: Option<String>,
}

/// The server's name and version, reported from `initialize`.
pub struct ServerInfo {
    pub name: String,
    pub version: String,
}

/// What a successful `initialize` returns.
pub struct InitializeResult {
    pub protocol_version: String,
    pub capabilities: ServerCapabilities,
    pub server_info: ServerInfo,
}

/// The capability block of the `initialize` result.
pub struct ServerCapabilities {
    pub tools: Option<ToolsCapability>,
}

/// The tools capability flag.
pub struct ToolsCapability {
    pub list_changed: bool,
}

/// One tool descriptor of `tools/list`.
pub struct Tool {
    pub name: String,
    pub description: String,
    pub input_schema: JsonValue,
}

/// The result of `tools/list`.
pub struct ToolsList {
    pub tools: Vec<Tool>,
}

/// The params of `tools/call`: a tool name and its arguments.
pub struct ToolCallParams {
    pub name: String,
    pub arguments: JsonValue,
}

/// The arguments of the schema tool.
pub struct SchemaArguments {
    pub table_name: String,
}

/// The arguments of the query tool.
pub struct QueryArguments {
    pub query: String,
    pub database: Option<String>,
}

/// The arguments of the insert tool.
pub struct InsertArguments {
    pub table_name: String,
    pub data: JsonValue,
}

/// The arguments of the update tool.
pub struct UpdateArguments {
    pub table_name: String,
    pub data: JsonValue,
    pub conditions: JsonValue,
}

/// The arguments of the delete tool.
pub struct DeleteArguments {
    pub table_name: String,
    pub conditions: JsonValue,
}

/// The value bound to `key` if `v` is an object that binds it.
pub open spec fn spec_field(v: JsonData, key: Seq<char>) -> Option<JsonData> {
    match v {
        JsonData::Obj(entries) => spec_lookup(entries, key),
        _ => None,
    }
}

/// `key` is bound to a string in object `v`.
pub open spec fn spec_string_field(v: JsonData, key: Seq<char>) -> Option<Seq<char>> {
    match spec_field(v, key) {
        Some(JsonData::Str(s)) => Some(s),
        _ => None,
    }
}

/// Looks a field up in `v`, returning a copy of its value.
fn get_field(v: &JsonValue, key: &str) -> (r: Option<JsonValue>)
    ensures
        match r {
            Some(f) => spec_field(v@, key@) == Some(f@),
            None => spec_field(v@, key@) is None,
        },
{
    match v {
        JsonValue::Obj(entries) => match obj_get(entries, key) {
            Some(f) => Some(f.clone()),
            None => None,
        },
        _ => None,
    }
}

/// Looks a string field up in `v`.
fn get_string_field(v: &JsonValue, key: &str) -> (r: Option<String>)
    ensures
        match r {
            Some(s) => spec_string_field(v@, key@) == Some(s@),
            None => spec_string_field(v@, key@) is None,
        },
{
    match v {
        JsonValue::Obj(entries) => match obj_get(entries, key) {
            Some(JsonValue::Str(s)) => Some(s.clone()),
            _ => None,
        },
        _ => None,
    }
}

/// The connection URL override buried in the `initialize` params, if the
/// whole chain of options, settings and URL is present and well-typed.
pub open spec fn spec_database_override(params: Option<JsonData>) -> Option<Seq<char>> {
    match params {
        None => None,
        Some(p) => match spec_field(p, "initializationOptions"@) {
            Some(io) => match spec_field(io, "settings"@) {
                Some(st) => spec_string_field(st, "databaseUrl"@),
                None => None,
            },
            None => None,
        },
    }
}

/// The view of an optional JSON value.
pub open spec fn opt_view(v: Option<JsonValue>) -> Option<JsonData> {
    match v {
        None => None,
        Some(x) => Some(x@),
    }
}

/// Reads the `initialize` params into their record, keeping whatever parts
/// of the options chain are present and well-typed.
pub fn parse_initialize_params(params: &Option<JsonValue>) -> (r: InitializeParams)
    ensures
        ({
            let url = spec_database_override(opt_view(*params));
            match r.initialization_options {
                Some(io) => match io.settings {
                    Some(st) => match st.database_url {
                        Some(u) => url == Some(u@),
                        None => url is None,
                    },
                    None => url is None,
                },
                None => url is None,
            }
        }),
{
    let p = match params {
        Some(p) => p,
        None => {
            return InitializeParams { initialization_options: None };
        },
    };
    let io = match get_field(p, "initializationOptions") {
        Some(io) => io,
        None => {
            return InitializeParams { initialization_options: None };
        },
    };
    let st = match get_field(&io, "settings") {
        Some(st) => st,
        None => {
            return InitializeParams {
                initialization_options: Some(InitializationOptions { settings: None }),
            };
        },
    };
    let database_url = get_string_field(&st, "databaseUrl");
    InitializeParams {
        initialization_options: Some(
            InitializationOptions { settings: Some(ServerSettings { database_url }) },
        ),
    }
}

/// Extracts the connection URL override from the `initialize` params, if
/// one is present; anything malformed falls back to the configuration.
pub fn database_url_override(params: &Option<JsonValue>) -> (r: Option<String>)
    ensures
        match r {
            Some(u) => spec_database_override(opt_view(*params)) == Some(u@),
            None => spec_database_override(opt_view(*params)) is None,
        },
{
    match parse_initialize_params(params).initialization_options {
        Some(io) => match io.settings {
            Some(st) => st.database_url,
            None => None,
        },
        None => None,
    }
}

/// Parses the params of `tools/call`: an object with a string `name` and
/// any `arguments` value.
pub fn parse_tool_call_params(params: &JsonValue) -> (r: Option<ToolCallParams>)
    ensures
        match r {
            Some(p) => spec_string_field(params@, "name"@) == Some(p.name@) && spec_field(
                params@,
                "arguments"@,
            ) == Some(p.arguments@),
            None => spec_string_field(params@, "name"@) is None || spec_field(
                params@,
                "arguments"@,
            ) is None,
        },
{
    let name = match get_string_field(params, "name") {
        Some(n) => n,
        None => {
            return None;
        },
    };
    let arguments = match get_field(params, "arguments") {
        Some(a) => a,
        None => {
            return None;
        },
    };
    Some(ToolCallParams { name, arguments })
}

/// Parses the schema tool's arguments: a string `table_name`.
pub fn parse_schema_arguments(v: &JsonValue) -> (r: Option<SchemaArguments>)
    ensures
        match r {
            Some(a) => spec_string_field(v@, "table_name"@) == Some(a.table_name@),
            None => spec_string_field(v@, "table_name"@) is None,
        },
{
    match get_string_field(v, "table_name") {
        Some(t) => Some(SchemaArguments { table_name: t }),
        None => None,
    }
}

/// Parses the query tool's arguments: a string `query` and an optional
/// string `database`.
pub fn parse_query_arguments(v: &JsonValue) -> (r: Option<QueryArguments>)
    ensures
        match r {
            Some(a) => spec_string_field(v@, "query"@) == Some(a.query@) && (match a.database {
                Some(d) => spec_string_field(v@, "database"@) == Some(d@),
                None => spec_string_field(v@, "database"@) is None,
            }),
            None => spec_string_field(v@, "query"@) is None,
        },
{
    let query = match get_string_field(v, "query") {
        Some(q) => q,
        None => {
            return None;
        },
    };
    let database = get_string_field(v, "database");
    Some(QueryArguments { query, database })
}

/// Parses the insert tool's arguments: a string `table_name` and a `data`
/// value.
pub fn parse_insert_arguments(v: &JsonValue) -> (r: Option<InsertArguments>)
    ensures
        match r {
            Some(a) => spec_string_field(v@, "table_name"@) == Some(a.table_name@) && spec_field(
                v@,
                "data"@,
            ) == Some(a.data@),
            None => spec_string_field(v@, "table_name"@) is None || spec_field(v@, "data"@) is None,
        },
{
    let table_name = match get_string_field(v, "table_name") {
        Some(t) => t,
        None => {
            return None;
        },
    };
    let data = match get_field(v, "data") {
        Some(d) => d,
        None => {
            return None;
        },
    };
    Some(InsertArguments { table_name, data })
}

/// Parses the update tool's arguments: a string `table_name`, a `data`
/// value and a `conditions` value.
pub fn parse_update_arguments(v: &JsonValue) -> (r: Option<UpdateArguments>)
    ensures
        match r {
            Some(a) => spec_string_field(v@, "table_name"@) == Some(a.table_name@) && spec_field(
                v@,
                "data"@,
            ) == Some(a.data@) && spec_field(v@, "conditions"@) == Some(a.conditions@),
            None => spec_string_field(v@, "table_name"@) is None || spec_field(v@, "data"@) is None
                || spec_field(v@, "conditions"@) is None,
        },
{
    let table_name = match get_string_field(v, "table_name") {
        Some(t) => t,
        None => {
            return None;
        },
    };
    let data = match get_field(v, "data") {
        Some(d) => d,
        None => {
            return None;
        },
    };
    let conditions = match get_field(v, "conditions") {
        Some(c) => c,
        None => {
            return None;
        },
    };
    Some(UpdateArguments { table_name, data, conditions })
}

/// Parses the delete tool's arguments: a string `table_name` and a
/// `conditions` value.
pub fn parse_delete_arguments(v: &JsonValue) -> (r: Option<DeleteArguments>)
    ensures
        match r {
            Some(a) => spec_string_field(v@, "table_name"@) == Some(a.table_name@) && spec_field(
                v@,
                "conditions"@,
            ) == Some(a.conditions@),
            None => spec_string_field(v@, "table_name"@) is None || spec_field(
                v@,
                "conditions"@,
            ) is None,
        },
{
    let table_name = match get_string_field(v, "table_name") {
        Some(t) => t,
        None => {
            return None;
        },
    };
    let conditions = match get_field(v, "conditions") {
        Some(c) => c,
        None => {
            return None;
        },
    };
    Some(DeleteArguments { table_name, conditions })
}

} // verus!
