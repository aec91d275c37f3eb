//! The request router: the two-state session, the `initialize` result, the
//! tool catalog, and the method dispatch.
//!
//! The session is `Uninitialized` until one `initialize` call succeeds;
//! every tool call before that is answered with the not-initialized error
//! and never reaches the database. With dangerous queries disallowed the
//! three mutating tools are absent from the catalog and rejected by name.

use crate::config::{mysql_url, Args};
use crate::error::{DbError, CODE_INIT_FAILED, CODE_INVALID_PARAMS, CODE_METHOD_NOT_FOUND,
    CODE_NOT_INITIALIZED};
use crate::ident::valid_identifier;
use crate::json::{jv_view, jv_views, lemma_jv_entries_push, JsonData, JsonValue};
use crate::mutate::{DeletePlan, InsertPlan, UpdatePlan};
use crate::query::QueryExec;
use crate::rpc::{create_error_response, create_ok_response, response_wf, InitializeResult,
    JsonRpcRequest, JsonRpcResponse, ServerCapabilities, ServerInfo, Tool, ToolsCapability,
    ToolsList};
use crate::schema::SchemaPlan;
use vstd::prelude::*;
use vstd::string::*;

verus! {

/// The session's two states: a pool exists exactly in the second.
pub enum SessionState {
    Uninitialized,
    Initialized,
}

/// What the router decided for one request: either the finished response,
/// or the one database operation the driver edge must perform.
pub enum RouteOutcome {
    /// Answer with this response; nothing touches the database.
    Respond(JsonRpcResponse),
    /// Open the connection pool for this URL, then report to
    /// `finish_initialize`.
    Connect { id: Option<JsonValue>, url: String },
    /// Fetch schema metadata as the plan says.
    RunSchema { id: Option<JsonValue>, plan: SchemaPlan },
    /// Drive the query protocol.
    RunQuery { id: Option<JsonValue>, machine: QueryExec },
    /// Execute the insert plan.
    RunInsert { id: Option<JsonValue>, plan: InsertPlan },
    /// Execute the update plan.
    RunUpdate { id: Option<JsonValue>, plan: UpdatePlan },
    /// Execute the delete plan.
    RunDelete { id: Option<JsonValue>, plan: DeletePlan },
}

/// Builds the static `initialize` result.
pub fn initialize_result() -> (r: InitializeResult)
    ensures
        r.protocol_version@ == "2025-03-26"@,
        r.capabilities.tools matches Some(t) && t.list_changed == true,
        r.server_info.name@ == "mcp-server-mysql"@,
        r.server_info.version@ == "0.1.0"@,
{
    InitializeResult {
        protocol_version: String::from_str("2025-03-26"),
        capabilities: ServerCapabilities {
            tools: Some(ToolsCapability { list_changed: true }),
        },
        server_info: ServerInfo {
            name: String::from_str("mcp-server-mysql"),
            version: String::from_str("0.1.0"),
        },
    }
}

/// The JSON shape of the `initialize` result.
pub open spec fn initialize_result_data(r: InitializeResult) -> JsonData {
    JsonData::Obj(
        seq![
            ("protocolVersion"@, JsonData::Str(r.protocol_version@)),
            (
                "capabilities"@,
                JsonData::Obj(
                    seq![
                        (
                            "tools"@,
                            match r.capabilities.tools {
                                Some(t) => JsonData::Obj(
                                    seq![("listChanged"@, JsonData::Bool(t.list_changed))],
                                ),
                                None => JsonData::Null,
                            },
                        ),
                    ],
                ),
            ),
            (
                "serverInfo"@,
                JsonData::Obj(
                    seq![
                        ("name"@, JsonData::Str(r.server_info.name@)),
                        ("version"@, JsonData::Str(r.server_info.version@)),
                    ],
                ),
            ),
        ],
    )
}

/// Encodes the `initialize` result as JSON.
pub fn initialize_result_json(r: InitializeResult) -> (out: JsonValue)
    ensures
        out@ == initialize_result_data(r),
{
    let ghost rg = r;
    let InitializeResult { protocol_version, capabilities, server_info } = r;
    let tools_json = match capabilities.tools {
        Some(t) => {
            let mut tf: Vec<(String, JsonValue)> = Vec::new();
            tf.push((String::from_str("listChanged"), JsonValue::Bool(t.list_changed)));
            proof {
                lemma_jv_entries_push(Seq::empty(), tf@[0]);
                assert(Seq::empty().push(tf@[0]) =~= tf@);
            }
            let o = JsonValue::Obj(tf);
            proof {
                assert(crate::json::jv_entries(o->Obj_0@) =~= seq![
                    ("listChanged"@, JsonData::Bool(t.list_changed)),
                ]);
                assert(o@ == JsonData::Obj(
                    seq![("listChanged"@, JsonData::Bool(t.list_changed))],
                ));
            }
            o
        },
        None => JsonValue::Null,
    };
    let ghost tjv = tools_json@;
    proof {
        assert(tjv == (match rg.capabilities.tools {
            Some(t) => JsonData::Obj(seq![("listChanged"@, JsonData::Bool(t.list_changed))]),
            None => JsonData::Null,
        }));
    }
    let mut cf: Vec<(String, JsonValue)> = Vec::new();
    cf.push((String::from_str("tools"), tools_json));
    proof {
        lemma_jv_entries_push(Seq::empty(), cf@[0]);
        assert(Seq::empty().push(cf@[0]) =~= cf@);
        assert(jv_view(cf@[0].1) == tjv);
    }
    let caps_json = JsonValue::Obj(cf);
    let ghost caps_v = caps_json@;
    proof {
        assert(crate::json::jv_entries(cf@) =~= seq![("tools"@, tjv)]);
        assert(caps_v == JsonData::Obj(seq![("tools"@, tjv)]));
    }
    let mut sf: Vec<(String, JsonValue)> = Vec::new();
    sf.push((String::from_str("name"), JsonValue::Str(server_info.name)));
    let ghost s1 = sf@;
    proof {
        lemma_jv_entries_push(Seq::empty(), s1[0]);
        assert(Seq::empty().push(s1[0]) =~= s1);
    }
    sf.push((String::from_str("version"), JsonValue::Str(server_info.version)));
    let ghost s2 = sf@;
    proof {
        lemma_jv_entries_push(s1, s2[1]);
        assert(s1.push(s2[1]) =~= s2);
    }
    let info_json = JsonValue::Obj(sf);
    let ghost info_v = info_json@;
    proof {
        assert(crate::json::jv_entries(s2) =~= seq![
            ("name"@, JsonData::Str(rg.server_info.name@)),
            ("version"@, JsonData::Str(rg.server_info.version@)),
        ]);
        assert(info_v == JsonData::Obj(seq![
            ("name"@, JsonData::Str(rg.server_info.name@)),
            ("version"@, JsonData::Str(rg.server_info.version@)),
        ]));
    }
    let mut f: Vec<(String, JsonValue)> = Vec::new();
    f.push((String::from_str("protocolVersion"), JsonValue::Str(protocol_version)));
    let ghost f1 = f@;
    proof {
        lemma_jv_entries_push(Seq::empty(), f1[0]);
        assert(Seq::empty().push(f1[0]) =~= f1);
    }
    f.push((String::from_str("capabilities"), caps_json));
    let ghost f2 = f@;
    proof {
        lemma_jv_entries_push(f1, f2[1]);
        assert(f1.push(f2[1]) =~= f2);
    }
    f.push((String::from_str("serverInfo"), info_json));
    let ghost f3 = f@;
    proof {
        lemma_jv_entries_push(f2, f3[2]);
        assert(f2.push(f3[2]) =~= f3);
    }
    let out = JsonValue::Obj(f);
    proof {
        assert(jv_view(f3[1].1) == caps_v);
        assert(jv_view(f3[2].1) == info_v);
        assert(crate::json::jv_entries(out->Obj_0@) =~= initialize_result_data(rg)->Obj_0);
        assert(out@ =~= initialize_result_data(rg));
    }
    out
}

/// Applies the outcome of the connection attempt that `initialize` asked
/// for: success stores the pool (the session becomes `Initialized`) and
/// returns the protocol metadata; failure leaves the state alone and
/// reports the connection error.
pub fn finish_initialize(state: &mut SessionState, id: Option<JsonValue>, outcome: Result<
    (),
    String,
>) -> (r: JsonRpcResponse)
    ensures
        response_wf(r),
        r.id == id,
        match outcome {
            Ok(_) => *final(state) is Initialized && r.error is None && (
            r.result matches Some(v) && v@ == spec_initialize_data()),
            Err(e) => *final(state) == *old(state) && r.result is None && (
            r.error matches Some(je) && je.code == CODE_INIT_FAILED && je.message@
                == "Database connection failed: "@ + e@),
        },
{
    match outcome {
        Ok(_) => {
            *state = SessionState::Initialized;
            let r = initialize_result();
            let ghost rg = r;
            let result = initialize_result_json(r);
            proof {
                let a = initialize_result_data(rg);
                let b = spec_initialize_data();
                assert(rg.capabilities.tools matches Some(t) && t.list_changed);
                assert(seq![("listChanged"@, JsonData::Bool(true))] =~= a->Obj_0[1].1->Obj_0[0].1->Obj_0);
                assert(a->Obj_0[1].1->Obj_0 =~= b->Obj_0[1].1->Obj_0);
                assert(a->Obj_0[1].1 == b->Obj_0[1].1);
                assert(a->Obj_0[2].1->Obj_0 =~= b->Obj_0[2].1->Obj_0);
                assert(a->Obj_0[2].1 == b->Obj_0[2].1);
                assert(a->Obj_0 =~= b->Obj_0);
                assert(a == b);
            }
            create_ok_response(id, result)
        },
        Err(e) => {
            let message = String::from_str("Database connection failed: ").concat(e.as_str());
            create_error_response(id, CODE_INIT_FAILED, message.as_str())
        },
    }
}

/// The exact JSON of a successful `initialize` response's result.
pub open spec fn spec_initialize_data() -> JsonData {
    JsonData::Obj(
        seq![
            ("protocolVersion"@, JsonData::Str("2025-03-26"@)),
            (
                "capabilities"@,
                JsonData::Obj(
                    seq![
                        (
                            "tools"@,
                            JsonData::Obj(seq![("listChanged"@, JsonData::Bool(true))]),
                        ),
                    ],
                ),
            ),
            (
                "serverInfo"@,
                JsonData::Obj(
                    seq![
                        ("name"@, JsonData::Str("mcp-server-mysql"@)),
                        ("version"@, JsonData::Str("0.1.0"@)),
                    ],
                ),
            ),
        ],
    )
}


/// The JSON shape of one tool descriptor.
pub open spec fn tool_data(name: Seq<char>, desc: Seq<char>, schema: JsonData) -> JsonData {
    JsonData::Obj(
        seq![
            ("name"@, JsonData::Str(name)),
            ("description"@, JsonData::Str(desc)),
            ("inputSchema"@, schema),
        ],
    )
}

/// A tool descriptor's name and description can be looked up in its JSON.
proof fn lemma_tool_data_fields(name: Seq<char>, desc: Seq<char>, schema: JsonData)
    ensures
        crate::rpc::spec_string_field(tool_data(name, desc, schema), "name"@) == Some(name),
        crate::rpc::spec_string_field(tool_data(name, desc, schema), "description"@) == Some(desc),
{
    reveal_strlit("name");
    reveal_strlit("description");
    let es = tool_data(name, desc, schema)->Obj_0;
    assert(es[0].0 == "name"@);
    assert("name"@.len() == 4 && "description"@.len() == 11);
    assert(es[0].0 != "description"@);
    let tail = es.subrange(1, es.len() as int);
    assert(crate::json::spec_lookup(es, "description"@) == crate::json::spec_lookup(
        tail,
        "description"@,
    ));
    assert(tail[0] == es[1]);
    assert(tail[0].0 == "description"@);
}

/// Builds a JSON string value.
fn jstr(s: &str) -> (r: JsonValue)
    ensures
        r@ == JsonData::Str(s@),
{
    JsonValue::Str(String::from_str(s))
}

/// One property of an argument schema: `{"type": ..., "description": ...}`.
fn schema_property(ty: &str, desc: &str) -> (r: JsonValue) {
    let mut f: Vec<(String, JsonValue)> = Vec::new();
    f.push((String::from_str("type"), jstr(ty)));
    f.push((String::from_str("description"), jstr(desc)));
    JsonValue::Obj(f)
}

/// An argument schema: an object with the given properties, the listed
/// ones required.
fn argument_schema(props: Vec<(String, JsonValue)>, required: Vec<JsonValue>) -> (r: JsonValue) {
    let mut f: Vec<(String, JsonValue)> = Vec::new();
    f.push((String::from_str("type"), jstr("object")));
    f.push((String::from_str("properties"), JsonValue::Obj(props)));
    f.push((String::from_str("required"), JsonValue::Arr(required)));
    JsonValue::Obj(f)
}

/// The argument schema of the schema tool.
fn mysql_tool_schema() -> (r: JsonValue) {
    let mut props: Vec<(String, JsonValue)> = Vec::new();
    props.push(
        (
            String::from_str("table_name"),
            schema_property(
                "string",
                "Name of the table to inspect, or 'all-tables' to get all table schemas",
            ),
        ),
    );
    let mut required: Vec<JsonValue> = Vec::new();
    required.push(jstr("table_name"));
    argument_schema(props, required)
}

/// The argument schema of the query tool.
fn query_tool_schema(allow_dangerous: bool) -> (r: JsonValue) {
    let mut props: Vec<(String, JsonValue)> = Vec::new();
    let query_desc = if allow_dangerous {
        "SQL query to execute"
    } else {
        "SELECT query to execute"
    };
    props.push((String::from_str("query"), schema_property("string", query_desc)));
    props.push(
        (
            String::from_str("database"),
            schema_property(
                "string",
                "Optional database name to use for this query. If specified, the query will be executed in the context of this database.",
            ),
        ),
    );
    let mut required: Vec<JsonValue> = Vec::new();
    required.push(jstr("query"));
    argument_schema(props, required)
}

/// The argument schema of the insert tool.
fn insert_tool_schema() -> (r: JsonValue) {
    let mut props: Vec<(String, JsonValue)> = Vec::new();
    props.push(
        (
            String::from_str("table_name"),
            schema_property("string", "Name of the table to insert data into"),
        ),
    );
    props.push(
        (String::from_str("data"), schema_property("object", "Data to insert as key-value pairs")),
    );
    let mut required: Vec<JsonValue> = Vec::new();
    required.push(jstr("table_name"));
    required.push(jstr("data"));
    argument_schema(props, required)
}

/// The argument schema of the update tool.
fn update_tool_schema() -> (r: JsonValue) {
    let mut props: Vec<(String, JsonValue)> = Vec::new();
    props.push(
        (
            String::from_str("table_name"),
            schema_property("string", "Name of the table to update data in"),
        ),
    );
    props.push(
        (String::from_str("data"), schema_property("object", "Data to update as key-value pairs")),
    );
    props.push(
        (
            String::from_str("conditions"),
            schema_property("object", "Conditions for update as key-value pairs"),
        ),
    );
    let mut required: Vec<JsonValue> = Vec::new();
    required.push(jstr("table_name"));
    required.push(jstr("data"));
    required.push(jstr("conditions"));
    argument_schema(props, required)
}

/// The argument schema of the delete tool.
fn delete_tool_schema() -> (r: JsonValue) {
    let mut props: Vec<(String, JsonValue)> = Vec::new();
    props.push(
        (
            String::from_str("table_name"),
            schema_property("string", "Name of the table to delete data from"),
        ),
    );
    props.push(
        (
            String::from_str("conditions"),
            schema_property("object", "Conditions for deletion as key-value pairs"),
        ),
    );
    let mut required: Vec<JsonValue> = Vec::new();
    required.push(jstr("table_name"));
    required.push(jstr("conditions"));
    argument_schema(props, required)
}

/// The tool catalog: the schema and query tools always; the three mutating
/// tools only when dangerous queries are allowed. The query tool's
/// description says which statements it takes.
pub fn tool_descriptors(allow_dangerous: bool) -> (r: ToolsList)
    ensures
        r.tools@.len() == (if allow_dangerous { 5int } else { 2int }),
        r.tools@[0].name@ == "mysql"@,
        r.tools@[0].description@ == "Retrieve MySQL database schema information for tables"@,
        r.tools@[1].name@ == "query"@,
        r.tools@[1].description@ == (if allow_dangerous {
            "Execute any SQL query on the database (unrestricted)"@
        } else {
            "Execute a SELECT query on the database (read-only)"@
        }),
        allow_dangerous ==> r.tools@[2].name@ == "insert"@ && r.tools@[2].description@
            == "Insert data into a specified table"@,
        allow_dangerous ==> r.tools@[3].name@ == "update"@ && r.tools@[3].description@
            == "Update data in a specified table based on conditions"@,
        allow_dangerous ==> r.tools@[4].name@ == "delete"@ && r.tools@[4].description@
            == "Delete data from a specified table based on conditions"@,
{
    let mut tools: Vec<Tool> = Vec::new();
    tools.push(
        Tool {
            name: String::from_str("mysql"),
            description: String::from_str("Retrieve MySQL database schema information for tables"),
            input_schema: mysql_tool_schema(),
        },
    );
    let query_desc = if allow_dangerous {
        "Execute any SQL query on the database (unrestricted)"
    } else {
        "Execute a SELECT query on the database (read-only)"
    };
    tools.push(
        Tool {
            name: String::from_str("query"),
            description: String::from_str(query_desc),
            input_schema: query_tool_schema(allow_dangerous),
        },
    );
    if allow_dangerous {
        tools.push(
            Tool {
                name: String::from_str("insert"),
                description: String::from_str("Insert data into a specified table"),
                input_schema: insert_tool_schema(),
            },
        );
        tools.push(
            Tool {
                name: String::from_str("update"),
                description: String::from_str(
                    "Update data in a specified table based on conditions",
                ),
                input_schema: update_tool_schema(),
            },
        );
        tools.push(
            Tool {
                name: String::from_str("delete"),
                description: String::from_str(
                    "Delete data from a specified table based on conditions",
                ),
                input_schema: delete_tool_schema(),
            },
        );
    }
    ToolsList { tools }
}

/// Encodes one tool descriptor as JSON.
fn tool_json(t: Tool) -> (r: JsonValue)
    ensures
        r@ == tool_data(t.name@, t.description@, t.input_schema@),
{
    let ghost tg = t;
    let Tool { name, description, input_schema } = t;
    let ghost sv = input_schema@;
    let mut f: Vec<(String, JsonValue)> = Vec::new();
    f.push((String::from_str("name"), JsonValue::Str(name)));
    let ghost f1 = f@;
    proof {
        lemma_jv_entries_push(Seq::empty(), f1[0]);
        assert(Seq::empty().push(f1[0]) =~= f1);
    }
    f.push((String::from_str("description"), JsonValue::Str(description)));
    let ghost f2 = f@;
    proof {
        lemma_jv_entries_push(f1, f2[1]);
        assert(f1.push(f2[1]) =~= f2);
    }
    f.push((String::from_str("inputSchema"), input_schema));
    let ghost f3 = f@;
    proof {
        lemma_jv_entries_push(f2, f3[2]);
        assert(f2.push(f3[2]) =~= f3);
    }
    let out = JsonValue::Obj(f);
    proof {
        assert(crate::json::jv_entries(out->Obj_0@) =~= tool_data(tg.name@, tg.description@, sv)
            ->Obj_0);
        assert(out@ =~= tool_data(tg.name@, tg.description@, sv));
    }
    out
}

/// The shape `tools/list` promises: the catalog's names in order, and the
/// query description that matches the mode.
pub open spec fn tools_list_shape(resp: JsonRpcResponse, allow: bool) -> bool {
    resp.result matches Some(v) && (crate::rpc::spec_field(v@, "tools"@) matches Some(arr) && (
    arr matches JsonData::Arr(ts) && {
        &&& ts.len() == (if allow { 5int } else { 2int })
        &&& crate::rpc::spec_string_field(ts[0], "name"@) == Some("mysql"@)
        &&& crate::rpc::spec_string_field(ts[1], "name"@) == Some("query"@)
        &&& crate::rpc::spec_string_field(ts[1], "description"@) == Some(
            if allow {
                "Execute any SQL query on the database (unrestricted)"@
            } else {
                "Execute a SELECT query on the database (read-only)"@
            },
        )
        &&& allow ==> crate::rpc::spec_string_field(ts[2], "name"@) == Some("insert"@)
            && crate::rpc::spec_string_field(ts[3], "name"@) == Some("update"@)
            && crate::rpc::spec_string_field(ts[4], "name"@) == Some("delete"@)
    }))
}

/// Builds the `tools/list` response.
pub fn tools_list_response(id: Option<JsonValue>, allow_dangerous: bool) -> (r: JsonRpcResponse)
    ensures
        response_wf(r),
        r.id == id,
        r.error is None,
        tools_list_shape(r, allow_dangerous),
{
    let list = tool_descriptors(allow_dangerous);
    let ghost toolsv = list.tools@;
    let mut items: Vec<JsonValue> = Vec::new();
    let mut rest = list.tools;
    let mut i: usize = 0;
    let n0 = rest.len();
    proof {
        assert(rest@.skip(0) =~= toolsv);
        assert(toolsv.len() == n0);
    }
    while rest.len() > 0
        invariant
            i <= toolsv.len(),
            toolsv.len() <= usize::MAX,
            i + rest@.len() == toolsv.len(),
            items@.len() == i,
            rest@ =~= toolsv.skip(i as int),
            forall|k: int|
                0 <= k < i ==> jv_view(#[trigger] items@[k]) == tool_data(
                    toolsv[k].name@,
                    toolsv[k].description@,
                    jv_view(toolsv[k].input_schema),
                ),
        decreases rest@.len(),
    {
        let t = rest.remove(0);
        let ghost tg = t;
        proof {
            assert(toolsv.skip(i as int)[0] == toolsv[i as int]);
            assert(tg == toolsv[i as int]);
            assert(toolsv.skip(i as int).remove(0) =~= toolsv.skip(i as int + 1));
        }
        let j = tool_json(t);
        items.push(j);
        i = i + 1;
    }
    let ghost itemsv = jv_views(items@);
    proof {
        crate::json::lemma_jv_views_index(items@);
    }
    let arr = JsonValue::Arr(items);
    let mut f: Vec<(String, JsonValue)> = Vec::new();
    f.push((String::from_str("tools"), arr));
    let ghost f1 = f@;
    proof {
        lemma_jv_entries_push(Seq::empty(), f1[0]);
        assert(Seq::empty().push(f1[0]) =~= f1);
    }
    let out = JsonValue::Obj(f);
    let ghost outv = out@;
    proof {
        assert(crate::json::jv_entries(f1) =~= seq![("tools"@, JsonData::Arr(itemsv))]);
        assert(outv == JsonData::Obj(seq![("tools"@, JsonData::Arr(itemsv))]));
        assert(crate::rpc::spec_field(outv, "tools"@) == Some(JsonData::Arr(itemsv)));
        lemma_tool_data_fields(toolsv[0].name@, toolsv[0].description@, jv_view(
            toolsv[0].input_schema,
        ));
        lemma_tool_data_fields(toolsv[1].name@, toolsv[1].description@, jv_view(
            toolsv[1].input_schema,
        ));
        assert(itemsv.len() == toolsv.len());
        assert(itemsv[0] == jv_view(items@[0]));
        assert(itemsv[1] == jv_view(items@[1]));
        if allow_dangerous {
            assert(itemsv[2] == jv_view(items@[2]));
            assert(itemsv[3] == jv_view(items@[3]));
            assert(itemsv[4] == jv_view(items@[4]));
        }
        assert(itemsv[0] == tool_data(toolsv[0].name@, toolsv[0].description@, jv_view(
            toolsv[0].input_schema,
        )));
        assert(itemsv[1] == tool_data(toolsv[1].name@, toolsv[1].description@, jv_view(
            toolsv[1].input_schema,
        )));
        assert(crate::rpc::spec_string_field(itemsv[0], "name"@) == Some("mysql"@));
        assert(crate::rpc::spec_string_field(itemsv[1], "name"@) == Some("query"@));
        if allow_dangerous {
            lemma_tool_data_fields(toolsv[2].name@, toolsv[2].description@, jv_view(
                toolsv[2].input_schema,
            ));
            lemma_tool_data_fields(toolsv[3].name@, toolsv[3].description@, jv_view(
                toolsv[3].input_schema,
            ));
            lemma_tool_data_fields(toolsv[4].name@, toolsv[4].description@, jv_view(
                toolsv[4].input_schema,
            ));
            assert(itemsv[2] == tool_data(toolsv[2].name@, toolsv[2].description@, jv_view(
                toolsv[2].input_schema,
            )));
            assert(itemsv[3] == tool_data(toolsv[3].name@, toolsv[3].description@, jv_view(
                toolsv[3].input_schema,
            )));
            assert(itemsv[4] == tool_data(toolsv[4].name@, toolsv[4].description@, jv_view(
                toolsv[4].input_schema,
            )));
            assert(crate::rpc::spec_string_field(itemsv[2], "name"@) == Some("insert"@));
            assert(crate::rpc::spec_string_field(itemsv[3], "name"@) == Some("update"@));
            assert(crate::rpc::spec_string_field(itemsv[4], "name"@) == Some("delete"@));
        }
    }
    create_ok_response(id, out)
}


/// The id a tool response echoes: the request id, or JSON null when the
/// request had none.
pub open spec fn spec_norm_id(id: Option<JsonValue>) -> Option<JsonValue> {
    match id {
        Some(v) => Some(v),
        None => Some(JsonValue::Null),
    }
}

/// Normalizes the request id for a tool response.
fn normalize_id(id: Option<JsonValue>) -> (r: Option<JsonValue>)
    ensures
        r == spec_norm_id(id),
{
    match id {
        Some(v) => Some(v),
        None => Some(JsonValue::Null),
    }
}

/// The keys of a JSON object's entries.
pub open spec fn obj_keys(d: JsonData) -> Seq<Seq<char>> {
    d->Obj_0.map_values(|e: (Seq<char>, JsonData)| e.0)
}

/// Every key of the JSON object passes the identifier gate.
pub open spec fn keys_all_valid(d: JsonData) -> bool {
    forall|i: int| 0 <= i < d->Obj_0.len() ==> valid_identifier((#[trigger] d->Obj_0[i]).0)
}

/// A mapping is admissible for a mutation: a non-empty object whose keys
/// all pass the identifier gate.
pub open spec fn mapping_admissible(d: JsonData) -> bool {
    d is Obj && d->Obj_0.len() > 0 && keys_all_valid(d)
}

/// The view of an entry list has the same keys and the same key validity.
proof fn lemma_obj_view_bridge(es: Seq<(String, JsonValue)>)
    ensures
        obj_keys(JsonData::Obj(crate::json::jv_entries(es))) =~= crate::mutate::entry_keys(es),
        keys_all_valid(JsonData::Obj(crate::json::jv_entries(es)))
            <==> crate::mutate::all_keys_valid(es),
{
    crate::json::lemma_jv_entries_index(es);
    let d = JsonData::Obj(crate::json::jv_entries(es));
    assert forall|i: int| 0 <= i < es.len() implies obj_keys(d)[i] == crate::mutate::entry_keys(
        es,
    )[i] by {
        assert(d->Obj_0[i] == (es[i].0@, crate::json::jv_view(es[i].1)));
        assert(crate::mutate::entry_keys(es)[i] == es[i].0@);
    }
    if crate::mutate::all_keys_valid(es) {
        assert forall|i: int| 0 <= i < d->Obj_0.len() implies valid_identifier(
            (d->Obj_0[i]).0,
        ) by {
            assert(d->Obj_0[i] == (es[i].0@, crate::json::jv_view(es[i].1)));
            assert(valid_identifier(es[i].0@));
        }
    }
    if keys_all_valid(d) {
        assert forall|i: int| 0 <= i < es.len() implies valid_identifier(#[trigger] es[i].0@) by {
            assert(d->Obj_0[i] == (es[i].0@, crate::json::jv_view(es[i].1)));
            assert(valid_identifier((d->Obj_0[i]).0));
        }
    }
}

/// A value's view is an `Obj` exactly when the value is, and then its
/// entries are the view of the value's entries.
proof fn lemma_view_obj_iff(v: JsonValue)
    ensures
        (crate::json::jv_view(v) is Obj) <==> (v matches JsonValue::Obj(_)),
        v matches JsonValue::Obj(es) ==> crate::json::jv_view(v)->Obj_0
            == crate::json::jv_entries(es@) && crate::json::jv_view(v)->Obj_0.len() == es@.len(),
{
    match v {
        JsonValue::Obj(es) => {
            crate::json::lemma_jv_entries_index(es@);
        },
        _ => {},
    }
}

/// An invalid key among the entries refutes key validity of the object's
/// view.
proof fn lemma_invalid_key_breaks(es: Seq<(String, JsonValue)>, n: Seq<char>)
    requires
        crate::mutate::entry_keys(es).contains(n),
        !valid_identifier(n),
    ensures
        !keys_all_valid(JsonData::Obj(crate::json::jv_entries(es))),
{
    lemma_obj_view_bridge(es);
    let ek = crate::mutate::entry_keys(es);
    let i = choose|i: int| 0 <= i < ek.len() && ek[i] == n;
    assert(ek[i] == es[i].0@);
    if crate::mutate::all_keys_valid(es) {
        assert(valid_identifier(es[i].0@));
        assert(false);
    }
}

/// The outcome is a well-formed error response with this code.
pub open spec fn respond_error(r: RouteOutcome, id: Option<JsonValue>, code: i32) -> bool {
    r matches RouteOutcome::Respond(resp) && response_wf(resp) && resp.id == id && resp.result
        is None && (resp.error matches Some(e) && e.code == code)
}

/// A method the router knows.
pub open spec fn known_method(m: Seq<char>) -> bool {
    ||| m == "initialize"@
    ||| m == "notifications/initialized"@
    ||| m == "initialized"@
    ||| m == "tools/list"@
    ||| m == "tools/call"@
}

/// One of the three mutating tools.
pub open spec fn is_mutation_tool(name: Seq<char>) -> bool {
    name == "insert"@ || name == "update"@ || name == "delete"@
}

/// The message that rejects a disabled mutating tool, naming the switch
/// that would enable it.
pub open spec fn disabled_tool_message(tool: Seq<char>) -> Seq<char> {
    "Tool '"@ + tool
        + "' is disabled. Start the server with --allow-dangerous-queries to enable it."@
}

/// What dispatching the schema tool must produce.
pub open spec fn mysql_post(r: RouteOutcome, id: Option<JsonValue>, argv: JsonData) -> bool {
    match crate::rpc::spec_string_field(argv, "table_name"@) {
        None => respond_error(r, id, CODE_INVALID_PARAMS),
        Some(t) => {
            if t == "all-tables"@ {
                r matches RouteOutcome::RunSchema { id: rid, plan } && rid == id
                    && plan is AllTables
            } else if valid_identifier(t) {
                r matches RouteOutcome::RunSchema { id: rid, plan } && rid == id && (
                plan matches SchemaPlan::Single(s) && s@ == t)
            } else {
                respond_error(r, id, CODE_INVALID_PARAMS)
            }
        },
    }
}

/// What dispatching the query tool must produce.
pub open spec fn query_post(r: RouteOutcome, id: Option<JsonValue>, argv: JsonData, args: Args) -> bool {
    match crate::rpc::spec_string_field(argv, "query"@) {
        None => respond_error(r, id, CODE_INVALID_PARAMS),
        Some(q) => {
            let db = crate::rpc::spec_string_field(argv, "database"@);
            if !args.allow_dangerous_queries && !crate::gate::read_only_permits(q) {
                respond_error(r, spec_norm_id(id), CODE_INVALID_PARAMS)
            } else if db matches Some(d) && !valid_identifier(d) {
                respond_error(r, spec_norm_id(id), CODE_INVALID_PARAMS)
            } else {
                r matches RouteOutcome::RunQuery { id: rid, machine } && rid == spec_norm_id(id)
                    && machine.wf() && machine.step is AcquireConn && machine.plan.statement@ == q
                    && machine.plan.read_only == !args.allow_dangerous_queries
                    && machine.plan.max_rows == args.max_rows && (match db {
                    Some(d) => machine.plan.use_stmt matches Some(u) && u@
                        == crate::sql::use_sql(d),
                    None => machine.plan.use_stmt is None,
                })
            }
        },
    }
}

/// What dispatching the insert tool must produce.
pub open spec fn insert_post(r: RouteOutcome, id: Option<JsonValue>, argv: JsonData) -> bool {
    match (
        crate::rpc::spec_string_field(argv, "table_name"@),
        crate::rpc::spec_field(argv, "data"@),
    ) {
        (Some(t), Some(d)) => {
            if valid_identifier(t) && mapping_admissible(d) {
                r matches RouteOutcome::RunInsert { id: rid, plan } && rid == spec_norm_id(id)
                    && plan.sql@ == crate::sql::insert_sql(t, obj_keys(d)) && JsonData::Obj(
                    crate::json::jv_entries(plan.entries@),
                ) == d
            } else {
                respond_error(r, spec_norm_id(id), CODE_INVALID_PARAMS)
            }
        },
        _ => respond_error(r, id, CODE_INVALID_PARAMS),
    }
}

/// What dispatching the update tool must produce.
pub open spec fn update_post(r: RouteOutcome, id: Option<JsonValue>, argv: JsonData) -> bool {
    match (
        crate::rpc::spec_string_field(argv, "table_name"@),
        crate::rpc::spec_field(argv, "data"@),
        crate::rpc::spec_field(argv, "conditions"@),
    ) {
        (Some(t), Some(d), Some(c)) => {
            if valid_identifier(t) && mapping_admissible(d) && mapping_admissible(c) {
                r matches RouteOutcome::RunUpdate { id: rid, plan } && rid == spec_norm_id(id)
                    && plan.sql@ == crate::sql::update_sql(t, obj_keys(d), obj_keys(c))
                    && JsonData::Obj(crate::json::jv_entries(plan.set_entries@)) == d
                    && JsonData::Obj(crate::json::jv_entries(plan.where_entries@)) == c
            } else {
                respond_error(r, spec_norm_id(id), CODE_INVALID_PARAMS)
            }
        },
        _ => respond_error(r, id, CODE_INVALID_PARAMS),
    }
}

/// What dispatching the delete tool must produce.
pub open spec fn delete_post(r: RouteOutcome, id: Option<JsonValue>, argv: JsonData) -> bool {
    match (
        crate::rpc::spec_string_field(argv, "table_name"@),
        crate::rpc::spec_field(argv, "conditions"@),
    ) {
        (Some(t), Some(c)) => {
            if valid_identifier(t) && mapping_admissible(c) {
                r matches RouteOutcome::RunDelete { id: rid, plan } && rid == spec_norm_id(id)
                    && plan.sql@ == crate::sql::delete_sql(t, obj_keys(c)) && JsonData::Obj(
                    crate::json::jv_entries(plan.where_entries@),
                ) == c
            } else {
                respond_error(r, spec_norm_id(id), CODE_INVALID_PARAMS)
            }
        },
        _ => respond_error(r, id, CODE_INVALID_PARAMS),
    }
}

/// What one named tool's dispatch must produce. A mutating tool is
/// rejected by name, before its arguments are even read, when dangerous
/// queries are disallowed.
pub open spec fn tool_dispatch_post(r: RouteOutcome, id: Option<JsonValue>, tool: Seq<char>, argv: JsonData, args: Args) -> bool {
    if tool == "mysql"@ {
        mysql_post(r, id, argv)
    } else if tool == "query"@ {
        query_post(r, id, argv, args)
    } else if is_mutation_tool(tool) && !args.allow_dangerous_queries {
        respond_error(r, id, CODE_METHOD_NOT_FOUND) && (match r {
            RouteOutcome::Respond(resp) => resp.error matches Some(e) && e.message@
                == disabled_tool_message(tool),
            _ => false,
        })
    } else if tool == "insert"@ {
        insert_post(r, id, argv)
    } else if tool == "update"@ {
        update_post(r, id, argv)
    } else if tool == "delete"@ {
        delete_post(r, id, argv)
    } else {
        respond_error(r, id, CODE_METHOD_NOT_FOUND)
    }
}

/// What `tools/call` must produce once the session is initialized.
pub open spec fn tools_call_post(r: RouteOutcome, req: JsonRpcRequest, args: Args) -> bool {
    match req.params {
        None => respond_error(r, req.id, CODE_INVALID_PARAMS),
        Some(p) => match (
            crate::rpc::spec_string_field(p@, "name"@),
            crate::rpc::spec_field(p@, "arguments"@),
        ) {
            (Some(tool), Some(argv)) => tool_dispatch_post(r, req.id, tool, argv, args),
            _ => respond_error(r, req.id, CODE_INVALID_PARAMS),
        },
    }
}

/// Routes one request: maps the method (and, for `tools/call`, the tool
/// name) to a finished response or to the one database operation to
/// perform. Nothing here touches the database; validation failures and
/// policy rejections are answered outright.
pub fn route_request(req: JsonRpcRequest, state: &SessionState, args: &Args) -> (r: RouteOutcome)
    ensures
        (match r {
            RouteOutcome::Respond(resp) => response_wf(resp),
            _ => true,
        }),
        req.method@ == "initialize"@ ==> (r matches RouteOutcome::Connect { id, url } && id
            == req.id && url@ == (match crate::rpc::spec_database_override(
            crate::rpc::opt_view(req.params),
        ) {
            Some(u) => u,
            None => mysql_url(*args),
        })),
        (req.method@ == "notifications/initialized"@ || req.method@ == "initialized"@) ==> (
        r matches RouteOutcome::Respond(resp) && resp.id == req.id && resp.error is None),
        req.method@ == "tools/list"@ ==> (r matches RouteOutcome::Respond(resp) && resp.id
            == req.id && resp.error is None && tools_list_shape(resp, args.allow_dangerous_queries)),
        req.method@ == "tools/call"@ && state is Uninitialized ==> respond_error(
            r,
            req.id,
            CODE_NOT_INITIALIZED,
        ),
        req.method@ == "tools/call"@ && state is Initialized ==> tools_call_post(r, req, *args),
        !known_method(req.method@) ==> respond_error(r, req.id, CODE_METHOD_NOT_FOUND),
{
    proof {
        reveal_strlit("initialize");
        reveal_strlit("notifications/initialized");
        reveal_strlit("initialized");
        reveal_strlit("tools/list");
        reveal_strlit("tools/call");
        reveal_strlit("mysql");
        reveal_strlit("query");
        reveal_strlit("insert");
        reveal_strlit("update");
        reveal_strlit("delete");
        assert("initialize"@.len() == 10);
        assert("notifications/initialized"@.len() == 25);
        assert("initialized"@.len() == 11);
        assert("tools/list"@.len() == 10);
        assert("tools/call"@.len() == 10);
        assert("initialize"@[0] == 'i');
        assert("tools/list"@[0] == 't');
        assert("tools/call"@[0] == 't');
        assert("tools/list"@[6] == 'l');
        assert("tools/call"@[6] == 'c');
        assert("mysql"@.len() == 5);
        assert("query"@.len() == 5);
        assert("insert"@.len() == 6);
        assert("update"@.len() == 6);
        assert("delete"@.len() == 6);
        assert("mysql"@[0] == 'm');
        assert("query"@[0] == 'q');
        assert("insert"@[0] == 'i');
        assert("update"@[0] == 'u');
        assert("delete"@[0] == 'd');
    }
    let JsonRpcRequest { jsonrpc: _, id, method, params } = req;
    if crate::strutil::str_eq(method.as_str(), "initialize") {
        let url = match crate::rpc::database_url_override(&params) {
            Some(u) => u,
            None => crate::config::compose_url(args),
        };
        return RouteOutcome::Connect { id, url };
    }
    if crate::strutil::str_eq(method.as_str(), "notifications/initialized") || crate::strutil::str_eq(
        method.as_str(),
        "initialized",
    ) {
        let empty = JsonValue::Obj(Vec::new());
        return RouteOutcome::Respond(create_ok_response(id, empty));
    }
    if crate::strutil::str_eq(method.as_str(), "tools/list") {
        return RouteOutcome::Respond(tools_list_response(id, args.allow_dangerous_queries));
    }
    if crate::strutil::str_eq(method.as_str(), "tools/call") {
        match state {
            SessionState::Uninitialized => {
                return RouteOutcome::Respond(
                    create_error_response(id, CODE_NOT_INITIALIZED, "Server not initialized"),
                );
            },
            SessionState::Initialized => {},
        }
        let p = match params {
            Some(p) => p,
            None => {
                return RouteOutcome::Respond(
                    create_error_response(id, CODE_INVALID_PARAMS, "Missing parameters"),
                );
            },
        };
        let tool_params = match crate::rpc::parse_tool_call_params(&p) {
            Some(tp) => tp,
            None => {
                return RouteOutcome::Respond(
                    create_error_response(id, CODE_INVALID_PARAMS, "Invalid tool call parameters"),
                );
            },
        };
        let name = tool_params.name;
        let arguments = tool_params.arguments;
        if crate::strutil::str_eq(name.as_str(), "mysql") {
            let a = match crate::rpc::parse_schema_arguments(&arguments) {
                Some(a) => a,
                None => {
                    return RouteOutcome::Respond(
                        create_error_response(id, CODE_INVALID_PARAMS, "Invalid schema arguments"),
                    );
                },
            };
            match crate::schema::prepare_schema(a.table_name) {
                Ok(plan) => {
                    return RouteOutcome::RunSchema { id, plan };
                },
                Err(e) => {
                    let m = e.message();
                    return RouteOutcome::Respond(create_error_response(id, e.code(), m.as_str()));
                },
            }
        }
        if crate::strutil::str_eq(name.as_str(), "query") {
            let a = match crate::rpc::parse_query_arguments(&arguments) {
                Some(a) => a,
                None => {
                    return RouteOutcome::Respond(
                        create_error_response(id, CODE_INVALID_PARAMS, "Invalid query arguments"),
                    );
                },
            };
            let nid = normalize_id(id);
            match crate::query::prepare_query(
                a.query,
                a.database,
                args.allow_dangerous_queries,
                args.max_rows,
            ) {
                Ok(plan) => {
                    return RouteOutcome::RunQuery {
                        id: nid,
                        machine: crate::query::QueryExec::start(plan),
                    };
                },
                Err(e) => {
                    let m = e.message();
                    return RouteOutcome::Respond(create_error_response(nid, e.code(), m.as_str()));
                },
            }
        }
        let mutating = crate::strutil::str_eq(name.as_str(), "insert") || crate::strutil::str_eq(
            name.as_str(),
            "update",
        ) || crate::strutil::str_eq(name.as_str(), "delete");
        if mutating && !args.allow_dangerous_queries {
            let msg = String::from_str("Tool '").concat(name.as_str()).concat(
                "' is disabled. Start the server with --allow-dangerous-queries to enable it.",
            );
            return RouteOutcome::Respond(
                create_error_response(id, CODE_METHOD_NOT_FOUND, msg.as_str()),
            );
        }
        if crate::strutil::str_eq(name.as_str(), "insert") {
            let a = match crate::rpc::parse_insert_arguments(&arguments) {
                Some(a) => a,
                None => {
                    return RouteOutcome::Respond(
                        create_error_response(id, CODE_INVALID_PARAMS, "Invalid insert arguments"),
                    );
                },
            };
            let nid = normalize_id(id);
            let ghost dval = a.data;
            match crate::mutate::prepare_insert(a.table_name, a.data) {
                Ok(plan) => {
                    proof {
                        lemma_obj_view_bridge(plan.entries@);
                    }
                    return RouteOutcome::RunInsert { id: nid, plan };
                },
                Err(e) => {
                    let ghost ev = e;
                    proof {
                        lemma_view_obj_iff(dval);
                        match dval {
                            JsonValue::Obj(es) => {
                                crate::json::lemma_jv_entries_index(es@);
                                match ev {
                                    DbError::InvalidIdentifier(n) => {
                                        if crate::mutate::entry_keys(es@).contains(n@)
                                            && !valid_identifier(n@) {
                                            lemma_invalid_key_breaks(es@, n@);
                                        }
                                    },
                                    _ => {},
                                }
                            },
                            _ => {},
                        }
                    }
                    let m = e.message();
                    return RouteOutcome::Respond(create_error_response(nid, e.code(), m.as_str()));
                },
            }
        }
        if crate::strutil::str_eq(name.as_str(), "update") {
            let a = match crate::rpc::parse_update_arguments(&arguments) {
                Some(a) => a,
                None => {
                    return RouteOutcome::Respond(
                        create_error_response(id, CODE_INVALID_PARAMS, "Invalid update arguments"),
                    );
                },
            };
            let nid = normalize_id(id);
            let ghost dval = a.data;
            let ghost cval = a.conditions;
            match crate::mutate::prepare_update(a.table_name, a.data, a.conditions) {
                Ok(plan) => {
                    proof {
                        lemma_obj_view_bridge(plan.set_entries@);
                        lemma_obj_view_bridge(plan.where_entries@);
                    }
                    return RouteOutcome::RunUpdate { id: nid, plan };
                },
                Err(e) => {
                    let ghost ev = e;
                    proof {
                        lemma_view_obj_iff(dval);
                        lemma_view_obj_iff(cval);
                        match dval {
                            JsonValue::Obj(ds) => {
                                crate::json::lemma_jv_entries_index(ds@);
                                match ev {
                                    DbError::InvalidIdentifier(n) => {
                                        if crate::mutate::entry_keys(ds@).contains(n@)
                                            && !valid_identifier(n@) {
                                            lemma_invalid_key_breaks(ds@, n@);
                                        }
                                    },
                                    _ => {},
                                }
                            },
                            _ => {},
                        }
                        match cval {
                            JsonValue::Obj(cs) => {
                                crate::json::lemma_jv_entries_index(cs@);
                                match ev {
                                    DbError::InvalidIdentifier(n) => {
                                        if crate::mutate::entry_keys(cs@).contains(n@)
                                            && !valid_identifier(n@) {
                                            lemma_invalid_key_breaks(cs@, n@);
                                        }
                                    },
                                    _ => {},
                                }
                            },
                            _ => {},
                        }
                    }
                    let m = e.message();
                    return RouteOutcome::Respond(create_error_response(nid, e.code(), m.as_str()));
                },
            }
        }
        if crate::strutil::str_eq(name.as_str(), "delete") {
            let a = match crate::rpc::parse_delete_arguments(&arguments) {
                Some(a) => a,
                None => {
                    return RouteOutcome::Respond(
                        create_error_response(id, CODE_INVALID_PARAMS, "Invalid delete arguments"),
                    );
                },
            };
            let nid = normalize_id(id);
            let ghost cval = a.conditions;
            match crate::mutate::prepare_delete(a.table_name, a.conditions) {
                Ok(plan) => {
                    proof {
                        lemma_obj_view_bridge(plan.where_entries@);
                    }
                    return RouteOutcome::RunDelete { id: nid, plan };
                },
                Err(e) => {
                    let ghost ev = e;
                    proof {
                        lemma_view_obj_iff(cval);
                        match cval {
                            JsonValue::Obj(cs) => {
                                crate::json::lemma_jv_entries_index(cs@);
                                match ev {
                                    DbError::InvalidIdentifier(n) => {
                                        if crate::mutate::entry_keys(cs@).contains(n@)
                                            && !valid_identifier(n@) {
                                            lemma_invalid_key_breaks(cs@, n@);
                                        }
                                    },
                                    _ => {},
                                }
                            },
                            _ => {},
                        }
                    }
                    let m = e.message();
                    return RouteOutcome::Respond(create_error_response(nid, e.code(), m.as_str()));
                },
            }
        }
        let msg = String::from_str("Unknown tool: ").concat(name.as_str());
        return RouteOutcome::Respond(
            create_error_response(id, CODE_METHOD_NOT_FOUND, msg.as_str()),
        );
    }
    let msg = String::from_str("Method not found: ").concat(method.as_str());
    RouteOutcome::Respond(create_error_response(id, CODE_METHOD_NOT_FOUND, msg.as_str()))
}

} // verus!
