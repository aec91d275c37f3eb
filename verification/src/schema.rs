//! Schema introspection: validating the request, shaping column and index
//! metadata into schema objects, and building the responses.
//!
//! The driver edge runs the information-schema statements from `sql` and
//! hands the rows back as plain records; every decision — which table
//! names are acceptable, when no database is selected, what the schema
//! object and the response look like — is made and verified here.

use crate::error::DbError;
use crate::ident::{is_valid_identifier, valid_identifier};
use crate::json::{jv_view, jv_views, lemma_jv_entries_push, lemma_jv_views_push, JsonData,
    JsonValue};
use crate::num::{dec_str, u64_to_string};
use crate::query::{content_block, content_block_json};
use crate::rpc::{create_error_response, create_ok_response, response_wf, JsonRpcResponse};
use crate::strutil::str_eq;
use vstd::prelude::*;
use vstd::string::*;

verus! {

/// What a schema request asks for.
pub enum SchemaPlan {
    /// Every base table of the selected database.
    AllTables,
    /// One table, already validated.
    Single(String),
}

/// Validates a schema request. The reserved name `all-tables` asks for
/// every table; any other name must pass the identifier gate.
pub fn prepare_schema(table_name: String) -> (r: Result<SchemaPlan, DbError>)
    ensures
        match r {
            Ok(plan) => match plan {
                SchemaPlan::AllTables => table_name@ == "all-tables"@,
                SchemaPlan::Single(t) => t@ == table_name@ && valid_identifier(table_name@)
                    && table_name@ != "all-tables"@,
            },
            Err(e) => {
                &&& table_name@ != "all-tables"@
                &&& !valid_identifier(table_name@)
                &&& e matches DbError::InvalidIdentifier(n) && n@ == table_name@
            },
        },
{
    if str_eq(table_name.as_str(), "all-tables") {
        return Ok(SchemaPlan::AllTables);
    }
    if !is_valid_identifier(table_name.as_str()) {
        return Err(DbError::InvalidIdentifier(table_name));
    }
    Ok(SchemaPlan::Single(table_name))
}

/// Decides whether a database is selected, from what `SELECT DATABASE()`
/// returned.
pub fn db_selected(current: Option<String>) -> (r: Result<String, DbError>)
    ensures
        match r {
            Ok(db) => current matches Some(d) && d == db,
            Err(e) => current is None && e is NoDatabaseSelected,
        },
{
    match current {
        Some(db) => Ok(db),
        None => Err(DbError::NoDatabaseSelected),
    }
}

/// One column's metadata, as information_schema reports it.
pub struct ColumnMeta {
    pub name: String,
    pub data_type: String,
    /// `YES` when the column is nullable.
    pub is_nullable: String,
    pub column_default: Option<String>,
    pub column_key: String,
    pub extra: String,
    pub comment: String,
}

/// One index row, as the index listing reports it.
pub struct IndexMeta {
    pub key_name: String,
    pub column_name: String,
    /// Zero when the index is unique.
    pub non_unique: i64,
    pub index_type: String,
}

/// The JSON shape of one column.
pub open spec fn spec_column_json(c: ColumnMeta) -> JsonData {
    JsonData::Obj(
        seq![
            ("name"@, JsonData::Str(c.name@)),
            ("type"@, JsonData::Str(c.data_type@)),
            ("nullable"@, JsonData::Bool(c.is_nullable@ == "YES"@)),
            (
                "default"@,
                match c.column_default {
                    Some(d) => JsonData::Str(d@),
                    None => JsonData::Null,
                },
            ),
            ("key"@, JsonData::Str(c.column_key@)),
            ("extra"@, JsonData::Str(c.extra@)),
            ("comment"@, JsonData::Str(c.comment@)),
        ],
    )
}

/// Encodes one column's metadata as JSON.
pub fn column_to_json(c: ColumnMeta) -> (r: JsonValue)
    ensures
        r@ == spec_column_json(c),
{
    let ghost cg = c;
    let ColumnMeta { name, data_type, is_nullable, column_default, column_key, extra, comment } = c;
    let nullable = str_eq(is_nullable.as_str(), "YES");
    let default_json = match column_default {
        Some(d) => JsonValue::Str(d),
        None => JsonValue::Null,
    };
    let mut fields: Vec<(String, JsonValue)> = Vec::new();
    let ghost mut built: Seq<(Seq<char>, JsonData)> = Seq::empty();
    fields.push((String::from_str("name"), JsonValue::Str(name)));
    proof {
        lemma_jv_entries_push(Seq::empty(), fields@[0]);
        assert(Seq::empty().push(fields@[0]) =~= fields@);
        built = built.push(("name"@, JsonData::Str(cg.name@)));
        assert(crate::json::jv_entries(fields@) =~= built);
    }
    let ghost f1 = fields@;
    fields.push((String::from_str("type"), JsonValue::Str(data_type)));
    proof {
        lemma_jv_entries_push(f1, fields@[1]);
        assert(f1.push(fields@[1]) =~= fields@);
        built = built.push(("type"@, JsonData::Str(cg.data_type@)));
        assert(crate::json::jv_entries(fields@) =~= built);
    }
    let ghost f2 = fields@;
    fields.push((String::from_str("nullable"), JsonValue::Bool(nullable)));
    proof {
        lemma_jv_entries_push(f2, fields@[2]);
        assert(f2.push(fields@[2]) =~= fields@);
        built = built.push(("nullable"@, JsonData::Bool(cg.is_nullable@ == "YES"@)));
        assert(crate::json::jv_entries(fields@) =~= built);
    }
    let ghost f3 = fields@;
    fields.push((String::from_str("default"), default_json));
    proof {
        lemma_jv_entries_push(f3, fields@[3]);
        assert(f3.push(fields@[3]) =~= fields@);
        built = built.push(
            (
                "default"@,
                match cg.column_default {
                    Some(d) => JsonData::Str(d@),
                    None => JsonData::Null,
                },
            ),
        );
        assert(crate::json::jv_entries(fields@) =~= built);
    }
    let ghost f4 = fields@;
    fields.push((String::from_str("key"), JsonValue::Str(column_key)));
    proof {
        lemma_jv_entries_push(f4, fields@[4]);
        assert(f4.push(fields@[4]) =~= fields@);
        built = built.push(("key"@, JsonData::Str(cg.column_key@)));
        assert(crate::json::jv_entries(fields@) =~= built);
    }
    let ghost f5 = fields@;
    fields.push((String::from_str("extra"), JsonValue::Str(extra)));
    proof {
        lemma_jv_entries_push(f5, fields@[5]);
        assert(f5.push(fields@[5]) =~= fields@);
        built = built.push(("extra"@, JsonData::Str(cg.extra@)));
        assert(crate::json::jv_entries(fields@) =~= built);
    }
    let ghost f6 = fields@;
    fields.push((String::from_str("comment"), JsonValue::Str(comment)));
    proof {
        lemma_jv_entries_push(f6, fields@[6]);
        assert(f6.push(fields@[6]) =~= fields@);
        built = built.push(("comment"@, JsonData::Str(cg.comment@)));
        assert(crate::json::jv_entries(fields@) =~= built);
    }
    let out = JsonValue::Obj(fields);
    proof {
        assert(built =~= spec_column_json(cg)->Obj_0);
        assert(out@ =~= spec_column_json(cg));
    }
    out
}

/// The JSON shape of one index row.
pub open spec fn spec_index_json(x: IndexMeta) -> JsonData {
    JsonData::Obj(
        seq![
            ("name"@, JsonData::Str(x.key_name@)),
            ("column"@, JsonData::Str(x.column_name@)),
            ("unique"@, JsonData::Bool(x.non_unique == 0)),
            ("type"@, JsonData::Str(x.index_type@)),
        ],
    )
}

/// Encodes one index row as JSON.
pub fn index_to_json(x: IndexMeta) -> (r: JsonValue)
    ensures
        r@ == spec_index_json(x),
{
    let ghost xg = x;
    let IndexMeta { key_name, column_name, non_unique, index_type } = x;
    let unique = non_unique == 0;
    let mut fields: Vec<(String, JsonValue)> = Vec::new();
    let ghost mut built: Seq<(Seq<char>, JsonData)> = Seq::empty();
    fields.push((String::from_str("name"), JsonValue::Str(key_name)));
    proof {
        lemma_jv_entries_push(Seq::empty(), fields@[0]);
        assert(Seq::empty().push(fields@[0]) =~= fields@);
        built = built.push(("name"@, JsonData::Str(xg.key_name@)));
        assert(crate::json::jv_entries(fields@) =~= built);
    }
    let ghost f1 = fields@;
    fields.push((String::from_str("column"), JsonValue::Str(column_name)));
    proof {
        lemma_jv_entries_push(f1, fields@[1]);
        assert(f1.push(fields@[1]) =~= fields@);
        built = built.push(("column"@, JsonData::Str(xg.column_name@)));
        assert(crate::json::jv_entries(fields@) =~= built);
    }
    let ghost f2 = fields@;
    fields.push((String::from_str("unique"), JsonValue::Bool(unique)));
    proof {
        lemma_jv_entries_push(f2, fields@[2]);
        assert(f2.push(fields@[2]) =~= fields@);
        built = built.push(("unique"@, JsonData::Bool(xg.non_unique == 0)));
        assert(crate::json::jv_entries(fields@) =~= built);
    }
    let ghost f3 = fields@;
    fields.push((String::from_str("type"), JsonValue::Str(index_type)));
    proof {
        lemma_jv_entries_push(f3, fields@[3]);
        assert(f3.push(fields@[3]) =~= fields@);
        built = built.push(("type"@, JsonData::Str(xg.index_type@)));
        assert(crate::json::jv_entries(fields@) =~= built);
    }
    let out = JsonValue::Obj(fields);
    proof {
        assert(built =~= spec_index_json(xg)->Obj_0);
        assert(out@ =~= spec_index_json(xg));
    }
    out
}

/// The JSON shape of one table's schema.
pub open spec fn spec_table_schema(table: Seq<char>, cols: Seq<ColumnMeta>, idxs: Seq<
    IndexMeta,
>) -> JsonData {
    JsonData::Obj(
        seq![
            ("table_name"@, JsonData::Str(table)),
            ("columns"@, JsonData::Arr(cols.map_values(|c: ColumnMeta| spec_column_json(c)))),
            ("indexes"@, JsonData::Arr(idxs.map_values(|x: IndexMeta| spec_index_json(x)))),
        ],
    )
}

/// Encodes the columns as JSON values, in order.
fn columns_to_json(cols: Vec<ColumnMeta>) -> (r: Vec<JsonValue>)
    ensures
        jv_views(r@) =~= cols@.map_values(|c: ColumnMeta| spec_column_json(c)),
{
    let ghost colsv = cols@;
    let mut out: Vec<JsonValue> = Vec::new();
    let mut rest = cols;
    let mut i: usize = 0;
    let n0 = rest.len();
    proof {
        assert(rest@.skip(0) =~= colsv);
        assert(colsv.len() == n0);
    }
    while rest.len() > 0
        invariant
            i <= colsv.len(),
            colsv.len() <= usize::MAX,
            i + rest@.len() == colsv.len(),
            out@.len() == i,
            rest@ =~= colsv.skip(i as int),
            jv_views(out@) =~= colsv.map_values(|c: ColumnMeta| spec_column_json(c)).take(i as int),
        decreases rest@.len(),
    {
        let ghost prev = out@;
        let c = rest.remove(0);
        proof {
            assert(colsv.skip(i as int)[0] == colsv[i as int]);
            assert(c == colsv[i as int]);
            assert(colsv.skip(i as int).remove(0) =~= colsv.skip(i as int + 1));
        }
        let ghost cv = c;
        let j = column_to_json(c);
        out.push(j);
        proof {
            lemma_jv_views_push(prev, out@[i as int]);
            assert(prev.push(out@[i as int]) =~= out@);
            assert(jv_view(out@[i as int]) == spec_column_json(cv));
            let target = colsv.map_values(|c: ColumnMeta| spec_column_json(c));
            assert(target[i as int] == spec_column_json(colsv[i as int]));
            assert forall|k: int| 0 <= k < i + 1 implies jv_views(out@)[k] == target.take(
                i + 1,
            )[k] by {
                if k < i {
                    assert(jv_views(prev)[k] == target.take(i as int)[k]);
                }
            }
            assert(jv_views(out@) =~= target.take(i + 1));
        }
        i = i + 1;
    }
    proof {
        let target = colsv.map_values(|c: ColumnMeta| spec_column_json(c));
        assert(target.take(colsv.len() as int) =~= target);
    }
    out
}

/// Encodes the index rows as JSON values, in order.
fn indexes_to_json(idxs: Vec<IndexMeta>) -> (r: Vec<JsonValue>)
    ensures
        jv_views(r@) =~= idxs@.map_values(|x: IndexMeta| spec_index_json(x)),
{
    let ghost idxsv = idxs@;
    let mut out: Vec<JsonValue> = Vec::new();
    let mut rest = idxs;
    let mut i: usize = 0;
    let n0 = rest.len();
    proof {
        assert(rest@.skip(0) =~= idxsv);
        assert(idxsv.len() == n0);
    }
    while rest.len() > 0
        invariant
            i <= idxsv.len(),
            idxsv.len() <= usize::MAX,
            i + rest@.len() == idxsv.len(),
            out@.len() == i,
            rest@ =~= idxsv.skip(i as int),
            jv_views(out@) =~= idxsv.map_values(|x: IndexMeta| spec_index_json(x)).take(i as int),
        decreases rest@.len(),
    {
        let ghost prev = out@;
        let x = rest.remove(0);
        proof {
            assert(idxsv.skip(i as int)[0] == idxsv[i as int]);
            assert(x == idxsv[i as int]);
            assert(idxsv.skip(i as int).remove(0) =~= idxsv.skip(i as int + 1));
        }
        let ghost xv = x;
        let j = index_to_json(x);
        out.push(j);
        proof {
            lemma_jv_views_push(prev, out@[i as int]);
            assert(prev.push(out@[i as int]) =~= out@);
            assert(jv_view(out@[i as int]) == spec_index_json(xv));
            let target = idxsv.map_values(|x: IndexMeta| spec_index_json(x));
            assert(target[i as int] == spec_index_json(idxsv[i as int]));
            assert forall|k: int| 0 <= k < i + 1 implies jv_views(out@)[k] == target.take(
                i + 1,
            )[k] by {
                if k < i {
                    assert(jv_views(prev)[k] == target.take(i as int)[k]);
                }
            }
            assert(jv_views(out@) =~= target.take(i + 1));
        }
        i = i + 1;
    }
    proof {
        let target = idxsv.map_values(|x: IndexMeta| spec_index_json(x));
        assert(target.take(idxsv.len() as int) =~= target);
    }
    out
}

/// Builds one table's schema object from its metadata.
pub fn table_schema_json(table_name: String, cols: Vec<ColumnMeta>, idxs: Vec<IndexMeta>) -> (r:
    JsonValue)
    ensures
        r@ == spec_table_schema(table_name@, cols@, idxs@),
{
    let ghost tv = table_name@;
    let ghost colsv = cols@;
    let ghost idxsv = idxs@;
    let col_json = JsonValue::Arr(columns_to_json(cols));
    let idx_json = JsonValue::Arr(indexes_to_json(idxs));
    let ghost cj = col_json@;
    let ghost ij = idx_json@;
    let mut fields: Vec<(String, JsonValue)> = Vec::new();
    fields.push((String::from_str("table_name"), JsonValue::Str(table_name)));
    let ghost f1 = fields@;
    proof {
        lemma_jv_entries_push(Seq::empty(), f1[0]);
        assert(Seq::empty().push(f1[0]) =~= f1);
    }
    fields.push((String::from_str("columns"), col_json));
    let ghost f2 = fields@;
    proof {
        lemma_jv_entries_push(f1, f2[1]);
        assert(f1.push(f2[1]) =~= f2);
    }
    fields.push((String::from_str("indexes"), idx_json));
    let ghost f3 = fields@;
    proof {
        lemma_jv_entries_push(f2, f3[2]);
        assert(f2.push(f3[2]) =~= f3);
    }
    let out = JsonValue::Obj(fields);
    proof {
        assert(crate::json::jv_entries(out->Obj_0@) =~= spec_table_schema(tv, colsv, idxsv)->Obj_0);
        assert(out@ =~= spec_table_schema(tv, colsv, idxsv));
    }
    out
}

/// The result object for one table's schema.
pub open spec fn single_schema_data(table: Seq<char>, schema: JsonData) -> JsonData {
    JsonData::Obj(
        seq![
            ("content"@, content_block("Retrieved schema for table '"@ + table + "'."@)),
            ("schema"@, schema),
        ],
    )
}

/// Builds the response for one table's schema.
pub fn single_schema_response(id: Option<JsonValue>, table_name: &str, schema: JsonValue) -> (r:
    JsonRpcResponse)
    ensures
        response_wf(r),
        r.id == id,
        r.error is None,
        r.result matches Some(v) && v@ == single_schema_data(table_name@, schema@),
{
    let ghost tv = table_name@;
    let ghost sv = schema@;
    let text = String::from_str("Retrieved schema for table '").concat(table_name).concat("'.");
    let content = content_block_json(text);
    let mut fields: Vec<(String, JsonValue)> = Vec::new();
    fields.push((String::from_str("content"), content));
    let ghost f1 = fields@;
    proof {
        lemma_jv_entries_push(Seq::empty(), f1[0]);
        assert(Seq::empty().push(f1[0]) =~= f1);
    }
    fields.push((String::from_str("schema"), schema));
    let ghost f2 = fields@;
    proof {
        lemma_jv_entries_push(f1, f2[1]);
        assert(f1.push(f2[1]) =~= f2);
    }
    let out = JsonValue::Obj(fields);
    proof {
        assert(crate::json::jv_entries(out->Obj_0@) =~= single_schema_data(tv, sv)->Obj_0);
        assert(out@ =~= single_schema_data(tv, sv));
    }
    create_ok_response(id, out)
}

/// The result object for all table schemas.
pub open spec fn all_schemas_data(schemas: Seq<JsonData>) -> JsonData {
    JsonData::Obj(
        seq![
            (
                "content"@,
                content_block(
                    "Retrieved schemas for "@ + dec_str(schemas.len()) + " tables."@,
                ),
            ),
            ("schemas"@, JsonData::Arr(schemas)),
        ],
    )
}

/// Builds the response for all table schemas, one entry per table whose
/// fetch succeeded.
pub fn all_schemas_response(id: Option<JsonValue>, schemas: Vec<JsonValue>) -> (r: JsonRpcResponse)
    ensures
        response_wf(r),
        r.id == id,
        r.error is None,
        r.result matches Some(v) && v@ == all_schemas_data(jv_views(schemas@)),
{
    let n = schemas.len();
    let ghost sv = jv_views(schemas@);
    proof {
        crate::json::lemma_jv_views_index(schemas@);
    }
    let text = String::from_str("Retrieved schemas for ").concat(u64_to_string(n as u64).as_str())
        .concat(" tables.");
    let content = content_block_json(text);
    let arr = JsonValue::Arr(schemas);
    proof {
        assert(arr@ == JsonData::Arr(sv));
    }
    let mut fields: Vec<(String, JsonValue)> = Vec::new();
    fields.push((String::from_str("content"), content));
    let ghost f1 = fields@;
    proof {
        lemma_jv_entries_push(Seq::empty(), f1[0]);
        assert(Seq::empty().push(f1[0]) =~= f1);
    }
    fields.push((String::from_str("schemas"), arr));
    let ghost f2 = fields@;
    proof {
        lemma_jv_entries_push(f1, f2[1]);
        assert(f1.push(f2[1]) =~= f2);
    }
    let out = JsonValue::Obj(fields);
    proof {
        assert(crate::json::jv_entries(out->Obj_0@) =~= all_schemas_data(sv)->Obj_0);
        assert(out@ =~= all_schemas_data(sv));
    }
    create_ok_response(id, out)
}

/// Builds the error response for a failed schema operation.
pub fn schema_error_response(id: Option<JsonValue>, e: &DbError) -> (r: JsonRpcResponse)
    ensures
        response_wf(r),
        r.id == id,
        r.result is None,
        r.error matches Some(je) && je.code == e.spec_code() && je.message@ == e.spec_message(),
{
    let message = e.message();
    create_error_response(id, e.code(), message.as_str())
}

} // verus!
