//! Validation and statement building for the three data mutations.
//!
//! Each preparer validates the table name and every key as identifiers and
//! rejects empty mappings, before any SQL text exists at all; on success it
//! returns the finished statement together with the values to bind, in
//! statement order.

use crate::error::{DbError, CODE_CONNECTION_ERROR, CODE_SQL_ERROR};
use crate::ident::{is_valid_identifier, valid_identifier};
use crate::json::JsonValue;
use crate::json::JsonData;
use crate::rpc::{create_error_response, create_ok_response, response_wf, JsonRpcResponse};
use crate::sql::{build_delete, build_insert, build_update, delete_sql, insert_sql, update_sql};
use crate::strutil::str_views;
use vstd::prelude::*;
use vstd::string::*;

verus! {

/// The keys of an entry list, as character sequences.
pub open spec fn entry_keys(es: Seq<(String, JsonValue)>) -> Seq<Seq<char>> {
    es.map_values(|e: (String, JsonValue)| e.0@)
}

/// Every key of the entry list passes the identifier gate.
pub open spec fn all_keys_valid(es: Seq<(String, JsonValue)>) -> bool {
    forall|i: int| 0 <= i < es.len() ==> valid_identifier(#[trigger] es[i].0@)
}

/// An INSERT statement and the values to bind to its placeholders, in
/// order.
pub struct InsertPlan {
    pub sql: String,
    pub entries: Vec<(String, JsonValue)>,
}

/// An UPDATE statement and the values to bind: first the SET values, then
/// the WHERE values.
pub struct UpdatePlan {
    pub sql: String,
    pub set_entries: Vec<(String, JsonValue)>,
    pub where_entries: Vec<(String, JsonValue)>,
}

/// A DELETE statement and the values to bind to its WHERE placeholders.
pub struct DeletePlan {
    pub sql: String,
    pub where_entries: Vec<(String, JsonValue)>,
}

/// If the owned key strings view to the entry keys and every entry key is
/// valid, every owned key is valid.
proof fn lemma_keys_valid_cols(es: Seq<(String, JsonValue)>, cols: Seq<String>)
    requires
        str_views(cols) == entry_keys(es),
        all_keys_valid(es),
    ensures
        forall|i: int| 0 <= i < cols.len() ==> valid_identifier(#[trigger] cols[i]@),
{
    assert(str_views(cols).len() == cols.len());
    assert(entry_keys(es).len() == es.len());
    assert forall|i: int| 0 <= i < cols.len() implies valid_identifier(cols[i]@) by {
        assert(str_views(cols)[i] == cols[i]@);
        assert(entry_keys(es)[i] == es[i].0@);
    }
}

/// Validates every key of `es` and returns the keys as owned strings.
///
/// On a failing key, returns that key.
fn validated_keys(es: &Vec<(String, JsonValue)>) -> (r: Result<Vec<String>, String>)
    ensures
        match r {
            Ok(cols) => all_keys_valid(es@) && str_views(cols@) == entry_keys(es@),
            Err(k) => !valid_identifier(k@) && entry_keys(es@).contains(k@),
        },
{
    let mut cols: Vec<String> = Vec::new();
    let mut i: usize = 0;
    while i < es.len()
        invariant
            i <= es@.len(),
            str_views(cols@) =~= entry_keys(es@).take(i as int),
            forall|j: int| 0 <= j < i ==> valid_identifier(#[trigger] es@[j].0@),
        decreases es@.len() - i,
    {
        if !is_valid_identifier(es[i].0.as_str()) {
            let k = es[i].0.clone();
            proof {
                assert(entry_keys(es@)[i as int] == k@);
            }
            return Err(k);
        }
        let ghost prev = cols@;
        let k = es[i].0.clone();
        let ghost kv = k@;
        cols.push(k);
        proof {
            assert(str_views(prev).len() == entry_keys(es@).take(i as int).len());
            assert(cols@ == prev.push(cols@[i as int]));
            assert(cols@[i as int]@ == kv);
            assert forall|j: int| 0 <= j < i + 1 implies str_views(cols@)[j] == entry_keys(
                es@,
            ).take(i + 1)[j] by {
                if j < i {
                    assert(str_views(prev)[j] == entry_keys(es@).take(i as int)[j]);
                }
            }
            assert(str_views(cols@) =~= entry_keys(es@).take(i + 1));
        }
        i = i + 1;
    }
    proof {
        assert(entry_keys(es@).take(es@.len() as int) =~= entry_keys(es@));
    }
    Ok(cols)
}

/// Validates the inputs of an insert and builds its plan.
pub fn prepare_insert(table_name: String, data: JsonValue) -> (r: Result<InsertPlan, DbError>)
    ensures
        match r {
            Ok(plan) => {
                &&& valid_identifier(table_name@)
                &&& data matches JsonValue::Obj(es)
                &&& es@.len() > 0
                &&& all_keys_valid(es@)
                &&& plan.entries == es
                &&& plan.sql@ == insert_sql(table_name@, entry_keys(es@))
            },
            Err(e) => {
                if !valid_identifier(table_name@) {
                    e matches DbError::InvalidIdentifier(n) && n@ == table_name@
                } else if !(data matches JsonValue::Obj(_)) {
                    e matches DbError::InvalidInput(m) && m@ == "Data must be an object"@
                } else if (data->Obj_0)@.len() == 0 {
                    e matches DbError::InvalidInput(m) && m@ == "Data object is empty"@
                } else {
                    e matches DbError::InvalidIdentifier(n) && !valid_identifier(n@)
                        && entry_keys((data->Obj_0)@).contains(n@)
                }
            },
        },
{
    if !is_valid_identifier(table_name.as_str()) {
        return Err(DbError::InvalidIdentifier(table_name));
    }
    let entries = match data {
        JsonValue::Obj(es) => es,
        _ => {
            return Err(DbError::InvalidInput(String::from_str("Data must be an object")));
        },
    };
    if entries.len() == 0 {
        return Err(DbError::InvalidInput(String::from_str("Data object is empty")));
    }
    let cols = match validated_keys(&entries) {
        Ok(cols) => cols,
        Err(k) => {
            return Err(DbError::InvalidIdentifier(k));
        },
    };
    proof {
        lemma_keys_valid_cols(entries@, cols@);
    }
    let sql = build_insert(table_name.as_str(), &cols);
    Ok(InsertPlan { sql, entries })
}

/// Validates the inputs of an update and builds its plan.
pub fn prepare_update(table_name: String, data: JsonValue, conditions: JsonValue) -> (r: Result<
    UpdatePlan,
    DbError,
>)
    ensures
        match r {
            Ok(plan) => {
                &&& valid_identifier(table_name@)
                &&& data matches JsonValue::Obj(ds)
                &&& conditions matches JsonValue::Obj(cs)
                &&& ds@.len() > 0
                &&& cs@.len() > 0
                &&& all_keys_valid(ds@)
                &&& all_keys_valid(cs@)
                &&& plan.set_entries == ds
                &&& plan.where_entries == cs
                &&& plan.sql@ == update_sql(table_name@, entry_keys(ds@), entry_keys(cs@))
            },
            Err(e) => {
                if !valid_identifier(table_name@) {
                    e matches DbError::InvalidIdentifier(n) && n@ == table_name@
                } else if !(data matches JsonValue::Obj(_)) {
                    e matches DbError::InvalidInput(m) && m@ == "Data must be an object"@
                } else if !(conditions matches JsonValue::Obj(_)) {
                    e matches DbError::InvalidInput(m) && m@ == "Conditions must be an object"@
                } else if (data->Obj_0)@.len() == 0 {
                    e matches DbError::InvalidInput(m) && m@ == "Data object is empty"@
                } else if (conditions->Obj_0)@.len() == 0 {
                    e matches DbError::InvalidInput(m) && m@ == "Conditions object is empty"@
                } else {
                    e matches DbError::InvalidIdentifier(n) && !valid_identifier(n@) && (entry_keys(
                        (data->Obj_0)@,
                    ).contains(n@) || entry_keys((conditions->Obj_0)@).contains(n@))
                }
            },
        },
{
    if !is_valid_identifier(table_name.as_str()) {
        return Err(DbError::InvalidIdentifier(table_name));
    }
    let set_entries = match data {
        JsonValue::Obj(es) => es,
        _ => {
            return Err(DbError::InvalidInput(String::from_str("Data must be an object")));
        },
    };
    let where_entries = match conditions {
        JsonValue::Obj(es) => es,
        _ => {
            return Err(DbError::InvalidInput(String::from_str("Conditions must be an object")));
        },
    };
    if set_entries.len() == 0 {
        return Err(DbError::InvalidInput(String::from_str("Data object is empty")));
    }
    if where_entries.len() == 0 {
        return Err(DbError::InvalidInput(String::from_str("Conditions object is empty")));
    }
    let set_cols = match validated_keys(&set_entries) {
        Ok(cols) => cols,
        Err(k) => {
            return Err(DbError::InvalidIdentifier(k));
        },
    };
    let where_cols = match validated_keys(&where_entries) {
        Ok(cols) => cols,
        Err(k) => {
            return Err(DbError::InvalidIdentifier(k));
        },
    };
    proof {
        lemma_keys_valid_cols(set_entries@, set_cols@);
        lemma_keys_valid_cols(where_entries@, where_cols@);
    }
    let sql = build_update(table_name.as_str(), &set_cols, &where_cols);
    Ok(UpdatePlan { sql, set_entries, where_entries })
}

/// Validates the inputs of a delete and builds its plan.
pub fn prepare_delete(table_name: String, conditions: JsonValue) -> (r: Result<DeletePlan, DbError>)
    ensures
        match r {
            Ok(plan) => {
                &&& valid_identifier(table_name@)
                &&& conditions matches JsonValue::Obj(cs)
                &&& cs@.len() > 0
                &&& all_keys_valid(cs@)
                &&& plan.where_entries == cs
                &&& plan.sql@ == delete_sql(table_name@, entry_keys(cs@))
            },
            Err(e) => {
                if !valid_identifier(table_name@) {
                    e matches DbError::InvalidIdentifier(n) && n@ == table_name@
                } else if !(conditions matches JsonValue::Obj(_)) {
                    e matches DbError::InvalidInput(m) && m@ == "Conditions must be an object"@
                } else if (conditions->Obj_0)@.len() == 0 {
                    e matches DbError::InvalidInput(m) && m@ == "Conditions object is empty"@
                } else {
                    e matches DbError::InvalidIdentifier(n) && !valid_identifier(n@)
                        && entry_keys((conditions->Obj_0)@).contains(n@)
                }
            },
        },
{
    if !is_valid_identifier(table_name.as_str()) {
        return Err(DbError::InvalidIdentifier(table_name));
    }
    let where_entries = match conditions {
        JsonValue::Obj(es) => es,
        _ => {
            return Err(DbError::InvalidInput(String::from_str("Conditions must be an object")));
        },
    };
    if where_entries.len() == 0 {
        return Err(DbError::InvalidInput(String::from_str("Conditions object is empty")));
    }
    let where_cols = match validated_keys(&where_entries) {
        Ok(cols) => cols,
        Err(k) => {
            return Err(DbError::InvalidIdentifier(k));
        },
    };
    proof {
        lemma_keys_valid_cols(where_entries@, where_cols@);
    }
    let sql = build_delete(table_name.as_str(), &where_cols);
    Ok(DeletePlan { sql, where_entries })
}


/// Builds the response for a mutation that could not get a connection.
pub fn mutation_conn_error_response(id: Option<JsonValue>, err: &str) -> (r: JsonRpcResponse)
    ensures
        response_wf(r),
        r.id == id,
        r.result is None,
        r.error matches Some(e) && e.code == CODE_CONNECTION_ERROR && e.message@
            == "Database connection error: "@ + err@,
{
    let message = String::from_str("Database connection error: ").concat(err);
    create_error_response(id, CODE_CONNECTION_ERROR, message.as_str())
}

/// Builds the response for a mutation whose statement failed, with the
/// operation's own prefix (`Insert failed: `, and so on).
pub fn mutation_fail_response(id: Option<JsonValue>, prefix: &str, err: &str) -> (r:
    JsonRpcResponse)
    ensures
        response_wf(r),
        r.id == id,
        r.result is None,
        r.error matches Some(e) && e.code == CODE_SQL_ERROR && e.message@ == prefix@ + err@,
{
    let message = String::from_str(prefix).concat(err);
    create_error_response(id, CODE_SQL_ERROR, message.as_str())
}

/// The result object of a successful insert.
pub open spec fn insert_result_data(last_id: u64) -> JsonData {
    JsonData::Obj(
        seq![("success"@, JsonData::Bool(true)), ("last_insert_id"@, JsonData::UInt(last_id))],
    )
}

/// Builds the response for a successful insert, carrying the last
/// generated id the connection reported (zero when it was unavailable).
pub fn insert_ok_response(id: Option<JsonValue>, last_id: u64) -> (r: JsonRpcResponse)
    ensures
        response_wf(r),
        r.id == id,
        r.error is None,
        r.result matches Some(v) && v@ == insert_result_data(last_id),
{
    let mut fields: Vec<(String, JsonValue)> = Vec::new();
    fields.push((String::from_str("success"), JsonValue::Bool(true)));
    let ghost f1 = fields@;
    proof {
        crate::json::lemma_jv_entries_push(Seq::empty(), f1[0]);
        assert(Seq::empty().push(f1[0]) =~= f1);
    }
    fields.push((String::from_str("last_insert_id"), JsonValue::UInt(last_id)));
    let ghost f2 = fields@;
    proof {
        crate::json::lemma_jv_entries_push(f1, f2[1]);
        assert(f1.push(f2[1]) =~= f2);
    }
    let out = JsonValue::Obj(fields);
    proof {
        assert(crate::json::jv_entries(out->Obj_0@) =~= insert_result_data(last_id)->Obj_0);
        assert(out@ =~= insert_result_data(last_id));
    }
    create_ok_response(id, out)
}

/// The result object of a successful update or delete.
pub open spec fn affected_result_data(affected: u64) -> JsonData {
    JsonData::Obj(
        seq![("success"@, JsonData::Bool(true)), ("affected_rows"@, JsonData::UInt(affected))],
    )
}

/// Builds the response for a successful update or delete, carrying the
/// affected-row count the database reported.
pub fn affected_ok_response(id: Option<JsonValue>, affected: u64) -> (r: JsonRpcResponse)
    ensures
        response_wf(r),
        r.id == id,
        r.error is None,
        r.result matches Some(v) && v@ == affected_result_data(affected),
{
    let mut fields: Vec<(String, JsonValue)> = Vec::new();
    fields.push((String::from_str("success"), JsonValue::Bool(true)));
    let ghost f1 = fields@;
    proof {
        crate::json::lemma_jv_entries_push(Seq::empty(), f1[0]);
        assert(Seq::empty().push(f1[0]) =~= f1);
    }
    fields.push((String::from_str("affected_rows"), JsonValue::UInt(affected)));
    let ghost f2 = fields@;
    proof {
        crate::json::lemma_jv_entries_push(f1, f2[1]);
        assert(f1.push(f2[1]) =~= f2);
    }
    let out = JsonValue::Obj(fields);
    proof {
        assert(crate::json::jv_entries(out->Obj_0@) =~= affected_result_data(affected)->Obj_0);
        assert(out@ =~= affected_result_data(affected));
    }
    create_ok_response(id, out)
}

} // verus!
