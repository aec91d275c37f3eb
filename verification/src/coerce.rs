//! The column-type-to-JSON coercion table, and result-row shaping.
//!
//! A column's database-reported type name is classified into a closed set of
//! categories; the category prescribes which decodes the driver edge
//! attempts and how the outcome is encoded as JSON. A cell whose decode
//! failed becomes JSON null — decoding never fails a whole query. Exact
//! decimals are re-encoded as strings so no precision is lost.

use crate::json::{jv_entries, jv_view, JsonData, JsonValue};
use crate::strutil::str_eq;
use vstd::prelude::*;
use vstd::string::*;

verus! {

/// The recognized SQL type categories.
#[derive(Clone, Copy, Debug)]
pub enum TypeCategory {
    /// Boolean-flavored: try a boolean decode first, fall back to integer.
    BoolLike,
    Integer,
    Float,
    Decimal,
    DateTime,
    /// Everything else: text, binary, JSON, enums — encoded as text.
    Textual,
}

/// The category of a database-reported type name.
pub open spec fn spec_classify(name: Seq<char>) -> TypeCategory {
    if name == "BOOLEAN"@ || name == "TINYINT"@ {
        TypeCategory::BoolLike
    } else if name == "SMALLINT"@ || name == "INT"@ || name == "INTEGER"@ || name == "BIGINT"@ {
        TypeCategory::Integer
    } else if name == "FLOAT"@ || name == "DOUBLE"@ || name == "REAL"@ {
        TypeCategory::Float
    } else if name == "DECIMAL"@ || name == "NUMERIC"@ {
        TypeCategory::Decimal
    } else if name == "DATE"@ || name == "TIME"@ || name == "DATETIME"@ || name == "TIMESTAMP"@ {
        TypeCategory::DateTime
    } else {
        TypeCategory::Textual
    }
}

/// Classifies a database-reported type name.
pub fn classify_type(name: &str) -> (r: TypeCategory)
    ensures
        r == spec_classify(name@),
{
    if str_eq(name, "BOOLEAN") || str_eq(name, "TINYINT") {
        TypeCategory::BoolLike
    } else if str_eq(name, "SMALLINT") || str_eq(name, "INT") || str_eq(name, "INTEGER") || str_eq(
        name,
        "BIGINT",
    ) {
        TypeCategory::Integer
    } else if str_eq(name, "FLOAT") || str_eq(name, "DOUBLE") || str_eq(name, "REAL") {
        TypeCategory::Float
    } else if str_eq(name, "DECIMAL") || str_eq(name, "NUMERIC") {
        TypeCategory::Decimal
    } else if str_eq(name, "DATE") || str_eq(name, "TIME") || str_eq(name, "DATETIME") || str_eq(
        name,
        "TIMESTAMP",
    ) {
        TypeCategory::DateTime
    } else {
        TypeCategory::Textual
    }
}

/// What the driver edge decoded one cell to, under the decode its category
/// prescribes.
pub enum DecodedCell {
    /// The decode failed under every type the category prescribes.
    Undecodable,
    Bool(Option<bool>),
    Int(Option<i64>),
    /// A float or exact decimal, rendered as decimal text.
    NumberText(Option<String>),
    Text(Option<String>),
}

/// The JSON encoding of one decoded cell under its category.
///
/// A boolean-flavored cell keeps a successful boolean decode and otherwise
/// keeps the integer fallback; a decimal becomes a string, keeping its text
/// exactly; dates, times and everything textual become strings; an absent or
/// undecodable value becomes null.
pub open spec fn spec_cell_json(cat: TypeCategory, cell: DecodedCell) -> JsonData {
    match (cat, cell) {
        (TypeCategory::BoolLike, DecodedCell::Bool(Some(b))) => JsonData::Bool(b),
        (TypeCategory::BoolLike, DecodedCell::Int(Some(i))) => JsonData::Int(i),
        (TypeCategory::Integer, DecodedCell::Int(Some(i))) => JsonData::Int(i),
        (TypeCategory::Float, DecodedCell::NumberText(Some(s))) => JsonData::NumText(s@),
        (TypeCategory::Decimal, DecodedCell::NumberText(Some(s))) => JsonData::Str(s@),
        (TypeCategory::DateTime, DecodedCell::Text(Some(s))) => JsonData::Str(s@),
        (TypeCategory::Textual, DecodedCell::Text(Some(s))) => JsonData::Str(s@),
        _ => JsonData::Null,
    }
}

/// Encodes one decoded cell as JSON.
pub fn cell_to_json(cat: TypeCategory, cell: DecodedCell) -> (r: JsonValue)
    ensures
        r@ == spec_cell_json(cat, cell),
{
    match (cat, cell) {
        (TypeCategory::BoolLike, DecodedCell::Bool(Some(b))) => JsonValue::Bool(b),
        (TypeCategory::BoolLike, DecodedCell::Int(Some(i))) => JsonValue::Int(i),
        (TypeCategory::Integer, DecodedCell::Int(Some(i))) => JsonValue::Int(i),
        (TypeCategory::Float, DecodedCell::NumberText(Some(s))) => JsonValue::NumText(s),
        (TypeCategory::Decimal, DecodedCell::NumberText(Some(s))) => JsonValue::Str(s),
        (TypeCategory::DateTime, DecodedCell::Text(Some(s))) => JsonValue::Str(s),
        (TypeCategory::Textual, DecodedCell::Text(Some(s))) => JsonValue::Str(s),
        (_, _) => JsonValue::Null,
    }
}

/// One decoded result cell: column name, type category, decoded value.
pub struct RawCell {
    pub name: String,
    pub category: TypeCategory,
    pub cell: DecodedCell,
}

/// The JSON object entries of one result row.
pub open spec fn spec_row_entries(cells: Seq<RawCell>) -> Seq<(Seq<char>, JsonData)> {
    cells.map_values(|c: RawCell| (c.name@, spec_cell_json(c.category, c.cell)))
}

/// Encodes one result row as a JSON object, one entry per column in column
/// order.
pub fn row_to_json(cells: Vec<RawCell>) -> (r: JsonValue)
    ensures
        r@ == JsonData::Obj(spec_row_entries(cells@)),
{
    let ghost cellsv = cells@;
    let mut entries: Vec<(String, JsonValue)> = Vec::new();
    let mut rest = cells;
    let mut i: usize = 0;
    let n0 = rest.len();
    proof {
        assert(rest@.skip(0) =~= cellsv);
        assert(cellsv.len() == n0);
    }
    while rest.len() > 0
        invariant
            i <= cellsv.len(),
            cellsv.len() <= usize::MAX,
            i + rest@.len() == cellsv.len(),
            rest@ =~= cellsv.skip(i as int),
            jv_entries(entries@) =~= spec_row_entries(cellsv).take(i as int),
        decreases rest@.len(),
    {
        let ghost prev = entries@;
        let got = rest.remove(0);
        let ghost g = got;
        proof {
            assert(cellsv.skip(i as int)[0] == cellsv[i as int]);
            assert(g == cellsv[i as int]);
            assert(cellsv.skip(i as int).remove(0) =~= cellsv.skip(i as int + 1));
        }
        let RawCell { name, category, cell } = got;
        let ghost nv = name@;
        let v = cell_to_json(category, cell);
        let ghost vv = v@;
        entries.push((name, v));
        proof {
            crate::json::lemma_jv_entries_index(entries@);
            crate::json::lemma_jv_entries_index(prev);
            assert(entries@ == prev.push(entries@[i as int]));
            assert(entries@[i as int].0@ == nv);
            assert(jv_view(entries@[i as int].1) == vv);
            assert forall|j: int| 0 <= j < i + 1 implies jv_entries(entries@)[j] == spec_row_entries(
                cellsv,
            ).take(i + 1)[j] by {
                assert(jv_entries(entries@)[j] == (entries@[j].0@, jv_view(entries@[j].1)));
                if j < i {
                    assert(jv_entries(prev)[j] == (prev[j].0@, jv_view(prev[j].1)));
                    assert(jv_entries(prev)[j] == spec_row_entries(cellsv).take(i as int)[j]);
                    assert(entries@[j] == prev[j]);
                } else {
                    assert(spec_row_entries(cellsv)[j] == (
                        cellsv[j].name@,
                        spec_cell_json(cellsv[j].category, cellsv[j].cell),
                    ));
                    assert(entries@[j] == entries@[i as int]);
                    assert(nv == g.name@ && vv == spec_cell_json(g.category, g.cell));
                }
            }
            assert(jv_entries(entries@) =~= spec_row_entries(cellsv).take(i + 1));
        }
        i = i + 1;
    }
    proof {
        assert(spec_row_entries(cellsv).take(cellsv.len() as int) =~= spec_row_entries(cellsv));
    }
    JsonValue::Obj(entries)
}

/// Keeps at most `max_rows` rows; reports whether anything was cut.
pub fn truncate_rows(rows: Vec<JsonValue>, max_rows: usize) -> (r: (Vec<JsonValue>, bool))
    ensures
        r.1 == (rows@.len() > max_rows),
        rows@.len() <= max_rows ==> r.0@ == rows@,
        rows@.len() > max_rows ==> r.0@ == rows@.take(max_rows as int),
{
    let truncated = rows.len() > max_rows;
    let mut kept = rows;
    kept.truncate(max_rows);
    (kept, truncated)
}

} // verus!
