//! The SQL statement builders.
//!
//! Every identifier that is embedded in statement text here is required to
//! have passed the identifier gate; values never appear in the text, they
//! are always left to bound `?` placeholders.

use crate::ident::valid_identifier;
use crate::strutil::{join_repeated, join_seq, join_strings, repeat_seq, str_views};
use vstd::prelude::*;
use vstd::string::*;

verus! {

/// `USE `db``.
pub open spec fn use_sql(db: Seq<char>) -> Seq<char> {
    "USE `"@ + db + "`"@
}

/// Builds the statement that switches the connection's database context.
pub fn build_use(db: &str) -> (r: String)
    requires
        valid_identifier(db@),
    ensures
        r@ == use_sql(db@),
{
    String::from_str("USE `").concat(db).concat("`")
}

/// `SHOW INDEX FROM `db`.`table``.
pub open spec fn show_index_sql(db: Seq<char>, table: Seq<char>) -> Seq<char> {
    "SHOW INDEX FROM `"@ + db + "`.`"@ + table + "`"@
}

/// Builds the index-listing statement. Both names are embedded as
/// identifiers, so both must have passed the identifier gate.
pub fn build_show_index(db: &str, table: &str) -> (r: String)
    requires
        valid_identifier(db@),
        valid_identifier(table@),
    ensures
        r@ == show_index_sql(db@, table@),
{
    String::from_str("SHOW INDEX FROM `").concat(db).concat("`.`").concat(table).concat("`")
}

/// `col = ?` for each column.
pub open spec fn eq_clauses(cols: Seq<Seq<char>>) -> Seq<Seq<char>> {
    cols.map_values(|c: Seq<char>| c + " = ?"@)
}

/// Builds the `col = ?` clause list for `cols`.
fn build_eq_clauses(cols: &Vec<String>) -> (r: Vec<String>)
    ensures
        str_views(r@) == eq_clauses(str_views(cols@)),
{
    let mut r: Vec<String> = Vec::new();
    let mut i: usize = 0;
    while i < cols.len()
        invariant
            i <= cols@.len(),
            str_views(r@) =~= eq_clauses(str_views(cols@)).take(i as int),
        decreases cols@.len() - i,
    {
        let ghost prev = r@;
        let clause = cols[i].clone().concat(" = ?");
        let ghost cv = clause@;
        assert(cv == cols@[i as int]@ + " = ?"@);
        r.push(clause);
        proof {
            let target = eq_clauses(str_views(cols@));
            assert(str_views(prev).len() == prev.len());
            assert(str_views(prev).len() == target.take(i as int).len());
            assert(prev.len() == i);
            assert(r@ == prev.push(r@[i as int]));
            assert(r@[i as int]@ == cv);
            assert forall|j: int| 0 <= j < i + 1 implies str_views(r@)[j] == target.take(
                i + 1,
            )[j] by {
                if j < i {
                    assert(str_views(prev)[j] == target.take(i as int)[j]);
                }
            }
            assert(str_views(r@) =~= target.take(i + 1));
        }
        i = i + 1;
    }
    proof {
        assert(eq_clauses(str_views(cols@)).take(cols@.len() as int) =~= eq_clauses(
            str_views(cols@),
        ));
    }
    r
}

/// `INSERT INTO table (c1, c2, …) VALUES (?, ?, …)`.
pub open spec fn insert_sql(table: Seq<char>, cols: Seq<Seq<char>>) -> Seq<char> {
    "INSERT INTO "@ + table + " ("@ + join_seq(cols, ", "@) + ") VALUES ("@ + join_seq(
        repeat_seq("?"@, cols.len()),
        ", "@,
    ) + ")"@
}

/// Builds an INSERT statement with one placeholder per column.
pub fn build_insert(table: &str, cols: &Vec<String>) -> (r: String)
    requires
        valid_identifier(table@),
        forall|i: int| 0 <= i < cols@.len() ==> valid_identifier(#[trigger] cols@[i]@),
    ensures
        r@ == insert_sql(table@, str_views(cols@)),
{
    let col_list = join_strings(cols, ", ");
    let placeholders = join_repeated("?", cols.len(), ", ");
    String::from_str("INSERT INTO ").concat(table).concat(" (").concat(col_list.as_str()).concat(
        ") VALUES (",
    ).concat(placeholders.as_str()).concat(")")
}

/// `UPDATE table SET c1 = ?, … WHERE k1 = ? AND …`.
pub open spec fn update_sql(table: Seq<char>, set_cols: Seq<Seq<char>>, where_cols: Seq<
    Seq<char>,
>) -> Seq<char> {
    "UPDATE "@ + table + " SET "@ + join_seq(eq_clauses(set_cols), ", "@) + " WHERE "@ + join_seq(
        eq_clauses(where_cols),
        " AND "@,
    )
}

/// Builds an UPDATE statement; conditions combine with AND and equality
/// only.
pub fn build_update(table: &str, set_cols: &Vec<String>, where_cols: &Vec<String>) -> (r: String)
    requires
        valid_identifier(table@),
        forall|i: int| 0 <= i < set_cols@.len() ==> valid_identifier(#[trigger] set_cols@[i]@),
        forall|i: int| 0 <= i < where_cols@.len() ==> valid_identifier(#[trigger] where_cols@[i]@),
    ensures
        r@ == update_sql(table@, str_views(set_cols@), str_views(where_cols@)),
{
    let set_list = join_strings(&build_eq_clauses(set_cols), ", ");
    let where_list = join_strings(&build_eq_clauses(where_cols), " AND ");
    String::from_str("UPDATE ").concat(table).concat(" SET ").concat(set_list.as_str()).concat(
        " WHERE ",
    ).concat(where_list.as_str())
}

/// `DELETE FROM table WHERE k1 = ? AND …`.
pub open spec fn delete_sql(table: Seq<char>, where_cols: Seq<Seq<char>>) -> Seq<char> {
    "DELETE FROM "@ + table + " WHERE "@ + join_seq(eq_clauses(where_cols), " AND "@)
}

/// Builds a DELETE statement; conditions combine with AND and equality
/// only.
pub fn build_delete(table: &str, where_cols: &Vec<String>) -> (r: String)
    requires
        valid_identifier(table@),
        forall|i: int| 0 <= i < where_cols@.len() ==> valid_identifier(#[trigger] where_cols@[i]@),
    ensures
        r@ == delete_sql(table@, str_views(where_cols@)),
{
    let where_list = join_strings(&build_eq_clauses(where_cols), " AND ");
    String::from_str("DELETE FROM ").concat(table).concat(" WHERE ").concat(where_list.as_str())
}

/// The statement that reports the currently selected database.
pub fn current_db_sql() -> (r: String)
    ensures
        r@ == "SELECT DATABASE()"@,
{
    String::from_str("SELECT DATABASE()")
}

/// The statement that lists the base tables of a database; the database
/// name is a bound parameter.
pub fn list_tables_sql() -> (r: String)
    ensures
        r@
            == "SELECT table_name FROM information_schema.tables WHERE table_schema = ? AND table_type = 'BASE TABLE'"@,
{
    String::from_str(
        "SELECT table_name FROM information_schema.tables WHERE table_schema = ? AND table_type = 'BASE TABLE'",
    )
}

/// The statement that checks that a table exists; both names are bound
/// parameters.
pub fn table_exists_sql() -> (r: String)
    ensures
        r@
            == "SELECT table_name FROM information_schema.tables WHERE table_name = ? AND table_schema = ?"@,
{
    String::from_str(
        "SELECT table_name FROM information_schema.tables WHERE table_name = ? AND table_schema = ?",
    )
}

/// The statement that reads a table's column metadata in ordinal order;
/// both names are bound parameters.
pub fn columns_sql() -> (r: String)
    ensures
        r@
            == "SELECT column_name, data_type, is_nullable, column_default, column_key, extra, column_comment FROM information_schema.columns WHERE table_name = ? AND table_schema = ? ORDER BY ordinal_position"@,
{
    String::from_str(
        "SELECT column_name, data_type, is_nullable, column_default, column_key, extra, column_comment FROM information_schema.columns WHERE table_name = ? AND table_schema = ? ORDER BY ordinal_position",
    )
}

/// The statement that reads the connection's last generated id.
pub fn last_insert_id_sql() -> (r: String)
    ensures
        r@ == "SELECT LAST_INSERT_ID()"@,
{
    String::from_str("SELECT LAST_INSERT_ID()")
}

/// The statement that opens the read-only transaction around a gated query.
pub fn begin_read_only_sql() -> (r: String)
    ensures
        r@ == "START TRANSACTION READ ONLY"@,
{
    String::from_str("START TRANSACTION READ ONLY")
}

/// The statement that closes the read-only transaction.
pub fn rollback_sql() -> (r: String)
    ensures
        r@ == "ROLLBACK"@,
{
    String::from_str("ROLLBACK")
}

} // verus!
