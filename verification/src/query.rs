//! The query engine: the read-only gate, the statement plan, and the
//! connection protocol that wraps a gated statement in a read-only
//! transaction.
//!
//! The protocol is a state machine. The driver edge asks for the next
//! action, performs it against the database, and reports what happened;
//! every decision — what to execute next, when to open the transaction,
//! that the transaction is rolled back exactly once whether the statement
//! succeeded or failed, and how the outcome becomes a response — is made
//! and verified here.

use crate::coerce::truncate_rows;
use crate::error::{DbError, CODE_DB_CONTEXT, CODE_NO_DATABASE, CODE_SQL_ERROR};
use crate::gate::{query_permitted_readonly, read_only_permits};
use crate::ident::{is_valid_identifier, valid_identifier};
use crate::json::{jv_views, JsonData, JsonValue};
use crate::num::{dec_str, u64_to_string};
use crate::rpc::{create_error_response, create_ok_response, response_wf, JsonRpcResponse};
use crate::sql::{begin_read_only_sql, build_use, rollback_sql, use_sql};
use vstd::prelude::*;
use vstd::string::*;

verus! {

/// A validated, gated query, ready for the protocol.
pub struct QueryPlan {
    /// The statement to run, exactly as the client sent it.
    pub statement: String,
    /// The context switch to issue first, when a database override was
    /// given.
    pub use_stmt: Option<String>,
    /// Whether the statement must run inside a read-only transaction.
    pub read_only: bool,
    /// How many result rows may be returned.
    pub max_rows: usize,
}

/// Validates a query request and builds its plan.
///
/// With dangerous queries disallowed the statement must pass the read-only
/// gate, and the plan wraps it in a read-only transaction; a database
/// override must pass the identifier gate.
pub fn prepare_query(query: String, database: Option<String>, allow_dangerous: bool, max_rows: usize) -> (r: Result<
    QueryPlan,
    DbError,
>)
    ensures
        r is Ok <==> (allow_dangerous || read_only_permits(query@)) && (match database {
            Some(db) => valid_identifier(db@),
            None => true,
        }),
        match r {
            Ok(plan) => {
                &&& plan.statement == query
                &&& plan.read_only == !allow_dangerous
                &&& plan.max_rows == max_rows
                &&& match database {
                    Some(db) => plan.use_stmt matches Some(u) && u@ == use_sql(db@),
                    None => plan.use_stmt is None,
                }
            },
            Err(e) => {
                if !allow_dangerous && !read_only_permits(query@) {
                    e matches DbError::ReadOnlyViolation(m) && m@
                        == "Only SELECT, SHOW, DESCRIBE and EXPLAIN statements are allowed. Use the allow-dangerous-queries flag to execute other statements."@
                } else {
                    database matches Some(db) && e matches DbError::InvalidIdentifier(n) && n@
                        == db@
                }
            },
        },
{
    if !allow_dangerous && !query_permitted_readonly(query.as_str()) {
        return Err(
            DbError::ReadOnlyViolation(
                String::from_str(
                    "Only SELECT, SHOW, DESCRIBE and EXPLAIN statements are allowed. Use the allow-dangerous-queries flag to execute other statements.",
                ),
            ),
        );
    }
    let use_stmt = match database {
        Some(db) => {
            if !is_valid_identifier(db.as_str()) {
                return Err(DbError::InvalidIdentifier(db));
            }
            Some(build_use(db.as_str()))
        },
        None => None,
    };
    Ok(QueryPlan { statement: query, use_stmt, read_only: !allow_dangerous, max_rows })
}

/// Where the protocol stands.
pub enum QueryStep {
    /// A dedicated connection must be acquired.
    AcquireConn,
    /// The database context switch must be issued.
    SetContext,
    /// The read-only transaction must be opened.
    BeginReadOnly,
    /// The statement itself must run.
    RunStatement,
    /// The transaction must be rolled back.
    Rollback,
    /// Nothing is left to do.
    Done,
}

/// What the driver edge must do next.
pub enum QueryAction {
    /// Acquire one dedicated connection from the pool.
    Acquire,
    /// Execute this statement on the connection, discarding rows.
    Exec(String),
    /// Run this statement on the connection and fetch all rows.
    Fetch(String),
    /// The protocol is finished; build the response.
    Finished,
}

/// The protocol state for one query.
pub struct QueryExec {
    pub plan: QueryPlan,
    pub step: QueryStep,
    /// Whether the statement itself was run (successfully or not).
    pub ran: bool,
    /// How many rollbacks the protocol has issued.
    pub rollbacks: u64,
    /// The rows kept and the truncation flag, or the error to report.
    pub outcome: Option<Result<(Vec<JsonValue>, bool), (i32, String)>>,
}

impl QueryExec {
    /// The protocol invariant. A rollback is issued exactly once when the
    /// statement ran under the read-only flag, and never otherwise.
    pub open spec fn wf(self) -> bool {
        &&& (self.step is SetContext ==> self.plan.use_stmt is Some)
        &&& ((self.step is BeginReadOnly || self.step is Rollback) ==> self.plan.read_only)
        &&& (!self.plan.read_only ==> self.rollbacks == 0)
        &&& (self.rollbacks <= 1)
        &&& (self.rollbacks == 1 <==> (self.step is Done && self.ran && self.plan.read_only))
        &&& (self.ran ==> (self.step is Rollback || self.step is Done))
        &&& (self.step is Rollback ==> self.ran && self.outcome is Some)
        &&& (self.step is Done ==> self.outcome is Some)
        &&& (self.outcome is Some ==> (self.step is Rollback || self.step is Done))
    }

    /// Starts the protocol for a plan.
    pub fn start(plan: QueryPlan) -> (r: QueryExec)
        ensures
            r.wf(),
            r.plan == plan,
            r.step is AcquireConn,
            r.ran == false,
            r.rollbacks == 0,
            r.outcome is None,
    {
        QueryExec { plan, step: QueryStep::AcquireConn, ran: false, rollbacks: 0, outcome: None }
    }

    /// What the driver edge must do in the current step.
    pub fn current_action(&self) -> (r: QueryAction)
        requires
            self.wf(),
        ensures
            match self.step {
                QueryStep::AcquireConn => r is Acquire,
                QueryStep::SetContext => r matches QueryAction::Exec(s) && Some(s@) == (match self
                    .plan.use_stmt {
                    Some(u) => Some(u@),
                    None => None,
                }),
                QueryStep::BeginReadOnly => r matches QueryAction::Exec(s) && s@
                    == "START TRANSACTION READ ONLY"@,
                QueryStep::RunStatement => r matches QueryAction::Fetch(s) && s@
                    == self.plan.statement@,
                QueryStep::Rollback => r matches QueryAction::Exec(s) && s@ == "ROLLBACK"@,
                QueryStep::Done => r is Finished,
            },
    {
        match self.step {
            QueryStep::AcquireConn => QueryAction::Acquire,
            QueryStep::SetContext => {
                match &self.plan.use_stmt {
                    Some(u) => QueryAction::Exec(u.clone()),
                    None => QueryAction::Acquire,  // unreachable under wf
                }
            },
            QueryStep::BeginReadOnly => QueryAction::Exec(begin_read_only_sql()),
            QueryStep::RunStatement => QueryAction::Fetch(self.plan.statement.clone()),
            QueryStep::Rollback => QueryAction::Exec(rollback_sql()),
            QueryStep::Done => QueryAction::Finished,
        }
    }

    /// The step that follows a successful connection acquisition.
    pub open spec fn after_acquire_step(plan: QueryPlan) -> QueryStep {
        if plan.use_stmt is Some {
            QueryStep::SetContext
        } else if plan.read_only {
            QueryStep::BeginReadOnly
        } else {
            QueryStep::RunStatement
        }
    }

    /// Reports whether the connection was acquired.
    pub fn on_acquire(&mut self, ok: bool, err: String)
        requires
            old(self).wf(),
            old(self).step is AcquireConn,
        ensures
            final(self).wf(),
            final(self).plan == old(self).plan,
            final(self).ran == false,
            final(self).rollbacks == 0,
            ok ==> final(self).outcome is None && final(self).step == Self::after_acquire_step(
                old(self).plan,
            ),
            !ok ==> final(self).step is Done && (final(self).outcome matches Some(o) && (
            o matches Err(c) && c.0 == CODE_NO_DATABASE && c.1@
                == "Failed to acquire database connection: "@ + err@)),
    {
        if ok {
            self.step = if self.plan.use_stmt.is_some() {
                QueryStep::SetContext
            } else if self.plan.read_only {
                QueryStep::BeginReadOnly
            } else {
                QueryStep::RunStatement
            };
        } else {
            self.step = QueryStep::Done;
            self.outcome = Some(
                Err(
                    (
                        CODE_NO_DATABASE,
                        String::from_str("Failed to acquire database connection: ").concat(
                            err.as_str(),
                        ),
                    ),
                ),
            );
        }
    }

    /// Reports whether the database context switch succeeded.
    pub fn on_context(&mut self, ok: bool, err: String)
        requires
            old(self).wf(),
            old(self).step is SetContext,
        ensures
            final(self).wf(),
            final(self).plan == old(self).plan,
            final(self).ran == false,
            final(self).rollbacks == 0,
            ok ==> final(self).step == (if old(self).plan.read_only {
                QueryStep::BeginReadOnly
            } else {
                QueryStep::RunStatement
            }) && final(self).outcome is None,
            !ok ==> final(self).step is Done && (final(self).outcome matches Some(o) && (
            o matches Err(c) && c.0 == CODE_DB_CONTEXT && c.1@
                == "Failed to set database context: "@ + err@)),
    {
        if ok {
            self.step = if self.plan.read_only {
                QueryStep::BeginReadOnly
            } else {
                QueryStep::RunStatement
            };
        } else {
            self.step = QueryStep::Done;
            self.outcome = Some(
                Err(
                    (
                        CODE_DB_CONTEXT,
                        String::from_str("Failed to set database context: ").concat(err.as_str()),
                    ),
                ),
            );
        }
    }

    /// Reports whether the read-only transaction opened.
    ///
    /// When opening fails there is no transaction, so nothing is rolled
    /// back.
    pub fn on_begin(&mut self, ok: bool, err: String)
        requires
            old(self).wf(),
            old(self).step is BeginReadOnly,
        ensures
            final(self).wf(),
            final(self).plan == old(self).plan,
            final(self).ran == false,
            final(self).rollbacks == 0,
            ok ==> final(self).step is RunStatement && final(self).outcome is None,
            !ok ==> final(self).step is Done && (final(self).outcome matches Some(o) && (
            o matches Err(c) && c.0 == CODE_SQL_ERROR && c.1@
                == "Query execution failed: "@ + err@)),
    {
        if ok {
            self.step = QueryStep::RunStatement;
        } else {
            self.step = QueryStep::Done;
            self.outcome = Some(
                Err(
                    (
                        CODE_SQL_ERROR,
                        String::from_str("Query execution failed: ").concat(err.as_str()),
                    ),
                ),
            );
        }
    }

    /// Reports what running the statement produced: the decoded rows, or
    /// the driver's error. Either way, under the read-only flag the next
    /// action is the rollback.
    pub fn on_rows(&mut self, result: Result<Vec<JsonValue>, String>)
        requires
            old(self).wf(),
            old(self).step is RunStatement,
        ensures
            final(self).wf(),
            final(self).plan == old(self).plan,
            final(self).ran == true,
            final(self).rollbacks == 0,
            final(self).step == (if old(self).plan.read_only {
                QueryStep::Rollback
            } else {
                QueryStep::Done
            }),
            match result {
                Ok(rows) => final(self).outcome matches Some(o) && o matches Ok(kept) && {
                    &&& kept.1 == (rows@.len() > old(self).plan.max_rows)
                    &&& kept.0@ == (if rows@.len() > old(self).plan.max_rows {
                        rows@.take(old(self).plan.max_rows as int)
                    } else {
                        rows@
                    })
                },
                Err(e) => final(self).outcome matches Some(o) && o matches Err(c) && c.0
                    == CODE_SQL_ERROR && c.1@ == "Query execution failed: "@ + e@,
            },
    {
        self.ran = true;
        self.step = if self.plan.read_only {
            QueryStep::Rollback
        } else {
            QueryStep::Done
        };
        match result {
            Ok(rows) => {
                let (kept, truncated) = truncate_rows(rows, self.plan.max_rows);
                self.outcome = Some(Ok((kept, truncated)));
            },
            Err(e) => {
                self.outcome = Some(
                    Err(
                        (
                            CODE_SQL_ERROR,
                            String::from_str("Query execution failed: ").concat(e.as_str()),
                        ),
                    ),
                );
            },
        }
    }

    /// Reports that the rollback was issued. Its own failure is the driver
    /// edge's to log; it never changes the outcome.
    pub fn on_rollback(&mut self, ok: bool)
        requires
            old(self).wf(),
            old(self).step is Rollback,
        ensures
            final(self).wf(),
            final(self).plan == old(self).plan,
            final(self).step is Done,
            final(self).rollbacks == 1,
            final(self).outcome == old(self).outcome,
    {
        let _ = ok;
        self.step = QueryStep::Done;
        self.rollbacks = 1;
    }

    /// Builds the response once the protocol is done.
    pub fn response(self, id: Option<JsonValue>) -> (r: JsonRpcResponse)
        requires
            self.wf(),
            self.step is Done,
        ensures
            response_wf(r),
            r.id == id,
            match self.outcome {
                Some(o) => match o {
                    Ok(kept) => r.error is None && (r.result matches Some(v) && v@
                        == query_result_data(jv_views(kept.0@), kept.1)),
                    Err(c) => r.result is None && (r.error matches Some(e) && e.code == c.0
                        && e.message@ == c.1@),
                },
                None => true,
            },
    {
        match self.outcome {
            Some(Ok((rows, truncated))) => {
                let result = query_result_json(rows, truncated);
                create_ok_response(id, result)
            },
            Some(Err((code, message))) => create_error_response(id, code, message.as_str()),
            None => create_error_response(id, CODE_SQL_ERROR, "Query produced no outcome"),
        }
    }
}

/// Exactly-once rollback: a finished protocol run has issued exactly one
/// rollback when the statement ran under the read-only flag — whether it
/// succeeded or failed — and none otherwise.
pub proof fn lemma_rollback_exactly_once(m: QueryExec)
    requires
        m.wf(),
        m.step is Done,
    ensures
        m.plan.read_only && m.ran ==> m.rollbacks == 1,
        !(m.plan.read_only && m.ran) ==> m.rollbacks == 0,
{
}

/// The content block every tool result carries: one text entry.
pub open spec fn content_block(text: Seq<char>) -> JsonData {
    JsonData::Arr(
        seq![
            JsonData::Obj(
                seq![
                    ("type"@, JsonData::Str("text"@)),
                    ("text"@, JsonData::Str(text)),
                ],
            ),
        ],
    )
}

/// Builds the content block for `text`.
pub fn content_block_json(text: String) -> (r: JsonValue)
    ensures
        r@ == content_block(text@),
{
    let ghost tv = text@;
    let mut inner: Vec<(String, JsonValue)> = Vec::new();
    inner.push((String::from_str("type"), JsonValue::Str(String::from_str("text"))));
    let ghost s1 = inner@;
    proof {
        crate::json::lemma_jv_entries_push(Seq::empty(), s1[0]);
        assert(Seq::empty().push(s1[0]) =~= s1);
        assert(crate::json::jv_entries(s1) =~= seq![("type"@, JsonData::Str("text"@))]);
    }
    inner.push((String::from_str("text"), JsonValue::Str(text)));
    let ghost innerv = inner@;
    proof {
        crate::json::lemma_jv_entries_push(s1, innerv[1]);
        assert(s1.push(innerv[1]) =~= innerv);
        assert(crate::json::jv_entries(innerv) =~= seq![
            ("type"@, JsonData::Str("text"@)),
            ("text"@, JsonData::Str(tv)),
        ]);
    }
    let entry = JsonValue::Obj(inner);
    let ghost ev = entry@;
    let mut items: Vec<JsonValue> = Vec::new();
    items.push(entry);
    let arr = JsonValue::Arr(items);
    proof {
        crate::json::lemma_jv_views_push(Seq::empty(), arr->Arr_0@[0]);
        assert(Seq::empty().push(arr->Arr_0@[0]) =~= arr->Arr_0@);
        assert(jv_views(arr->Arr_0@) =~= seq![ev]);
        assert(arr@ =~= content_block(tv));
    }
    arr
}

/// The result object of a successful query: the content block, the rows,
/// the row count, and the truncation flag.
pub open spec fn query_result_data(rows: Seq<JsonData>, truncated: bool) -> JsonData {
    JsonData::Obj(
        seq![
            (
                "content"@,
                content_block(
                    "Query executed successfully. Retrieved "@ + dec_str(rows.len()) + " rows."@,
                ),
            ),
            ("rows"@, JsonData::Arr(rows)),
            ("row_count"@, JsonData::UInt(rows.len() as u64)),
            ("truncated"@, JsonData::Bool(truncated)),
        ],
    )
}

/// Builds the result object of a successful query.
fn query_result_json(rows: Vec<JsonValue>, truncated: bool) -> (r: JsonValue)
    ensures
        r@ == query_result_data(jv_views(rows@), truncated),
{
    let n = rows.len();
    let text = String::from_str("Query executed successfully. Retrieved ").concat(
        u64_to_string(n as u64).as_str(),
    ).concat(" rows.");
    let content = content_block_json(text);
    let ghost cv = content@;
    let ghost rv = jv_views(rows@);
    proof {
        crate::json::lemma_jv_views_index(rows@);
    }
    let arr = JsonValue::Arr(rows);
    proof {
        assert(arr@ == JsonData::Arr(rv));
    }
    let mut fields: Vec<(String, JsonValue)> = Vec::new();
    fields.push((String::from_str("content"), content));
    let ghost f1 = fields@;
    proof {
        crate::json::lemma_jv_entries_push(Seq::empty(), f1[0]);
        assert(Seq::empty().push(f1[0]) =~= f1);
        assert(crate::json::jv_entries(f1) =~= seq![("content"@, cv)]);
    }
    fields.push((String::from_str("rows"), arr));
    let ghost f2 = fields@;
    proof {
        crate::json::lemma_jv_entries_push(f1, f2[1]);
        assert(f1.push(f2[1]) =~= f2);
        assert(crate::json::jv_entries(f2) =~= seq![("content"@, cv), ("rows"@, JsonData::Arr(rv))]);
    }
    fields.push((String::from_str("row_count"), JsonValue::UInt(n as u64)));
    let ghost f3 = fields@;
    proof {
        crate::json::lemma_jv_entries_push(f2, f3[2]);
        assert(f2.push(f3[2]) =~= f3);
    }
    fields.push((String::from_str("truncated"), JsonValue::Bool(truncated)));
    let ghost f4 = fields@;
    proof {
        crate::json::lemma_jv_entries_push(f3, f4[3]);
        assert(f3.push(f4[3]) =~= f4);
    }
    let out = JsonValue::Obj(fields);
    proof {
        assert(crate::json::jv_entries(out->Obj_0@) =~= query_result_data(rv, truncated)->Obj_0);
        assert(out@ =~= query_result_data(rv, truncated));
    }
    out
}

} // verus!
