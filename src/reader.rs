use vstd::prelude::*;
use vstd::string::*;
use crate::extract::{
    chats_from_rows, chats_view, lemma_rows_chats_append, lemma_unparsable_row_skipped, rows_chats,
    rows_view,
};
use crate::json::parsed_json;
use crate::render::{chats_json, chats_text};

verus! {

/// The table that holds the workspace state.
pub const STORE_TABLE: &'static str = "ItemTable";

/// The column that holds each entry's value.
pub const VALUE_COLUMN: &'static str = "value";

/// The key under which the interactive sessions are stored.
pub const SESSIONS_KEY: &'static str = "interactive.sessions";

/// Why reading a workspace store failed.
pub enum StoreError {
    /// No file at this path.
    Missing(String),
    /// The store could not be opened; the cause.
    Open(String),
    /// The lookup query could not be prepared; the cause.
    Prepare(String),
    /// The lookup query could not be run; the cause.
    Query(String),
    /// The records could not be serialized; the cause.
    Serialize(String),
}

pub open spec fn error_message(e: StoreError) -> Seq<char> {
    match e {
        StoreError::Missing(p) => "file does not exist: "@ + p@,
        StoreError::Open(c) => "cannot open store: "@ + c@,
        StoreError::Prepare(c) => "query preparation failed: "@ + c@,
        StoreError::Query(c) => "query execution failed: "@ + c@,
        StoreError::Serialize(c) => "serialization failed: "@ + c@,
    }
}

impl StoreError {
    /// The message reported to the host: the stage's prefix, then the detail.
    pub fn message(&self) -> (r: String)
        ensures
            r@ == error_message(*self),
    {
        let (prefix, detail) = match self {
            StoreError::Missing(p) => ("file does not exist: ", p),
            StoreError::Open(c) => ("cannot open store: ", c),
            StoreError::Prepare(c) => ("query preparation failed: ", c),
            StoreError::Query(c) => ("query execution failed: ", c),
            StoreError::Serialize(c) => ("serialization failed: ", c),
        };
        let mut s = String::from_str(prefix);
        s.append(detail.as_str());
        s
    }
}

/// The lookup of the stored sessions' values.
pub open spec fn query_text() -> Seq<char> {
    "SELECT "@ + VALUE_COLUMN@ + " FROM "@ + STORE_TABLE@ + " WHERE key = '"@ + SESSIONS_KEY@ + "'"@
}

/// The query that selects the stored sessions' values.
pub fn session_query() -> (r: String)
    ensures
        r@ == query_text(),
{
    let mut s = String::from_str("SELECT ");
    s.append(VALUE_COLUMN);
    s.append(" FROM ");
    s.append(STORE_TABLE);
    s.append(" WHERE key = '");
    s.append(SESSIONS_KEY);
    s.append("'");
    s
}

/// The serialized records of the rows that the lookup gave.
pub open spec fn workspace_text(rows: Seq<Option<Seq<char>>>) -> Seq<char> {
    chats_text(rows_chats(rows))
}

/// `r` is the serialized records of `rows`; where there are no rows it is
/// the empty array.
pub open spec fn serialized_rows(r: Result<String, StoreError>, rows: Seq<Option<Seq<char>>>) -> bool {
    &&& r matches Ok(s) && s@ == workspace_text(rows)
    &&& rows.len() == 0 ==> (r matches Ok(s) && s@ == "[]"@)
}

/// Reading the same rows twice gives the same text: the output depends on
/// the stored values alone.
pub proof fn lemma_same_rows_same_text(
    first: Seq<Option<Seq<char>>>,
    second: Seq<Option<Seq<char>>>,
    r1: Result<String, StoreError>,
    r2: Result<String, StoreError>,
)
    requires
        first == second,
        serialized_rows(r1, first),
        serialized_rows(r2, second),
    ensures
        r1 matches Ok(s1) && r2 matches Ok(s2) && s1@ == s2@,
{
}

/// Dropping a row whose value is not JSON leaves the serialized output as
/// it was.
pub proof fn lemma_unparsable_row_text(
    before: Seq<Option<Seq<char>>>,
    text: Seq<char>,
    after: Seq<Option<Seq<char>>>,
)
    requires
        parsed_json(text) is None,
    ensures
        workspace_text(before + seq![Some(text)] + after) == workspace_text(before + after),
{
    lemma_unparsable_row_skipped(before, text, after);
    lemma_rows_chats_append(before, after);
}

/// Extracts the records of the rows that the lookup gave and serializes them.
pub fn workspace_json(rows: &Vec<Option<String>>) -> (r: Result<String, StoreError>)
    ensures
        serialized_rows(r, rows_view(rows@)),
{
    let chats = chats_from_rows(rows);
    proof {
        if rows@.len() == 0 {
            assert(rows_view(rows@) =~= Seq::<Option<Seq<char>>>::empty());
            assert(chats_view(chats@).len() == 0);
        }
    }
    chats_json(&chats)
}

/// What the reader asks its host to do next.
pub enum Action {
    /// Check that a file exists at the path.
    CheckPath,
    /// Open the file as a store.
    OpenStore,
    /// Prepare the lookup query.
    PrepareQuery,
    /// Run the lookup and read each row's value as text.
    RunQuery,
    /// Stop with this result.
    Finish(Result<String, StoreError>),
}

/// What came of the action the reader asked for last.
pub enum Event {
    PathChecked(bool),
    StoreOpened(Result<(), String>),
    QueryPrepared(Result<(), String>),
    /// Each row's value, `None` for one that is not text; or the cause of failure.
    RowsRead(Result<Vec<Option<String>>, String>),
}

/// The first thing to do when reading a store.
pub fn first_action() -> (a: Action)
    ensures
        a is CheckPath,
{
    Action::CheckPath
}

/// Decides the next step of reading the store at `path`: every failure
/// ends the read with its own error, and a missing file ends it before any
/// attempt to open it.
pub fn next_action(path: &str, event: Event) -> (a: Action)
    ensures
        match event {
            Event::PathChecked(exists) => if exists {
                a is OpenStore
            } else {
                a matches Action::Finish(Err(StoreError::Missing(p))) && p@ == path@
            },
            Event::StoreOpened(Ok(())) => a is PrepareQuery,
            Event::StoreOpened(Err(c)) => a == Action::Finish(Err(StoreError::Open(c))),
            Event::QueryPrepared(Ok(())) => a is RunQuery,
            Event::QueryPrepared(Err(c)) => a == Action::Finish(Err(StoreError::Prepare(c))),
            Event::RowsRead(Err(c)) => a == Action::Finish(Err(StoreError::Query(c))),
            Event::RowsRead(Ok(rows)) => a matches Action::Finish(r) && serialized_rows(
                r,
                rows_view(rows@),
            ),
        },
{
    match event {
        Event::PathChecked(exists) => if exists {
            Action::OpenStore
        } else {
            Action::Finish(Err(StoreError::Missing(String::from_str(path))))
        },
        Event::StoreOpened(Ok(())) => Action::PrepareQuery,
        Event::StoreOpened(Err(c)) => Action::Finish(Err(StoreError::Open(c))),
        Event::QueryPrepared(Ok(())) => Action::RunQuery,
        Event::QueryPrepared(Err(c)) => Action::Finish(Err(StoreError::Prepare(c))),
        Event::RowsRead(Err(c)) => Action::Finish(Err(StoreError::Query(c))),
        Event::RowsRead(Ok(rows)) => Action::Finish(workspace_json(&rows)),
    }
}

} // verus!
