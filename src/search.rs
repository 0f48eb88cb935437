use vstd::prelude::*;

use crate::model::{
    find_by_id, FieldView, LogField, LogLine, LogQueryInfoList, LogResults, QueryInfoView, TerminalError,
};

verus! {

/// The message of a search that ended in failure, time-out or cancellation.
pub const SEARCH_FAILED_MESSAGE: &'static str = "Query failed to run";

/// The status that the service reports for a running search.
#[derive(PartialEq, Eq, Structural, Clone, Copy, Debug)]
pub enum QueryStatus {
    Cancelled,
    Complete,
    Failed,
    Running,
    Scheduled,
    Timeout,
    /// A status this library does not know; the search is taken to be still running.
    Unknown,
}

/// The stages of a search execution.
#[derive(PartialEq, Eq, Structural, Clone, Copy, Debug)]
pub enum SearchState {
    Started,
    Polling,
    Complete,
    Failed,
    TimedOut,
    Cancelled,
}

/// Whether no further poll belongs to a search in `state`.
pub open spec fn is_terminal(state: SearchState) -> bool {
    match state {
        SearchState::Started | SearchState::Polling => false,
        _ => true,
    }
}

/// The state that a poll answered with `status` leads to.
pub open spec fn state_after(status: QueryStatus) -> SearchState {
    match status {
        QueryStatus::Complete => SearchState::Complete,
        QueryStatus::Failed => SearchState::Failed,
        QueryStatus::Timeout => SearchState::TimedOut,
        QueryStatus::Cancelled => SearchState::Cancelled,
        _ => SearchState::Polling,
    }
}

/// The message of the error for a query id that the catalog does not hold.
pub open spec fn not_found_message(query_id: Seq<char>) -> Seq<char> {
    "Query with id="@ + query_id + " not found"@
}

/// The records that result rows stand for, fields in the order given.
pub open spec fn rows_view(rows: Seq<Vec<LogField>>) -> Seq<Seq<FieldView>> {
    rows.map_values(|row: Vec<LogField>| row@.map_values(|f: LogField| f@))
}

/// What "start search" is called with: the saved query's text and log groups
/// and the time window, in seconds since the Unix epoch.
pub struct SearchRequest {
    pub log_group_names: Vec<String>,
    pub query: String,
    pub start_time: i64,
    pub end_time: i64,
}

impl SearchRequest {
    /// Looks `query_id` up in the catalog (first exact match) and builds the
    /// start of its search over `start_time..end_time`; an id that the catalog
    /// lacks is an error naming it, and no search is to be started.
    pub fn for_saved_query(
        catalog: &LogQueryInfoList,
        query_id: &String,
        start_time: i64,
        end_time: i64,
    ) -> (r: Result<SearchRequest, TerminalError>)
        ensures
            match find_by_id(catalog@, query_id@) {
                Some(q) => r matches Ok(req) && req.query@ == q.query && req.log_group_names.deep_view()
                    == q.log_group_names && req.start_time == start_time && req.end_time == end_time,
                None => r matches Err(e) && e.details@ == not_found_message(query_id@),
            },
    {
        match catalog.find(query_id.clone()) {
            Some(q) => Ok(
                SearchRequest {
                    log_group_names: q.log_group_names,
                    query: q.query,
                    start_time,
                    end_time,
                },
            ),
            None => {
                let mut details = String::from_str("Query with id=");
                details.append(query_id.as_str());
                details.append(" not found");
                Err(TerminalError { details })
            },
        }
    }
}

/// Resolving is exact and takes the first match: a catalog that holds the id
/// resolves to the earliest entry with exactly that id, and one that does not
/// hold it resolves to nothing (so no search is started).
pub proof fn lemma_resolver_correct(catalog: Seq<QueryInfoView>, id: Seq<char>)
    ensures
        find_by_id(catalog, id) is None <==> forall|i: int| 0 <= i < catalog.len() ==> catalog[i].id != id,
        find_by_id(catalog, id) matches Some(q) ==> exists|i: int|
            0 <= i < catalog.len() && catalog[i] == q && q.id == id && forall|j: int|
                0 <= j < i ==> catalog[j].id != id,
    decreases catalog.len(),
{
    if catalog.len() > 0 {
        let rest = catalog.drop_first();
        lemma_resolver_correct(rest, id);
        if catalog[0].id != id {
            if let Some(q) = find_by_id(rest, id) {
                let i = choose|i: int|
                    0 <= i < rest.len() && rest[i] == q && q.id == id && forall|j: int|
                        0 <= j < i ==> rest[j].id != id;
                assert(catalog[i + 1] == q);
                assert forall|j: int| 0 <= j < i + 1 implies catalog[j].id != id by {
                    if j > 0 {
                        assert(catalog[j] == rest[j - 1]);
                    }
                }
            } else {
                assert forall|i: int| 0 <= i < catalog.len() implies catalog[i].id != id by {
                    if i > 0 {
                        assert(catalog[i] == rest[i - 1]);
                    }
                }
            }
        }
    }
}

/// Turns result rows into records, keeping rows and fields in order.
pub fn rows_to_results(rows: Vec<Vec<LogField>>) -> (r: LogResults)
    ensures
        r@ == rows_view(rows@),
{
    let ghost all = rows@;
    let mut rest = rows;
    // Rows are taken from the back, then put back in order.
    let mut reversed: Vec<LogLine> = Vec::new();
    while rest.len() > 0
        invariant
            all.len() == rest@.len() + reversed@.len(),
            rest@ == all.take(rest@.len() as int),
            forall|j: int|
                0 <= j < reversed@.len() ==> #[trigger] reversed@[j]@ == all[all.len() - 1 - j]@.map_values(
                    |f: LogField| f@,
                ),
        decreases rest@.len(),
    {
        let row = rest.pop().unwrap();
        reversed.push(LogLine { fields: row });
        assert(rest@ =~= all.take(rest@.len() as int));
    }
    let mut lines: Vec<LogLine> = Vec::new();
    while reversed.len() > 0
        invariant
            all.len() == lines@.len() + reversed@.len(),
            forall|j: int|
                0 <= j < reversed@.len() ==> #[trigger] reversed@[j]@ == all[all.len() - 1 - j]@.map_values(
                    |f: LogField| f@,
                ),
            forall|j: int|
                0 <= j < lines@.len() ==> #[trigger] lines@[j]@ == all[j]@.map_values(|f: LogField| f@),
        decreases reversed@.len(),
    {
        let line = reversed.pop().unwrap();
        lines.push(line);
    }
    let r = LogResults { lines };
    assert(r@ =~= rows_view(all));
    r
}

/// Where a search execution stands: the handle it is polled with, and its state.
pub struct ExecutionView {
    pub handle: Seq<char>,
    pub state: SearchState,
}

/// One started search, polled until the service reports a final status.
pub struct SearchExecution {
    handle: String,
    state: SearchState,
}

impl View for SearchExecution {
    type V = ExecutionView;

    closed spec fn view(&self) -> ExecutionView {
        ExecutionView { handle: self.handle@, state: self.state }
    }
}

impl SearchExecution {
    /// A search that "start search" has just started under `handle`.
    pub fn new(handle: String) -> (r: SearchExecution)
        ensures
            r@ == (ExecutionView { handle: handle@, state: SearchState::Started }),
    {
        SearchExecution { handle, state: SearchState::Started }
    }

    /// The handle for the next poll, or `None` once the search has ended.
    pub fn next_poll(&self) -> (r: Option<String>)
        ensures
            r is None <==> is_terminal(self@.state),
            r matches Some(h) ==> h@ == self@.handle,
    {
        match self.state {
            SearchState::Started | SearchState::Polling => Some(self.handle.clone()),
            _ => None,
        }
    }

    pub fn state(&self) -> (r: SearchState)
        ensures
            r == self@.state,
    {
        self.state
    }

    /// Takes in the answer to a poll. A failed, timed-out or cancelled search
    /// ends in an error with a fixed message; a complete one ends with exactly
    /// the rows of this answer as records; any other status calls for another
    /// poll, and `None` is returned.
    pub fn on_poll(&mut self, status: QueryStatus, rows: Vec<Vec<LogField>>) -> (r: Option<
        Result<LogResults, TerminalError>,
    >)
        requires
            !is_terminal(old(self)@.state),
        ensures
            final(self)@.handle == old(self)@.handle,
            final(self)@.state == state_after(status),
            match status {
                QueryStatus::Failed | QueryStatus::Timeout | QueryStatus::Cancelled => r matches Some(
                    Err(e),
                ) && e.details@ == SEARCH_FAILED_MESSAGE@,
                QueryStatus::Complete => r matches Some(Ok(results)) && results@ == rows_view(rows@),
                _ => r is None,
            },
    {
        match status {
            QueryStatus::Failed | QueryStatus::Timeout | QueryStatus::Cancelled => {
                self.state =
                match status {
                    QueryStatus::Failed => SearchState::Failed,
                    QueryStatus::Timeout => SearchState::TimedOut,
                    _ => SearchState::Cancelled,
                };
                Some(Err(TerminalError::new(SEARCH_FAILED_MESSAGE)))
            },
            QueryStatus::Complete => {
                self.state = SearchState::Complete;
                Some(Ok(rows_to_results(rows)))
            },
            _ => {
                self.state = SearchState::Polling;
                None
            },
        }
    }
}

} // verus!
