use vstd::prelude::*;

use crate::text::{contains_string, join, join_strings};

verus! {

/// What a field of a log record stands for: its name and its value.
pub struct FieldView {
    pub field: Seq<char>,
    pub value: Seq<char>,
}

/// One `{field name, value}` pair of a log record.
#[derive(PartialEq, PartialOrd, Debug)]
pub struct LogField {
    pub field: String,
    pub value: String,
}

impl View for LogField {
    type V = FieldView;

    open spec fn view(&self) -> FieldView {
        FieldView { field: self.field@, value: self.value@ }
    }
}

/// `name: value`, the text of one field.
pub open spec fn field_text(f: FieldView) -> Seq<char> {
    f.field + ": "@ + f.value
}

impl LogField {
    /// Renders the field as `name: value`.
    pub fn to_string(&self) -> (r: String)
        ensures
            r@ == field_text(self@),
    {
        let mut text = self.field.clone();
        text.append(": ");
        text.append(self.value.as_str());
        text
    }
}

/// A user-facing error that ends an operation, with its message.
#[derive(Debug)]
pub struct TerminalError {
    pub details: String,
}

impl TerminalError {
    pub fn new(msg: &str) -> (r: TerminalError)
        ensures
            r.details@ == msg@,
    {
        TerminalError { details: String::from_str(msg) }
    }

    /// The message carried by the error.
    pub fn to_string(&self) -> (r: String)
        ensures
            r@ == self.details@,
    {
        self.details.clone()
    }
}


/// What a saved query stands for: its id, name, query text and target log groups.
pub struct QueryInfoView {
    pub id: Seq<char>,
    pub name: Seq<char>,
    pub query: Seq<char>,
    pub log_group_names: Seq<Seq<char>>,
}

/// A saved search definition: identity `id`, a display name, the query text
/// and the log groups it targets, in order.
#[derive(PartialEq, PartialOrd, Debug, Clone)]
pub struct LogQueryInfo {
    pub id: String,
    pub name: String,
    pub query: String,
    pub log_group_names: Vec<String>,
}

impl View for LogQueryInfo {
    type V = QueryInfoView;

    open spec fn view(&self) -> QueryInfoView {
        QueryInfoView {
            id: self.id@,
            name: self.name@,
            query: self.query@,
            log_group_names: self.log_group_names.deep_view(),
        }
    }
}

/// `name (id) (g1, g2)`, then `-> `, a line break and the query text when `full`;
/// the whole ends with a line break.
pub open spec fn query_info_text(q: QueryInfoView, full: bool) -> Seq<char> {
    let head = q.name + " ("@ + q.id + ") ("@ + join(q.log_group_names, ", "@);
    if full {
        head + ")-> \n"@ + q.query + "\n"@
    } else {
        head + ")\n"@
    }
}

/// The first query of `queries` whose id is `id`, if any.
pub open spec fn find_by_id(queries: Seq<QueryInfoView>, id: Seq<char>) -> Option<QueryInfoView>
    decreases queries.len(),
{
    if queries.len() == 0 {
        None
    } else if queries[0].id == id {
        Some(queries[0])
    } else {
        find_by_id(queries.drop_first(), id)
    }
}

/// Each query's text followed by an empty line.
pub open spec fn query_list_text(queries: Seq<QueryInfoView>, full: bool) -> Seq<char>
    decreases queries.len(),
{
    if queries.len() == 0 {
        Seq::empty()
    } else {
        query_list_text(queries.drop_last(), full) + query_info_text(queries.last(), full) + "\n"@
    }
}

fn copy_strings(v: &Vec<String>) -> (r: Vec<String>)
    ensures
        r.deep_view() == v.deep_view(),
{
    let mut out: Vec<String> = Vec::new();
    for i in 0..v.len()
        invariant
            out@.len() == i,
            forall|j: int| 0 <= j < i ==> out@[j]@ == v@[j]@,
    {
        out.push(v[i].clone());
    }
    assert(out.deep_view() =~= v.deep_view());
    out
}

impl LogQueryInfo {
    fn copy(&self) -> (r: LogQueryInfo)
        ensures
            r@ == self@,
    {
        LogQueryInfo {
            id: self.id.clone(),
            name: self.name.clone(),
            query: self.query.clone(),
            log_group_names: copy_strings(&self.log_group_names),
        }
    }

    /// Renders the query as `name (id) (groups)`, with its text when `full`.
    pub fn to_string(&self, full: bool) -> (r: String)
        ensures
            r@ == query_info_text(self@, full),
    {
        let mut text = self.name.clone();
        text.append(" (");
        text.append(self.id.as_str());
        text.append(") (");
        let groups = join_strings(&self.log_group_names, ", ");
        text.append(groups.as_str());
        if full {
            text.append(")-> \n");
            text.append(self.query.as_str());
            text.append("\n");
        } else {
            text.append(")\n");
        }
        text
    }
}

/// The catalog of saved queries, in the order the service listed them.
#[derive(PartialEq, PartialOrd, Debug)]
pub struct LogQueryInfoList {
    pub queries: Vec<LogQueryInfo>,
}

impl View for LogQueryInfoList {
    type V = Seq<QueryInfoView>;

    open spec fn view(&self) -> Seq<QueryInfoView> {
        self.queries@.map_values(|q: LogQueryInfo| q@)
    }
}

impl LogQueryInfoList {
    /// Renders every query, each followed by an empty line.
    pub fn to_string(&self, full: bool) -> (r: String)
        ensures
            r@ == query_list_text(self@, full),
    {
        let mut text = String::new();
        for i in 0..self.queries.len()
            invariant
                text@ == query_list_text(self@.take(i as int), full),
        {
            assert(self@.take(i + 1).drop_last() == self@.take(i as int));
            let one = self.queries[i].to_string(full);
            text.append(one.as_str());
            text.append("\n");
        }
        assert(self@.take(self.queries.len() as int) == self@);
        text
    }

    /// The first saved query whose id equals `query_id` exactly.
    pub fn find(&self, query_id: String) -> (r: Option<LogQueryInfo>)
        ensures
            match r {
                Some(q) => find_by_id(self@, query_id@) == Some(q@),
                None => find_by_id(self@, query_id@) is None,
            },
    {
        assert(self@.skip(0) =~= self@);
        for i in 0..self.queries.len()
            invariant
                find_by_id(self@, query_id@) == find_by_id(self@.skip(i as int), query_id@),
        {
            assert(self@.skip(i as int).drop_first() == self@.skip(i + 1));
            if self.queries[i].id == query_id {
                return Some(self.queries[i].copy());
            }
        }
        None
    }
}


/// One result row or raw log entry: its fields in the order the service gave them.
#[derive(PartialEq, PartialOrd, Debug)]
pub struct LogLine {
    pub fields: Vec<LogField>,
}

impl View for LogLine {
    type V = Seq<FieldView>;

    open spec fn view(&self) -> Seq<FieldView> {
        self.fields@.map_values(|f: LogField| f@)
    }
}

/// All records of one search or one tail, in the order they arrived.
#[derive(PartialEq, PartialOrd, Debug)]
pub struct LogResults {
    pub lines: Vec<LogLine>,
}

impl View for LogResults {
    type V = Seq<Seq<FieldView>>;

    open spec fn view(&self) -> Seq<Seq<FieldView>> {
        self.lines@.map_values(|l: LogLine| l@)
    }
}

/// The names of an optional field selection.
pub open spec fn selection_view(fields: Option<Vec<String>>) -> Option<Seq<Seq<char>>> {
    match fields {
        Some(names) => Some(names.deep_view()),
        None => None,
    }
}

/// Whether a field called `name` is printed under `selection`: every field when
/// there is none, else the fields it names.
pub open spec fn is_selected(selection: Option<Seq<Seq<char>>>, name: Seq<char>) -> bool {
    match selection {
        Some(names) => names.contains(name),
        None => true,
    }
}

/// Each selected field as `name: value` on a line of its own.
pub open spec fn line_text(fields: Seq<FieldView>, selection: Option<Seq<Seq<char>>>) -> Seq<char>
    decreases fields.len(),
{
    if fields.len() == 0 {
        Seq::empty()
    } else {
        let f = fields.last();
        let rest = line_text(fields.drop_last(), selection);
        if is_selected(selection, f.field) {
            rest + field_text(f) + "\n"@
        } else {
            rest
        }
    }
}

/// Each record's text followed by an empty line.
pub open spec fn results_text(lines: Seq<Seq<FieldView>>, selection: Option<Seq<Seq<char>>>) -> Seq<char>
    decreases lines.len(),
{
    if lines.len() == 0 {
        Seq::empty()
    } else {
        results_text(lines.drop_last(), selection) + line_text(lines.last(), selection) + "\n"@
    }
}

impl LogLine {
    /// Renders the fields that `fields` selects (all when it is `None`),
    /// one `name: value` per line.
    pub fn to_string(&self, fields: &Option<Vec<String>>) -> (r: String)
        ensures
            r@ == line_text(self@, selection_view(*fields)),
    {
        let ghost selection = selection_view(*fields);
        let mut text = String::new();
        for i in 0..self.fields.len()
            invariant
                selection == selection_view(*fields),
                text@ == line_text(self@.take(i as int), selection),
        {
            assert(self@.take(i + 1).drop_last() == self@.take(i as int));
            let field = &self.fields[i];
            let shown = match fields {
                Some(names) => contains_string(names, &field.field),
                None => true,
            };
            if shown {
                let one = field.to_string();
                text.append(one.as_str());
                text.append("\n");
            }
        }
        assert(self@.take(self.fields.len() as int) == self@);
        text
    }
}

impl LogResults {
    /// Renders every record as `LogLine::to_string` does, each followed by an
    /// empty line.
    pub fn to_string(&self, fields: Option<Vec<String>>) -> (r: String)
        ensures
            r@ == results_text(self@, selection_view(fields)),
    {
        let mut text = String::new();
        for i in 0..self.lines.len()
            invariant
                text@ == results_text(self@.take(i as int), selection_view(fields)),
        {
            assert(self@.take(i + 1).drop_last() == self@.take(i as int));
            let one = self.lines[i].to_string(&fields);
            text.append(one.as_str());
            text.append("\n");
        }
        assert(self@.take(self.lines.len() as int) == self@);
        text
    }
}


/// A log group: a named container of log streams.
#[derive(PartialEq, PartialOrd, Debug, Clone)]
pub struct LogGroup {
    pub name: String,
}

/// The log groups of the account, in the order the service listed them.
#[derive(PartialEq, PartialOrd, Debug)]
pub struct LogGroupList {
    pub log_groups: Vec<LogGroup>,
}

/// A log stream: a named sequence of raw entries within a log group.
#[derive(PartialEq, PartialOrd, Debug, Clone)]
pub struct LogStream {
    pub name: String,
}

/// The log streams of one group, in the order the service listed them.
#[derive(PartialEq, PartialOrd, Debug)]
pub struct LogStreamList {
    pub log_streams: Vec<LogStream>,
}

} // verus!
