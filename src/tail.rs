use vstd::prelude::*;

use crate::model::{FieldView, LogField, LogLine, LogResults};
use crate::pager::{copy_token, has_more, is_continuation, token_view};

verus! {

/// The name under which a raw log entry's text is kept.
pub const MESSAGE_FIELD: &'static str = "@message";

/// A raw entry as a record: one field, `@message`, holding its text.
pub open spec fn message_record(message: Seq<char>) -> Seq<FieldView> {
    seq![FieldView { field: MESSAGE_FIELD@, value: message }]
}

/// Where a tail of one log stream stands.
pub struct TailView {
    /// The records received so far, in order.
    pub lines: Seq<Seq<FieldView>>,
    /// The token that the last call was made with.
    pub last_token: Option<Seq<char>>,
    /// The token for the next call: the forward token of the last response.
    pub next_token: Option<Seq<char>>,
    /// Whether the stream is exhausted.
    pub finished: bool,
    /// How many calls were made.
    pub calls: nat,
}

/// A tail before its first call.
pub open spec fn tail_start() -> TailView {
    TailView { lines: Seq::empty(), last_token: None, next_token: None, finished: false, calls: 0 }
}

/// A tail after one more response: its entries are appended; it is exhausted
/// when the forward token is absent or repeats the token the call was made with.
pub open spec fn tail_accept(v: TailView, messages: Seq<Seq<char>>, token: Option<Seq<char>>) -> TailView {
    TailView {
        lines: v.lines + messages.map_values(|m: Seq<char>| message_record(m)),
        last_token: v.next_token,
        next_token: token,
        finished: !has_more(token) || token == v.next_token,
        calls: v.calls + 1,
    }
}

/// Whether two tokens are equal.
pub fn same_token(a: &Option<String>, b: &Option<String>) -> (r: bool)
    ensures
        r == (token_view(*a) == token_view(*b)),
{
    match (a, b) {
        (Some(x), Some(y)) => *x == *y,
        (None, None) => true,
        _ => false,
    }
}

/// Gathers the raw entries of one log stream, whose forward token repeats
/// itself, instead of disappearing, once no further entries are left.
pub struct LogTail {
    lines: Vec<LogLine>,
    last_token: Option<String>,
    next_token: Option<String>,
    finished: bool,
    calls: Ghost<nat>,
}

impl View for LogTail {
    type V = TailView;

    closed spec fn view(&self) -> TailView {
        TailView {
            lines: self.lines@.map_values(|l: LogLine| l@),
            last_token: token_view(self.last_token),
            next_token: token_view(self.next_token),
            finished: self.finished,
            calls: self.calls@,
        }
    }
}

impl LogTail {
    pub fn new() -> (r: LogTail)
        ensures
            r@ == tail_start(),
    {
        let r = LogTail {
            lines: Vec::new(),
            last_token: None,
            next_token: None,
            finished: false,
            calls: Ghost(0),
        };
        assert(r@.lines =~= Seq::empty());
        r
    }

    /// The token for the next call, or `None` once the stream is exhausted.
    pub fn next_request(&self) -> (r: Option<Option<String>>)
        ensures
            r is None <==> self@.finished,
            r matches Some(token) ==> token_view(token) == self@.next_token,
    {
        if self.finished {
            None
        } else {
            Some(copy_token(&self.next_token))
        }
    }

    /// Takes in the entries (their message texts) and the forward token that
    /// the last call returned.
    pub fn accept(&mut self, messages: Vec<String>, next_forward_token: Option<String>)
        requires
            !old(self)@.finished,
        ensures
            final(self)@ == tail_accept(old(self)@, messages.deep_view(), token_view(next_forward_token)),
    {
        let ghost old_lines = self@.lines;
        let ghost records = messages.deep_view().map_values(|m: Seq<char>| message_record(m));
        for i in 0..messages.len()
            invariant
                self.lines@.map_values(|l: LogLine| l@) =~= old_lines + records.take(i as int),
                records == messages.deep_view().map_values(|m: Seq<char>| message_record(m)),
                self.last_token == old(self).last_token,
                self.next_token == old(self).next_token,
                self.finished == old(self).finished,
                self.calls == old(self).calls,
        {
            let field = LogField { field: String::from_str(MESSAGE_FIELD), value: messages[i].clone() };
            let line = LogLine { fields: vec![field] };
            assert(line@ =~= message_record(messages@[i as int]@));
            let ghost before = self.lines@;
            self.lines.push(line);
            assert(self.lines@.map_values(|l: LogLine| l@) =~= before.map_values(|l: LogLine| l@).push(
                records[i as int],
            ));
            assert(records.take(i + 1) =~= records.take(i as int).push(records[i as int]));
        }
        assert(records.take(messages.len() as int) =~= records);
        let repeated = same_token(&next_forward_token, &self.next_token);
        self.finished = !is_continuation(&next_forward_token) || repeated;
        self.last_token = copy_token(&self.next_token);
        self.next_token = next_forward_token;
        self.calls = Ghost(self.calls@ + 1);
    }

    pub fn is_finished(&self) -> (r: bool)
        ensures
            r == self@.finished,
    {
        self.finished
    }

    /// The records of every entry received, in order.
    pub fn into_results(self) -> (r: LogResults)
        ensures
            r@ == self@.lines,
    {
        LogResults { lines: self.lines }
    }
}

/// The tail ends on a repeated token: after a first response with a token T1
/// it makes a second call with T1; if that response brings T1 again, or no
/// token, it makes no third call. Either way it holds the entries of both
/// responses in order.
pub proof fn lemma_tail_stops_on_repeat(
    t1: Seq<char>,
    first: Seq<Seq<char>>,
    second: Seq<Seq<char>>,
    end: Option<Seq<char>>,
)
    requires
        t1.len() > 0,
        end == Some(t1) || !has_more(end),
    ensures
        !tail_accept(tail_start(), first, Some(t1)).finished,
        tail_accept(tail_start(), first, Some(t1)).next_token == Some(t1),
        tail_accept(tail_accept(tail_start(), first, Some(t1)), second, end).finished,
        tail_accept(tail_accept(tail_start(), first, Some(t1)), second, end).calls == 2,
        tail_accept(tail_accept(tail_start(), first, Some(t1)), second, end).lines
            == first.map_values(|m: Seq<char>| message_record(m)) + second.map_values(
            |m: Seq<char>| message_record(m),
        ),
{
    assert(Seq::<Seq<FieldView>>::empty() + first.map_values(|m: Seq<char>| message_record(m))
        == first.map_values(|m: Seq<char>| message_record(m)));
}

} // verus!
