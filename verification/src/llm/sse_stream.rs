//! Server-sent-event text: lines of `event:` / `data:` fields, events
//! separated by blank lines.
use vstd::prelude::*;
use crate::text::{chars_of, join, join_strings, owned, starts_with, starts_with_str, string_from, string_from_range, trim_start, trim_start_str};

verus! {

broadcast use vstd::string::group_string_axioms;

/// One event of an SSE body.
#[derive(Debug, Clone)]
pub struct SseEvent {
    pub event_type: String,
    pub data: String,
}

impl View for SseEvent {
    type V = (Seq<char>, Seq<char>);

    open spec fn view(&self) -> (Seq<char>, Seq<char>) {
        (self.event_type@, self.data@)
    }
}

// ---------------------------------------------------------------------------
// Lines (as `str::lines`)
// ---------------------------------------------------------------------------

/// A line without the `\r` of a `\r\n` ending.
pub open spec fn strip_cr(l: Seq<char>) -> Seq<char> {
    if l.len() > 0 && l.last() == '\r' {
        l.drop_last()
    } else {
        l
    }
}

/// The lines finished so far and the line being read, after reading `s`.
pub open spec fn line_scan(s: Seq<char>) -> (Seq<Seq<char>>, Seq<char>)
    decreases s.len(),
{
    if s.len() == 0 {
        (Seq::empty(), Seq::empty())
    } else {
        let (done, cur) = line_scan(s.drop_last());
        if s.last() == '\n' {
            (done.push(strip_cr(cur)), Seq::empty())
        } else {
            (done, cur.push(s.last()))
        }
    }
}

/// The lines of `s`: split at `\n`, a `\r` just before a `\n` dropped, and a
/// final line kept only when it is not empty.
pub open spec fn lines(s: Seq<char>) -> Seq<Seq<char>> {
    let (done, cur) = line_scan(s);
    if cur.len() > 0 {
        done.push(cur)
    } else {
        done
    }
}

/// The views of a vector of strings.
pub open spec fn views(v: Seq<String>) -> Seq<Seq<char>> {
    v.map_values(|s: String| s@)
}

/// Splits `s` into lines as `str::lines` does.
pub fn split_lines(s: &str) -> (r: Vec<String>)
    ensures
        views(r@) == lines(s@),
{
    let v = chars_of(s);
    let mut done: Vec<String> = Vec::new();
    let mut cur: Vec<char> = Vec::new();
    let mut i: usize = 0;
    while i < v.len()
        invariant
            v@ == s@,
            i <= v.len(),
            line_scan(v@.take(i as int)) == (views(done@), cur@),
        decreases v.len() - i,
    {
        assert(v@.take(i + 1).drop_last() =~= v@.take(i as int));
        if v[i] == '\n' {
            let mut end = cur.len();
            if end > 0 && cur[end - 1] == '\r' {
                end = end - 1;
            }
            let line = string_from_range(&cur, 0, end);
            proof {
                assert(cur@.subrange(0, cur@.len() as int) =~= cur@);
                assert(cur@.drop_last() =~= cur@.subrange(0, cur@.len() - 1));
            }
            done.push(line);
            assert(views(done@) =~= views(done@.drop_last()).push(line@));
            cur = Vec::new();
        } else {
            cur.push(v[i]);
        }
        i = i + 1;
    }
    assert(v@.take(v.len() as int) =~= v@);
    if cur.len() > 0 {
        let line = string_from(&cur);
        done.push(line);
        assert(views(done@) =~= views(done@.drop_last()).push(line@));
    }
    done
}

// ---------------------------------------------------------------------------
// Events
// ---------------------------------------------------------------------------

/// Parser state: events so far, the pending event type, pending data lines.
pub type SseState = (Seq<(Seq<char>, Seq<char>)>, Seq<char>, Seq<Seq<char>>);

/// Ends the pending event: emitted when it has data lines (type `message`
/// when none was given, data lines joined with `\n`), dropped otherwise.
pub open spec fn sse_flush(st: SseState) -> SseState {
    let (events, event_type, data) = st;
    if data.len() == 0 {
        (events, Seq::empty(), data)
    } else {
        let ty = if event_type.len() == 0 { "message"@ } else { event_type };
        (events.push((ty, join(data, "\n"@))), Seq::empty(), Seq::empty())
    }
}

/// Reads one line: a blank line ends the event, `event:` sets its type,
/// `data:` adds a data line (leading white space after the colon removed),
/// any other line is ignored.
pub open spec fn sse_step(st: SseState, line: Seq<char>) -> SseState {
    if line.len() == 0 {
        sse_flush(st)
    } else if starts_with(line, "event:"@) {
        (st.0, trim_start(line.skip("event:"@.len() as int)), st.2)
    } else if starts_with(line, "data:"@) {
        (st.0, st.1, st.2.push(trim_start(line.skip("data:"@.len() as int))))
    } else {
        st
    }
}

/// The state after reading `ls` from the empty state.
pub open spec fn sse_scan(ls: Seq<Seq<char>>) -> SseState
    decreases ls.len(),
{
    if ls.len() == 0 {
        (Seq::empty(), Seq::empty(), Seq::empty())
    } else {
        sse_step(sse_scan(ls.drop_last()), ls.last())
    }
}

/// The events of an SSE body.
pub open spec fn sse_events(body: Seq<char>) -> Seq<(Seq<char>, Seq<char>)> {
    sse_flush(sse_scan(lines(body))).0
}

/// The views of a vector of events.
pub open spec fn event_views(v: Seq<SseEvent>) -> Seq<(Seq<char>, Seq<char>)> {
    v.map_values(|e: SseEvent| e@)
}

/// The rest of `line` after a field prefix, without leading white space.
fn field_value(line: &str, prefix_len: usize) -> (r: String)
    requires
        prefix_len <= line@.len(),
    ensures
        r@ == trim_start(line@.skip(prefix_len as int)),
{
    let v = chars_of(line);
    let rest = string_from_range(&v, prefix_len, v.len());
    proof {
        assert(v@.subrange(prefix_len as int, v.len() as int) =~= line@.skip(prefix_len as int));
    }
    trim_start_str(rest.as_str())
}

fn flush_event(
    events: &mut Vec<SseEvent>,
    event_type: &mut String,
    data: &mut Vec<String>,
)
    ensures
        (event_views(final(events)@), final(event_type)@, views(final(data)@)) == sse_flush(
            (event_views(old(events)@), old(event_type)@, views(old(data)@)),
        ),
{
    if data.len() == 0 {
        *event_type = String::new();
        return;
    }
    let ty = if event_type.as_str().is_empty() {
        owned("message")
    } else {
        event_type.clone()
    };
    let joined = join_strings(data, "\n");
    let ghost old_events = events@;
    events.push(SseEvent { event_type: ty, data: joined });
    assert(event_views(events@) =~= event_views(old_events).push((ty@, joined@)));
    *event_type = String::new();
    *data = Vec::new();
    assert(views(data@) =~= Seq::<Seq<char>>::empty());
}

/// Parses an SSE body into its events, in order: one per run of
/// non-empty lines that has a `data:` line (see `law_events_are_runs`).
pub fn iter_sse_events(body: &str) -> (r: Vec<SseEvent>)
    ensures
        event_views(r@) == sse_events(body@),
        event_views(r@) == runs_events(line_runs(lines(body@))),
{
    proof {
        law_events_are_runs(body@);
    }
    let ls = split_lines(body);
    let mut events: Vec<SseEvent> = Vec::new();
    let mut event_type = String::new();
    let mut data: Vec<String> = Vec::new();
    let ghost lv = views(ls@);
    let event_prefix_len = chars_of("event:").len();
    let data_prefix_len = chars_of("data:").len();
    let mut i: usize = 0;
    while i < ls.len()
        invariant
            lv == views(ls@),
            lv == lines(body@),
            i <= ls.len(),
            event_prefix_len == "event:"@.len(),
            data_prefix_len == "data:"@.len(),
            (event_views(events@), event_type@, views(data@)) == sse_scan(lv.take(i as int)),
        decreases ls.len() - i,
    {
        assert(lv.take(i + 1).drop_last() =~= lv.take(i as int));
        let line = &ls[i];
        assert(lv[i as int] == line@);
        if line.as_str().is_empty() {
            flush_event(&mut events, &mut event_type, &mut data);
        } else if starts_with_str(line.as_str(), "event:") {
            event_type = field_value(line.as_str(), event_prefix_len);
        } else if starts_with_str(line.as_str(), "data:") {
            let value = field_value(line.as_str(), data_prefix_len);
            let ghost old_data = data@;
            data.push(value);
            assert(views(data@) =~= views(old_data).push(value@));
        }
        i = i + 1;
    }
    assert(lv.take(ls.len() as int) =~= lv);
    flush_event(&mut events, &mut event_type, &mut data);
    events
}

// ---------------------------------------------------------------------------
// Events as runs of lines
// ---------------------------------------------------------------------------

/// The runs of non-empty lines finished so far (each ended by an empty
/// line) and the run being read.
pub open spec fn run_scan(ls: Seq<Seq<char>>) -> (Seq<Seq<Seq<char>>>, Seq<Seq<char>>)
    decreases ls.len(),
{
    if ls.len() == 0 {
        (Seq::empty(), Seq::empty())
    } else {
        let (done, cur) = run_scan(ls.drop_last());
        if ls.last().len() == 0 { (done.push(cur), Seq::empty()) } else { (done, cur.push(ls.last())) }
    }
}

/// The lines split at the empty lines into runs of non-empty lines (runs
/// may be empty where empty lines follow each other).
pub open spec fn line_runs(ls: Seq<Seq<char>>) -> Seq<Seq<Seq<char>>> {
    run_scan(ls).0.push(run_scan(ls).1)
}

/// The values of the `data:` lines of a run (leading white space after
/// the colon removed), in order; an `event:` line is never a data line.
pub open spec fn run_data(run: Seq<Seq<char>>) -> Seq<Seq<char>>
    decreases run.len(),
{
    if run.len() == 0 {
        Seq::empty()
    } else {
        let rest = run_data(run.drop_last());
        let l = run.last();
        if !starts_with(l, "event:"@) && starts_with(l, "data:"@) {
            rest.push(trim_start(l.skip("data:"@.len() as int)))
        } else {
            rest
        }
    }
}

/// The value of the last `event:` line of a run (leading white space
/// removed), or empty when it has none.
pub open spec fn run_type(run: Seq<Seq<char>>) -> Seq<char>
    decreases run.len(),
{
    if run.len() == 0 {
        Seq::empty()
    } else if starts_with(run.last(), "event:"@) {
        trim_start(run.last().skip("event:"@.len() as int))
    } else {
        run_type(run.drop_last())
    }
}

/// The event of a run, when it has data lines: its type (`message` when
/// none or an empty one is given) and its data lines joined with `\n`.
pub open spec fn run_event(run: Seq<Seq<char>>) -> Option<(Seq<char>, Seq<char>)> {
    if run_data(run).len() == 0 {
        None
    } else {
        Some((if run_type(run).len() == 0 { "message"@ } else { run_type(run) }, join(run_data(run), "\n"@)))
    }
}

/// The events of some runs, in order, one per run that has data lines.
pub open spec fn runs_events(rs: Seq<Seq<Seq<char>>>) -> Seq<(Seq<char>, Seq<char>)>
    decreases rs.len(),
{
    if rs.len() == 0 {
        Seq::empty()
    } else {
        match run_event(rs.last()) {
            Some(e) => runs_events(rs.drop_last()).push(e),
            None => runs_events(rs.drop_last()),
        }
    }
}

proof fn lemma_scan_is_runs(ls: Seq<Seq<char>>)
    ensures
        sse_scan(ls) == (runs_events(run_scan(ls).0), run_type(run_scan(ls).1), run_data(run_scan(ls).1)),
    decreases ls.len(),
{
    if ls.len() > 0 {
        lemma_scan_is_runs(ls.drop_last());
        let (done, cur) = run_scan(ls.drop_last());
        let l = ls.last();
        if l.len() == 0 {
            assert(done.push(cur).drop_last() =~= done);
        } else {
            assert(cur.push(l).drop_last() =~= cur);
        }
    }
}

/// The events of an SSE body are those of its runs of non-empty lines: in
/// order, one per run that has a `data:` line, carrying the run's data
/// lines joined with `\n` and the value of its last `event:` line
/// (`message` when there is none or it is empty).
pub proof fn law_events_are_runs(body: Seq<char>)
    ensures
        sse_events(body) == runs_events(line_runs(lines(body))),
{
    let ls = lines(body);
    lemma_scan_is_runs(ls);
    let (done, cur) = run_scan(ls);
    assert(done.push(cur).drop_last() =~= done);
}

} // verus!
