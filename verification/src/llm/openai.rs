//! Reading an OpenAI-compatible chat-completions stream as it arrives:
//! `data: ` lines carrying JSON chunks, ended by `data: [DONE]`.
use vstd::prelude::*;
use crate::json_fields::{json_text_at, text_at};
use crate::llm::openai_stream::{calls_json, json_tool_call_deltas, merge_all, read_tool_call_deltas, DeltaView, PartialView, StreamingToolCallAccumulator, ToolCallDelta};
use crate::text::{chars_of, concat, eq_str, starts_with, starts_with_str, string_from_range, trim, trim_str};

verus! {

broadcast use vstd::string::group_string_axioms;

/// What the stream reader hands on: a piece of the answer as it arrives,
/// or, at the end, the whole answer with the tool calls it asked for (as
/// the JSON text of an array).
#[derive(Debug, Clone)]
pub enum OpenAiOutput {
    Piece(String),
    Final { content: String, tool_calls_json: String },
}

/// The plain content of an output.
pub enum OutputView {
    Piece(Seq<char>),
    Final(Seq<char>, Seq<char>),
}

impl View for OpenAiOutput {
    type V = OutputView;

    open spec fn view(&self) -> OutputView {
        match self {
            OpenAiOutput::Piece(p) => OutputView::Piece(p@),
            OpenAiOutput::Final { content, tool_calls_json } => OutputView::Final(content@, tool_calls_json@),
        }
    }
}

/// The plain content of a list of outputs.
pub open spec fn outputs_view(v: Seq<OpenAiOutput>) -> Seq<OutputView> {
    v.map_values(|o: OpenAiOutput| o@)
}

/// The state of a stream being read: text received but not yet ended by a
/// newline, the answer so far, the tool calls so far, and whether the
/// stream has ended.
pub struct OpenAiStream {
    buffer: String,
    content: String,
    tool_acc: StreamingToolCallAccumulator,
    done: bool,
}

/// The plain state of a stream being read.
pub struct StreamView {
    pub buffer: Seq<char>,
    pub content: Seq<char>,
    pub calls: Seq<PartialView>,
    pub done: bool,
}

impl View for OpenAiStream {
    type V = StreamView;

    closed spec fn view(&self) -> StreamView {
        StreamView { buffer: self.buffer@, content: self.content@, calls: self.tool_acc@, done: self.done }
    }
}

/// Where the chunk's delta sits in a chunk.
pub open spec fn delta_pointer() -> Seq<char> {
    "/choices/0/delta"@
}

/// The closing output: the answer with its tool calls, if any call was
/// completed.
pub open spec fn final_outputs(content: Seq<char>, calls: Seq<PartialView>) -> Seq<OutputView> {
    match calls_json(calls) {
        Some(j) => seq![OutputView::Final(content, j)],
        None => Seq::empty(),
    }
}

/// What one line does: outputs, new answer, new calls, and whether the
/// stream ended.  Only `data: ` lines count; a chunk's tool-call fragments
/// are merged and its non-empty content passed on.
pub open spec fn line_effect(content: Seq<char>, calls: Seq<PartialView>, line: Seq<char>)
    -> (Seq<OutputView>, Seq<char>, Seq<PartialView>, bool)
{
    let l = trim(line);
    if !starts_with(l, "data: "@) {
        (Seq::empty(), content, calls, false)
    } else {
        let data = l.skip(6);
        if data == "[DONE]"@ {
            (final_outputs(content, calls), content, calls, true)
        } else {
            let ds = match json_tool_call_deltas(data, delta_pointer()) {
                Some(ds) => ds,
                None => Seq::empty(),
            };
            let calls2 = merge_all(calls, ds);
            match text_at(data, "/choices/0/delta/content"@) {
                Some(p) => if p.len() > 0 {
                    (seq![OutputView::Piece(p)], content + p, calls2, false)
                } else {
                    (Seq::empty(), content, calls2, false)
                },
                None => (Seq::empty(), content, calls2, false),
            }
        }
    }
}

/// Position of the first newline of `s`, or its length.
pub open spec fn newline_at(s: Seq<char>) -> nat
    decreases s.len(),
{
    if s.len() == 0 {
        0
    } else if s[0] == '\n' {
        0
    } else {
        1 + newline_at(s.drop_first())
    }
}

/// Reading the complete lines of `buf`: outputs, answer, calls, the text
/// left over, and whether the stream ended.
pub open spec fn drain(content: Seq<char>, calls: Seq<PartialView>, buf: Seq<char>)
    -> (Seq<OutputView>, Seq<char>, Seq<PartialView>, Seq<char>, bool)
    decreases buf.len(),
{
    let k = newline_at(buf);
    if k >= buf.len() {
        (Seq::empty(), content, calls, buf, false)
    } else {
        let (o1, c1, k1, stop) = line_effect(content, calls, buf.take(k as int));
        let rest = buf.skip(k as int + 1);
        if stop {
            (o1, c1, k1, rest, true)
        } else {
            let (o2, c2, k2, r2, s2) = drain(c1, k1, rest);
            (o1 + o2, c2, k2, r2, s2)
        }
    }
}

proof fn lemma_newline_at(s: Seq<char>, i: int)
    requires
        0 <= i <= s.len(),
        forall|j: int| 0 <= j < i ==> s[j] != '\n',
        i < s.len() ==> s[i] == '\n',
    ensures
        newline_at(s) == i,
    decreases i,
{
    if i > 0 {
        lemma_newline_at(s.drop_first(), i - 1);
    }
}

impl OpenAiStream {
    /// The tool calls being assembled are in order.
    pub open spec fn well_formed(&self) -> bool {
        crate::llm::openai_stream::ordered(self@.calls)
    }

    /// A reader before any text arrived.
    pub fn new() -> (r: Self)
        ensures
            r.well_formed(),
            r@.buffer.len() == 0,
            r@.content.len() == 0,
            r@.calls.len() == 0,
            !r@.done,
    {
        OpenAiStream { buffer: String::new(), content: String::new(), tool_acc: StreamingToolCallAccumulator::new(), done: false }
    }

    /// Whether the stream has ended.
    pub fn is_done(&self) -> (r: bool)
        ensures
            r == self@.done,
    {
        self.done
    }

    /// Handles one line (without its newline).
    fn take_line(&mut self, line: &str) -> (r: Vec<OpenAiOutput>)
        requires
            old(self).well_formed(),
            !old(self)@.done,
        ensures
            final(self).well_formed(),
            final(self)@.buffer == old(self)@.buffer,
            (outputs_view(r@), final(self)@.content, final(self)@.calls, final(self)@.done)
                == line_effect(old(self)@.content, old(self)@.calls, line@),
    {
        let mut out: Vec<OpenAiOutput> = Vec::new();
        let l = trim_str(line);
        proof {
            reveal_strlit("data: ");
            reveal_strlit("[DONE]");
        }
        if !starts_with_str(l.as_str(), "data: ") {
            assert(outputs_view(out@) =~= Seq::empty());
            return out;
        }
        let v = chars_of(l.as_str());
        let data = string_from_range(&v, 6, v.len());
        assert(data@ =~= l@.skip(6));
        if eq_str(data.as_str(), "[DONE]") {
            self.done = true;
            match self.tool_acc.to_tool_calls_json() {
                Some(j) => {
                    out.push(OpenAiOutput::Final { content: self.content.clone(), tool_calls_json: j });
                    assert(outputs_view(out@) =~= final_outputs(self@.content, self@.calls));
                },
                None => {
                    assert(outputs_view(out@) =~= final_outputs(self@.content, self@.calls));
                },
            }
            return out;
        }
        let ds = match read_tool_call_deltas(data.as_str(), "/choices/0/delta") {
            Some(ds) => ds,
            None => Vec::new(),
        };
        assert(ds@.map_values(|d: ToolCallDelta| d.plain()) =~= match json_tool_call_deltas(data@, delta_pointer()) {
            Some(x) => x,
            None => Seq::<DeltaView>::empty(),
        });
        self.tool_acc.merge_delta(&ds);
        match json_text_at(data.as_str(), "/choices/0/delta/content") {
            Some(p) => {
                if !p.as_str().is_empty() {
                    self.content = concat(self.content.as_str(), p.as_str());
                    out.push(OpenAiOutput::Piece(p));
                    assert(outputs_view(out@) =~= seq![OutputView::Piece(p@)]);
                } else {
                    assert(outputs_view(out@) =~= Seq::empty());
                }
            },
            None => {
                assert(outputs_view(out@) =~= Seq::empty());
            },
        }
        out
    }

    /// Takes a piece of the stream's text.  Each complete line is handled
    /// in turn until `data: [DONE]`; after the end nothing more is read.
    pub fn feed(&mut self, chunk: &str) -> (r: Vec<OpenAiOutput>)
        requires
            old(self).well_formed(),
        ensures
            final(self).well_formed(),
            old(self)@.done ==> outputs_view(r@).len() == 0 && final(self)@ == old(self)@,
            !old(self)@.done ==> {
                let (o, c, k, b, d) = drain(old(self)@.content, old(self)@.calls, old(self)@.buffer + chunk@);
                &&& outputs_view(r@) == o
                &&& final(self)@ == StreamView { buffer: b, content: c, calls: k, done: d }
            },
    {
        let mut out: Vec<OpenAiOutput> = Vec::new();
        if self.done {
            assert(outputs_view(out@) =~= Seq::empty());
            return out;
        }
        let ghost start = drain(self@.content, self@.calls, self@.buffer + chunk@);
        self.buffer = concat(self.buffer.as_str(), chunk);
        loop
            invariant_except_break
                !self.done,
                start == {
                    let (o, c, k, b, d) = drain(self@.content, self@.calls, self@.buffer);
                    (outputs_view(out@) + o, c, k, b, d)
                },
            invariant
                self.well_formed(),
            ensures
                self.well_formed(),
                start == (outputs_view(out@), self@.content, self@.calls, self@.buffer, self@.done),
            decreases self@.buffer.len(),
        {
            let v = chars_of(self.buffer.as_str());
            let mut k: usize = 0;
            while k < v.len() && v[k] != '\n'
                invariant
                    k <= v.len(),
                    forall|j: int| 0 <= j < k ==> v@[j] != '\n',
                decreases v.len() - k,
            {
                k = k + 1;
            }
            proof {
                lemma_newline_at(v@, k as int);
            }
            if k >= v.len() {
                assert(outputs_view(out@) + Seq::<OutputView>::empty() =~= outputs_view(out@));
                break;
            }
            let line = string_from_range(&v, 0, k);
            let rest = string_from_range(&v, k + 1, v.len());
            assert(line@ =~= v@.take(k as int));
            assert(rest@ =~= v@.skip(k + 1));
            let ghost before = outputs_view(out@);
            self.buffer = rest;
            let mut o = self.take_line(line.as_str());
            let ghost ov = outputs_view(o@);
            out.append(&mut o);
            assert(outputs_view(out@) =~= before + ov);
            if self.done {
                break;
            }
            proof {
                let (o2, c2, k2, r2, s2) = drain(self@.content, self@.calls, self@.buffer);
                assert(before + (ov + o2) =~= (before + ov) + o2);
            }
        }
        out
    }

    /// The stream's text has ended (or broke off): unless `[DONE]` came
    /// already, the answer with its tool calls is handed on if any call was
    /// completed.  Text after the last newline is dropped.
    pub fn finish(&mut self) -> (r: Option<OpenAiOutput>)
        requires
            old(self).well_formed(),
        ensures
            final(self).well_formed(),
            final(self)@.done,
            old(self)@.done ==> r is None,
            !old(self)@.done ==> match r {
                Some(o) => seq![o@] == final_outputs(old(self)@.content, old(self)@.calls),
                None => final_outputs(old(self)@.content, old(self)@.calls).len() == 0,
            },
    {
        if self.done {
            return None;
        }
        self.done = true;
        match self.tool_acc.to_tool_calls_json() {
            Some(j) => Some(OpenAiOutput::Final { content: self.content.clone(), tool_calls_json: j }),
            None => None,
        }
    }
}

} // verus!
