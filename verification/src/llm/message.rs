//! Chat messages exchanged with language models.
use vstd::prelude::*;
use crate::text::owned;

verus! {

/// Who wrote a message.
#[derive(Debug, Clone, Copy, PartialEq, Eq, Structural)]
pub enum MessageRole {
    System,
    User,
    Assistant,
    Tool,
}

/// One message of a dialogue.  `extra` holds provider-specific members
/// (tool calls, errors) by key, each as JSON text; a later entry for a key
/// replaces an earlier one.
#[derive(Debug, Clone)]
pub struct ChatMessage {
    pub role: MessageRole,
    pub content: String,
    pub name: Option<String>,
    pub tool_call_id: Option<String>,
    pub extra: Vec<(String, String)>,
}

/// A tool offered to the model.  `parameters` is the JSON text of the
/// schema of its arguments.
#[derive(Debug, Clone)]
pub struct ToolInfo {
    pub name: String,
    pub description: String,
    pub parameters: String,
}

/// The keys present in a message's extra members.
pub open spec fn extra_keys(extra: Seq<(String, String)>) -> Seq<Seq<char>> {
    extra.map_values(|e: (String, String)| e.0@)
}

/// The member `key` of a message's extra members: the last entry for it.
pub open spec fn extra_member(extra: Seq<(String, String)>, key: Seq<char>) -> Option<Seq<char>>
    decreases extra.len(),
{
    if extra.len() == 0 {
        None
    } else if extra.last().0@ == key {
        Some(extra.last().1@)
    } else {
        extra_member(extra.drop_last(), key)
    }
}

impl ChatMessage {
    /// A message with the given role and content and nothing else.
    pub open spec fn plain(self, role: MessageRole, content: Seq<char>) -> bool {
        &&& self.role == role
        &&& self.content@ == content
        &&& self.name is None
        &&& self.tool_call_id is None
        &&& self.extra@.len() == 0
    }

    /// A system message.
    pub fn system(content: &str) -> (r: Self)
        ensures
            r.plain(MessageRole::System, content@),
    {
        ChatMessage { role: MessageRole::System, content: owned(content), name: None, tool_call_id: None, extra: Vec::new() }
    }

    /// A user message.
    pub fn user(content: &str) -> (r: Self)
        ensures
            r.plain(MessageRole::User, content@),
    {
        ChatMessage { role: MessageRole::User, content: owned(content), name: None, tool_call_id: None, extra: Vec::new() }
    }

    /// An assistant message.
    pub fn assistant(content: &str) -> (r: Self)
        ensures
            r.plain(MessageRole::Assistant, content@),
    {
        ChatMessage { role: MessageRole::Assistant, content: owned(content), name: None, tool_call_id: None, extra: Vec::new() }
    }

    /// A tool result answering the call `tool_call_id`.
    pub fn tool(content: &str, tool_call_id: &str) -> (r: Self)
        ensures
            r.role == MessageRole::Tool,
            r.content@ == content@,
            r.name is None,
            r.tool_call_id matches Some(id) && id@ == tool_call_id@,
            r.extra@.len() == 0,
    {
        ChatMessage {
            role: MessageRole::Tool,
            content: owned(content),
            name: None,
            tool_call_id: Some(owned(tool_call_id)),
            extra: Vec::new(),
        }
    }

    /// The message with `tool_calls` (JSON text) recorded among its extra
    /// members.
    pub fn with_tool_calls(self, tool_calls: String) -> (r: Self)
        ensures
            r.role == self.role,
            r.content == self.content,
            r.name == self.name,
            r.tool_call_id == self.tool_call_id,
            r.extra@ == self.extra@.push((r.extra@.last().0, tool_calls)),
            r.extra@.last().0@ == "tool_calls"@,
            extra_member(r.extra@, "tool_calls"@) == Some(tool_calls@),
    {
        let mut m = self;
        m.extra.push((owned("tool_calls"), tool_calls));
        m
    }

    /// The JSON text of extra member `key`, if the message carries one.
    pub fn extra_value(&self, key: &str) -> (r: Option<String>)
        ensures
            crate::text::opt_view(r) == extra_member(self.extra@, key@),
    {
        let mut i: usize = self.extra.len();
        proof {
            assert(self.extra@.take(i as int) =~= self.extra@);
        }
        while i > 0
            invariant
                i <= self.extra.len(),
                extra_member(self.extra@, key@) == extra_member(self.extra@.take(i as int), key@),
            decreases i,
        {
            proof {
                let t = self.extra@.take(i as int);
                assert(t.drop_last() =~= self.extra@.take(i - 1));
                assert(t.last() == self.extra@[i - 1]);
            }
            if crate::text::eq_str(self.extra[i - 1].0.as_str(), key) {
                return Some(owned(self.extra[i - 1].1.as_str()));
            }
            i = i - 1;
        }
        proof {
            assert(self.extra@.take(0) =~= Seq::<(String, String)>::empty());
        }
        None
    }

    /// The text of the message's `error` member, when it is a JSON string.
    pub fn error_text(&self) -> (r: Option<String>)
        ensures
            crate::text::opt_view(r) == match extra_member(self.extra@, "error"@) {
                Some(t) => crate::json_fields::json_string_value(t),
                None => None,
            },
    {
        proof {
            reveal_strlit("error");
        }
        match self.extra_value("error") {
            Some(t) => crate::json_fields::json_string_literal(t.as_str()),
            None => None,
        }
    }

    /// Whether the message carries an `error` member.
    pub fn is_error(&self) -> (r: bool)
        ensures
            r == extra_keys(self.extra@).contains("error"@),
    {
        let mut i: usize = 0;
        while i < self.extra.len()
            invariant
                i <= self.extra.len(),
                forall|j: int| 0 <= j < i ==> self.extra@[j].0@ != "error"@,
            decreases self.extra.len() - i,
        {
            if crate::text::eq_str(self.extra[i].0.as_str(), "error") {
                assert(extra_keys(self.extra@)[i as int] == "error"@);
                return true;
            }
            i = i + 1;
        }
        assert forall|j: int| 0 <= j < extra_keys(self.extra@).len() implies extra_keys(self.extra@)[j] != "error"@ by {
            assert(extra_keys(self.extra@)[j] == self.extra@[j].0@);
        }
        false
    }
}

} // verus!
