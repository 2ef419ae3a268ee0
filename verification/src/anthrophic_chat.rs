//! Chat completions of the second provider: the finished response, the
//! partial responses of a stream, and how the partial ones add up.

use crate::chat::{
    join_call, joined_call, merge_tool_calls, merged_tool_calls, tool_call_at, Call, CallPiece,
    ChatCompletionFunctionCall, ChatCompletionFunctionCallDelta, ChatCompletionMessage,
    ChatCompletionMessageRole, Message, ToolCall, ToolCallView,
};
use crate::envelope::{
    list_or_empty, optional_member, optional_text, read_list, read_optional, read_optional_text,
    read_text, required_list, required_text, views, FromJson,
};
use crate::error::opt_text;
use crate::json::{Json, JsonValue};
use crate::merge::{
    append_optional, appended, copy_optional_text, first_optional, first_some, first_text,
    last_some,
};
use crate::usage::AnthropicUsage;
use vstd::prelude::*;

verus! {

/// A finished chat completion.
pub type AnthropicChatCompletion = AnthropicChatCompletionGeneric<AnthropicChatCompletionContent>;

/// A partial chat completion, as it arrives on a stream.
pub type AnthropicChatCompletionDelta = AnthropicChatCompletionGeneric<
    AnthropicChatCompletionContentDelta,
>;

/// A completion as a mathematical value, over the value `B` of a content
/// block.
pub struct Completion<B> {
    pub id: Seq<char>,
    pub typ: Seq<char>,
    pub role: Seq<char>,
    pub model: Seq<char>,
    pub content: Seq<B>,
    pub stop_reason: Seq<char>,
    pub stop_sequence: Option<Seq<char>>,
    pub usage: Option<AnthropicUsage>,
}

/// A finished content block as a mathematical value.
pub struct Block {
    pub typ: Seq<char>,
    pub text: Seq<char>,
}

/// A piece of a content block as a mathematical value.
pub struct Fragment {
    pub typ: Option<Seq<char>>,
    pub text: Seq<char>,
}

/// A completion with content blocks of type `C`.
#[derive(Clone, Debug, PartialEq, Eq)]
pub struct AnthropicChatCompletionGeneric<C> {
    pub id: String,
    pub typ: String,
    pub role: String,
    pub model: String,
    pub content: Vec<C>,
    pub stop_reason: String,
    pub stop_sequence: Option<String>,
    pub usage: Option<AnthropicUsage>,
}

/// A content block of a finished completion.
#[derive(Clone, Debug, PartialEq, Eq)]
pub struct AnthropicChatCompletionContent {
    pub typ: String,
    pub text: String,
}

/// A piece of a content block, as it arrives on a stream.
#[derive(Clone, Debug, PartialEq, Eq)]
pub struct AnthropicChatCompletionContentDelta {
    pub typ: Option<String>,
    pub text: String,
}

impl<C: View> View for AnthropicChatCompletionGeneric<C> {
    type V = Completion<C::V>;

    open spec fn view(&self) -> Completion<C::V> {
        Completion {
            id: self.id@,
            typ: self.typ@,
            role: self.role@,
            model: self.model@,
            content: views(self.content@),
            stop_reason: self.stop_reason@,
            stop_sequence: opt_text(self.stop_sequence),
            usage: self.usage,
        }
    }
}

impl View for AnthropicChatCompletionContent {
    type V = Block;

    open spec fn view(&self) -> Block {
        Block { typ: self.typ@, text: self.text@ }
    }
}

impl View for AnthropicChatCompletionContentDelta {
    type V = Fragment;

    open spec fn view(&self) -> Fragment {
        Fragment { typ: opt_text(self.typ), text: self.text@ }
    }
}

impl FromJson for AnthropicChatCompletionContent {
    /// An object with the strings `type` and `text`.
    open spec fn shape(v: JsonValue) -> Option<Block> {
        match (required_text(v, "type"@), required_text(v, "text"@)) {
            (Some(typ), Some(text)) => Some(Block { typ, text }),
            _ => None,
        }
    }

    fn from_json(json: &Json) -> (r: Option<AnthropicChatCompletionContent>) {
        let typ = match read_text(json, "type") {
            Some(s) => s,
            None => { return None; },
        };
        let text = match read_text(json, "text") {
            Some(s) => s,
            None => { return None; },
        };
        Some(AnthropicChatCompletionContent { typ, text })
    }
}

impl FromJson for AnthropicChatCompletionContentDelta {
    /// An object with the string `text`; `type` may be a string, `null` or
    /// missing.
    open spec fn shape(v: JsonValue) -> Option<Fragment> {
        match (optional_text(v, "type"@), required_text(v, "text"@)) {
            (Some(typ), Some(text)) => Some(Fragment { typ, text }),
            _ => None,
        }
    }

    fn from_json(json: &Json) -> (r: Option<AnthropicChatCompletionContentDelta>) {
        let typ = match read_optional_text(json, "type") {
            Some(s) => s,
            None => { return None; },
        };
        let text = match read_text(json, "text") {
            Some(s) => s,
            None => { return None; },
        };
        Some(AnthropicChatCompletionContentDelta { typ, text })
    }
}

impl<C: FromJson> FromJson for AnthropicChatCompletionGeneric<C> {
    /// An object with the strings `id`, `type`, `role`, `model` and
    /// `stop_reason` and the array `content`, whose elements have the shape
    /// of `C`; `stop_sequence` and `usage` may each be `null` or missing.
    /// Members beyond these are not looked at.
    open spec fn shape(v: JsonValue) -> Option<Completion<C::V>> {
        if required_text(v, "id"@) is Some && required_text(v, "type"@) is Some && required_text(
            v,
            "role"@,
        ) is Some && required_text(v, "model"@) is Some && required_list::<C>(v, "content"@) is Some
            && required_text(v, "stop_reason"@) is Some && optional_text(v, "stop_sequence"@) is Some
            && optional_member::<AnthropicUsage>(v, "usage"@) is Some {
            Some(
                Completion {
                    id: required_text(v, "id"@).unwrap(),
                    typ: required_text(v, "type"@).unwrap(),
                    role: required_text(v, "role"@).unwrap(),
                    model: required_text(v, "model"@).unwrap(),
                    content: required_list::<C>(v, "content"@).unwrap(),
                    stop_reason: required_text(v, "stop_reason"@).unwrap(),
                    stop_sequence: optional_text(v, "stop_sequence"@).unwrap(),
                    usage: optional_member::<AnthropicUsage>(v, "usage"@).unwrap(),
                },
            )
        } else {
            None
        }
    }

    fn from_json(json: &Json) -> (r: Option<AnthropicChatCompletionGeneric<C>>) {
        let id = match read_text(json, "id") {
            Some(s) => s,
            None => { return None; },
        };
        let typ = match read_text(json, "type") {
            Some(s) => s,
            None => { return None; },
        };
        let role = match read_text(json, "role") {
            Some(s) => s,
            None => { return None; },
        };
        let model = match read_text(json, "model") {
            Some(s) => s,
            None => { return None; },
        };
        let content = match read_list::<C>(json, "content") {
            Some(list) => list,
            None => { return None; },
        };
        let stop_reason = match read_text(json, "stop_reason") {
            Some(s) => s,
            None => { return None; },
        };
        let stop_sequence = match read_optional_text(json, "stop_sequence") {
            Some(s) => s,
            None => { return None; },
        };
        let usage = match read_optional::<AnthropicUsage>(json, "usage") {
            Some(u) => u,
            None => { return None; },
        };
        Some(
            AnthropicChatCompletionGeneric {
                id,
                typ,
                role,
                model,
                content,
                stop_reason,
                stop_sequence,
                usage,
            },
        )
    }
}

/// The piece at index `i`, which is empty where the list has none.
pub open spec fn fragment_at(content: Seq<Fragment>, i: int) -> Fragment {
    if 0 <= i < content.len() {
        content[i]
    } else {
        Fragment { typ: None, text: Seq::empty() }
    }
}

/// Two pieces of one block put together: the texts in order, the first type
/// that was given.
pub open spec fn joined(a: Fragment, b: Fragment) -> Fragment {
    Fragment { typ: first_some(a.typ, b.typ), text: a.text + b.text }
}

/// Two lists of pieces put together index by index.
pub open spec fn merged_content(a: Seq<Fragment>, b: Seq<Fragment>) -> Seq<Fragment> {
    Seq::new(
        if a.len() >= b.len() {
            a.len()
        } else {
            b.len()
        },
        |i: int| joined(fragment_at(a, i), fragment_at(b, i)),
    )
}

/// A partial completion after one more event. Texts are appended to the block
/// of their index; identifier, type, role, model, stop reason and stop
/// sequence stay as they were first given; the usage counters are those given
/// last.
pub open spec fn merged(acc: Completion<Fragment>, event: Completion<Fragment>) -> Completion<
    Fragment,
> {
    Completion {
        id: first_text(acc.id, event.id),
        typ: first_text(acc.typ, event.typ),
        role: first_text(acc.role, event.role),
        model: first_text(acc.model, event.model),
        content: merged_content(acc.content, event.content),
        stop_reason: first_text(acc.stop_reason, event.stop_reason),
        stop_sequence: first_some(acc.stop_sequence, event.stop_sequence),
        usage: last_some(acc.usage, event.usage),
    }
}

/// The partial completion before any event.
pub open spec fn blank() -> Completion<Fragment> {
    Completion {
        id: Seq::empty(),
        typ: Seq::empty(),
        role: Seq::empty(),
        model: Seq::empty(),
        content: Seq::empty(),
        stop_reason: Seq::empty(),
        stop_sequence: None,
        usage: None,
    }
}

/// A partial completion after a run of events, taken in their order.
pub open spec fn folded(acc: Completion<Fragment>, events: Seq<Completion<Fragment>>) -> Completion<
    Fragment,
>
    decreases events.len(),
{
    if events.len() == 0 {
        acc
    } else {
        merged(folded(acc, events.drop_last()), events.last())
    }
}

/// The text that a run of events carries for the block of index `i`.
pub open spec fn stream_text(events: Seq<Completion<Fragment>>, i: int) -> Seq<char>
    decreases events.len(),
{
    if events.len() == 0 {
        Seq::empty()
    } else {
        stream_text(events.drop_last(), i) + fragment_at(events.last().content, i).text
    }
}

/// The block that a finished piece becomes: a piece without a type is text.
pub open spec fn finished_block(piece: Fragment) -> Block {
    Block {
        typ: match piece.typ {
            Some(typ) => typ,
            None => "text"@,
        },
        text: piece.text,
    }
}

/// The completion that a partial one becomes when its stream ends.
pub open spec fn finished(acc: Completion<Fragment>) -> Completion<Block> {
    Completion {
        id: acc.id,
        typ: acc.typ,
        role: acc.role,
        model: acc.model,
        content: Seq::new(acc.content.len(), |i: int| finished_block(acc.content[i])),
        stop_reason: acc.stop_reason,
        stop_sequence: acc.stop_sequence,
        usage: acc.usage,
    }
}

impl AnthropicChatCompletionContentDelta {
    /// A copy of this piece.
    pub fn copy(&self) -> (r: AnthropicChatCompletionContentDelta)
        ensures
            r@ == self@,
    {
        AnthropicChatCompletionContentDelta {
            typ: copy_optional_text(&self.typ),
            text: self.text.clone(),
        }
    }

    /// This piece followed by the next piece of the same block.
    pub fn join(&self, next: &AnthropicChatCompletionContentDelta) -> (r:
        AnthropicChatCompletionContentDelta)
        ensures
            r@ == joined(self@, next@),
    {
        let typ = match &self.typ {
            Some(typ) => Some(typ.clone()),
            None => copy_optional_text(&next.typ),
        };
        let text = self.text.clone().concat(next.text.as_str());
        AnthropicChatCompletionContentDelta { typ, text }
    }

    /// The finished block that this piece becomes.
    pub fn finish(self) -> (r: AnthropicChatCompletionContent)
        ensures
            r@ == finished_block(self@),
    {
        let typ = match self.typ {
            Some(typ) => typ,
            None => String::from_str("text"),
        };
        AnthropicChatCompletionContent { typ, text: self.text }
    }
}

/// Puts two lists of pieces together index by index.
pub fn merge_content(
    current: &Vec<AnthropicChatCompletionContentDelta>,
    next: &Vec<AnthropicChatCompletionContentDelta>,
) -> (r: Vec<AnthropicChatCompletionContentDelta>)
    ensures
        views(r@) == merged_content(views(current@), views(next@)),
{
    let n: usize = if current.len() >= next.len() {
        current.len()
    } else {
        next.len()
    };
    let mut out: Vec<AnthropicChatCompletionContentDelta> = Vec::new();
    let mut i: usize = 0;
    while i < n
        invariant
            0 <= i <= n,
            n == (if current@.len() >= next@.len() {
                current@.len()
            } else {
                next@.len()
            }),
            out@.len() == i,
            forall|j: int|
                0 <= j < i ==> (#[trigger] out@[j])@ == joined(
                    fragment_at(views(current@), j),
                    fragment_at(views(next@), j),
                ),
        decreases n - i,
    {
        let piece = if i < current.len() {
            if i < next.len() {
                current[i].join(&next[i])
            } else {
                let piece = current[i].copy();
                assert(piece@.text =~= piece@.text + Seq::<char>::empty());
                piece
            }
        } else {
            let piece = next[i].copy();
            assert(piece@.text =~= Seq::<char>::empty() + piece@.text);
            piece
        };
        out.push(piece);
        i = i + 1;
    }
    assert(views(out@) =~= merged_content(views(current@), views(next@)));
    out
}

impl AnthropicChatCompletionGeneric<AnthropicChatCompletionContentDelta> {
    /// The partial completion before any event.
    pub fn empty() -> (r: AnthropicChatCompletionDelta)
        ensures
            r@ == blank(),
    {
        let r = AnthropicChatCompletionGeneric {
            id: String::new(),
            typ: String::new(),
            role: String::new(),
            model: String::new(),
            content: Vec::new(),
            stop_reason: String::new(),
            stop_sequence: None,
            usage: None,
        };
        assert(r@.content =~= Seq::<Fragment>::empty());
        r
    }

    /// Folds one more event into this partial completion.
    pub fn merge(&mut self, other: AnthropicChatCompletionDelta)
        ensures
            final(self)@ == merged(old(self)@, other@),
    {
        if self.id.as_str().is_empty() {
            self.id = other.id;
        }
        if self.typ.as_str().is_empty() {
            self.typ = other.typ;
        }
        if self.role.as_str().is_empty() {
            self.role = other.role;
        }
        if self.model.as_str().is_empty() {
            self.model = other.model;
        }
        let content = merge_content(&self.content, &other.content);
        self.content = content;
        if self.stop_reason.as_str().is_empty() {
            self.stop_reason = other.stop_reason;
        }
        if self.stop_sequence.is_none() {
            self.stop_sequence = other.stop_sequence;
        }
        if other.usage.is_some() {
            self.usage = other.usage;
        }
    }

    /// The completion that this partial one becomes when its stream ends.
    pub fn finish(self) -> (r: AnthropicChatCompletion)
        ensures
            r@ == finished(self@),
    {
        let ghost pieces = views(self.content@);
        let mut content: Vec<AnthropicChatCompletionContent> = Vec::new();
        let mut rest = self.content;
        let mut i: usize = 0;
        let n: usize = rest.len();
        while i < n
            invariant
                0 <= i <= n,
                n == pieces.len(),
                rest@.len() == n,
                content@.len() == i,
                forall|j: int| i <= j < n ==> (#[trigger] rest@[j])@ == pieces[j],
                forall|j: int| 0 <= j < i ==> (#[trigger] content@[j])@ == finished_block(pieces[j]),
            decreases n - i,
        {
            let piece = rest[i].copy();
            content.push(piece.finish());
            i = i + 1;
        }
        let r = AnthropicChatCompletionGeneric {
            id: self.id,
            typ: self.typ,
            role: self.role,
            model: self.model,
            content,
            stop_reason: self.stop_reason,
            stop_sequence: self.stop_sequence,
            usage: self.usage,
        };
        assert(r@.content =~= finished(self@).content);
        r
    }
}

/// After one event, the text of every block is what it was, followed by what
/// the event carries for that block.
pub proof fn lemma_merged_text(acc: Completion<Fragment>, event: Completion<Fragment>, i: int)
    ensures
        fragment_at(merged(acc, event).content, i).text == fragment_at(acc.content, i).text
            + fragment_at(event.content, i).text,
{
    assert(Seq::<char>::empty() + Seq::<char>::empty() =~= Seq::<char>::empty());
}

/// After a run of events, the text of every block is what it was, followed
/// by what the events carry for that block, in their order.
pub proof fn lemma_folded_text(
    acc: Completion<Fragment>,
    events: Seq<Completion<Fragment>>,
    i: int,
)
    ensures
        fragment_at(folded(acc, events).content, i).text == fragment_at(acc.content, i).text
            + stream_text(events, i),
    decreases events.len(),
{
    if events.len() == 0 {
        assert(fragment_at(acc.content, i).text + Seq::<char>::empty() =~= fragment_at(
            acc.content,
            i,
        ).text);
    } else {
        let before = folded(acc, events.drop_last());
        lemma_folded_text(acc, events.drop_last(), i);
        lemma_merged_text(before, events.last(), i);
        assert((fragment_at(acc.content, i).text + stream_text(events.drop_last(), i))
            + fragment_at(events.last().content, i).text =~= fragment_at(acc.content, i).text + (
            stream_text(events.drop_last(), i) + fragment_at(events.last().content, i).text));
    }
}

/// How a provider cuts its text into events does not matter: two runs of
/// events that carry the same text for a block leave the same text in it.
pub proof fn lemma_batching_is_invisible(
    acc: Completion<Fragment>,
    single: Seq<Completion<Fragment>>,
    batched: Seq<Completion<Fragment>>,
    i: int,
)
    requires
        stream_text(single, i) == stream_text(batched, i),
    ensures
        fragment_at(folded(acc, single).content, i).text == fragment_at(
            folded(acc, batched).content,
            i,
        ).text,
{
    lemma_folded_text(acc, single, i);
    lemma_folded_text(acc, batched, i);
}

/// Folding is associative: folding two events one after the other is folding
/// the one event that they add up to.
pub proof fn lemma_merged_associative(
    a: Completion<Fragment>,
    b: Completion<Fragment>,
    c: Completion<Fragment>,
)
    ensures
        merged(merged(a, b), c) == merged(a, merged(b, c)),
{
    let left = merged(merged(a, b), c);
    let right = merged(a, merged(b, c));
    assert(left.content.len() == right.content.len());
    assert forall|i: int| 0 <= i < left.content.len() implies left.content[i]
        == right.content[i] by {
        let x = fragment_at(a.content, i);
        let y = fragment_at(b.content, i);
        let z = fragment_at(c.content, i);
        assert(fragment_at(merged_content(a.content, b.content), i) == joined(x, y)) by {
            assert(Seq::<char>::empty() + Seq::<char>::empty() =~= Seq::<char>::empty());
        }
        assert(fragment_at(merged_content(b.content, c.content), i) == joined(y, z)) by {
            assert(Seq::<char>::empty() + Seq::<char>::empty() =~= Seq::<char>::empty());
        }
        assert((x.text + y.text) + z.text =~= x.text + (y.text + z.text));
    }
    assert(left.content =~= right.content);
}

/// The blank completion is neutral: folded into an event, or an event into
/// it, it leaves the event.
pub proof fn lemma_blank_is_neutral(event: Completion<Fragment>)
    ensures
        merged(blank(), event) == event,
        merged(event, blank()) == event,
{
    assert forall|i: int| 0 <= i < event.content.len() implies merged_content(
        blank().content,
        event.content,
    )[i] == event.content[i] by {
        assert(Seq::<char>::empty() + event.content[i].text =~= event.content[i].text);
    }
    assert(merged(blank(), event).content =~= event.content);
    assert forall|i: int| 0 <= i < event.content.len() implies merged_content(
        event.content,
        blank().content,
    )[i] == event.content[i] by {
        assert(event.content[i].text + Seq::<char>::empty() =~= event.content[i].text);
    }
    assert(merged(event, blank()).content =~= event.content);
    assert(first_text(event.id, blank().id) =~= event.id);
    assert(first_text(event.typ, blank().typ) =~= event.typ);
    assert(first_text(event.role, blank().role) =~= event.role);
    assert(first_text(event.model, blank().model) =~= event.model);
    assert(first_text(event.stop_reason, blank().stop_reason) =~= event.stop_reason);
}

/// A piece of a turn as a mathematical value.
pub struct MessagePiece {
    pub role: Option<ChatCompletionMessageRole>,
    pub content: Option<Seq<char>>,
    pub name: Option<Seq<char>>,
    pub function_call: Option<CallPiece>,
    pub tool_call_id: Option<Seq<char>>,
    pub tool_calls: Seq<ToolCallView>,
}

/// A piece of a turn, as the first provider streams it.
#[derive(Clone, Debug, PartialEq, Eq)]
pub struct ChatCompletionMessageDelta {
    /// Who speaks.
    pub role: Option<ChatCompletionMessageRole>,
    /// A piece of the text.
    pub content: Option<String>,
    /// The speaker's name.
    pub name: Option<String>,
    /// A piece of a call of a function.
    pub function_call: Option<ChatCompletionFunctionCallDelta>,
    /// The call of a tool that a tool's turn answers.
    pub tool_call_id: Option<String>,
    /// Pieces of the calls of tools that the assistant asks for, by index.
    pub tool_calls: Vec<ToolCall>,
}

impl View for ChatCompletionMessageDelta {
    type V = MessagePiece;

    open spec fn view(&self) -> MessagePiece {
        MessagePiece {
            role: self.role,
            content: opt_text(self.content),
            name: opt_text(self.name),
            function_call: match self.function_call {
                Some(call) => Some(call@),
                None => None,
            },
            tool_call_id: opt_text(self.tool_call_id),
            tool_calls: views(self.tool_calls@),
        }
    }
}

impl FromJson for ChatCompletionMessageDelta {
    /// An object; `role`, `content`, `name`, `function_call` and
    /// `tool_call_id` may each be `null` or missing, and a missing
    /// `tool_calls` is the empty list.
    open spec fn shape(v: JsonValue) -> Option<MessagePiece> {
        if v is Object && optional_member::<ChatCompletionMessageRole>(v, "role"@) is Some
            && optional_text(v, "content"@) is Some && optional_text(v, "name"@) is Some
            && optional_member::<ChatCompletionFunctionCallDelta>(v, "function_call"@) is Some
            && optional_text(v, "tool_call_id"@) is Some && list_or_empty::<ToolCall>(
            v,
            "tool_calls"@,
        ) is Some {
            Some(
                MessagePiece {
                    role: optional_member::<ChatCompletionMessageRole>(v, "role"@).unwrap(),
                    content: optional_text(v, "content"@).unwrap(),
                    name: optional_text(v, "name"@).unwrap(),
                    function_call: optional_member::<ChatCompletionFunctionCallDelta>(
                        v,
                        "function_call"@,
                    ).unwrap(),
                    tool_call_id: optional_text(v, "tool_call_id"@).unwrap(),
                    tool_calls: list_or_empty::<ToolCall>(v, "tool_calls"@).unwrap(),
                },
            )
        } else {
            None
        }
    }

    fn from_json(json: &Json) -> (r: Option<ChatCompletionMessageDelta>) {
        match json {
            Json::Object(_) => {},
            _ => { return None; },
        }
        let role = match read_optional::<ChatCompletionMessageRole>(json, "role") {
            Some(x) => x,
            None => { return None; },
        };
        let content = match read_optional_text(json, "content") {
            Some(x) => x,
            None => { return None; },
        };
        let name = match read_optional_text(json, "name") {
            Some(x) => x,
            None => { return None; },
        };
        let function_call = match read_optional::<ChatCompletionFunctionCallDelta>(
            json,
            "function_call",
        ) {
            Some(x) => x,
            None => { return None; },
        };
        let tool_call_id = match read_optional_text(json, "tool_call_id") {
            Some(x) => x,
            None => { return None; },
        };
        let tool_calls = match json.get("tool_calls") {
            None => {
                let none = default_tool_calls_deserialization();
                assert(views(none@) =~= Seq::<ToolCallView>::empty());
                none
            },
            Some(_) => match read_list::<ToolCall>(json, "tool_calls") {
                Some(x) => x,
                None => { return None; },
            },
        };
        Some(
            ChatCompletionMessageDelta {
                role,
                content,
                name,
                function_call,
                tool_call_id,
                tool_calls,
            },
        )
    }
}

/// A piece of a turn after one more piece. Role, name and the answered call
/// stay as they were first given; a value that is missing changes nothing;
/// text and argument texts are appended in the order of arrival.
pub open spec fn merged_message(acc: MessagePiece, piece: MessagePiece) -> MessagePiece {
    MessagePiece {
        role: first_some(acc.role, piece.role),
        content: appended(acc.content, piece.content),
        name: first_some(acc.name, piece.name),
        function_call: joined_call(acc.function_call, piece.function_call),
        tool_call_id: first_some(acc.tool_call_id, piece.tool_call_id),
        tool_calls: merged_tool_calls(acc.tool_calls, piece.tool_calls),
    }
}

/// The turn that the pieces add up to, once the role is known.
pub open spec fn finished_message(acc: MessagePiece) -> Option<Message> {
    match acc.role {
        Some(role) => Some(
            Message {
                role,
                content: acc.content,
                name: acc.name,
                function_call: match acc.function_call {
                    Some(call) => Some(
                        Call {
                            name: match call.name {
                                Some(name) => name,
                                None => Seq::empty(),
                            },
                            arguments: match call.arguments {
                                Some(arguments) => arguments,
                                None => Seq::empty(),
                            },
                        },
                    ),
                    None => None,
                },
                tool_call_id: acc.tool_call_id,
                tool_calls: acc.tool_calls,
            },
        ),
        None => None,
    }
}

impl ChatCompletionMessageDelta {
    /// Folds one more piece into this piece of a turn.
    pub fn merge(&mut self, other: ChatCompletionMessageDelta)
        ensures
            final(self)@ == merged_message(old(self)@, other@),
    {
        if self.role.is_none() {
            self.role = other.role;
        }
        let content = append_optional(&self.content, &other.content);
        self.content = content;
        let name = first_optional(&self.name, &other.name);
        self.name = name;
        let function_call = join_call(&self.function_call, &other.function_call);
        self.function_call = function_call;
        let tool_call_id = first_optional(&self.tool_call_id, &other.tool_call_id);
        self.tool_call_id = tool_call_id;
        let tool_calls = merge_tool_calls(&self.tool_calls, &other.tool_calls);
        self.tool_calls = tool_calls;
    }

    /// The turn that the pieces add up to; `None` while no piece has named
    /// the role.
    pub fn finish(self) -> (r: Option<ChatCompletionMessage>)
        ensures
            match r {
                Some(message) => finished_message(self@) == Some(message@),
                None => finished_message(self@) is None,
            },
    {
        let role = match self.role {
            Some(role) => role,
            None => { return None; },
        };
        let function_call = match self.function_call {
            Some(call) => Some(
                ChatCompletionFunctionCall {
                    name: match call.name {
                        Some(name) => name,
                        None => String::new(),
                    },
                    arguments: match call.arguments {
                        Some(arguments) => arguments,
                        None => String::new(),
                    },
                },
            ),
            None => None,
        };
        Some(
            ChatCompletionMessage {
                role,
                content: self.content,
                name: self.name,
                function_call,
                tool_call_id: self.tool_call_id,
                tool_calls: self.tool_calls,
            },
        )
    }
}

/// The argument text of a call is what it was, followed by what the next
/// piece carries for the call of the same index; the order of the pieces is
/// the order of the text.
pub proof fn lemma_arguments_in_order(acc: MessagePiece, piece: MessagePiece, i: int)
    ensures
        tool_call_at(merged_message(acc, piece).tool_calls, i).function.arguments == tool_call_at(
            acc.tool_calls,
            i,
        ).function.arguments + tool_call_at(piece.tool_calls, i).function.arguments,
        acc.function_call is Some && piece.function_call is Some ==> merged_message(
            acc,
            piece,
        ).function_call.unwrap().arguments == appended(
            acc.function_call.unwrap().arguments,
            piece.function_call.unwrap().arguments,
        ),
{
    assert(Seq::<char>::empty() + Seq::<char>::empty() =~= Seq::<char>::empty());
}

/// The tool calls of a piece of a turn that names none.
pub fn default_tool_calls_deserialization() -> (r: Vec<ToolCall>)
    ensures
        r@.len() == 0,
{
    Vec::new()
}

} // verus!
