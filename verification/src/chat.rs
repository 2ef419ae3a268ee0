//! The turns of a conversation, independent of any provider.

use crate::envelope::{
    list_or_empty, optional_member, optional_text, read_list, read_member, read_optional,
    read_optional_text, read_text, read_unsigned, required_list, required_member, required_text,
    required_unsigned, views, FromJson,
};
use crate::merge::{
    append_optional, appended, copy_optional_text, first_filled, first_optional, first_some,
    first_text,
};
use crate::usage::Usage;
use crate::error::opt_text;
use crate::json::{same_text, Json, JsonValue};
use vstd::prelude::*;

verus! {

/// Who speaks in a turn.
#[derive(Debug, Clone, Copy, PartialEq, Eq, Structural)]
pub enum ChatCompletionMessageRole {
    System,
    User,
    Assistant,
    Function,
    Tool,
}

impl View for ChatCompletionMessageRole {
    type V = ChatCompletionMessageRole;

    open spec fn view(&self) -> ChatCompletionMessageRole {
        *self
    }
}

/// The role that a name stands for.
pub open spec fn role_named(name: Seq<char>) -> Option<ChatCompletionMessageRole> {
    if name == "system"@ {
        Some(ChatCompletionMessageRole::System)
    } else if name == "user"@ {
        Some(ChatCompletionMessageRole::User)
    } else if name == "assistant"@ {
        Some(ChatCompletionMessageRole::Assistant)
    } else if name == "function"@ {
        Some(ChatCompletionMessageRole::Function)
    } else if name == "tool"@ {
        Some(ChatCompletionMessageRole::Tool)
    } else {
        None
    }
}

impl FromJson for ChatCompletionMessageRole {
    /// A string that names a role.
    open spec fn shape(v: JsonValue) -> Option<ChatCompletionMessageRole> {
        match v {
            JsonValue::Text(name) => role_named(name),
            _ => None,
        }
    }

    fn from_json(json: &Json) -> (r: Option<ChatCompletionMessageRole>) {
        let name = match json.as_text() {
            Some(name) => name.as_str(),
            None => { return None; },
        };
        if same_text(name, "system") {
            Some(ChatCompletionMessageRole::System)
        } else if same_text(name, "user") {
            Some(ChatCompletionMessageRole::User)
        } else if same_text(name, "assistant") {
            Some(ChatCompletionMessageRole::Assistant)
        } else if same_text(name, "function") {
            Some(ChatCompletionMessageRole::Function)
        } else if same_text(name, "tool") {
            Some(ChatCompletionMessageRole::Tool)
        } else {
            None
        }
    }
}

/// A call of a function as a mathematical value.
pub struct Call {
    pub name: Seq<char>,
    pub arguments: Seq<char>,
}

/// A call of a function that the model asks for.
#[derive(Debug, Clone, PartialEq, Eq)]
pub struct ChatCompletionFunctionCall {
    pub name: String,
    pub arguments: String,
}

impl View for ChatCompletionFunctionCall {
    type V = Call;

    open spec fn view(&self) -> Call {
        Call { name: self.name@, arguments: self.arguments@ }
    }
}

/// A piece of a call of a function as a mathematical value.
pub struct CallPiece {
    pub name: Option<Seq<char>>,
    pub arguments: Option<Seq<char>>,
}

/// A piece of a call of a function, as it arrives on a stream.
#[derive(Debug, Clone, PartialEq, Eq)]
pub struct ChatCompletionFunctionCallDelta {
    pub name: Option<String>,
    pub arguments: Option<String>,
}

impl View for ChatCompletionFunctionCallDelta {
    type V = CallPiece;

    open spec fn view(&self) -> CallPiece {
        CallPiece { name: opt_text(self.name), arguments: opt_text(self.arguments) }
    }
}

impl FromJson for ChatCompletionFunctionCallDelta {
    /// An object; `name` and `arguments` may each be a string, `null` or
    /// missing.
    open spec fn shape(v: JsonValue) -> Option<CallPiece> {
        match (v is Object, optional_text(v, "name"@), optional_text(v, "arguments"@)) {
            (true, Some(name), Some(arguments)) => Some(CallPiece { name, arguments }),
            _ => None,
        }
    }

    fn from_json(json: &Json) -> (r: Option<ChatCompletionFunctionCallDelta>) {
        match json {
            Json::Object(_) => {},
            _ => { return None; },
        }
        let name = match read_optional_text(json, "name") {
            Some(s) => s,
            None => { return None; },
        };
        let arguments = match read_optional_text(json, "arguments") {
            Some(s) => s,
            None => { return None; },
        };
        Some(ChatCompletionFunctionCallDelta { name, arguments })
    }
}

/// The function of a call of a tool.
#[derive(Debug, Clone, PartialEq, Eq)]
pub struct ToolCallFunction {
    pub name: String,
    pub arguments: String,
}

impl View for ToolCallFunction {
    type V = Call;

    open spec fn view(&self) -> Call {
        Call { name: self.name@, arguments: self.arguments@ }
    }
}

impl FromJson for ToolCallFunction {
    /// An object with the strings `name` and `arguments`.
    open spec fn shape(v: JsonValue) -> Option<Call> {
        match (required_text(v, "name"@), required_text(v, "arguments"@)) {
            (Some(name), Some(arguments)) => Some(Call { name, arguments }),
            _ => None,
        }
    }

    fn from_json(json: &Json) -> (r: Option<ToolCallFunction>) {
        let name = match read_text(json, "name") {
            Some(s) => s,
            None => { return None; },
        };
        let arguments = match read_text(json, "arguments") {
            Some(s) => s,
            None => { return None; },
        };
        Some(ToolCallFunction { name, arguments })
    }
}

/// A call of a tool as a mathematical value.
pub struct ToolCallView {
    pub id: Seq<char>,
    pub typ: Seq<char>,
    pub function: Call,
}

/// A call of a tool that the assistant asks for.
#[derive(Debug, Clone, PartialEq, Eq)]
pub struct ToolCall {
    pub id: String,
    pub typ: String,
    pub function: ToolCallFunction,
}

impl View for ToolCall {
    type V = ToolCallView;

    open spec fn view(&self) -> ToolCallView {
        ToolCallView { id: self.id@, typ: self.typ@, function: self.function@ }
    }
}

impl FromJson for ToolCall {
    /// An object with the strings `id` and `type` and the member `function`.
    open spec fn shape(v: JsonValue) -> Option<ToolCallView> {
        match (
            required_text(v, "id"@),
            required_text(v, "type"@),
            required_member::<ToolCallFunction>(v, "function"@),
        ) {
            (Some(id), Some(typ), Some(function)) => Some(ToolCallView { id, typ, function }),
            _ => None,
        }
    }

    fn from_json(json: &Json) -> (r: Option<ToolCall>) {
        let id = match read_text(json, "id") {
            Some(s) => s,
            None => { return None; },
        };
        let typ = match read_text(json, "type") {
            Some(s) => s,
            None => { return None; },
        };
        let function = match read_member::<ToolCallFunction>(json, "function") {
            Some(f) => f,
            None => { return None; },
        };
        Some(ToolCall { id, typ, function })
    }
}

/// A turn of a conversation as a mathematical value.
pub struct Message {
    pub role: ChatCompletionMessageRole,
    pub content: Option<Seq<char>>,
    pub name: Option<Seq<char>>,
    pub function_call: Option<Call>,
    pub tool_call_id: Option<Seq<char>>,
    pub tool_calls: Seq<ToolCallView>,
}

impl Message {
    /// Only a tool's turn answers a call of a tool, and only the assistant
    /// asks for such calls.
    pub open spec fn well_formed(self) -> bool {
        &&& self.tool_call_id is Some ==> self.role is Tool
        &&& self.tool_calls.len() > 0 ==> self.role is Assistant
    }
}

/// One turn of a conversation.
#[derive(Debug, Clone, PartialEq, Eq)]
pub struct ChatCompletionMessage {
    pub role: ChatCompletionMessageRole,
    pub content: Option<String>,
    pub name: Option<String>,
    pub function_call: Option<ChatCompletionFunctionCall>,
    pub tool_call_id: Option<String>,
    pub tool_calls: Vec<ToolCall>,
}

impl View for ChatCompletionMessage {
    type V = Message;

    open spec fn view(&self) -> Message {
        Message {
            role: self.role,
            content: opt_text(self.content),
            name: opt_text(self.name),
            function_call: match self.function_call {
                Some(call) => Some(call@),
                None => None,
            },
            tool_call_id: opt_text(self.tool_call_id),
            tool_calls: views(self.tool_calls@),
        }
    }
}

impl ChatCompletionMessage {
    /// Whether the turn keeps the rules on calls of tools.
    pub fn is_well_formed(&self) -> (r: bool)
        ensures
            r == self@.well_formed(),
    {
        let answers_ok = match &self.tool_call_id {
            Some(_) => match self.role {
                ChatCompletionMessageRole::Tool => true,
                _ => false,
            },
            None => true,
        };
        let calls_ok = if self.tool_calls.len() > 0 {
            match self.role {
                ChatCompletionMessageRole::Assistant => true,
                _ => false,
            }
        } else {
            true
        };
        answers_ok && calls_ok
    }
}

impl FromJson for ChatCompletionFunctionCall {
    /// An object with the strings `name` and `arguments`.
    open spec fn shape(v: JsonValue) -> Option<Call> {
        match (required_text(v, "name"@), required_text(v, "arguments"@)) {
            (Some(name), Some(arguments)) => Some(Call { name, arguments }),
            _ => None,
        }
    }

    fn from_json(json: &Json) -> (r: Option<ChatCompletionFunctionCall>) {
        let name = match read_text(json, "name") {
            Some(s) => s,
            None => { return None; },
        };
        let arguments = match read_text(json, "arguments") {
            Some(s) => s,
            None => { return None; },
        };
        Some(ChatCompletionFunctionCall { name, arguments })
    }
}

impl FromJson for ChatCompletionMessage {
    /// An object with the member `role`; `content`, `name`, `function_call`
    /// and `tool_call_id` may each be `null` or missing, and a missing
    /// `tool_calls` is the empty list.
    open spec fn shape(v: JsonValue) -> Option<Message> {
        if required_member::<ChatCompletionMessageRole>(v, "role"@) is Some && optional_text(
            v,
            "content"@,
        ) is Some && optional_text(v, "name"@) is Some && optional_member::<
            ChatCompletionFunctionCall,
        >(v, "function_call"@) is Some && optional_text(v, "tool_call_id"@) is Some
            && list_or_empty::<ToolCall>(v, "tool_calls"@) is Some {
            Some(
                Message {
                    role: required_member::<ChatCompletionMessageRole>(v, "role"@).unwrap(),
                    content: optional_text(v, "content"@).unwrap(),
                    name: optional_text(v, "name"@).unwrap(),
                    function_call: optional_member::<ChatCompletionFunctionCall>(
                        v,
                        "function_call"@,
                    ).unwrap(),
                    tool_call_id: optional_text(v, "tool_call_id"@).unwrap(),
                    tool_calls: list_or_empty::<ToolCall>(v, "tool_calls"@).unwrap(),
                },
            )
        } else {
            None
        }
    }

    fn from_json(json: &Json) -> (r: Option<ChatCompletionMessage>) {
        let role = match read_member::<ChatCompletionMessageRole>(json, "role") {
            Some(x) => x,
            None => { return None; },
        };
        let content = match read_optional_text(json, "content") {
            Some(x) => x,
            None => { return None; },
        };
        let name = match read_optional_text(json, "name") {
            Some(x) => x,
            None => { return None; },
        };
        let function_call = match read_optional::<ChatCompletionFunctionCall>(
            json,
            "function_call",
        ) {
            Some(x) => x,
            None => { return None; },
        };
        let tool_call_id = match read_optional_text(json, "tool_call_id") {
            Some(x) => x,
            None => { return None; },
        };
        let tool_calls = match json.get("tool_calls") {
            None => {
                let none: Vec<ToolCall> = Vec::new();
                assert(views(none@) =~= Seq::<ToolCallView>::empty());
                none
            },
            Some(_) => match read_list::<ToolCall>(json, "tool_calls") {
                Some(x) => x,
                None => { return None; },
            },
        };
        Some(ChatCompletionMessage { role, content, name, function_call, tool_call_id, tool_calls })
    }
}

/// One answer of a completion as a mathematical value.
pub struct Choice {
    pub index: u64,
    pub finish_reason: Seq<char>,
    pub message: Message,
}

/// One answer of a completion of the first provider.
#[derive(Debug, Clone, PartialEq, Eq)]
pub struct ChatCompletionChoice {
    pub index: u64,
    pub finish_reason: String,
    pub message: ChatCompletionMessage,
}

impl View for ChatCompletionChoice {
    type V = Choice;

    open spec fn view(&self) -> Choice {
        Choice { index: self.index, finish_reason: self.finish_reason@, message: self.message@ }
    }
}

impl FromJson for ChatCompletionChoice {
    /// An object with the count `index`, the string `finish_reason` and the
    /// member `message`.
    open spec fn shape(v: JsonValue) -> Option<Choice> {
        match (
            required_unsigned(v, "index"@, u64::MAX as int),
            required_text(v, "finish_reason"@),
            required_member::<ChatCompletionMessage>(v, "message"@),
        ) {
            (Some(index), Some(finish_reason), Some(message)) => Some(
                Choice { index: index as u64, finish_reason, message },
            ),
            _ => None,
        }
    }

    fn from_json(json: &Json) -> (r: Option<ChatCompletionChoice>) {
        let index = match read_unsigned(json, "index", u64::MAX) {
            Some(x) => x,
            None => { return None; },
        };
        let finish_reason = match read_text(json, "finish_reason") {
            Some(x) => x,
            None => { return None; },
        };
        let message = match read_member::<ChatCompletionMessage>(json, "message") {
            Some(x) => x,
            None => { return None; },
        };
        Some(ChatCompletionChoice { index, finish_reason, message })
    }
}

/// A completion of the first provider as a mathematical value.
pub struct ChatCompletionView {
    pub id: Seq<char>,
    pub object: Seq<char>,
    pub created: u64,
    pub model: Seq<char>,
    pub choices: Seq<Choice>,
    pub usage: Option<Usage>,
}

/// A finished chat completion of the first provider.
#[derive(Debug, Clone, PartialEq, Eq)]
pub struct ChatCompletion {
    pub id: String,
    pub object: String,
    pub created: u64,
    pub model: String,
    pub choices: Vec<ChatCompletionChoice>,
    pub usage: Option<Usage>,
}

impl View for ChatCompletion {
    type V = ChatCompletionView;

    open spec fn view(&self) -> ChatCompletionView {
        ChatCompletionView {
            id: self.id@,
            object: self.object@,
            created: self.created,
            model: self.model@,
            choices: views(self.choices@),
            usage: self.usage,
        }
    }
}

impl FromJson for ChatCompletion {
    /// An object with the strings `id`, `object` and `model`, the count
    /// `created` and the array `choices`; `usage` may be `null` or missing.
    open spec fn shape(v: JsonValue) -> Option<ChatCompletionView> {
        if required_text(v, "id"@) is Some && required_text(v, "object"@) is Some
            && required_unsigned(v, "created"@, u64::MAX as int) is Some && required_text(
            v,
            "model"@,
        ) is Some && required_list::<ChatCompletionChoice>(v, "choices"@) is Some
            && optional_member::<Usage>(v, "usage"@) is Some {
            Some(
                ChatCompletionView {
                    id: required_text(v, "id"@).unwrap(),
                    object: required_text(v, "object"@).unwrap(),
                    created: required_unsigned(v, "created"@, u64::MAX as int).unwrap() as u64,
                    model: required_text(v, "model"@).unwrap(),
                    choices: required_list::<ChatCompletionChoice>(v, "choices"@).unwrap(),
                    usage: optional_member::<Usage>(v, "usage"@).unwrap(),
                },
            )
        } else {
            None
        }
    }

    fn from_json(json: &Json) -> (r: Option<ChatCompletion>) {
        let id = match read_text(json, "id") {
            Some(x) => x,
            None => { return None; },
        };
        let object = match read_text(json, "object") {
            Some(x) => x,
            None => { return None; },
        };
        let created = match read_unsigned(json, "created", u64::MAX) {
            Some(x) => x,
            None => { return None; },
        };
        let model = match read_text(json, "model") {
            Some(x) => x,
            None => { return None; },
        };
        let choices = match read_list::<ChatCompletionChoice>(json, "choices") {
            Some(x) => x,
            None => { return None; },
        };
        let usage = match read_optional::<Usage>(json, "usage") {
            Some(x) => x,
            None => { return None; },
        };
        Some(ChatCompletion { id, object, created, model, choices, usage })
    }
}

impl ChatCompletion {
    /// The text of the first answer, if there is one.
    pub fn content(&self) -> (r: Option<&String>)
        ensures
            match r {
                Some(text) => self@.choices.len() > 0 && self@.choices[0].message.content == Some(
                    text@,
                ),
                None => self@.choices.len() == 0 || self@.choices[0].message.content is None,
            },
    {
        if self.choices.len() == 0 {
            return None;
        }
        match &self.choices[0].message.content {
            Some(text) => Some(text),
            None => None,
        }
    }
}

/// Two pieces of one call of a function put together: the first name that
/// was given, the argument texts in order.
pub open spec fn joined_call(current: Option<CallPiece>, next: Option<CallPiece>) -> Option<
    CallPiece,
> {
    match (current, next) {
        (Some(a), Some(b)) => Some(
            CallPiece {
                name: first_some(a.name, b.name),
                arguments: appended(a.arguments, b.arguments),
            },
        ),
        (Some(a), None) => Some(a),
        (None, b) => b,
    }
}

/// The call of a tool at index `i`, which is empty where the list has none.
pub open spec fn tool_call_at(calls: Seq<ToolCallView>, i: int) -> ToolCallView {
    if 0 <= i < calls.len() {
        calls[i]
    } else {
        ToolCallView {
            id: Seq::empty(),
            typ: Seq::empty(),
            function: Call { name: Seq::empty(), arguments: Seq::empty() },
        }
    }
}

/// Two pieces of one call of a tool put together: identifier, type and name
/// as they were first given, the argument texts in order.
pub open spec fn joined_tool_call(a: ToolCallView, b: ToolCallView) -> ToolCallView {
    ToolCallView {
        id: first_text(a.id, b.id),
        typ: first_text(a.typ, b.typ),
        function: Call {
            name: first_text(a.function.name, b.function.name),
            arguments: a.function.arguments + b.function.arguments,
        },
    }
}

/// Two lists of calls of tools put together index by index.
pub open spec fn merged_tool_calls(a: Seq<ToolCallView>, b: Seq<ToolCallView>) -> Seq<
    ToolCallView,
> {
    Seq::new(
        if a.len() >= b.len() {
            a.len()
        } else {
            b.len()
        },
        |i: int| joined_tool_call(tool_call_at(a, i), tool_call_at(b, i)),
    )
}

impl ChatCompletionFunctionCallDelta {
    /// A copy of this piece.
    pub fn copy(&self) -> (r: ChatCompletionFunctionCallDelta)
        ensures
            r@ == self@,
    {
        ChatCompletionFunctionCallDelta {
            name: copy_optional_text(&self.name),
            arguments: copy_optional_text(&self.arguments),
        }
    }
}

/// Puts two pieces of one call of a function together.
pub fn join_call(
    current: &Option<ChatCompletionFunctionCallDelta>,
    next: &Option<ChatCompletionFunctionCallDelta>,
) -> (r: Option<ChatCompletionFunctionCallDelta>)
    ensures
        (match r {
            Some(call) => Some(call@),
            None => None,
        }) == joined_call(
            match *current {
                Some(call) => Some(call@),
                None => None,
            },
            match *next {
                Some(call) => Some(call@),
                None => None,
            },
        ),
{
    match current {
        Some(a) => match next {
            Some(b) => Some(
                ChatCompletionFunctionCallDelta {
                    name: first_optional(&a.name, &b.name),
                    arguments: append_optional(&a.arguments, &b.arguments),
                },
            ),
            None => Some(a.copy()),
        },
        None => match next {
            Some(b) => Some(b.copy()),
            None => None,
        },
    }
}

impl ToolCall {
    /// A copy of this call.
    pub fn copy(&self) -> (r: ToolCall)
        ensures
            r@ == self@,
    {
        ToolCall {
            id: self.id.clone(),
            typ: self.typ.clone(),
            function: ToolCallFunction {
                name: self.function.name.clone(),
                arguments: self.function.arguments.clone(),
            },
        }
    }

    /// This piece of a call followed by the next piece of the same call.
    pub fn join(&self, next: &ToolCall) -> (r: ToolCall)
        ensures
            r@ == joined_tool_call(self@, next@),
    {
        ToolCall {
            id: first_filled(&self.id, &next.id),
            typ: first_filled(&self.typ, &next.typ),
            function: ToolCallFunction {
                name: first_filled(&self.function.name, &next.function.name),
                arguments: self.function.arguments.clone().concat(
                    next.function.arguments.as_str(),
                ),
            },
        }
    }
}

/// Puts two lists of calls of tools together index by index.
pub fn merge_tool_calls(current: &Vec<ToolCall>, next: &Vec<ToolCall>) -> (r: Vec<ToolCall>)
    ensures
        views(r@) == merged_tool_calls(views(current@), views(next@)),
{
    let n: usize = if current.len() >= next.len() {
        current.len()
    } else {
        next.len()
    };
    let mut out: Vec<ToolCall> = Vec::new();
    let mut i: usize = 0;
    while i < n
        invariant
            0 <= i <= n,
            n == (if current@.len() >= next@.len() {
                current@.len()
            } else {
                next@.len()
            }),
            out@.len() == i,
            forall|j: int|
                0 <= j < i ==> (#[trigger] out@[j])@ == joined_tool_call(
                    tool_call_at(views(current@), j),
                    tool_call_at(views(next@), j),
                ),
        decreases n - i,
    {
        let call = if i < current.len() {
            if i < next.len() {
                current[i].join(&next[i])
            } else {
                let call = current[i].copy();
                assert(call@.function.arguments =~= call@.function.arguments
                    + Seq::<char>::empty());
                assert(first_text(call@.id, Seq::empty()) =~= call@.id);
                assert(first_text(call@.typ, Seq::empty()) =~= call@.typ);
                assert(first_text(call@.function.name, Seq::empty()) =~= call@.function.name);
                call
            }
        } else {
            let call = next[i].copy();
            assert(call@.function.arguments =~= Seq::<char>::empty()
                + call@.function.arguments);
            call
        };
        out.push(call);
        i = i + 1;
    }
    assert(views(out@) =~= merged_tool_calls(views(current@), views(next@)));
    out
}

/// A function that the model may call.
#[derive(Debug, PartialEq, Eq)]
pub struct ChatCompletionFunctionDefinition {
    /// The name by which the model calls it.
    pub name: String,
    /// What it does, for the model to read.
    pub description: Option<String>,
    /// The schema of its parameters.
    pub parameters: Option<Json>,
}

/// The kinds of output that a request may ask for.
#[derive(Debug, Clone, Copy, PartialEq, Eq, Structural)]
pub enum ChatCompletionResponseFormatType {
    Text,
    JsonObject,
}

/// The kind of output that a request asks for.
#[derive(Debug, Clone, Copy, PartialEq, Eq, Structural)]
pub struct ChatCompletionResponseFormat {
    pub typ: ChatCompletionResponseFormatType,
}

} // verus!
