//! Chat messages, their tool calls and content parts, and their byte-level
//! form at the C boundary.

use vstd::prelude::*;
use vstd::utf8::*;

use crate::error::ChatError;
use crate::text::{
    c_bytes, c_bytes_opt, c_text_or_empty, c_text_or_none, first_nul, lemma_first_nul_append,
    lemma_first_nul_flatten_at, lemma_first_nul_single, lemma_flatten_take_step, nul_outcome, opt_bytes, opt_chars, opt_seq,
    opt_utf8, text_or_empty, text_or_none,
};

verus! {

/// A tool call made by the model.
#[derive(Debug, Clone)]
pub struct ChatToolCall {
    pub name: String,
    pub arguments: String,
    pub id: String,
}

/// A content part within a chat message.
#[derive(Debug, Clone)]
pub struct ChatMessageContentPart {
    pub content_type: String,
    pub text: String,
}

/// A chat message.
#[derive(Debug, Clone)]
pub struct ChatMessage {
    pub role: String,
    pub content: String,
    pub content_parts: Vec<ChatMessageContentPart>,
    pub tool_calls: Vec<ChatToolCall>,
    pub reasoning_content: Option<String>,
    pub tool_name: Option<String>,
    pub tool_call_id: Option<String>,
}

/// The text of a tool call.
pub struct ToolCallView {
    pub name: Seq<char>,
    pub arguments: Seq<char>,
    pub id: Seq<char>,
}

/// The text of a content part.
pub struct ContentPartView {
    pub content_type: Seq<char>,
    pub text: Seq<char>,
}

/// The text of a chat message.
pub struct MessageView {
    pub role: Seq<char>,
    pub content: Seq<char>,
    pub content_parts: Seq<ContentPartView>,
    pub tool_calls: Seq<ToolCallView>,
    pub reasoning_content: Option<Seq<char>>,
    pub tool_name: Option<Seq<char>>,
    pub tool_call_id: Option<Seq<char>>,
}

impl View for ChatToolCall {
    type V = ToolCallView;

    open spec fn view(&self) -> ToolCallView {
        ToolCallView { name: self.name@, arguments: self.arguments@, id: self.id@ }
    }
}

impl View for ChatMessageContentPart {
    type V = ContentPartView;

    open spec fn view(&self) -> ContentPartView {
        ContentPartView { content_type: self.content_type@, text: self.text@ }
    }
}

impl View for ChatMessage {
    type V = MessageView;

    open spec fn view(&self) -> MessageView {
        MessageView {
            role: self.role@,
            content: self.content@,
            content_parts: parts_view(self.content_parts@),
            tool_calls: calls_view(self.tool_calls@),
            reasoning_content: opt_chars(self.reasoning_content),
            tool_name: opt_chars(self.tool_name),
            tool_call_id: opt_chars(self.tool_call_id),
        }
    }
}

/// A tool call as the C side holds it: each field a C string, `None` for a
/// null pointer.
#[derive(Debug, Clone)]
pub struct RawToolCall {
    pub name: Option<Vec<u8>>,
    pub arguments: Option<Vec<u8>>,
    pub id: Option<Vec<u8>>,
}

/// A content part as the C side holds it.
#[derive(Debug, Clone)]
pub struct RawContentPart {
    pub content_type: Option<Vec<u8>>,
    pub text: Option<Vec<u8>>,
}

/// A chat message as the C side holds it. A null array of parts or of tool
/// calls is an empty one.
#[derive(Debug, Clone)]
pub struct RawChatMessage {
    pub role: Option<Vec<u8>>,
    pub content: Option<Vec<u8>>,
    pub content_parts: Vec<RawContentPart>,
    pub tool_calls: Vec<RawToolCall>,
    pub reasoning_content: Option<Vec<u8>>,
    pub tool_name: Option<Vec<u8>>,
    pub tool_call_id: Option<Vec<u8>>,
}

/// The bytes of a raw tool call.
pub struct RawToolCallView {
    pub name: Option<Seq<u8>>,
    pub arguments: Option<Seq<u8>>,
    pub id: Option<Seq<u8>>,
}

/// The bytes of a raw content part.
pub struct RawContentPartView {
    pub content_type: Option<Seq<u8>>,
    pub text: Option<Seq<u8>>,
}

/// The bytes of a raw chat message.
pub struct RawMessageView {
    pub role: Option<Seq<u8>>,
    pub content: Option<Seq<u8>>,
    pub content_parts: Seq<RawContentPartView>,
    pub tool_calls: Seq<RawToolCallView>,
    pub reasoning_content: Option<Seq<u8>>,
    pub tool_name: Option<Seq<u8>>,
    pub tool_call_id: Option<Seq<u8>>,
}

impl View for RawToolCall {
    type V = RawToolCallView;

    open spec fn view(&self) -> RawToolCallView {
        RawToolCallView {
            name: opt_bytes(self.name),
            arguments: opt_bytes(self.arguments),
            id: opt_bytes(self.id),
        }
    }
}

impl View for RawContentPart {
    type V = RawContentPartView;

    open spec fn view(&self) -> RawContentPartView {
        RawContentPartView {
            content_type: opt_bytes(self.content_type),
            text: opt_bytes(self.text),
        }
    }
}

impl View for RawChatMessage {
    type V = RawMessageView;

    open spec fn view(&self) -> RawMessageView {
        RawMessageView {
            role: opt_bytes(self.role),
            content: opt_bytes(self.content),
            content_parts: raw_parts_view(self.content_parts@),
            tool_calls: raw_calls_view(self.tool_calls@),
            reasoning_content: opt_bytes(self.reasoning_content),
            tool_name: opt_bytes(self.tool_name),
            tool_call_id: opt_bytes(self.tool_call_id),
        }
    }
}

/// The views of a list of content parts.
pub open spec fn parts_view(ps: Seq<ChatMessageContentPart>) -> Seq<ContentPartView> {
    ps.map_values(|p: ChatMessageContentPart| p@)
}

/// The views of a list of tool calls.
pub open spec fn calls_view(cs: Seq<ChatToolCall>) -> Seq<ToolCallView> {
    cs.map_values(|c: ChatToolCall| c@)
}

/// The views of a list of raw content parts.
pub open spec fn raw_parts_view(ps: Seq<RawContentPart>) -> Seq<RawContentPartView> {
    ps.map_values(|p: RawContentPart| p@)
}

/// The views of a list of raw tool calls.
pub open spec fn raw_calls_view(cs: Seq<RawToolCall>) -> Seq<RawToolCallView> {
    cs.map_values(|c: RawToolCall| c@)
}

/// Content parts read back from C.
pub open spec fn parts_from_raw(ps: Seq<RawContentPartView>) -> Seq<ContentPartView> {
    ps.map_values(|p: RawContentPartView| part_from_raw(p))
}

/// Tool calls read back from C.
pub open spec fn calls_from_raw(cs: Seq<RawToolCallView>) -> Seq<ToolCallView> {
    cs.map_values(|c: RawToolCallView| tool_call_from_raw(c))
}

/// Content parts as C strings.
pub open spec fn parts_to_raw_spec(ps: Seq<ContentPartView>) -> Seq<RawContentPartView> {
    ps.map_values(|p: ContentPartView| part_to_raw(p))
}

/// Tool calls as C strings.
pub open spec fn calls_to_raw_spec(cs: Seq<ToolCallView>) -> Seq<RawToolCallView> {
    cs.map_values(|c: ToolCallView| tool_call_to_raw(c))
}

// ---------------------------------------------------------------------------
// From the C side: missing or non-UTF-8 text becomes empty (or `None` for the
// optional fields).

/// A tool call read back from C.
pub open spec fn tool_call_from_raw(r: RawToolCallView) -> ToolCallView {
    ToolCallView {
        name: text_or_empty(r.name),
        arguments: text_or_empty(r.arguments),
        id: text_or_empty(r.id),
    }
}

/// A content part read back from C.
pub open spec fn part_from_raw(r: RawContentPartView) -> ContentPartView {
    ContentPartView { content_type: text_or_empty(r.content_type), text: text_or_empty(r.text) }
}

/// A chat message read back from C.
pub open spec fn message_from_raw(r: RawMessageView) -> MessageView {
    MessageView {
        role: text_or_empty(r.role),
        content: text_or_empty(r.content),
        content_parts: parts_from_raw(r.content_parts),
        tool_calls: calls_from_raw(r.tool_calls),
        reasoning_content: text_or_none(r.reasoning_content),
        tool_name: text_or_none(r.tool_name),
        tool_call_id: text_or_none(r.tool_call_id),
    }
}

// ---------------------------------------------------------------------------
// To the C side: every string as its UTF-8 bytes.

/// A tool call as C strings.
pub open spec fn tool_call_to_raw(c: ToolCallView) -> RawToolCallView {
    RawToolCallView {
        name: Some(encode_utf8(c.name)),
        arguments: Some(encode_utf8(c.arguments)),
        id: Some(encode_utf8(c.id)),
    }
}

/// A content part as C strings.
pub open spec fn part_to_raw(p: ContentPartView) -> RawContentPartView {
    RawContentPartView {
        content_type: Some(encode_utf8(p.content_type)),
        text: Some(encode_utf8(p.text)),
    }
}

/// A chat message as C strings.
pub open spec fn message_to_raw(m: MessageView) -> RawMessageView {
    RawMessageView {
        role: Some(encode_utf8(m.role)),
        content: Some(encode_utf8(m.content)),
        content_parts: parts_to_raw_spec(m.content_parts),
        tool_calls: calls_to_raw_spec(m.tool_calls),
        reasoning_content: opt_utf8(m.reasoning_content),
        tool_name: opt_utf8(m.tool_name),
        tool_call_id: opt_utf8(m.tool_call_id),
    }
}

/// The strings of a tool call, in the order they become C strings.
pub open spec fn tool_call_strings(c: ToolCallView) -> Seq<Seq<u8>> {
    seq![encode_utf8(c.name), encode_utf8(c.arguments), encode_utf8(c.id)]
}

/// The strings of a content part, in the order they become C strings.
pub open spec fn part_strings(p: ContentPartView) -> Seq<Seq<u8>> {
    seq![encode_utf8(p.content_type), encode_utf8(p.text)]
}

/// The strings of a message, in the order they become C strings: role,
/// content, reasoning, tool name, tool call id, the content parts, then the
/// tool calls.
pub open spec fn message_strings(m: MessageView) -> Seq<Seq<u8>> {
    seq![encode_utf8(m.role)]
        + seq![encode_utf8(m.content)]
        + opt_seq(opt_utf8(m.reasoning_content))
        + opt_seq(opt_utf8(m.tool_name))
        + opt_seq(opt_utf8(m.tool_call_id))
        + parts_strings(m.content_parts)
        + tool_calls_strings(m.tool_calls)
}

/// The strings of a list of content parts, in order.
pub open spec fn parts_strings(ps: Seq<ContentPartView>) -> Seq<Seq<u8>> {
    parts_string_lists(ps).flatten()
}

/// The strings of each content part of a list.
pub open spec fn parts_string_lists(ps: Seq<ContentPartView>) -> Seq<Seq<Seq<u8>>> {
    ps.map_values(|p: ContentPartView| part_strings(p))
}

/// The strings of a list of tool calls, in order.
pub open spec fn tool_calls_strings(cs: Seq<ToolCallView>) -> Seq<Seq<u8>> {
    tool_calls_string_lists(cs).flatten()
}

/// The strings of each tool call of a list.
pub open spec fn tool_calls_string_lists(cs: Seq<ToolCallView>) -> Seq<Seq<Seq<u8>>> {
    cs.map_values(|c: ToolCallView| tool_call_strings(c))
}

/// A message with every string empty and no optional field.
pub open spec fn empty_message(m: MessageView) -> bool {
    &&& m.role.len() == 0
    &&& m.content.len() == 0
    &&& m.content_parts.len() == 0
    &&& m.tool_calls.len() == 0
    &&& m.reasoning_content is None
    &&& m.tool_name is None
    &&& m.tool_call_id is None
}

impl ChatToolCall {
    /// Reads a tool call back from its C form.
    pub fn from_raw(raw: &RawToolCall) -> (res: ChatToolCall)
        ensures
            res@ == tool_call_from_raw(raw@),
            res.name@ == text_or_empty(opt_bytes(raw.name)),
            res.arguments@ == text_or_empty(opt_bytes(raw.arguments)),
            res.id@ == text_or_empty(opt_bytes(raw.id)),
    {
        ChatToolCall {
            name: c_text_or_empty(&raw.name),
            arguments: c_text_or_empty(&raw.arguments),
            id: c_text_or_empty(&raw.id),
        }
    }

    /// The C form of a tool call; fails at the first NUL byte of its name,
    /// arguments or id, in that order.
    pub fn to_raw(&self) -> (res: Result<RawToolCall, ChatError>)
        ensures
            nul_outcome(res, first_nul(tool_call_strings(self@))),
            res matches Ok(r) ==> r@ == tool_call_to_raw(self@),
            res matches Ok(r) ==> {
                &&& opt_bytes(r.name) == Some(encode_utf8(self.name@))
                &&& opt_bytes(r.arguments) == Some(encode_utf8(self.arguments@))
                &&& opt_bytes(r.id) == Some(encode_utf8(self.id@))
            },
    {
        let ghost strs = tool_call_strings(self@);
        proof {
            reveal_with_fuel(first_nul, 4);
            assert(strs.drop_first() =~= seq![strs[1], strs[2]]);
            assert(strs.drop_first().drop_first() =~= seq![strs[2]]);
            assert(strs.drop_first().drop_first().drop_first() =~= Seq::<Seq<u8>>::empty());
        }
        let name = match c_bytes(self.name.as_str()) {
            Ok(v) => v,
            Err(e) => return Err(e),
        };
        let arguments = match c_bytes(self.arguments.as_str()) {
            Ok(v) => v,
            Err(e) => return Err(e),
        };
        let id = match c_bytes(self.id.as_str()) {
            Ok(v) => v,
            Err(e) => return Err(e),
        };
        Ok(RawToolCall { name: Some(name), arguments: Some(arguments), id: Some(id) })
    }
}

impl ChatMessageContentPart {
    /// Reads a content part back from its C form.
    pub fn from_raw(raw: &RawContentPart) -> (res: ChatMessageContentPart)
        ensures
            res@ == part_from_raw(raw@),
            res.content_type@ == text_or_empty(opt_bytes(raw.content_type)),
            res.text@ == text_or_empty(opt_bytes(raw.text)),
    {
        ChatMessageContentPart {
            content_type: c_text_or_empty(&raw.content_type),
            text: c_text_or_empty(&raw.text),
        }
    }

    /// The C form of a content part; fails at the first NUL byte of its type
    /// or text, in that order.
    pub fn to_raw(&self) -> (res: Result<RawContentPart, ChatError>)
        ensures
            nul_outcome(res, first_nul(part_strings(self@))),
            res matches Ok(r) ==> r@ == part_to_raw(self@),
            res matches Ok(r) ==> {
                &&& opt_bytes(r.content_type) == Some(encode_utf8(self.content_type@))
                &&& opt_bytes(r.text) == Some(encode_utf8(self.text@))
            },
    {
        let ghost strs = part_strings(self@);
        proof {
            reveal_with_fuel(first_nul, 3);
            assert(strs.drop_first() =~= seq![strs[1]]);
            assert(strs.drop_first().drop_first() =~= Seq::<Seq<u8>>::empty());
        }
        let content_type = match c_bytes(self.content_type.as_str()) {
            Ok(v) => v,
            Err(e) => return Err(e),
        };
        let text = match c_bytes(self.text.as_str()) {
            Ok(v) => v,
            Err(e) => return Err(e),
        };
        Ok(RawContentPart { content_type: Some(content_type), text: Some(text) })
    }
}

/// The C form of a list of content parts; fails at the first NUL byte.
fn parts_to_raw(parts: &Vec<ChatMessageContentPart>) -> (res: Result<Vec<RawContentPart>, ChatError>)
    ensures
        nul_outcome(res, first_nul(parts_strings(parts_view(parts@)))),
        res matches Ok(v) ==> raw_parts_view(v@) == parts_to_raw_spec(parts_view(parts@)),
{
    let ghost views = parts_view(parts@);
    let ghost lists = parts_string_lists(views);
    let mut out: Vec<RawContentPart> = Vec::new();
    let mut i: usize = 0;
    proof {
        assert(lists.take(0) =~= Seq::<Seq<Seq<u8>>>::empty());
    }
    while i < parts.len()
        invariant
            i <= parts.len(),
            views == parts_view(parts@),
            lists == parts_string_lists(views),
            first_nul(lists.take(i as int).flatten()) is None,
            raw_parts_view(out@) =~= parts_to_raw_spec(views.take(i as int)),
        decreases parts.len() - i,
    {
        proof {
            lemma_first_nul_flatten_at(lists, i as int);
            lemma_flatten_take_step(lists, i as int);
            lemma_first_nul_append(lists.take(i as int).flatten(), lists[i as int]);
            assert(views[i as int] == parts@[i as int]@);
        }
        match parts[i].to_raw() {
            Ok(r) => {
                let ghost before = out@;
                assert(raw_parts_view(before).len() == i);
                assert(before.len() == i);
                out.push(r);
                proof {
                    assert(out@ =~= before.push(r));
                    assert(raw_parts_view(out@)[i as int] == part_to_raw(views[i as int]));
                    assert forall|k: int| 0 <= k < i implies #[trigger] raw_parts_view(out@)[k] == raw_parts_view(
                        before,
                    )[k] by {
                        assert(out@[k] == before[k]);
                    }
                    assert(raw_parts_view(out@) =~= parts_to_raw_spec(views.take(i + 1)));
                }
            },
            Err(e) => {
                return Err(e);
            },
        }
        i = i + 1;
    }
    proof {
        assert(lists.take(i as int) =~= lists);
        assert(views.take(i as int) =~= views);
    }
    Ok(out)
}

/// The C form of a list of tool calls; fails at the first NUL byte.
fn tool_calls_to_raw(calls: &Vec<ChatToolCall>) -> (res: Result<Vec<RawToolCall>, ChatError>)
    ensures
        nul_outcome(res, first_nul(tool_calls_strings(calls_view(calls@)))),
        res matches Ok(v) ==> raw_calls_view(v@) == calls_to_raw_spec(calls_view(calls@)),
{
    let ghost views = calls_view(calls@);
    let ghost lists = tool_calls_string_lists(views);
    let mut out: Vec<RawToolCall> = Vec::new();
    let mut i: usize = 0;
    proof {
        assert(lists.take(0) =~= Seq::<Seq<Seq<u8>>>::empty());
    }
    while i < calls.len()
        invariant
            i <= calls.len(),
            views == calls_view(calls@),
            lists == tool_calls_string_lists(views),
            first_nul(lists.take(i as int).flatten()) is None,
            raw_calls_view(out@) =~= calls_to_raw_spec(views.take(i as int)),
        decreases calls.len() - i,
    {
        proof {
            lemma_first_nul_flatten_at(lists, i as int);
            lemma_flatten_take_step(lists, i as int);
            lemma_first_nul_append(lists.take(i as int).flatten(), lists[i as int]);
            assert(views[i as int] == calls@[i as int]@);
        }
        match calls[i].to_raw() {
            Ok(r) => {
                let ghost before = out@;
                assert(raw_calls_view(before).len() == i);
                assert(before.len() == i);
                out.push(r);
                proof {
                    assert(out@ =~= before.push(r));
                    assert(raw_calls_view(out@)[i as int] == tool_call_to_raw(views[i as int]));
                    assert forall|k: int| 0 <= k < i implies #[trigger] raw_calls_view(out@)[k] == raw_calls_view(
                        before,
                    )[k] by {
                        assert(out@[k] == before[k]);
                    }
                    assert(raw_calls_view(out@) =~= calls_to_raw_spec(views.take(i + 1)));
                }
            },
            Err(e) => {
                return Err(e);
            },
        }
        i = i + 1;
    }
    proof {
        assert(lists.take(i as int) =~= lists);
        assert(views.take(i as int) =~= views);
    }
    Ok(out)
}

impl ChatMessage {
    /// Reads a message back from its C form: a missing or non-UTF-8 string
    /// becomes empty, or `None` for the optional fields.
    pub fn from_raw(raw: &RawChatMessage) -> (res: ChatMessage)
        ensures
            res@ == message_from_raw(raw@),
            res.role@ == text_or_empty(opt_bytes(raw.role)),
            res.content@ == text_or_empty(opt_bytes(raw.content)),
            opt_chars(res.reasoning_content) == text_or_none(opt_bytes(raw.reasoning_content)),
            opt_chars(res.tool_name) == text_or_none(opt_bytes(raw.tool_name)),
            opt_chars(res.tool_call_id) == text_or_none(opt_bytes(raw.tool_call_id)),
            res.content_parts.len() == raw.content_parts.len(),
            res.tool_calls.len() == raw.tool_calls.len(),
    {
        let mut content_parts: Vec<ChatMessageContentPart> = Vec::new();
        let mut i: usize = 0;
        while i < raw.content_parts.len()
            invariant
                i <= raw.content_parts.len(),
                parts_view(content_parts@) =~= parts_from_raw(
                    raw_parts_view(raw.content_parts@).take(i as int),
                ),
            decreases raw.content_parts.len() - i,
        {
            let part = ChatMessageContentPart::from_raw(&raw.content_parts[i]);
            let ghost before = content_parts@;
            assert(parts_view(before).len() == i);
            assert(before.len() == i);
            content_parts.push(part);
            proof {
                assert(content_parts@ =~= before.push(part));
                assert forall|k: int| 0 <= k < i implies #[trigger] parts_view(content_parts@)[k]
                    == parts_view(before)[k] by {
                    assert(content_parts@[k] == before[k]);
                }
                assert(parts_view(content_parts@) =~= parts_from_raw(
                    raw_parts_view(raw.content_parts@).take(i + 1),
                ));
            }
            i = i + 1;
        }
        let mut tool_calls: Vec<ChatToolCall> = Vec::new();
        let mut j: usize = 0;
        while j < raw.tool_calls.len()
            invariant
                j <= raw.tool_calls.len(),
                calls_view(tool_calls@) =~= calls_from_raw(
                    raw_calls_view(raw.tool_calls@).take(j as int),
                ),
            decreases raw.tool_calls.len() - j,
        {
            let call = ChatToolCall::from_raw(&raw.tool_calls[j]);
            let ghost before = tool_calls@;
            assert(calls_view(before).len() == j);
            assert(before.len() == j);
            tool_calls.push(call);
            proof {
                assert(tool_calls@ =~= before.push(call));
                assert forall|k: int| 0 <= k < j implies #[trigger] calls_view(tool_calls@)[k]
                    == calls_view(before)[k] by {
                    assert(tool_calls@[k] == before[k]);
                }
                assert(calls_view(tool_calls@) =~= calls_from_raw(
                    raw_calls_view(raw.tool_calls@).take(j + 1),
                ));
            }
            j = j + 1;
        }
        proof {
            assert(raw_parts_view(raw.content_parts@).take(i as int) =~= raw_parts_view(
                raw.content_parts@,
            ));
            assert(raw_calls_view(raw.tool_calls@).take(j as int) =~= raw_calls_view(
                raw.tool_calls@,
            ));
        }
        ChatMessage {
            role: c_text_or_empty(&raw.role),
            content: c_text_or_empty(&raw.content),
            content_parts,
            tool_calls,
            reasoning_content: c_text_or_none(&raw.reasoning_content),
            tool_name: c_text_or_none(&raw.tool_name),
            tool_call_id: c_text_or_none(&raw.tool_call_id),
        }
    }

    /// The C form of a message. Its strings become C strings in the order of
    /// `message_strings`; the first that holds a NUL byte is the error.
    pub fn to_raw(&self) -> (res: Result<RawChatMessage, ChatError>)
        ensures
            nul_outcome(res, first_nul(message_strings(self@))),
            res matches Ok(r) ==> r@ == message_to_raw(self@),
            res matches Ok(r) ==> {
                &&& opt_bytes(r.role) == Some(encode_utf8(self.role@))
                &&& opt_bytes(r.content) == Some(encode_utf8(self.content@))
                &&& opt_bytes(r.reasoning_content) == opt_utf8(opt_chars(self.reasoning_content))
                &&& opt_bytes(r.tool_name) == opt_utf8(opt_chars(self.tool_name))
                &&& opt_bytes(r.tool_call_id) == opt_utf8(opt_chars(self.tool_call_id))
                &&& r.content_parts.len() == self.content_parts.len()
                &&& r.tool_calls.len() == self.tool_calls.len()
            },
    {
        let ghost m = self@;
        let ghost a1 = seq![encode_utf8(m.role)];
        let ghost a2 = seq![encode_utf8(m.content)];
        let ghost a3 = opt_seq(opt_utf8(m.reasoning_content));
        let ghost a4 = opt_seq(opt_utf8(m.tool_name));
        let ghost a5 = opt_seq(opt_utf8(m.tool_call_id));
        let ghost a6 = parts_strings(m.content_parts);
        let ghost a7 = tool_calls_strings(m.tool_calls);
        proof {
            lemma_first_nul_single(encode_utf8(m.role));
            lemma_first_nul_single(encode_utf8(m.content));
            lemma_first_nul_append(a1, a2);
            lemma_first_nul_append(a1 + a2, a3);
            lemma_first_nul_append(a1 + a2 + a3, a4);
            lemma_first_nul_append(a1 + a2 + a3 + a4, a5);
            lemma_first_nul_append(a1 + a2 + a3 + a4 + a5, a6);
            lemma_first_nul_append(a1 + a2 + a3 + a4 + a5 + a6, a7);
            assert(message_strings(m) == a1 + a2 + a3 + a4 + a5 + a6 + a7);
        }
        let role = match c_bytes(self.role.as_str()) {
            Ok(v) => v,
            Err(e) => return Err(e),
        };
        let content = match c_bytes(self.content.as_str()) {
            Ok(v) => v,
            Err(e) => return Err(e),
        };
        let reasoning_content = match c_bytes_opt(&self.reasoning_content) {
            Ok(v) => v,
            Err(e) => return Err(e),
        };
        let tool_name = match c_bytes_opt(&self.tool_name) {
            Ok(v) => v,
            Err(e) => return Err(e),
        };
        let tool_call_id = match c_bytes_opt(&self.tool_call_id) {
            Ok(v) => v,
            Err(e) => return Err(e),
        };
        let content_parts = match parts_to_raw(&self.content_parts) {
            Ok(v) => v,
            Err(e) => return Err(e),
        };
        let tool_calls = match tool_calls_to_raw(&self.tool_calls) {
            Ok(v) => v,
            Err(e) => return Err(e),
        };
        assert(raw_parts_view(content_parts@).len() == parts_view(self.content_parts@).len());
        assert(raw_calls_view(tool_calls@).len() == calls_view(self.tool_calls@).len());
        Ok(
            RawChatMessage {
                role: Some(role),
                content: Some(content),
                content_parts,
                tool_calls,
                reasoning_content,
                tool_name,
                tool_call_id,
            },
        )
    }
}

impl Default for ChatMessage {
    /// An empty message: empty role and content, no parts, no tool calls and
    /// no optional fields.
    fn default() -> (res: Self)
        ensures
            empty_message(res@),
            res.role@.len() == 0,
            res.content@.len() == 0,
            res.content_parts.len() == 0,
            res.tool_calls.len() == 0,
            res.reasoning_content is None,
            res.tool_name is None,
            res.tool_call_id is None,
    {
        ChatMessage {
            role: String::new(),
            content: String::new(),
            content_parts: Vec::new(),
            tool_calls: Vec::new(),
            reasoning_content: None,
            tool_name: None,
            tool_call_id: None,
        }
    }
}

} // verus!
