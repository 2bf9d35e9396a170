//! Chat-template inputs and results, and their byte-level form at the C
//! boundary.

use vstd::prelude::*;
use vstd::utf8::*;
use vstd::string::StringSliceAdditionalSpecFns;

use crate::codes::{
    format_from_code_spec, reasoning_format_code, reasoning_format_index, tool_choice_code,
    tool_choice_index, ChatCodes, ChatFormat,
    ChatToolChoice, ReasoningFormat,
};
use crate::error::ChatError;
use crate::message::{
    message_strings, message_to_raw, ChatMessage, MessageView, RawChatMessage, RawMessageView,
};
use crate::text::{
    c_bytes, c_bytes_opt, c_bytes_opt_str, c_text_or_empty, c_text_or_none, first_nul,
    lemma_first_nul_append, lemma_first_nul_flatten_at, lemma_flatten_take_step, nul_index,
    nul_outcome, opt_bytes, opt_chars, opt_seq, opt_str_bytes, opt_utf8, text_or_empty,
    text_or_none,
};

verus! {

/// A tool that can be called by the model.
#[derive(Debug, Clone)]
pub struct ChatTool {
    pub name: String,
    pub description: String,
    pub parameters: String,
}

/// Input for chat template application.
#[derive(Debug, Clone)]
pub struct ChatTemplateInputs {
    pub messages: Vec<ChatMessage>,
    pub grammar: Option<String>,
    pub json_schema: Option<String>,
    pub add_generation_prompt: bool,
    pub use_jinja: bool,
    pub tools: Vec<ChatTool>,
    pub tool_choice: ChatToolChoice,
    pub parallel_tool_calls: bool,
    pub reasoning_format: ReasoningFormat,
    pub enable_thinking: bool,
}

/// A tool as the C side takes it.
#[derive(Debug, Clone)]
pub struct RawChatTool {
    pub name: Vec<u8>,
    pub description: Vec<u8>,
    pub parameters: Vec<u8>,
}

/// Template inputs as the C side takes them; `None` is a null pointer.
#[derive(Debug, Clone)]
pub struct RawTemplateInputs {
    pub messages: Vec<RawChatMessage>,
    pub grammar: Option<Vec<u8>>,
    pub json_schema: Option<Vec<u8>>,
    pub add_generation_prompt: bool,
    pub use_jinja: bool,
    pub tools: Vec<RawChatTool>,
    pub tool_choice: u32,
    pub parallel_tool_calls: bool,
    pub reasoning_format: u32,
    pub enable_thinking: bool,
}

/// The text of a tool.
pub struct ToolView {
    pub name: Seq<char>,
    pub description: Seq<char>,
    pub parameters: Seq<char>,
}

/// The bytes of a raw tool.
pub struct RawToolView {
    pub name: Seq<u8>,
    pub description: Seq<u8>,
    pub parameters: Seq<u8>,
}

/// The content of template inputs.
pub struct InputsView {
    pub messages: Seq<MessageView>,
    pub grammar: Option<Seq<char>>,
    pub json_schema: Option<Seq<char>>,
    pub add_generation_prompt: bool,
    pub use_jinja: bool,
    pub tools: Seq<ToolView>,
    pub tool_choice: ChatToolChoice,
    pub parallel_tool_calls: bool,
    pub reasoning_format: ReasoningFormat,
    pub enable_thinking: bool,
}

/// The content of raw template inputs.
pub struct RawInputsView {
    pub messages: Seq<RawMessageView>,
    pub grammar: Option<Seq<u8>>,
    pub json_schema: Option<Seq<u8>>,
    pub add_generation_prompt: bool,
    pub use_jinja: bool,
    pub tools: Seq<RawToolView>,
    pub tool_choice: u32,
    pub parallel_tool_calls: bool,
    pub reasoning_format: u32,
    pub enable_thinking: bool,
}

impl View for ChatTool {
    type V = ToolView;

    open spec fn view(&self) -> ToolView {
        ToolView {
            name: self.name@,
            description: self.description@,
            parameters: self.parameters@,
        }
    }
}

impl View for RawChatTool {
    type V = RawToolView;

    open spec fn view(&self) -> RawToolView {
        RawToolView {
            name: self.name@,
            description: self.description@,
            parameters: self.parameters@,
        }
    }
}

/// The views of a list of messages.
pub open spec fn messages_view(ms: Seq<ChatMessage>) -> Seq<MessageView> {
    ms.map_values(|m: ChatMessage| m@)
}

/// The views of a list of raw messages.
pub open spec fn raw_messages_view(ms: Seq<RawChatMessage>) -> Seq<RawMessageView> {
    ms.map_values(|m: RawChatMessage| m@)
}

/// The views of a list of tools.
pub open spec fn tools_view(ts: Seq<ChatTool>) -> Seq<ToolView> {
    ts.map_values(|t: ChatTool| t@)
}

/// The views of a list of raw tools.
pub open spec fn raw_tools_view(ts: Seq<RawChatTool>) -> Seq<RawToolView> {
    ts.map_values(|t: RawChatTool| t@)
}

impl View for ChatTemplateInputs {
    type V = InputsView;

    open spec fn view(&self) -> InputsView {
        InputsView {
            messages: messages_view(self.messages@),
            grammar: opt_chars(self.grammar),
            json_schema: opt_chars(self.json_schema),
            add_generation_prompt: self.add_generation_prompt,
            use_jinja: self.use_jinja,
            tools: tools_view(self.tools@),
            tool_choice: self.tool_choice,
            parallel_tool_calls: self.parallel_tool_calls,
            reasoning_format: self.reasoning_format,
            enable_thinking: self.enable_thinking,
        }
    }
}

impl View for RawTemplateInputs {
    type V = RawInputsView;

    open spec fn view(&self) -> RawInputsView {
        RawInputsView {
            messages: raw_messages_view(self.messages@),
            grammar: opt_bytes(self.grammar),
            json_schema: opt_bytes(self.json_schema),
            add_generation_prompt: self.add_generation_prompt,
            use_jinja: self.use_jinja,
            tools: raw_tools_view(self.tools@),
            tool_choice: self.tool_choice,
            parallel_tool_calls: self.parallel_tool_calls,
            reasoning_format: self.reasoning_format,
            enable_thinking: self.enable_thinking,
        }
    }
}

/// A tool as C strings.
pub open spec fn tool_to_raw(t: ToolView) -> RawToolView {
    RawToolView {
        name: encode_utf8(t.name),
        description: encode_utf8(t.description),
        parameters: encode_utf8(t.parameters),
    }
}

/// Messages as C strings.
pub open spec fn messages_to_raw(ms: Seq<MessageView>) -> Seq<RawMessageView> {
    ms.map_values(|m: MessageView| message_to_raw(m))
}

/// Tools as C strings.
pub open spec fn tools_to_raw(ts: Seq<ToolView>) -> Seq<RawToolView> {
    ts.map_values(|t: ToolView| tool_to_raw(t))
}

/// Template inputs as the C side takes them.
pub open spec fn inputs_to_raw(i: InputsView, codes: ChatCodes) -> RawInputsView {
    RawInputsView {
        messages: messages_to_raw(i.messages),
        grammar: opt_utf8(i.grammar),
        json_schema: opt_utf8(i.json_schema),
        add_generation_prompt: i.add_generation_prompt,
        use_jinja: i.use_jinja,
        tools: tools_to_raw(i.tools),
        tool_choice: tool_choice_code(codes, i.tool_choice),
        parallel_tool_calls: i.parallel_tool_calls,
        reasoning_format: reasoning_format_code(codes, i.reasoning_format),
        enable_thinking: i.enable_thinking,
    }
}

/// The strings of a tool, in the order they become C strings.
pub open spec fn tool_strings(t: ToolView) -> Seq<Seq<u8>> {
    seq![encode_utf8(t.name), encode_utf8(t.description), encode_utf8(t.parameters)]
}

/// The strings of each message of a list.
pub open spec fn messages_string_lists(ms: Seq<MessageView>) -> Seq<Seq<Seq<u8>>> {
    ms.map_values(|m: MessageView| message_strings(m))
}

/// The strings of each tool of a list.
pub open spec fn tools_string_lists(ts: Seq<ToolView>) -> Seq<Seq<Seq<u8>>> {
    ts.map_values(|t: ToolView| tool_strings(t))
}

/// The strings of template inputs, in the order they become C strings: the
/// messages, the tools, the grammar, then the JSON schema.
pub open spec fn inputs_strings(i: InputsView) -> Seq<Seq<u8>> {
    messages_string_lists(i.messages).flatten()
        + tools_string_lists(i.tools).flatten()
        + opt_seq(opt_utf8(i.grammar))
        + opt_seq(opt_utf8(i.json_schema))
}

/// The default inputs: no messages, no grammar or schema, a generation
/// prompt, Jinja templates, no tools, automatic tool choice, no parallel
/// tool calls, no reasoning extraction, thinking enabled.
pub open spec fn default_inputs(i: InputsView) -> bool {
    &&& i.messages.len() == 0
    &&& i.grammar is None
    &&& i.json_schema is None
    &&& i.add_generation_prompt
    &&& i.use_jinja
    &&& i.tools.len() == 0
    &&& i.tool_choice == ChatToolChoice::Auto
    &&& !i.parallel_tool_calls
    &&& i.reasoning_format == ReasoningFormat::NoReasoning
    &&& i.enable_thinking
}

impl ChatTool {
    /// The C form of a tool; fails at the first NUL byte of its name,
    /// description or parameters, in that order.
    pub fn to_raw(&self) -> (res: Result<RawChatTool, ChatError>)
        ensures
            nul_outcome(res, first_nul(tool_strings(self@))),
            res matches Ok(r) ==> r@ == tool_to_raw(self@),
            res matches Ok(r) ==> {
                &&& r.name@ == encode_utf8(self.name@)
                &&& r.description@ == encode_utf8(self.description@)
                &&& r.parameters@ == encode_utf8(self.parameters@)
            },
    {
        let ghost strs = tool_strings(self@);
        proof {
            reveal_with_fuel(first_nul, 4);
            assert(strs.drop_first() =~= seq![strs[1], strs[2]]);
            assert(strs.drop_first().drop_first() =~= seq![strs[2]]);
            assert(strs.drop_first().drop_first().drop_first() =~= Seq::<Seq<u8>>::empty());
        }
        let name = match c_bytes(self.name.as_str()) {
            Ok(v) => v,
            Err(e) => return Err(e),
        };
        let description = match c_bytes(self.description.as_str()) {
            Ok(v) => v,
            Err(e) => return Err(e),
        };
        let parameters = match c_bytes(self.parameters.as_str()) {
            Ok(v) => v,
            Err(e) => return Err(e),
        };
        Ok(RawChatTool { name, description, parameters })
    }
}

/// The C form of a list of messages; fails at the first NUL byte.
fn messages_to_raw_exec(messages: &Vec<ChatMessage>) -> (res: Result<Vec<RawChatMessage>, ChatError>)
    ensures
        nul_outcome(res, first_nul(messages_string_lists(messages_view(messages@)).flatten())),
        res matches Ok(v) ==> raw_messages_view(v@) == messages_to_raw(messages_view(messages@)),
{
    let ghost views = messages_view(messages@);
    let ghost lists = messages_string_lists(views);
    let mut out: Vec<RawChatMessage> = Vec::new();
    let mut i: usize = 0;
    proof {
        assert(lists.take(0) =~= Seq::<Seq<Seq<u8>>>::empty());
    }
    while i < messages.len()
        invariant
            i <= messages.len(),
            views == messages_view(messages@),
            lists == messages_string_lists(views),
            first_nul(lists.take(i as int).flatten()) is None,
            raw_messages_view(out@) =~= messages_to_raw(views.take(i as int)),
        decreases messages.len() - i,
    {
        proof {
            lemma_first_nul_flatten_at(lists, i as int);
            lemma_flatten_take_step(lists, i as int);
            lemma_first_nul_append(lists.take(i as int).flatten(), lists[i as int]);
            assert(views[i as int] == messages@[i as int]@);
        }
        match messages[i].to_raw() {
            Ok(r) => {
                let ghost before = out@;
                assert(raw_messages_view(before).len() == i);
                assert(before.len() == i);
                out.push(r);
                proof {
                    assert(out@ =~= before.push(r));
                    assert(raw_messages_view(out@)[i as int] == message_to_raw(views[i as int]));
                    assert forall|k: int| 0 <= k < i implies #[trigger] raw_messages_view(out@)[k]
                        == raw_messages_view(before)[k] by {
                        assert(out@[k] == before[k]);
                    }
                    assert(raw_messages_view(out@) =~= messages_to_raw(views.take(i + 1)));
                }
            },
            Err(e) => {
                return Err(e);
            },
        }
        i = i + 1;
    }
    proof {
        assert(lists.take(i as int) =~= lists);
        assert(views.take(i as int) =~= views);
    }
    Ok(out)
}

/// The C form of a list of tools; fails at the first NUL byte.
fn tools_to_raw_exec(tools: &Vec<ChatTool>) -> (res: Result<Vec<RawChatTool>, ChatError>)
    ensures
        nul_outcome(res, first_nul(tools_string_lists(tools_view(tools@)).flatten())),
        res matches Ok(v) ==> raw_tools_view(v@) == tools_to_raw(tools_view(tools@)),
{
    let ghost views = tools_view(tools@);
    let ghost lists = tools_string_lists(views);
    let mut out: Vec<RawChatTool> = Vec::new();
    let mut i: usize = 0;
    proof {
        assert(lists.take(0) =~= Seq::<Seq<Seq<u8>>>::empty());
    }
    while i < tools.len()
        invariant
            i <= tools.len(),
            views == tools_view(tools@),
            lists == tools_string_lists(views),
            first_nul(lists.take(i as int).flatten()) is None,
            raw_tools_view(out@) =~= tools_to_raw(views.take(i as int)),
        decreases tools.len() - i,
    {
        proof {
            lemma_first_nul_flatten_at(lists, i as int);
            lemma_flatten_take_step(lists, i as int);
            lemma_first_nul_append(lists.take(i as int).flatten(), lists[i as int]);
            assert(views[i as int] == tools@[i as int]@);
        }
        match tools[i].to_raw() {
            Ok(r) => {
                let ghost before = out@;
                assert(raw_tools_view(before).len() == i);
                assert(before.len() == i);
                out.push(r);
                proof {
                    assert(out@ =~= before.push(r));
                    assert(raw_tools_view(out@)[i as int] == tool_to_raw(views[i as int]));
                    assert forall|k: int| 0 <= k < i implies #[trigger] raw_tools_view(out@)[k]
                        == raw_tools_view(before)[k] by {
                        assert(out@[k] == before[k]);
                    }
                    assert(raw_tools_view(out@) =~= tools_to_raw(views.take(i + 1)));
                }
            },
            Err(e) => {
                return Err(e);
            },
        }
        i = i + 1;
    }
    proof {
        assert(lists.take(i as int) =~= lists);
        assert(views.take(i as int) =~= views);
    }
    Ok(out)
}

impl ChatTemplateInputs {
    /// The C form of the inputs. Their strings become C strings in the order
    /// of `inputs_strings`; the first that holds a NUL byte is the error.
    pub fn to_raw(&self, codes: &ChatCodes) -> (res: Result<RawTemplateInputs, ChatError>)
        ensures
            nul_outcome(res, first_nul(inputs_strings(self@))),
            res matches Ok(r) ==> r@ == inputs_to_raw(self@, *codes),
            res matches Ok(r) ==> {
                &&& r.add_generation_prompt == self.add_generation_prompt
                &&& r.use_jinja == self.use_jinja
                &&& r.parallel_tool_calls == self.parallel_tool_calls
                &&& r.enable_thinking == self.enable_thinking
                &&& r.tool_choice == codes.tool_choice@[tool_choice_index(self.tool_choice)]
                &&& r.reasoning_format == codes.reasoning_format@[reasoning_format_index(
                    self.reasoning_format,
                )]
                &&& r.messages.len() == self.messages.len()
                &&& r.tools.len() == self.tools.len()
                &&& opt_bytes(r.grammar) == opt_utf8(opt_chars(self.grammar))
                &&& opt_bytes(r.json_schema) == opt_utf8(opt_chars(self.json_schema))
            },
    {
        let ghost i = self@;
        let ghost a1 = messages_string_lists(i.messages).flatten();
        let ghost a2 = tools_string_lists(i.tools).flatten();
        let ghost a3 = opt_seq(opt_utf8(i.grammar));
        let ghost a4 = opt_seq(opt_utf8(i.json_schema));
        proof {
            lemma_first_nul_append(a1, a2);
            lemma_first_nul_append(a1 + a2, a3);
            lemma_first_nul_append(a1 + a2 + a3, a4);
        }
        let messages = match messages_to_raw_exec(&self.messages) {
            Ok(v) => v,
            Err(e) => return Err(e),
        };
        let tools = match tools_to_raw_exec(&self.tools) {
            Ok(v) => v,
            Err(e) => return Err(e),
        };
        let grammar = match c_bytes_opt(&self.grammar) {
            Ok(v) => v,
            Err(e) => return Err(e),
        };
        let json_schema = match c_bytes_opt(&self.json_schema) {
            Ok(v) => v,
            Err(e) => return Err(e),
        };
        assert(raw_messages_view(messages@).len() == messages_view(self.messages@).len());
        assert(raw_tools_view(tools@).len() == tools_view(self.tools@).len());
        Ok(
            RawTemplateInputs {
                messages,
                grammar,
                json_schema,
                add_generation_prompt: self.add_generation_prompt,
                use_jinja: self.use_jinja,
                tools,
                tool_choice: self.tool_choice.code(codes),
                parallel_tool_calls: self.parallel_tool_calls,
                reasoning_format: self.reasoning_format.code(codes),
                enable_thinking: self.enable_thinking,
            },
        )
    }
}

impl Default for ChatTemplateInputs {
    /// No messages, no grammar or schema, a generation prompt, Jinja
    /// templates, no tools, automatic tool choice, no parallel tool calls,
    /// no reasoning extraction, thinking enabled.
    fn default() -> (res: Self)
        ensures
            default_inputs(res@),
            res.messages.len() == 0,
            res.grammar is None,
            res.json_schema is None,
            res.add_generation_prompt,
            res.use_jinja,
            res.tools.len() == 0,
            res.tool_choice == ChatToolChoice::Auto,
            !res.parallel_tool_calls,
            res.reasoning_format == ReasoningFormat::NoReasoning,
            res.enable_thinking,
    {
        ChatTemplateInputs {
            messages: Vec::new(),
            grammar: None,
            json_schema: None,
            add_generation_prompt: true,
            use_jinja: true,
            tools: Vec::new(),
            tool_choice: ChatToolChoice::Auto,
            parallel_tool_calls: false,
            reasoning_format: ReasoningFormat::NoReasoning,
            enable_thinking: true,
        }
    }
}

/// Result of applying a chat template.
#[derive(Debug, Clone)]
pub struct ChatParams {
    pub format: ChatFormat,
    pub prompt: String,
    pub grammar: Option<String>,
    pub grammar_lazy: bool,
    pub preserved_tokens: Vec<String>,
    pub additional_stops: Vec<String>,
}

/// The result of applying a chat template as the C side hands it back:
/// `None` is a null pointer, and a null array is an empty one.
#[derive(Debug, Clone)]
pub struct RawChatParams {
    pub format: u32,
    pub prompt: Option<Vec<u8>>,
    pub grammar: Option<Vec<u8>>,
    pub grammar_lazy: bool,
    pub preserved_tokens: Vec<Option<Vec<u8>>>,
    pub additional_stops: Vec<Option<Vec<u8>>>,
}

/// The content of a template result.
pub struct ParamsView {
    pub format: ChatFormat,
    pub prompt: Seq<char>,
    pub grammar: Option<Seq<char>>,
    pub grammar_lazy: bool,
    pub preserved_tokens: Seq<Seq<char>>,
    pub additional_stops: Seq<Seq<char>>,
}

/// The content of a raw template result.
pub struct RawParamsView {
    pub format: u32,
    pub prompt: Option<Seq<u8>>,
    pub grammar: Option<Seq<u8>>,
    pub grammar_lazy: bool,
    pub preserved_tokens: Seq<Option<Seq<u8>>>,
    pub additional_stops: Seq<Option<Seq<u8>>>,
}

/// The characters of a list of strings.
pub open spec fn strings_view(ss: Seq<String>) -> Seq<Seq<char>> {
    ss.map_values(|s: String| s@)
}

/// The bytes of a list of optional byte buffers.
pub open spec fn opt_bytes_list(bs: Seq<Option<Vec<u8>>>) -> Seq<Option<Seq<u8>>> {
    bs.map_values(|b: Option<Vec<u8>>| opt_bytes(b))
}

impl View for ChatParams {
    type V = ParamsView;

    open spec fn view(&self) -> ParamsView {
        ParamsView {
            format: self.format,
            prompt: self.prompt@,
            grammar: opt_chars(self.grammar),
            grammar_lazy: self.grammar_lazy,
            preserved_tokens: strings_view(self.preserved_tokens@),
            additional_stops: strings_view(self.additional_stops@),
        }
    }
}

impl View for RawChatParams {
    type V = RawParamsView;

    open spec fn view(&self) -> RawParamsView {
        RawParamsView {
            format: self.format,
            prompt: opt_bytes(self.prompt),
            grammar: opt_bytes(self.grammar),
            grammar_lazy: self.grammar_lazy,
            preserved_tokens: opt_bytes_list(self.preserved_tokens@),
            additional_stops: opt_bytes_list(self.additional_stops@),
        }
    }
}

/// A list of C strings read back as text: null entries and entries that are
/// not UTF-8 are left out; the others keep their order.
pub open spec fn decoded_list(raw: Seq<Option<Seq<u8>>>) -> Seq<Seq<char>>
    decreases raw.len(),
{
    if raw.len() == 0 {
        Seq::empty()
    } else {
        match text_or_none(raw.last()) {
            Some(t) => decoded_list(raw.drop_last()).push(t),
            None => decoded_list(raw.drop_last()),
        }
    }
}

/// A template result read back from C, with `format` the chat format that
/// its code stands for.
pub open spec fn params_from_raw(r: RawParamsView, format: ChatFormat) -> ParamsView {
    ParamsView {
        format,
        prompt: text_or_empty(r.prompt),
        grammar: text_or_none(r.grammar),
        grammar_lazy: r.grammar_lazy,
        preserved_tokens: decoded_list(r.preserved_tokens),
        additional_stops: decoded_list(r.additional_stops),
    }
}

/// Reads a list of C strings back as text, leaving out null entries and
/// entries that are not UTF-8.
pub fn decode_list(raw: &Vec<Option<Vec<u8>>>) -> (res: Vec<String>)
    ensures
        strings_view(res@) == decoded_list(opt_bytes_list(raw@)),
{
    let ghost bytes = opt_bytes_list(raw@);
    let mut out: Vec<String> = Vec::new();
    let mut i: usize = 0;
    while i < raw.len()
        invariant
            i <= raw.len(),
            bytes == opt_bytes_list(raw@),
            strings_view(out@) =~= decoded_list(bytes.take(i as int)),
        decreases raw.len() - i,
    {
        proof {
            assert(bytes.take(i + 1).drop_last() =~= bytes.take(i as int));
            assert(bytes.take(i + 1).last() == opt_bytes(raw@[i as int]));
        }
        let ghost before = out@;
        match c_text_or_none(&raw[i]) {
            Some(t) => {
                out.push(t);
                proof {
                    assert(out@ =~= before.push(t));
                    assert(strings_view(out@) =~= strings_view(before).push(t@));
                }
            },
            None => {},
        }
        i = i + 1;
    }
    proof {
        assert(bytes.take(i as int) =~= bytes);
    }
    out
}

impl ChatParams {
    /// Reads a template result back from its C form: the format is the one
    /// its code stands for, a missing or non-UTF-8 prompt is empty, a missing
    /// or non-UTF-8 grammar is `None`, and null or non-UTF-8 entries of the
    /// token and stop lists are left out.
    pub fn from_raw(raw: &RawChatParams, codes: &ChatCodes) -> (res: ChatParams)
        ensures
            format_from_code_spec(*codes, raw.format, res.format),
            res@ == params_from_raw(raw@, res.format),
            res.grammar_lazy == raw.grammar_lazy,
            res.prompt@ == text_or_empty(opt_bytes(raw.prompt)),
            opt_chars(res.grammar) == text_or_none(opt_bytes(raw.grammar)),
            strings_view(res.preserved_tokens@) == decoded_list(
                opt_bytes_list(raw.preserved_tokens@),
            ),
            strings_view(res.additional_stops@) == decoded_list(
                opt_bytes_list(raw.additional_stops@),
            ),
    {
        ChatParams {
            format: ChatFormat::from_code(raw.format, codes),
            prompt: c_text_or_empty(&raw.prompt),
            grammar: c_text_or_none(&raw.grammar),
            grammar_lazy: raw.grammar_lazy,
            preserved_tokens: decode_list(&raw.preserved_tokens),
            additional_stops: decode_list(&raw.additional_stops),
        }
    }
}

/// The optional overrides handed to the C side when chat templates are set
/// up for a model: the template text and the BOS and EOS tokens.
#[derive(Debug, Clone)]
pub struct TemplateOverrides {
    pub chat_template: Option<Vec<u8>>,
    pub bos_token: Option<Vec<u8>>,
    pub eos_token: Option<Vec<u8>>,
}

/// The strings of the overrides, in the order they become C strings.
pub open spec fn overrides_strings(
    chat_template: Option<&str>,
    bos_token: Option<&str>,
    eos_token: Option<&str>,
) -> Seq<Seq<u8>> {
    opt_seq(opt_str_bytes(chat_template)) + opt_seq(opt_str_bytes(bos_token)) + opt_seq(
        opt_str_bytes(eos_token),
    )
}

impl TemplateOverrides {
    /// The overrides as C strings; fails at the first NUL byte of the
    /// template, the BOS token or the EOS token, in that order.
    pub fn new(chat_template: Option<&str>, bos_token: Option<&str>, eos_token: Option<&str>) -> (res:
        Result<TemplateOverrides, ChatError>)
        ensures
            nul_outcome(res, first_nul(overrides_strings(chat_template, bos_token, eos_token))),
            res matches Ok(o) ==> {
                &&& opt_bytes(o.chat_template) == opt_str_bytes(chat_template)
                &&& opt_bytes(o.bos_token) == opt_str_bytes(bos_token)
                &&& opt_bytes(o.eos_token) == opt_str_bytes(eos_token)
            },
    {
        let ghost a1 = opt_seq(opt_str_bytes(chat_template));
        let ghost a2 = opt_seq(opt_str_bytes(bos_token));
        let ghost a3 = opt_seq(opt_str_bytes(eos_token));
        proof {
            lemma_first_nul_append(a1, a2);
            lemma_first_nul_append(a1 + a2, a3);
        }
        let chat_template = match c_bytes_opt_str(chat_template) {
            Ok(v) => v,
            Err(e) => return Err(e),
        };
        let bos_token = match c_bytes_opt_str(bos_token) {
            Ok(v) => v,
            Err(e) => return Err(e),
        };
        let eos_token = match c_bytes_opt_str(eos_token) {
            Ok(v) => v,
            Err(e) => return Err(e),
        };
        Ok(TemplateOverrides { chat_template, bos_token, eos_token })
    }
}

/// The template variant asked for, as the C side takes it: a variant that
/// holds a NUL byte is dropped, as if none had been named.
pub open spec fn source_variant_spec(variant: Option<&str>) -> Option<Seq<u8>> {
    match variant {
        Some(v) => if nul_index(v.spec_bytes()) is None {
            Some(v.spec_bytes())
        } else {
            None
        },
        None => None,
    }
}

/// The template variant asked for, as a C string; a variant that holds a
/// NUL byte becomes no variant.
pub fn source_variant(variant: Option<&str>) -> (res: Option<Vec<u8>>)
    ensures
        opt_bytes(res) == source_variant_spec(variant),
        variant is None ==> res is None,
        variant matches Some(v) ==> (res is Some <==> nul_index(v.spec_bytes()) is None),
        res matches Some(b) ==> variant matches Some(v) && b@ == v.spec_bytes(),
{
    match variant {
        Some(v) => match c_bytes(v) {
            Ok(b) => Some(b),
            Err(_) => None,
        },
        None => None,
    }
}

} // verus!
