//! Properties that relate the conversions of this library to each other.

use vstd::prelude::*;
use vstd::utf8::*;
use vstd::string::StringSliceAdditionalSpecFns;

use crate::codes::{
    format_code, format_codes_distinct, format_from_code_spec, format_index,
    reasoning_format_code, tool_choice_code, ChatCodes, ChatFormat, ChatToolChoice,
    ReasoningFormat,
};
use crate::diff::{diff_from_raw, RawDiffView};
use crate::syntax::{default_syntax, syntax_to_raw, ChatSyntax};
use crate::template::{
    messages_string_lists, tool_strings, tools_string_lists, decoded_list, inputs_strings, inputs_to_raw, overrides_strings, source_variant_spec, params_from_raw, tool_to_raw, InputsView, RawParamsView,
    ToolView,
};
use crate::message::{
    calls_from_raw, calls_to_raw_spec, message_strings, parts_strings, tool_calls_strings, message_from_raw, message_to_raw, part_from_raw,
    part_to_raw, parts_from_raw, parts_to_raw_spec, tool_call_from_raw, tool_call_to_raw,
    MessageView, RawContentPartView, RawMessageView, RawToolCallView, ContentPartView,
    ToolCallView,
};
use crate::text::{
    lemma_first_nul_append, lemma_first_nul_single, opt_seq, opt_str_bytes, first_nul, nul_index, opt_utf8, text_or, text_or_empty, text_or_none, utf8_text,
};

verus! {

/// Text written to the C side as UTF-8 reads back unchanged.
pub proof fn lemma_text_round_trip(s: Seq<char>)
    ensures
        utf8_text(encode_utf8(s)) == Some(s),
        text_or_empty(Some(encode_utf8(s))) == s,
{
    encode_utf8_valid_utf8(s);
    encode_utf8_decode_utf8(s);
}

/// Optional text written to the C side reads back unchanged.
pub proof fn lemma_optional_text_round_trip(o: Option<Seq<char>>)
    ensures
        text_or_none(opt_utf8(o)) == o,
{
    if let Some(s) = o {
        lemma_text_round_trip(s);
    }
}

/// A message written to the C side and read back is the same message.
pub proof fn lemma_message_round_trip(m: MessageView)
    ensures
        message_from_raw(message_to_raw(m)) == m,
{
    lemma_text_round_trip(m.role);
    lemma_text_round_trip(m.content);
    lemma_optional_text_round_trip(m.reasoning_content);
    lemma_optional_text_round_trip(m.tool_name);
    lemma_optional_text_round_trip(m.tool_call_id);
    assert forall|i: int| 0 <= i < m.content_parts.len() implies #[trigger] parts_from_raw(
        parts_to_raw_spec(m.content_parts),
    )[i] == m.content_parts[i] by {
        let p = m.content_parts[i];
        lemma_text_round_trip(p.content_type);
        lemma_text_round_trip(p.text);
        assert(part_from_raw(part_to_raw(p)) == p);
    }
    assert forall|i: int| 0 <= i < m.tool_calls.len() implies #[trigger] calls_from_raw(
        calls_to_raw_spec(m.tool_calls),
    )[i] == m.tool_calls[i] by {
        let c = m.tool_calls[i];
        lemma_text_round_trip(c.name);
        lemma_text_round_trip(c.arguments);
        lemma_text_round_trip(c.id);
        assert(tool_call_from_raw(tool_call_to_raw(c)) == c);
    }
    assert(parts_from_raw(parts_to_raw_spec(m.content_parts)) =~= m.content_parts);
    assert(calls_from_raw(calls_to_raw_spec(m.tool_calls)) =~= m.tool_calls);
}

/// A C code stands for at most one chat format.
pub proof fn lemma_format_from_code_unique(codes: ChatCodes, code: u32, f: ChatFormat, g: ChatFormat)
    requires
        format_from_code_spec(codes, code, f),
        format_from_code_spec(codes, code, g),
    ensures
        f == g,
{
    if exists|i: int| 0 <= i < 11 && codes.format@[i] == code {
        if format_index(f) < format_index(g) {
            assert(codes.format@[format_index(f)] == code);
        } else if format_index(g) < format_index(f) {
            assert(codes.format@[format_index(g)] == code);
        }
    }
}

/// When no two formats share a code, reading back the code of a format
/// gives that format.
pub proof fn lemma_format_code_round_trip(codes: ChatCodes, f: ChatFormat, g: ChatFormat)
    requires
        format_codes_distinct(codes),
        format_from_code_spec(codes, format_code(codes, f), g),
    ensures
        g == f,
{
    assert(codes.format@[format_index(f)] == format_code(codes, f));
    if format_index(g) != format_index(f) {
        assert(codes.format@[format_index(g)] != codes.format@[format_index(f)]);
    }
}

/// Strings become C strings without error exactly when none of them holds
/// a NUL byte.
pub proof fn lemma_first_nul_none(strings: Seq<Seq<u8>>)
    ensures
        first_nul(strings) is None <==> forall|i: int|
            0 <= i < strings.len() ==> #[trigger] nul_index(strings[i]) is None,
    decreases strings.len(),
{
    if strings.len() > 0 {
        let rest = strings.drop_first();
        lemma_first_nul_none(rest);
        if first_nul(strings) is None {
            assert forall|i: int| 0 <= i < strings.len() implies #[trigger] nul_index(
                strings[i],
            ) is None by {
                if i > 0 {
                    assert(strings[i] == rest[i - 1]);
                }
            }
        }
        if forall|i: int| 0 <= i < strings.len() ==> #[trigger] nul_index(strings[i]) is None {
            assert(nul_index(strings[0]) is None);
            assert forall|i: int| 0 <= i < rest.len() implies #[trigger] nul_index(rest[i])
                is None by {
                assert(rest[i] == strings[i + 1]);
            }
        }
    }
}

/// A byte string has a NUL position exactly when it holds a NUL byte.
pub proof fn lemma_nul_index_none(b: Seq<u8>)
    ensures
        nul_index(b) is None <==> !b.contains(0u8),
    decreases b.len(),
{
    if b.len() > 0 {
        lemma_nul_index_none(b.drop_first());
        if b[0] != 0 && b.drop_first().contains(0u8) {
            let k = choose|k: int| 0 <= k < b.drop_first().len() && b.drop_first()[k] == 0u8;
            assert(b[k + 1] == 0u8);
        }
        if b.contains(0u8) && b[0] != 0 {
            let k = choose|k: int| 0 <= k < b.len() && b[k] == 0u8;
            assert(b.drop_first()[k - 1] == 0u8);
        }
    }
}

/// C text that is missing reads as nothing, and C text that is not UTF-8
/// reads as the fall-back.
pub proof fn lemma_text_fallbacks(b: Seq<u8>, fallback: Seq<char>)
    ensures
        text_or_none(None) is None,
        text_or_empty(None) == Seq::<char>::empty(),
        text_or(None, fallback) == fallback,
        !valid_utf8(b) ==> text_or(Some(b), fallback) == fallback,
        !valid_utf8(b) ==> text_or_none(Some(b)) is None,
        valid_utf8(b) ==> text_or_none(Some(b)) == Some(decode_utf8(b)),
{
}

/// A message difference read back from C carries the reasoning and content
/// deltas that C sent, as text; none when C sent none or not UTF-8.
pub proof fn lemma_diff_deltas(r: RawDiffView)
    ensures
        diff_from_raw(r).content_delta == text_or_none(r.content_delta),
        diff_from_raw(r).reasoning_content_delta == text_or_none(r.reasoning_content_delta),
        r.content_delta is None ==> diff_from_raw(r).content_delta is None,
        r.reasoning_content_delta is None ==> diff_from_raw(r).reasoning_content_delta is None,
{
}

/// A content delta that C sends as the UTF-8 of some text reads back as
/// that text.
pub proof fn lemma_diff_content_delta_text(r: RawDiffView, s: Seq<char>)
    requires
        r.content_delta == Some(encode_utf8(s)),
    ensures
        diff_from_raw(r).content_delta == Some(s),
{
    lemma_text_round_trip(s);
}

/// A reasoning delta that C sends as the UTF-8 of some text reads back as
/// that text.
pub proof fn lemma_diff_reasoning_delta_text(r: RawDiffView, s: Seq<char>)
    requires
        r.reasoning_content_delta == Some(encode_utf8(s)),
    ensures
        diff_from_raw(r).reasoning_content_delta == Some(s),
{
    lemma_text_round_trip(s);
}

/// A tool-call index read back from C is none exactly for `usize::MAX`, and
/// is the same number otherwise.
pub proof fn lemma_diff_tool_call_index(r: RawDiffView)
    ensures
        r.tool_call_index == usize::MAX ==> diff_from_raw(r).tool_call_index is None,
        r.tool_call_index != usize::MAX ==> diff_from_raw(r).tool_call_index == Some(
            r.tool_call_index,
        ),
{
}

/// A tool-call delta read back from C is present exactly when C names a tool,
/// and carries the name, arguments and id that C sent.
pub proof fn lemma_diff_tool_call_delta(r: RawDiffView, name: Seq<char>, arguments: Seq<char>, id: Seq<char>)
    ensures
        diff_from_raw(r).tool_call_delta is None <==> r.tool_call_delta.name is None,
        r.tool_call_delta == (RawToolCallView {
            name: Some(encode_utf8(name)),
            arguments: Some(encode_utf8(arguments)),
            id: Some(encode_utf8(id)),
        }) ==> diff_from_raw(r).tool_call_delta == Some(
            ToolCallView { name, arguments, id },
        ),
{
    lemma_text_round_trip(name);
    lemma_text_round_trip(arguments);
    lemma_text_round_trip(id);
}

/// The syntax options handed to the C parser keep every flag of the Rust
/// options, and the codes of their format and reasoning format.
pub proof fn lemma_syntax_to_raw_fields(s: ChatSyntax, codes: ChatCodes)
    ensures
        syntax_to_raw(s, codes).parse_tool_calls == s.parse_tool_calls,
        syntax_to_raw(s, codes).reasoning_in_content == s.reasoning_in_content,
        syntax_to_raw(s, codes).thinking_forced_open == s.thinking_forced_open,
        syntax_to_raw(s, codes).format == format_code(codes, s.format),
        syntax_to_raw(s, codes).reasoning_format == reasoning_format_code(
            codes,
            s.reasoning_format,
        ),
{
}

/// The default syntax parses tool calls, reads plain content, and extracts
/// no reasoning.
pub proof fn lemma_default_syntax()
    ensures
        default_syntax().parse_tool_calls,
        !default_syntax().reasoning_in_content,
        !default_syntax().thinking_forced_open,
        default_syntax().format == ChatFormat::ContentOnly,
        default_syntax().reasoning_format == ReasoningFormat::NoReasoning,
{
}

/// The template inputs handed to C keep every flag of the Rust inputs, the
/// codes of the tool choice and reasoning format, one C message per message
/// and one C tool per tool.
pub proof fn lemma_inputs_to_raw_fields(i: InputsView, codes: ChatCodes)
    ensures
        inputs_to_raw(i, codes).enable_thinking == i.enable_thinking,
        inputs_to_raw(i, codes).add_generation_prompt == i.add_generation_prompt,
        inputs_to_raw(i, codes).use_jinja == i.use_jinja,
        inputs_to_raw(i, codes).parallel_tool_calls == i.parallel_tool_calls,
        inputs_to_raw(i, codes).tool_choice == tool_choice_code(codes, i.tool_choice),
        inputs_to_raw(i, codes).reasoning_format == reasoning_format_code(
            codes,
            i.reasoning_format,
        ),
        inputs_to_raw(i, codes).grammar == opt_utf8(i.grammar),
        inputs_to_raw(i, codes).json_schema == opt_utf8(i.json_schema),
        inputs_to_raw(i, codes).messages.len() == i.messages.len(),
        inputs_to_raw(i, codes).tools.len() == i.tools.len(),
        forall|k: int|
            0 <= k < i.messages.len() ==> #[trigger] inputs_to_raw(i, codes).messages[k]
                == message_to_raw(i.messages[k]),
        forall|k: int|
            0 <= k < i.tools.len() ==> #[trigger] inputs_to_raw(i, codes).tools[k] == tool_to_raw(
                i.tools[k],
            ),
{
}

/// A tool handed to C is the UTF-8 of its name, description and parameters.
pub proof fn lemma_tool_to_raw_fields(t: ToolView)
    ensures
        tool_to_raw(t).name == encode_utf8(t.name),
        tool_to_raw(t).description == encode_utf8(t.description),
        tool_to_raw(t).parameters == encode_utf8(t.parameters),
{
}

/// A template result read back from C keeps the lazy-grammar flag that C
/// sent, and its prompt and grammar are the text C sent.
pub proof fn lemma_params_from_raw_fields(r: RawParamsView, f: ChatFormat, prompt: Seq<char>, grammar: Seq<char>)
    ensures
        params_from_raw(r, f).grammar_lazy == r.grammar_lazy,
        params_from_raw(r, f).format == f,
        params_from_raw(r, f).prompt == text_or_empty(r.prompt),
        params_from_raw(r, f).grammar == text_or_none(r.grammar),
        r.prompt == Some(encode_utf8(prompt)) ==> params_from_raw(r, f).prompt == prompt,
        r.grammar == Some(encode_utf8(grammar)) ==> params_from_raw(r, f).grammar == Some(
            grammar,
        ),
        r.grammar is None ==> params_from_raw(r, f).grammar is None,
        params_from_raw(r, f).preserved_tokens == decoded_list(r.preserved_tokens),
        params_from_raw(r, f).additional_stops == decoded_list(r.additional_stops),
{
    lemma_text_round_trip(prompt);
    lemma_text_round_trip(grammar);
}

/// Reading a list of C strings: a null entry adds nothing, and an entry that
/// is the UTF-8 of some text adds that text at the end.
pub proof fn lemma_decoded_list_push(raw: Seq<Option<Seq<u8>>>, t: Seq<char>)
    ensures
        decoded_list(raw.push(None)) == decoded_list(raw),
        decoded_list(raw.push(Some(encode_utf8(t)))) == decoded_list(raw).push(t),
{
    lemma_text_round_trip(t);
    assert(raw.push(None).drop_last() =~= raw);
    assert(raw.push(Some(encode_utf8(t))).drop_last() =~= raw);
}

/// A list of texts written to C as UTF-8 reads back unchanged.
pub proof fn lemma_decoded_list_round_trip(ts: Seq<Seq<char>>)
    ensures
        decoded_list(ts.map_values(|t: Seq<char>| Some(encode_utf8(t)))) == ts,
    decreases ts.len(),
{
    if ts.len() > 0 {
        let raw = ts.map_values(|t: Seq<char>| Some(encode_utf8(t)));
        lemma_decoded_list_round_trip(ts.drop_last());
        assert(raw.drop_last() =~= ts.drop_last().map_values(
            |t: Seq<char>| Some(encode_utf8(t)),
        ));
        lemma_decoded_list_push(raw.drop_last(), ts.last());
        assert(raw =~= raw.drop_last().push(Some(encode_utf8(ts.last()))));
        assert(ts.drop_last().push(ts.last()) =~= ts);
    }
}

/// A message handed to C is the UTF-8 of each of its fields, each content
/// part and tool call in turn the UTF-8 of theirs.
pub proof fn lemma_message_to_raw_fields(m: MessageView)
    ensures
        message_to_raw(m).role == Some(encode_utf8(m.role)),
        message_to_raw(m).content == Some(encode_utf8(m.content)),
        message_to_raw(m).reasoning_content == opt_utf8(m.reasoning_content),
        message_to_raw(m).tool_name == opt_utf8(m.tool_name),
        message_to_raw(m).tool_call_id == opt_utf8(m.tool_call_id),
        message_to_raw(m).content_parts.len() == m.content_parts.len(),
        message_to_raw(m).tool_calls.len() == m.tool_calls.len(),
        forall|k: int|
            0 <= k < m.content_parts.len() ==> #[trigger] message_to_raw(m).content_parts[k]
                == (RawContentPartView {
                content_type: Some(encode_utf8(m.content_parts[k].content_type)),
                text: Some(encode_utf8(m.content_parts[k].text)),
            }),
        forall|k: int|
            0 <= k < m.tool_calls.len() ==> #[trigger] message_to_raw(m).tool_calls[k]
                == (RawToolCallView {
                name: Some(encode_utf8(m.tool_calls[k].name)),
                arguments: Some(encode_utf8(m.tool_calls[k].arguments)),
                id: Some(encode_utf8(m.tool_calls[k].id)),
            }),
{
}

/// A message read back from C takes each field from the C field of the same
/// name: missing or non-UTF-8 text is empty, or none for optional fields.
pub proof fn lemma_message_from_raw_fields(r: RawMessageView)
    ensures
        message_from_raw(r).role == text_or_empty(r.role),
        message_from_raw(r).content == text_or_empty(r.content),
        message_from_raw(r).reasoning_content == text_or_none(r.reasoning_content),
        message_from_raw(r).tool_name == text_or_none(r.tool_name),
        message_from_raw(r).tool_call_id == text_or_none(r.tool_call_id),
        message_from_raw(r).content_parts.len() == r.content_parts.len(),
        message_from_raw(r).tool_calls.len() == r.tool_calls.len(),
        forall|k: int|
            0 <= k < r.content_parts.len() ==> #[trigger] message_from_raw(r).content_parts[k]
                == (ContentPartView {
                content_type: text_or_empty(r.content_parts[k].content_type),
                text: text_or_empty(r.content_parts[k].text),
            }),
        forall|k: int|
            0 <= k < r.tool_calls.len() ==> #[trigger] message_from_raw(r).tool_calls[k]
                == (ToolCallView {
                name: text_or_empty(r.tool_calls[k].name),
                arguments: text_or_empty(r.tool_calls[k].arguments),
                id: text_or_empty(r.tool_calls[k].id),
            }),
{
}

/// Each variant's code is its entry in the table, in declaration order.
pub proof fn lemma_code_table_layout(codes: ChatCodes)
    ensures
        tool_choice_code(codes, ChatToolChoice::Auto) == codes.tool_choice@[0],
        tool_choice_code(codes, ChatToolChoice::Required) == codes.tool_choice@[1],
        tool_choice_code(codes, ChatToolChoice::NoTools) == codes.tool_choice@[2],
        reasoning_format_code(codes, ReasoningFormat::NoReasoning) == codes.reasoning_format@[0],
        reasoning_format_code(codes, ReasoningFormat::DeepSeek) == codes.reasoning_format@[1],
        reasoning_format_code(codes, ReasoningFormat::DeepSeekLegacy)
            == codes.reasoning_format@[2],
        format_code(codes, ChatFormat::ContentOnly) == codes.format@[0],
        format_code(codes, ChatFormat::Generic) == codes.format@[1],
        format_code(codes, ChatFormat::MistralNemo) == codes.format@[2],
        format_code(codes, ChatFormat::Llama3X) == codes.format@[3],
        format_code(codes, ChatFormat::Llama3XWithBuiltinTools) == codes.format@[4],
        format_code(codes, ChatFormat::DeepSeekR1) == codes.format@[5],
        format_code(codes, ChatFormat::FirefunctionV2) == codes.format@[6],
        format_code(codes, ChatFormat::FunctionaryV32) == codes.format@[7],
        format_code(codes, ChatFormat::FunctionaryV31Llama31) == codes.format@[8],
        format_code(codes, ChatFormat::Hermes2Pro) == codes.format@[9],
        format_code(codes, ChatFormat::CommandR7B) == codes.format@[10],
{
}

/// A code that no format has reads back as `ContentOnly`, and a code that a
/// format has reads back as a format with that code.
pub proof fn lemma_format_from_code_meaning(codes: ChatCodes, code: u32, f: ChatFormat)
    requires
        format_from_code_spec(codes, code, f),
    ensures
        (forall|g: ChatFormat| format_code(codes, g) != code) ==> f == ChatFormat::ContentOnly,
        (exists|g: ChatFormat| format_code(codes, g) == code) ==> format_code(codes, f) == code,
{
    if exists|g: ChatFormat| format_code(codes, g) == code {
        let g = choose|g: ChatFormat| format_code(codes, g) == code;
        assert(codes.format@[format_index(g)] == code);
    } else {
        if exists|i: int| 0 <= i < 11 && codes.format@[i] == code {
            let i = choose|i: int| 0 <= i < 11 && codes.format@[i] == code;
            let h = if i == 0 { ChatFormat::ContentOnly } else if i == 1 { ChatFormat::Generic
            } else if i == 2 { ChatFormat::MistralNemo } else if i == 3 { ChatFormat::Llama3X
            } else if i == 4 { ChatFormat::Llama3XWithBuiltinTools } else if i == 5 {
                ChatFormat::DeepSeekR1 } else if i == 6 { ChatFormat::FirefunctionV2
            } else if i == 7 { ChatFormat::FunctionaryV32 } else if i == 8 {
                ChatFormat::FunctionaryV31Llama31 } else if i == 9 { ChatFormat::Hermes2Pro
            } else { ChatFormat::CommandR7B };
            assert(format_code(codes, h) == code);
        }
    }
}

/// The template variant handed to C is the variant's bytes when it holds no
/// NUL byte; a variant with a NUL byte, or no variant, hands over none.
pub proof fn lemma_source_variant(v: &str)
    ensures
        !v.spec_bytes().contains(0u8) ==> source_variant_spec(Some(v)) == Some(v.spec_bytes()),
        v.spec_bytes().contains(0u8) ==> source_variant_spec(Some(v)) is None,
        source_variant_spec(None) is None,
{
    lemma_nul_index_none(v.spec_bytes());
}

/// Scanning `a + b` when `a` holds a NUL stops in `a`.
proof fn lemma_stops_in_prefix(a: Seq<Seq<u8>>, b: Seq<Seq<u8>>)
    requires
        first_nul(a) is Some,
    ensures
        first_nul(a + b) == first_nul(a),
{
    lemma_first_nul_append(a, b);
}

/// Scanning `a + b` when `a` holds no NUL goes on to `b`.
proof fn lemma_passes_prefix(a: Seq<Seq<u8>>, b: Seq<Seq<u8>>)
    requires
        first_nul(a) is None,
    ensures
        first_nul(a + b) == first_nul(b),
{
    lemma_first_nul_append(a, b);
}

/// The overrides stop at the template first, then the BOS token, then the
/// EOS token.
pub proof fn lemma_overrides_error_order(t: &str, b: &str, e: &str, p: nat)
    ensures
        nul_index(t.spec_bytes()) == Some(p) ==> first_nul(
            overrides_strings(Some(t), Some(b), Some(e)),
        ) == Some(p),
        nul_index(t.spec_bytes()) is None && nul_index(b.spec_bytes()) == Some(p) ==> first_nul(
            overrides_strings(Some(t), Some(b), Some(e)),
        ) == Some(p),
        nul_index(t.spec_bytes()) is None && nul_index(b.spec_bytes()) is None && nul_index(
            e.spec_bytes(),
        ) == Some(p) ==> first_nul(overrides_strings(Some(t), Some(b), Some(e))) == Some(p),
{
    let a1 = opt_seq(opt_str_bytes(Some(t)));
    let a2 = opt_seq(opt_str_bytes(Some(b)));
    let a3 = opt_seq(opt_str_bytes(Some(e)));
    lemma_first_nul_single(t.spec_bytes());
    lemma_first_nul_single(b.spec_bytes());
    lemma_first_nul_single(e.spec_bytes());
    lemma_first_nul_append(a1, a2);
    lemma_first_nul_append(a1 + a2, a3);
}

/// A message stops at its role first, then its content, then its reasoning,
/// tool name and tool call id, then its content parts, then its tool calls.
pub proof fn lemma_message_error_order(m: MessageView, r: Seq<char>, p: nat)
    ensures
        nul_index(encode_utf8(m.role)) == Some(p) ==> first_nul(message_strings(m)) == Some(p),
        nul_index(encode_utf8(m.role)) is None && nul_index(encode_utf8(m.content)) == Some(p)
            ==> first_nul(message_strings(m)) == Some(p),
        nul_index(encode_utf8(m.role)) is None && nul_index(encode_utf8(m.content)) is None
            && m.reasoning_content == Some(r) && nul_index(encode_utf8(r)) == Some(p)
            ==> first_nul(message_strings(m)) == Some(p),
        nul_index(encode_utf8(m.role)) is None && nul_index(encode_utf8(m.content)) is None
            && first_nul(opt_seq(opt_utf8(m.reasoning_content))) is None
            && first_nul(opt_seq(opt_utf8(m.tool_name))) is None
            && first_nul(opt_seq(opt_utf8(m.tool_call_id))) is None
            && first_nul(parts_strings(m.content_parts)) is None
            ==> first_nul(message_strings(m)) == first_nul(tool_calls_strings(m.tool_calls)),
{
    let a1 = seq![encode_utf8(m.role)];
    let a2 = seq![encode_utf8(m.content)];
    let a3 = opt_seq(opt_utf8(m.reasoning_content));
    let a4 = opt_seq(opt_utf8(m.tool_name));
    let a5 = opt_seq(opt_utf8(m.tool_call_id));
    let a6 = parts_strings(m.content_parts);
    let a7 = tool_calls_strings(m.tool_calls);
    lemma_first_nul_single(encode_utf8(m.role));
    lemma_first_nul_single(encode_utf8(m.content));
    lemma_first_nul_single(encode_utf8(r));
    lemma_first_nul_append(a1, a2);
    lemma_first_nul_append(a1 + a2, a3);
    lemma_first_nul_append(a1 + a2 + a3, a4);
    lemma_first_nul_append(a1 + a2 + a3 + a4, a5);
    lemma_first_nul_append(a1 + a2 + a3 + a4 + a5, a6);
    lemma_first_nul_append(a1 + a2 + a3 + a4 + a5 + a6, a7);
}

/// Template inputs stop in their messages first, then their tools, then the
/// grammar, then the JSON schema.
pub proof fn lemma_inputs_error_order(i: InputsView, g: Seq<char>, j: Seq<char>, p: nat)
    ensures
        i.messages.len() > 0 && nul_index(encode_utf8(i.messages[0].role)) == Some(p)
            ==> first_nul(inputs_strings(i)) == Some(p),
        i.grammar == Some(g) && i.json_schema == Some(j) && nul_index(encode_utf8(g)) == Some(p)
            && (forall|k: int| 0 <= k < i.messages.len() ==> #[trigger] first_nul(message_strings(i.messages[k])) is None)
            && (forall|k: int| 0 <= k < i.tools.len() ==> #[trigger] nul_index(encode_utf8(i.tools[k].name)) is None
                && nul_index(encode_utf8(i.tools[k].description)) is None
                && nul_index(encode_utf8(i.tools[k].parameters)) is None)
            ==> first_nul(inputs_strings(i)) == Some(p),
{
    let ml = messages_string_lists(i.messages);
    let tl = tools_string_lists(i.tools);
    let a1 = ml.flatten();
    let a2 = tl.flatten();
    let a3 = opt_seq(opt_utf8(i.grammar));
    let a4 = opt_seq(opt_utf8(i.json_schema));
    lemma_first_nul_append(a1, a2);
    lemma_first_nul_append(a1 + a2, a3);
    lemma_first_nul_append(a1 + a2 + a3, a4);
    if i.messages.len() > 0 {
        lemma_message_error_order(i.messages[0], g, p);
        assert(ml.take(0) =~= Seq::<Seq<Seq<u8>>>::empty());
        crate::text::lemma_first_nul_flatten_at(ml, 0);
    }
    if i.grammar == Some(g) {
        lemma_first_nul_single(encode_utf8(g));
    }
    if forall|k: int| 0 <= k < i.messages.len() ==> #[trigger] first_nul(message_strings(i.messages[k])) is None {
        lemma_flatten_all_clean(ml);
    }
    if forall|k: int| 0 <= k < i.tools.len() ==> #[trigger] nul_index(encode_utf8(i.tools[k].name)) is None
        && nul_index(encode_utf8(i.tools[k].description)) is None
        && nul_index(encode_utf8(i.tools[k].parameters)) is None {
        assert forall|k: int| 0 <= k < tl.len() implies #[trigger] first_nul(tl[k]) is None by {
            let t = i.tools[k];
            let ss = tool_strings(t);
            lemma_first_nul_none(ss);
            assert(forall|x: int| 0 <= x < 3 ==> #[trigger] nul_index(ss[x]) is None);
        }
        lemma_flatten_all_clean(tl);
    }
}

/// A list of lists none of which holds a NUL flattens to a list without one.
proof fn lemma_flatten_all_clean(lists: Seq<Seq<Seq<u8>>>)
    requires
        forall|k: int| 0 <= k < lists.len() ==> #[trigger] first_nul(lists[k]) is None,
    ensures
        first_nul(lists.flatten()) is None,
    decreases lists.len(),
{
    if lists.len() > 0 {
        lemma_flatten_all_clean(lists.drop_first());
        assert(lists.flatten() == lists[0] + lists.drop_first().flatten());
        lemma_first_nul_append(lists[0], lists.drop_first().flatten());
    }
}

} // verus!
