use llama_chat::codes::{format_name_from_raw, ChatCodes, ChatFormat, ChatToolChoice, ReasoningFormat};
use llama_chat::diff::{ChatMessageDiff, ChatMessageDiffs, RawChatMessageDiff};
use llama_chat::error::ChatError;
use llama_chat::message::{
    ChatMessage, ChatMessageContentPart, ChatToolCall, RawChatMessage, RawContentPart, RawToolCall,
};
use llama_chat::syntax::ChatSyntax;
use llama_chat::template::{
    decode_list, source_variant, ChatParams, ChatTemplateInputs, ChatTool, RawChatParams,
    TemplateOverrides,
};
use llama_chat::text::{c_bytes, c_text_or, c_text_or_empty, c_text_or_none, decode_bytes};

fn table() -> ChatCodes {
    ChatCodes {
        tool_choice: [10, 11, 12],
        reasoning_format: [20, 21, 22],
        format: [100, 101, 102, 103, 104, 105, 106, 107, 108, 109, 110],
    }
}

fn call(name: &str, arguments: &str, id: &str) -> ChatToolCall {
    ChatToolCall { name: name.to_string(), arguments: arguments.to_string(), id: id.to_string() }
}

fn part(content_type: &str, text: &str) -> ChatMessageContentPart {
    ChatMessageContentPart { content_type: content_type.to_string(), text: text.to_string() }
}

fn full_message() -> ChatMessage {
    ChatMessage {
        role: "assistant".to_string(),
        content: "Sunny, 21°C".to_string(),
        content_parts: vec![part("text", "hello"), part("image_url", "http://x/y.png")],
        tool_calls: vec![call("get_weather", "{\"location\":\"Tokyo\"}", "call_0")],
        reasoning_content: Some("I should call the weather tool.".to_string()),
        tool_name: None,
        tool_call_id: Some("call_0".to_string()),
    }
}

fn assert_same_message(a: &ChatMessage, b: &ChatMessage) {
    assert_eq!(a.role, b.role);
    assert_eq!(a.content, b.content);
    assert_eq!(a.reasoning_content, b.reasoning_content);
    assert_eq!(a.tool_name, b.tool_name);
    assert_eq!(a.tool_call_id, b.tool_call_id);
    assert_eq!(a.content_parts.len(), b.content_parts.len());
    for (x, y) in a.content_parts.iter().zip(b.content_parts.iter()) {
        assert_eq!(x.content_type, y.content_type);
        assert_eq!(x.text, y.text);
    }
    assert_eq!(a.tool_calls.len(), b.tool_calls.len());
    for (x, y) in a.tool_calls.iter().zip(b.tool_calls.iter()) {
        assert_eq!(x.name, y.name);
        assert_eq!(x.arguments, y.arguments);
        assert_eq!(x.id, y.id);
    }
}

#[test]
fn c_bytes_gives_utf8_bytes() {
    assert_eq!(c_bytes("héllo").unwrap(), "héllo".as_bytes().to_vec());
    assert_eq!(c_bytes("").unwrap(), Vec::<u8>::new());
}

#[test]
fn c_bytes_reports_first_nul() {
    assert_eq!(c_bytes("ab\0c\0"), Err(ChatError::NulByte { position: 2 }));
    assert_eq!(c_bytes("\0"), Err(ChatError::NulByte { position: 0 }));
}

#[test]
fn decode_bytes_accepts_only_utf8() {
    assert_eq!(decode_bytes("día".as_bytes()), Some("día".to_string()));
    assert_eq!(decode_bytes(&[0x66, 0x6f, 0x6f]), Some("foo".to_string()));
    assert_eq!(decode_bytes(&[0xff, 0x61]), None);
    assert_eq!(decode_bytes(&[0xc3]), None);
}

#[test]
fn c_text_fallbacks() {
    assert_eq!(c_text_or_empty(&None), "");
    assert_eq!(c_text_or_empty(&Some(vec![0xfe])), "");
    assert_eq!(c_text_or_empty(&Some(b"user".to_vec())), "user");
    assert_eq!(c_text_or_none(&None), None);
    assert_eq!(c_text_or_none(&Some(vec![0x80])), None);
    assert_eq!(c_text_or_none(&Some(b"x".to_vec())), Some("x".to_string()));
    assert_eq!(c_text_or(&Some(vec![0x80]), "fb"), "fb");
}

#[test]
fn format_name_unknown_when_missing_or_invalid() {
    assert_eq!(format_name_from_raw(&None), "Unknown");
    assert_eq!(format_name_from_raw(&Some(vec![0xc0, 0x80])), "Unknown");
    assert_eq!(format_name_from_raw(&Some(b"Hermes 2 Pro".to_vec())), "Hermes 2 Pro");
}

#[test]
fn enum_codes_follow_the_table() {
    let t = table();
    assert_eq!(ChatToolChoice::Auto.code(&t), 10);
    assert_eq!(ChatToolChoice::Required.code(&t), 11);
    assert_eq!(ChatToolChoice::NoTools.code(&t), 12);
    assert_eq!(ReasoningFormat::NoReasoning.code(&t), 20);
    assert_eq!(ReasoningFormat::DeepSeek.code(&t), 21);
    assert_eq!(ReasoningFormat::DeepSeekLegacy.code(&t), 22);
    assert_eq!(ChatFormat::ContentOnly.code(&t), 100);
    assert_eq!(ChatFormat::Hermes2Pro.code(&t), 109);
    assert_eq!(ChatFormat::CommandR7B.code(&t), 110);
}

#[test]
fn format_code_round_trip() {
    let t = table();
    let all = [
        ChatFormat::ContentOnly,
        ChatFormat::Generic,
        ChatFormat::MistralNemo,
        ChatFormat::Llama3X,
        ChatFormat::Llama3XWithBuiltinTools,
        ChatFormat::DeepSeekR1,
        ChatFormat::FirefunctionV2,
        ChatFormat::FunctionaryV32,
        ChatFormat::FunctionaryV31Llama31,
        ChatFormat::Hermes2Pro,
        ChatFormat::CommandR7B,
    ];
    for (i, f) in all.iter().enumerate() {
        assert_eq!(f.index(), i);
        assert_eq!(ChatFormat::at(i), *f);
        assert_eq!(ChatFormat::from_code(f.code(&t), &t), *f);
    }
}

#[test]
fn unknown_format_code_is_content_only() {
    let t = table();
    assert_eq!(ChatFormat::from_code(999, &t), ChatFormat::ContentOnly);
    assert_eq!(ChatFormat::from_code(105, &t), ChatFormat::DeepSeekR1);
}

#[test]
fn shared_format_code_gives_first_format() {
    let mut t = table();
    t.format[3] = 7;
    t.format[8] = 7;
    assert_eq!(ChatFormat::from_code(7, &t), ChatFormat::Llama3X);
}

#[test]
fn syntax_default_and_codes() {
    let s = ChatSyntax::default();
    assert_eq!(s.format, ChatFormat::ContentOnly);
    assert_eq!(s.reasoning_format, ReasoningFormat::NoReasoning);
    assert!(!s.reasoning_in_content);
    assert!(!s.thinking_forced_open);
    assert!(s.parse_tool_calls);
    let s = ChatSyntax {
        format: ChatFormat::DeepSeekR1,
        reasoning_format: ReasoningFormat::DeepSeek,
        reasoning_in_content: true,
        thinking_forced_open: false,
        parse_tool_calls: false,
    };
    let r = s.to_raw(&table());
    assert_eq!(r.format, 105);
    assert_eq!(r.reasoning_format, 21);
    assert!(r.reasoning_in_content);
    assert!(!r.thinking_forced_open);
    assert!(!r.parse_tool_calls);
}

#[test]
fn message_default_is_empty() {
    let m = ChatMessage::default();
    assert_eq!(m.role, "");
    assert_eq!(m.content, "");
    assert!(m.content_parts.is_empty());
    assert!(m.tool_calls.is_empty());
    assert_eq!(m.reasoning_content, None);
    assert_eq!(m.tool_name, None);
    assert_eq!(m.tool_call_id, None);
}

#[test]
fn message_to_raw_bytes() {
    let r = full_message().to_raw().unwrap();
    assert_eq!(r.role, Some(b"assistant".to_vec()));
    assert_eq!(r.content, Some("Sunny, 21°C".as_bytes().to_vec()));
    assert_eq!(r.tool_name, None);
    assert_eq!(r.tool_call_id, Some(b"call_0".to_vec()));
    assert_eq!(r.content_parts.len(), 2);
    assert_eq!(r.content_parts[1].content_type, Some(b"image_url".to_vec()));
    assert_eq!(r.tool_calls[0].name, Some(b"get_weather".to_vec()));
}

#[test]
fn message_round_trip() {
    let m = full_message();
    let back = ChatMessage::from_raw(&m.to_raw().unwrap());
    assert_same_message(&m, &back);
    let d = ChatMessage::default();
    assert_same_message(&d, &ChatMessage::from_raw(&d.to_raw().unwrap()));
}

#[test]
fn message_to_raw_stops_at_first_nul() {
    let mut m = full_message();
    m.role = "as\0sistant".to_string();
    m.content = "\0".to_string();
    assert_eq!(m.to_raw().err(), Some(ChatError::NulByte { position: 2 }));

    let mut m = full_message();
    m.tool_calls.push(call("f", "{}", "id\0"));
    m.content_parts[1].text = "ok".to_string();
    assert_eq!(m.to_raw().err(), Some(ChatError::NulByte { position: 2 }));

    let mut m = full_message();
    m.content_parts[0].text = "x\0".to_string();
    m.tool_calls[0].name = "\0".to_string();
    assert_eq!(m.to_raw().err(), Some(ChatError::NulByte { position: 1 }));

    let mut m = full_message();
    m.reasoning_content = Some("abc\0".to_string());
    assert_eq!(m.to_raw().err(), Some(ChatError::NulByte { position: 3 }));
}

#[test]
fn message_from_raw_fallbacks() {
    let raw = RawChatMessage {
        role: None,
        content: Some(vec![0xff]),
        content_parts: vec![RawContentPart { content_type: None, text: Some(b"t".to_vec()) }],
        tool_calls: vec![RawToolCall { name: Some(b"n".to_vec()), arguments: None, id: Some(vec![0x80]) }],
        reasoning_content: Some(vec![0xff]),
        tool_name: Some(b"weather".to_vec()),
        tool_call_id: None,
    };
    let m = ChatMessage::from_raw(&raw);
    assert_eq!(m.role, "");
    assert_eq!(m.content, "");
    assert_eq!(m.content_parts[0].content_type, "");
    assert_eq!(m.content_parts[0].text, "t");
    assert_eq!(m.tool_calls[0].name, "n");
    assert_eq!(m.tool_calls[0].arguments, "");
    assert_eq!(m.tool_calls[0].id, "");
    assert_eq!(m.reasoning_content, None);
    assert_eq!(m.tool_name, Some("weather".to_string()));
    assert_eq!(m.tool_call_id, None);
}

#[test]
fn template_inputs_default() {
    let i = ChatTemplateInputs::default();
    assert!(i.messages.is_empty());
    assert_eq!(i.grammar, None);
    assert_eq!(i.json_schema, None);
    assert!(i.add_generation_prompt);
    assert!(i.use_jinja);
    assert!(i.tools.is_empty());
    assert_eq!(i.tool_choice, ChatToolChoice::Auto);
    assert!(!i.parallel_tool_calls);
    assert_eq!(i.reasoning_format, ReasoningFormat::NoReasoning);
    assert!(i.enable_thinking);
}

fn inputs() -> ChatTemplateInputs {
    let mut i = ChatTemplateInputs::default();
    i.messages = vec![
        ChatMessage { role: "system".to_string(), content: "Be brief.".to_string(), ..ChatMessage::default() },
        ChatMessage { role: "user".to_string(), content: "Weather?".to_string(), ..ChatMessage::default() },
    ];
    i.tools = vec![ChatTool {
        name: "get_weather".to_string(),
        description: "Current weather".to_string(),
        parameters: "{\"type\":\"object\"}".to_string(),
    }];
    i.grammar = Some("root ::= \"a\"".to_string());
    i.tool_choice = ChatToolChoice::Required;
    i.reasoning_format = ReasoningFormat::DeepSeekLegacy;
    i
}

#[test]
fn template_inputs_to_raw() {
    let r = inputs().to_raw(&table()).unwrap();
    assert_eq!(r.messages.len(), 2);
    assert_eq!(r.messages[1].role, Some(b"user".to_vec()));
    assert_eq!(r.messages[1].reasoning_content, None);
    assert_eq!(r.tools[0].name, b"get_weather".to_vec());
    assert_eq!(r.tools[0].parameters, b"{\"type\":\"object\"}".to_vec());
    assert_eq!(r.grammar, Some(b"root ::= \"a\"".to_vec()));
    assert_eq!(r.json_schema, None);
    assert_eq!(r.tool_choice, 11);
    assert_eq!(r.reasoning_format, 22);
    assert!(r.add_generation_prompt && r.use_jinja && r.enable_thinking);
    assert!(!r.parallel_tool_calls);
}

#[test]
fn template_inputs_nul_errors_in_order() {
    let mut i = inputs();
    i.tools[0].description = "Cur\0rent".to_string();
    i.json_schema = Some("\0".to_string());
    assert_eq!(i.to_raw(&table()).err(), Some(ChatError::NulByte { position: 3 }));

    let mut i = inputs();
    i.json_schema = Some("{}\0".to_string());
    assert_eq!(i.to_raw(&table()).err(), Some(ChatError::NulByte { position: 2 }));

    let mut i = inputs();
    i.messages[1].content = "W\0".to_string();
    i.tools[0].name = "\0".to_string();
    assert_eq!(i.to_raw(&table()).err(), Some(ChatError::NulByte { position: 1 }));
}

#[test]
fn params_from_raw_skips_null_and_invalid_entries() {
    let raw = RawChatParams {
        format: 109,
        prompt: Some(b"<|im_start|>user".to_vec()),
        grammar: Some(vec![0xff]),
        grammar_lazy: true,
        preserved_tokens: vec![Some(b"<tool_call>".to_vec()), None, Some(vec![0xff]), Some(b"</tool_call>".to_vec())],
        additional_stops: vec![],
    };
    let p = ChatParams::from_raw(&raw, &table());
    assert_eq!(p.format, ChatFormat::Hermes2Pro);
    assert_eq!(p.prompt, "<|im_start|>user");
    assert_eq!(p.grammar, None);
    assert!(p.grammar_lazy);
    assert_eq!(p.preserved_tokens, vec!["<tool_call>".to_string(), "</tool_call>".to_string()]);
    assert!(p.additional_stops.is_empty());

    let raw = RawChatParams {
        format: 12345,
        prompt: None,
        grammar: Some(b"g".to_vec()),
        grammar_lazy: false,
        preserved_tokens: vec![],
        additional_stops: vec![Some(b"<|eot_id|>".to_vec())],
    };
    let p = ChatParams::from_raw(&raw, &table());
    assert_eq!(p.format, ChatFormat::ContentOnly);
    assert_eq!(p.prompt, "");
    assert_eq!(p.grammar, Some("g".to_string()));
    assert_eq!(p.additional_stops, vec!["<|eot_id|>".to_string()]);
}

#[test]
fn decode_list_keeps_order() {
    let raw = vec![Some(b"b".to_vec()), Some(b"a".to_vec()), None];
    assert_eq!(decode_list(&raw), vec!["b".to_string(), "a".to_string()]);
}

#[test]
fn diffs_from_raw() {
    let raw = vec![
        RawChatMessageDiff {
            reasoning_content_delta: Some(b"think".to_vec()),
            content_delta: None,
            tool_call_index: usize::MAX,
            tool_call_delta: RawToolCall { name: None, arguments: None, id: None },
        },
        RawChatMessageDiff {
            reasoning_content_delta: None,
            content_delta: Some(vec![0xff]),
            tool_call_index: 0,
            tool_call_delta: RawToolCall {
                name: Some(b"get_weather".to_vec()),
                arguments: Some(b"{\"loc".to_vec()),
                id: Some(b"call_0".to_vec()),
            },
        },
    ];
    let ds = ChatMessageDiffs::from_raw(&raw);
    assert_eq!(ds.diffs.len(), 2);
    assert_eq!(ds.diffs[0].reasoning_content_delta, Some("think".to_string()));
    assert_eq!(ds.diffs[0].content_delta, None);
    assert_eq!(ds.diffs[0].tool_call_index, None);
    assert!(ds.diffs[0].tool_call_delta.is_none());
    assert_eq!(ds.diffs[1].content_delta, None);
    assert_eq!(ds.diffs[1].tool_call_index, Some(0));
    let c = ds.diffs[1].tool_call_delta.clone().unwrap();
    assert_eq!(c.name, "get_weather");
    assert_eq!(c.arguments, "{\"loc");
    assert_eq!(c.id, "call_0");
    let single: ChatMessageDiff = ChatMessageDiff::from_raw(&raw[1]);
    assert_eq!(single.tool_call_index, Some(0));
}

#[test]
fn overrides_and_source_variant() {
    let o = TemplateOverrides::new(Some("{{ messages }}"), None, Some("</s>")).unwrap();
    assert_eq!(o.chat_template, Some(b"{{ messages }}".to_vec()));
    assert_eq!(o.bos_token, None);
    assert_eq!(o.eos_token, Some(b"</s>".to_vec()));
    assert_eq!(
        TemplateOverrides::new(None, Some("<\0s>"), Some("\0")).err(),
        Some(ChatError::NulByte { position: 1 })
    );
    assert_eq!(source_variant(Some("tool_use")), Some(b"tool_use".to_vec()));
    assert_eq!(source_variant(Some("tool\0use")), None);
    assert_eq!(source_variant(None), None);
}
