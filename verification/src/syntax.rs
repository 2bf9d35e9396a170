//! The syntax options that guide parsing of a model's response.

use vstd::prelude::*;

use crate::codes::{
    format_code, format_index, reasoning_format_code, reasoning_format_index, ChatCodes,
    ChatFormat, ReasoningFormat,
};

verus! {

/// Chat syntax options for parsing.
#[derive(Debug, Clone, Copy, PartialEq, Eq, Structural)]
pub struct ChatSyntax {
    pub format: ChatFormat,
    pub reasoning_format: ReasoningFormat,
    pub reasoning_in_content: bool,
    pub thinking_forced_open: bool,
    pub parse_tool_calls: bool,
}

/// Chat syntax options as the C side takes them.
#[derive(Debug, Clone, Copy, PartialEq, Eq, Structural)]
pub struct RawChatSyntax {
    pub format: u32,
    pub reasoning_format: u32,
    pub reasoning_in_content: bool,
    pub thinking_forced_open: bool,
    pub parse_tool_calls: bool,
}

/// The default syntax: plain content, no reasoning extraction, tool calls
/// parsed.
pub open spec fn default_syntax() -> ChatSyntax {
    ChatSyntax {
        format: ChatFormat::ContentOnly,
        reasoning_format: ReasoningFormat::NoReasoning,
        reasoning_in_content: false,
        thinking_forced_open: false,
        parse_tool_calls: true,
    }
}

/// Syntax options as the C side takes them.
pub open spec fn syntax_to_raw(s: ChatSyntax, codes: ChatCodes) -> RawChatSyntax {
    RawChatSyntax {
        format: format_code(codes, s.format),
        reasoning_format: reasoning_format_code(codes, s.reasoning_format),
        reasoning_in_content: s.reasoning_in_content,
        thinking_forced_open: s.thinking_forced_open,
        parse_tool_calls: s.parse_tool_calls,
    }
}

impl Default for ChatSyntax {
    /// Plain content, no reasoning extraction, tool calls parsed.
    fn default() -> (res: Self)
        ensures
            res == default_syntax(),
            res.format == ChatFormat::ContentOnly,
            res.reasoning_format == ReasoningFormat::NoReasoning,
            !res.reasoning_in_content,
            !res.thinking_forced_open,
            res.parse_tool_calls,
    {
        ChatSyntax {
            format: ChatFormat::ContentOnly,
            reasoning_format: ReasoningFormat::NoReasoning,
            reasoning_in_content: false,
            thinking_forced_open: false,
            parse_tool_calls: true,
        }
    }
}

impl ChatSyntax {
    /// These options as the C side takes them.
    pub fn to_raw(&self, codes: &ChatCodes) -> (res: RawChatSyntax)
        ensures
            res == syntax_to_raw(*self, *codes),
            res.format == codes.format@[format_index(self.format)],
            res.reasoning_format == codes.reasoning_format@[reasoning_format_index(
                self.reasoning_format,
            )],
            res.reasoning_in_content == self.reasoning_in_content,
            res.thinking_forced_open == self.thinking_forced_open,
            res.parse_tool_calls == self.parse_tool_calls,
    {
        RawChatSyntax {
            format: self.format.code(codes),
            reasoning_format: self.reasoning_format.code(codes),
            reasoning_in_content: self.reasoning_in_content,
            thinking_forced_open: self.thinking_forced_open,
            parse_tool_calls: self.parse_tool_calls,
        }
    }
}

} // verus!
