//! The chat enums and their numeric codes on the C side.
//!
//! The numbers that stand for each variant belong to the C interface; they
//! are handed to this library in a [`ChatCodes`] table.

use vstd::prelude::*;

use crate::text::{c_text_or, opt_bytes, text_or};

verus! {

/// Tool choice for chat completion.
#[derive(Debug, Clone, Copy, PartialEq, Eq, Structural)]
pub enum ChatToolChoice {
    Auto,
    Required,
    /// The model calls no tool (`none` on the C side).
    NoTools,
}

/// Reasoning format for handling thinking/reasoning content.
#[derive(Debug, Clone, Copy, PartialEq, Eq, Structural)]
pub enum ReasoningFormat {
    /// Reasoning is not extracted (`none` on the C side).
    NoReasoning,
    DeepSeek,
    DeepSeekLegacy,
}

/// Chat format detected by the template system.
#[derive(Debug, Clone, Copy, PartialEq, Eq, Structural)]
pub enum ChatFormat {
    ContentOnly,
    Generic,
    MistralNemo,
    Llama3X,
    Llama3XWithBuiltinTools,
    DeepSeekR1,
    FirefunctionV2,
    FunctionaryV32,
    FunctionaryV31Llama31,
    Hermes2Pro,
    CommandR7B,
}

/// The C interface's number for each variant, listed in declaration order
/// of the enums above.
#[derive(Debug, Clone, Copy)]
pub struct ChatCodes {
    pub tool_choice: [u32; 3],
    pub reasoning_format: [u32; 3],
    pub format: [u32; 11],
}

/// Position of a tool choice in declaration order.
pub open spec fn tool_choice_index(c: ChatToolChoice) -> int {
    match c {
        ChatToolChoice::Auto => 0,
        ChatToolChoice::Required => 1,
        ChatToolChoice::NoTools => 2,
    }
}

/// Position of a reasoning format in declaration order.
pub open spec fn reasoning_format_index(r: ReasoningFormat) -> int {
    match r {
        ReasoningFormat::NoReasoning => 0,
        ReasoningFormat::DeepSeek => 1,
        ReasoningFormat::DeepSeekLegacy => 2,
    }
}

/// Position of a chat format in declaration order.
pub open spec fn format_index(f: ChatFormat) -> int {
    match f {
        ChatFormat::ContentOnly => 0,
        ChatFormat::Generic => 1,
        ChatFormat::MistralNemo => 2,
        ChatFormat::Llama3X => 3,
        ChatFormat::Llama3XWithBuiltinTools => 4,
        ChatFormat::DeepSeekR1 => 5,
        ChatFormat::FirefunctionV2 => 6,
        ChatFormat::FunctionaryV32 => 7,
        ChatFormat::FunctionaryV31Llama31 => 8,
        ChatFormat::Hermes2Pro => 9,
        ChatFormat::CommandR7B => 10,
    }
}

/// The C code of a tool choice.
pub open spec fn tool_choice_code(codes: ChatCodes, c: ChatToolChoice) -> u32 {
    codes.tool_choice@[tool_choice_index(c)]
}

/// The C code of a reasoning format.
pub open spec fn reasoning_format_code(codes: ChatCodes, r: ReasoningFormat) -> u32 {
    codes.reasoning_format@[reasoning_format_index(r)]
}

/// The C code of a chat format.
pub open spec fn format_code(codes: ChatCodes, f: ChatFormat) -> u32 {
    codes.format@[format_index(f)]
}

/// No two chat formats share a code.
pub open spec fn format_codes_distinct(codes: ChatCodes) -> bool {
    forall|i: int, j: int|
        0 <= i < 11 && 0 <= j < 11 && i != j ==> codes.format@[i] != codes.format@[j]
}

/// The chat format that a C code stands for: the first format, in
/// declaration order, with that code; `ContentOnly` for a code that no
/// format has.
pub open spec fn format_from_code_spec(codes: ChatCodes, code: u32, f: ChatFormat) -> bool {
    if exists|i: int| 0 <= i < 11 && codes.format@[i] == code {
        &&& format_code(codes, f) == code
        &&& forall|j: int| 0 <= j < format_index(f) ==> codes.format@[j] != code
    } else {
        f == ChatFormat::ContentOnly
    }
}

impl ChatToolChoice {
    /// The C code of this tool choice.
    pub fn code(self, codes: &ChatCodes) -> (res: u32)
        ensures
            res == tool_choice_code(*codes, self),
            self == ChatToolChoice::Auto ==> res == codes.tool_choice@[0],
            self == ChatToolChoice::Required ==> res == codes.tool_choice@[1],
            self == ChatToolChoice::NoTools ==> res == codes.tool_choice@[2],
    {
        match self {
            ChatToolChoice::Auto => codes.tool_choice[0],
            ChatToolChoice::Required => codes.tool_choice[1],
            ChatToolChoice::NoTools => codes.tool_choice[2],
        }
    }
}

impl ReasoningFormat {
    /// The C code of this reasoning format.
    pub fn code(self, codes: &ChatCodes) -> (res: u32)
        ensures
            res == reasoning_format_code(*codes, self),
            self == ReasoningFormat::NoReasoning ==> res == codes.reasoning_format@[0],
            self == ReasoningFormat::DeepSeek ==> res == codes.reasoning_format@[1],
            self == ReasoningFormat::DeepSeekLegacy ==> res == codes.reasoning_format@[2],
    {
        match self {
            ReasoningFormat::NoReasoning => codes.reasoning_format[0],
            ReasoningFormat::DeepSeek => codes.reasoning_format[1],
            ReasoningFormat::DeepSeekLegacy => codes.reasoning_format[2],
        }
    }
}

impl ChatFormat {
    /// The format at a position in declaration order.
    pub fn at(i: usize) -> (res: ChatFormat)
        requires
            i < 11,
        ensures
            format_index(res) == i,
    {
        match i {
            0 => ChatFormat::ContentOnly,
            1 => ChatFormat::Generic,
            2 => ChatFormat::MistralNemo,
            3 => ChatFormat::Llama3X,
            4 => ChatFormat::Llama3XWithBuiltinTools,
            5 => ChatFormat::DeepSeekR1,
            6 => ChatFormat::FirefunctionV2,
            7 => ChatFormat::FunctionaryV32,
            8 => ChatFormat::FunctionaryV31Llama31,
            9 => ChatFormat::Hermes2Pro,
            _ => ChatFormat::CommandR7B,
        }
    }

    /// Position of this format in declaration order.
    pub fn index(self) -> (res: usize)
        ensures
            res == format_index(self),
    {
        match self {
            ChatFormat::ContentOnly => 0,
            ChatFormat::Generic => 1,
            ChatFormat::MistralNemo => 2,
            ChatFormat::Llama3X => 3,
            ChatFormat::Llama3XWithBuiltinTools => 4,
            ChatFormat::DeepSeekR1 => 5,
            ChatFormat::FirefunctionV2 => 6,
            ChatFormat::FunctionaryV32 => 7,
            ChatFormat::FunctionaryV31Llama31 => 8,
            ChatFormat::Hermes2Pro => 9,
            ChatFormat::CommandR7B => 10,
        }
    }

    /// The C code of this chat format.
    pub fn code(self, codes: &ChatCodes) -> (res: u32)
        ensures
            res == format_code(*codes, self),
            self == ChatFormat::ContentOnly ==> res == codes.format@[0],
            self == ChatFormat::Generic ==> res == codes.format@[1],
            self == ChatFormat::MistralNemo ==> res == codes.format@[2],
            self == ChatFormat::Llama3X ==> res == codes.format@[3],
            self == ChatFormat::Llama3XWithBuiltinTools ==> res == codes.format@[4],
            self == ChatFormat::DeepSeekR1 ==> res == codes.format@[5],
            self == ChatFormat::FirefunctionV2 ==> res == codes.format@[6],
            self == ChatFormat::FunctionaryV32 ==> res == codes.format@[7],
            self == ChatFormat::FunctionaryV31Llama31 ==> res == codes.format@[8],
            self == ChatFormat::Hermes2Pro ==> res == codes.format@[9],
            self == ChatFormat::CommandR7B ==> res == codes.format@[10],
    {
        codes.format[self.index()]
    }

    /// The chat format that a C code stands for; a code that no format has
    /// gives `ContentOnly`.
    pub fn from_code(code: u32, codes: &ChatCodes) -> (res: ChatFormat)
        ensures
            format_from_code_spec(*codes, code, res),
    {
        let mut i: usize = 0;
        while i < 11
            invariant
                i <= 11,
                codes.format@.len() == 11,
                forall|j: int| 0 <= j < i ==> codes.format@[j] != code,
            decreases 11 - i,
        {
            if codes.format[i] == code {
                return ChatFormat::at(i);
            }
            i = i + 1;
        }
        ChatFormat::ContentOnly
    }
}

/// The name of a chat format as the C side reports it: a missing name or one
/// that is not UTF-8 reads as "Unknown".
pub fn format_name_from_raw(raw: &Option<Vec<u8>>) -> (res: String)
    ensures
        res@ == text_or(opt_bytes(*raw), "Unknown"@),
{
    c_text_or(raw, "Unknown")
}

} // verus!
