//! Differences between two chat messages, as the C side reports them.

use vstd::prelude::*;

use crate::message::{
    tool_call_from_raw, ChatToolCall, RawToolCall, RawToolCallView, ToolCallView,
};
use crate::text::{c_text_or_none, opt_bytes, opt_chars, text_or_empty, text_or_none};

verus! {

/// A difference between two chat messages.
#[derive(Debug, Clone)]
pub struct ChatMessageDiff {
    pub reasoning_content_delta: Option<String>,
    pub content_delta: Option<String>,
    pub tool_call_index: Option<usize>,
    pub tool_call_delta: Option<ChatToolCall>,
}

/// Collection of chat message differences.
#[derive(Debug, Clone)]
pub struct ChatMessageDiffs {
    pub diffs: Vec<ChatMessageDiff>,
}

/// A message difference as the C side hands it back: `None` is a null
/// pointer, `usize::MAX` as the index means "no tool call", and a tool call
/// whose name is null means "no tool call delta".
#[derive(Debug, Clone)]
pub struct RawChatMessageDiff {
    pub reasoning_content_delta: Option<Vec<u8>>,
    pub content_delta: Option<Vec<u8>>,
    pub tool_call_index: usize,
    pub tool_call_delta: RawToolCall,
}

/// The content of a message difference.
pub struct DiffView {
    pub reasoning_content_delta: Option<Seq<char>>,
    pub content_delta: Option<Seq<char>>,
    pub tool_call_index: Option<usize>,
    pub tool_call_delta: Option<ToolCallView>,
}

/// The content of a raw message difference.
pub struct RawDiffView {
    pub reasoning_content_delta: Option<Seq<u8>>,
    pub content_delta: Option<Seq<u8>>,
    pub tool_call_index: usize,
    pub tool_call_delta: RawToolCallView,
}

impl View for ChatMessageDiff {
    type V = DiffView;

    open spec fn view(&self) -> DiffView {
        DiffView {
            reasoning_content_delta: opt_chars(self.reasoning_content_delta),
            content_delta: opt_chars(self.content_delta),
            tool_call_index: self.tool_call_index,
            tool_call_delta: match self.tool_call_delta {
                Some(c) => Some(c@),
                None => None,
            },
        }
    }
}

impl View for RawChatMessageDiff {
    type V = RawDiffView;

    open spec fn view(&self) -> RawDiffView {
        RawDiffView {
            reasoning_content_delta: opt_bytes(self.reasoning_content_delta),
            content_delta: opt_bytes(self.content_delta),
            tool_call_index: self.tool_call_index,
            tool_call_delta: self.tool_call_delta@,
        }
    }
}

/// The views of a list of differences.
pub open spec fn diffs_view(ds: Seq<ChatMessageDiff>) -> Seq<DiffView> {
    ds.map_values(|d: ChatMessageDiff| d@)
}

/// The views of a list of raw differences.
pub open spec fn raw_diffs_view(ds: Seq<RawChatMessageDiff>) -> Seq<RawDiffView> {
    ds.map_values(|d: RawChatMessageDiff| d@)
}

/// A tool-call index read back from C: `usize::MAX` stands for none.
pub open spec fn index_from_raw(i: usize) -> Option<usize> {
    if i == usize::MAX {
        None
    } else {
        Some(i)
    }
}

/// A message difference read back from C. Missing or non-UTF-8 deltas are
/// `None`; a tool call with a null name is no tool call, and the other
/// fields of a present tool call read as in a message.
pub open spec fn diff_from_raw(r: RawDiffView) -> DiffView {
    DiffView {
        reasoning_content_delta: text_or_none(r.reasoning_content_delta),
        content_delta: text_or_none(r.content_delta),
        tool_call_index: index_from_raw(r.tool_call_index),
        tool_call_delta: if r.tool_call_delta.name is None {
            None
        } else {
            Some(tool_call_from_raw(r.tool_call_delta))
        },
    }
}

/// Differences read back from C, in order.
pub open spec fn diffs_from_raw(ds: Seq<RawDiffView>) -> Seq<DiffView> {
    ds.map_values(|d: RawDiffView| diff_from_raw(d))
}

impl ChatMessageDiff {
    /// Reads a message difference back from its C form.
    pub fn from_raw(raw: &RawChatMessageDiff) -> (res: ChatMessageDiff)
        ensures
            res@ == diff_from_raw(raw@),
            opt_chars(res.reasoning_content_delta) == text_or_none(
                opt_bytes(raw.reasoning_content_delta),
            ),
            opt_chars(res.content_delta) == text_or_none(opt_bytes(raw.content_delta)),
            raw.tool_call_index == usize::MAX ==> res.tool_call_index is None,
            raw.tool_call_index != usize::MAX ==> res.tool_call_index == Some(raw.tool_call_index),
            res.tool_call_delta is None <==> raw.tool_call_delta.name is None,
            res.tool_call_delta matches Some(c) ==> {
                &&& c.name@ == text_or_empty(opt_bytes(raw.tool_call_delta.name))
                &&& c.arguments@ == text_or_empty(opt_bytes(raw.tool_call_delta.arguments))
                &&& c.id@ == text_or_empty(opt_bytes(raw.tool_call_delta.id))
            },
    {
        let tool_call_index = if raw.tool_call_index == usize::MAX {
            None
        } else {
            Some(raw.tool_call_index)
        };
        let tool_call_delta = if raw.tool_call_delta.name.is_none() {
            None
        } else {
            Some(ChatToolCall::from_raw(&raw.tool_call_delta))
        };
        ChatMessageDiff {
            reasoning_content_delta: c_text_or_none(&raw.reasoning_content_delta),
            content_delta: c_text_or_none(&raw.content_delta),
            tool_call_index,
            tool_call_delta,
        }
    }
}

impl ChatMessageDiffs {
    /// Reads a list of message differences back from C, in order.
    pub fn from_raw(raw: &Vec<RawChatMessageDiff>) -> (res: ChatMessageDiffs)
        ensures
            diffs_view(res.diffs@) == diffs_from_raw(raw_diffs_view(raw@)),
            res.diffs.len() == raw.len(),
    {
        let ghost views = raw_diffs_view(raw@);
        let mut diffs: Vec<ChatMessageDiff> = Vec::new();
        let mut i: usize = 0;
        while i < raw.len()
            invariant
                i <= raw.len(),
                views == raw_diffs_view(raw@),
                diffs_view(diffs@) =~= diffs_from_raw(views.take(i as int)),
            decreases raw.len() - i,
        {
            let d = ChatMessageDiff::from_raw(&raw[i]);
            let ghost before = diffs@;
            assert(diffs_view(before).len() == i);
            assert(before.len() == i);
            diffs.push(d);
            proof {
                assert(diffs@ =~= before.push(d));
                assert(views[i as int] == raw@[i as int]@);
                assert forall|k: int| 0 <= k < i implies #[trigger] diffs_view(diffs@)[k]
                    == diffs_view(before)[k] by {
                    assert(diffs@[k] == before[k]);
                }
                assert(diffs_view(diffs@) =~= diffs_from_raw(views.take(i + 1)));
            }
            i = i + 1;
        }
        proof {
            assert(views.take(i as int) =~= views);
        }
        ChatMessageDiffs { diffs }
    }
}

} // verus!
