//! Errors of the chat layer.

use vstd::prelude::*;

verus! {

/// Why a chat operation could not be carried out.
#[derive(Debug, Clone, Copy, PartialEq, Eq, Structural)]
pub enum ChatError {
    /// A string handed to the C side holds a NUL byte at `position`
    /// (a byte offset into that string), so it cannot be a C string.
    NulByte { position: usize },
}

} // verus!
