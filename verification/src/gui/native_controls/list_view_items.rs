//! The items of a list view control.

use vstd::prelude::*;
use crate::handles::HWND;
use crate::msg::lvm;
use crate::msg::MsgTo;
use crate::structs::LVITEM;

verus! {

/// By how many UTF-16 units the buffer that receives a text grows.
pub const BLOCK: u32 = 64;

/// The largest buffer that can still grow by a block.
pub const LAST_TO_GROW: u32 = 0x7fff_ffbf;

/// A request for the text of one item at one column.
#[derive(Clone, Copy, Debug, PartialEq, Eq, Structural)]
pub struct ItemText {
    pub hwnd: HWND,
    pub item_index: u32,
    pub column_index: u32,
}

/// The retrieving of the text of one item at one column.
///
/// The control writes as much of the text as the buffer holds, and says how
/// much it wrote, not how long the text is. So the text is asked for into a
/// buffer of one block, then of two, and so on, until what was written leaves
/// room in the buffer: then the buffer holds the whole text. `step` gives the
/// message to send, `retrieved` takes the count that came back.
#[derive(Clone, Copy, Debug, PartialEq, Eq, Structural)]
pub struct TextRetrieve {
    pub ask: ItemText,
    /// The size of the buffer, in UTF-16 units.
    pub buf_sz: u32,
}

impl TextRetrieve {
    /// The sizes that a buffer goes through: at least a block, and no more
    /// than fits the count that a description holds.
    pub open spec fn wf(self) -> bool {
        BLOCK <= self.buf_sz <= LAST_TO_GROW + BLOCK
    }

    /// Whether a buffer that received `nchars` units holds the whole text:
    /// the units and the zero after them leave room. A buffer that cannot
    /// grow is taken as it is.
    pub open spec fn complete(self, nchars: u32) -> bool {
        nchars + 1 < self.buf_sz || self.buf_sz > LAST_TO_GROW
    }

    /// The message that asks for the text into a buffer of the current size.
    pub fn step(&self) -> (r: MsgTo<lvm::GetItemText>)
        ensures
            r.hwnd == self.ask.hwnd,
            r.msg == (lvm::GetItemText {
                index: self.ask.item_index,
                lvitem: LVITEM {
                    iSubItem: self.ask.column_index as i32,
                    cchTextMax: self.buf_sz as i32,
                },
            }),
    {
        MsgTo {
            hwnd: self.ask.hwnd,
            msg: lvm::GetItemText {
                index: self.ask.item_index,
                lvitem: LVITEM {
                    iSubItem: #[verifier::truncate] (self.ask.column_index as i32),
                    cchTextMax: #[verifier::truncate] (self.buf_sz as i32),
                },
            },
        }
    }

    /// Takes the number of units that the control wrote, and tells whether
    /// the buffer holds the whole text. Where it does not, the buffer grows
    /// by a block, and the text is to be asked for again.
    pub fn retrieved(&mut self, nchars: u32) -> (done: bool)
        ensures
            done == old(self).complete(nchars),
            final(self).ask == old(self).ask,
            final(self).buf_sz == if done {
                old(self).buf_sz
            } else {
                (old(self).buf_sz + BLOCK) as u32
            },
            old(self).wf() ==> final(self).wf(),
    {
        if self.buf_sz > LAST_TO_GROW {
            true
        } else if nchars < self.buf_sz && nchars + 1 < self.buf_sz {
            true
        } else {
            self.buf_sz = self.buf_sz + BLOCK;
            false
        }
    }
}

impl ItemText {
    /// Starts retrieving the text, with a buffer of one block.
    pub fn retrieve(self) -> (r: TextRetrieve)
        ensures
            r == (TextRetrieve { ask: self, buf_sz: BLOCK }),
            r.wf(),
    {
        TextRetrieve { ask: self, buf_sz: BLOCK }
    }
}

} // verus!
