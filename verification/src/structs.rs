//! Native structures, held as plain values.

use vstd::prelude::*;
use crate::co::LVCF;

verus! {

/// Width and height.
#[derive(Clone, Copy, Debug, PartialEq, Eq, Structural)]
pub struct SIZE {
    pub cx: i32,
    pub cy: i32,
}

impl SIZE {
    pub fn new(cx: i32, cy: i32) -> (r: SIZE)
        ensures
            r == (SIZE { cx, cy }),
    {
        SIZE { cx, cy }
    }
}

/// A colour, as red, green and blue in the low 24 bits.
#[derive(Clone, Copy, Debug, PartialEq, Eq, Structural)]
pub struct COLORREF(pub u32);

/// A rectangle, by its edges.
#[derive(Clone, Copy, Debug, PartialEq, Eq, Structural)]
pub struct RECT {
    pub left: i32,
    pub top: i32,
    pub right: i32,
    pub bottom: i32,
}

/// Description of a list view item, as far as asking for its text goes: the
/// column, and the capacity, in UTF-16 units, of the buffer that receives the
/// text.
#[derive(Clone, Copy, Debug, PartialEq, Eq, Structural)]
pub struct LVITEM {
    pub iSubItem: i32,
    pub cchTextMax: i32,
}

/// Description of a list view column.
///
/// `pszText` is the column's title. `cchTextMax` is the capacity, in UTF-16
/// units, of the buffer that receives a title; it is zero where the title is
/// only sent.
#[derive(Debug, PartialEq, Eq)]
pub struct LVCOLUMN {
    pub mask: LVCF,
    pub fmt: i32,
    pub cx: i32,
    pub pszText: Option<String>,
    pub cchTextMax: i32,
    pub iSubItem: i32,
    pub iImage: i32,
    pub iOrder: i32,
    pub cxMin: i32,
    pub cxDefault: i32,
    pub cxIdeal: i32,
}

/// What a column description holds, with the title as a sequence of
/// characters.
pub struct LvColumn {
    pub mask: LVCF,
    pub fmt: i32,
    pub cx: i32,
    pub pszText: Option<Seq<char>>,
    pub cchTextMax: i32,
    pub iSubItem: i32,
    pub iImage: i32,
    pub iOrder: i32,
    pub cxMin: i32,
    pub cxDefault: i32,
    pub cxIdeal: i32,
}

impl LvColumn {
    /// The description with no member valid: every number zero, no title.
    pub open spec fn zeroed() -> LvColumn {
        LvColumn {
            mask: LVCF(0),
            fmt: 0,
            cx: 0,
            pszText: None,
            cchTextMax: 0,
            iSubItem: 0,
            iImage: 0,
            iOrder: 0,
            cxMin: 0,
            cxDefault: 0,
            cxIdeal: 0,
        }
    }
}

impl View for LVCOLUMN {
    type V = LvColumn;

    open spec fn view(&self) -> LvColumn {
        LvColumn {
            mask: self.mask,
            fmt: self.fmt,
            cx: self.cx,
            pszText: match self.pszText {
                Some(s) => Some(s@),
                None => None,
            },
            cchTextMax: self.cchTextMax,
            iSubItem: self.iSubItem,
            iImage: self.iImage,
            iOrder: self.iOrder,
            cxMin: self.cxMin,
            cxDefault: self.cxDefault,
            cxIdeal: self.cxIdeal,
        }
    }
}

impl Default for LVCOLUMN {
    /// The description with no member valid.
    fn default() -> (r: LVCOLUMN)
        ensures
            r@ == LvColumn::zeroed(),
    {
        LVCOLUMN {
            mask: LVCF(0),
            fmt: 0,
            cx: 0,
            pszText: None,
            cchTextMax: 0,
            iSubItem: 0,
            iImage: 0,
            iOrder: 0,
            cxMin: 0,
            cxDefault: 0,
            cxIdeal: 0,
        }
    }
}

} // verus!
