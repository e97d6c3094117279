//! The columns of a list view control.
//!
//! Nothing here talks to the control. Each method says which message is to be
//! sent, to which window and with what in it, from what the caller has learnt
//! so far; the caller sends it. Where what is sent next depends on what came
//! back, an operation value keeps track: it says what to do, takes the answer,
//! and says what to do then.

use vstd::prelude::*;
use crate::co::{ERROR, LVCF, LVNI};
use crate::gui::native_controls::list_view_items::ItemText;
use crate::handles::HWND;
use crate::msg::hdm;
use crate::msg::lvm;
use crate::msg::MsgTo;
use crate::privs::WinResult;
use crate::structs::{LvColumn, LVCOLUMN, RECT, SIZE};

verus! {

/// Where a new column goes: past every column that a list view can hold, that
/// is, last.
pub const INSERT_LAST: u32 = 0xffff;

/// Capacity, in UTF-16 units, of the buffer that receives a column's title.
pub const TITLE_BUFFER: i32 = 128;

/// The sum of the widths.
pub open spec fn total_width(widths: Seq<u32>) -> int
    decreases widths.len(),
{
    if widths.len() == 0 {
        0
    } else {
        total_width(widths.drop_last()) + widths.last()
    }
}

/// Exposes column methods of a list view control.
#[derive(Debug)]
pub struct ListViewColumns {
    hwnd: HWND,
}

impl View for ListViewColumns {
    type V = HWND;

    /// The handle of the control.
    closed spec fn view(&self) -> HWND {
        self.hwnd
    }
}

impl ListViewColumns {
    /// The columns of a control that is not created yet.
    pub fn new() -> (r: ListViewColumns)
        ensures
            r@ == HWND(0),
    {
        ListViewColumns { hwnd: HWND::null() }
    }

    /// Stores the handle of the control.
    pub fn set_hwnd_ref(&mut self, hwnd_ref: &HWND)
        ensures
            final(self)@ == *hwnd_ref,
    {
        self.hwnd = *hwnd_ref;
    }

    /// The handle of the control.
    pub fn hwnd(&self) -> (r: HWND)
        ensures
            r == self@,
    {
        self.hwnd
    }

    /// The size to be adjusted to the system's DPI for a column of the given
    /// width.
    pub fn column_size(width: u32) -> (r: SIZE)
        ensures
            r == (SIZE { cx: width as i32, cy: 0 }),
    {
        SIZE::new(#[verifier::truncate] (width as i32), 0)
    }

    /// Starts adding many columns at once, each with its title and width, in
    /// the order given. See `AddColumns`.
    pub fn add(&self, texts_and_widths: Vec<(String, u32)>) -> (r: AddColumns)
        ensures
            r@ == (AddColumnsView {
                hwnd: self@,
                columns: texts_and_widths@,
                next: 0,
                state: AddState::Scaling,
            }),
    {
        AddColumns { hwnd: self.hwnd, columns: texts_and_widths, next: 0, state: AddState::Scaling }
    }

    /// The message that asks the control how many items it has; the answer
    /// goes to `all_texts`.
    pub fn all_texts_count(&self) -> (r: MsgTo<lvm::GetItemCount>)
        ensures
            r.hwnd == self@,
    {
        MsgTo { hwnd: self.hwnd, msg: lvm::GetItemCount {  } }
    }

    /// The requests for the texts of all items at the given column: one for
    /// each of the `count` items, in their order. The texts that come back,
    /// in that order, are the texts of the column.
    pub fn all_texts(&self, column_index: u32, count: u32) -> (r: Vec<ItemText>)
        ensures
            r.len() == count,
            forall|i: int|
                0 <= i < count ==> #[trigger] r[i] == (ItemText {
                    hwnd: self@,
                    item_index: i as u32,
                    column_index,
                }),
    {
        let mut texts: Vec<ItemText> = Vec::with_capacity(count as usize);
        let mut idx: u32 = 0;
        while idx < count
            invariant
                idx <= count,
                texts.len() == idx,
                forall|i: int|
                    0 <= i < idx ==> #[trigger] texts[i] == (ItemText {
                        hwnd: self@,
                        item_index: i as u32,
                        column_index,
                    }),
            decreases count - idx,
        {
            texts.push(ItemText { hwnd: self.hwnd, item_index: idx, column_index });
            idx += 1;
        }
        texts
    }

    /// The message that asks the control for its header; the answer goes to
    /// `count`.
    pub fn count_header(&self) -> (r: MsgTo<lvm::GetHeader>)
        ensures
            r.hwnd == self@,
    {
        MsgTo { hwnd: self.hwnd, msg: lvm::GetHeader {  } }
    }

    /// The message that asks for the number of columns: it goes to the header
    /// that the control named. Where the control named none, that error is
    /// returned and nothing is sent.
    pub fn count(&self, header: WinResult<HWND>) -> (r: WinResult<MsgTo<hdm::GetItemCount>>)
        ensures
            match header {
                Ok(h) => r matches Ok(m) && m.hwnd == h,
                Err(e) => r matches Err(f) && f == e,
            },
    {
        match header {
            Ok(h) => Ok(MsgTo { hwnd: h, msg: hdm::GetItemCount {  } }),
            Err(e) => Err(e),
        }
    }

    /// The message that asks for information about the column; the valid
    /// members of `lvc` say what is asked for.
    pub fn info(&self, column_index: u32, lvc: LVCOLUMN) -> (r: MsgTo<lvm::GetColumn>)
        ensures
            r.hwnd == self@,
            r.msg.index == column_index,
            r.msg.lvcolumn == lvc,
    {
        MsgTo { hwnd: self.hwnd, msg: lvm::GetColumn { index: column_index, lvcolumn: lvc } }
    }

    /// The message that asks the control how many items are selected, which
    /// comes before the search for them. See `selected_texts`.
    pub fn selected_texts_count(&self) -> (r: MsgTo<lvm::GetSelectedCount>)
        ensures
            r.hwnd == self@,
    {
        MsgTo { hwnd: self.hwnd, msg: lvm::GetSelectedCount {  } }
    }

    /// Starts retrieving the texts of the selected items at the given column.
    /// `sel_count` is the number of selected items, as the control gave it;
    /// it only sizes the list. See `SelectedTexts`.
    pub fn selected_texts(&self, column_index: u32, sel_count: u32) -> (r: SelectedTexts)
        ensures
            r@ == (SelectedTextsView {
                hwnd: self@,
                column_index,
                texts: Seq::<String>::empty(),
                idx: None,
                state: SelectedState::Searching,
            }),
    {
        SelectedTexts {
            hwnd: self.hwnd,
            column_index,
            texts: Vec::with_capacity(sel_count as usize),
            idx: None,
            state: SelectedState::Searching,
        }
    }

    /// The message that sets information of the column; the valid members of
    /// `lvc` say what is set.
    pub fn set_info(&self, column_index: u32, lvc: LVCOLUMN) -> (r: MsgTo<lvm::SetColumn>)
        ensures
            r.hwnd == self@,
            r.msg.index == column_index,
            r.msg.lvcolumn == lvc,
    {
        MsgTo { hwnd: self.hwnd, msg: lvm::SetColumn { index: column_index, lvcolumn: lvc } }
    }

    /// The message that sets the title of the column: only the title is marked
    /// as valid.
    pub fn set_title(&self, column_index: u32, text: &str) -> (r: MsgTo<lvm::SetColumn>)
        ensures
            r.hwnd == self@,
            r.msg.index == column_index,
            r.msg.lvcolumn@ == (LvColumn {
                iSubItem: column_index as i32,
                mask: LVCF(LVCF::TEXT),
                pszText: Some(text@),
                ..LvColumn::zeroed()
            }),
    {
        let mut lvc = LVCOLUMN::default();
        lvc.iSubItem = #[verifier::truncate] (column_index as i32);
        lvc.mask = LVCF(LVCF::TEXT);
        lvc.pszText = Some(text.to_owned());
        self.set_info(column_index, lvc)
    }

    /// The message that sets the width of the column. `col_cx` is the size
    /// that `column_size` gave for the width that is wanted, adjusted to the
    /// system's DPI: its horizontal extent is the width that is set.
    pub fn set_width(&self, column_index: u32, col_cx: SIZE) -> (r: MsgTo<lvm::SetColumnWidth>)
        ensures
            r.hwnd == self@,
            r.msg == (lvm::SetColumnWidth { index: column_index, width: col_cx.cx as u32 }),
    {
        MsgTo {
            hwnd: self.hwnd,
            msg: lvm::SetColumnWidth {
                index: column_index,
                width: #[verifier::truncate] (col_cx.cx as u32),
            },
        }
    }

    /// The index of the column that the `j`-th of the messages of
    /// `set_width_to_fill_widths` asks about: the columns are taken in their
    /// order, and the column to be filled is passed over.
    pub open spec fn other_column(column_index: u32, j: int) -> int {
        if j < column_index {
            j
        } else {
            j + 1
        }
    }

    /// The number of columns other than the one to be filled.
    pub open spec fn other_columns(column_index: u32, num_cols: u32) -> int {
        if column_index < num_cols {
            num_cols - 1
        } else {
            num_cols as int
        }
    }

    /// The messages that ask for the width of each column but the one to be
    /// filled, in the columns' order. `num_cols` is the number of columns. The
    /// answers, in that order, go to `set_width_to_fill`.
    pub fn set_width_to_fill_widths(&self, column_index: u32, num_cols: u32) -> (r: Vec<
        MsgTo<lvm::GetColumnWidth>,
    >)
        ensures
            r.len() == Self::other_columns(column_index, num_cols),
            forall|j: int|
                0 <= j < r.len() ==> (#[trigger] r[j]).hwnd == self@ && r[j].msg.index
                    == Self::other_column(column_index, j),
    {
        let mut msgs: Vec<MsgTo<lvm::GetColumnWidth>> = Vec::new();
        let mut i: u32 = 0;
        while i < num_cols
            invariant
                i <= num_cols,
                msgs.len() == Self::other_columns(column_index, i),
                forall|j: int|
                    0 <= j < msgs.len() ==> (#[trigger] msgs[j]).hwnd == self@ && msgs[j].msg.index
                        == Self::other_column(column_index, j),
            decreases num_cols - i,
        {
            if i != column_index {
                msgs.push(MsgTo { hwnd: self.hwnd, msg: lvm::GetColumnWidth { index: i } });
            }
            i += 1;
        }
        msgs
    }

    /// The width that fills the space that columns of the given widths leave
    /// in a control with the given client area: its right edge, less the
    /// widths. There is none where the widths add up to more than the right
    /// edge.
    pub open spec fn width_to_fill(widths: Seq<u32>, rc: RECT) -> Option<u32> {
        if total_width(widths) <= (rc.right as u32) {
            Some(((rc.right as u32) - total_width(widths)) as u32)
        } else {
            None
        }
    }

    /// The message that sets the width of the column so that it fills the
    /// space that the other columns leave: the right edge of the control's
    /// client area, less the widths of the other columns.
    ///
    /// `widths` are the widths of the other columns and `rc` is the client
    /// area of the control. Returns `None` where the widths do not add up in
    /// 32 bits, or add up to more than the right edge.
    pub fn set_width_to_fill(&self, column_index: u32, widths: &Vec<u32>, rc: RECT) -> (r: Option<
        MsgTo<lvm::SetColumnWidth>,
    >)
        ensures
            r == match Self::width_to_fill(widths@, rc) {
                Some(width) => Some(
                    MsgTo {
                        hwnd: self@,
                        msg: lvm::SetColumnWidth { index: column_index, width },
                    },
                ),
                None => None,
            },
    {
        let right: u32 = #[verifier::truncate] (rc.right as u32);
        let mut cx_used: u32 = 0;
        let mut i: usize = 0;
        while i < widths.len()
            invariant
                i <= widths.len(),
                cx_used == total_width(widths@.take(i as int)),
                cx_used <= right,
                right == rc.right as u32,
            decreases widths.len() - i,
        {
            let w: u32 = widths[i];
            proof {
                assert(widths@.take(i + 1).drop_last() == widths@.take(i as int));
                assert(widths@.take(i + 1).last() == w);
                lemma_total_width_take(widths@, i + 1);
            }
            if w > right - cx_used {
                return None;
            }
            cx_used = cx_used + w;
            i += 1;
        }
        proof {
            assert(widths@.take(widths.len() as int) == widths@);
        }
        Some(
            MsgTo {
                hwnd: self.hwnd,
                msg: lvm::SetColumnWidth { index: column_index, width: right - cx_used },
            },
        )
    }

    /// The message that asks for the title of the column: only the title is
    /// marked as valid, and the buffer that receives it has `TITLE_BUFFER`
    /// units. What the buffer holds when the message returns is the title.
    pub fn title(&self, column_index: u32) -> (r: MsgTo<lvm::GetColumn>)
        ensures
            r.hwnd == self@,
            r.msg.index == column_index,
            r.msg.lvcolumn@ == (LvColumn {
                iSubItem: column_index as i32,
                mask: LVCF(LVCF::TEXT),
                pszText: Some(Seq::<char>::empty()),
                cchTextMax: TITLE_BUFFER,
                ..LvColumn::zeroed()
            }),
    {
        let mut lvc = LVCOLUMN::default();
        lvc.iSubItem = #[verifier::truncate] (column_index as i32);
        lvc.mask = LVCF(LVCF::TEXT);
        lvc.pszText = Some(String::new());
        lvc.cchTextMax = TITLE_BUFFER;
        self.info(column_index, lvc)
    }

    /// The message that asks for the width of the column.
    pub fn width(&self, column_index: u32) -> (r: MsgTo<lvm::GetColumnWidth>)
        ensures
            r.hwnd == self@,
            r.msg == (lvm::GetColumnWidth { index: column_index }),
    {
        MsgTo { hwnd: self.hwnd, msg: lvm::GetColumnWidth { index: column_index } }
    }
}

/// The widths up to any point add up to no more than all of them.
pub proof fn lemma_total_width_take(widths: Seq<u32>, n: int)
    requires
        0 <= n <= widths.len(),
    ensures
        0 <= total_width(widths.take(n)) <= total_width(widths),
    decreases widths.len() - n,
{
    lemma_total_width_nonnegative(widths.take(n));
    if n < widths.len() {
        lemma_total_width_take(widths, n + 1);
        assert(widths.take(n + 1).drop_last() == widths.take(n));
    } else {
        assert(widths.take(n) == widths);
    }
}

/// Widths add up to no less than zero.
pub proof fn lemma_total_width_nonnegative(widths: Seq<u32>)
    ensures
        0 <= total_width(widths),
    decreases widths.len(),
{
    if widths.len() > 0 {
        lemma_total_width_nonnegative(widths.drop_last());
    }
}

/// The mask that marks title and width as valid, as a number.
pub proof fn lemma_title_and_width_mask()
    ensures
        LVCF::TEXT | LVCF::WIDTH == 0x0006u32,
{
    assert(0x0004u32 | 0x0002u32 == 0x0006u32) by (bit_vector);
}

/// Where the adding of columns stands.
#[derive(Clone, Copy, Debug, PartialEq, Eq, Structural)]
pub enum AddState {
    /// The width of the next column is to be adjusted to the system's DPI.
    Scaling,
    /// The next column is to be inserted with this width.
    Inserting(i32),
    /// A step failed with this error; no more is done.
    Failed(ERROR),
}

/// What the caller of `AddColumns` is to do next.
#[derive(Debug, PartialEq, Eq)]
pub enum AddStep {
    /// Adjust this size to the system's DPI, and hand the outcome to `scaled`.
    Scale(SIZE),
    /// Send this message, and hand the outcome to `inserted`.
    Insert(MsgTo<lvm::InsertColumn>),
    /// Nothing: this is the outcome of the whole.
    Done(WinResult<()>),
}

/// What an `AddColumns` holds.
pub struct AddColumnsView {
    /// The handle of the control.
    pub hwnd: HWND,
    /// The title and the width of each column to add.
    pub columns: Seq<(String, u32)>,
    /// How many of the columns have been inserted.
    pub next: nat,
    /// Where the adding stands.
    pub state: AddState,
}

impl AddColumnsView {
    /// The description of the next column, once its width was adjusted to
    /// `cx`: title and width are marked as valid.
    pub open spec fn lvcolumn(self, cx: i32) -> LvColumn {
        LvColumn {
            mask: LVCF(LVCF::TEXT | LVCF::WIDTH),
            cx,
            pszText: Some(self.columns[self.next as int].0@),
            ..LvColumn::zeroed()
        }
    }

    /// Whether every column has been inserted, or a step has failed.
    pub open spec fn done(self) -> bool {
        self.state is Failed || self.next >= self.columns.len()
    }

    /// The adding after the outcome of an adjustment has come: the column is
    /// to be inserted with the adjusted horizontal extent, or the adding has
    /// failed. Where no adjustment was asked for, nothing changes.
    pub open spec fn scaled(self, res: WinResult<SIZE>) -> AddColumnsView {
        if !self.done() && self.state is Scaling {
            match res {
                Ok(sz) => AddColumnsView { state: AddState::Inserting(sz.cx), ..self },
                Err(e) => AddColumnsView { state: AddState::Failed(e), ..self },
            }
        } else {
            self
        }
    }

    /// The adding after the outcome of an insertion has come: the next column
    /// is up, or the adding has failed. Where no insertion was asked for,
    /// nothing changes.
    pub open spec fn inserted(self, res: WinResult<u32>) -> AddColumnsView {
        if !self.done() && self.state is Inserting {
            match res {
                Ok(_) => AddColumnsView {
                    next: self.next + 1,
                    state: AddState::Scaling,
                    ..self
                },
                Err(e) => AddColumnsView { state: AddState::Failed(e), ..self },
            }
        } else {
            self
        }
    }
}

impl AddColumnsView {
    /// A failure ends the adding: the outcome is the error, and no later
    /// outcome changes anything.
    pub proof fn lemma_failure_is_final(self, scaled: WinResult<SIZE>, inserted: WinResult<u32>)
        requires
            self.state is Failed,
        ensures
            self.done(),
            self.scaled(scaled) == self,
            self.inserted(inserted) == self,
    {
    }

    /// A column whose adjustment and insertion both succeed is inserted with
    /// the adjusted horizontal extent, and then the next column is up: no
    /// column is passed over, and none is inserted twice.
    pub proof fn lemma_one_column_after_the_other(self, sz: SIZE, index: u32)
        requires
            !self.done(),
            self.state is Scaling,
        ensures
            self.scaled(Ok(sz)).state == AddState::Inserting(sz.cx),
            self.scaled(Ok(sz)).next == self.next,
            self.scaled(Ok(sz)).inserted(Ok(index)) == (AddColumnsView {
                next: self.next + 1,
                ..self
            }),
    {
    }

    /// The first step that fails ends the adding with its error, and the
    /// number of columns inserted stays as it was.
    pub proof fn lemma_first_failure_ends(self, sz: SIZE, e: ERROR)
        requires
            !self.done(),
            self.state is Scaling,
        ensures
            self.scaled(Err(e)).state == AddState::Failed(e),
            self.scaled(Err(e)).next == self.next,
            self.scaled(Ok(sz)).inserted(Err(e)).state == AddState::Failed(e),
            self.scaled(Ok(sz)).inserted(Err(e)).next == self.next,
    {
    }
}

/// The adding of many columns to a list view, one after the other.
///
/// For each column, first its width is adjusted to the system's DPI, then the
/// column is inserted as the last one, with its title and the adjusted width.
/// The first step that fails ends the adding with its error; the columns
/// inserted before stay. `step` says what to do; `scaled` and `inserted` take
/// the outcomes.
#[derive(Debug)]
pub struct AddColumns {
    hwnd: HWND,
    columns: Vec<(String, u32)>,
    next: usize,
    state: AddState,
}

impl View for AddColumns {
    type V = AddColumnsView;

    closed spec fn view(&self) -> AddColumnsView {
        AddColumnsView {
            hwnd: self.hwnd,
            columns: self.columns@,
            next: self.next as nat,
            state: self.state,
        }
    }
}

impl AddColumns {
    /// What is to be done next.
    pub fn step(&self) -> (r: AddStep)
        ensures
            match self@.state {
                AddState::Failed(e) => r matches AddStep::Done(res) && res == Err::<(), ERROR>(e),
                AddState::Scaling => if self@.next >= self@.columns.len() {
                    r matches AddStep::Done(res) && res == Ok::<(), ERROR>(())
                } else {
                    r matches AddStep::Scale(sz) && sz == (SIZE {
                        cx: self@.columns[self@.next as int].1 as i32,
                        cy: 0,
                    })
                },
                AddState::Inserting(cx) => if self@.next >= self@.columns.len() {
                    r matches AddStep::Done(res) && res == Ok::<(), ERROR>(())
                } else {
                    r matches AddStep::Insert(m) && m.hwnd == self@.hwnd && m.msg.index
                        == INSERT_LAST && m.msg.lvcolumn@ == self@.lvcolumn(cx)
                },
            },
    {
        match self.state {
            AddState::Failed(e) => AddStep::Done(Err(e)),
            AddState::Scaling => {
                if self.next >= self.columns.len() {
                    AddStep::Done(Ok(()))
                } else {
                    AddStep::Scale(ListViewColumns::column_size(self.columns[self.next].1))
                }
            },
            AddState::Inserting(cx) => {
                if self.next >= self.columns.len() {
                    AddStep::Done(Ok(()))
                } else {
                    let mut lvc = LVCOLUMN::default();
                    lvc.mask = LVCF(LVCF::TEXT | LVCF::WIDTH);
                    lvc.cx = cx;
                    lvc.pszText = Some(self.columns[self.next].0.clone());
                    AddStep::Insert(
                        MsgTo {
                            hwnd: self.hwnd,
                            msg: lvm::InsertColumn { index: INSERT_LAST, lvcolumn: lvc },
                        },
                    )
                }
            },
        }
    }

    /// Takes the outcome of the adjustment that `step` asked for.
    pub fn scaled(&mut self, res: WinResult<SIZE>)
        ensures
            final(self)@ == old(self)@.scaled(res),
    {
        if self.next < self.columns.len() {
            match self.state {
                AddState::Scaling => {
                    match res {
                        Ok(sz) => {
                            self.state = AddState::Inserting(sz.cx);
                        },
                        Err(e) => {
                            self.state = AddState::Failed(e);
                        },
                    }
                },
                _ => {},
            }
        }
    }

    /// Takes the outcome of the insertion that `step` asked for.
    pub fn inserted(&mut self, res: WinResult<u32>)
        ensures
            final(self)@ == old(self)@.inserted(res),
    {
        if self.next < self.columns.len() {
            match self.state {
                AddState::Inserting(_) => {
                    match res {
                        Ok(_) => {
                            self.next = self.next + 1;
                            self.state = AddState::Scaling;
                        },
                        Err(e) => {
                            self.state = AddState::Failed(e);
                        },
                    }
                },
                _ => {},
            }
        }
    }
}

/// Where the retrieving of the selected texts stands.
#[derive(Clone, Copy, Debug, PartialEq, Eq, Structural)]
pub enum SelectedState {
    /// The next selected item is to be searched for.
    Searching,
    /// The text of the item that was found is to be retrieved.
    Retrieving,
    /// No more selected items: the texts are complete.
    Finished,
}

/// What the caller of `SelectedTexts` is to do next.
#[derive(Debug, PartialEq, Eq)]
pub enum SelectedStep {
    /// Send this message, and hand the answer to `found`.
    Next(MsgTo<lvm::GetNextItem>),
    /// Retrieve this text, and hand it to `retrieved`.
    Text(ItemText),
    /// Nothing: take the texts with `into_texts`.
    Done,
}

/// What a `SelectedTexts` holds.
pub struct SelectedTextsView {
    /// The handle of the control.
    pub hwnd: HWND,
    /// The column whose texts are retrieved.
    pub column_index: u32,
    /// The texts retrieved so far.
    pub texts: Seq<String>,
    /// The selected item that was found last.
    pub idx: Option<u32>,
    /// Where the retrieving stands.
    pub state: SelectedState,
}

impl SelectedTextsView {
    /// What is to be done next.
    pub open spec fn step(self) -> SelectedStep {
        match self.state {
            SelectedState::Searching => SelectedStep::Next(
                MsgTo {
                    hwnd: self.hwnd,
                    msg: lvm::GetNextItem {
                        initial_index: self.idx,
                        relationship: LVNI(LVNI::SELECTED),
                    },
                },
            ),
            SelectedState::Retrieving => SelectedStep::Text(
                ItemText {
                    hwnd: self.hwnd,
                    item_index: match self.idx {
                        Some(idx) => idx,
                        None => 0,
                    },
                    column_index: self.column_index,
                },
            ),
            SelectedState::Finished => SelectedStep::Done,
        }
    }

    /// The retrieving after the answer to a search has come: the item that was
    /// found is where the next search starts, and its text is up; with no item
    /// found the texts are complete. Where no search was asked for, nothing
    /// changes.
    pub open spec fn found(self, item: Option<u32>) -> SelectedTextsView {
        if self.state is Searching {
            match item {
                Some(idx) => SelectedTextsView {
                    idx: Some(idx),
                    state: SelectedState::Retrieving,
                    ..self
                },
                None => SelectedTextsView { state: SelectedState::Finished, ..self },
            }
        } else {
            self
        }
    }

    /// The retrieving after a text has come: it is the last of the texts, and
    /// the next search is up. Where no text was asked for, nothing changes.
    pub open spec fn retrieved(self, text: String) -> SelectedTextsView {
        if self.state is Retrieving {
            SelectedTextsView {
                texts: self.texts.push(text),
                state: SelectedState::Searching,
                ..self
            }
        } else {
            self
        }
    }
}

impl SelectedTextsView {
    /// An item that is found, and whose text is retrieved, adds that text
    /// after the texts so far, and the next search starts at that item.
    pub proof fn lemma_found_then_retrieved(self, idx: u32, text: String)
        requires
            self.state is Searching,
        ensures
            self.found(Some(idx)).step() == SelectedStep::Text(
                ItemText { hwnd: self.hwnd, item_index: idx, column_index: self.column_index },
            ),
            self.found(Some(idx)).retrieved(text) == (SelectedTextsView {
                texts: self.texts.push(text),
                idx: Some(idx),
                ..self
            }),
            self.found(Some(idx)).retrieved(text).step() == SelectedStep::Next(
                MsgTo {
                    hwnd: self.hwnd,
                    msg: lvm::GetNextItem {
                        initial_index: Some(idx),
                        relationship: LVNI(LVNI::SELECTED),
                    },
                },
            ),
    {
    }

    /// A search that finds no item completes the texts; nothing changes them
    /// afterwards.
    pub proof fn lemma_not_found_completes(self, item: Option<u32>, text: String)
        requires
            self.state is Searching,
        ensures
            self.found(None).step() == SelectedStep::Done,
            self.found(None).texts == self.texts,
            self.found(None).found(item) == self.found(None),
            self.found(None).retrieved(text) == self.found(None),
    {
    }
}

/// The retrieving of the texts of the selected items of a list view at one
/// column.
///
/// The selected items are searched for one after the other, each search
/// starting at the item found before, the first at the first item. The text of
/// each item found is retrieved before the next search. When a search finds no
/// item, the texts are complete, in the order in which the items were found.
/// `step` says what to do; `found` and `retrieved` take the answers.
#[derive(Debug)]
pub struct SelectedTexts {
    hwnd: HWND,
    column_index: u32,
    texts: Vec<String>,
    idx: Option<u32>,
    state: SelectedState,
}

impl View for SelectedTexts {
    type V = SelectedTextsView;

    closed spec fn view(&self) -> SelectedTextsView {
        SelectedTextsView {
            hwnd: self.hwnd,
            column_index: self.column_index,
            texts: self.texts@,
            idx: self.idx,
            state: self.state,
        }
    }
}

impl SelectedTexts {
    /// What is to be done next.
    pub fn step(&self) -> (r: SelectedStep)
        ensures
            r == self@.step(),
    {
        match self.state {
            SelectedState::Searching => SelectedStep::Next(
                MsgTo {
                    hwnd: self.hwnd,
                    msg: lvm::GetNextItem {
                        initial_index: self.idx,
                        relationship: LVNI(LVNI::SELECTED),
                    },
                },
            ),
            SelectedState::Retrieving => SelectedStep::Text(
                ItemText {
                    hwnd: self.hwnd,
                    item_index: match self.idx {
                        Some(idx) => idx,
                        None => 0,
                    },
                    column_index: self.column_index,
                },
            ),
            SelectedState::Finished => SelectedStep::Done,
        }
    }

    /// Takes the answer to the search that `step` asked for.
    pub fn found(&mut self, item: Option<u32>)
        ensures
            final(self)@ == old(self)@.found(item),
    {
        match self.state {
            SelectedState::Searching => {
                match item {
                    Some(idx) => {
                        self.idx = Some(idx);
                        self.state = SelectedState::Retrieving;
                    },
                    None => {
                        self.state = SelectedState::Finished;
                    },
                }
            },
            _ => {},
        }
    }

    /// Takes the text that `step` asked for.
    pub fn retrieved(&mut self, text: String)
        ensures
            final(self)@ == old(self)@.retrieved(text),
    {
        match self.state {
            SelectedState::Retrieving => {
                self.texts.push(text);
                self.state = SelectedState::Searching;
            },
            _ => {},
        }
    }

    /// The texts retrieved so far; all of them, once `step` says `Done`.
    pub fn into_texts(self) -> (r: Vec<String>)
        ensures
            r@ == self@.texts,
    {
        self.texts
    }
}

} // verus!
