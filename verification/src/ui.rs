use vstd::prelude::*;

verus! {

/// One row of the packet list: the texts of its columns, in column order.
#[derive(Debug, PartialEq)]
pub struct ListItem {
    pub elements: Vec<String>,
}

/// The mathematical model of the list state: the rows, the selected row, the
/// first visible row, and the fixed column count and visible height.
#[verifier::ext_equal]
pub ghost struct ListModel {
    pub items: Seq<ListItem>,
    pub cur_selected: int,
    pub offset: int,
    pub columns: int,
    pub height: int,
}

/// The selection state after moving one row down: the selection stops at the
/// last row, and the window slides down by one when the selection would
/// leave it.
pub open spec fn spec_select_next(m: ListModel) -> ListModel {
    if m.items.len() == 0 {
        m
    } else {
        let cur = if m.cur_selected + 1 < m.items.len() {
            m.cur_selected + 1
        } else {
            m.items.len() - 1
        };
        let offset = if cur > m.offset + m.height - 1 {
            m.offset + 1
        } else {
            m.offset
        };
        ListModel { cur_selected: cur, offset, ..m }
    }
}

/// The selection state after moving one row up: the selection stops at the
/// first row, and the window slides up by one when the selection would leave
/// it.
pub open spec fn spec_select_prev(m: ListModel) -> ListModel {
    let cur = if m.cur_selected != 0 {
        m.cur_selected - 1
    } else {
        0
    };
    let offset = if cur < m.offset {
        m.offset - 1
    } else {
        m.offset
    };
    ListModel { cur_selected: cur, offset, ..m }
}

/// The selection state after jumping to the last row, with the window moved
/// so the last row is visible.
pub open spec fn spec_select_end(m: ListModel) -> ListModel {
    if m.items.len() != 0 {
        ListModel {
            cur_selected: m.items.len() - 1,
            offset: if m.items.len() < m.height {
                0
            } else {
                m.items.len() - m.height
            },
            ..m
        }
    } else {
        m
    }
}

/// The selection state after jumping to the first row.
pub open spec fn spec_select_start(m: ListModel) -> ListModel {
    ListModel { cur_selected: 0, offset: 0, ..m }
}

/// The state after the visible height changes: the selection is clamped to
/// the new window's last row.
pub open spec fn spec_resize(m: ListModel, height: int) -> ListModel {
    ListModel {
        height,
        cur_selected: if m.cur_selected - m.offset > height - 1 {
            m.offset + height - 1
        } else {
            m.cur_selected
        },
        ..m
    }
}

/// A scrollable, selectable list of rows shown through a window of fixed
/// height. The rendering itself belongs to the consumer; this is the state
/// it renders from.
pub struct List {
    items: Vec<ListItem>,
    cur_selected: usize,
    offset: usize,
    columns: usize,
    height: usize,
}

impl View for List {
    type V = ListModel;

    closed spec fn view(&self) -> ListModel {
        ListModel {
            items: self.items@,
            cur_selected: self.cur_selected as int,
            offset: self.offset as int,
            columns: self.columns as int,
            height: self.height as int,
        }
    }
}

impl List {
    /// Well-formed: the selection lies inside the rows (or at 0 while there
    /// are none) and inside the visible window.
    pub open spec fn wf(&self) -> bool {
        &&& self@.columns >= 1
        &&& self@.height >= 1
        &&& self@.offset <= self@.cur_selected
        &&& self@.cur_selected < self@.offset + self@.height
        &&& self@.items.len() == 0 ==> self@.cur_selected == 0 && self@.offset == 0
        &&& self@.items.len() > 0 ==> self@.cur_selected < self@.items.len()
    }

    /// An empty list with `columns` columns shown through a window
    /// `height` rows tall.
    pub fn new(columns: usize, height: usize) -> (r: Self)
        requires
            columns >= 1,
            height >= 1,
        ensures
            r@ == (ListModel {
                items: Seq::<ListItem>::empty(),
                cur_selected: 0,
                offset: 0,
                columns: columns as int,
                height: height as int,
            }),
            r.wf(),
    {
        let r = List { items: Vec::new(), cur_selected: 0, offset: 0, columns, height };
        proof {
            assert(r@ =~= ListModel {
                items: Seq::<ListItem>::empty(),
                cur_selected: 0,
                offset: 0,
                columns: columns as int,
                height: height as int,
            });
        }
        r
    }

    /// Append one row at the end.
    pub fn add_new(&mut self, t: ListItem)
        requires
            old(self).wf(),
            old(self)@.items.len() < usize::MAX,
        ensures
            final(self)@ == (ListModel { items: old(self)@.items.push(t), ..old(self)@ }),
            final(self).wf(),
    {
        self.items.push(t);
    }

    /// Move the selection one row down.
    pub fn select_next(&mut self)
        requires
            old(self).wf(),
        ensures
            final(self)@ == spec_select_next(old(self)@),
            final(self).wf(),
    {
        if self.items.len() == 0 {
            return;
        }
        if self.cur_selected + 1 < self.items.len() {
            self.cur_selected = self.cur_selected + 1;
        } else {
            self.cur_selected = self.items.len() - 1;
        }
        if self.cur_selected - self.offset > self.height - 1 {
            self.offset = self.offset + 1;
        }
    }

    /// Move the selection one row up.
    pub fn select_prev(&mut self)
        requires
            old(self).wf(),
        ensures
            final(self)@ == spec_select_prev(old(self)@),
            final(self).wf(),
    {
        if self.cur_selected != 0 {
            self.cur_selected = self.cur_selected - 1;
        }
        if self.cur_selected < self.offset {
            self.offset = self.offset - 1;
        }
    }

    /// Jump to the last row.
    pub fn select_end(&mut self)
        requires
            old(self).wf(),
        ensures
            final(self)@ == spec_select_end(old(self)@),
            final(self).wf(),
    {
        if self.items.len() != 0 {
            self.cur_selected = self.items.len() - 1;
            self.offset = if self.items.len() < self.height {
                0
            } else {
                self.items.len() - self.height
            };
        }
    }

    /// Jump to the first row.
    pub fn select_start(&mut self)
        requires
            old(self).wf(),
        ensures
            final(self)@ == spec_select_start(old(self)@),
            final(self).wf(),
    {
        self.cur_selected = 0;
        self.offset = 0;
    }

    /// Change the visible height, keeping the selection inside the window.
    pub fn resize(&mut self, height: usize)
        requires
            old(self).wf(),
            height >= 1,
        ensures
            final(self)@ == spec_resize(old(self)@, height as int),
            final(self).wf(),
    {
        self.height = height;
        if self.cur_selected - self.offset > height - 1 {
            self.cur_selected = self.offset + height - 1;
        }
    }

    /// The selected row's position.
    pub fn selected(&self) -> (r: usize)
        ensures
            r as int == self@.cur_selected,
    {
        self.cur_selected
    }

    /// The first visible row's position.
    pub fn offset(&self) -> (r: usize)
        ensures
            r as int == self@.offset,
    {
        self.offset
    }

    /// The column count.
    pub fn columns(&self) -> (r: usize)
        ensures
            r as int == self@.columns,
    {
        self.columns
    }

    /// The visible window's height in rows.
    pub fn height(&self) -> (r: usize)
        ensures
            r as int == self@.height,
    {
        self.height
    }

    /// How many rows the list holds.
    pub fn item_count(&self) -> (r: usize)
        ensures
            r == self@.items.len(),
    {
        self.items.len()
    }

    /// The row at position `i`.
    pub fn item(&self, i: usize) -> (r: &ListItem)
        requires
            i < self@.items.len(),
        ensures
            *r == self@.items[i as int],
    {
        &self.items[i]
    }
}

} // verus!
