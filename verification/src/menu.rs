//! The modal menu: an ordered, non-empty list of labeled items with a
//! cursor and a visibility flag. Cursor moves clamp at the ends — no
//! wraparound — and hiding the menu resets the cursor to the first item.
use vstd::prelude::*;

verus! {

/// A menu: its title, its labeled items in order, the cursor, and whether
/// it is currently shown.
pub struct Menu {
    pub title: String,
    pub items: Vec<String>,
    pub selected: usize,
    pub visible: bool,
}

impl Menu {
    /// The menu invariant: at least one item, and the cursor always inside
    /// `[0, item count)`.
    pub open spec fn wf(self) -> bool {
        &&& self.items@.len() >= 1
        &&& self.selected < self.items@.len()
    }

    /// Creates a hidden menu with the cursor on the first item. The item
    /// list is validated up front: it must be non-empty.
    pub fn new(title: String, items: Vec<String>) -> (r: Menu)
        requires
            items@.len() >= 1,
        ensures
            r.title@ == title@,
            r.items@ == items@,
            r.selected == 0,
            r.visible == false,
            r.wf(),
    {
        Menu { title, items, selected: 0, visible: false }
    }

    /// Marks the menu as shown; the items and the cursor are untouched.
    pub fn show_menu(&mut self)
        ensures
            final(self).visible == true,
            final(self).selected == old(self).selected,
            final(self).items@ == old(self).items@,
            final(self).title@ == old(self).title@,
    {
        self.visible = true;
    }

    /// Moves the cursor one item down; at the last item this is a no-op.
    pub fn move_down(&mut self)
        requires
            old(self).wf(),
        ensures
            final(self).selected == if old(self).selected + 1 < old(self).items@.len() {
                old(self).selected + 1
            } else {
                old(self).selected as int
            },
            final(self).items@ == old(self).items@,
            final(self).title@ == old(self).title@,
            final(self).visible == old(self).visible,
            final(self).wf(),
    {
        if self.selected < self.items.len() - 1 {
            self.selected = self.selected + 1;
        }
    }

    /// Moves the cursor one item up; at the first item this is a no-op.
    pub fn move_up(&mut self)
        requires
            old(self).wf(),
        ensures
            final(self).selected == if old(self).selected != 0 {
                old(self).selected - 1
            } else {
                0int
            },
            final(self).items@ == old(self).items@,
            final(self).title@ == old(self).title@,
            final(self).visible == old(self).visible,
            final(self).wf(),
    {
        if self.selected != 0 {
            self.selected = self.selected - 1;
        }
    }

    /// The item the cursor currently rests on.
    pub fn return_selected_index(&self) -> (r: usize)
        ensures
            r == self.selected,
    {
        self.selected
    }

    /// Hides the menu and resets the cursor to the first item.
    pub fn hide_menu(&mut self)
        ensures
            final(self).visible == false,
            final(self).selected == 0,
            final(self).items@ == old(self).items@,
            final(self).title@ == old(self).title@,
            old(self).wf() ==> final(self).wf(),
    {
        self.visible = false;
        self.selected = 0;
    }
}

} // verus!
