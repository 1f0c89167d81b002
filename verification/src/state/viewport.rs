//! Scrolling and moving the row selection, with the window kept round the
//! selection.

use crate::state::{ApplicationState, StateModel};
use crate::state::model_of;
use vstd::prelude::*;

verus! {

/// The scroll offset that shows `selected` in a window of `window` lines
/// which began at `scroll`: the selection itself where it lay before the
/// window, the offset that puts it on the last line where it lay behind,
/// and `scroll` where it was in view already.
pub open spec fn scrolled_to_show(scroll: int, selected: int, window: int) -> int {
    if selected < scroll {
        selected
    } else if selected >= scroll + window {
        selected - window + 1
    } else {
        scroll
    }
}

/// One step further, as long as `window` lines from there do not reach the
/// end at `max`.
pub open spec fn stepped_forward(scroll: int, max: int, window: int) -> int {
    if scroll + window < max {
        scroll + 1
    } else {
        scroll
    }
}

/// One step back, down to zero.
pub open spec fn stepped_back(scroll: int) -> int {
    if scroll > 0 {
        scroll - 1
    } else {
        0
    }
}

/// The offset after a page down from `scroll`: a whole page further where
/// the window still fits, else the last offset at which it does, else
/// where it was.
pub open spec fn paged_down(scroll: int, page: int, max: int, window: int) -> int {
    if scroll + page + window <= max {
        scroll + page
    } else if max > window {
        max - window
    } else {
        scroll
    }
}

/// After showing the selection it lies inside the window, if the window
/// has any line at all.
pub proof fn lemma_scrolled_to_show_contains(scroll: int, selected: int, window: int)
    requires
        window > 0,
        0 <= selected,
        0 <= scroll,
    ensures
        0 <= scrolled_to_show(scroll, selected, window) <= selected < scrolled_to_show(
            scroll,
            selected,
            window,
        ) + window,
{
}

/// `scrolled_to_show`, computed without overflow.
pub fn scroll_to_show(scroll: usize, selected: usize, window: usize) -> (offset: usize)
    requires
        window == 0 ==> selected < usize::MAX,
    ensures
        offset == scrolled_to_show(scroll as int, selected as int, window as int),
{
    if selected < scroll {
        selected
    } else if selected - scroll >= window {
        selected - window + 1
    } else {
        scroll
    }
}

/// `stepped_forward`, computed without overflow.
pub fn step_forward(scroll: usize, max: usize, window: usize) -> (offset: usize)
    ensures
        offset == stepped_forward(scroll as int, max as int, window as int),
{
    if window < max && scroll < max - window {
        scroll + 1
    } else {
        scroll
    }
}

/// `paged_down`, computed without overflow.
pub fn page_down(scroll: usize, page: usize, max: usize, window: usize) -> (offset: usize)
    ensures
        offset == paged_down(scroll as int, page as int, max as int, window as int),
{
    let fits = match scroll.checked_add(page) {
        Some(new_scroll) => match new_scroll.checked_add(window) {
            Some(end) => end <= max,
            None => false,
        },
        None => false,
    };
    if fits {
        scroll + page
    } else if max > window {
        max - window
    } else {
        scroll
    }
}

impl ApplicationState {
    /// Scrolls one column to the left.
    pub fn scroll_table_left(&mut self)
        ensures
            final(self)@ == (StateModel {
                scroll_x: stepped_back(old(self)@.scroll_x as int) as usize,
                ..old(self)@
            }),
    {
        proof {
            reveal(model_of);
        }
        if self.scroll_x > 0 {
            self.scroll_x -= 1;
        }
    }

    /// Scrolls one column to the right while columns are left beyond the
    /// window.
    pub fn scroll_table_right(&mut self, max_columns: usize, visible_columns: usize)
        ensures
            final(self)@ == (StateModel {
                scroll_x: stepped_forward(
                    old(self)@.scroll_x as int,
                    max_columns as int,
                    visible_columns as int,
                ) as usize,
                ..old(self)@
            }),
    {
        proof {
            reveal(model_of);
        }
        self.scroll_x = step_forward(self.scroll_x, max_columns, visible_columns);
    }

    /// Scrolls one row up.
    pub fn scroll_table_up(&mut self)
        ensures
            final(self)@ == (StateModel {
                scroll_y: stepped_back(old(self)@.scroll_y as int) as usize,
                ..old(self)@
            }),
    {
        proof {
            reveal(model_of);
        }
        if self.scroll_y > 0 {
            self.scroll_y -= 1;
        }
    }

    /// Scrolls one row down while rows are left below the window.
    pub fn scroll_table_down(&mut self, max_rows: usize, visible_rows: usize)
        ensures
            final(self)@ == (StateModel {
                scroll_y: stepped_forward(
                    old(self)@.scroll_y as int,
                    max_rows as int,
                    visible_rows as int,
                ) as usize,
                ..old(self)@
            }),
    {
        proof {
            reveal(model_of);
        }
        self.scroll_y = step_forward(self.scroll_y, max_rows, visible_rows);
    }

    /// Scrolls a page up, down to the first row.
    pub fn page_table_up(&mut self)
        ensures
            final(self)@ == (StateModel {
                scroll_y: if old(self)@.scroll_y >= old(self)@.page_size {
                    (old(self)@.scroll_y - old(self)@.page_size) as usize
                } else {
                    0
                },
                ..old(self)@
            }),
    {
        proof {
            reveal(model_of);
        }
        self.scroll_y = self.scroll_y.saturating_sub(self.page_size);
    }

    /// Scrolls a page down, at most to where the window ends with the last
    /// row.
    pub fn page_table_down(&mut self, max_rows: usize, visible_rows: usize)
        ensures
            final(self)@ == (StateModel {
                scroll_y: paged_down(
                    old(self)@.scroll_y as int,
                    old(self)@.page_size as int,
                    max_rows as int,
                    visible_rows as int,
                ) as usize,
                ..old(self)@
            }),
    {
        proof {
            reveal(model_of);
        }
        self.scroll_y = page_down(self.scroll_y, self.page_size, max_rows, visible_rows);
    }

    /// Scrolls so that the selected row lies inside a window of
    /// `visible_rows` rows. With a window of at least one row the selection
    /// is in view afterwards.
    pub fn ensure_selection_visible(&mut self, visible_rows: usize)
        requires
            visible_rows == 0 ==> old(self).selected_row < usize::MAX,
        ensures
            final(self)@ == (StateModel {
                scroll_y: scrolled_to_show(
                    old(self)@.scroll_y as int,
                    old(self)@.selected_row as int,
                    visible_rows as int,
                ) as usize,
                ..old(self)@
            }),
            visible_rows > 0 ==> final(self)@.scroll_y <= final(self)@.selected_row,
            visible_rows > 0 ==> final(self)@.selected_row < final(self)@.scroll_y + visible_rows,
    {
        proof {
            reveal(model_of);
        }
        self.scroll_y = scroll_to_show(self.scroll_y, self.selected_row, visible_rows);
    }

    /// Scrolls so that the selected column lies inside a window of
    /// `visible_columns` columns, counted among the visible columns.
    /// Without a selected column that is on display nothing happens. With
    /// a window of at least one column the selection is in view
    /// afterwards.
    pub fn ensure_column_selection_visible(&mut self, visible_columns: usize)
        ensures
            final(self)@ == match old(self)@.visible_index() {
                Some(i) => StateModel {
                    scroll_x: scrolled_to_show(
                        old(self)@.scroll_x as int,
                        i,
                        visible_columns as int,
                    ) as usize,
                    ..old(self)@
                },
                None => old(self)@,
            },
            visible_columns > 0 && old(self)@.visible_index() is Some ==> final(self)@.scroll_x
                <= old(self)@.visible_index()->0 < final(self)@.scroll_x + visible_columns,
    {
        proof {
            reveal(crate::state::model_of);
        }
        let scroll_x = match self.get_selected_visible_index() {
            Some(i) => {
                let visible = self.get_visible_column_names();
                assert(i < visible.len()) by {
                    visible.deep_view().index_of_first_ensures(self@.selected_column->0);
                }
                scroll_to_show(self.scroll_x, i, visible_columns)
            },
            None => self.scroll_x,
        };
        self.scroll_x = scroll_x;
    }

    /// Moves the selection one row up and scrolls up with it where it
    /// leaves the window.
    pub fn move_selected_up(&mut self)
        ensures
            final(self)@ == if old(self)@.selected_row > 0 {
                StateModel {
                    selected_row: (old(self)@.selected_row - 1) as usize,
                    scroll_y: if old(self)@.selected_row - 1 < old(self)@.scroll_y {
                        (old(self)@.selected_row - 1) as usize
                    } else {
                        old(self)@.scroll_y
                    },
                    ..old(self)@
                }
            } else {
                old(self)@
            },
    {
        proof {
            reveal(model_of);
        }
        if self.selected_row > 0 {
            self.selected_row -= 1;
            if self.selected_row < self.scroll_y {
                self.scroll_y = self.selected_row;
            }
        }
    }

    /// Moves the selection one row down, as long as a row is left among
    /// `max_rows`, and scrolls so that it stays in view.
    pub fn move_selected_down(&mut self, max_rows: usize, visible_rows: usize)
        ensures
            final(self)@ == if old(self)@.selected_row + 1 < max_rows {
                StateModel {
                    selected_row: (old(self)@.selected_row + 1) as usize,
                    scroll_y: scrolled_to_show(
                        old(self)@.scroll_y as int,
                        old(self)@.selected_row + 1,
                        visible_rows as int,
                    ) as usize,
                    ..old(self)@
                }
            } else {
                old(self)@
            },
            old(self)@.selected_row + 1 < max_rows && visible_rows > 0 ==> final(self)@.scroll_y
                <= final(self)@.selected_row,
            old(self)@.selected_row + 1 < max_rows && visible_rows > 0 ==> final(
                self
            )@.selected_row < final(self)@.scroll_y + visible_rows,
    {
        proof {
            reveal(model_of);
        }
        if max_rows > 0 && self.selected_row < max_rows - 1 {
            self.selected_row += 1;
            self.ensure_selection_visible(visible_rows);
        }
    }
}

} // verus!
