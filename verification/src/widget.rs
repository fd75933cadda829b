//! List selection and scrolling state, and the player bar styles.
//!
//! The drawing itself happens outside the crate; what is kept here is the
//! arithmetic that decides which item is selected and how far the list is
//! scrolled.
use vstd::prelude::*;

use crate::Action;

verus! {

/// What a key press did to a list.
#[derive(Debug, Clone, Copy, PartialEq, Eq, Structural)]
pub enum ListEvent {
    Nope,
    Selected(usize),
    Chosen(usize),
    Scrolled(u16),
}

impl From<ListEvent> for Action {
    /// Any visible change asks for a redraw.
    fn from(value: ListEvent) -> (r: Action) {
        match value {
            ListEvent::Nope => Action::Nope,
            _ => Action::Draw,
        }
    }
}

impl vstd::std_specs::convert::FromSpecImpl<ListEvent> for Action {
    open spec fn obeys_from_spec() -> bool {
        true
    }

    open spec fn from_spec(value: ListEvent) -> Action {
        if value == ListEvent::Nope {
            Action::Nope
        } else {
            Action::Draw
        }
    }
}

/// How the player bar is rendered.
#[derive(Debug, Clone, Copy, PartialEq, Eq, Structural)]
pub enum PlayerStyle {
    Classic,
    ClassicReverse,
    Progress,
    Text,
}

impl Default for PlayerStyle {
    fn default() -> (r: PlayerStyle)
        ensures
            r == PlayerStyle::Classic,
    {
        PlayerStyle::Classic
    }
}

/// Caps an unbounded count at what fits in a `u16`.
pub open spec fn cap16(x: int) -> int {
    if x > 0xffff {
        0xffff
    } else {
        x
    }
}

/// `a - b`, stopping at zero.
pub open spec fn floor0(a: int, b: int) -> int {
    if a >= b {
        a - b
    } else {
        0
    }
}

/// Selection and scroll position of a vertical list.
#[derive(Debug, Clone)]
pub struct ListState {
    /// Index of the selected item.
    pub current: usize,
    /// First visible row, in items.
    pub scroll: u16,
    /// Rows kept visible above and below the selection.
    pub scrolloff: u16,
    /// Whether the list currently has focus.
    pub active: bool,
    /// Visible height of the list, in rows.
    pub height: u16,
    /// Height of one item, in rows.
    pub item_height: u16,
    /// Number of items.
    pub count: usize,
}

impl ListState {
    /// Scroll arithmetic divides by the item height, so it must not be zero.
    pub open spec fn wf(self) -> bool {
        self.item_height >= 1
    }

    /// The selection index clamped into the list.
    pub open spec fn spec_clamped(self, index: usize) -> int {
        if index as int <= floor0(self.count as int, 1) {
            index as int
        } else {
            floor0(self.count as int, 1)
        }
    }

    /// Visible rows counted in items, rounding to the nearest whole item.
    pub open spec fn spec_rows(self) -> int {
        if self.item_height == 1 {
            self.height as int
        } else {
            cap16((self.height as int + self.item_height as int / 2) / self.item_height as int)
        }
    }

    pub open spec fn spec_scroll_top(self) -> int {
        cap16(self.scroll as int + self.scrolloff as int)
    }

    pub open spec fn spec_scroll_bottom(self) -> int {
        cap16(self.scroll as int + floor0(self.spec_rows(), cap16(self.scrolloff as int + 1)))
    }

    pub open spec fn spec_scroll_height(self) -> int {
        floor0(cap16(self.count as int), self.height as int / self.item_height as int)
    }

    /// Where the list is scrolled to after selecting `index`.
    pub open spec fn spec_scroll_after_select(self, index: usize) -> int {
        let cur = cap16(self.spec_clamped(index));
        let top = self.spec_scroll_top();
        let bottom = self.spec_scroll_bottom();
        if cur >= bottom {
            self.spec_set_scroll(cap16(self.scroll as int + (cur - bottom)))
        } else if cur <= top {
            self.spec_set_scroll(floor0(self.scroll as int, top - cur))
        } else {
            self.scroll as int
        }
    }

    pub open spec fn spec_set_scroll(self, scroll: int) -> int {
        if scroll <= self.spec_scroll_height() {
            scroll
        } else {
            self.spec_scroll_height()
        }
    }

    /// The state every list starts from.
    pub open spec fn spec_initial() -> ListState {
        ListState {
            current: 0,
            scroll: 0,
            scrolloff: 2,
            active: true,
            height: 0,
            item_height: 1,
            count: 0,
        }
    }

    pub fn new() -> (r: ListState)
        ensures
            r == ListState::spec_initial(),
            r.wf(),
    {
        ListState {
            current: 0,
            scroll: 0,
            scrolloff: 2,
            active: true,
            height: 0,
            item_height: 1,
            count: 0,
        }
    }

    pub fn with_scrolloff(self, value: u16) -> (r: ListState)
        ensures
            r == (ListState { scrolloff: value, ..self }),
    {
        ListState { scrolloff: value, ..self }
    }

    /// Selects `index`, clamped into the list, and scrolls so that the
    /// selection stays within the scroll margins.
    pub fn select(&mut self, index: usize) -> (r: ListEvent)
        requires
            old(self).wf(),
        ensures
            final(self).current == old(self).spec_clamped(index),
            final(self).scroll == old(self).spec_scroll_after_select(index),
            *final(self) == (ListState {
                current: final(self).current,
                scroll: final(self).scroll,
                ..*old(self)
            }),
            r == ListEvent::Selected(final(self).current),
    {
        let limit = self.count.saturating_sub(1);
        let index = if index <= limit {
            index
        } else {
            limit
        };
        self.current = index;

        let cur: u16 = if self.current > 0xffff {
            0xffff
        } else {
            self.current as u16
        };
        let scroll_top = self.scroll_top();
        let scroll_bottom = self.scroll_bottom();

        if cur >= scroll_bottom {
            self.scroll_down(cur - scroll_bottom);
        } else if cur <= scroll_top {
            self.scroll_up(scroll_top - cur);
        }

        ListEvent::Selected(index)
    }

    pub fn select_next(&mut self, jump: usize) -> (r: ListEvent)
        requires
            old(self).wf(),
        ensures
            final(self).current == old(self).spec_clamped(old(self).current.saturating_add(jump)),
            final(self).scroll == old(self).spec_scroll_after_select(
                old(self).current.saturating_add(jump),
            ),
            *final(self) == (ListState {
                current: final(self).current,
                scroll: final(self).scroll,
                ..*old(self)
            }),
            r == ListEvent::Selected(final(self).current),
    {
        let target = self.current.saturating_add(jump);
        self.select(target)
    }

    pub fn select_prev(&mut self, jump: usize) -> (r: ListEvent)
        requires
            old(self).wf(),
        ensures
            final(self).current == old(self).spec_clamped(old(self).current.saturating_sub(jump)),
            final(self).scroll == old(self).spec_scroll_after_select(
                old(self).current.saturating_sub(jump),
            ),
            *final(self) == (ListState {
                current: final(self).current,
                scroll: final(self).scroll,
                ..*old(self)
            }),
            r == ListEvent::Selected(final(self).current),
    {
        let target = self.current.saturating_sub(jump);
        self.select(target)
    }

    pub fn select_first(&mut self) -> (r: ListEvent)
        requires
            old(self).wf(),
        ensures
            final(self).current == 0,
            final(self).scroll == old(self).spec_scroll_after_select(0),
            *final(self) == (ListState {
                current: final(self).current,
                scroll: final(self).scroll,
                ..*old(self)
            }),
            r == ListEvent::Selected(0),
    {
        self.select(0)
    }

    pub fn select_last(&mut self) -> (r: ListEvent)
        requires
            old(self).wf(),
        ensures
            final(self).current == old(self).spec_clamped(old(self).count),
            final(self).scroll == old(self).spec_scroll_after_select(old(self).count),
            *final(self) == (ListState {
                current: final(self).current,
                scroll: final(self).scroll,
                ..*old(self)
            }),
            r == ListEvent::Selected(final(self).current),
    {
        let target = self.count;
        self.select(target)
    }

    /// Scrolls to `scroll`, clamped so the list never scrolls past its end.
    pub fn set_scroll(&mut self, scroll: u16) -> (r: ListEvent)
        requires
            old(self).wf(),
        ensures
            final(self).scroll == old(self).spec_set_scroll(scroll as int),
            *final(self) == (ListState { scroll: final(self).scroll, ..*old(self) }),
            r == ListEvent::Scrolled(final(self).scroll),
    {
        let limit = self.scroll_height();
        let scroll = if scroll <= limit {
            scroll
        } else {
            limit
        };
        self.scroll = scroll;
        ListEvent::Scrolled(scroll)
    }

    pub fn scroll_up(&mut self, speed: u16) -> (r: ListEvent)
        requires
            old(self).wf(),
        ensures
            final(self).scroll == old(self).spec_set_scroll(
                floor0(old(self).scroll as int, speed as int),
            ),
            *final(self) == (ListState { scroll: final(self).scroll, ..*old(self) }),
            r == ListEvent::Scrolled(final(self).scroll),
    {
        let target = self.scroll.saturating_sub(speed);
        self.set_scroll(target)
    }

    pub fn scroll_down(&mut self, speed: u16) -> (r: ListEvent)
        requires
            old(self).wf(),
        ensures
            final(self).scroll == old(self).spec_set_scroll(
                cap16(old(self).scroll as int + speed as int),
            ),
            *final(self) == (ListState { scroll: final(self).scroll, ..*old(self) }),
            r == ListEvent::Scrolled(final(self).scroll),
    {
        let target = self.scroll.saturating_add(speed);
        self.set_scroll(target)
    }

    pub fn current(&self) -> (r: usize)
        ensures
            r == self.current,
    {
        self.current
    }

    pub fn count(&self) -> (r: usize)
        ensures
            r == self.count,
    {
        self.count
    }

    pub fn height(&self) -> (r: u16)
        ensures
            r == self.height,
    {
        self.height
    }

    pub fn scroll(&self) -> (r: u16)
        ensures
            r == self.scroll,
    {
        self.scroll
    }

    /// First row of the scroll margin: the selection is kept below it.
    pub fn scroll_top(&self) -> (r: u16)
        ensures
            r == self.spec_scroll_top(),
    {
        self.scroll.saturating_add(self.scrolloff)
    }

    /// Last row of the scroll margin: the selection is kept above it.
    pub fn scroll_bottom(&self) -> (r: u16)
        requires
            self.wf(),
        ensures
            r == self.spec_scroll_bottom(),
    {
        let rows: u16 = if self.item_height == 1 {
            self.height
        } else {
            let q: u32 = ((self.height as u32) + (self.item_height as u32) / 2)
                / (self.item_height as u32);
            if q > 0xffff {
                0xffff
            } else {
                q as u16
            }
        };
        self.scroll.saturating_add(rows.saturating_sub(self.scrolloff.saturating_add(1)))
    }

    /// How far the list can be scrolled at most.
    pub fn scroll_height(&self) -> (r: u16)
        requires
            self.wf(),
        ensures
            r == self.spec_scroll_height(),
    {
        let shown: u16 = if self.count > 0xffff {
            0xffff
        } else {
            self.count as u16
        };
        shown.saturating_sub(self.height / self.item_height)
    }
}

} // verus!
