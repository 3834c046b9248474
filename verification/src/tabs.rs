//! Tab navigation state of the full-screen interface mode: a zero-based
//! tab pointer that wraps around, and the scroll row of the current tab.
//! Rendering itself is left to the surrounding application.

use vstd::prelude::*;

use crate::session::{KeyEvent, KeyModifiers};

verus! {

/// Zero-based, wrap-around tab navigation.
pub struct Tab {
    max: usize,
    current: usize,
}

/// Abstract state of the tab pointer.
pub ghost struct TabV {
    /// Largest selectable index (tab count minus one).
    pub max: int,
    /// The selected index.
    pub current: int,
}

impl View for Tab {
    type V = TabV;

    closed spec fn view(&self) -> TabV {
        TabV { max: self.max as int, current: self.current as int }
    }
}

impl Tab {
    /// The selected index never leaves `0 ..= max`.
    pub open spec fn wf(self) -> bool {
        0 <= self@.current <= self@.max
    }

    /// Navigation over `tab_count` tabs, the first selected. There must be
    /// at least one tab.
    pub fn new(tab_count: usize) -> (r: Tab)
        requires
            tab_count >= 1,
        ensures
            r@.max == tab_count - 1,
            r@.current == 0,
            r.wf(),
    {
        Tab { max: tab_count - 1, current: 0 }
    }

    /// Select the next tab, wrapping from the last to the first.
    pub fn next(&mut self)
        requires
            old(self).wf(),
        ensures
            final(self).wf(),
            final(self)@.max == old(self)@.max,
            final(self)@.current == if old(self)@.current == old(self)@.max {
                0int
            } else {
                old(self)@.current + 1
            },
    {
        if self.current == self.max {
            self.current = 0;
        } else {
            self.current = self.current + 1;
        }
    }

    /// Select the previous tab, wrapping from the first to the last.
    pub fn prev(&mut self)
        requires
            old(self).wf(),
        ensures
            final(self).wf(),
            final(self)@.max == old(self)@.max,
            final(self)@.current == if old(self)@.current == 0 {
                old(self)@.max
            } else {
                old(self)@.current - 1
            },
    {
        if self.current == 0 {
            self.current = self.max;
        } else {
            self.current = self.current - 1;
        }
    }

    /// The selected index.
    pub fn get_current(&self) -> (r: usize)
        ensures
            r == self@.current,
    {
        self.current
    }
}

/// State of the full-screen interface: the selected tab and the scroll row.
pub struct State {
    pub tab: Tab,
    pub row_index: usize,
}

impl State {
    /// A fresh state over `tab_count` tabs.
    pub fn new(tab_count: usize) -> (r: State)
        requires
            tab_count >= 1,
        ensures
            r.tab@.max == tab_count - 1,
            r.tab@.current == 0,
            r.tab.wf(),
            r.row_index == 0,
    {
        State { tab: Tab::new(tab_count), row_index: 0 }
    }

    /// Process one key event: Tab and BackTab cycle the tabs, Up and Down
    /// move the scroll row (clamped at its bounds), and Escape or `q` asks
    /// the caller to leave this mode. Returns whether to leave.
    pub fn handle_event(&mut self, event: KeyEvent) -> (r: bool)
        requires
            old(self).tab.wf(),
        ensures
            final(self).tab.wf(),
            final(self).tab@.max == old(self).tab@.max,
            match event {
                KeyEvent::Tab => {
                    &&& final(self).tab@.current == if old(self).tab@.current == old(
                        self,
                    ).tab@.max {
                        0int
                    } else {
                        old(self).tab@.current + 1
                    }
                    &&& final(self).row_index == old(self).row_index
                    &&& !r
                },
                KeyEvent::BackTab => {
                    &&& final(self).tab@.current == if old(self).tab@.current == 0 {
                        old(self).tab@.max
                    } else {
                        old(self).tab@.current - 1
                    }
                    &&& final(self).row_index == old(self).row_index
                    &&& !r
                },
                KeyEvent::Up => {
                    &&& final(self).tab@ == old(self).tab@
                    &&& final(self).row_index == if old(self).row_index == usize::MAX {
                        old(self).row_index as int
                    } else {
                        old(self).row_index + 1
                    }
                    &&& !r
                },
                KeyEvent::Down => {
                    &&& final(self).tab@ == old(self).tab@
                    &&& final(self).row_index == if old(self).row_index == 0 {
                        0int
                    } else {
                        old(self).row_index - 1
                    }
                    &&& !r
                },
                KeyEvent::Esc => {
                    &&& final(self).tab@ == old(self).tab@
                    &&& final(self).row_index == old(self).row_index
                    &&& r
                },
                KeyEvent::Char(c, m) => {
                    &&& final(self).tab@ == old(self).tab@
                    &&& final(self).row_index == old(self).row_index
                    &&& r == (c == 'q' && m == KeyModifiers::Plain)
                },
                _ => {
                    &&& final(self).tab@ == old(self).tab@
                    &&& final(self).row_index == old(self).row_index
                    &&& !r
                },
            },
    {
        match event {
            KeyEvent::Tab => {
                self.tab.next();
                false
            },
            KeyEvent::BackTab => {
                self.tab.prev();
                false
            },
            KeyEvent::Up => {
                if self.row_index < usize::MAX {
                    self.row_index = self.row_index + 1;
                }
                false
            },
            KeyEvent::Down => {
                if self.row_index > 0 {
                    self.row_index = self.row_index - 1;
                }
                false
            },
            KeyEvent::Esc => true,
            KeyEvent::Char(c, m) => c == 'q' && matches!(m, KeyModifiers::Plain),
            _ => false,
        }
    }
}

} // verus!
