//! What the plugin remembers of one workspace: the tab that has the focus and the
//! one that had it before.

use crate::herdr;
use crate::herdr::TabSnapshot;
use crate::text;
use crate::text::{copy_opt_text, same_opt_text, same_text};
use vstd::prelude::*;

verus! {

/// What is remembered of a workspace.
#[derive(Debug, Clone, PartialEq, Eq)]
pub enum Memory {
    Empty,
    Current { current: String, last: Option<String> },
}

/// What is remembered of a workspace, with ids as characters.
pub enum Remembered {
    Empty,
    Current { current: Seq<char>, last: Option<Seq<char>> },
}

impl View for Memory {
    type V = Remembered;

    open spec fn view(&self) -> Remembered {
        match self {
            Memory::Empty => Remembered::Empty,
            Memory::Current { current, last } => Remembered::Current {
                current: current@,
                last: text::opt_text(*last),
            },
        }
    }
}

impl Remembered {
    /// Ids are not empty, and the last tab is not the current one.
    pub open spec fn valid(self) -> bool {
        match self {
            Remembered::Empty => true,
            Remembered::Current { current, last } => {
                &&& current.len() > 0
                &&& last matches Some(last) ==> last.len() > 0 && last != current
            },
        }
    }

    /// Whether a tab is remembered, as the current one or as the last one.
    pub open spec fn mentions(self, tab_id: Seq<char>) -> bool {
        match self {
            Remembered::Empty => false,
            Remembered::Current { current, last } => current == tab_id || last == Some(tab_id),
        }
    }

    /// After a tab got the focus: it is the current one, and the one that was
    /// current before, if it was another, is the last one.
    pub open spec fn after_focus(self, tab_id: Seq<char>) -> Remembered {
        match self {
            Remembered::Current { current, .. } => if current == tab_id {
                self
            } else {
                Remembered::Current { current: tab_id, last: Some(current) }
            },
            Remembered::Empty => Remembered::Current { current: tab_id, last: None },
        }
    }

    /// After a tab was closed: if it was the current one, the tab that has the focus
    /// now takes its place, and nothing is remembered if none has. A last tab
    /// that is gone, or that became the current one, is forgotten.
    pub open spec fn after_close(
        self,
        closed: Seq<char>,
        focused: Option<Seq<char>>,
    ) -> Remembered {
        match self {
            Remembered::Empty => Remembered::Empty,
            Remembered::Current { current, last } => {
                let now_current = if current == closed {
                    focused
                } else {
                    Some(current)
                };
                match now_current {
                    None => Remembered::Empty,
                    Some(now_current) => Remembered::Current {
                        current: now_current,
                        last: if last == Some(closed) || last == Some(now_current) {
                            None
                        } else {
                            last
                        },
                    },
                }
            },
        }
    }

    /// The tab to go back to from `current_tab`: the last one, if it is still there
    /// and is not the one we are on.
    pub open spec fn toggle_target(
        self,
        current_tab: Seq<char>,
        tabs: Seq<herdr::Listed>,
    ) -> Option<Seq<char>> {
        match self {
            Remembered::Current { last: Some(last), .. } => if herdr::lists(tabs, last) && last
                != current_tab {
                Some(last)
            } else {
                None
            },
            _ => None,
        }
    }

    /// What a toggle from `current_tab` leaves to be remembered instead, if it
    /// changes anything: where nothing was remembered, the current tab, and where
    /// there is no going back to the last tab, no last tab.
    pub open spec fn toggle_update(
        self,
        current_tab: Seq<char>,
        tabs: Seq<herdr::Listed>,
    ) -> Option<Remembered> {
        match self {
            Remembered::Empty => Some(Remembered::Current { current: current_tab, last: None }),
            Remembered::Current { last: None, .. } => None,
            Remembered::Current { current, last: Some(_) } => if self.toggle_target(
                current_tab,
                tabs,
            ) is Some {
                None
            } else {
                Some(Remembered::Current { current, last: None })
            },
        }
    }
}

impl Memory {
    /// What is remembered after a tab got the focus.
    pub fn after_focus(self, tab_id: &str) -> (next: Memory)
        ensures
            next@ == self@.after_focus(tab_id@),
    {
        match self {
            Memory::Empty => Memory::Current { current: tab_id.to_owned(), last: None },
            Memory::Current { current, last } => if same_text(current.as_str(), tab_id) {
                Memory::Current { current, last }
            } else {
                Memory::Current { current: tab_id.to_owned(), last: Some(current) }
            },
        }
    }

    /// What is remembered after a tab was closed.
    pub fn after_close(self, closed_tab_id: &str, focused_tab_id: &Option<String>) -> (next: Memory)
        ensures
            next@ == self@.after_close(closed_tab_id@, text::opt_text(*focused_tab_id)),
    {
        match self {
            Memory::Empty => Memory::Empty,
            Memory::Current { current, last } => {
                let now_current = if same_text(current.as_str(), closed_tab_id) {
                    copy_opt_text(focused_tab_id)
                } else {
                    Some(current)
                };
                match now_current {
                    Some(now_current) => {
                        let last = match last {
                            Some(last) => if same_text(last.as_str(), closed_tab_id)
                                || same_text(last.as_str(), now_current.as_str()) {
                                None
                            } else {
                                Some(last)
                            },
                            None => None,
                        };
                        Memory::Current { current: now_current, last }
                    },
                    None => Memory::Empty,
                }
            },
        }
    }

    /// The tab to go back to, and what is to be remembered instead if the toggle
    /// changes that.
    pub fn toggle(self, current_tab_id: &str, tabs: &TabSnapshot) -> (toggled: (
        Option<Memory>,
        Option<String>,
    ))
        ensures
            opt_memory(toggled.0) == self@.toggle_update(current_tab_id@, tabs@),
            text::opt_text(toggled.1) == self@.toggle_target(current_tab_id@, tabs@),
    {
        match self {
            Memory::Empty => (
                Some(Memory::Current { current: current_tab_id.to_owned(), last: None }),
                None,
            ),
            Memory::Current { current, last } => match last {
                None => (None, None),
                Some(last) => if !tabs.contains_tab(last.as_str()) || same_text(
                    last.as_str(),
                    current_tab_id,
                ) {
                    (Some(Memory::Current { current, last: None }), None)
                } else {
                    (None, Some(last))
                },
            },
        }
    }
}

/// What is remembered, if anything is given.
pub open spec fn opt_memory(memory: Option<Memory>) -> Option<Remembered> {
    match memory {
        Some(memory) => Some(memory@),
        None => None,
    }
}

/// What the state file holds for one workspace.
#[derive(Debug, PartialEq, Eq)]
pub struct WorkspaceTabState {
    pub current_tab_id: Option<String>,
    pub last_tab_id: Option<String>,
}

/// What the state file holds for one workspace, with ids as characters.
pub struct Stored {
    pub current_tab_id: Option<Seq<char>>,
    pub last_tab_id: Option<Seq<char>>,
}

impl View for WorkspaceTabState {
    type V = Stored;

    open spec fn view(&self) -> Stored {
        Stored {
            current_tab_id: text::opt_text(self.current_tab_id),
            last_tab_id: text::opt_text(self.last_tab_id),
        }
    }
}

/// An id that is not empty.
pub open spec fn real_id(id: Option<Seq<char>>) -> Option<Seq<char>> {
    match id {
        Some(id) => if id.len() > 0 {
            Some(id)
        } else {
            None
        },
        None => None,
    }
}

impl Stored {
    /// What is stored for a workspace of which nothing is known.
    pub open spec fn blank() -> Stored {
        Stored { current_tab_id: None, last_tab_id: None }
    }

    /// How a memory is stored.
    pub open spec fn of(memory: Remembered) -> Stored {
        match memory {
            Remembered::Empty => Stored::blank(),
            Remembered::Current { current, last } => Stored {
                current_tab_id: Some(current),
                last_tab_id: last,
            },
        }
    }

    /// The memory that is stored. An empty id stands for none, a last tab needs a
    /// current one, and it must be another.
    pub open spec fn memory(self) -> Remembered {
        match real_id(self.current_tab_id) {
            None => Remembered::Empty,
            Some(current) => Remembered::Current {
                current,
                last: if real_id(self.last_tab_id) == Some(current) {
                    None
                } else {
                    real_id(self.last_tab_id)
                },
            },
        }
    }
}

impl Default for WorkspaceTabState {
    fn default() -> (stored: Self)
        ensures
            stored@ == Stored::blank(),
    {
        Self { current_tab_id: None, last_tab_id: None }
    }
}

impl Clone for WorkspaceTabState {
    fn clone(&self) -> (copy: Self)
        ensures
            copy@ == self@,
    {
        Self {
            current_tab_id: copy_opt_text(&self.current_tab_id),
            last_tab_id: copy_opt_text(&self.last_tab_id),
        }
    }
}

fn nonempty(id: Option<String>) -> (id_or_none: Option<String>)
    ensures
        text::opt_text(id_or_none) == real_id(text::opt_text(id)),
{
    match id {
        Some(id) => if id.as_str().is_empty() {
            None
        } else {
            Some(id)
        },
        None => None,
    }
}

impl WorkspaceTabState {
    /// Stores a memory.
    pub fn from_memory(memory: &Memory) -> (stored: Self)
        ensures
            stored@ == Stored::of(memory@),
    {
        match memory {
            Memory::Empty => Self { current_tab_id: None, last_tab_id: None },
            Memory::Current { current, last } => Self {
                current_tab_id: Some(current.clone()),
                last_tab_id: copy_opt_text(last),
            },
        }
    }

    /// Reads a memory back.
    pub fn into_memory(self) -> (memory: Memory)
        ensures
            memory@ == self@.memory(),
            memory@.valid(),
    {
        let current = nonempty(self.current_tab_id);
        let last = nonempty(self.last_tab_id);
        match current {
            Some(current) => {
                let last = match last {
                    Some(last) => if same_text(last.as_str(), current.as_str()) {
                        None
                    } else {
                        Some(last)
                    },
                    None => None,
                };
                Memory::Current { current, last }
            },
            None => Memory::Empty,
        }
    }

    /// Whether the same is stored in both.
    pub fn same(&self, other: &Self) -> (same: bool)
        ensures
            same == (self@ == other@),
    {
        same_opt_text(&self.current_tab_id, &other.current_tab_id) && same_opt_text(
            &self.last_tab_id,
            &other.last_tab_id,
        )
    }
}

} // verus!
