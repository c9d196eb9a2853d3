//! The explorer: the tree list together with its scroll position and the
//! state of the details panel.

use crate::keys::{TreeCommand, PAGE_LINES};
use crate::node::{DataNode, DatasetInfo};
use crate::tree::{group_paths, TreeItem, TreeModel, TreeState};
use vstd::prelude::*;

verus! {

/// What an explorer holds, as plain mathematical values.
pub struct ExplorerModel {
    /// The tree list.
    pub tree: TreeModel,
    /// Index of the first line on screen.
    pub scroll_offset: usize,
    /// Whether the details panel is shown.
    pub show_preview: bool,
    /// First line of the details panel on screen.
    pub preview_scroll: u16,
}

/// The scroll offset that keeps `cursor` on screen with the least movement:
/// unchanged for an empty viewport or a cursor that is on screen already,
/// the cursor if it is above the screen, and the offset that puts the cursor
/// on the last line of the screen if it is below.
pub open spec fn scroll_to_show(scroll: usize, cursor: usize, viewport_height: usize) -> usize {
    if viewport_height == 0 {
        scroll
    } else if cursor < scroll {
        cursor
    } else if cursor >= scroll + viewport_height {
        (cursor - (viewport_height - 1)) as usize
    } else {
        scroll
    }
}

/// After the scroll offset was adjusted for a viewport that is not empty,
/// the cursor is on screen.
pub proof fn lemma_scroll_shows_cursor(scroll: usize, cursor: usize, viewport_height: usize)
    requires
        viewport_height > 0,
    ensures
        scroll_to_show(scroll, cursor, viewport_height) <= cursor < scroll_to_show(
            scroll,
            cursor,
            viewport_height,
        ) + viewport_height,
        scroll <= cursor < scroll + viewport_height ==> scroll_to_show(
            scroll,
            cursor,
            viewport_height,
        ) == scroll,
{
}

/// Computes `scroll_to_show`.
pub fn adjusted_scroll(scroll: usize, cursor: usize, viewport_height: usize) -> (r: usize)
    ensures
        r == scroll_to_show(scroll, cursor, viewport_height),
{
    if viewport_height == 0 {
        scroll
    } else if cursor < scroll {
        cursor
    } else if cursor - scroll >= viewport_height {
        cursor - (viewport_height - 1)
    } else {
        scroll
    }
}

/// State of the explorer.
#[derive(Debug)]
pub struct ExplorerState {
    tree: TreeState,
    scroll_offset: usize,
    /// Whether the details panel is shown.
    pub show_preview: bool,
    /// First line of the details panel on screen.
    pub preview_scroll: u16,
}

/// How far one key press scrolls the details panel.
pub const PREVIEW_STEP: u16 = 5;

impl ExplorerState {
    /// What the explorer holds, as plain mathematical values.
    pub closed spec fn view(&self) -> ExplorerModel {
        ExplorerModel {
            tree: self.tree@,
            scroll_offset: self.scroll_offset,
            show_preview: self.show_preview,
            preview_scroll: self.preview_scroll,
        }
    }

    /// The stored lines are the visible lines of the stored tree.
    pub closed spec fn inv(&self) -> bool {
        self.tree.inv()
    }

    /// An explorer without a tree, with the details panel shown.
    pub fn new() -> (r: ExplorerState)
        ensures
            r.inv(),
            r@ == (ExplorerModel {
                tree: TreeModel { root: None, expanded: Set::empty(), cursor: 0 },
                scroll_offset: 0,
                show_preview: true,
                preview_scroll: 0,
            }),
    {
        ExplorerState { tree: TreeState::new(), scroll_offset: 0, show_preview: true, preview_scroll: 0 }
    }

    /// Lists the tree of `dataset` with only its root expanded and the
    /// cursor on the first line.
    pub fn build_from_dataset(&mut self, dataset: &DatasetInfo)
        ensures
            final(self).inv(),
            final(self)@ == (ExplorerModel {
                tree: TreeModel {
                    root: Some(dataset.root_node.deep()),
                    expanded: Set::empty().insert(dataset.root_node.path@),
                    cursor: 0,
                },
                ..old(self)@
            }),
    {
        self.tree.build_from_dataset(dataset);
    }

    /// Moves the cursor up one line, if it is not on the first; the details
    /// panel then starts from its top.
    pub fn cursor_up(&mut self)
        requires
            old(self).inv(),
        ensures
            final(self).inv(),
            final(self)@ == if old(self)@.tree.cursor > 0 {
                ExplorerModel {
                    tree: TreeModel {
                        cursor: (old(self)@.tree.cursor - 1) as usize,
                        ..old(self)@.tree
                    },
                    preview_scroll: 0,
                    ..old(self)@
                }
            } else {
                old(self)@
            },
    {
        if self.tree.cursor() > 0 {
            self.tree.cursor_up();
            self.preview_scroll = 0;
        }
    }

    /// Moves the cursor down one line, if there is a line below it; the
    /// details panel then starts from its top.
    pub fn cursor_down(&mut self)
        requires
            old(self).inv(),
        ensures
            final(self).inv(),
            final(self)@ == if old(self)@.tree.cursor + 1 < old(self)@.tree.items().len() {
                ExplorerModel {
                    tree: TreeModel {
                        cursor: (old(self)@.tree.cursor + 1) as usize,
                        ..old(self)@.tree
                    },
                    preview_scroll: 0,
                    ..old(self)@
                }
            } else {
                old(self)@
            },
    {
        let len = self.tree.len();
        let cursor = self.tree.cursor();
        if cursor < len && cursor + 1 < len {
            self.tree.cursor_down();
            self.preview_scroll = 0;
        }
    }

    /// Moves the scroll offset as little as needed to bring the cursor on
    /// screen.
    pub fn adjust_scroll(&mut self, viewport_height: usize)
        ensures
            final(self).inv() == old(self).inv(),
            final(self)@ == (ExplorerModel {
                scroll_offset: scroll_to_show(
                    old(self)@.scroll_offset,
                    old(self)@.tree.cursor,
                    viewport_height,
                ),
                ..old(self)@
            }),
    {
        self.scroll_offset = adjusted_scroll(self.scroll_offset, self.tree.cursor(), viewport_height);
    }

    /// Index of the first line on screen.
    pub fn scroll_offset(&self) -> (r: usize)
        ensures
            r == self@.scroll_offset,
    {
        self.scroll_offset
    }

    /// Lists the children of the node under the cursor, if it is a group
    /// that is not expanded yet.
    pub fn expand_current(&mut self)
        requires
            old(self).inv(),
        ensures
            final(self).inv(),
            final(self)@ == (ExplorerModel {
                tree: old(self)@.tree.expanded_at(old(self)@.tree.cursor as int),
                ..old(self)@
            }),
    {
        self.tree.expand_current();
    }

    /// Hides the children of the node under the cursor, if it is an expanded group.
    pub fn collapse_current(&mut self)
        requires
            old(self).inv(),
        ensures
            final(self).inv(),
            final(self)@ == (ExplorerModel {
                tree: old(self)@.tree.collapsed_at(old(self)@.tree.cursor as int),
                ..old(self)@
            }),
    {
        self.tree.collapse_current();
    }

    /// Puts the cursor on the first line.
    pub fn goto_first(&mut self)
        requires
            old(self).inv(),
        ensures
            final(self).inv(),
            final(self)@ == (ExplorerModel {
                tree: TreeModel { cursor: 0, ..old(self)@.tree },
                ..old(self)@
            }),
    {
        self.tree.goto_first();
    }

    /// Puts the cursor on the last line, if there is one.
    pub fn goto_last(&mut self)
        requires
            old(self).inv(),
        ensures
            final(self).inv(),
            final(self)@ == (ExplorerModel {
                tree: TreeModel {
                    cursor: if old(self)@.tree.items().len() > 0 {
                        (old(self)@.tree.items().len() - 1) as usize
                    } else {
                        old(self)@.tree.cursor
                    },
                    ..old(self)@.tree
                },
                ..old(self)@
            }),
    {
        self.tree.goto_last();
    }

    /// The lines of the list, in display order.
    pub fn visible_items(&self) -> (r: Vec<&TreeItem>)
        requires
            self.inv(),
        ensures
            r@.len() == self@.tree.items().len(),
            forall|i: int| 0 <= i < r@.len() ==> (#[trigger] r@[i]).deep() == self@.tree.items()[i],
    {
        self.tree.visible_items()
    }

    /// Index of the line under the cursor.
    pub fn cursor(&self) -> (r: usize)
        ensures
            r == self@.tree.cursor,
    {
        self.tree.cursor()
    }

    /// The node under the cursor, if the cursor is on a line.
    pub fn current_node(&self) -> (r: Option<&DataNode>)
        requires
            self.inv(),
        ensures
            match r {
                Some(node) => self@.tree.cursor < self@.tree.items().len() && node.deep()
                    == self@.tree.items()[self@.tree.cursor as int].node,
                None => self@.tree.cursor >= self@.tree.items().len(),
            },
    {
        self.tree.current_node()
    }

    /// Puts the cursor on the first line whose node has the given path.
    /// Leaves it where it is if there is no such line.
    pub fn goto_node(&mut self, target_path: &str)
        requires
            old(self).inv(),
        ensures
            final(self).inv(),
            final(self)@.tree.root == old(self)@.tree.root,
            final(self)@.tree.expanded == old(self)@.tree.expanded,
            final(self)@.scroll_offset == old(self)@.scroll_offset,
            final(self)@.show_preview == old(self)@.show_preview,
            final(self)@.preview_scroll == old(self)@.preview_scroll,
            if old(self)@.tree.lacks_path(target_path@) {
                final(self)@.tree.cursor == old(self)@.tree.cursor
            } else {
                old(self)@.tree.first_with_path(target_path@, final(self)@.tree.cursor as int)
            },
    {
        self.tree.goto_node(target_path);
    }

    /// Expands every group of the tree.
    pub fn expand_all(&mut self)
        requires
            old(self).inv(),
        ensures
            final(self).inv(),
            final(self)@ == (ExplorerModel {
                tree: TreeModel {
                    expanded: match old(self)@.tree.root {
                        Some(root) => old(self)@.tree.expanded.union(group_paths(root)),
                        None => old(self)@.tree.expanded,
                    },
                    ..old(self)@.tree
                },
                ..old(self)@
            }),
    {
        self.tree.expand_all();
    }

    /// Shows the details panel if it is hidden and hides it if it is shown.
    pub fn toggle_preview(&mut self)
        ensures
            final(self).inv() == old(self).inv(),
            final(self)@ == (ExplorerModel { show_preview: !old(self)@.show_preview, ..old(self)@ }),
    {
        self.show_preview = !self.show_preview;
    }

    /// Scrolls the details panel down by `PREVIEW_STEP` lines.
    pub fn scroll_down(&mut self)
        ensures
            final(self).inv() == old(self).inv(),
            final(self)@ == (ExplorerModel {
                preview_scroll: if old(self)@.preview_scroll + PREVIEW_STEP > u16::MAX {
                    u16::MAX
                } else {
                    (old(self)@.preview_scroll + PREVIEW_STEP) as u16
                },
                ..old(self)@
            }),
    {
        self.preview_scroll = if self.preview_scroll > u16::MAX - PREVIEW_STEP {
            u16::MAX
        } else {
            self.preview_scroll + PREVIEW_STEP
        };
    }

    /// Scrolls the details panel up by `PREVIEW_STEP` lines.
    pub fn scroll_up(&mut self)
        ensures
            final(self).inv() == old(self).inv(),
            final(self)@ == (ExplorerModel {
                preview_scroll: if old(self)@.preview_scroll >= PREVIEW_STEP {
                    (old(self)@.preview_scroll - PREVIEW_STEP) as u16
                } else {
                    0
                },
                ..old(self)@
            }),
    {
        self.preview_scroll = if self.preview_scroll >= PREVIEW_STEP {
            self.preview_scroll - PREVIEW_STEP
        } else {
            0
        };
    }
}

impl ExplorerModel {
    /// The state after the cursor moved up by up to `lines` lines; the
    /// details panel then starts from its top.
    pub open spec fn moved_up(self, lines: usize) -> ExplorerModel {
        ExplorerModel {
            tree: TreeModel {
                cursor: if self.tree.cursor >= lines {
                    (self.tree.cursor - lines) as usize
                } else {
                    0
                },
                ..self.tree
            },
            preview_scroll: 0,
            ..self
        }
    }

    /// The state after the cursor moved down by up to `lines` lines, never
    /// past the last line; the details panel then starts from its top.
    pub open spec fn moved_down(self, lines: usize) -> ExplorerModel {
        let len = self.tree.items().len();
        ExplorerModel {
            tree: TreeModel {
                cursor: if self.tree.cursor + 1 < len && lines > 0 {
                    if self.tree.cursor + lines < len {
                        (self.tree.cursor + lines) as usize
                    } else {
                        (len - 1) as usize
                    }
                } else {
                    self.tree.cursor
                },
                ..self.tree
            },
            preview_scroll: 0,
            ..self
        }
    }

    /// The state after a command of the tree. Commands that concern other
    /// parts of the program leave the explorer as it is.
    pub open spec fn executed(self, command: TreeCommand) -> ExplorerModel {
        match command {
            TreeCommand::Up => self.moved_up(1),
            TreeCommand::Down => self.moved_down(1),
            TreeCommand::PageUp => self.moved_up(PAGE_LINES),
            TreeCommand::PageDown => self.moved_down(PAGE_LINES),
            TreeCommand::Collapse => ExplorerModel {
                tree: self.tree.collapsed_at(self.tree.cursor as int),
                ..self
            },
            TreeCommand::Expand => ExplorerModel {
                tree: self.tree.expanded_at(self.tree.cursor as int),
                ..self
            },
            TreeCommand::GotoFirst => ExplorerModel {
                tree: TreeModel { cursor: 0, ..self.tree },
                preview_scroll: 0,
                ..self
            },
            TreeCommand::GotoLast => ExplorerModel {
                tree: TreeModel {
                    cursor: if self.tree.items().len() > 0 {
                        (self.tree.items().len() - 1) as usize
                    } else {
                        self.tree.cursor
                    },
                    ..self.tree
                },
                preview_scroll: 0,
                ..self
            },
            TreeCommand::TogglePreview => ExplorerModel {
                show_preview: !self.show_preview,
                ..self
            },
            TreeCommand::PreviewDown => ExplorerModel {
                preview_scroll: if self.preview_scroll + PREVIEW_STEP > u16::MAX {
                    u16::MAX
                } else {
                    (self.preview_scroll + PREVIEW_STEP) as u16
                },
                ..self
            },
            TreeCommand::PreviewUp => ExplorerModel {
                preview_scroll: if self.preview_scroll >= PREVIEW_STEP {
                    (self.preview_scroll - PREVIEW_STEP) as u16
                } else {
                    0
                },
                ..self
            },
            _ => self,
        }
    }
}

impl ExplorerState {
    /// Moves the cursor up by up to `lines` lines.
    pub fn move_up(&mut self, lines: usize)
        requires
            old(self).inv(),
        ensures
            final(self).inv(),
            final(self)@ == old(self)@.moved_up(lines),
    {
        let mut done: usize = 0;
        while done < lines && self.tree.cursor() > 0
            invariant
                self.inv(),
                done <= lines,
                self@ == (ExplorerModel {
                    tree: TreeModel {
                        cursor: (old(self)@.tree.cursor - done) as usize,
                        ..old(self)@.tree
                    },
                    ..old(self)@
                }),
                done <= old(self)@.tree.cursor,
            decreases lines - done,
        {
            self.tree.cursor_up();
            done += 1;
        }
        self.preview_scroll = 0;
    }

    /// Moves the cursor down by up to `lines` lines.
    pub fn move_down(&mut self, lines: usize)
        requires
            old(self).inv(),
        ensures
            final(self).inv(),
            final(self)@ == old(self)@.moved_down(lines),
    {
        let len = self.tree.len();
        let mut done: usize = 0;
        while done < lines && self.tree.cursor() < len && self.tree.cursor() + 1 < len
            invariant
                self.inv(),
                done <= lines,
                len == old(self)@.tree.items().len(),
                self@ == (ExplorerModel {
                    tree: TreeModel {
                        cursor: (old(self)@.tree.cursor + done) as usize,
                        ..old(self)@.tree
                    },
                    ..old(self)@
                }),
                done > 0 ==> old(self)@.tree.cursor + done < len,
            decreases lines - done,
        {
            self.tree.cursor_down();
            done += 1;
        }
        self.preview_scroll = 0;
    }

    /// Carries out a command of the tree. Commands that concern other parts
    /// of the program leave the explorer as it is.
    pub fn execute(&mut self, command: TreeCommand)
        requires
            old(self).inv(),
        ensures
            final(self).inv(),
            final(self)@ == old(self)@.executed(command),
    {
        match command {
            TreeCommand::Up => self.move_up(1),
            TreeCommand::Down => self.move_down(1),
            TreeCommand::PageUp => self.move_up(PAGE_LINES),
            TreeCommand::PageDown => self.move_down(PAGE_LINES),
            TreeCommand::Collapse => self.collapse_current(),
            TreeCommand::Expand => self.expand_current(),
            TreeCommand::GotoFirst => {
                self.goto_first();
                self.preview_scroll = 0;
            },
            TreeCommand::GotoLast => {
                self.goto_last();
                self.preview_scroll = 0;
            },
            TreeCommand::TogglePreview => self.toggle_preview(),
            TreeCommand::PreviewDown => self.scroll_down(),
            TreeCommand::PreviewUp => self.scroll_up(),
            _ => {},
        }
    }
}

impl Default for ExplorerState {
    fn default() -> (r: ExplorerState)
        ensures
            r.inv(),
            r@.tree == (TreeModel { root: None, expanded: Set::empty(), cursor: 0 }),
            r@.scroll_offset == 0,
            r@.show_preview,
            r@.preview_scroll == 0,
    {
        ExplorerState::new()
    }
}

} // verus!
