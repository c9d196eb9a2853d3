//! What a key press means to the viewer.
//!
//! Reading keys is left to the caller. The caller hands over what was
//! pressed as a plain value; which operation that stands for in the current
//! view mode is decided here.

use crate::session::{lemma_operations_keep_wf, ViewerModel};
use crate::view_mode::ViewMode;
use vstd::prelude::*;

verus! {

/// The key of a key press.
#[derive(Debug, Clone, Copy, PartialEq, Eq, Structural)]
pub enum KeyCode {
    /// A character key.
    Char(char),
    /// Escape.
    Esc,
    /// Tabulator.
    Tab,
    /// Arrow up.
    Up,
    /// Arrow down.
    Down,
    /// Arrow left.
    Left,
    /// Arrow right.
    Right,
    /// Page up.
    PageUp,
    /// Page down.
    PageDown,
    /// Enter.
    Enter,
    /// Backspace.
    Backspace,
    /// Any other key.
    Other,
}

/// What was held while a key was pressed.
#[derive(Debug, Clone, Copy, PartialEq, Eq, Structural)]
pub enum Modifiers {
    /// Nothing.
    Plain,
    /// Shift alone.
    Shift,
    /// Control alone.
    Control,
    /// Anything else.
    Other,
}

/// A key press: the key and what was held with it.
#[derive(Debug, Clone, Copy, PartialEq, Eq, Structural)]
pub struct KeyPress {
    /// The key.
    pub code: KeyCode,
    /// What was held with it.
    pub modifiers: Modifiers,
}

/// An operation of the viewer.
#[derive(Debug, Clone, Copy, PartialEq, Eq, Structural)]
pub enum ViewerCommand {
    /// Close the viewer.
    Close,
    /// Advance the view mode.
    CycleViewMode,
    /// Advance the palette.
    CyclePalette,
    /// Scroll the table up by so many rows.
    ScrollUp(usize),
    /// Scroll the table down by so many rows.
    ScrollDown(usize),
    /// Scroll the table left by so many columns.
    ScrollLeft(usize),
    /// Scroll the table right by so many columns.
    ScrollRight(usize),
    /// Move the crosshair by so many rows and columns.
    MoveCrosshair(isize, isize),
    /// Move the plot probe towards the start.
    PlotCursorLeft,
    /// Move the plot probe towards the end.
    PlotCursorRight,
    /// Move the selector to the next off-screen dimension.
    NextSelector,
    /// Move the held position of the active dimension up.
    IncrementSlice,
    /// Move the held position of the active dimension down.
    DecrementSlice,
    /// Swap rows and columns.
    Rotate,
    /// Copy what is shown. The viewer itself does not change.
    CopyVisible,
    /// Step the row dimension (`0`) or the column dimension (`1`) forwards.
    CycleDisplayDim(usize),
    /// Switch between scaled and raw values.
    ToggleScale,
    /// Nothing.
    Nothing,
}

/// Rows that one press of Control-U or Control-D scrolls.
pub const PAGE_ROWS: usize = 10;

/// The operation that a key press stands for in the given view mode. Keys
/// count with nothing held, or with Control where they page or copy. The
/// arrows and `h`, `j`, `k`, `l` pan the table, move the crosshair of the
/// heatmap, and move the probe of the plot sideways.
pub open spec fn command_for(key: KeyPress, mode: ViewMode) -> ViewerCommand {
    if key.modifiers is Control {
        match key.code {
            KeyCode::Char(c) => if c == 'u' {
                ViewerCommand::ScrollUp(PAGE_ROWS)
            } else if c == 'd' {
                ViewerCommand::ScrollDown(PAGE_ROWS)
            } else if c == 'c' {
                ViewerCommand::CopyVisible
            } else {
                ViewerCommand::Nothing
            },
            _ => ViewerCommand::Nothing,
        }
    } else if !(key.modifiers is Plain) {
        ViewerCommand::Nothing
    } else {
        match key.code {
            KeyCode::Esc => ViewerCommand::Close,
            KeyCode::Tab => ViewerCommand::CycleViewMode,
            KeyCode::Up => vertical(mode, -1isize),
            KeyCode::Down => vertical(mode, 1isize),
            KeyCode::Left => horizontal(mode, -1isize),
            KeyCode::Right => horizontal(mode, 1isize),
            KeyCode::PageUp => ViewerCommand::IncrementSlice,
            KeyCode::PageDown => ViewerCommand::DecrementSlice,
            KeyCode::Char(c) => if c == 'q' || c == 'p' {
                ViewerCommand::Close
            } else if c == 'c' || c == 'C' {
                ViewerCommand::CyclePalette
            } else if c == 'k' {
                vertical(mode, -1isize)
            } else if c == 'j' {
                vertical(mode, 1isize)
            } else if c == 'h' {
                horizontal(mode, -1isize)
            } else if c == 'l' {
                horizontal(mode, 1isize)
            } else if c == 's' {
                ViewerCommand::NextSelector
            } else if c == ']' || c == '+' || c == '=' {
                ViewerCommand::IncrementSlice
            } else if c == '[' || c == '-' || c == '_' {
                ViewerCommand::DecrementSlice
            } else if c == 'r' || c == 'R' {
                ViewerCommand::Rotate
            } else if c == 'y' || c == 'Y' {
                ViewerCommand::CycleDisplayDim(0)
            } else if c == 'x' || c == 'X' {
                ViewerCommand::CycleDisplayDim(1)
            } else if c == 'o' || c == 'O' {
                ViewerCommand::ToggleScale
            } else {
                ViewerCommand::Nothing
            },
            _ => ViewerCommand::Nothing,
        }
    }
}

/// What moving up (`-1`) or down (`1`) means in the given view mode.
pub open spec fn vertical(mode: ViewMode, step: isize) -> ViewerCommand {
    match mode {
        ViewMode::Table => if step < 0 {
            ViewerCommand::ScrollUp(1)
        } else {
            ViewerCommand::ScrollDown(1)
        },
        ViewMode::Heatmap => ViewerCommand::MoveCrosshair(step, 0),
        ViewMode::Plot1D => ViewerCommand::Nothing,
    }
}

/// What moving left (`-1`) or right (`1`) means in the given view mode.
pub open spec fn horizontal(mode: ViewMode, step: isize) -> ViewerCommand {
    match mode {
        ViewMode::Table => if step < 0 {
            ViewerCommand::ScrollLeft(1)
        } else {
            ViewerCommand::ScrollRight(1)
        },
        ViewMode::Heatmap => ViewerCommand::MoveCrosshair(0, step),
        ViewMode::Plot1D => if step < 0 {
            ViewerCommand::PlotCursorLeft
        } else {
            ViewerCommand::PlotCursorRight
        },
    }
}

fn vertical_command(mode: ViewMode, step: isize) -> (r: ViewerCommand)
    ensures
        r == vertical(mode, step),
{
    match mode {
        ViewMode::Table => if step < 0 {
            ViewerCommand::ScrollUp(1)
        } else {
            ViewerCommand::ScrollDown(1)
        },
        ViewMode::Heatmap => ViewerCommand::MoveCrosshair(step, 0),
        ViewMode::Plot1D => ViewerCommand::Nothing,
    }
}

fn horizontal_command(mode: ViewMode, step: isize) -> (r: ViewerCommand)
    ensures
        r == horizontal(mode, step),
{
    match mode {
        ViewMode::Table => if step < 0 {
            ViewerCommand::ScrollLeft(1)
        } else {
            ViewerCommand::ScrollRight(1)
        },
        ViewMode::Heatmap => ViewerCommand::MoveCrosshair(0, step),
        ViewMode::Plot1D => if step < 0 {
            ViewerCommand::PlotCursorLeft
        } else {
            ViewerCommand::PlotCursorRight
        },
    }
}

/// The operation that a key press stands for in the given view mode.
pub fn viewer_command(key: KeyPress, mode: ViewMode) -> (r: ViewerCommand)
    ensures
        r == command_for(key, mode),
{
    let plain = match key.modifiers {
        Modifiers::Plain => true,
        _ => false,
    };
    let control = match key.modifiers {
        Modifiers::Control => true,
        _ => false,
    };
    if control {
        match key.code {
            KeyCode::Char(c) => if c == 'u' {
                ViewerCommand::ScrollUp(PAGE_ROWS)
            } else if c == 'd' {
                ViewerCommand::ScrollDown(PAGE_ROWS)
            } else if c == 'c' {
                ViewerCommand::CopyVisible
            } else {
                ViewerCommand::Nothing
            },
            _ => ViewerCommand::Nothing,
        }
    } else if !plain {
        ViewerCommand::Nothing
    } else {
        match key.code {
            KeyCode::Esc => ViewerCommand::Close,
            KeyCode::Tab => ViewerCommand::CycleViewMode,
            KeyCode::Up => vertical_command(mode, -1),
            KeyCode::Down => vertical_command(mode, 1),
            KeyCode::Left => horizontal_command(mode, -1),
            KeyCode::Right => horizontal_command(mode, 1),
            KeyCode::PageUp => ViewerCommand::IncrementSlice,
            KeyCode::PageDown => ViewerCommand::DecrementSlice,
            KeyCode::Char(c) => if c == 'q' || c == 'p' {
                ViewerCommand::Close
            } else if c == 'c' || c == 'C' {
                ViewerCommand::CyclePalette
            } else if c == 'k' {
                vertical_command(mode, -1)
            } else if c == 'j' {
                vertical_command(mode, 1)
            } else if c == 'h' {
                horizontal_command(mode, -1)
            } else if c == 'l' {
                horizontal_command(mode, 1)
            } else if c == 's' {
                ViewerCommand::NextSelector
            } else if c == ']' || c == '+' || c == '=' {
                ViewerCommand::IncrementSlice
            } else if c == '[' || c == '-' || c == '_' {
                ViewerCommand::DecrementSlice
            } else if c == 'r' || c == 'R' {
                ViewerCommand::Rotate
            } else if c == 'y' || c == 'Y' {
                ViewerCommand::CycleDisplayDim(0)
            } else if c == 'x' || c == 'X' {
                ViewerCommand::CycleDisplayDim(1)
            } else if c == 'o' || c == 'O' {
                ViewerCommand::ToggleScale
            } else {
                ViewerCommand::Nothing
            },
            _ => ViewerCommand::Nothing,
        }
    }
}

impl ViewerModel {
    /// The state after the given operation.
    pub open spec fn executed(self, command: ViewerCommand) -> ViewerModel {
        match command {
            ViewerCommand::Close => self.closed(),
            ViewerCommand::CycleViewMode => self.mode_cycled(),
            ViewerCommand::CyclePalette => self.palette_cycled(),
            ViewerCommand::ScrollUp(n) => self.scrolled_up(n),
            ViewerCommand::ScrollDown(n) => self.scrolled_down(n),
            ViewerCommand::ScrollLeft(n) => self.scrolled_left(n),
            ViewerCommand::ScrollRight(n) => self.scrolled_right(n),
            ViewerCommand::MoveCrosshair(drow, dcol) => self.heat_cursor_moved(
                drow as int,
                dcol as int,
            ),
            ViewerCommand::PlotCursorLeft => self.plot_cursor_moved(-1),
            ViewerCommand::PlotCursorRight => self.plot_cursor_moved(1),
            ViewerCommand::NextSelector => self.selector_advanced(),
            ViewerCommand::IncrementSlice => match self.active {
                Some(dim) => self.slice_advanced(dim, 1),
                None => self,
            },
            ViewerCommand::DecrementSlice => match self.active {
                Some(dim) => self.slice_advanced(dim, -1),
                None => self,
            },
            ViewerCommand::Rotate => self.rotated(),
            ViewerCommand::CopyVisible => self,
            ViewerCommand::CycleDisplayDim(which) => self.display_stepped(which, true),
            ViewerCommand::ToggleScale => self.scale_toggled(),
            ViewerCommand::Nothing => self,
        }
    }
}

/// The hint line for the part of the program that has the keyboard: the
/// file browser before the viewer, the viewer before the search, the search
/// before the tree.
pub fn keymap_text(file_browser_mode: bool, data_viewer_visible: bool, search_active: bool) -> (r:
    &'static str)
    ensures
        r@ == if file_browser_mode {
            "jk/↑↓:nav | Enter/l:select | h:parent | q:quit"@
        } else if data_viewer_visible {
            "hjkl:pan | Tab:view | +-:slice | []:dim | q/Esc:close"@
        } else if search_active {
            "Enter:search | Esc:cancel | Type to search"@
        } else {
            "q:quit | hjkl:nav | /:search | n/N:next/prev | t:preview | p:plot | c/y:copy | T:theme | ?:help"@
        },
{
    if file_browser_mode {
        "jk/↑↓:nav | Enter/l:select | h:parent | q:quit"
    } else if data_viewer_visible {
        "hjkl:pan | Tab:view | +-:slice | []:dim | q/Esc:close"
    } else if search_active {
        "Enter:search | Esc:cancel | Type to search"
    } else {
        "q:quit | hjkl:nav | /:search | n/N:next/prev | t:preview | p:plot | c/y:copy | T:theme | ?:help"
    }
}

/// Whatever is pressed, in whatever order, the session invariants hold
/// afterwards: no operation leaves a state that breaks them.
pub proof fn lemma_executed_wf(m: ViewerModel, command: ViewerCommand)
    requires
        m.wf(),
    ensures
        m.executed(command).wf(),
        forall|key: KeyPress| (#[trigger] m.executed(command_for(key, m.mode))).wf(),
{
    lemma_operations_keep_wf(m);
    assert forall|key: KeyPress| (#[trigger] m.executed(command_for(key, m.mode))).wf() by {
    }
}

/// The part of the program that has the keyboard.
#[derive(Debug, Clone, Copy, PartialEq, Eq, Structural)]
pub enum InputMode {
    /// The data viewer.
    Viewer,
    /// The search line.
    Search,
    /// The file browser.
    FileBrowser,
    /// The tree.
    Tree,
}

/// The part of the program that gets the next key: the viewer while it is
/// visible, else the search line while a query is typed, else the file
/// browser while it has the screen, else the tree.
pub fn input_mode(viewer_visible: bool, search_active: bool, file_browser_mode: bool) -> (r:
    InputMode)
    ensures
        r == if viewer_visible {
            InputMode::Viewer
        } else if search_active {
            InputMode::Search
        } else if file_browser_mode {
            InputMode::FileBrowser
        } else {
            InputMode::Tree
        },
{
    if viewer_visible {
        InputMode::Viewer
    } else if search_active {
        InputMode::Search
    } else if file_browser_mode {
        InputMode::FileBrowser
    } else {
        InputMode::Tree
    }
}

/// An operation of the search line.
#[derive(Debug, Clone, Copy, PartialEq, Eq, Structural)]
pub enum SearchCommand {
    /// Run the query that was typed.
    Submit,
    /// Leave the search line.
    Cancel,
    /// Remove the last character.
    Backspace,
    /// Append a character.
    Input(char),
    /// Nothing.
    Nothing,
}

/// What a key press means while a query is typed. What is held with the key
/// does not matter.
pub open spec fn search_command_for(key: KeyPress) -> SearchCommand {
    match key.code {
        KeyCode::Enter => SearchCommand::Submit,
        KeyCode::Esc => SearchCommand::Cancel,
        KeyCode::Backspace => SearchCommand::Backspace,
        KeyCode::Char(c) => SearchCommand::Input(c),
        _ => SearchCommand::Nothing,
    }
}

/// What a key press means while a query is typed.
pub fn search_command(key: KeyPress) -> (r: SearchCommand)
    ensures
        r == search_command_for(key),
{
    match key.code {
        KeyCode::Enter => SearchCommand::Submit,
        KeyCode::Esc => SearchCommand::Cancel,
        KeyCode::Backspace => SearchCommand::Backspace,
        KeyCode::Char(c) => SearchCommand::Input(c),
        _ => SearchCommand::Nothing,
    }
}

/// An operation of the file browser.
#[derive(Debug, Clone, Copy, PartialEq, Eq, Structural)]
pub enum BrowserCommand {
    /// Leave the program.
    Quit,
    /// Move the cursor up.
    Up,
    /// Move the cursor down.
    Down,
    /// Enter the directory or open the file under the cursor.
    Select,
    /// Move to the parent directory.
    Parent,
    /// Show or hide hidden entries.
    ToggleHidden,
    /// Nothing.
    Nothing,
}

/// What a key press means in the file browser. Keys count with nothing held.
pub open spec fn browser_command_for(key: KeyPress) -> BrowserCommand {
    if !(key.modifiers is Plain) {
        BrowserCommand::Nothing
    } else {
        match key.code {
            KeyCode::Up => BrowserCommand::Up,
            KeyCode::Down => BrowserCommand::Down,
            KeyCode::Enter | KeyCode::Right => BrowserCommand::Select,
            KeyCode::Left => BrowserCommand::Parent,
            KeyCode::Char(c) => if c == 'q' {
                BrowserCommand::Quit
            } else if c == 'k' {
                BrowserCommand::Up
            } else if c == 'j' {
                BrowserCommand::Down
            } else if c == 'l' {
                BrowserCommand::Select
            } else if c == 'h' {
                BrowserCommand::Parent
            } else if c == '.' {
                BrowserCommand::ToggleHidden
            } else {
                BrowserCommand::Nothing
            },
            _ => BrowserCommand::Nothing,
        }
    }
}

/// What a key press means in the file browser.
pub fn browser_command(key: KeyPress) -> (r: BrowserCommand)
    ensures
        r == browser_command_for(key),
{
    let plain = match key.modifiers {
        Modifiers::Plain => true,
        _ => false,
    };
    if !plain {
        BrowserCommand::Nothing
    } else {
        match key.code {
            KeyCode::Up => BrowserCommand::Up,
            KeyCode::Down => BrowserCommand::Down,
            KeyCode::Enter | KeyCode::Right => BrowserCommand::Select,
            KeyCode::Left => BrowserCommand::Parent,
            KeyCode::Char(c) => if c == 'q' {
                BrowserCommand::Quit
            } else if c == 'k' {
                BrowserCommand::Up
            } else if c == 'j' {
                BrowserCommand::Down
            } else if c == 'l' {
                BrowserCommand::Select
            } else if c == 'h' {
                BrowserCommand::Parent
            } else if c == '.' {
                BrowserCommand::ToggleHidden
            } else {
                BrowserCommand::Nothing
            },
            _ => BrowserCommand::Nothing,
        }
    }
}

/// An operation of the tree and of the program around it.
#[derive(Debug, Clone, Copy, PartialEq, Eq, Structural)]
pub enum TreeCommand {
    /// Leave the program.
    Quit,
    /// Move the cursor up.
    Up,
    /// Move the cursor down.
    Down,
    /// Collapse the node under the cursor.
    Collapse,
    /// Expand the node under the cursor.
    Expand,
    /// Put the cursor on the first line.
    GotoFirst,
    /// Put the cursor on the last line.
    GotoLast,
    /// Move the cursor down by a page.
    PageDown,
    /// Move the cursor up by a page.
    PageUp,
    /// Start typing a query.
    StartSearch,
    /// Step to the next match.
    NextMatch,
    /// Step to the previous match.
    PrevMatch,
    /// Open the viewer on the node under the cursor.
    ToggleViewer,
    /// Show or hide the details panel.
    TogglePreview,
    /// Open the file browser.
    OpenBrowser,
    /// Switch the theme.
    CycleTheme,
    /// Show the help line.
    Help,
    /// Copy the outline of the tree.
    CopyTree,
    /// Copy the summary of the node under the cursor.
    CopyNode,
    /// Scroll the details panel down.
    PreviewDown,
    /// Scroll the details panel up.
    PreviewUp,
    /// Close viewer and search.
    CloseOverlay,
    /// Nothing.
    Nothing,
}

/// Lines that one press of Control-F or Control-B moves the cursor.
pub const PAGE_LINES: usize = 15;

/// What a key press means in the tree, and whether a first `g` is waiting
/// for its second afterwards. `g` pressed twice in a row goes to the first
/// line; any other key forgets a waiting `g`.
pub open spec fn tree_command_for(key: KeyPress, pending_g: bool) -> (TreeCommand, bool) {
    match (key.modifiers, key.code) {
        (Modifiers::Plain, KeyCode::Up) => (TreeCommand::Up, false),
        (Modifiers::Plain, KeyCode::Down) => (TreeCommand::Down, false),
        (Modifiers::Plain, KeyCode::Left) => (TreeCommand::Collapse, false),
        (Modifiers::Plain, KeyCode::Right) => (TreeCommand::Expand, false),
        (Modifiers::Plain, KeyCode::Esc) => (TreeCommand::CloseOverlay, false),
        (Modifiers::Plain, KeyCode::Char(c)) => if c == 'g' {
            if pending_g {
                (TreeCommand::GotoFirst, false)
            } else {
                (TreeCommand::Nothing, true)
            }
        } else if c == 'q' {
            (TreeCommand::Quit, false)
        } else if c == 'k' {
            (TreeCommand::Up, false)
        } else if c == 'j' {
            (TreeCommand::Down, false)
        } else if c == 'h' {
            (TreeCommand::Collapse, false)
        } else if c == 'l' {
            (TreeCommand::Expand, false)
        } else if c == '/' {
            (TreeCommand::StartSearch, false)
        } else if c == 'n' {
            (TreeCommand::NextMatch, false)
        } else if c == 'p' {
            (TreeCommand::ToggleViewer, false)
        } else if c == 't' {
            (TreeCommand::TogglePreview, false)
        } else if c == 'f' {
            (TreeCommand::OpenBrowser, false)
        } else if c == 'c' {
            (TreeCommand::CopyTree, false)
        } else if c == 'y' {
            (TreeCommand::CopyNode, false)
        } else {
            (TreeCommand::Nothing, false)
        },
        (Modifiers::Shift, KeyCode::Char(c)) => if c == 'G' {
            (TreeCommand::GotoLast, false)
        } else if c == 'N' {
            (TreeCommand::PrevMatch, false)
        } else if c == 'T' {
            (TreeCommand::CycleTheme, false)
        } else if c == '?' {
            (TreeCommand::Help, false)
        } else if c == 'J' {
            (TreeCommand::PreviewDown, false)
        } else if c == 'K' {
            (TreeCommand::PreviewUp, false)
        } else {
            (TreeCommand::Nothing, false)
        },
        (Modifiers::Control, KeyCode::Char(c)) => if c == 'f' {
            (TreeCommand::PageDown, false)
        } else if c == 'b' {
            (TreeCommand::PageUp, false)
        } else if c == 'd' {
            (TreeCommand::PreviewDown, false)
        } else if c == 'u' {
            (TreeCommand::PreviewUp, false)
        } else {
            (TreeCommand::Nothing, false)
        },
        _ => (TreeCommand::Nothing, false),
    }
}

/// What a key press means in the tree: see `tree_command_for`.
pub fn tree_command(key: KeyPress, pending_g: bool) -> (r: (TreeCommand, bool))
    ensures
        r == tree_command_for(key, pending_g),
{
    match (key.modifiers, key.code) {
        (Modifiers::Plain, KeyCode::Up) => (TreeCommand::Up, false),
        (Modifiers::Plain, KeyCode::Down) => (TreeCommand::Down, false),
        (Modifiers::Plain, KeyCode::Left) => (TreeCommand::Collapse, false),
        (Modifiers::Plain, KeyCode::Right) => (TreeCommand::Expand, false),
        (Modifiers::Plain, KeyCode::Esc) => (TreeCommand::CloseOverlay, false),
        (Modifiers::Plain, KeyCode::Char(c)) => if c == 'g' {
            if pending_g {
                (TreeCommand::GotoFirst, false)
            } else {
                (TreeCommand::Nothing, true)
            }
        } else if c == 'q' {
            (TreeCommand::Quit, false)
        } else if c == 'k' {
            (TreeCommand::Up, false)
        } else if c == 'j' {
            (TreeCommand::Down, false)
        } else if c == 'h' {
            (TreeCommand::Collapse, false)
        } else if c == 'l' {
            (TreeCommand::Expand, false)
        } else if c == '/' {
            (TreeCommand::StartSearch, false)
        } else if c == 'n' {
            (TreeCommand::NextMatch, false)
        } else if c == 'p' {
            (TreeCommand::ToggleViewer, false)
        } else if c == 't' {
            (TreeCommand::TogglePreview, false)
        } else if c == 'f' {
            (TreeCommand::OpenBrowser, false)
        } else if c == 'c' {
            (TreeCommand::CopyTree, false)
        } else if c == 'y' {
            (TreeCommand::CopyNode, false)
        } else {
            (TreeCommand::Nothing, false)
        },
        (Modifiers::Shift, KeyCode::Char(c)) => if c == 'G' {
            (TreeCommand::GotoLast, false)
        } else if c == 'N' {
            (TreeCommand::PrevMatch, false)
        } else if c == 'T' {
            (TreeCommand::CycleTheme, false)
        } else if c == '?' {
            (TreeCommand::Help, false)
        } else if c == 'J' {
            (TreeCommand::PreviewDown, false)
        } else if c == 'K' {
            (TreeCommand::PreviewUp, false)
        } else {
            (TreeCommand::Nothing, false)
        },
        (Modifiers::Control, KeyCode::Char(c)) => if c == 'f' {
            (TreeCommand::PageDown, false)
        } else if c == 'b' {
            (TreeCommand::PageUp, false)
        } else if c == 'd' {
            (TreeCommand::PreviewDown, false)
        } else if c == 'u' {
            (TreeCommand::PreviewUp, false)
        } else {
            (TreeCommand::Nothing, false)
        },
        _ => (TreeCommand::Nothing, false),
    }
}

} // verus!
