//! How keys and pointer gestures on the terminal body are routed.
use vstd::prelude::*;
use crate::text::same_text;

verus! {

/// A key pressed on the terminal body.
#[derive(Debug)]
pub struct KeyPress {
    pub key: String,
    pub platform: bool,
    pub control: bool,
    pub alt: bool,
    pub shift: bool,
    /// The platform would rather turn the key into text.
    pub prefers_text: bool,
}

/// The screen of the shown terminal.
#[derive(Debug, Clone, Copy, PartialEq, Eq, Structural)]
pub struct Screen {
    /// A fullscreen program owns it.
    pub alternate: bool,
    pub rows: u16,
}

/// Where a key goes.
#[derive(Debug, Clone, Copy, PartialEq, Eq, Structural)]
pub enum KeyRoute {
    /// The platform turns it into text.
    PlatformText,
    Paste,
    Copy,
    /// History scrolls by lines, upward where positive.
    Scroll(i32),
    /// The composition owns it.
    Composition,
    /// It is encoded and queued as input.
    Encode,
}

impl KeyPress {
    /// The chord of the clipboard: with the platform key, or with control and
    /// shift.
    pub open spec fn clipboard_chord(self) -> bool {
        self.platform || (self.control && self.shift)
    }

    /// Where the key goes. Copying needs a selection, so that an interrupt
    /// still reaches the program without one. Paging with shift alone scrolls
    /// the history of a main screen; fullscreen programs keep their own keys.
    pub open spec fn route(
        self,
        composing: bool,
        selected: bool,
        screen: Option<Screen>,
    ) -> KeyRoute {
        if self.prefers_text {
            KeyRoute::PlatformText
        } else if self.key@ == "v"@ && self.clipboard_chord() {
            KeyRoute::Paste
        } else if self.key@ == "c"@ && self.clipboard_chord() && selected {
            KeyRoute::Copy
        } else if self.shift && !self.control && !self.alt && !self.platform && screen is Some
            && !screen->0.alternate && self.key@ == "pageup"@ {
            KeyRoute::Scroll(screen->0.rows as i32)
        } else if self.shift && !self.control && !self.alt && !self.platform && screen is Some
            && !screen->0.alternate && self.key@ == "pagedown"@ {
            KeyRoute::Scroll((-(screen->0.rows as int)) as i32)
        } else if composing && !self.control && !self.alt && !self.platform {
            KeyRoute::Composition
        } else {
            KeyRoute::Encode
        }
    }

    pub fn on_key_down(&self, composing: bool, selected: bool, screen: Option<Screen>) -> (r:
        KeyRoute)
        ensures
            r == self.route(composing, selected, screen),
    {
        let key: &str = self.key.as_str();
        if self.prefers_text {
            return KeyRoute::PlatformText;
        }
        let chord: bool = self.platform || (self.control && self.shift);
        if same_text(key, "v") && chord {
            return KeyRoute::Paste;
        }
        if same_text(key, "c") && chord && selected {
            return KeyRoute::Copy;
        }
        if self.shift && !self.control && !self.alt && !self.platform {
            match screen {
                Some(screen) => {
                    if !screen.alternate {
                        if same_text(key, "pageup") {
                            return KeyRoute::Scroll(screen.rows as i32);
                        }
                        if same_text(key, "pagedown") {
                            return KeyRoute::Scroll(-(screen.rows as i32));
                        }
                    }
                },
                None => {},
            }
        }
        if composing && !self.control && !self.alt && !self.platform {
            return KeyRoute::Composition;
        }
        KeyRoute::Encode
    }
}

/// How much a press selects at once.
#[derive(Debug, Clone, Copy, PartialEq, Eq, Structural)]
pub enum Grain {
    Word,
    Line,
}

/// What a press on the grid does to the selection.
#[derive(Debug, Clone, Copy, PartialEq, Eq, Structural)]
pub enum Press {
    Nothing,
    /// The selection reaches to the press.
    Extend,
    /// The selection goes; a new one begins only once the pointer travels.
    Clear,
    /// A word or line is selected at once.
    Select(Grain),
}

/// A press with a number of clicks: a drag, a word, a line. With shift a
/// single click extends what is selected.
pub open spec fn press_of(on_grid: bool, clicks: nat, shift: bool, selected: bool) -> Press {
    if !on_grid || clicks == 0 {
        Press::Nothing
    } else if clicks == 1 {
        if shift && selected {
            Press::Extend
        } else {
            Press::Clear
        }
    } else if clicks == 2 {
        Press::Select(Grain::Word)
    } else {
        Press::Select(Grain::Line)
    }
}

/// What a pointer move does.
#[derive(Debug, Clone, Copy, PartialEq, Eq, Structural)]
pub enum Move {
    Nothing,
    /// The scrollbar's thumb follows the pointer.
    DragThumb,
    /// The selection begins at the press, but the pointer is off the grid.
    Begin,
    /// The selection reaches to the pointer; it begins at the press first
    /// where `begin` says so.
    Extend { begin: bool },
}

/// The gesture of the left button.
#[derive(Debug, Clone, Copy, PartialEq, Eq, Structural)]
pub struct Gesture {
    /// A selection drag, and whether it has traveled far enough to select.
    pub selection: Option<bool>,
    /// A step of edge scrolling is due.
    pub scroll_due: bool,
    /// The scrollbar's thumb is held.
    pub thumb: bool,
}

impl Gesture {
    /// No button is held.
    pub open spec fn idle() -> Gesture {
        Gesture { selection: None, scroll_due: false, thumb: false }
    }

    pub fn new() -> (r: Self)
        ensures
            r == Gesture::idle(),
    {
        Gesture { selection: None, scroll_due: false, thumb: false }
    }

    /// A press on the grid.
    pub fn on_mouse_down(&mut self, on_grid: bool, clicks: usize, shift: bool, selected: bool) -> (r:
        Press)
        ensures
            r == press_of(on_grid, clicks as nat, shift, selected),
            *final(self) == (if r is Nothing {
                *old(self)
            } else {
                Gesture { selection: Some(!(r is Clear)), ..*old(self) }
            }),
    {
        if !on_grid || clicks == 0 {
            return Press::Nothing;
        }
        if clicks == 1 {
            if shift && selected {
                self.selection = Some(true);
                return Press::Extend;
            }
            self.selection = Some(false);
            return Press::Clear;
        }
        self.selection = Some(true);
        if clicks == 2 {
            Press::Select(Grain::Word)
        } else {
            Press::Select(Grain::Line)
        }
    }

    /// A press on the scrollbar.
    pub fn on_scrollbar_mouse_down(&mut self)
        ensures
            *final(self) == (Gesture { thumb: true, ..*old(self) }),
    {
        self.thumb = true;
    }

    /// What a move does: a held thumb follows; a press becomes a selection
    /// once it has traveled far enough, anchored where it began.
    pub open spec fn move_of(self, dragging: bool, far: bool, press_on_grid: bool, on_grid: bool) -> Move {
        if self.thumb {
            if dragging {
                Move::DragThumb
            } else {
                Move::Nothing
            }
        } else if !dragging || self.selection is None {
            Move::Nothing
        } else if self.selection == Some(false) && !(far && press_on_grid) {
            Move::Nothing
        } else if on_grid {
            Move::Extend { begin: self.selection == Some(false) }
        } else if self.selection == Some(false) {
            Move::Begin
        } else {
            Move::Nothing
        }
    }

    /// The gesture after a move.
    pub open spec fn after_move(self, dragging: bool, far: bool, press_on_grid: bool) -> Gesture {
        if self.thumb {
            Gesture { thumb: dragging, ..self }
        } else if dragging && self.selection == Some(false) && far && press_on_grid {
            Gesture { selection: Some(true), ..self }
        } else {
            self
        }
    }

    /// Follows the pointer. `far` says that it has traveled past the drag
    /// threshold.
    pub fn on_mouse_move(&mut self, dragging: bool, far: bool, press_on_grid: bool, on_grid: bool) -> (r:
        Move)
        ensures
            r == old(self).move_of(dragging, far, press_on_grid, on_grid),
            *final(self) == old(self).after_move(dragging, far, press_on_grid),
    {
        if self.thumb {
            if dragging {
                return Move::DragThumb;
            }
            self.thumb = false;
            return Move::Nothing;
        }
        if !dragging {
            return Move::Nothing;
        }
        match self.selection {
            None => Move::Nothing,
            Some(armed) => {
                if !armed {
                    if !far || !press_on_grid {
                        return Move::Nothing;
                    }
                    self.selection = Some(true);
                }
                if on_grid {
                    Move::Extend { begin: !armed }
                } else if !armed {
                    Move::Begin
                } else {
                    Move::Nothing
                }
            },
        }
    }

    /// The button is let go.
    pub fn on_mouse_up(&mut self)
        ensures
            *final(self) == Gesture::idle(),
    {
        self.selection = None;
        self.scroll_due = false;
        self.thumb = false;
    }

    /// Whether a step of edge scrolling gets scheduled: a live selection near
    /// an edge, with none due yet. `lines` is how far a step would scroll.
    pub fn schedule_selection_scroll(&mut self, lines: i32) -> (r: bool)
        ensures
            r == (!old(self).scroll_due && old(self).selection == Some(true) && lines != 0),
            *final(self) == (Gesture { scroll_due: old(self).scroll_due || r, ..*old(self) }),
    {
        if self.scroll_due {
            return false;
        }
        match self.selection {
            Some(armed) => {
                if !armed || lines == 0 {
                    return false;
                }
                self.scroll_due = true;
                true
            },
            None => false,
        }
    }

    /// The due step of edge scrolling: how many lines to scroll, and whether
    /// the selection then reaches to the pointer and the next step is
    /// scheduled. `after` is how far that next step would scroll.
    pub fn step_selection_scroll(&mut self, lines: i32, after: i32) -> (r: Option<i32>)
        ensures
            r == (if old(self).selection == Some(true) && lines != 0 {
                Some(lines)
            } else {
                None
            }),
            *final(self) == (Gesture { scroll_due: r is Some && after != 0, ..*old(self) }),
    {
        self.scroll_due = false;
        match self.selection {
            Some(armed) => {
                if !armed || lines == 0 {
                    return None;
                }
                let _next: bool = self.schedule_selection_scroll(after);
                Some(lines)
            },
            None => None,
        }
    }
}

/// What the pointer is over.
#[derive(Debug, Clone, Copy, PartialEq, Eq, Structural)]
pub struct Hover {
    pub terminal: bool,
    pub scrollbar: bool,
}

impl Hover {
    /// The pointer enters or leaves the terminal. Leaving it leaves the
    /// scrollbar too. Returns whether anything changed.
    pub fn on_terminal_hover(&mut self, hovered: bool) -> (r: bool)
        ensures
            r == (old(self).terminal != hovered),
            *final(self) == (Hover {
                terminal: hovered,
                scrollbar: old(self).scrollbar && (hovered || !old(self).terminal),
            }),
    {
        if self.terminal == hovered {
            return false;
        }
        self.terminal = hovered;
        if !hovered {
            self.scrollbar = false;
        }
        true
    }

    /// The pointer enters or leaves the scrollbar.
    pub fn on_scrollbar_hover(&mut self, hovered: bool) -> (r: bool)
        ensures
            r == (old(self).scrollbar != hovered),
            *final(self) == (Hover { scrollbar: hovered, ..*old(self) }),
    {
        let changed: bool = self.scrollbar != hovered;
        self.scrollbar = hovered;
        changed
    }
}

/// A cell of the grid.
#[derive(Debug, Clone, Copy, PartialEq, Eq, Structural)]
pub struct Cell {
    pub row: usize,
    pub col: usize,
}

/// A coordinate kept inside a side of the grid.
pub open spec fn inside(at: int, side: int) -> int {
    if at < side {
        at
    } else if side == 0 {
        0
    } else {
        side - 1
    }
}

/// Where composed text is anchored: at the cursor, or where it was last
/// visible, inside the grid.
pub fn composition_cell(visible: Option<Cell>, last: Cell, cols: u16, rows: u16) -> (r: Cell)
    ensures
        ({
            let cursor = match visible {
                Some(cursor) => cursor,
                None => last,
            };
            &&& r.row == inside(cursor.row as int, rows as int)
            &&& r.col == inside(cursor.col as int, cols as int)
        }),
{
    let cursor: Cell = match visible {
        Some(cursor) => cursor,
        None => last,
    };
    let row: usize = if cursor.row < rows as usize {
        cursor.row
    } else if rows == 0 {
        0
    } else {
        rows as usize - 1
    };
    let col: usize = if cursor.col < cols as usize {
        cursor.col
    } else if cols == 0 {
        0
    } else {
        cols as usize - 1
    };
    Cell { row, col }
}

/// The chord that shows and hides the terminal.
pub fn toggle_chord(mac: bool) -> (r: &'static str)
    ensures
        r@ == (if mac {
            "cmd-j"@
        } else {
            "ctrl-j"@
        }),
{
    if mac {
        "cmd-j"
    } else {
        "ctrl-j"
    }
}

/// A click that does not travel selects nothing: between a plain press and
/// the release no move short of the threshold does anything.
pub proof fn a_click_selects_nothing(
    gesture: Gesture,
    dragging: bool,
    press_on_grid: bool,
    on_grid: bool,
)
    requires
        gesture.selection == Some(false),
        !gesture.thumb,
    ensures
        gesture.move_of(dragging, false, press_on_grid, on_grid) is Nothing,
        gesture.after_move(dragging, false, press_on_grid) == gesture,
{
}

/// An interrupt without a selection always reaches the program, and text
/// being composed never captures a chord.
pub proof fn interrupts_reach_the_program(press: KeyPress, composing: bool, screen: Option<Screen>)
    requires
        !press.prefers_text,
        press.key@ == "c"@,
        press.control,
    ensures
        press.route(composing, false, screen) is Encode,
{
    reveal_strlit("c");
    reveal_strlit("v");
    assert("c"@[0] != "v"@[0]);
}

} // verus!
