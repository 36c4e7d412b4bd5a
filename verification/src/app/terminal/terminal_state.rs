//! The configuration of a terminal, the events the terminal emulator
//! raises, and the mouse modes read from its mode flags.

use vstd::prelude::*;

use crate::entities::TerminalSize;

verus! {

/// The default number of columns.
pub const DEFAULT_COLS: u16 = 80;

/// The default number of rows.
pub const DEFAULT_ROWS: u16 = 24;

/// The default scrollback, in lines.
pub const DEFAULT_SCROLLBACK_LINES: u32 = 10000;

/// What the terminal emulator raises.
#[derive(Debug)]
pub enum TerminalEvent {
    /// Text to write back to the remote side.
    PtyWrite(String),
    TitleChanged(String),
    Bell,
    Exit,
    CursorBlinkingChange,
    ResetTitle,
    /// New content to draw.
    Wakeup,
}

/// A terminal's size and scrollback.
#[derive(Debug, Clone, Copy, PartialEq, Eq, Structural)]
pub struct TerminalConfig {
    pub cols: u16,
    pub rows: u16,
    /// Scrollback, in lines.
    pub scrollback_lines: u32,
}

impl Default for TerminalConfig {
    fn default() -> (r: Self)
        ensures
            r == (TerminalConfig {
                cols: DEFAULT_COLS,
                rows: DEFAULT_ROWS,
                scrollback_lines: DEFAULT_SCROLLBACK_LINES,
            }),
    {
        TerminalConfig { cols: DEFAULT_COLS, rows: DEFAULT_ROWS, scrollback_lines: DEFAULT_SCROLLBACK_LINES }
    }
}

impl TerminalConfig {
    /// `cols` × `rows` with the default scrollback.
    pub fn new(cols: u16, rows: u16) -> (r: TerminalConfig)
        ensures
            r == (TerminalConfig { cols, rows, scrollback_lines: DEFAULT_SCROLLBACK_LINES }),
    {
        TerminalConfig { cols, rows, scrollback_lines: DEFAULT_SCROLLBACK_LINES }
    }

    /// With `lines` of scrollback.
    pub fn with_scrollback(self, lines: u32) -> (r: TerminalConfig)
        ensures
            r == (TerminalConfig { scrollback_lines: lines, ..self }),
    {
        TerminalConfig { scrollback_lines: lines, ..self }
    }

    /// The configuration of a terminal of the given size.
    pub fn from_size(size: TerminalSize) -> (r: TerminalConfig)
        ensures
            r == (TerminalConfig { cols: size.cols, rows: size.rows, scrollback_lines: DEFAULT_SCROLLBACK_LINES }),
    {
        TerminalConfig::new(size.cols, size.rows)
    }

    /// The size this configuration describes.
    pub fn size(&self) -> (r: TerminalSize)
        ensures
            r == (TerminalSize { rows: self.rows, cols: self.cols }),
    {
        TerminalSize::new(self.rows, self.cols)
    }
}

/// The mouse reporting modes the remote application turned on, as the
/// terminal's mode flags say.
#[derive(Debug, Clone, Copy, PartialEq, Eq, Structural)]
pub struct MouseModes {
    /// Click reports (`?1000h`).
    pub report_click: bool,
    /// Drag reports (`?1002h`).
    pub drag: bool,
    /// Motion reports (`?1003h`).
    pub motion: bool,
    /// SGR encoding of the reports (`?1006h`).
    pub sgr: bool,
}

impl MouseModes {
    /// Whether any kind of mouse report is on (what vim or tmux turn on).
    pub fn is_any_mouse_mode_enabled(&self) -> (r: bool)
        ensures
            r == (self.report_click || self.drag || self.motion),
    {
        self.report_click || self.drag || self.motion
    }

    /// Whether clicks are reported: when any mouse report is on.
    pub fn should_report_mouse_click(&self) -> (r: bool)
        ensures
            r == (self.report_click || self.drag || self.motion),
    {
        self.is_any_mouse_mode_enabled()
    }

    /// Whether drags are reported: drag or motion reports.
    pub fn should_report_mouse_drag(&self) -> (r: bool)
        ensures
            r == (self.drag || self.motion),
    {
        self.drag || self.motion
    }

    /// Whether moves without a button are reported: motion reports.
    pub fn should_report_mouse_motion(&self) -> (r: bool)
        ensures
            r == self.motion,
    {
        self.motion
    }
}

} // verus!
