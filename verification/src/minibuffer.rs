//! The minibuffer: a transient panel at the bottom of the workspace.
//!
//! The workspace's bottom panel is either empty, an empty minibuffer opened
//! with its toggle, content shown in the minibuffer (a picker, a popup, ...),
//! or something else. Opening remembers what had focus, and closing gives it
//! back. Content can use the fixed-height panel or a strip one line tall.
//!
//! Focus targets are named by ids that the workspace hands out.

use vstd::prelude::*;

verus! {

/// The fixed height of the panel, in logical pixels.
pub const MINIBUFFER_HEIGHT: u32 = 400;

/// How tall the minibuffer is drawn.
#[derive(PartialEq, Eq, Structural, Clone, Copy, Debug)]
pub enum MinibufferHeight {
    /// One line of text.
    LineHeight,
    /// The fixed panel height, in logical pixels.
    Fixed(u32),
}

/// The height of the minibuffer chrome.
pub fn minibuffer_height(single_line: bool) -> (r: MinibufferHeight)
    ensures
        r == if single_line {
            MinibufferHeight::LineHeight
        } else {
            MinibufferHeight::Fixed(MINIBUFFER_HEIGHT)
        },
{
    if single_line {
        MinibufferHeight::LineHeight
    } else {
        MinibufferHeight::Fixed(MINIBUFFER_HEIGHT)
    }
}

/// An empty minibuffer, opened with its toggle.
#[derive(PartialEq, Eq, Structural, Clone, Copy, Debug)]
pub struct MiniBuffer {
    /// What to focus when it closes, captured when it opened.
    pub previous_focus: Option<u64>,
    pub single_line: bool,
}

impl MiniBuffer {
    /// A minibuffer opened while `focused` had focus.
    pub fn new(focused: Option<u64>) -> (r: Self)
        ensures
            r.previous_focus == focused,
            !r.single_line,
    {
        MiniBuffer { previous_focus: focused, single_line: false }
    }

    /// Switches between the one-line strip and the fixed-height panel.
    pub fn set_single_line(&mut self, single_line: bool)
        ensures
            final(self).single_line == single_line,
            final(self).previous_focus == old(self).previous_focus,
    {
        self.single_line = single_line;
    }

    /// Escape: hands over what to focus as the minibuffer closes; the target
    /// is forgotten, so it is handed over at most once.
    pub fn take_previous_focus(&mut self) -> (r: Option<u64>)
        ensures
            r == old(self).previous_focus,
            final(self).previous_focus is None,
            final(self).single_line == old(self).single_line,
    {
        let r = self.previous_focus;
        self.previous_focus = None;
        r
    }
}

/// Content shown in the minibuffer.
#[derive(PartialEq, Eq, Structural, Clone, Copy, Debug)]
pub struct MinibufferHost {
    /// The view shown.
    pub content: u64,
    pub single_line: bool,
    /// What to focus when the content is dismissed, captured when shown.
    pub previous_focus: Option<u64>,
}

/// What the workspace's bottom panel holds.
#[derive(PartialEq, Eq, Structural, Clone, Copy, Debug)]
pub enum BottomPanel {
    Empty,
    MiniBuffer(MiniBuffer),
    Host(MinibufferHost),
    /// Something that is not the minibuffer.
    Other,
}

/// The panel and focus target after the toggle: an open empty minibuffer
/// closes and gives focus back; otherwise a new one replaces the panel's
/// contents and takes focus (`own_focus`).
pub open spec fn toggle_spec(panel: BottomPanel, focused: Option<u64>, own_focus: u64) -> (BottomPanel, Option<u64>) {
    match panel {
        BottomPanel::MiniBuffer(m) => (BottomPanel::Empty, m.previous_focus),
        _ => (BottomPanel::MiniBuffer(MiniBuffer { previous_focus: focused, single_line: false }), Some(own_focus)),
    }
}

/// The panel after showing `content`, whose focus target is `content_focus`:
/// it replaces whatever the panel held and takes focus.
pub open spec fn show_spec(content: u64, single_line: bool, focused: Option<u64>) -> BottomPanel {
    BottomPanel::Host(MinibufferHost { content, single_line, previous_focus: focused })
}

/// The panel and focus target after `content` is dismissed. Only content the
/// panel still shows reacts: the panel empties, and focus goes back to what
/// had it before, but only if the content still held focus (so a picker that
/// moved focus to what it opened keeps it there).
pub open spec fn dismiss_spec(panel: BottomPanel, content: u64, content_has_focus: bool) -> (BottomPanel, Option<u64>) {
    match panel {
        BottomPanel::Host(h) => if h.content == content {
            (BottomPanel::Empty, if content_has_focus { h.previous_focus } else { None })
        } else {
            (panel, None)
        },
        _ => (panel, None),
    }
}

/// The panel after switching shown content to or from the one-line strip;
/// anything but shown content is left alone.
pub open spec fn set_single_line_spec(panel: BottomPanel, single_line: bool) -> BottomPanel {
    match panel {
        BottomPanel::Host(h) => BottomPanel::Host(MinibufferHost { single_line, ..h }),
        _ => panel,
    }
}

/// The panel and focus target after Escape in an empty minibuffer: it
/// closes and gives focus back.
pub open spec fn cancel_spec(panel: BottomPanel) -> (BottomPanel, Option<u64>) {
    match panel {
        BottomPanel::MiniBuffer(m) => (BottomPanel::Empty, m.previous_focus),
        _ => (panel, None),
    }
}

/// The workspace's bottom panel, as far as the minibuffer is concerned.
pub struct Minibuffers {
    pub panel: BottomPanel,
}

impl Minibuffers {
    /// An empty bottom panel.
    pub fn new() -> (r: Self)
        ensures
            r.panel == BottomPanel::Empty,
    {
        Minibuffers { panel: BottomPanel::Empty }
    }

    /// The toggle; returns what to focus, if anything.
    pub fn toggle(&mut self, focused: Option<u64>, own_focus: u64) -> (r: Option<u64>)
        ensures
            (final(self).panel, r) == toggle_spec(old(self).panel, focused, own_focus),
    {
        match self.panel {
            BottomPanel::MiniBuffer(m) => {
                self.panel = BottomPanel::Empty;
                m.previous_focus
            },
            _ => {
                self.panel = BottomPanel::MiniBuffer(MiniBuffer::new(focused));
                Some(own_focus)
            },
        }
    }

    /// Shows `content` (focus target `content_focus`) while `focused` has
    /// focus; returns what to focus.
    pub fn show_with_options(&mut self, content: u64, content_focus: u64, single_line: bool, focused: Option<u64>) -> (r: u64)
        ensures
            final(self).panel == show_spec(content, single_line, focused),
            r == content_focus,
    {
        self.panel = BottomPanel::Host(MinibufferHost { content, single_line, previous_focus: focused });
        content_focus
    }

    /// Shows `content` in the fixed-height panel; returns what to focus.
    pub fn show(&mut self, content: u64, content_focus: u64, focused: Option<u64>) -> (r: u64)
        ensures
            final(self).panel == show_spec(content, false, focused),
            r == content_focus,
    {
        self.show_with_options(content, content_focus, false, focused)
    }

    /// `content` asked to close; returns what to focus, if anything.
    pub fn dismiss(&mut self, content: u64, content_has_focus: bool) -> (r: Option<u64>)
        ensures
            (final(self).panel, r) == dismiss_spec(old(self).panel, content, content_has_focus),
    {
        match self.panel {
            BottomPanel::Host(h) => {
                if h.content == content {
                    self.panel = BottomPanel::Empty;
                    if content_has_focus {
                        h.previous_focus
                    } else {
                        None
                    }
                } else {
                    None
                }
            },
            _ => None,
        }
    }

    /// Switches shown content between the strip and the panel.
    pub fn set_single_line(&mut self, single_line: bool)
        ensures
            final(self).panel == set_single_line_spec(old(self).panel, single_line),
    {
        match self.panel {
            BottomPanel::Host(h) => {
                self.panel = BottomPanel::Host(MinibufferHost { single_line, ..h });
            },
            _ => {},
        }
    }

    /// Escape in an empty minibuffer; returns what to focus, if anything.
    pub fn cancel(&mut self) -> (r: Option<u64>)
        ensures
            (final(self).panel, r) == cancel_spec(old(self).panel),
    {
        match self.panel {
            BottomPanel::MiniBuffer(m) => {
                self.panel = BottomPanel::Empty;
                m.previous_focus
            },
            _ => None,
        }
    }

    /// Whether the panel holds the minibuffer at all.
    pub fn is_open(&self) -> (r: bool)
        ensures
            r == (self.panel is MiniBuffer || self.panel is Host),
    {
        match self.panel {
            BottomPanel::MiniBuffer(_) | BottomPanel::Host(_) => true,
            _ => false,
        }
    }

    /// The content shown, if any.
    pub fn shown_content(&self) -> (r: Option<u64>)
        ensures
            match self.panel {
                BottomPanel::Host(h) => r == Some(h.content),
                _ => r is None,
            },
    {
        match self.panel {
            BottomPanel::Host(h) => Some(h.content),
            _ => None,
        }
    }
}

/// Toggling twice, from a panel without an open empty minibuffer, leaves the
/// panel empty and gives focus back to what had it before.
pub proof fn lemma_toggle_twice_restores_focus(panel: BottomPanel, focused: Option<u64>, own_focus: u64)
    requires
        !(panel is MiniBuffer),
    ensures
        toggle_spec(toggle_spec(panel, focused, own_focus).0, Some(own_focus), own_focus) == (
            BottomPanel::Empty,
            focused,
        ),
{
}

/// Showing content and then dismissing it while it holds focus leaves the
/// panel empty and gives focus back to what had it before.
pub proof fn lemma_show_then_dismiss_restores_focus(content: u64, single_line: bool, focused: Option<u64>)
    ensures
        dismiss_spec(show_spec(content, single_line, focused), content, true) == (
            BottomPanel::Empty,
            focused,
        ),
{
}

/// Switching to or from the one-line strip changes nothing but the strip
/// flag: the content shown and the focus to restore stay.
pub proof fn lemma_set_single_line_keeps_content(panel: BottomPanel, single_line: bool, content: u64, has_focus: bool)
    ensures
        set_single_line_spec(panel, single_line) is Host <==> panel is Host,
        panel matches BottomPanel::Host(h) ==> set_single_line_spec(panel, single_line)
            == BottomPanel::Host(MinibufferHost { single_line, ..h }),
        dismiss_spec(set_single_line_spec(panel, single_line), content, has_focus).1 == dismiss_spec(
            panel,
            content,
            has_focus,
        ).1,
{
}

} // verus!
