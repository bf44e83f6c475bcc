use vstd::prelude::*;

use crate::display::{
    after_render, banner_column, centred_column, fit_to_width, fitted, interior, needs_redraw,
    now_playing_line, track_line, Banner, CacheView, DisplayCache,
};
use crate::spotify_client_auth::{SpotifyClientAuth, SpotifyCurrentPlaying};
use crate::text::{same_text, string_from_chars};

verus! {

/// How keys are read: as selections and confirmations, or as a command line.
#[derive(Debug, Clone, Copy, PartialEq, Eq, Structural)]
pub enum TuiState {
    CommandMode,
    NormalMode,
}

/// The playback control that the confirm key acts on.
#[derive(Debug, Clone, Copy, PartialEq, Eq, Structural)]
pub enum Control {
    Pause,
    SkipBack,
    SkipForward,
}

/// A key of the keyboard, as far as the controls tell keys apart.
#[derive(Debug, Clone, Copy, PartialEq, Eq, Structural)]
pub enum Key {
    Char(char),
    Enter,
    Esc,
    Backspace,
    Left,
    Right,
    Other,
}

/// A key press; `ctrl` holds when Control was the only modifier held.
#[derive(Debug, Clone, Copy, PartialEq, Eq, Structural)]
pub struct KeyPress {
    pub key: Key,
    pub ctrl: bool,
}

/// What the caller has to do after a key press has been handled.
#[derive(Debug, Clone, Copy, PartialEq, Eq, Structural)]
pub enum InputAction {
    Nothing,
    /// Perform the playback operation of this control.
    Playback(Control),
    /// Show the command being typed.
    ShowCommand,
    /// Show the current bearer token.
    PrintToken,
    /// Clear the whole screen.
    ClearScreen,
}

/// The control surface: the credentials it acts with, the mode, whether it
/// runs, the selected control, the command being typed (only ever in command
/// mode) and the banner's redraw cache.
pub struct Tui {
    pub auth: SpotifyClientAuth,
    pub state: TuiState,
    pub running: bool,
    pub control: Control,
    pub pending: Option<Vec<char>>,
    pub cache: DisplayCache,
}

/// The state of a `Tui` apart from its credentials, as plain values.
pub struct TuiView {
    pub state: TuiState,
    pub running: bool,
    pub control: Control,
    pub pending: Option<Seq<char>>,
    pub cache: CacheView,
}

impl View for Tui {
    type V = TuiView;

    open spec fn view(&self) -> TuiView {
        TuiView {
            state: self.state,
            running: self.running,
            control: self.control,
            pending: match self.pending {
                Some(b) => Some(b@),
                None => None,
            },
            cache: self.cache@,
        }
    }
}

/// The key press that switches between the two modes: Control and `c`.
pub open spec fn is_toggle(k: KeyPress) -> bool {
    k.ctrl && k.key == Key::Char('c')
}

/// The other mode.
pub open spec fn toggled(s: TuiState) -> TuiState {
    match s {
        TuiState::CommandMode => TuiState::NormalMode,
        TuiState::NormalMode => TuiState::CommandMode,
    }
}

/// The control that a key selects in normal mode, two keys for each.
pub open spec fn selection_for(key: Key) -> Option<Control> {
    match key {
        Key::Char('p') | Key::Char(' ') => Some(Control::Pause),
        Key::Char('b') | Key::Left => Some(Control::SkipBack),
        Key::Char('f') | Key::Right => Some(Control::SkipForward),
        _ => None,
    }
}

/// The state after the command line `cmd` is run: `:q` stops, `:c` forgets
/// the banner, every other line changes nothing.
pub open spec fn command_view(v: TuiView, cmd: Seq<char>) -> TuiView {
    if cmd == ":q"@ {
        TuiView { state: TuiState::NormalMode, running: false, ..v }
    } else if cmd == ":print_token"@ {
        v
    } else if cmd == ":c"@ {
        TuiView { cache: CacheView { line: None, width: v.cache.width }, ..v }
    } else {
        v
    }
}

/// What the caller does after the command line `cmd` is run.
pub open spec fn command_action(cmd: Seq<char>) -> InputAction {
    if cmd == ":q"@ {
        InputAction::Nothing
    } else if cmd == ":print_token"@ {
        InputAction::PrintToken
    } else if cmd == ":c"@ {
        InputAction::ClearScreen
    } else {
        InputAction::Nothing
    }
}

impl TuiView {
    /// The command being typed lives only in command mode.
    pub open spec fn wf(self) -> bool {
        self.pending is Some ==> self.state == TuiState::CommandMode
    }

    /// The state after key press `k`.
    pub open spec fn after_key(self, k: KeyPress) -> TuiView {
        match self.pending {
            Some(buf) => match k.key {
                Key::Esc => TuiView { pending: None, ..self },
                Key::Enter => command_view(TuiView { pending: None, ..self }, buf),
                Key::Backspace => TuiView {
                    pending: Some(if buf.len() > 0 { buf.drop_last() } else { buf }),
                    ..self
                },
                Key::Char(c) => TuiView { pending: Some(buf.push(c)), ..self },
                _ => self,
            },
            None => {
                let mode = if is_toggle(k) { toggled(self.state) } else { self.state };
                if mode == TuiState::CommandMode {
                    if k.key == Key::Char(':') {
                        TuiView { state: mode, pending: Some(seq![':']), ..self }
                    } else {
                        TuiView { state: mode, ..self }
                    }
                } else {
                    match selection_for(k.key) {
                        Some(c) => TuiView { state: mode, control: c, ..self },
                        None => TuiView { state: mode, ..self },
                    }
                }
            },
        }
    }

    /// What the caller does after key press `k`.
    pub open spec fn action_for(self, k: KeyPress) -> InputAction {
        match self.pending {
            Some(buf) => match k.key {
                Key::Esc => InputAction::Nothing,
                Key::Enter => command_action(buf),
                _ => InputAction::ShowCommand,
            },
            None => {
                let mode = if is_toggle(k) { toggled(self.state) } else { self.state };
                if mode == TuiState::CommandMode {
                    if k.key == Key::Char(':') {
                        InputAction::ShowCommand
                    } else {
                        InputAction::Nothing
                    }
                } else if k.key == Key::Enter {
                    InputAction::Playback(self.control)
                } else {
                    InputAction::Nothing
                }
            },
        }
    }
}

/// No key pressed in command mode changes the selected control.
pub proof fn lemma_command_mode_keeps_selection(v: TuiView, k: KeyPress)
    requires
        v.state == TuiState::CommandMode,
    ensures
        v.after_key(k).control == v.control,
{
}

/// Switching mode twice in a row comes back to the mode, and the whole state,
/// that it started from.
pub proof fn lemma_toggle_twice(v: TuiView, k: KeyPress)
    requires
        v.pending is None,
        is_toggle(k),
    ensures
        toggled(toggled(v.state)) == v.state,
        v.after_key(k).after_key(k) == v,
{
}

/// Only the exact command lines act: `:print_token` changes no state, and
/// every line but `:q`, `:print_token` and `:c` does nothing at all.
pub proof fn lemma_only_exact_commands(v: TuiView, cmd: Seq<char>)
    ensures
        command_view(v, ":print_token"@) == v,
        command_action(":print_token"@) == InputAction::PrintToken,
        !command_view(v, ":q"@).running,
        command_view(v, ":c"@).cache.line is None,
        command_action(":c"@) == InputAction::ClearScreen,
        (cmd != ":q"@ && cmd != ":print_token"@ && cmd != ":c"@) ==> command_view(v, cmd) == v
            && command_action(cmd) == InputAction::Nothing,
{
    reveal_strlit(":q");
    reveal_strlit(":c");
    reveal_strlit(":print_token");
    assert(":q"@ != ":print_token"@ && ":c"@ != ":print_token"@ && ":c"@ != ":q"@) by {
        assert(":q"@.len() != ":print_token"@.len());
        assert(":c"@.len() != ":print_token"@.len());
        assert(":c"@[1] != ":q"@[1]);
    }
}

/// A bordered label to draw: its text and where its text, borders, corners
/// and rules stand.
pub struct BoxedLabel {
    pub text: String,
    pub highlighted: bool,
    /// Column of the text's first character.
    pub text_x: u16,
    /// Row of the text and of the side borders.
    pub row: u16,
    /// Columns of the left and right borders and corners.
    pub left: u16,
    pub right: u16,
    /// Rows of the top and bottom rules.
    pub top: u16,
    pub bottom: u16,
    /// Length of each rule, between the corners.
    pub rule_len: u16,
}

/// Whether `b` frames `label` with its text row at `row`, `padding` columns
/// each side, and its left border at column `x`.
pub open spec fn frames(b: BoxedLabel, label: Seq<char>, row: u16, padding: u16, x: u16) -> bool {
    &&& b.text@ == label
    &&& b.text_x == x + 1 + padding
    &&& b.row == row
    &&& b.left == x
    &&& b.right == x + label.len() + 1 + 2 * padding
    &&& b.top == row - 1
    &&& b.bottom == row + 1
    &&& b.rule_len == label.len() + 2 * padding
}

impl Tui {
    /// A surface in normal mode, not yet running, with `Pause` selected and an
    /// empty redraw cache.
    pub fn new(auth: SpotifyClientAuth) -> (r: Tui)
        ensures
            r.auth == auth,
            r@ == (TuiView {
                state: TuiState::NormalMode,
                running: false,
                control: Control::Pause,
                pending: None,
                cache: CacheView { line: None, width: 0 },
            }),
            r@.wf(),
    {
        Tui {
            auth,
            state: TuiState::NormalMode,
            running: false,
            control: Control::Pause,
            pending: None,
            cache: DisplayCache::new(),
        }
    }

    /// Handles one key press: switches mode, selects, confirms, or edits and
    /// runs the command line, and says what the caller has to do.
    pub fn handle_input(&mut self, key: KeyPress) -> (r: InputAction)
        requires
            old(self)@.wf(),
        ensures
            final(self)@ == old(self)@.after_key(key),
            r == old(self)@.action_for(key),
            final(self).auth == old(self).auth,
            final(self)@.wf(),
    {
        if self.pending.is_some() {
            return self.handle_colon_command(key.key);
        }
        if key.ctrl && key.key == Key::Char('c') {
            self.state = match self.state {
                TuiState::CommandMode => TuiState::NormalMode,
                TuiState::NormalMode => TuiState::CommandMode,
            };
        }
        if self.state == TuiState::CommandMode {
            if key.key == Key::Char(':') {
                self.pending = Some(vec![':']);
                proof {
                    assert(self@.pending == Some(seq![':']));
                }
                return InputAction::ShowCommand;
            }
            return InputAction::Nothing;
        }
        match key.key {
            Key::Char('p') | Key::Char(' ') => {
                self.control = Control::Pause;
                InputAction::Nothing
            },
            Key::Char('b') | Key::Left => {
                self.control = Control::SkipBack;
                InputAction::Nothing
            },
            Key::Char('f') | Key::Right => {
                self.control = Control::SkipForward;
                InputAction::Nothing
            },
            Key::Enter => InputAction::Playback(self.control),
            _ => InputAction::Nothing,
        }
    }

    /// Edits the command being typed: `Esc` drops it, `Enter` runs it,
    /// `Backspace` removes its last character, any other character is added.
    pub fn handle_colon_command(&mut self, key: Key) -> (r: InputAction)
        requires
            old(self)@.pending is Some,
            old(self)@.wf(),
        ensures
            final(self)@ == old(self)@.after_key(KeyPress { key, ctrl: false }),
            r == old(self)@.action_for(KeyPress { key, ctrl: false }),
            final(self).auth == old(self).auth,
            final(self)@.wf(),
    {
        let mut buf = match self.pending.take() {
            Some(b) => b,
            None => {
                return InputAction::Nothing;
            },
        };
        match key {
            Key::Esc => InputAction::Nothing,
            Key::Enter => {
                let cmd = string_from_chars(&buf);
                self.handle_command(cmd.as_str())
            },
            Key::Backspace => {
                buf.pop();
                self.pending = Some(buf);
                InputAction::ShowCommand
            },
            Key::Char(c) => {
                buf.push(c);
                self.pending = Some(buf);
                InputAction::ShowCommand
            },
            _ => {
                self.pending = Some(buf);
                InputAction::ShowCommand
            },
        }
    }

    /// Runs a command line, matched exactly: `:q` stops the surface, `:c`
    /// forgets the drawn banner and asks for a cleared screen, `:print_token`
    /// asks for the token to be shown; anything else is ignored.
    pub fn handle_command(&mut self, command: &str) -> (r: InputAction)
        ensures
            final(self)@ == command_view(old(self)@, command@),
            r == command_action(command@),
            final(self).auth == old(self).auth,
            final(self).pending == old(self).pending,
    {
        if same_text(command, ":q") {
            self.state = TuiState::NormalMode;
            self.running = false;
            InputAction::Nothing
        } else if same_text(command, ":print_token") {
            InputAction::PrintToken
        } else if same_text(command, ":c") {
            self.cache.forget();
            InputAction::ClearScreen
        } else {
            InputAction::Nothing
        }
    }

    /// The banner for `track` at terminal width `width`, or `None` when the
    /// same line was last drawn at the same width.
    pub fn render_current_playing(&mut self, track: &Option<SpotifyCurrentPlaying>, width: u16) -> (r: Option<Banner>)
        ensures
            final(self)@ == (TuiView { cache: after_render(track_line(*track), width), ..old(self)@ }),
            final(self).auth == old(self).auth,
            r is Some <==> needs_redraw(old(self)@.cache, track_line(*track), width),
            r matches Some(b) ==> b.text@ == fitted(track_line(*track), interior(width))
                && b.column == centred_column(width, b.text@.len() as int) && b.width == width,
    {
        let line = now_playing_line(track);
        if !self.cache.observe(line.as_str(), width) {
            return None;
        }
        let text = fit_to_width(line.as_str(), width);
        let column = banner_column(width, text.as_str().unicode_len());
        Some(Banner { text, column, width })
    }

    /// The label of the pause control, framed and highlighted when selected.
    pub fn render_pause(&self, start_index: u16, padding: u16, start_x: u16) -> (r: BoxedLabel)
        requires
            1 <= start_index < u16::MAX,
            start_x + 6 + 2 * padding <= u16::MAX,
        ensures
            frames(r, "Pause"@, start_index, padding, start_x),
            r.highlighted == (self.control == Control::Pause),
    {
        proof {
            reveal_strlit("Pause");
        }
        render_box_around_text("Pause", start_index, padding, start_x, self.control == Control::Pause)
    }

    /// The label of the skip-back control, framed and highlighted when selected.
    pub fn render_skip_back(&self, start_index: u16, padding: u16, start_x: u16) -> (r: BoxedLabel)
        requires
            1 <= start_index < u16::MAX,
            start_x + 3 + 2 * padding <= u16::MAX,
        ensures
            frames(r, "<-"@, start_index, padding, start_x),
            r.highlighted == (self.control == Control::SkipBack),
    {
        proof {
            reveal_strlit("<-");
        }
        render_box_around_text("<-", start_index, padding, start_x, self.control == Control::SkipBack)
    }

    /// The label of the skip-forward control, framed and highlighted when selected.
    pub fn render_skip_forward(&self, start_index: u16, padding: u16, start_x: u16) -> (r: BoxedLabel)
        requires
            1 <= start_index < u16::MAX,
            start_x + 3 + 2 * padding <= u16::MAX,
        ensures
            frames(r, "->"@, start_index, padding, start_x),
            r.highlighted == (self.control == Control::SkipForward),
    {
        proof {
            reveal_strlit("->");
        }
        render_box_around_text("->", start_index, padding, start_x, self.control == Control::SkipForward)
    }

    /// The mode line: the name of the current mode.
    pub fn render_state(&self) -> (r: String)
        ensures
            r@ == match self.state {
                TuiState::CommandMode => "Command Mode"@,
                TuiState::NormalMode => "Normal Mode"@,
            },
    {
        match self.state {
            TuiState::CommandMode => String::from_str("Command Mode"),
            TuiState::NormalMode => String::from_str("Normal Mode"),
        }
    }

    /// The command being typed, when there is one.
    pub fn pending_command(&self) -> (r: Option<String>)
        ensures
            match self.pending {
                Some(b) => r matches Some(s) && s@ == b@,
                None => r is None,
            },
    {
        match &self.pending {
            Some(b) => Some(string_from_chars(b)),
            None => None,
        }
    }
}

/// `label` framed with its text row at `start_index`, `padding` columns each
/// side, and its left border at column `start_x`.
pub fn render_box_around_text(label: &str, start_index: u16, padding: u16, start_x: u16, highlighted: bool) -> (r: BoxedLabel)
    requires
        1 <= start_index < u16::MAX,
        start_x + label@.len() + 1 + 2 * padding <= u16::MAX,
    ensures
        frames(r, label@, start_index, padding, start_x),
        r.highlighted == highlighted,
{
    let len = label.unicode_len() as u16;
    BoxedLabel {
        text: String::from_str(label),
        highlighted,
        text_x: start_x + 1 + padding,
        row: start_index,
        left: start_x,
        right: start_x + len + 1 + 2 * padding,
        top: start_index - 1,
        bottom: start_index + 1,
        rule_len: len + 2 * padding,
    }
}

} // verus!
