//! The shell session: the state machine that turns one key event into
//! either a buffer mutation, history navigation, or dispatch of the
//! completed line — composing the line editor, the history and the command
//! registry.
//!
//! The surrounding event loop feeds key events in, paints the returned
//! instructions, runs the named handler (if any) between the two
//! instruction lists, and tears the session down on `exit` or when the
//! handler requests a mode switch. One event is fully processed before the
//! next is accepted; nothing here blocks.

use vstd::prelude::*;
use vstd::string::*;

use crate::commands::{cmd_of, not_found_message, Cmd, CommandManager, DispatchAction};
use crate::editor::{
    backspace_ops, del_ops, ed_backspace, ed_del, ed_end, ed_end_line, ed_insert, ed_left,
    ed_right, ed_set, ed_start, ed_start_line, end_line_ops, input_char_ops, move_left_ops,
    move_right_ops, set_buffer_ops, start_line_ops, write_line_ops, EdV, TextInput,
    MAX_LINE_TOTAL,
};
use crate::history::{
    cache_spec, newer_result, newer_state, older_result, older_state, push_spec, reset_spec,
    HistV, History,
};
use crate::paint::PaintOp;
use crate::text::{lemma_tokens_nonempty, lemma_trim_spec, tokens_spec, trim, trim_spec};

verus! {

/// Modifier set of a key event, minimally discriminated.
#[derive(Clone, Copy, PartialEq, Eq, Structural, Debug)]
pub enum KeyModifiers {
    /// No modifier held.
    Plain,
    /// Shift alone.
    Shift,
    /// Control alone.
    Control,
    /// Any other combination.
    Other,
}

/// One key event, minimally discriminated.
#[derive(Clone, Copy, PartialEq, Eq, Structural, Debug)]
pub enum KeyEvent {
    /// A printable character with its modifier set.
    Char(char, KeyModifiers),
    Backspace,
    Delete,
    Enter,
    Left,
    Right,
    Up,
    Down,
    Tab,
    /// Shift+Tab.
    BackTab,
    Esc,
    /// Any key this shell does not react to.
    Other,
}

/// A handler invocation the caller must perform: the named command with
/// the full token list (the command name at index 0 included).
pub struct CommandCall {
    pub cmd: Cmd,
    pub tokens: Vec<String>,
}

/// Everything one key event produced.
pub struct EventOutcome {
    /// Leave shell mode (Escape). Command handlers may additionally request
    /// a mode switch through their own return value.
    pub exit: bool,
    /// Paint these first.
    pub ops: Vec<PaintOp>,
    /// Then run this handler, if any.
    pub command: Option<CommandCall>,
    /// Then paint these (the fresh prompt row after a submitted line).
    pub post_ops: Vec<PaintOp>,
}

/// Default capacity of the command history.
pub const MAX_HISTORY_SIZE: usize = 50;

/// Why a session cannot be built.
#[derive(Clone, Copy, PartialEq, Eq, Structural, Debug)]
pub enum ConfigError {
    /// The terminal has no columns at all.
    NoColumns,
    /// The prompt prefix does not fit the terminal (or exceeds the line
    /// capacity).
    PromptTooWide,
}

/// Abstract state of a session: its history and its editor.
#[verifier::ext_equal]
pub ghost struct CliV {
    pub hist: HistV,
    pub ed: EdV,
}

/// History left by submitting a line whose raw content was `content`:
/// browsing resets, and the trimmed line is stored unless it is empty.
pub open spec fn enter_hist(h: HistV, content: Seq<char>) -> HistV {
    let h1 = reset_spec(h);
    let t = trim_spec(content);
    if t.len() == 0 {
        h1
    } else {
        push_spec(h1, t)
    }
}

/// Law: from the idle state, the Up–Down round trip restores the edited
/// line. Up caches the in-progress line as the draft and recalls an entry;
/// Down then recalls exactly the cached draft, back in the idle state, and
/// the editor accepts it unchanged (a line it held always fits its
/// capacity).
pub proof fn lemma_up_down_restores_draft(s: CliV)
    requires
        s.hist.wf(),
        s.ed.wf(),
        s.hist.cursor == 0,
        s.hist.entries.len() > 0,
    ensures
        ({
            let cached = cache_spec(s.hist, s.ed.content);
            let browsing = older_state(cached);
            &&& older_result(cached) is Some
            &&& newer_result(browsing) == Option::Some(s.ed.content)
            &&& newer_state(browsing).cursor == 0
            &&& ed_set(s.ed, s.ed.content).content == s.ed.content
        }),
{
}

/// An event that left the session exactly as it was, with nothing painted.
pub open spec fn no_effect(pre: CliV, post: CliV, r: EventOutcome) -> bool {
    &&& post == pre
    &&& r.ops@.len() == 0
    &&& r.command is None
    &&& r.post_ops@.len() == 0
    &&& !r.exit
}

/// An event that only edited the line: the history is untouched, no
/// handler runs, nothing follows the edit's own instructions.
pub open spec fn edit_step(pre: CliV, post: CliV, r: EventOutcome, ed2: EdV) -> bool {
    &&& post.hist == pre.hist
    &&& post.ed == ed2
    &&& r.command is None
    &&& r.post_ops@.len() == 0
    &&& !r.exit
}

/// The shell session.
pub struct Cli {
    /// History of submitted lines.
    cmd_history: History,
    /// The in-progress line and its repaint engine.
    line_buffer: TextInput,
    /// The command table.
    commands: CommandManager,
}

impl View for Cli {
    type V = CliV;

    closed spec fn view(&self) -> CliV {
        CliV { hist: self.cmd_history@, ed: self.line_buffer@ }
    }
}

impl Cli {
    /// The session's components are well-formed and the command table
    /// holds its registered names.
    pub closed spec fn wf(&self) -> bool {
        &&& self.cmd_history@.wf()
        &&& self.line_buffer@.wf()
        &&& self.commands.wf()
    }

    /// Build a session for a prompt of display width `prefix_len` on a
    /// terminal `cols` columns wide. A terminal with no columns, or
    /// narrower than the prompt, is an unsupported configuration and is
    /// rejected here.
    pub fn new(prefix_len: usize, cols: usize) -> (r: Result<Cli, ConfigError>)
        ensures
            match r {
                Result::Ok(cli) => {
                    &&& cols >= 1
                    &&& prefix_len <= cols
                    &&& prefix_len <= MAX_LINE_TOTAL
                    &&& cli.wf()
                    &&& cli@.ed == (EdV {
                        content: Seq::<char>::empty(),
                        cursor: 0,
                        prefix: prefix_len as int,
                        cols: cols as int,
                    })
                    &&& cli@.hist == (HistV {
                        entries: Seq::<Seq<char>>::empty(),
                        draft: Seq::<char>::empty(),
                        cursor: 0,
                        max: MAX_HISTORY_SIZE as int,
                    })
                },
                Result::Err(e) => {
                    &&& (e == ConfigError::NoColumns <==> cols == 0)
                    &&& (cols == 0 || prefix_len > cols || prefix_len > MAX_LINE_TOTAL)
                },
            },
    {
        if cols == 0 {
            return Result::Err(ConfigError::NoColumns);
        }
        if prefix_len > cols || prefix_len > MAX_LINE_TOTAL {
            return Result::Err(ConfigError::PromptTooWide);
        }
        Result::Ok(
            Cli {
                cmd_history: History::new(MAX_HISTORY_SIZE),
                line_buffer: TextInput::new(prefix_len, cols),
                commands: CommandManager::new(),
            },
        )
    }

    /// Start a fresh input row: anchor the repaint area and paint the
    /// prompt. The caller paints these instructions once before the first
    /// key event.
    pub fn start_line(&mut self) -> (ops: Vec<PaintOp>)
        requires
            old(self).wf(),
        ensures
            final(self).wf(),
            final(self)@.hist == old(self)@.hist,
            final(self)@.ed == ed_start_line(old(self)@.ed),
            start_line_ops(old(self)@.ed, ops@),
    {
        self.line_buffer.start_line()
    }

    /// The current input line, as the editor holds it.
    pub fn get_buffer(&self) -> (r: String)
        requires
            self.wf(),
        ensures
            r@ == self@.ed.content,
    {
        self.line_buffer.get_buffer()
    }

    /// Process one key event. See the type's documentation for how the
    /// caller is expected to act on the outcome.
    pub fn handle_event(&mut self, event: KeyEvent) -> (r: EventOutcome)
        requires
            old(self).wf(),
        ensures
            final(self).wf(),
            match event {
                KeyEvent::Esc => {
                    &&& final(self)@ == old(self)@
                    &&& r.exit
                    &&& r.ops@.len() == 0
                    &&& r.command is None
                    &&& r.post_ops@.len() == 0
                },
                KeyEvent::Backspace => {
                    &&& edit_step(old(self)@, final(self)@, r, ed_backspace(old(self)@.ed))
                    &&& backspace_ops(old(self)@.ed, r.ops@)
                },
                KeyEvent::Delete => {
                    &&& edit_step(old(self)@, final(self)@, r, ed_del(old(self)@.ed))
                    &&& del_ops(old(self)@.ed, r.ops@)
                },
                KeyEvent::Left => {
                    &&& edit_step(old(self)@, final(self)@, r, ed_left(old(self)@.ed))
                    &&& move_left_ops(old(self)@.ed, r.ops@)
                },
                KeyEvent::Right => {
                    &&& edit_step(old(self)@, final(self)@, r, ed_right(old(self)@.ed))
                    &&& move_right_ops(old(self)@.ed, r.ops@)
                },
                KeyEvent::Char(c, m) => {
                    if m == KeyModifiers::Plain || m == KeyModifiers::Shift {
                        &&& edit_step(old(self)@, final(self)@, r, ed_insert(old(self)@.ed, c))
                        &&& input_char_ops(old(self)@.ed, c, r.ops@)
                    } else if m == KeyModifiers::Control && c == 'a' {
                        &&& edit_step(old(self)@, final(self)@, r, ed_start(old(self)@.ed))
                        &&& write_line_ops(
                            ed_start(old(self)@.ed),
                            Option::Some(ed_start(old(self)@.ed).coord()),
                            r.ops@,
                        )
                    } else if m == KeyModifiers::Control && c == 'e' {
                        &&& edit_step(old(self)@, final(self)@, r, ed_end(old(self)@.ed))
                        &&& write_line_ops(
                            ed_end(old(self)@.ed),
                            Option::Some(ed_end(old(self)@.ed).coord()),
                            r.ops@,
                        )
                    } else {
                        no_effect(old(self)@, final(self)@, r)
                    }
                },
                KeyEvent::Up => {
                    let cached = cache_spec(old(self)@.hist, old(self)@.ed.content);
                    &&& final(self)@.hist == older_state(cached)
                    &&& match older_result(cached) {
                        Option::Some(entry) => {
                            &&& final(self)@.ed == ed_set(old(self)@.ed, entry)
                            &&& set_buffer_ops(old(self)@.ed, entry, r.ops@)
                        },
                        Option::None => {
                            &&& final(self)@.ed == old(self)@.ed
                            &&& r.ops@.len() == 0
                        },
                    }
                    &&& r.command is None
                    &&& r.post_ops@.len() == 0
                    &&& !r.exit
                },
                KeyEvent::Down => {
                    &&& final(self)@.hist == newer_state(old(self)@.hist)
                    &&& match newer_result(old(self)@.hist) {
                        Option::Some(entry) => {
                            &&& final(self)@.ed == ed_set(old(self)@.ed, entry)
                            &&& set_buffer_ops(old(self)@.ed, entry, r.ops@)
                        },
                        Option::None => {
                            &&& final(self)@.ed == old(self)@.ed
                            &&& r.ops@.len() == 0
                        },
                    }
                    &&& r.command is None
                    &&& r.post_ops@.len() == 0
                    &&& !r.exit
                },
                KeyEvent::Enter => {
                    let t = trim_spec(old(self)@.ed.content);
                    &&& final(self)@.hist == enter_hist(old(self)@.hist, old(self)@.ed.content)
                    &&& final(self)@.ed == ed_start_line(ed_end_line(old(self)@.ed))
                    &&& end_line_ops(old(self)@.ed, r.ops@.take(4))
                    &&& start_line_ops(ed_end_line(old(self)@.ed), r.post_ops@)
                    &&& !r.exit
                    &&& if t.len() == 0 {
                        &&& r.ops@.len() == 4
                        &&& r.command is None
                    } else {
                        let name = tokens_spec(t)[0];
                        if cmd_of(name) == Cmd::Unknown {
                            &&& r.ops@.len() == 5
                            &&& (match r.ops@[4] {
                                PaintOp::Write(m) => m@ == not_found_message(name),
                                _ => false,
                            })
                            &&& r.command is None
                        } else {
                            &&& r.ops@.len() == 4
                            &&& (match r.command {
                                Option::Some(call) => {
                                    &&& call.cmd == cmd_of(name)
                                    &&& call.tokens@.map_values(|tok: String| tok@)
                                        == tokens_spec(t)
                                },
                                Option::None => false,
                            })
                        }
                    }
                },
                KeyEvent::Tab => no_effect(old(self)@, final(self)@, r),
                KeyEvent::BackTab => no_effect(old(self)@, final(self)@, r),
                KeyEvent::Other => no_effect(old(self)@, final(self)@, r),
            },
    {
        match event {
            KeyEvent::Esc => EventOutcome {
                exit: true,
                ops: Vec::new(),
                command: Option::None,
                post_ops: Vec::new(),
            },
            KeyEvent::Backspace => {
                let ops = self.line_buffer.backspace();
                EventOutcome { exit: false, ops, command: Option::None, post_ops: Vec::new() }
            },
            KeyEvent::Delete => {
                let ops = self.line_buffer.del();
                EventOutcome { exit: false, ops, command: Option::None, post_ops: Vec::new() }
            },
            KeyEvent::Left => {
                let ops = self.line_buffer.move_cursor_left();
                EventOutcome { exit: false, ops, command: Option::None, post_ops: Vec::new() }
            },
            KeyEvent::Right => {
                let ops = self.line_buffer.move_cursor_right();
                EventOutcome { exit: false, ops, command: Option::None, post_ops: Vec::new() }
            },
            KeyEvent::Char(c, m) => {
                let ops: Vec<PaintOp> = if matches!(m, KeyModifiers::Plain) || matches!(
                    m,
                    KeyModifiers::Shift,
                ) {
                    self.line_buffer.input_char(c)
                } else if matches!(m, KeyModifiers::Control) && c == 'a' {
                    self.line_buffer.move_cursor_start()
                } else if matches!(m, KeyModifiers::Control) && c == 'e' {
                    self.line_buffer.move_cursor_end()
                } else {
                    Vec::new()
                };
                EventOutcome { exit: false, ops, command: Option::None, post_ops: Vec::new() }
            },
            KeyEvent::Up => {
                let buffer = self.line_buffer.get_buffer();
                self.cmd_history.cache_user_input(buffer.as_str());
                let ops: Vec<PaintOp> = match self.cmd_history.get_next() {
                    Option::Some(entry) => self.line_buffer.set_buffer(entry.as_str()),
                    Option::None => Vec::new(),
                };
                EventOutcome { exit: false, ops, command: Option::None, post_ops: Vec::new() }
            },
            KeyEvent::Down => {
                let ops: Vec<PaintOp> = match self.cmd_history.get_prev() {
                    Option::Some(entry) => self.line_buffer.set_buffer(entry.as_str()),
                    Option::None => Vec::new(),
                };
                EventOutcome { exit: false, ops, command: Option::None, post_ops: Vec::new() }
            },
            KeyEvent::Enter => {
                self.cmd_history.reset();
                let input = self.line_buffer.get_buffer();
                let trimmed = trim(input.as_str());
                let mut ops = self.line_buffer.end_line();
                let ghost end_ops = ops@;
                let mut command: Option<CommandCall> = Option::None;
                if !trimmed.is_empty() {
                    proof {
                        lemma_trim_spec(input@);
                        lemma_tokens_nonempty(trimmed@);
                    }
                    let dispatch = self.commands.execute(trimmed);
                    let mut dops = dispatch.ops;
                    let ghost dops_view = dops@;
                    ops.append(&mut dops);
                    proof {
                        assert(ops@.take(4) =~= end_ops);
                    }
                    match dispatch.action {
                        DispatchAction::Run(cmd) => {
                            command = Option::Some(CommandCall { cmd, tokens: dispatch.tokens });
                        },
                        DispatchAction::NotFound => {},
                    }
                    self.cmd_history.push(trimmed);
                } else {
                    proof {
                        assert(ops@.take(4) =~= end_ops);
                    }
                }
                let post_ops = self.line_buffer.start_line();
                EventOutcome { exit: false, ops, command, post_ops }
            },
            KeyEvent::Tab => {
                // Reserved for completion: an open extension point of the
                // command table, not handled by this core.
                EventOutcome {
                    exit: false,
                    ops: Vec::new(),
                    command: Option::None,
                    post_ops: Vec::new(),
                }
            },
            KeyEvent::BackTab => EventOutcome {
                exit: false,
                ops: Vec::new(),
                command: Option::None,
                post_ops: Vec::new(),
            },
            KeyEvent::Other => EventOutcome {
                exit: false,
                ops: Vec::new(),
                command: Option::None,
                post_ops: Vec::new(),
            },
        }
    }
}

} // verus!
