//! The session core: input state machine, key routing, single-flight
//! dispatch, stale-highlight suppression and the engine-attachment
//! lifecycle.
//!
//! Every asynchronous step of the session — connecting,
//! running a query, tokenizing — happens outside the library.  The
//! shell exposes a `*_start` function that decides what outside work is
//! due and a `*_finish` function that takes the outside result as a
//! plain value; a driver performs the work in between.  The contracts
//! pin, for each step, exactly what is written to the terminal model,
//! how the history and settings change, and when input is re-enabled.

use vstd::prelude::*;
use crate::buffer::{consumed_text, PromptBuffer};
use crate::history::{ring_push, HistoryRing};
use crate::keys::{Key, KeyEvent, ShellInputContext};
use crate::terminal::{crlf, Terminal};
use crate::text::{
    append_str, append_text, args_of, chars_of, cmd_of, copy_text, crlf_of, dec_spec, ends_with_semicolon,
    first_is_dot, last_is_semicolon, split_command, starts_with_dot, text_eq_str, trim, trim_spec,
    u64_dec,
};

verus! {

broadcast use vstd::string::group_string_axioms;

/// Session settings, mutated only by meta-commands.
pub struct ShellSettings {
    /// Print the elapsed time after each query.
    pub timer: bool,
    /// Whether the surface renders through WebGL.
    pub webgl: bool,
}

/// Options handed to the shell when a terminal is attached.
pub struct ShellOptions {
    /// Whether the surface should render through WebGL.
    pub webgl: bool,
}

/// Named boolean capabilities reported by the platform probe.
pub struct PlatformFeatures {
    pub wasm_exceptions: bool,
    pub wasm_simd: bool,
    pub wasm_bulk_memory: bool,
    pub wasm_threads: bool,
    pub cross_origin_isolated: bool,
}

/// What the key router decided for one event.
pub enum KeyOutcome {
    /// Input was disabled or the event was not a keydown: nothing
    /// happened.
    Ignored,
    /// The event was applied to the buffer as an edit.
    Edited,
    /// The event was applied as an edit and a background highlight
    /// should be triggered.
    EditedPendingHighlight,
    /// A meta-command was submitted; input is now blocked.
    SubmitCommand { text: Vec<char> },
    /// A query was submitted; input is now blocked.
    SubmitQuery { text: Vec<char> },
}

/// The input generation after one buffer-mutating key event.
pub open spec fn bumped(c: u64) -> u64 {
    if c < u64::MAX {
        (c + 1) as u64
    } else {
        c
    }
}

/// The session state: settings, terminal model, input buffer model,
/// input gate, generation counter, history, and the attachment flags
/// for the engine, its connection and the host runtime.
pub struct Shell {
    pub settings: ShellSettings,
    pub terminal: Terminal,
    pub terminal_width: usize,
    /// Whether a host runtime is attached.
    pub runtime: bool,
    pub input: PromptBuffer,
    /// The single-flight gate: key events are dropped while false.
    pub input_enabled: bool,
    /// Generation counter correlating background work with the buffer
    /// state it was computed against.
    pub input_clock: u64,
    pub history: HistoryRing,
    /// Whether an engine is attached.
    pub db: bool,
    /// Whether a connection to the attached engine is open.
    pub db_conn: bool,
}

impl Default for Shell {
    /// The initial session state: defaults, input blocked, empty
    /// history, nothing attached.
    fn default() -> (r: Self)
        ensures
            r.wf(),
            !r.settings.timer,
            !r.settings.webgl,
            r.terminal.out@ == Seq::<char>::empty(),
            r.terminal.line@ == Seq::<char>::empty(),
            r.terminal_width == 100,
            !r.runtime,
            r.input.text@ == Seq::<char>::empty(),
            r.input.markup is None,
            !r.input_enabled,
            r.input_clock == 0,
            r.history.model() == Seq::<Seq<char>>::empty(),
            !r.db,
            !r.db_conn,
    {
        Shell {
            settings: ShellSettings { timer: false, webgl: false },
            terminal: Terminal::new(100),
            terminal_width: 100,
            runtime: false,
            input: PromptBuffer::new(100),
            input_enabled: false,
            input_clock: 0,
            history: HistoryRing::new(),
            db: false,
            db_conn: false,
        }
    }
}

impl Shell {
    /// The session's invariant: the history ring is within bounds.
    pub open spec fn wf(&self) -> bool {
        self.history.wf()
    }

    /// Attaches a terminal surface and a host runtime, caching the
    /// terminal width and adopting the rendering options.
    pub fn attach(&mut self, term: Terminal, runtime: bool, options: ShellOptions)
        ensures
            final(self).terminal == term,
            final(self).terminal_width == term.cols,
            final(self).runtime == runtime,
            final(self).settings.webgl == options.webgl,
            final(self).settings.timer == old(self).settings.timer,
            final(self).input.text@ == old(self).input.text@,
            final(self).input.markup == old(self).input.markup,
            final(self).input.width == term.cols,
            final(self).input_enabled == old(self).input_enabled,
            final(self).input_clock == old(self).input_clock,
            final(self).history == old(self).history,
            final(self).db == old(self).db,
            final(self).db_conn == old(self).db_conn,
    {
        let width: usize = term.get_cols();
        self.terminal = term;
        self.terminal_width = width;
        self.runtime = runtime;
        self.input.configure(width);
        self.settings.webgl = options.webgl;
    }

    /// Writes directly to the terminal.
    pub fn write(&mut self, text: &str)
        ensures
            *final(self) == (Shell { terminal: final(self).terminal, ..*old(self) }),
            final(self).terminal == (Terminal {
                out: final(self).terminal.out,
                ..old(self).terminal
            }),
            final(self).terminal.out@ == old(self).terminal.out@ + text@,
    {
        self.terminal.write_str(text);
    }

    /// Writes a computed line of text directly to the terminal.
    pub fn write_text(&mut self, text: &Vec<char>)
        ensures
            *final(self) == (Shell { terminal: final(self).terminal, ..*old(self) }),
            final(self).terminal == (Terminal {
                out: final(self).terminal.out,
                ..old(self).terminal
            }),
            final(self).terminal.out@ == old(self).terminal.out@ + text@,
    {
        self.terminal.write(text);
    }

    /// Writes to the terminal, ending the line.
    pub fn writeln(&mut self, text: &str)
        ensures
            *final(self) == (Shell { terminal: final(self).terminal, ..*old(self) }),
            final(self).terminal == (Terminal {
                out: final(self).terminal.out,
                ..old(self).terminal
            }),
            final(self).terminal.out@ == old(self).terminal.out@ + text@ + crlf(),
    {
        self.terminal.write_str(text);
        self.terminal.write_str("\r\n");
        proof {
            reveal_strlit("\r\n");
            assert("\r\n"@ =~= crlf());
        }
    }

    /// Writes a computed line to the terminal, ending the line.
    pub fn writeln_text(&mut self, text: &Vec<char>)
        ensures
            *final(self) == (Shell { terminal: final(self).terminal, ..*old(self) }),
            final(self).terminal == (Terminal {
                out: final(self).terminal.out,
                ..old(self).terminal
            }),
            final(self).terminal.out@ == old(self).terminal.out@ + text@ + crlf(),
    {
        self.terminal.write(text);
        self.terminal.write_str("\r\n");
        proof {
            reveal_strlit("\r\n");
            assert("\r\n"@ =~= crlf());
        }
    }

    /// Ends the current terminal line.
    fn write_blank_line(&mut self)
        ensures
            *final(self) == (Shell { terminal: final(self).terminal, ..*old(self) }),
            final(self).terminal == (Terminal {
                out: final(self).terminal.out,
                ..old(self).terminal
            }),
            final(self).terminal.out@ == old(self).terminal.out@ + crlf(),
    {
        self.terminal.write_str("\r\n");
        proof {
            reveal_strlit("\r\n");
            assert("\r\n"@ =~= crlf());
        }
    }

    /// Clears the screen and redraws the prompt; input is re-enabled.
    pub fn clear(&mut self)
        ensures
            *final(self) == (Shell {
                terminal: final(self).terminal,
                input: final(self).input,
                input_enabled: true,
                ..*old(self)
            }),
            final(self).terminal.out@ == Seq::<char>::empty(),
            final(self).terminal.line@ == Seq::<char>::empty(),
            final(self).terminal.focused == old(self).terminal.focused,
            final(self).terminal.cols == old(self).terminal.cols,
            final(self).input.text@ == Seq::<char>::empty(),
            final(self).input.markup is None,
            final(self).input.width == old(self).input.width,
    {
        self.terminal.clear();
        self.prompt();
    }

    /// Blocks all input: the key router drops every event until the
    /// prompt is redrawn.
    pub fn block_input(&mut self)
        ensures
            *final(self) == (Shell { input_enabled: false, ..*old(self) }),
    {
        self.input_enabled = false;
    }

    /// Hands control back to the shell after host-driven input: the
    /// prompt is redrawn and input re-enabled.
    pub fn resume_after_input(&mut self, _ctx: ShellInputContext)
        ensures
            *final(self) == (Shell {
                terminal: final(self).terminal,
                input: final(self).input,
                input_enabled: true,
                ..*old(self)
            }),
            final(self).terminal == (Terminal {
                line: final(self).terminal.line,
                ..old(self).terminal
            }),
            final(self).terminal.line@ == Seq::<char>::empty(),
            final(self).input.text@ == Seq::<char>::empty(),
            final(self).input.markup is None,
            final(self).input.width == old(self).input.width,
    {
        self.prompt();
    }

    /// Starts a fresh prompt: the buffer is emptied, rendered, and
    /// input is re-enabled.
    pub fn prompt(&mut self)
        ensures
            *final(self) == (Shell {
                terminal: final(self).terminal,
                input: final(self).input,
                input_enabled: true,
                ..*old(self)
            }),
            final(self).terminal == (Terminal {
                line: final(self).terminal.line,
                ..old(self).terminal
            }),
            final(self).terminal.line@ == Seq::<char>::empty(),
            final(self).input.text@ == Seq::<char>::empty(),
            final(self).input.markup is None,
            final(self).input.width == old(self).input.width,
    {
        self.input.start_new();
        self.input.flush(&mut self.terminal);
        self.input_enabled = true;
    }

    /// Re-renders the input buffer onto the terminal.
    pub fn flush(&mut self)
        ensures
            *final(self) == (Shell { terminal: final(self).terminal, ..*old(self) }),
            final(self).terminal == (Terminal {
                line: final(self).terminal.line,
                ..old(self).terminal
            }),
            final(self).terminal.line@ == old(self).input.text@,
    {
        self.input.flush(&mut self.terminal);
    }

    /// Takes the input focus.
    pub fn focus(&mut self)
        ensures
            *final(self) == (Shell { terminal: final(self).terminal, ..*old(self) }),
            final(self).terminal == (Terminal { focused: true, ..old(self).terminal }),
    {
        self.terminal.focus();
    }

    /// The shared exit action of every dispatched command or query:
    /// append the submitted line to the history (evicting the oldest
    /// entry when full), end the line, redraw the prompt and re-enable
    /// input.
    fn command_exit(&mut self, text: &Vec<char>)
        requires
            old(self).wf(),
        ensures
            final(self).wf(),
            *final(self) == (Shell {
                terminal: final(self).terminal,
                input: final(self).input,
                input_enabled: true,
                history: final(self).history,
                ..*old(self)
            }),
            final(self).history.model() == ring_push(old(self).history.model(), text@),
            final(self).terminal == (Terminal {
                out: final(self).terminal.out,
                line: final(self).terminal.line,
                ..old(self).terminal
            }),
            final(self).terminal.out@ == old(self).terminal.out@ + crlf(),
            final(self).terminal.line@ == Seq::<char>::empty(),
            final(self).input.text@ == Seq::<char>::empty(),
            final(self).input.markup is None,
            final(self).input.width == old(self).input.width,
    {
        let entry = copy_text(text);
        self.history.push(entry);
        self.write_blank_line();
        self.prompt();
    }

    /// Routes one normalized key event.
    ///
    /// While input is blocked, or outside the keydown phase, the event
    /// is a no-op: state is untouched and the generation counter does
    /// not move, so no second foreground operation can begin while one
    /// is in flight.  Enter submits a command when the trimmed buffer
    /// starts with the command prefix, a query when it ends with the
    /// statement terminator, and otherwise edits the buffer as a
    /// newline.  Every buffer-mutating event advances the generation
    /// counter; it never decreases.
    pub fn on_key(&mut self, event: KeyEvent) -> (r: KeyOutcome)
        requires
            old(self).wf(),
        ensures
            final(self).wf(),
            // generation monotonicity
            final(self).input_clock >= old(self).input_clock,
            // single-flight: events while blocked are no-ops
            !old(self).input_enabled ==> *final(self) == *old(self) && r is Ignored,
            // only the keydown phase is acted on
            !event.keydown ==> *final(self) == *old(self) && r is Ignored,
            // a submission happens only from the enabled state and
            // blocks input
            r is SubmitCommand || r is SubmitQuery ==> old(self).input_enabled
                && !final(self).input_enabled,
            old(self).input_enabled && event.keydown ==> {
                let t = old(self).input.text@;
                &&& final(self).input_clock == bumped(old(self).input_clock)
                &&& final(self).history == old(self).history
                &&& final(self).settings == old(self).settings
                &&& final(self).db == old(self).db
                &&& final(self).db_conn == old(self).db_conn
                &&& final(self).runtime == old(self).runtime
                &&& final(self).terminal_width == old(self).terminal_width
                &&& final(self).terminal.out@ == old(self).terminal.out@
                &&& match event.key {
                    Key::Enter => {
                        if starts_with_dot(t) {
                            &&& r matches KeyOutcome::SubmitCommand { text } && text@ == t
                            &&& !final(self).input_enabled
                            &&& final(self).input == old(self).input
                            &&& final(self).terminal == old(self).terminal
                        } else if ends_with_semicolon(t) {
                            &&& r matches KeyOutcome::SubmitQuery { text } && text@ == t
                            &&& !final(self).input_enabled
                            &&& final(self).input == old(self).input
                            &&& final(self).terminal == old(self).terminal
                        } else {
                            &&& r is Edited
                            &&& final(self).input_enabled
                            &&& final(self).input.text@ == consumed_text(t, event)
                            &&& final(self).terminal.line@ == consumed_text(t, event)
                        }
                    },
                    Key::Char(_) => {
                        &&& r is EditedPendingHighlight
                        &&& final(self).input_enabled
                        &&& final(self).input.text@ == consumed_text(t, event)
                        &&& final(self).terminal.line@ == consumed_text(t, event)
                    },
                    _ => {
                        &&& r is Edited
                        &&& final(self).input_enabled
                        &&& final(self).input.text@ == consumed_text(t, event)
                        &&& final(self).terminal.line@ == consumed_text(t, event)
                    },
                }
            },
    {
        if !self.input_enabled {
            return KeyOutcome::Ignored;
        }
        if !event.keydown {
            return KeyOutcome::Ignored;
        }
        self.bump_clock();
        match event.key {
            Key::Enter => {
                let input = self.input.collect();
                if first_is_dot(&input) {
                    self.block_input();
                    KeyOutcome::SubmitCommand { text: input }
                } else if last_is_semicolon(&input) {
                    self.block_input();
                    KeyOutcome::SubmitQuery { text: input }
                } else {
                    self.input.consume(event);
                    self.flush();
                    KeyOutcome::Edited
                }
            },
            Key::Backspace | Key::ArrowUp | Key::ArrowDown | Key::ArrowLeft
                | Key::ArrowRight => {
                self.input.consume(event);
                self.flush();
                KeyOutcome::Edited
            },
            Key::Char(_) => {
                self.input.consume(event);
                self.flush();
                KeyOutcome::EditedPendingHighlight
            },
        }
    }

    /// Advances the generation counter.
    fn bump_clock(&mut self)
        ensures
            *final(self) == (Shell { input_clock: bumped(old(self).input_clock), ..*old(self) }),
    {
        if self.input_clock < u64::MAX {
            self.input_clock = self.input_clock + 1;
        }
    }

    /// Decides whether a background highlight request is due: the
    /// current buffer text and generation are captured when the text is
    /// not a command and an engine is attached; otherwise the request
    /// is skipped.
    pub fn highlight_input_start(&self) -> (r: Option<(Vec<char>, u64)>)
        ensures
            r is Some <==> self.db && !starts_with_dot(self.input.text@),
            r matches Some((text, generation)) ==> text@ == self.input.text@ && generation
                == self.input_clock,
    {
        let text = self.input.collect();
        if first_is_dot(&text) {
            return None;
        }
        if !self.db {
            return None;
        }
        Some((text, self.input_clock))
    }

    /// Applies a completed background tokenization, unless the
    /// generation advanced while it was in flight: a stale result is
    /// discarded unconditionally and the session is left untouched.
    pub fn highlight_input_finish(&mut self, generation: u64, tokens: Vec<u32>)
        ensures
            generation != old(self).input_clock ==> *final(self) == *old(self),
            generation == old(self).input_clock ==> {
                &&& *final(self) == (Shell {
                    terminal: final(self).terminal,
                    input: final(self).input,
                    ..*old(self)
                })
                &&& final(self).input == (PromptBuffer {
                    markup: Some(tokens),
                    ..old(self).input
                })
                &&& final(self).terminal == (Terminal {
                    line: final(self).terminal.line,
                    ..old(self).terminal
                })
                &&& final(self).terminal.line@ == old(self).input.text@
            },
    {
        if self.input_clock != generation {
            return;
        }
        self.input.highlight_sql(tokens);
        self.flush();
    }
}

/// What the command dispatcher decided for one submitted line.
pub enum CommandAction {
    /// The command was handled in full.
    Done,
    /// The command was handled; the host should now open its file
    /// explorer.
    OpenFileExplorer,
    /// The capability report is due: gather the platform features and,
    /// if an engine is attached, its feature flags, call
    /// [`Shell::configure_command`], then [`Shell::on_command_finish`].
    NeedsConfig,
    /// A file-statistics subcommand is due: call
    /// [`Shell::fstats_command`], perform what it decides, then
    /// [`Shell::on_command_finish`].
    NeedsFstats { args: Vec<char> },
}

/// What the file-statistics dispatcher decided.
pub enum FstatsAction {
    /// No engine is attached: the subcommand is dropped silently.
    NoEngine,
    /// The subcommand was answered directly; nothing is due outside.
    Handled,
    /// Enable statistics for the target, then call
    /// [`Shell::fstats_enabled_note`].
    Enable { target: Vec<char> },
    /// Disable statistics for the target, then call
    /// [`Shell::fstats_enabled_note`].
    Disable { target: Vec<char> },
    /// Export the read statistics for the target, render them, then
    /// call [`Shell::fstats_reads_note`].
    ExportReads { target: Vec<char> },
}

/// What the query path decided at submission.
pub enum SqlAction {
    /// No connection is open; the error was reported and input
    /// re-enabled.
    NoConnection,
    /// Run the query over the connection, then call
    /// [`Shell::on_sql_finish`].
    RunQuery,
}

/// How a query run outside the library ended.
pub enum QueryOutcome {
    /// The result set, already rendered by the formatter, and the
    /// wall-clock time the run took.
    Success { table: Vec<char>, elapsed_ms: u64 },
    /// The engine's error message, verbatim.
    Failure { message: Vec<char> },
}

/// The line written in answer to `.timer` with the given argument.
pub open spec fn timer_response(args: Seq<char>) -> Seq<char> {
    if args == "on"@ {
        "Timer enabled"@ + crlf()
    } else if args == "off"@ {
        "Timer disabled"@ + crlf()
    } else {
        "Usage: .timer [on/off]"@ + crlf()
    }
}

/// The timer setting after `.timer` with the given argument.
pub open spec fn timer_after(timer: bool, args: Seq<char>) -> bool {
    if args == "on"@ {
        true
    } else if args == "off"@ {
        false
    } else {
        timer
    }
}

/// One line of the capability report.
#[verifier::opaque]
pub open spec fn feature_line(name: Seq<char>, desc: Seq<char>, value: bool) -> Seq<char> {
    (if value {
        "[+] "@
    } else {
        "[-] "@
    }) + crate::text::pad_right_spec(name, 24) + " - "@ + desc + crlf()
}

/// The platform section of the capability report.
pub open spec fn platform_report(p: PlatformFeatures) -> Seq<char> {
    crlf() + "Platform Compatibility:"@ + crlf() + feature_line(
        "WebGL 2 Renderer"@,
        "https://chromestatus.com/feature/6694359164518400"@,
        p.wasm_exceptions,
    ) + feature_line(
        "WebAssembly Exceptions"@,
        "https://chromestatus.com/feature/4756734233018368"@,
        p.wasm_exceptions,
    ) + feature_line(
        "WebAssembly SIMD"@,
        "https://chromestatus.com/feature/6533147810332672"@,
        p.wasm_simd,
    ) + feature_line(
        "WebAssembly Bulk Memory"@,
        "https://chromestatus.com/feature/4590306448113664"@,
        p.wasm_bulk_memory,
    ) + feature_line(
        "WebAssembly Threads"@,
        "https://chromestatus.com/feature/5724132452859904"@,
        p.wasm_threads,
    ) + feature_line(
        "Cross Origin Isolated"@,
        "Cross Origin policies allow for multi-threading"@,
        p.cross_origin_isolated,
    )
}

/// The engine section of the capability report.
pub open spec fn bundle_report(flags: u32) -> Seq<char> {
    crlf() + "DuckDB Bundle Features:"@ + crlf() + feature_line(
        "WebAssembly Exceptions"@,
        "Module uses native exceptions"@,
        flags & 0b1 != 0,
    ) + feature_line(
        "WebAssembly SIMD"@,
        "Module uses SIMD instructions"@,
        flags & 0b100 != 0,
    ) + feature_line(
        "WebAssembly Bulk Memory"@,
        "Module uses bulk memory operations"@,
        flags & 0b1000 != 0,
    ) + feature_line(
        "WebAssembly Threads"@,
        "Module uses multiple web-workers"@,
        flags & 0b10 != 0,
    )
}

/// The greeter written when an engine is attached: version, package,
/// and a warning when the fast-path feature bit is unset.
pub open spec fn version_banner(version: Seq<char>, flags: u32) -> Seq<char> {
    "DuckDB Web Shell"@ + crlf() + "Database: "@ + version + crlf()
        + "Package:  @duckdb/duckdb-wasm@0.0.1"@ + crlf() + crlf() + (if flags & 0b1 == 0 {
        " ! DuckDB is not running at full speed."@ + crlf() + "    Enter \".config\" for details."@
            + crlf() + crlf()
    } else {
        Seq::<char>::empty()
    })
}

/// The banner written when the connection is ready.
pub open spec fn connection_ready_banner() -> Seq<char> {
    "Connected to a transient in-memory database."@ + crlf()
        + "Enter \".help\" for usage hints."@ + crlf() + crlf()
}

/// The elapsed-time line written after a timed query.
pub open spec fn elapsed_line(ms: u64) -> Seq<char> {
    "Elapsed: "@ + dec_spec(ms as nat) + " ms"@
}

/// Appends one capability line to the report buffer.
fn push_feature(buf: &mut Vec<char>, name: &str, desc: &str, value: bool)
    ensures
        final(buf)@ == old(buf)@ + feature_line(name@, desc@, value),
{
    if value {
        append_str(buf, "[+] ");
    } else {
        append_str(buf, "[-] ");
    }
    let name_chars = chars_of(name);
    let padded = crate::text::pad_right(&name_chars, 24);
    append_text(buf, &padded);
    append_str(buf, " - ");
    append_str(buf, desc);
    append_str(buf, "\r\n");
    proof {
        reveal(feature_line);
        reveal_strlit("\r\n");
        assert("\r\n"@ =~= crlf());
        assert(buf@ =~= old(buf)@ + feature_line(name@, desc@, value));
    }
}

/// Builds the platform section of the capability report.
fn build_platform_report(platform: &PlatformFeatures) -> (r: Vec<char>)
    ensures
        r@ == platform_report(*platform),
{
    let mut buf: Vec<char> = Vec::new();
    append_str(&mut buf, "\r\n");
    append_str(&mut buf, "Platform Compatibility:");
    append_str(&mut buf, "\r\n");
    proof {
        reveal_strlit("\r\n");
        assert("\r\n"@ =~= crlf());
        assert(buf@ =~= crlf() + "Platform Compatibility:"@ + crlf());
    }
    push_feature(
        &mut buf,
        "WebGL 2 Renderer",
        "https://chromestatus.com/feature/6694359164518400",
        platform.wasm_exceptions,
    );
    push_feature(
        &mut buf,
        "WebAssembly Exceptions",
        "https://chromestatus.com/feature/4756734233018368",
        platform.wasm_exceptions,
    );
    push_feature(
        &mut buf,
        "WebAssembly SIMD",
        "https://chromestatus.com/feature/6533147810332672",
        platform.wasm_simd,
    );
    push_feature(
        &mut buf,
        "WebAssembly Bulk Memory",
        "https://chromestatus.com/feature/4590306448113664",
        platform.wasm_bulk_memory,
    );
    push_feature(
        &mut buf,
        "WebAssembly Threads",
        "https://chromestatus.com/feature/5724132452859904",
        platform.wasm_threads,
    );
    push_feature(
        &mut buf,
        "Cross Origin Isolated",
        "Cross Origin policies allow for multi-threading",
        platform.cross_origin_isolated,
    );
    buf
}

/// Appends the engine section of the capability report.
fn append_bundle_report(buf: &mut Vec<char>, flags: u32)
    ensures
        final(buf)@ == old(buf)@ + bundle_report(flags),
{
    append_str(buf, "\r\n");
    append_str(buf, "DuckDB Bundle Features:");
    append_str(buf, "\r\n");
    proof {
        reveal_strlit("\r\n");
        assert("\r\n"@ =~= crlf());
        assert(buf@ =~= old(buf)@ + (crlf() + "DuckDB Bundle Features:"@ + crlf()));
    }
    push_feature(buf, "WebAssembly Exceptions", "Module uses native exceptions", flags & 0b1 != 0);
    push_feature(buf, "WebAssembly SIMD", "Module uses SIMD instructions", flags & 0b100 != 0);
    push_feature(
        buf,
        "WebAssembly Bulk Memory",
        "Module uses bulk memory operations",
        flags & 0b1000 != 0,
    );
    push_feature(buf, "WebAssembly Threads", "Module uses multiple web-workers", flags & 0b10 != 0);
    proof {
        assert(buf@ =~= old(buf)@ + bundle_report(flags));
    }
}

/// The command names of the dispatch table are pairwise distinct.
proof fn lemma_command_literals_distinct()
    ensures
        ".clear"@ != ".help"@,
        ".clear"@ != ".quit"@,
        ".clear"@ != ".config"@,
        ".clear"@ != ".timer"@,
        ".clear"@ != ".fstats"@,
        ".clear"@ != ".files"@,
        ".help"@ != ".quit"@,
        ".help"@ != ".config"@,
        ".help"@ != ".timer"@,
        ".help"@ != ".fstats"@,
        ".help"@ != ".files"@,
        ".quit"@ != ".config"@,
        ".quit"@ != ".timer"@,
        ".quit"@ != ".fstats"@,
        ".quit"@ != ".files"@,
        ".config"@ != ".timer"@,
        ".config"@ != ".fstats"@,
        ".config"@ != ".files"@,
        ".timer"@ != ".fstats"@,
        ".timer"@ != ".files"@,
        ".fstats"@ != ".files"@,
{
    reveal_strlit(".clear");
    reveal_strlit(".help");
    reveal_strlit(".quit");
    reveal_strlit(".config");
    reveal_strlit(".timer");
    reveal_strlit(".fstats");
    reveal_strlit(".files");
    assert(".clear"@.len() == 6);
    assert(".help"@.len() == 5);
    assert(".quit"@.len() == 5);
    assert(".config"@.len() == 7);
    assert(".timer"@.len() == 6);
    assert(".fstats"@.len() == 7);
    assert(".files"@.len() == 6);
    assert(".clear"@ != ".timer"@) by {
        assert(".clear"@[1] == 'c' && ".timer"@[1] == 't');
    }
    assert(".clear"@ != ".files"@) by {
        assert(".clear"@[1] == 'c' && ".files"@[1] == 'f');
    }
    assert(".help"@ != ".quit"@) by {
        assert(".help"@[1] == 'h' && ".quit"@[1] == 'q');
    }
    assert(".config"@ != ".fstats"@) by {
        assert(".config"@[1] == 'c' && ".fstats"@[1] == 'f');
    }
    assert(".timer"@ != ".files"@) by {
        assert(".timer"@[1] == 't' && ".files"@[1] == 'f');
    }
}

/// The file-statistics subcommand names are pairwise distinct.
proof fn lemma_fstats_literals_distinct()
    ensures
        "enable"@ != "disable"@,
        "enable"@ != "reads"@,
        "enable"@ != "reset"@,
        "disable"@ != "reads"@,
        "disable"@ != "reset"@,
        "reads"@ != "reset"@,
{
    reveal_strlit("enable");
    reveal_strlit("disable");
    reveal_strlit("reads");
    reveal_strlit("reset");
    assert("enable"@.len() == 6);
    assert("disable"@.len() == 7);
    assert("reads"@.len() == 5);
    assert("reset"@.len() == 5);
    assert("reads"@ != "reset"@) by {
        assert("reads"@[2] == 'a' && "reset"@[2] == 's');
    }
}

impl Shell {
    /// Dispatches one submitted meta-command line.
    ///
    /// The first space-delimited token of the trimmed line is matched,
    /// case-sensitively, against the fixed command table.  Commands
    /// answered locally run the shared exit action here; `.config` and
    /// `.fstats` hand back what outside work is due, and the exit
    /// action runs in [`Shell::on_command_finish`].  `.clear` redraws
    /// the prompt without the exit action: the line is not recorded.
    pub fn on_command_start(&mut self, text: &Vec<char>) -> (r: CommandAction)
        requires
            old(self).wf(),
        ensures
            final(self).wf(),
            final(self).input_clock == old(self).input_clock,
            final(self).db == old(self).db,
            final(self).db_conn == old(self).db_conn,
            final(self).runtime == old(self).runtime,
            final(self).terminal_width == old(self).terminal_width,
            final(self).settings.webgl == old(self).settings.webgl,
            ({
                let t = trim_spec(text@);
                let c = cmd_of(t);
                let a = args_of(t);
                let out0 = old(self).terminal.out@;
                let pushed = ring_push(old(self).history.model(), text@);
                &&& (c == ".clear"@ ==> {
                    &&& r is Done
                    &&& final(self).terminal.out@ == Seq::<char>::empty()
                    &&& final(self).input_enabled
                    &&& final(self).history == old(self).history
                    &&& final(self).settings.timer == old(self).settings.timer
                })
                &&& (c == ".help"@ || c == ".quit"@ ==> {
                    &&& r is Done
                    &&& final(self).terminal.out@ == out0 + crlf() + "Not implemented yet"@
                        + crlf() + crlf()
                    &&& final(self).history.model() == pushed
                    &&& final(self).input_enabled
                    &&& final(self).settings.timer == old(self).settings.timer
                })
                &&& (c == ".config"@ ==> {
                    &&& r is NeedsConfig
                    &&& final(self).terminal.out@ == out0 + crlf()
                    &&& final(self).history == old(self).history
                    &&& final(self).input_enabled == old(self).input_enabled
                    &&& final(self).settings.timer == old(self).settings.timer
                })
                &&& (c == ".timer"@ ==> {
                    &&& r is Done
                    &&& final(self).terminal.out@ == out0 + crlf() + timer_response(a) + crlf()
                    &&& final(self).settings.timer == timer_after(old(self).settings.timer, a)
                    &&& final(self).history.model() == pushed
                    &&& final(self).input_enabled
                })
                &&& (c == ".fstats"@ ==> {
                    &&& r matches CommandAction::NeedsFstats { args } && args@ == a
                    &&& final(self).terminal.out@ == out0 + crlf()
                    &&& final(self).history == old(self).history
                    &&& final(self).input_enabled == old(self).input_enabled
                    &&& final(self).settings.timer == old(self).settings.timer
                })
                &&& (c == ".files"@ ==> {
                    &&& (old(self).runtime ==> r is OpenFileExplorer && final(self).terminal.out@
                        == out0 + crlf() + crlf())
                    &&& (!old(self).runtime ==> r is Done && final(self).terminal.out@ == out0
                        + crlf() + "Shell runtime not set"@ + crlf() + crlf())
                    &&& final(self).history.model() == pushed
                    &&& final(self).input_enabled
                    &&& final(self).settings.timer == old(self).settings.timer
                })
                &&& (c != ".clear"@ && c != ".help"@ && c != ".quit"@ && c != ".config"@ && c
                    != ".timer"@ && c != ".fstats"@ && c != ".files"@ ==> {
                    &&& r is Done
                    &&& final(self).terminal.out@ == out0 + crlf() + "Unknown command: "@ + c
                        + crlf() + crlf()
                    &&& final(self).history.model() == pushed
                    &&& final(self).input_enabled
                    &&& final(self).settings.timer == old(self).settings.timer
                })
            }),
    {
        proof {
            lemma_command_literals_distinct();
        }
        self.write_blank_line();
        let trimmed = trim(text);
        let (cmd, args) = split_command(&trimmed);
        if text_eq_str(&cmd, ".clear") {
            self.clear();
            return CommandAction::Done;
        }
        if text_eq_str(&cmd, ".help") || text_eq_str(&cmd, ".quit") {
            self.writeln("Not implemented yet");
            self.command_exit(text);
            return CommandAction::Done;
        }
        if text_eq_str(&cmd, ".config") {
            return CommandAction::NeedsConfig;
        }
        if text_eq_str(&cmd, ".timer") {
            if text_eq_str(&args, "on") {
                self.settings.timer = true;
                self.writeln("Timer enabled");
            } else if text_eq_str(&args, "off") {
                self.settings.timer = false;
                self.writeln("Timer disabled");
            } else {
                self.writeln("Usage: .timer [on/off]");
            }
            proof {
                assert(self.terminal.out@ =~= old(self).terminal.out@ + crlf() + timer_response(
                    args_of(trim_spec(text@)),
                ));
            }
            self.command_exit(text);
            return CommandAction::Done;
        }
        if text_eq_str(&cmd, ".fstats") {
            return CommandAction::NeedsFstats { args };
        }
        if text_eq_str(&cmd, ".files") {
            if self.runtime {
                self.command_exit(text);
                return CommandAction::OpenFileExplorer;
            }
            self.writeln("Shell runtime not set");
            self.command_exit(text);
            return CommandAction::Done;
        }
        let mut msg = chars_of("Unknown command: ");
        append_text(&mut msg, &cmd);
        self.writeln_text(&msg);
        proof {
            assert(self.terminal.out@ =~= old(self).terminal.out@ + crlf() + "Unknown command: "@
                + cmd_of(trim_spec(text@)) + crlf());
        }
        self.command_exit(text);
        CommandAction::Done
    }

    /// Runs the shared exit action after outside work for `.config` or
    /// `.fstats` finished: the submitted line goes to the history, the
    /// line is ended, the prompt redrawn and input re-enabled.
    pub fn on_command_finish(&mut self, text: &Vec<char>)
        requires
            old(self).wf(),
        ensures
            final(self).wf(),
            *final(self) == (Shell {
                terminal: final(self).terminal,
                input: final(self).input,
                input_enabled: true,
                history: final(self).history,
                ..*old(self)
            }),
            final(self).history.model() == ring_push(old(self).history.model(), text@),
            final(self).terminal.out@ == old(self).terminal.out@ + crlf(),
            final(self).terminal.line@ == Seq::<char>::empty(),
            final(self).input.text@ == Seq::<char>::empty(),
            final(self).input.markup is None,
            final(self).input.width == old(self).input.width,
    {
        self.command_exit(text);
    }

    /// Writes the capability report: the platform section always, the
    /// engine section when feature flags were gathered from an attached
    /// engine.
    pub fn configure_command(&mut self, platform: &PlatformFeatures, db_features: Option<u32>)
        ensures
            *final(self) == (Shell { terminal: final(self).terminal, ..*old(self) }),
            final(self).terminal == (Terminal {
                out: final(self).terminal.out,
                ..old(self).terminal
            }),
            final(self).terminal.out@ == old(self).terminal.out@ + platform_report(*platform)
                + (match db_features {
                Some(flags) => bundle_report(flags),
                None => Seq::<char>::empty(),
            }) + crlf(),
    {
        let mut buf = build_platform_report(platform);
        match db_features {
            Some(flags) => {
                append_bundle_report(&mut buf, flags);
            },
            None => {
                proof {
                    assert(buf@ =~= platform_report(*platform) + Seq::<char>::empty());
                }
            },
        }
        self.writeln_text(&buf);
        proof {
            assert(final(self).terminal.out@ =~= old(self).terminal.out@ + platform_report(
                *platform,
            ) + (match db_features {
                Some(flags) => bundle_report(flags),
                None => Seq::<char>::empty(),
            }) + crlf());
        }
    }

    /// Dispatches one `.fstats` subcommand line: the first token names
    /// the subcommand, the remainder the target.  Without an attached
    /// engine the line is dropped silently.
    pub fn fstats_command(&mut self, args: &Vec<char>) -> (r: FstatsAction)
        ensures
            ({
                let sub = cmd_of(args@);
                let target = args_of(args@);
                let out0 = old(self).terminal.out@;
                &&& (!old(self).db ==> r is NoEngine && *final(self) == *old(self))
                &&& (old(self).db ==> {
                    &&& *final(self) == (Shell { terminal: final(self).terminal, ..*old(self) })
                    &&& final(self).terminal == (Terminal {
                        out: final(self).terminal.out,
                        ..old(self).terminal
                    })
                    &&& (sub == "enable"@ ==> {
                        &&& r matches FstatsAction::Enable { target: tg } && tg@ == target
                        &&& final(self).terminal.out@ == out0
                    })
                    &&& (sub == "disable"@ ==> {
                        &&& r matches FstatsAction::Disable { target: tg } && tg@ == target
                        &&& final(self).terminal.out@ == out0
                    })
                    &&& (sub == "reads"@ ==> {
                        &&& r matches FstatsAction::ExportReads { target: tg } && tg@ == target
                        &&& final(self).terminal.out@ == out0
                    })
                    &&& (sub == "reset"@ ==> r is Handled && final(self).terminal.out@ == out0
                        + "Resetted file statistics for: "@ + target + crlf())
                    &&& (sub != "enable"@ && sub != "disable"@ && sub != "reads"@ && sub
                        != "reset"@ ==> r is Handled && final(self).terminal.out@ == out0
                        + "Usage: .fstats [enable/disable/reset/reads/paging] <file>"@ + crlf())
                })
            }),
    {
        proof {
            lemma_fstats_literals_distinct();
        }
        if !self.db {
            return FstatsAction::NoEngine;
        }
        let (sub, target) = split_command(args);
        if text_eq_str(&sub, "enable") {
            return FstatsAction::Enable { target };
        }
        if text_eq_str(&sub, "disable") {
            return FstatsAction::Disable { target };
        }
        if text_eq_str(&sub, "reads") {
            return FstatsAction::ExportReads { target };
        }
        if text_eq_str(&sub, "reset") {
            let mut msg = chars_of("Resetted file statistics for: ");
            append_text(&mut msg, &target);
            self.writeln_text(&msg);
            proof {
                assert(self.terminal.out@ =~= old(self).terminal.out@
                    + "Resetted file statistics for: "@ + args_of(args@) + crlf());
            }
            return FstatsAction::Handled;
        }
        self.writeln("Usage: .fstats [enable/disable/reset/reads/paging] <file>");
        FstatsAction::Handled
    }

    /// Confirms that file statistics were switched for a target.
    pub fn fstats_enabled_note(&mut self, target: &Vec<char>, enabled: bool)
        ensures
            *final(self) == (Shell { terminal: final(self).terminal, ..*old(self) }),
            final(self).terminal == (Terminal {
                out: final(self).terminal.out,
                ..old(self).terminal
            }),
            final(self).terminal.out@ == old(self).terminal.out@ + (if enabled {
                "Enabled file statistics for: "@
            } else {
                "Disabled file statistics for: "@
            }) + target@ + crlf(),
    {
        let mut msg = if enabled {
            chars_of("Enabled file statistics for: ")
        } else {
            chars_of("Disabled file statistics for: ")
        };
        append_text(&mut msg, target);
        self.writeln_text(&msg);
        proof {
            assert(self.terminal.out@ =~= old(self).terminal.out@ + (if enabled {
                "Enabled file statistics for: "@
            } else {
                "Disabled file statistics for: "@
            }) + target@ + crlf());
        }
    }

    /// Writes an exported read-statistics report.
    pub fn fstats_reads_note(&mut self, report: &Vec<char>)
        ensures
            *final(self) == (Shell { terminal: final(self).terminal, ..*old(self) }),
            final(self).terminal == (Terminal {
                out: final(self).terminal.out,
                ..old(self).terminal
            }),
            final(self).terminal.out@ == old(self).terminal.out@ + report@ + crlf(),
    {
        self.writeln_text(report);
    }

    /// Begins one submitted query: without an open connection the error
    /// is reported and the exit action runs at once; otherwise the
    /// query is due outside and [`Shell::on_sql_finish`] takes its
    /// outcome.
    pub fn on_sql_start(&mut self, text: &Vec<char>) -> (r: SqlAction)
        requires
            old(self).wf(),
        ensures
            final(self).wf(),
            r is RunQuery <==> old(self).db_conn,
            old(self).db_conn ==> *final(self) == (Shell {
                terminal: final(self).terminal,
                ..*old(self)
            }) && final(self).terminal == (Terminal {
                out: final(self).terminal.out,
                ..old(self).terminal
            }) && final(self).terminal.out@ == old(self).terminal.out@ + crlf(),
            !old(self).db_conn ==> {
                &&& *final(self) == (Shell {
                    terminal: final(self).terminal,
                    input: final(self).input,
                    input_enabled: true,
                    history: final(self).history,
                    ..*old(self)
                })
                &&& final(self).history.model() == ring_push(old(self).history.model(), text@)
                &&& final(self).terminal.out@ == old(self).terminal.out@ + crlf()
                    + "Error: connection not set"@ + crlf() + crlf()
                &&& final(self).input_enabled
                &&& final(self).input.text@ == Seq::<char>::empty()
            },
    {
        self.write_blank_line();
        if !self.db_conn {
            self.writeln("Error: connection not set");
            self.command_exit(text);
            return SqlAction::NoConnection;
        }
        SqlAction::RunQuery
    }

    /// Ends one submitted query with the outcome the connection
    /// reported: a rendered result set (and, with the timer on, an
    /// elapsed-time line), or the engine's error message verbatim with
    /// line feeds translated to the terminal's convention.  Either way
    /// the exit action runs: the line goes to the history, the prompt
    /// is redrawn and input re-enabled.
    pub fn on_sql_finish(&mut self, text: &Vec<char>, outcome: QueryOutcome)
        requires
            old(self).wf(),
        ensures
            final(self).wf(),
            *final(self) == (Shell {
                terminal: final(self).terminal,
                input: final(self).input,
                input_enabled: true,
                history: final(self).history,
                ..*old(self)
            }),
            final(self).history.model() == ring_push(old(self).history.model(), text@),
            final(self).input_enabled,
            final(self).input.text@ == Seq::<char>::empty(),
            final(self).input.markup is None,
            final(self).terminal.line@ == Seq::<char>::empty(),
            (outcome matches QueryOutcome::Failure { message } ==> final(self).terminal.out@ == old(
                self,
            ).terminal.out@ + "Error: "@ + crlf_of(message@) + crlf() + crlf() + crlf()),
            (outcome matches QueryOutcome::Success { table, elapsed_ms } ==> {
                &&& (old(self).settings.timer ==> final(self).terminal.out@ == old(
                    self,
                ).terminal.out@ + table@ + crlf() + elapsed_line(elapsed_ms) + crlf() + crlf())
                &&& (!old(self).settings.timer ==> final(self).terminal.out@ == old(
                    self,
                ).terminal.out@ + table@ + crlf() + crlf())
            }),
    {
        match outcome {
            QueryOutcome::Failure { message } => {
                let translated = crate::text::translate_newlines(&message);
                let mut line = chars_of("Error: ");
                append_text(&mut line, &translated);
                append_str(&mut line, "\r\n");
                self.writeln_text(&line);
                proof {
                    reveal_strlit("\r\n");
                    assert("\r\n"@ =~= crlf());
                    assert(self.terminal.out@ =~= old(self).terminal.out@ + "Error: "@ + crlf_of(
                        message@,
                    ) + crlf() + crlf());
                }
            },
            QueryOutcome::Success { table, elapsed_ms } => {
                self.writeln_text(&table);
                if self.settings.timer {
                    let mut line = chars_of("Elapsed: ");
                    let digits = u64_dec(elapsed_ms);
                    append_text(&mut line, &digits);
                    append_str(&mut line, " ms");
                    self.writeln_text(&line);
                    proof {
                        assert(self.terminal.out@ =~= old(self).terminal.out@ + table@ + crlf()
                            + elapsed_line(elapsed_ms) + crlf());
                    }
                }
            },
        }
        self.command_exit(text);
    }

    /// Accepts or refuses an engine attachment: while a connection is
    /// open the attachment is refused with an error and nothing
    /// changes; otherwise the engine is recorded and the caller goes on
    /// to write the greeter and open the connection.
    pub fn configure_database_start(&mut self) -> (accepted: bool)
        ensures
            accepted == !old(self).db_conn,
            !accepted ==> *final(self) == (Shell {
                terminal: final(self).terminal,
                ..*old(self)
            }) && final(self).terminal == (Terminal {
                out: final(self).terminal.out,
                ..old(self).terminal
            }) && final(self).terminal.out@ == old(self).terminal.out@
                + "Error: Database already set!"@ + crlf(),
            accepted ==> *final(self) == (Shell { db: true, ..*old(self) }),
    {
        if self.db_conn {
            self.writeln("Error: Database already set!");
            return false;
        }
        self.db = true;
        true
    }

    /// Clears the screen and writes the greeter for a newly attached
    /// engine, from its version string and feature flags.
    pub fn write_version_info(&mut self, version: &Vec<char>, flags: u32)
        ensures
            *final(self) == (Shell { terminal: final(self).terminal, ..*old(self) }),
            final(self).terminal == (Terminal {
                out: final(self).terminal.out,
                ..old(self).terminal
            }),
            final(self).terminal.out@ == version_banner(version@, flags),
    {
        self.terminal.clear();
        self.write("DuckDB Web Shell");
        self.write_blank_line();
        self.write("Database: ");
        self.write_text(version);
        self.write_blank_line();
        self.write("Package:  @duckdb/duckdb-wasm@0.0.1");
        self.write_blank_line();
        self.write_blank_line();
        if flags & 0b1 == 0 {
            self.write(" ! DuckDB is not running at full speed.");
            self.write_blank_line();
            self.write("    Enter \".config\" for details.");
            self.write_blank_line();
            self.write_blank_line();
        }
        proof {
            assert(self.terminal.out@ =~= version_banner(version@, flags));
        }
    }

    /// Writes the connection-ready banner.
    pub fn write_connection_ready(&mut self)
        ensures
            *final(self) == (Shell { terminal: final(self).terminal, ..*old(self) }),
            final(self).terminal == (Terminal {
                out: final(self).terminal.out,
                ..old(self).terminal
            }),
            final(self).terminal.out@ == old(self).terminal.out@ + connection_ready_banner(),
    {
        self.write("Connected to a transient in-memory database.");
        self.write_blank_line();
        self.write("Enter \".help\" for usage hints.");
        self.write_blank_line();
        self.write_blank_line();
        proof {
            assert(self.terminal.out@ =~= old(self).terminal.out@ + connection_ready_banner());
        }
    }

    /// Records the open connection, writes the ready banner, redraws
    /// the prompt and focuses the terminal.
    pub fn configure_database_connected(&mut self)
        ensures
            *final(self) == (Shell {
                terminal: final(self).terminal,
                input: final(self).input,
                input_enabled: true,
                db_conn: true,
                ..*old(self)
            }),
            final(self).terminal.out@ == old(self).terminal.out@ + connection_ready_banner(),
            final(self).terminal.line@ == Seq::<char>::empty(),
            final(self).terminal.focused,
            final(self).terminal.cols == old(self).terminal.cols,
            final(self).input.text@ == Seq::<char>::empty(),
            final(self).input.markup is None,
            final(self).input.width == old(self).input.width,
    {
        self.db_conn = true;
        self.write_connection_ready();
        self.prompt();
        self.focus();
    }
}

} // verus!

