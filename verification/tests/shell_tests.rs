use duckdb_shell::keys::{Key, KeyEvent, ShellInputContext};
use duckdb_shell::shell::{
    CommandAction, FstatsAction, KeyOutcome, PlatformFeatures, QueryOutcome, Shell, ShellOptions,
    SqlAction,
};
use duckdb_shell::terminal::Terminal;

fn t(s: &str) -> Vec<char> {
    s.chars().collect()
}

fn out(shell: &Shell) -> String {
    shell.terminal.out.iter().collect()
}

fn down(key: Key) -> KeyEvent {
    KeyEvent { key, keydown: true }
}

/// A shell with a terminal attached and the prompt drawn.
fn ready_shell() -> Shell {
    let mut shell = Shell::default();
    shell.attach(Terminal::new(80), false, ShellOptions { webgl: false });
    shell.prompt();
    shell
}

/// A shell with an engine attached and a connection open.
fn connected_shell() -> Shell {
    let mut shell = ready_shell();
    assert!(shell.configure_database_start());
    shell.configure_database_connected();
    shell.terminal.out.clear();
    shell
}

fn type_text(shell: &mut Shell, text: &str) {
    for c in text.chars() {
        shell.on_key(down(Key::Char(c)));
    }
}

#[test]
fn default_state_is_blocked_and_empty() {
    let shell = Shell::default();
    assert!(!shell.input_enabled);
    assert_eq!(shell.input_clock, 0);
    assert_eq!(shell.history.len(), 0);
    assert!(!shell.db);
    assert!(!shell.db_conn);
    assert!(!shell.settings.timer);
}

#[test]
fn attach_adopts_terminal_and_options() {
    let mut shell = Shell::default();
    shell.attach(Terminal::new(120), true, ShellOptions { webgl: true });
    assert_eq!(shell.terminal_width, 120);
    assert!(shell.runtime);
    assert!(shell.settings.webgl);
}

#[test]
fn events_while_blocked_are_no_ops() {
    let mut shell = Shell::default();
    assert!(!shell.input_enabled);
    let r = shell.on_key(down(Key::Char('x')));
    assert!(matches!(r, KeyOutcome::Ignored));
    assert!(shell.input.text.is_empty());
    assert_eq!(shell.input_clock, 0);
    let r = shell.on_key(down(Key::Enter));
    assert!(matches!(r, KeyOutcome::Ignored));
    assert_eq!(shell.input_clock, 0);
}

#[test]
fn non_keydown_phases_are_dropped() {
    let mut shell = ready_shell();
    let clock = shell.input_clock;
    let r = shell.on_key(KeyEvent { key: Key::Char('x'), keydown: false });
    assert!(matches!(r, KeyOutcome::Ignored));
    assert!(shell.input.text.is_empty());
    assert_eq!(shell.input_clock, clock);
}

#[test]
fn single_flight_no_second_submission_while_busy() {
    let mut shell = ready_shell();
    type_text(&mut shell, ".help");
    let r = shell.on_key(down(Key::Enter));
    let text = match r {
        KeyOutcome::SubmitCommand { text } => text,
        _ => panic!("expected a command submission"),
    };
    assert_eq!(text, t(".help"));
    assert!(!shell.input_enabled);
    let clock = shell.input_clock;
    // further Enter events while busy are no-ops
    let r = shell.on_key(down(Key::Enter));
    assert!(matches!(r, KeyOutcome::Ignored));
    assert_eq!(shell.input_clock, clock);
    assert_eq!(shell.input.text, t(".help"));
}

#[test]
fn generation_never_decreases() {
    let mut shell = ready_shell();
    let mut last = shell.input_clock;
    let events = [
        down(Key::Char('s')),
        down(Key::Backspace),
        down(Key::ArrowLeft),
        down(Key::Char('a')),
        KeyEvent { key: Key::Char('b'), keydown: false },
        down(Key::Enter),
    ];
    for e in events.iter() {
        shell.on_key(*e);
        assert!(shell.input_clock >= last);
        last = shell.input_clock;
    }
}

#[test]
fn each_edit_bumps_the_generation() {
    let mut shell = ready_shell();
    let c0 = shell.input_clock;
    shell.on_key(down(Key::Char('a')));
    assert_eq!(shell.input_clock, c0 + 1);
    shell.on_key(down(Key::Backspace));
    assert_eq!(shell.input_clock, c0 + 2);
    shell.on_key(down(Key::ArrowUp));
    assert_eq!(shell.input_clock, c0 + 3);
}

#[test]
fn enter_without_terminator_continues_the_line() {
    let mut shell = ready_shell();
    type_text(&mut shell, "select 1");
    let r = shell.on_key(down(Key::Enter));
    assert!(matches!(r, KeyOutcome::Edited));
    assert!(shell.input_enabled);
    assert_eq!(shell.input.text, t("select 1\n"));
}

#[test]
fn enter_with_terminator_submits_a_query() {
    let mut shell = ready_shell();
    type_text(&mut shell, "select 1;  ");
    let r = shell.on_key(down(Key::Enter));
    match r {
        KeyOutcome::SubmitQuery { text } => assert_eq!(text, t("select 1;  ")),
        _ => panic!("expected a query submission"),
    }
    assert!(!shell.input_enabled);
}

#[test]
fn printable_keys_request_highlighting() {
    let mut shell = ready_shell();
    let r = shell.on_key(down(Key::Char('s')));
    assert!(matches!(r, KeyOutcome::EditedPendingHighlight));
    let r = shell.on_key(down(Key::Backspace));
    assert!(matches!(r, KeyOutcome::Edited));
}

#[test]
fn highlight_skipped_for_commands_and_without_engine() {
    let mut shell = ready_shell();
    type_text(&mut shell, "select");
    // no engine attached: skipped
    assert!(shell.highlight_input_start().is_none());
    let mut shell = connected_shell();
    shell.prompt();
    type_text(&mut shell, "  .help");
    // a command: skipped
    assert!(shell.highlight_input_start().is_none());
    shell.prompt();
    type_text(&mut shell, "select");
    assert!(shell.highlight_input_start().is_some());
}

#[test]
fn stale_highlight_is_discarded() {
    let mut shell = connected_shell();
    shell.prompt();
    type_text(&mut shell, "select");
    let (captured, generation) = shell.highlight_input_start().expect("highlight request");
    assert_eq!(captured, t("select"));
    // the user types on before the tokenization resolves
    shell.on_key(down(Key::Char(' ')));
    shell.highlight_input_finish(generation, vec![1, 2, 3]);
    assert!(shell.input.markup.is_none());
    // a fresh request whose generation still matches is applied
    let (_, generation) = shell.highlight_input_start().expect("highlight request");
    shell.highlight_input_finish(generation, vec![4, 5]);
    assert_eq!(shell.input.markup, Some(vec![4, 5]));
}

#[test]
fn timer_command_toggles_and_reports() {
    let mut shell = ready_shell();
    let r = shell.on_command_start(&t(".timer on"));
    assert!(matches!(r, CommandAction::Done));
    assert!(shell.settings.timer);
    assert!(out(&shell).contains("Timer enabled\r\n"));
    assert!(shell.input_enabled);

    let before = shell.settings.timer;
    let r = shell.on_command_start(&t(".timer bogus"));
    assert!(matches!(r, CommandAction::Done));
    assert_eq!(shell.settings.timer, before);
    assert!(out(&shell).contains("Usage: .timer [on/off]\r\n"));

    let r = shell.on_command_start(&t(".timer off"));
    assert!(matches!(r, CommandAction::Done));
    assert!(!shell.settings.timer);
    assert!(out(&shell).contains("Timer disabled\r\n"));
}

#[test]
fn commands_are_recorded_in_history() {
    let mut shell = ready_shell();
    shell.on_command_start(&t(".timer on"));
    shell.on_command_start(&t(".help"));
    assert_eq!(shell.history.len(), 2);
    assert_eq!(shell.history.entry(0), &t(".timer on"));
    assert_eq!(shell.history.entry(1), &t(".help"));
}

#[test]
fn clear_command_wipes_the_screen_and_skips_history() {
    let mut shell = ready_shell();
    shell.writeln("something old");
    let r = shell.on_command_start(&t(".clear"));
    assert!(matches!(r, CommandAction::Done));
    assert_eq!(out(&shell), "");
    assert_eq!(shell.history.len(), 0);
    assert!(shell.input_enabled);
}

#[test]
fn help_and_quit_are_placeholders() {
    let mut shell = ready_shell();
    shell.on_command_start(&t(".help"));
    assert!(out(&shell).contains("Not implemented yet\r\n"));
    let mut shell = ready_shell();
    shell.on_command_start(&t(".quit"));
    assert!(out(&shell).contains("Not implemented yet\r\n"));
}

#[test]
fn unknown_command_is_reported() {
    let mut shell = ready_shell();
    let r = shell.on_command_start(&t(".nope stuff"));
    assert!(matches!(r, CommandAction::Done));
    assert!(out(&shell).contains("Unknown command: .nope\r\n"));
    assert!(shell.input_enabled);
}

#[test]
fn files_command_needs_a_runtime() {
    let mut shell = ready_shell();
    let r = shell.on_command_start(&t(".files"));
    assert!(matches!(r, CommandAction::Done));
    assert!(out(&shell).contains("Shell runtime not set\r\n"));

    let mut shell = Shell::default();
    shell.attach(Terminal::new(80), true, ShellOptions { webgl: false });
    shell.prompt();
    let r = shell.on_command_start(&t(".files"));
    assert!(matches!(r, CommandAction::OpenFileExplorer));
    assert!(shell.input_enabled);
    assert_eq!(shell.history.len(), 1);
}

#[test]
fn config_command_defers_to_the_driver() {
    let mut shell = ready_shell();
    let r = shell.on_command_start(&t(".config"));
    assert!(matches!(r, CommandAction::NeedsConfig));
    // still busy until the driver finishes the command
    assert_eq!(shell.history.len(), 0);
    shell.on_command_finish(&t(".config"));
    assert_eq!(shell.history.len(), 1);
    assert!(shell.input_enabled);
}

fn feature(mark: &str, name: &str, desc: &str) -> String {
    format!("{}{:<24} - {}\r\n", mark, name, desc)
}

#[test]
fn config_report_sections() {
    let mut shell = ready_shell();
    let platform = PlatformFeatures {
        wasm_exceptions: true,
        wasm_simd: false,
        wasm_bulk_memory: true,
        wasm_threads: false,
        cross_origin_isolated: true,
    };
    shell.configure_command(&platform, None);
    let text = out(&shell);
    assert!(text.contains("Platform Compatibility:\r\n"));
    assert!(!text.contains("DuckDB Bundle Features:"));
    assert!(text.contains(&feature(
        "[-] ",
        "WebAssembly SIMD",
        "https://chromestatus.com/feature/6533147810332672"
    )));
    assert!(text.contains(&feature(
        "[+] ",
        "Cross Origin Isolated",
        "Cross Origin policies allow for multi-threading"
    )));

    let mut shell = ready_shell();
    shell.configure_command(&platform, Some(0b0110));
    let text = out(&shell);
    assert!(text.contains("DuckDB Bundle Features:\r\n"));
    assert!(text.contains(&feature("[-] ", "WebAssembly Exceptions", "Module uses native exceptions")));
    assert!(text.contains(&feature("[+] ", "WebAssembly SIMD", "Module uses SIMD instructions")));
    assert!(text.contains(&feature(
        "[-] ",
        "WebAssembly Bulk Memory",
        "Module uses bulk memory operations"
    )));
    assert!(text.contains(&feature("[+] ", "WebAssembly Threads", "Module uses multiple web-workers")));
}

#[test]
fn fstats_requires_an_engine() {
    let mut shell = ready_shell();
    let r = shell.fstats_command(&t("enable myfile"));
    assert!(matches!(r, FstatsAction::NoEngine));
    assert_eq!(out(&shell), "");
}

#[test]
fn fstats_dispatches_subcommands() {
    let mut shell = connected_shell();
    match shell.fstats_command(&t("enable some.parquet")) {
        FstatsAction::Enable { target } => assert_eq!(target, t("some.parquet")),
        _ => panic!("expected enable"),
    }
    match shell.fstats_command(&t("disable some.parquet")) {
        FstatsAction::Disable { target } => assert_eq!(target, t("some.parquet")),
        _ => panic!("expected disable"),
    }
    match shell.fstats_command(&t("reads some.parquet")) {
        FstatsAction::ExportReads { target } => assert_eq!(target, t("some.parquet")),
        _ => panic!("expected reads"),
    }
    let r = shell.fstats_command(&t("reset some.parquet"));
    assert!(matches!(r, FstatsAction::Handled));
    assert!(out(&shell).contains("Resetted file statistics for: some.parquet\r\n"));
    let r = shell.fstats_command(&t("paging some.parquet"));
    assert!(matches!(r, FstatsAction::Handled));
    assert!(out(&shell).contains("Usage: .fstats [enable/disable/reset/reads/paging] <file>\r\n"));
}

#[test]
fn fstats_notes_confirm_outcomes() {
    let mut shell = connected_shell();
    shell.fstats_enabled_note(&t("a.csv"), true);
    assert!(out(&shell).contains("Enabled file statistics for: a.csv\r\n"));
    shell.fstats_enabled_note(&t("a.csv"), false);
    assert!(out(&shell).contains("Disabled file statistics for: a.csv\r\n"));
    shell.fstats_reads_note(&t("report body"));
    assert!(out(&shell).contains("report body\r\n"));
}

#[test]
fn query_without_connection_reports_error() {
    let mut shell = ready_shell();
    let r = shell.on_sql_start(&t("select 1;"));
    assert!(matches!(r, SqlAction::NoConnection));
    assert!(out(&shell).contains("Error: connection not set\r\n"));
    assert!(shell.input_enabled);
    assert_eq!(shell.history.entry(0), &t("select 1;"));
}

#[test]
fn query_success_renders_table_without_timer() {
    let mut shell = connected_shell();
    let r = shell.on_sql_start(&t("select 1;"));
    assert!(matches!(r, SqlAction::RunQuery));
    let rendered = t("| 1 |");
    shell.on_sql_finish(
        &t("select 1;"),
        QueryOutcome::Success { table: rendered, elapsed_ms: 42 },
    );
    let text = out(&shell);
    assert!(text.contains("| 1 |\r\n"));
    assert!(!text.contains("Elapsed:"));
    assert!(shell.input_enabled);
    assert_eq!(shell.history.entry(0), &t("select 1;"));
}

#[test]
fn query_success_appends_elapsed_line_with_timer() {
    let mut shell = connected_shell();
    shell.on_command_start(&t(".timer on"));
    shell.terminal.out.clear();
    let r = shell.on_sql_start(&t("select 1;"));
    assert!(matches!(r, SqlAction::RunQuery));
    shell.on_sql_finish(
        &t("select 1;"),
        QueryOutcome::Success { table: t("| 1 |"), elapsed_ms: 42 },
    );
    let text = out(&shell);
    assert!(text.contains("| 1 |\r\n"));
    assert!(text.contains("Elapsed: 42 ms\r\n"));
}

#[test]
fn query_failure_translates_newlines_and_reenables_input() {
    let mut shell = connected_shell();
    let r = shell.on_sql_start(&t("select nope;"));
    assert!(matches!(r, SqlAction::RunQuery));
    shell.on_sql_finish(
        &t("select nope;"),
        QueryOutcome::Failure { message: t("syntax error\nnear token") },
    );
    let text = out(&shell);
    assert!(text.contains("Error: syntax error\r\nnear token\r\n"));
    assert!(shell.input_enabled);
    assert_eq!(shell.history.entry(0), &t("select nope;"));
}

#[test]
fn attach_while_connected_is_rejected() {
    let mut shell = connected_shell();
    let accepted = shell.configure_database_start();
    assert!(!accepted);
    assert!(out(&shell).contains("Error: Database already set!\r\n"));
    assert!(shell.db);
    assert!(shell.db_conn);
}

#[test]
fn version_banner_warns_without_the_fast_path_bit() {
    let mut shell = ready_shell();
    shell.write_version_info(&t("v1.2.3"), 0b0000);
    let text = out(&shell);
    assert!(text.starts_with("DuckDB Web Shell\r\n"));
    assert!(text.contains("Database: v1.2.3\r\n"));
    assert!(text.contains("Package:  @duckdb/duckdb-wasm@0.0.1\r\n"));
    assert!(text.contains(" ! DuckDB is not running at full speed.\r\n"));
    assert!(text.contains("    Enter \".config\" for details.\r\n"));

    let mut shell = ready_shell();
    shell.write_version_info(&t("v1.2.3"), 0b0001);
    assert!(!out(&shell).contains("not running at full speed"));
}

#[test]
fn connection_ready_enables_input_and_focuses() {
    let mut shell = ready_shell();
    assert!(shell.configure_database_start());
    assert!(shell.db);
    assert!(!shell.db_conn);
    shell.configure_database_connected();
    assert!(shell.db_conn);
    assert!(shell.input_enabled);
    assert!(shell.terminal.focused);
    let text = out(&shell);
    assert!(text.contains("Connected to a transient in-memory database.\r\n"));
    assert!(text.contains("Enter \".help\" for usage hints.\r\n"));
}

#[test]
fn resume_after_input_redraws_the_prompt() {
    let mut shell = Shell::default();
    assert!(!shell.input_enabled);
    shell.resume_after_input(ShellInputContext::FileInput);
    assert!(shell.input_enabled);
    assert!(shell.input.text.is_empty());
}

#[test]
fn history_bound_holds_through_the_dispatcher() {
    let mut shell = ready_shell();
    for i in 0..1001 {
        let text: Vec<char> = format!(".timer arg{}", i).chars().collect();
        shell.on_command_start(&text);
    }
    assert_eq!(shell.history.len(), 1000);
    assert_eq!(shell.history.entry(0), &t(".timer arg1"));
    assert_eq!(shell.history.entry(999), &t(".timer arg1000"));
}

#[test]
fn full_command_round_trip_through_the_router() {
    let mut shell = ready_shell();
    type_text(&mut shell, "  .timer on");
    let r = shell.on_key(down(Key::Enter));
    let text = match r {
        KeyOutcome::SubmitCommand { text } => text,
        _ => panic!("expected a command submission"),
    };
    assert!(!shell.input_enabled);
    let r = shell.on_command_start(&text);
    assert!(matches!(r, CommandAction::Done));
    assert!(shell.settings.timer);
    assert!(shell.input_enabled);
    assert_eq!(shell.history.entry(0), &t("  .timer on"));
}
