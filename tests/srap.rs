use srap::args::{parse_args, UsageError};
use srap::config::SrapConfig;
use srap::engine::{file_step, new_contents, FileState, FileStep};
use srap::invocation::{plan, Invocation};
use srap::line::{build_line, find_line_start, quote_alias};
use srap::notice::{appending_notice, done_notice, dry_run_notice, not_found_notice, shown_line};
use srap::resolve::{config_targets, expand_home, shell_config_path, ResolveError};
use srap::text::{contains_str, str_eq};

fn toks(items: &[&str]) -> Vec<String> {
    items.iter().map(|s| s.to_string()).collect()
}

fn appended(items: &[&str]) -> (SrapConfig, String) {
    match plan(toks(items)) {
        Ok(Invocation::Append { config, line }) => (config, line),
        Ok(Invocation::Help) => panic!("expected a line, got help"),
        Err(e) => panic!("expected a line, got {:?}", e),
    }
}

fn config_with(all: bool, file: &str) -> SrapConfig {
    let mut c = SrapConfig::new_default();
    c.all = all;
    c.file = file.to_string();
    c
}

#[test]
fn default_config_is_all_off() {
    let c = SrapConfig::new_default();
    assert!(!c.all && !c.dryrun && !c.nocolor && !c.verbose);
    assert_eq!(c.file, "");
}

#[test]
fn no_tokens_show_help() {
    assert!(matches!(plan(Vec::new()), Ok(Invocation::Help)));
}

#[test]
fn help_flag_shows_help() {
    assert!(matches!(plan(toks(&["-h", "echo", "hi"])), Ok(Invocation::Help)));
    assert!(matches!(plan(toks(&["echo", "--help"])), Ok(Invocation::Help)));
}

#[test]
fn only_flags_show_help() {
    assert!(matches!(plan(toks(&["-a", "-d", "-v"])), Ok(Invocation::Help)));
    assert!(matches!(plan(toks(&["--no-color"])), Ok(Invocation::Help)));
    assert!(matches!(plan(toks(&["-f", "-x", "-n"])), Ok(Invocation::Help)));
}

#[test]
fn file_flag_without_name_is_an_error() {
    assert!(matches!(plan(toks(&["-a", "-f"])), Err(UsageError::MissingFilename)));
    let mut args = toks(&["echo", "--file"]);
    assert!(matches!(parse_args(&mut args), Err(UsageError::MissingFilename)));
    assert_eq!(args, toks(&["echo", "--file"]));
    assert_eq!(UsageError::MissingFilename.message(), "You must provide a filename!");
}

#[test]
fn file_flag_and_name_leave_the_line() {
    let mut args = toks(&["-f", "myfile.txt", "echo", "hi"]);
    let c = parse_args(&mut args).unwrap();
    assert_eq!(c.file, "myfile.txt");
    assert_eq!(args, toks(&["echo", "hi"]));
    let (c, line) = appended(&["-f", "myfile.txt", "echo", "hi"]);
    assert_eq!(c.file, "myfile.txt");
    assert_eq!(line, "\necho hi");
}

#[test]
fn long_flags_are_read() {
    let (c, line) = appended(&["--all", "--dry-run", "--verbose", "--no-color", "--file", "x", "a=1"]);
    assert!(c.all && c.dryrun && c.verbose && c.nocolor);
    assert_eq!(c.file, "x");
    assert_eq!(line, "\na=1");
}

#[test]
fn short_flags_are_read() {
    let (c, _) = appended(&["-a", "-d", "-v", "-n", "export", "A=1"]);
    assert!(c.all && c.dryrun && c.verbose && c.nocolor);
    assert_eq!(c.file, "");
}

#[test]
fn dashed_words_after_the_line_start_stay_in_it() {
    let (c, line) = appended(&["-d", "echo", "-n", "hi"]);
    assert!(c.dryrun && c.nocolor);
    assert_eq!(line, "\necho -n hi");
}

#[test]
fn line_is_joined_with_spaces() {
    let args = toks(&["-v", "export", "PATH=$PATH:/opt/bin", "x"]);
    assert_eq!(find_line_start(&args), Some(1));
    assert_eq!(build_line(&args, 1), "\nexport PATH=$PATH:/opt/bin x");
    assert_eq!(build_line(&args, 4), "\n");
    assert_eq!(find_line_start(&toks(&["-a", "--b"])), None);
}

#[test]
fn alias_gets_quoted() {
    let (_, line) = appended(&["alias", "ll=ls"]);
    assert_eq!(line, "\nalias ll=\"ls\"");
    assert_eq!(quote_alias("\nalias ll=ls -la".to_string()), "\nalias ll=\"ls -la\"");
}

#[test]
fn alias_quoting_leaves_other_lines() {
    assert_eq!(quote_alias("\nalias ll=\"ls\"".to_string()), "\nalias ll=\"ls\"");
    assert_eq!(quote_alias("\nalias ll".to_string()), "\nalias ll");
    assert_eq!(quote_alias("\nexport A=1".to_string()), "\nexport A=1");
    assert_eq!(quote_alias("\nalias a=b=c".to_string()), "\nalias a=\"b=c\"");
}

#[test]
fn text_helpers() {
    assert!(str_eq("-a", "-a"));
    assert!(!str_eq("-a", "-ab"));
    assert!(contains_str("/usr/bin/zsh", "zsh"));
    assert!(contains_str("abc", ""));
    assert!(!contains_str("zs", "zsh"));
}

#[test]
fn shells_map_to_their_files() {
    let p = |s: &str| shell_config_path(s);
    assert_eq!(p("/usr/bin/zsh"), Some("~/.zshrc".to_string()));
    assert_eq!(p("/bin/bash"), Some("~/.bashrc".to_string()));
    assert_eq!(p("/bin/nsh"), Some("~/.nshrc".to_string()));
    assert_eq!(p("/bin/mksh"), Some("~/.kshrc".to_string()));
    assert_eq!(p("/usr/bin/fish"), Some("~/.config/fish/config.fish".to_string()));
    assert_eq!(p("/usr/bin/ion"), Some(".config/ion/initrc".to_string()));
    assert_eq!(p("/bin/tcsh"), Some("~/.cshrc".to_string()));
    assert_eq!(p("/bin/sh"), None);
}

#[test]
fn home_is_expanded_at_the_front_only() {
    assert_eq!(expand_home("~/.bashrc", "/home/u"), "/home/u/.bashrc");
    assert_eq!(expand_home("~/.bashrc", ""), "/.bashrc");
    assert_eq!(expand_home("a~b", "/home/u"), "a~b");
    assert_eq!(expand_home("", "/home/u"), "");
}

#[test]
fn every_shell_mode_lists_the_posix_files() {
    let v = config_targets(&config_with(true, ""), None, "/h").unwrap();
    assert_eq!(v, toks(&["/h/.bashrc", "/h/.zshrc", "/h/.nshrc", "/h/.kshrc"]));
    let v = config_targets(&config_with(true, "~/extra"), Some("/bin/sh"), "/h").unwrap();
    assert_eq!(v, toks(&["/h/.bashrc", "/h/.zshrc", "/h/.nshrc", "/h/.kshrc", "/h/extra"]));
}

#[test]
fn named_file_is_used_as_given() {
    let v = config_targets(&config_with(false, "~/x"), None, "/h").unwrap();
    assert_eq!(v, toks(&["~/x"]));
}

#[test]
fn login_shell_selects_the_file() {
    let v = config_targets(&config_with(false, ""), Some("/usr/bin/zsh"), "/h").unwrap();
    assert_eq!(v, toks(&["/h/.zshrc"]));
    let v = config_targets(&config_with(false, ""), Some("ion"), "/h").unwrap();
    assert_eq!(v, toks(&[".config/ion/initrc"]));
}

#[test]
fn unset_shell_fails() {
    let r = config_targets(&config_with(false, ""), None, "/h");
    assert_eq!(r, Err(ResolveError::ShellUnset));
}

#[test]
fn unsupported_shell_fails() {
    let r = config_targets(&config_with(false, ""), Some("/bin/sh"), "/h");
    assert_eq!(r, Err(ResolveError::UnsupportedShell));
}

#[test]
fn append_writes_the_joined_text() {
    let state = FileState::Contents("export X=1".to_string());
    match file_step(false, false, state, "\nexport Y=2") {
        FileStep::Append { content, write } => {
            assert_eq!(content, "export X=1\nexport Y=2");
            assert!(write);
        }
        _ => panic!("expected an append"),
    }
}

#[test]
fn dry_run_writes_nothing() {
    let state = FileState::Contents("export X=1".to_string());
    match file_step(false, true, state, "\nexport Y=2") {
        FileStep::Append { write, .. } => assert!(!write),
        _ => panic!("expected an append"),
    }
}

#[test]
fn missing_files_are_skipped_in_every_shell_mode() {
    let targets = config_targets(&config_with(true, ""), None, "/h").unwrap();
    let mut written = Vec::new();
    let mut notices = Vec::new();
    for path in &targets {
        let state = if path == "/h/.bashrc" {
            FileState::Contents("export X=1".to_string())
        } else {
            FileState::Missing
        };
        match file_step(true, false, state, "\nexport Y=2") {
            FileStep::SkipNotFound => notices.push(not_found_notice(path, true)),
            FileStep::Append { write: true, .. } => written.push(path.clone()),
            _ => panic!("the run must not stop"),
        }
    }
    assert_eq!(written, toks(&["/h/.bashrc"]));
    assert_eq!(notices, toks(&["/h/.zshrc not found", "/h/.nshrc not found", "/h/.kshrc not found"]));
}

#[test]
fn missing_or_unreadable_single_file_stops_the_run() {
    assert!(matches!(file_step(false, false, FileState::Missing, "\nx"), FileStep::Abort));
    assert!(matches!(file_step(true, false, FileState::Unreadable, "\nx"), FileStep::Abort));
    assert!(matches!(file_step(false, true, FileState::Unreadable, "\nx"), FileStep::Abort));
}

#[test]
fn contents_are_concatenated() {
    assert_eq!(new_contents("", "\na"), "\na");
    assert_eq!(new_contents("x\n", "\na"), "x\n\na");
}

#[test]
fn notices_plain_and_coloured() {
    assert_eq!(dry_run_notice(true), "Doing a dry run...");
    assert_eq!(dry_run_notice(false), "\x1b[31;1mDoing a dry run...\x1b[0m");
    assert_eq!(not_found_notice("/h/.zshrc", false), "\x1b[36m/h/.zshrc\x1b[0m \x1b[31;1mnot found\x1b[0m");
    assert_eq!(appending_notice("\nexport Y=2", "/h/.bashrc", true), "Appending \"export Y=2\" to /h/.bashrc");
    assert_eq!(
        appending_notice("\nexport Y=2", "f", false),
        "\x1b[35;1mAppending\x1b[0m \"export Y=2\" \x1b[35;1mto\x1b[0m \x1b[36mf\x1b[0m"
    );
    assert_eq!(done_notice(true), "Now source the config file and you're all ready to go! :3");
    assert_eq!(done_notice(false), "\x1b[32mNow source the config file and you're all ready to go! :3\x1b[0m");
    assert_eq!(shown_line("\nabc"), "abc");
    assert_eq!(shown_line("abc"), "");
}
