use simpalt::command::help;
use simpalt::command::left::{long, short};
use simpalt::command::powerline::Line;
use simpalt::command::{apply, right, tmux, version, Command, Compat, Env, Help, Right};
use simpalt::git;
use simpalt::git::long::{Changes, Pending, Repo, Sync};
use simpalt::git::short::{Repo as R, Sync as S};

const BLACK: &str = "0";
const RED: &str = "1";
const GREEN: &str = "2";
const YELLOW: &str = "3";
const BLUE: &str = "4";
const MAGENTA: &str = "5";
const CYAN: &str = "6";
const RESET: &str = "9";

const ERROR: &str = "\u{2718}";
const JOBS: &str = "\u{e615}";
const PYTHON: &str = "\u{f0320}";
const BRANCH: &str = "\u{e0a0}";
const WARN: &str = "\u{f1238}";
const DIV: &str = "\u{e0b0}";

fn fg_bg(fg: &str, bg: &str) -> String {
    format!("\x1b[3{fg};4{bg}m")
}

fn fg(c: &str) -> String {
    format!("\x1b[3{c}m")
}

fn reset_bg(c: &str) -> String {
    format!("\x1b[;4{c}m")
}

fn reset_fg(c: &str) -> String {
    format!("\x1b[;3{c}m")
}

fn reset() -> String {
    String::from("\x1b[m")
}

fn chevron(c: &str) -> String {
    format!("{}{DIV}{}{DIV}", fg_bg(BLACK, c), reset_fg(c))
}

fn empty_env() -> Env {
    Env { pwd: None, home: None, venv: None, direnv_dir: None, direnv_active: None }
}

fn long_repo(env: &Env) -> Repo {
    match &env.pwd {
        Some(p) => git::long::parse(p),
        None => Repo::Absent,
    }
}

fn short_repo(env: &Env) -> git::short::Repo {
    match &env.pwd {
        Some(p) => git::short::parse(p),
        None => git::short::Repo::Absent,
    }
}

fn long_prompt(host: Option<String>, error: bool, jobs: bool, env: Env) -> String {
    let repo = long_repo(&env);
    long::render_inner(host, error, jobs, &env, repo)
}

fn short_prompt(host: Option<String>, error: bool, jobs: bool, env: Env) -> String {
    let repo = short_repo(&env);
    short::render_inner(host, error, jobs, &env, repo)
}

fn short_git(repo: git::short::Repo) -> String {
    let mut s = String::new();
    short::render_git(&mut s, repo);
    s
}

#[test]
fn long_all_empty() {
    let result = long_prompt(None, false, false, empty_env());
    let expected = [
        fg_bg(BLACK, BLUE),
        String::from(" "),
        String::from(" "),
        fg_bg(BLUE, RESET),
        String::from(DIV),
        fg(RESET),
        String::from(" "),
    ]
    .concat();
    assert_eq!(result, expected);
}

#[test]
fn long_just_pwd() {
    let env = Env { pwd: Some(String::from("/")), ..empty_env() };
    let result = long_prompt(None, false, false, env);
    let expected = [
        fg_bg(BLACK, BLUE),
        String::from(" / "),
        fg_bg(BLUE, RESET),
        String::from(DIV),
        fg(RESET),
        String::from(" "),
    ]
    .concat();
    assert_eq!(result, expected);
}

#[test]
fn long_home_match() {
    let env = Env {
        pwd: Some(String::from("/some/home/path/further/on")),
        home: Some(String::from("/some/home/path")),
        ..empty_env()
    };
    let result = long_prompt(None, false, false, env);
    let expected = [
        fg_bg(BLACK, BLUE),
        String::from(" ~/further/on "),
        fg_bg(BLUE, RESET),
        String::from(DIV),
        fg(RESET),
        String::from(" "),
    ]
    .concat();
    assert_eq!(result, expected);
}

fn tagged_long(venv: Option<&str>, direnv_active: bool) -> String {
    let env = Env {
        pwd: Some(String::from("/some/home/path/further/on")),
        home: Some(String::from("/some/home/path")),
        venv: venv.map(String::from),
        direnv_dir: Some(String::from("/some/direnv")),
        direnv_active: Some(direnv_active),
    };
    long_prompt(Some(String::from("\x1b[31mH")), true, true, env)
}

fn tagged_long_head() -> String {
    [
        fg_bg(RED, BLACK),
        String::from(" "),
        String::from(ERROR),
        String::from(" "),
        fg(CYAN),
        String::from(JOBS),
        String::from(" "),
        fg(RESET),
        fg(RED),
        String::from("H"),
        reset_bg(BLACK),
        String::from(" "),
    ]
    .concat()
}

fn tagged_long_tail(direnv_bg: &str) -> String {
    [
        fg_bg(direnv_bg, BLUE),
        String::from(DIV),
        fg(BLACK),
        String::from(" ~/further/on "),
        fg_bg(BLUE, RESET),
        String::from(DIV),
        fg(RESET),
        String::from(" "),
    ]
    .concat()
}

#[test]
fn long_all_tags() {
    let expected = [
        tagged_long_head(),
        fg_bg(BLACK, CYAN),
        String::from(DIV),
        fg(BLACK),
        String::from(" py "),
        fg_bg(CYAN, MAGENTA),
        String::from(DIV),
        fg(BLACK),
        String::from(" direnv "),
        tagged_long_tail(MAGENTA),
    ]
    .concat();
    assert_eq!(tagged_long(Some("py"), false), expected);
}

#[test]
fn long_direnv() {
    let expected = [
        tagged_long_head(),
        fg_bg(BLACK, MAGENTA),
        String::from(DIV),
        fg(BLACK),
        String::from(" direnv "),
        tagged_long_tail(MAGENTA),
    ]
    .concat();
    assert_eq!(tagged_long(None, false), expected);
}

#[test]
fn long_direnv_active() {
    let expected = [
        tagged_long_head(),
        fg_bg(BLACK, GREEN),
        String::from(DIV),
        fg(BLACK),
        String::from(" direnv "),
        tagged_long_tail(GREEN),
    ]
    .concat();
    assert_eq!(tagged_long(None, true), expected);
}

#[test]
fn long_repository_segments() {
    let mut line = Line::new();
    long::render_git(
        &mut line,
        Repo::Regular(
            String::from("main"),
            Sync::Upstream { ahead: 3, behind: 0 },
            Changes { added: 2, modified: 0, removed: 0, conflicted: 0 },
        ),
    );
    let expected = [
        fg_bg(GREEN, BLACK),
        String::from(" +2 "),
        fg(RESET),
        String::from("\u{e0b1} "),
        fg(YELLOW),
        String::from("\u{f005d}3 "),
        fg_bg(BLACK, YELLOW),
        String::from(DIV),
        fg(BLACK),
        format!(" {BRANCH}main"),
    ]
    .concat();
    assert_eq!(line.text, expected);
}

#[test]
fn short_all_empty() {
    let expected = [reset_bg(BLACK), String::from(" "), chevron(BLUE), reset(), String::from(" ")]
        .concat();
    assert_eq!(short_prompt(None, false, false, empty_env()), expected);
}

#[test]
fn short_just_pwd() {
    let env = Env { pwd: Some(String::from("/")), ..empty_env() };
    let expected = [
        reset_bg(BLACK),
        String::from(" "),
        fg(RED),
        String::from(ERROR),
        String::from(" "),
        fg(CYAN),
        String::from(JOBS),
        String::from(" "),
        fg(RESET),
        String::from("/"),
        String::from(" "),
        chevron(BLUE),
        reset(),
        String::from(" "),
    ]
    .concat();
    assert_eq!(short_prompt(None, true, true, env), expected);
}

#[test]
fn short_last_path() {
    let env = Env {
        pwd: Some(String::from("/some/home/path/")),
        home: Some(String::from("/some/other/path")),
        ..empty_env()
    };
    let expected = [
        reset_bg(BLACK),
        String::from(" "),
        fg(RED),
        String::from(ERROR),
        String::from(" "),
        fg(RESET),
        String::from("path"),
        String::from(" "),
        chevron(BLUE),
        reset(),
        String::from(" "),
    ]
    .concat();
    assert_eq!(short_prompt(None, true, false, env), expected);
}

#[test]
fn short_home_match() {
    let env = Env {
        pwd: Some(String::from("/some/home/path/")),
        home: Some(String::from("/some/home/path")),
        ..empty_env()
    };
    let expected = [
        reset_bg(BLACK),
        String::from(" "),
        String::from("~"),
        String::from(" "),
        chevron(BLUE),
        reset(),
        String::from(" "),
    ]
    .concat();
    assert_eq!(short_prompt(None, false, false, env), expected);
}

fn tagged_short(venv: bool, direnv: Option<bool>) -> String {
    let env = Env {
        pwd: Some(String::from("/some/home/path/")),
        home: Some(String::from("/some/home/path")),
        venv: if venv { Some(String::from("/venv")) } else { None },
        direnv_dir: None,
        direnv_active: direnv,
    };
    short_prompt(Some(String::from("\x1b[31mH")), true, true, env)
}

fn tagged_short_expected(python: bool, direnv_color: &str) -> String {
    let mut parts = vec![
        reset_bg(BLACK),
        String::from(" "),
        fg(RED),
        String::from(ERROR),
        String::from(" "),
        fg(CYAN),
        String::from(JOBS),
        String::from(" "),
    ];
    if python {
        parts.push(fg(GREEN));
        parts.push(String::from(PYTHON));
        parts.push(String::from(" "));
    }
    parts.extend([
        fg(direnv_color),
        String::from(short::DIRENV),
        String::from(" "),
        fg(RESET),
        fg(RED),
        String::from("H"),
        reset_bg(BLACK),
        String::from(" "),
        String::from("~"),
        String::from(" "),
        chevron(BLUE),
        reset(),
        String::from(" "),
    ]);
    parts.concat()
}

#[test]
fn short_all_tags() {
    assert_eq!(tagged_short(true, Some(false)), tagged_short_expected(true, BLUE));
}

#[test]
fn short_direnv() {
    assert_eq!(tagged_short(false, Some(false)), tagged_short_expected(false, BLUE));
}

#[test]
fn short_direnv_active() {
    assert_eq!(tagged_short(false, Some(true)), tagged_short_expected(false, GREEN));
}

#[test]
fn short_git_sync_clean() {
    assert_eq!(short_git(R::Clean(S::Behind)), format!("{}{BRANCH}{}", fg(RED), chevron(GREEN)));
    assert_eq!(short_git(R::Clean(S::Ahead)), format!("{}{BRANCH}{}", fg(YELLOW), chevron(GREEN)));
    assert_eq!(
        short_git(R::Clean(S::Diverged)),
        format!("{}{BRANCH}{}", fg(MAGENTA), chevron(GREEN))
    );
    assert_eq!(short_git(R::Clean(S::UpToDate)), format!("{BRANCH}{}", chevron(GREEN)));
    assert_eq!(short_git(R::Clean(S::Local)), format!("{}{BRANCH}{}", fg(BLUE), chevron(GREEN)));
}

#[test]
fn short_git_sync_dirty() {
    assert_eq!(short_git(R::Dirty(S::Behind)), format!("{}{BRANCH}{}", fg(RED), chevron(YELLOW)));
    assert_eq!(
        short_git(R::Dirty(S::Ahead)),
        format!("{}{BRANCH}{}", fg(YELLOW), chevron(YELLOW))
    );
    assert_eq!(
        short_git(R::Dirty(S::Diverged)),
        format!("{}{BRANCH}{}", fg(MAGENTA), chevron(YELLOW))
    );
    assert_eq!(short_git(R::Dirty(S::UpToDate)), format!("{BRANCH}{}", chevron(YELLOW)));
    assert_eq!(short_git(R::Dirty(S::Local)), format!("{}{BRANCH}{}", fg(BLUE), chevron(YELLOW)));
}

#[test]
fn short_git_status() {
    assert_eq!(short_git(R::Absent), chevron(BLUE));
    assert_eq!(short_git(R::Clean(S::UpToDate)), format!("{BRANCH}{}", chevron(GREEN)));
    assert_eq!(short_git(R::Dirty(S::UpToDate)), format!("{BRANCH}{}", chevron(YELLOW)));
    assert_eq!(short_git(R::Detached), format!("{BRANCH}{}", chevron(MAGENTA)));
    assert_eq!(short_git(R::Pending), format!("{WARN}{}", chevron(CYAN)));
    assert_eq!(short_git(R::Untracked), format!("{BRANCH}{}", chevron(CYAN)));
    assert_eq!(short_git(R::Error), chevron(RED));
}

#[test]
fn short_pwd_names() {
    let home = Some(String::from("/home/me"));
    assert_eq!(short::pwd_string("/home/me/", &home), "~");
    assert_eq!(short::pwd_string("/home/me/src/../docs", &home), "docs");
    assert_eq!(short::pwd_string("/a/b/..", &None), "a");
    assert_eq!(short::pwd_string("/", &None), "/");
    assert_eq!(short::pwd_string("/..", &None), "/");
    assert_eq!(short::pwd_string("//x//./y/", &None), "y");
}

#[test]
fn right() {
    let out = right::render(Right { compat: Compat::Plain });
    let result = String::from_utf8(out).unwrap();
    let regex =
        regex::Regex::new("^\x1b\\[38;5;23m[0-2][0-9]:[0-5][0-9]:[0-5][0-9]\x1b\\[m$").unwrap();
    assert!(regex.is_match(&result));
}

#[test]
fn right_clock_digits() {
    assert_eq!(right::render_inner(9, 5, 30), "\x1b[38;5;23m09:05:30\x1b[m");
    assert_eq!(right::render_inner(23, 59, 0), "\x1b[38;5;23m23:59:00\x1b[m");
}

#[test]
fn tmux_regular_with_changes_and_sync() {
    let text = tmux::render_git(Repo::Regular(
        String::from("main"),
        Sync::Upstream { ahead: 1, behind: 2 },
        Changes { added: 1, modified: 0, removed: 3, conflicted: 0 },
    ));
    let expected = [
        "#[fg=colour237]\u{e0be}",
        "#[fg=magenta,bg=colour237] \u{e0a0}",
        "#[fg=colour246]main ",
        "#[fg=colour236]\u{e0be}#[fg=green,bg=colour236] +1",
        "#[fg=red] -3",
        " ",
        "#[fg=colour246] \u{e0b9} ",
        "#[fg=yellow]\u{f005d}1 ",
        "#[fg=red]\u{f0045}2 ",
    ]
    .concat();
    assert_eq!(text, expected);
}

#[test]
fn tmux_other_states() {
    let clean = Changes { added: 0, modified: 0, removed: 0, conflicted: 0 };
    assert_eq!(tmux::render_git(Repo::Absent), "");
    assert_eq!(tmux::render_git(Repo::Error), "");
    assert_eq!(
        tmux::render_git(Repo::Regular(String::from("dev"), Sync::Local, clean)),
        "#[fg=colour237]\u{e0be}#[fg=magenta,bg=colour237] \u{e0a0}#[fg=colour246]dev \
         #[fg=colour246]\u{e0b9}#[bg=colour236] #[fg=cyan]\u{f0042} local "
    );
    assert_eq!(
        tmux::render_git(Repo::Pending(String::from("dev"), Pending::Merge, clean)),
        "#[fg=colour237]\u{e0be}#[fg=magenta,bg=colour237] \u{e0a0}#[fg=colour246]dev \u{f419}"
    );
    assert_eq!(
        tmux::render_git(Repo::New(Changes { added: 0, modified: 12, removed: 0, conflicted: 1 })),
        "#[fg=colour236]\u{e0be}#[fg=blue,bg=colour236] ~12#[fg=magenta] !1 "
    );
}

#[test]
fn version_line() {
    assert_eq!(version::render(), format!("{}\n", version::VERSION));
    assert_eq!(Command::Version.run(&empty_env()), format!("{}\n", version::VERSION).into_bytes());
}

#[test]
fn help_names_the_program() {
    let text = help::render(Help { bin: Some(String::from("/usr/local/bin/prompt")) });
    assert!(text.starts_with("Usage: prompt <COMMAND>\n\nCommands:\n"));
    let text = help::render(Help { bin: None });
    assert!(text.starts_with("Usage: simpalt <COMMAND>"));
    let text = help::render(Help { bin: Some(String::from("/usr/..")) });
    assert!(text.starts_with("Usage: simpalt <COMMAND>"));
}

#[test]
fn apply_each_compat() {
    assert_eq!(apply(&Compat::Plain, "a\x1b[40mb"), b"a\x1b[40mb".to_vec());
    assert_eq!(apply(&Compat::Zsh, "a\x1b[40mb"), b"a%{\x1b[40m%}b".to_vec());
    assert_eq!(apply(&Compat::Win(String::from("X")), "a\x1b[40mb"), b"a\x1b[4Xmb".to_vec());
    assert_eq!(apply(&Compat::Zsh, "a\x1b[1"), b"a%{\x1b[1%}".to_vec());
}
