use simpalt::args::{parse, parse_left, parse_right};
use simpalt::command::{Command, Compat, Help, Left, Right, Tmux};

fn strings(items: &[&str]) -> Vec<String> {
    items.iter().map(|s| String::from(*s)).collect()
}

#[test]
fn parse_right_empty() {
    assert_eq!(Right { compat: Compat::Plain }, parse_right(&[]));
}

#[test]
fn parse_right_no_match() {
    assert_eq!(
        Right { compat: Compat::Plain },
        parse_right(&strings(&["bla", "-w", "ble"]))
    );
}

#[test]
fn parse_right_zsh() {
    assert_eq!(Right { compat: Compat::Zsh }, parse_right(&strings(&["-z"])));
}

#[test]
fn parse_right_win() {
    assert_eq!(
        Right { compat: Compat::Win(String::from("2")) },
        parse_right(&strings(&["-w2"]))
    );
}

#[test]
fn parse_right_take_last() {
    assert_eq!(Right { compat: Compat::Zsh }, parse_right(&strings(&["-w12", "-z"])));
}

#[test]
fn parse_left_empty() {
    assert_eq!(
        Left { host: None, error: false, jobs: false, long: false, compat: Compat::Plain },
        parse_left(&[])
    );
}

#[test]
fn parse_left_win() {
    assert_eq!(
        Left {
            host: None,
            error: false,
            jobs: false,
            long: false,
            compat: Compat::Win(String::from("yo")),
        },
        parse_left(&strings(&["-wyo"]))
    );
}

#[test]
fn parse_left_invalid_win() {
    assert_eq!(
        Left {
            host: Some(String::from("-w")),
            error: false,
            jobs: false,
            long: false,
            compat: Compat::Plain,
        },
        parse_left(&strings(&["-w"]))
    );
}

#[test]
fn parse_left_take_last() {
    assert_eq!(
        Left {
            host: Some(String::from("last")),
            error: false,
            jobs: false,
            long: false,
            compat: Compat::Plain,
        },
        parse_left(&strings(&["first", "second", "last"]))
    );
}

#[test]
fn parse_left_all_options() {
    assert_eq!(
        Left {
            host: Some(String::from("last")),
            error: true,
            jobs: true,
            long: true,
            compat: Compat::Zsh,
        },
        parse_left(&strings(&[
            "first", "", "-3", "-e", "second", "-j", "last", "-l", "-e", "-j", "-z", ""
        ]))
    );
}

#[test]
fn parse_command_line() {
    assert_eq!(
        parse(&strings(&["simpalt", "r", "-z"])),
        Command::Right(Right { compat: Compat::Zsh })
    );
    assert_eq!(
        parse(&strings(&["simpalt", "t", "/tmp"])),
        Command::Tmux(Tmux { pwd: String::from("/tmp") })
    );
    assert_eq!(
        parse(&strings(&["simpalt", "t"])),
        Command::Help(Help { bin: Some(String::from("simpalt")) })
    );
    assert_eq!(parse(&strings(&["simpalt", "v"])), Command::Version);
    assert_eq!(parse(&[]), Command::Help(Help { bin: None }));
    assert_eq!(
        parse(&strings(&["simpalt", "l", "host", "-e"])),
        Command::Left(Left {
            host: Some(String::from("host")),
            error: true,
            jobs: false,
            long: false,
            compat: Compat::Plain,
        })
    );
}
