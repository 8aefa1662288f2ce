//! The command line: what the program is asked to do, and what it prints
//! when it cannot start.
use vstd::prelude::*;
use crate::config::ConfigError;
use crate::text::views;

verus! {

/// What the program is asked to do.
#[derive(Debug, Clone, PartialEq, Eq)]
pub enum Mode {
    /// Run the bot (no argument).
    Run,
    /// `--install`: register at logon.
    Install,
    /// `--uninstall`: remove from autostart.
    Uninstall,
    /// Any other first argument.
    Unknown(String),
}

/// What the program is asked to do, for the arguments `args` (the program
/// name first); only the first argument after it counts.
pub fn mode_of(args: &Vec<String>) -> (m: Mode)
    ensures
        args@.len() < 2 ==> m == Mode::Run,
        args@.len() >= 2 ==> {
            if args@[1]@ == "--install"@ {
                m == Mode::Install
            } else if args@[1]@ == "--uninstall"@ {
                m == Mode::Uninstall
            } else {
                m matches Mode::Unknown(a) && a@ == args@[1]@
            }
        },
{
    if args.len() < 2 {
        return Mode::Run;
    }
    let arg = &args[1];
    if *arg == "--install".to_owned() {
        Mode::Install
    } else if *arg == "--uninstall".to_owned() {
        Mode::Uninstall
    } else {
        Mode::Unknown(arg.clone())
    }
}

/// The lines printed, before exiting with status 1, for an unknown
/// argument `arg`.
pub fn unknown_argument_lines(arg: &str) -> (lines: Vec<String>)
    ensures
        views(lines@) == seq![
            "Неизвестный аргумент: "@ + arg@,
            "Использование: remote_commander [--install | --uninstall]"@,
        ],
{
    let mut first = "Неизвестный аргумент: ".to_owned();
    first.append(arg);
    let mut lines: Vec<String> = Vec::new();
    lines.push(first);
    lines.push("Использование: remote_commander [--install | --uninstall]".to_owned());
    assert(views(lines@) =~= seq![
        "Неизвестный аргумент: "@ + arg@,
        "Использование: remote_commander [--install | --uninstall]"@,
    ]);
    lines
}

/// The lines printed, before exiting with status 1, when the configuration
/// is refused with `e`.
pub fn config_error_lines(e: &ConfigError) -> (lines: Vec<String>)
    ensures
        views(lines@) == seq![
            "Ошибка конфигурации: "@ + e.spec_message(),
            "Создай файл .env на основе .env.example и заполни значения."@,
        ],
{
    let mut first = "Ошибка конфигурации: ".to_owned();
    first.append(e.message().as_str());
    let mut lines: Vec<String> = Vec::new();
    lines.push(first);
    lines.push("Создай файл .env на основе .env.example и заполни значения.".to_owned());
    assert(views(lines@) =~= seq![
        "Ошибка конфигурации: "@ + e.spec_message(),
        "Создай файл .env на основе .env.example и заполни значения."@,
    ]);
    lines
}

} // verus!
