use remote_commander::cli::{config_error_lines, mode_of, unknown_argument_lines, Mode};
use remote_commander::config::ConfigError;

fn args(a: &[&str]) -> Vec<String> {
    a.iter().map(|s| s.to_string()).collect()
}

#[test]
fn command_line_modes() {
    assert_eq!(mode_of(&args(&[])), Mode::Run);
    assert_eq!(mode_of(&args(&["remote_commander"])), Mode::Run);
    assert_eq!(mode_of(&args(&["remote_commander", "--install"])), Mode::Install);
    assert_eq!(mode_of(&args(&["remote_commander", "--uninstall", "x"])), Mode::Uninstall);
    assert_eq!(
        mode_of(&args(&["remote_commander", "--help"])),
        Mode::Unknown("--help".to_string())
    );
}

#[test]
fn startup_error_lines() {
    assert_eq!(
        unknown_argument_lines("--x"),
        vec![
            "Неизвестный аргумент: --x",
            "Использование: remote_commander [--install | --uninstall]"
        ]
    );
    assert_eq!(
        config_error_lines(&ConfigError::MissingToken),
        vec![
            "Ошибка конфигурации: Переменная TELEGRAM_BOT_TOKEN не задана в .env",
            "Создай файл .env на основе .env.example и заполни значения."
        ]
    );
}
