use remote_commander::bot::{
    confirm_prompt, handle_callback, handle_command, is_allowed, kill_reply, memory_reply,
    parse_volume_arg, power_error_reply, volume_reply, youtube_reply, Action, Command, PowerAction,
};
use remote_commander::system_manager::{SystemError, SystemStats};

fn allowed() -> Vec<i64> {
    vec![123456789, 987654321]
}

#[test]
fn unknown_chat_is_ignored_for_every_command() {
    let cmds = vec![
        Command::Help,
        Command::Status,
        Command::Youtube,
        Command::Kill("chrome.exe".to_string()),
        Command::Vol("50".to_string()),
        Command::Poweroff,
        Command::Reboot,
    ];
    for cmd in cmds {
        assert_eq!(handle_command(&allowed(), 555, cmd), Action::Ignore);
    }
    assert_eq!(handle_command(&vec![], 123456789, Command::Status), Action::Ignore);
}

#[test]
fn whitelist_membership() {
    assert!(is_allowed(&allowed(), 987654321));
    assert!(!is_allowed(&allowed(), -987654321));
    assert!(!is_allowed(&vec![], 0));
}

#[test]
fn help_lists_every_command() {
    match handle_command(&allowed(), 123456789, Command::Help) {
        Action::Reply(text) => {
            for c in ["/help", "/status", "/youtube", "/kill", "/vol", "/poweroff", "/reboot"] {
                assert!(text.contains(c), "missing {}", c);
            }
            assert!(text.starts_with("Команды Remote Commander:"));
        }
        other => panic!("unexpected {:?}", other),
    }
}

#[test]
fn status_and_youtube_actions() {
    assert_eq!(handle_command(&allowed(), 123456789, Command::Status), Action::Status);
    assert_eq!(
        handle_command(&allowed(), 123456789, Command::Youtube),
        Action::OpenUrl("https://www.youtube.com".to_string())
    );
}

#[test]
fn kill_trims_the_name() {
    assert_eq!(
        handle_command(&allowed(), 123456789, Command::Kill("  chrome.exe \n".to_string())),
        Action::Kill("chrome.exe".to_string())
    );
}

#[test]
fn kill_without_name_gets_usage() {
    for arg in ["", "   ", "\t\u{a0}"] {
        assert_eq!(
            handle_command(&allowed(), 123456789, Command::Kill(arg.to_string())),
            Action::Reply("Использование: /kill <имя_процесса>".to_string())
        );
    }
}

#[test]
fn vol_accepts_levels_up_to_100() {
    for (arg, level) in [("0", 0u16), ("50", 50), (" 100 ", 100), ("+7", 7), ("007", 7)] {
        assert_eq!(
            handle_command(&allowed(), 123456789, Command::Vol(arg.to_string())),
            Action::SetVolume(level)
        );
        assert_eq!(parse_volume_arg(arg), Some(level));
    }
}

#[test]
fn vol_refuses_other_arguments() {
    for arg in ["101", "65536", "-1", "", "abc", "5 0", "50%"] {
        assert_eq!(
            handle_command(&allowed(), 123456789, Command::Vol(arg.to_string())),
            Action::Reply("Использование: /vol <0-100>".to_string())
        );
        assert_eq!(parse_volume_arg(arg), None);
    }
}

#[test]
fn power_commands_ask_for_confirmation() {
    assert_eq!(
        handle_command(&allowed(), 123456789, Command::Poweroff),
        Action::Confirm(PowerAction::Shutdown)
    );
    assert_eq!(
        handle_command(&allowed(), 123456789, Command::Reboot),
        Action::Confirm(PowerAction::Reboot)
    );
}

#[test]
fn confirm_prompts() {
    let p = confirm_prompt(PowerAction::Shutdown);
    assert_eq!(p.text, "Выключить компьютер?");
    assert_eq!(p.buttons.len(), 2);
    assert_eq!(p.buttons[0].label, "✅ Да, выключить");
    assert_eq!(p.buttons[0].data, "confirm_poweroff");
    assert_eq!(p.buttons[1].label, "❌ Отмена");
    assert_eq!(p.buttons[1].data, "cancel_poweroff");
    let r = confirm_prompt(PowerAction::Reboot);
    assert_eq!(r.text, "Перезагрузить компьютер?");
    assert_eq!(r.buttons[0].label, "✅ Да, перезагрузить");
    assert_eq!(r.buttons[0].data, "confirm_reboot");
    assert_eq!(r.buttons[1].data, "cancel_reboot");
}

#[test]
fn confirm_callback_powers_off() {
    let r = handle_callback(&allowed(), Some(123456789), Some("confirm_poweroff".to_string()));
    assert_eq!(r.edit.as_deref(), Some("Выключаю компьютер..."));
    assert_eq!(r.power, Some(PowerAction::Shutdown));
    let r = handle_callback(&allowed(), Some(123456789), Some("confirm_reboot".to_string()));
    assert_eq!(r.edit.as_deref(), Some("Перезагружаю компьютер..."));
    assert_eq!(r.power, Some(PowerAction::Reboot));
}

#[test]
fn cancel_callback_does_nothing_but_edit() {
    for d in ["cancel_poweroff", "cancel_reboot"] {
        let r = handle_callback(&allowed(), Some(987654321), Some(d.to_string()));
        assert_eq!(r.edit.as_deref(), Some("Отменено."));
        assert_eq!(r.power, None);
    }
}

#[test]
fn callback_from_unknown_chat_or_without_message_does_nothing() {
    let r = handle_callback(&allowed(), Some(1), Some("confirm_poweroff".to_string()));
    assert_eq!((r.edit, r.power), (None, None));
    let r = handle_callback(&allowed(), None, Some("confirm_poweroff".to_string()));
    assert_eq!((r.edit, r.power), (None, None));
    let r = handle_callback(&allowed(), Some(123456789), Some("Confirm_Poweroff".to_string()));
    assert_eq!((r.edit, r.power), (None, None));
    let r = handle_callback(&allowed(), Some(123456789), None);
    assert_eq!((r.edit, r.power), (None, None));
}

#[test]
fn replies_to_outcomes() {
    assert_eq!(
        memory_reply(SystemStats { used_memory: 2048, total_memory: 16384 }),
        "RAM: 2048 МБ / 16384 МБ"
    );
    assert_eq!(youtube_reply(&Ok(())), "YouTube открыт в браузере.");
    assert_eq!(
        youtube_reply(&Err(SystemError::BrowserFailed)),
        "Ошибка: Не удалось открыть браузер"
    );
    assert_eq!(kill_reply(&Ok("Процесс 'x' не найден".to_string())), "Процесс 'x' не найден");
    assert_eq!(
        volume_reply(50, &Ok(())),
        "Громкость установлена: 50%"
    );
    assert_eq!(
        volume_reply(50, &Err(SystemError::AmixerFailed)),
        "Ошибка: amixer вернул ошибку"
    );
    assert_eq!(
        volume_reply(3, &Err(SystemError::AmixerUnavailable("No such file or directory (os error 2)".to_string()))),
        "Ошибка: amixer недоступен: No such file or directory (os error 2)"
    );
    assert_eq!(
        power_error_reply(PowerAction::Shutdown, &SystemError::ShutdownFailed),
        "Ошибка выключения: Ошибка при попытке выключения ПК"
    );
    assert_eq!(
        power_error_reply(PowerAction::Reboot, &SystemError::RebootFailed),
        "Ошибка перезагрузки: Ошибка при попытке перезагрузки ПК"
    );
}
