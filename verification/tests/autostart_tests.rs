use remote_commander::autostart::{
    dirs_linux, install, step, uninstall, unit_text, Effect, Event, ExeLocation, Platform, Stage,
};

fn at(path: &str, parent: Option<&str>) -> Event {
    Event::ExePath(Ok(ExeLocation { path: path.to_string(), parent: parent.map(|p| p.to_string()) }))
}

fn finish(e: Effect) -> (Vec<String>, Vec<String>, bool) {
    match e {
        Effect::Finish { stdout, stderr, failed } => (stdout, stderr, failed),
        other => panic!("expected Finish, got {:?}", other),
    }
}

#[test]
fn unit_directory_under_home() {
    assert_eq!(dirs_linux(&Some("/home/u".to_string())), "/home/u/.config/systemd/user");
    assert_eq!(dirs_linux(&None), "/root/.config/systemd/user");
}

#[test]
fn unit_file_text() {
    let u = unit_text("/opt/rc/remote_commander", &Some("/opt/rc".to_string()));
    assert_eq!(
        u,
        "[Unit]\nDescription=Remote Commander\nAfter=network.target\n\n[Service]\nType=simple\nExecStart=/opt/rc/remote_commander\nWorkingDirectory=/opt/rc\nRestart=on-failure\nRestartSec=5\n\n[Install]\nWantedBy=default.target\n"
    );
    assert!(unit_text("/", &None).contains("WorkingDirectory=/opt/remote_commander\n"));
}

#[test]
fn linux_install_dialogue() {
    let (s, e) = install(Platform::Linux, Some("/home/u".to_string()));
    assert!(matches!(e, Effect::LocateExe));
    let (s, e) = step(s, at("/opt/rc/remote_commander", Some("/opt/rc")));
    match &e {
        Effect::CreateDir(d) => assert_eq!(d, "/home/u/.config/systemd/user"),
        other => panic!("{:?}", other),
    }
    let (s, e) = step(s, Event::Done(Ok(())));
    match &e {
        Effect::WriteFile { path, contents } => {
            assert_eq!(path, "/home/u/.config/systemd/user/remote_commander.service");
            assert_eq!(contents, &unit_text("/opt/rc/remote_commander", &Some("/opt/rc".to_string())));
            assert!(contents.contains("\nExecStart=/opt/rc/remote_commander\nWorkingDirectory=/opt/rc\n"));
        }
        other => panic!("{:?}", other),
    }
    let (s, e) = step(s, Event::Done(Ok(())));
    assert!(matches!(s, Stage::Finished));
    let (out, err, failed) = finish(e);
    assert!(!failed);
    assert!(err.is_empty());
    assert_eq!(
        out,
        vec![
            "Systemd unit записан: /home/u/.config/systemd/user/remote_commander.service",
            "",
            "Активируй автозапуск:",
            "  systemctl --user daemon-reload",
            "  systemctl --user enable --now remote_commander",
        ]
    );
}

#[test]
fn linux_install_failures() {
    let (s, _) = install(Platform::Linux, None);
    let (_, e) = step(s, Event::ExePath(Err("boom".to_string())));
    assert_eq!(finish(e), (vec![], vec!["Ошибка: boom".to_string()], true));

    let (s, _) = install(Platform::Linux, None);
    let (s, _) = step(s, at("/x/rc", Some("/x")));
    let (_, e) = step(s, Event::Done(Err("denied".to_string())));
    assert_eq!(
        finish(e),
        (vec![], vec!["Не удалось создать директорию /root/.config/systemd/user: denied".to_string()], true)
    );

    let (s, _) = install(Platform::Linux, None);
    let (s, _) = step(s, at("/x/rc", Some("/x")));
    let (s, _) = step(s, Event::Done(Ok(())));
    let (_, e) = step(s, Event::Done(Err("full".to_string())));
    assert_eq!(finish(e), (vec![], vec!["Не удалось записать unit-файл: full".to_string()], true));
}

#[test]
fn windows_install_dialogue() {
    let (s, _) = install(Platform::Windows, None);
    let (s, e) = step(s, at("C:\\rc\\remote_commander.exe", Some("C:\\rc")));
    match &e {
        Effect::Run { program, args } => {
            assert_eq!(program, "schtasks");
            assert_eq!(
                args,
                &vec!["/create", "/tn", "RemoteCommander", "/tr", "\"C:\\rc\\remote_commander.exe\"", "/sc", "ONLOGON", "/f"]
            );
        }
        other => panic!("{:?}", other),
    }
    let (_, e) = step(s, Event::Ran(Ok(true)));
    assert_eq!(
        finish(e),
        (
            vec![
                "Автозапуск установлен (Планировщик задач).".to_string(),
                "Задача: 'RemoteCommander' — запуск при входе в систему.".to_string(),
                "Убедись, что .env находится рядом с exe: C:\\rc\\remote_commander.exe".to_string(),
            ],
            vec![],
            false
        )
    );
}

#[test]
fn windows_install_failures() {
    let (s, _) = install(Platform::Windows, None);
    let (_, e) = step(s, Event::ExePath(Err("x".to_string())));
    assert_eq!(finish(e), (vec![], vec!["Ошибка: не удалось определить путь к exe: x".to_string()], true));

    let (s, _) = install(Platform::Windows, None);
    let (s, _) = step(s, at("rc.exe", None));
    let (_, e) = step(s, Event::Ran(Ok(false)));
    assert_eq!(
        finish(e),
        (
            vec![],
            vec![
                "schtasks завершился с ошибкой.".to_string(),
                "Попробуй запустить от имени Администратора.".to_string()
            ],
            true
        )
    );

    let (s, _) = install(Platform::Windows, None);
    let (s, _) = step(s, at("rc.exe", None));
    let (_, e) = step(s, Event::Ran(Err("not found".to_string())));
    assert_eq!(finish(e), (vec![], vec!["Не удалось запустить schtasks: not found".to_string()], true));
}

#[test]
fn windows_uninstall_dialogue() {
    let (s, e) = uninstall(Platform::Windows, None);
    match &e {
        Effect::Run { program, args } => {
            assert_eq!(program, "schtasks");
            assert_eq!(args, &vec!["/delete", "/tn", "RemoteCommander", "/f"]);
        }
        other => panic!("{:?}", other),
    }
    let (_, e) = step(s, Event::Ran(Ok(true)));
    assert_eq!(
        finish(e),
        (vec!["Задача 'RemoteCommander' удалена из Планировщика задач.".to_string()], vec![], false)
    );
    let (s, _) = uninstall(Platform::Windows, None);
    let (_, e) = step(s, Event::Ran(Ok(false)));
    assert_eq!(
        finish(e),
        (vec![], vec!["Задача не найдена или schtasks вернул ошибку.".to_string()], true)
    );
}

#[test]
fn linux_uninstall_dialogue() {
    let (s, e) = uninstall(Platform::Linux, Some("/home/u".to_string()));
    match &e {
        Effect::Run { program, args } => {
            assert_eq!(program, "systemctl");
            assert_eq!(args, &vec!["--user", "disable", "--now", "remote_commander"]);
        }
        other => panic!("{:?}", other),
    }
    // The outcome of disabling is not looked at.
    let (s, e) = step(s, Event::Ran(Ok(false)));
    match &e {
        Effect::RemoveFile(p) => assert_eq!(p, "/home/u/.config/systemd/user/remote_commander.service"),
        other => panic!("{:?}", other),
    }
    let (_, e) = step(s, Event::Done(Ok(())));
    assert_eq!(
        finish(e),
        (
            vec![
                "Файл /home/u/.config/systemd/user/remote_commander.service удалён.".to_string(),
                "Запусти: systemctl --user daemon-reload".to_string()
            ],
            vec![],
            false
        )
    );
    let (s, _) = uninstall(Platform::Linux, None);
    let (s, _) = step(s, Event::Ran(Err("no systemctl".to_string())));
    let (_, e) = step(s, Event::Done(Err("missing".to_string())));
    assert_eq!(
        finish(e),
        (
            vec![],
            vec!["Не удалось удалить /root/.config/systemd/user/remote_commander.service: missing".to_string()],
            true
        )
    );
}
