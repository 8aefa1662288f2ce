use remote_commander::system_manager::{
    amixer_args, amixer_outcome, clamp_volume, kill_report, matching_pids, system_outcome, SystemError,
    SystemManager, SystemStats,
};

#[test]
fn matching_ignores_case() {
    let procs = vec![
        (10u32, "Chrome.EXE".to_string()),
        (11u32, "bash".to_string()),
        (12u32, "chrome.exe".to_string()),
        (13u32, "chrome.exe2".to_string()),
        (14u32, "ÇHROME.exe".to_string()),
    ];
    assert_eq!(matching_pids(&procs, "chrome.exe"), vec![10, 12]);
    assert_eq!(matching_pids(&procs, "CHROME.EXE"), vec![10, 12]);
    assert_eq!(matching_pids(&procs, "çhrome.EXE"), vec![14]);
    assert_eq!(matching_pids(&procs, "none"), Vec::<u32>::new());
}

#[test]
fn kill_reports() {
    assert_eq!(kill_report("chrome.exe", 0, 0), "Процесс 'chrome.exe' не найден");
    assert_eq!(kill_report("chrome.exe", 3, 2), "Завершено: 2/3 процессов 'chrome.exe'");
}

#[test]
fn kill_process_reports_missing_process() {
    let mut m = SystemManager::new();
    let name = "no-such-process-name-for-sure";
    assert_eq!(
        m.kill_process(name).unwrap(),
        format!("Процесс '{}' не найден", name)
    );
}

#[test]
fn metrics_are_in_megabytes() {
    let mut m = SystemManager::new();
    let s = m.get_metrics();
    assert!(s.total_memory <= u64::MAX / 1024 / 1024);
    assert_eq!(
        SystemStats::from_bytes(3 * 1024 * 1024 + 5, 16 * 1024 * 1024 * 1024),
        SystemStats { used_memory: 3, total_memory: 16384 }
    );
    assert_eq!(SystemStats::from_bytes(1048575, 0), SystemStats { used_memory: 0, total_memory: 0 });
}

#[test]
fn volume_is_clamped_to_100() {
    assert_eq!(clamp_volume(0), 0);
    assert_eq!(clamp_volume(100), 100);
    assert_eq!(clamp_volume(101), 100);
    assert_eq!(clamp_volume(u16::MAX), 100);
}

#[test]
fn amixer_call_and_outcome() {
    assert_eq!(amixer_args(42), vec!["set", "Master", "42%"]);
    assert_eq!(amixer_outcome(Ok(true)), Ok(()));
    assert_eq!(amixer_outcome(Ok(false)), Err(SystemError::AmixerFailed));
    assert_eq!(
        amixer_outcome(Err("gone".to_string())),
        Err(SystemError::AmixerUnavailable("gone".to_string()))
    );
}

#[test]
fn error_messages() {
    assert_eq!(SystemError::BrowserFailed.message(), "Не удалось открыть браузер");
    assert_eq!(SystemError::ShutdownFailed.message(), "Ошибка при попытке выключения ПК");
    assert_eq!(SystemError::RebootFailed.message(), "Ошибка при попытке перезагрузки ПК");
    assert_eq!(SystemError::AmixerFailed.message(), "amixer вернул ошибку");
    assert_eq!(SystemError::AmixerUnavailable("e".to_string()).message(), "amixer недоступен: e");
    assert_eq!(SystemError::Audio("Не удалось установить громкость".to_string()).message(), "Не удалось установить громкость");
}

#[test]
fn system_request_outcomes() {
    assert_eq!(system_outcome(Ok(()), SystemError::ShutdownFailed), Ok(()));
    let e = std::io::Error::new(std::io::ErrorKind::Other, "refused");
    assert_eq!(system_outcome(Err(e), SystemError::RebootFailed), Err(SystemError::RebootFailed));
}
