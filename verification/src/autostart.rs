//! Registering the program to start at logon: a Task Scheduler task on
//! Windows, a systemd user unit on Linux.
//!
//! Registration is a short dialogue with the system. `install` and
//! `uninstall` give the first step, `step` gives each next one from the
//! outcome of the last; the program around the library carries out each
//! effect and reports its outcome, until a `Finish` effect names what to
//! print and whether the run failed.
use vstd::prelude::*;
use crate::text::views;

verus! {

/// The operating system family that the program runs on.
#[derive(Debug, Clone, Copy, PartialEq, Eq)]
pub enum Platform {
    Windows,
    Linux,
}

/// Where the running executable is: its path, and the directory that holds
/// it (`None` where the path has no parent).
#[derive(Debug)]
pub struct ExeLocation {
    pub path: String,
    pub parent: Option<String>,
}

/// The outcome of an effect.
#[derive(Debug)]
pub enum Event {
    /// Where the running executable is, or why it is not known.
    ExePath(Result<ExeLocation, String>),
    /// A command ran and reported success or failure, or it could not be
    /// started, for the reason given.
    Ran(Result<bool, String>),
    /// A file operation succeeded, or failed for the reason given.
    Done(Result<(), String>),
}

/// Something for the program to do.
#[derive(Debug)]
pub enum Effect {
    /// Find the path of the running executable; answer with `Event::ExePath`.
    LocateExe,
    /// Run `program` with `args` and wait for it; answer with `Event::Ran`.
    Run { program: String, args: Vec<String> },
    /// Create the directory and its parents; answer with `Event::Done`.
    CreateDir(String),
    /// Write `contents` to the file at `path`; answer with `Event::Done`.
    WriteFile { path: String, contents: String },
    /// Remove the file; answer with `Event::Done`.
    RemoveFile(String),
    /// Print each line of `stdout`, then each line of `stderr` to the error
    /// stream, and stop, with exit status 1 if `failed`.
    Finish { stdout: Vec<String>, stderr: Vec<String>, failed: bool },
}

/// Where a registration stands.
#[derive(Debug)]
pub enum Stage {
    /// Waiting for the executable's path, to install.
    AwaitExe { platform: Platform, home: Option<String> },
    /// Waiting for the unit directory `dir` to be created.
    AwaitCreateDir { dir: String, service_path: String, unit: String },
    /// Waiting for the unit file to be written.
    AwaitWrite { service_path: String },
    /// Waiting for `schtasks` to create the task for `exe`.
    AwaitCreateTask { exe: String },
    /// Waiting for `schtasks` to delete the task.
    AwaitDeleteTask,
    /// Waiting for `systemctl` to disable the unit.
    AwaitDisable { service_path: String },
    /// Waiting for the unit file to be removed.
    AwaitRemove { service_path: String },
    /// Done.
    Finished,
}

pub struct ExeLocationView {
    pub path: Seq<char>,
    pub parent: Option<Seq<char>>,
}

pub enum EventView {
    ExePath(Result<ExeLocationView, Seq<char>>),
    Ran(Result<bool, Seq<char>>),
    Done(Result<(), Seq<char>>),
}

pub enum EffectView {
    LocateExe,
    Run { program: Seq<char>, args: Seq<Seq<char>> },
    CreateDir(Seq<char>),
    WriteFile { path: Seq<char>, contents: Seq<char> },
    RemoveFile(Seq<char>),
    Finish { stdout: Seq<Seq<char>>, stderr: Seq<Seq<char>>, failed: bool },
}

pub enum StageView {
    AwaitExe { platform: Platform, home: Option<Seq<char>> },
    AwaitCreateDir { dir: Seq<char>, service_path: Seq<char>, unit: Seq<char> },
    AwaitWrite { service_path: Seq<char> },
    AwaitCreateTask { exe: Seq<char> },
    AwaitDeleteTask,
    AwaitDisable { service_path: Seq<char> },
    AwaitRemove { service_path: Seq<char> },
    Finished,
}

pub open spec fn result_view<T>(r: Result<T, String>) -> Result<T, Seq<char>> {
    match r {
        Ok(v) => Ok(v),
        Err(e) => Err(e@),
    }
}

impl View for Event {
    type V = EventView;

    open spec fn view(&self) -> EventView {
        match self {
            Event::ExePath(r) => EventView::ExePath(
                match r {
                    Ok(p) => Ok(
                        ExeLocationView {
                            path: p.path@,
                            parent: match p.parent {
                                Some(d) => Some(d@),
                                None => None,
                            },
                        },
                    ),
                    Err(e) => Err(e@),
                },
            ),
            Event::Ran(r) => EventView::Ran(result_view(*r)),
            Event::Done(r) => EventView::Done(result_view(*r)),
        }
    }
}

impl View for Effect {
    type V = EffectView;

    open spec fn view(&self) -> EffectView {
        match self {
            Effect::LocateExe => EffectView::LocateExe,
            Effect::Run { program, args } => EffectView::Run {
                program: program@,
                args: views(args@),
            },
            Effect::CreateDir(d) => EffectView::CreateDir(d@),
            Effect::WriteFile { path, contents } => EffectView::WriteFile {
                path: path@,
                contents: contents@,
            },
            Effect::RemoveFile(p) => EffectView::RemoveFile(p@),
            Effect::Finish { stdout, stderr, failed } => EffectView::Finish {
                stdout: views(stdout@),
                stderr: views(stderr@),
                failed: *failed,
            },
        }
    }
}

impl View for Stage {
    type V = StageView;

    open spec fn view(&self) -> StageView {
        match self {
            Stage::AwaitExe { platform, home } => StageView::AwaitExe {
                platform: *platform,
                home: match home {
                    Some(h) => Some(h@),
                    None => None,
                },
            },
            Stage::AwaitCreateDir { dir, service_path, unit } => StageView::AwaitCreateDir {
                dir: dir@,
                service_path: service_path@,
                unit: unit@,
            },
            Stage::AwaitWrite { service_path } => StageView::AwaitWrite {
                service_path: service_path@,
            },
            Stage::AwaitCreateTask { exe } => StageView::AwaitCreateTask { exe: exe@ },
            Stage::AwaitDeleteTask => StageView::AwaitDeleteTask,
            Stage::AwaitDisable { service_path } => StageView::AwaitDisable {
                service_path: service_path@,
            },
            Stage::AwaitRemove { service_path } => StageView::AwaitRemove {
                service_path: service_path@,
            },
            Stage::Finished => StageView::Finished,
        }
    }
}

/// The directory of the systemd user units, under `home` (`/root` where
/// `HOME` is not set).
pub open spec fn unit_dir(home: Option<Seq<char>>) -> Seq<char> {
    (match home {
        Some(h) => h,
        None => "/root"@,
    }) + "/.config/systemd/user"@
}

/// The directory of the systemd user units, under `home` (`/root` where
/// `HOME` is not set).
pub fn dirs_linux(home: &Option<String>) -> (d: String)
    ensures
        d@ == unit_dir(
            match home {
                Some(h) => Some(h@),
                None => None,
            },
        ),
{
    let mut d = match home {
        Some(h) => h.clone(),
        None => "/root".to_owned(),
    };
    d.append("/.config/systemd/user");
    d
}

/// The path of the unit file in the unit directory `dir`.
pub open spec fn unit_path(dir: Seq<char>) -> Seq<char> {
    dir + "/remote_commander.service"@
}

/// The systemd unit that starts `exe` in `dir` and restarts it on failure.
pub open spec fn unit_file(exe: Seq<char>, dir: Seq<char>) -> Seq<char> {
    "[Unit]\nDescription=Remote Commander\nAfter=network.target\n\n[Service]\nType=simple\nExecStart="@
        + exe + "\nWorkingDirectory="@ + dir
        + "\nRestart=on-failure\nRestartSec=5\n\n[Install]\nWantedBy=default.target\n"@
}

/// The working directory of the unit for an executable in `parent`: that
/// directory, or `/opt/remote_commander` where there is none.
pub open spec fn work_dir(parent: Option<Seq<char>>) -> Seq<char> {
    match parent {
        Some(d) => d,
        None => "/opt/remote_commander"@,
    }
}

/// The arguments of the `schtasks` call that creates the logon task for `exe`.
pub open spec fn create_task_args(exe: Seq<char>) -> Seq<Seq<char>> {
    seq![
        "/create"@,
        "/tn"@,
        "RemoteCommander"@,
        "/tr"@,
        "\""@ + exe + "\""@,
        "/sc"@,
        "ONLOGON"@,
        "/f"@,
    ]
}

/// The arguments of the `schtasks` call that deletes the logon task.
pub open spec fn delete_task_args() -> Seq<Seq<char>> {
    seq!["/delete"@, "/tn"@, "RemoteCommander"@, "/f"@]
}

/// The arguments of the `systemctl` call that stops and disables the unit.
pub open spec fn disable_args() -> Seq<Seq<char>> {
    seq!["--user"@, "disable"@, "--now"@, "remote_commander"@]
}

/// The last effect: print these lines and stop.
pub open spec fn finish(stdout: Seq<Seq<char>>, stderr: Seq<Seq<char>>, failed: bool) -> EffectView {
    EffectView::Finish { stdout, stderr, failed }
}

/// Stop with one error line and exit status 1.
pub open spec fn fail_with(line: Seq<char>) -> (StageView, EffectView) {
    (StageView::Finished, finish(Seq::empty(), seq![line], true))
}

/// The first step of installing.
pub open spec fn install_start(platform: Platform, home: Option<Seq<char>>) -> (StageView, EffectView) {
    (StageView::AwaitExe { platform, home }, EffectView::LocateExe)
}

/// The first step of uninstalling.
pub open spec fn uninstall_start(platform: Platform, home: Option<Seq<char>>) -> (StageView, EffectView) {
    match platform {
        Platform::Windows => (
            StageView::AwaitDeleteTask,
            EffectView::Run { program: "schtasks"@, args: delete_task_args() },
        ),
        Platform::Linux => (
            StageView::AwaitDisable { service_path: unit_path(unit_dir(home)) },
            EffectView::Run { program: "systemctl"@, args: disable_args() },
        ),
    }
}

/// Whether `e` is the kind of outcome that stage `s` waits for.
pub open spec fn fits(s: StageView, e: EventView) -> bool {
    match s {
        StageView::AwaitExe { .. } => e is ExePath,
        StageView::AwaitCreateDir { .. } => e is Done,
        StageView::AwaitWrite { .. } => e is Done,
        StageView::AwaitCreateTask { .. } => e is Ran,
        StageView::AwaitDeleteTask => e is Ran,
        StageView::AwaitDisable { .. } => e is Ran,
        StageView::AwaitRemove { .. } => e is Done,
        StageView::Finished => false,
    }
}

/// The next stage and effect after outcome `e` at stage `s`.
pub open spec fn next_step(s: StageView, e: EventView) -> (StageView, EffectView) {
    match s {
        StageView::AwaitExe { platform, home } => match e {
            EventView::ExePath(Err(err)) => match platform {
                Platform::Windows => fail_with(
                    "Ошибка: не удалось определить путь к exe: "@ + err,
                ),
                Platform::Linux => fail_with("Ошибка: "@ + err),
            },
            EventView::ExePath(Ok(exe)) => match platform {
                Platform::Windows => (
                    StageView::AwaitCreateTask { exe: exe.path },
                    EffectView::Run { program: "schtasks"@, args: create_task_args(exe.path) },
                ),
                Platform::Linux => (
                    StageView::AwaitCreateDir {
                        dir: unit_dir(home),
                        service_path: unit_path(unit_dir(home)),
                        unit: unit_file(exe.path, work_dir(exe.parent)),
                    },
                    EffectView::CreateDir(unit_dir(home)),
                ),
            },
            _ => (StageView::Finished, finish(Seq::empty(), Seq::empty(), true)),
        },
        StageView::AwaitCreateDir { dir, service_path, unit } => match e {
            EventView::Done(Err(err)) => fail_with(
                "Не удалось создать директорию "@ + dir + ": "@ + err,
            ),
            _ => (
                StageView::AwaitWrite { service_path },
                EffectView::WriteFile { path: service_path, contents: unit },
            ),
        },
        StageView::AwaitWrite { service_path } => match e {
            EventView::Done(Err(err)) => fail_with("Не удалось записать unit-файл: "@ + err),
            _ => (
                StageView::Finished,
                finish(
                    seq![
                        "Systemd unit записан: "@ + service_path,
                        ""@,
                        "Активируй автозапуск:"@,
                        "  systemctl --user daemon-reload"@,
                        "  systemctl --user enable --now remote_commander"@,
                    ],
                    Seq::empty(),
                    false,
                ),
            ),
        },
        StageView::AwaitCreateTask { exe } => match e {
            EventView::Ran(Ok(true)) => (
                StageView::Finished,
                finish(
                    seq![
                        "Автозапуск установлен (Планировщик задач)."@,
                        "Задача: 'RemoteCommander' — запуск при входе в систему."@,
                        "Убедись, что .env находится рядом с exe: "@ + exe,
                    ],
                    Seq::empty(),
                    false,
                ),
            ),
            EventView::Ran(Err(err)) => fail_with("Не удалось запустить schtasks: "@ + err),
            _ => (
                StageView::Finished,
                finish(
                    Seq::empty(),
                    seq![
                        "schtasks завершился с ошибкой."@,
                        "Попробуй запустить от имени Администратора."@,
                    ],
                    true,
                ),
            ),
        },
        StageView::AwaitDeleteTask => match e {
            EventView::Ran(Ok(true)) => (
                StageView::Finished,
                finish(
                    seq!["Задача 'RemoteCommander' удалена из Планировщика задач."@],
                    Seq::empty(),
                    false,
                ),
            ),
            EventView::Ran(Err(err)) => fail_with("Не удалось запустить schtasks: "@ + err),
            _ => fail_with("Задача не найдена или schtasks вернул ошибку."@),
        },
        StageView::AwaitDisable { service_path } => (
            StageView::AwaitRemove { service_path },
            EffectView::RemoveFile(service_path),
        ),
        StageView::AwaitRemove { service_path } => match e {
            EventView::Done(Err(err)) => fail_with(
                "Не удалось удалить "@ + service_path + ": "@ + err,
            ),
            _ => (
                StageView::Finished,
                finish(
                    seq![
                        "Файл "@ + service_path + " удалён."@,
                        "Запусти: systemctl --user daemon-reload"@,
                    ],
                    Seq::empty(),
                    false,
                ),
            ),
        },
        StageView::Finished => (StageView::Finished, finish(Seq::empty(), Seq::empty(), false)),
    }
}


fn concat(a: &str, b: &str) -> (r: String)
    ensures
        r@ == a@ + b@,
{
    let mut r = a.to_owned();
    r.append(b);
    r
}

fn lines1(a: String) -> (v: Vec<String>)
    ensures
        views(v@) == seq![a@],
{
    let mut v: Vec<String> = Vec::new();
    v.push(a);
    assert(views(v@) =~= seq![a@]);
    v
}

fn lines2(a: String, b: String) -> (v: Vec<String>)
    ensures
        views(v@) == seq![a@, b@],
{
    let mut v: Vec<String> = Vec::new();
    v.push(a);
    v.push(b);
    assert(views(v@) =~= seq![a@, b@]);
    v
}

fn no_lines() -> (v: Vec<String>)
    ensures
        views(v@) == Seq::<Seq<char>>::empty(),
{
    let v: Vec<String> = Vec::new();
    assert(views(v@) =~= Seq::<Seq<char>>::empty());
    v
}

fn fail(line: String) -> (r: (Stage, Effect))
    ensures
        (r.0@, r.1@) == fail_with(line@),
{
    (Stage::Finished, Effect::Finish { stdout: no_lines(), stderr: lines1(line), failed: true })
}

/// The first step of registering the program to start at logon; `home` is
/// the value of `HOME`, if set.
pub fn install(platform: Platform, home: Option<String>) -> (r: (Stage, Effect))
    ensures
        (r.0@, r.1@) == install_start(
            platform,
            match home {
                Some(h) => Some(h@),
                None => None,
            },
        ),
{
    (Stage::AwaitExe { platform, home }, Effect::LocateExe)
}

/// The first step of removing the program from autostart; `home` is the
/// value of `HOME`, if set.
pub fn uninstall(platform: Platform, home: Option<String>) -> (r: (Stage, Effect))
    ensures
        (r.0@, r.1@) == uninstall_start(
            platform,
            match home {
                Some(h) => Some(h@),
                None => None,
            },
        ),
{
    match platform {
        Platform::Windows => {
            let mut args: Vec<String> = Vec::new();
            args.push("/delete".to_owned());
            args.push("/tn".to_owned());
            args.push("RemoteCommander".to_owned());
            args.push("/f".to_owned());
            assert(views(args@) =~= delete_task_args());
            (Stage::AwaitDeleteTask, Effect::Run { program: "schtasks".to_owned(), args })
        },
        Platform::Linux => {
            let dir = dirs_linux(&home);
            let service_path = concat(dir.as_str(), "/remote_commander.service");
            let mut args: Vec<String> = Vec::new();
            args.push("--user".to_owned());
            args.push("disable".to_owned());
            args.push("--now".to_owned());
            args.push("remote_commander".to_owned());
            assert(views(args@) =~= disable_args());
            (
                Stage::AwaitDisable { service_path },
                Effect::Run { program: "systemctl".to_owned(), args },
            )
        },
    }
}

/// The unit text for the executable at `exe` in the directory `parent`.
pub fn unit_text(exe: &str, parent: &Option<String>) -> (u: String)
    ensures
        u@ == unit_file(
            exe@,
            work_dir(
                match parent {
                    Some(d) => Some(d@),
                    None => None,
                },
            ),
        ),
{
    let dir = match parent {
        Some(d) => d.clone(),
        None => "/opt/remote_commander".to_owned(),
    };
    let mut u =
        "[Unit]\nDescription=Remote Commander\nAfter=network.target\n\n[Service]\nType=simple\nExecStart=".to_owned();
    u.append(exe);
    u.append("\nWorkingDirectory=");
    u.append(dir.as_str());
    u.append("\nRestart=on-failure\nRestartSec=5\n\n[Install]\nWantedBy=default.target\n");
    u
}

fn task_args(exe: &str) -> (args: Vec<String>)
    ensures
        views(args@) == create_task_args(exe@),
{
    let mut quoted = "\"".to_owned();
    quoted.append(exe);
    quoted.append("\"");
    let mut args: Vec<String> = Vec::new();
    args.push("/create".to_owned());
    args.push("/tn".to_owned());
    args.push("RemoteCommander".to_owned());
    args.push("/tr".to_owned());
    args.push(quoted);
    args.push("/sc".to_owned());
    args.push("ONLOGON".to_owned());
    args.push("/f".to_owned());
    assert(views(args@) =~= create_task_args(exe@));
    args
}

/// The next step of a registration at `stage`, once its last effect had
/// the outcome `event`.
pub fn step(stage: Stage, event: Event) -> (r: (Stage, Effect))
    requires
        fits(stage@, event@),
    ensures
        (r.0@, r.1@) == next_step(stage@, event@),
{
    match stage {
        Stage::AwaitExe { platform, home } => match event {
            Event::ExePath(Err(err)) => match platform {
                Platform::Windows => fail(
                    concat("Ошибка: не удалось определить путь к exe: ", err.as_str()),
                ),
                Platform::Linux => fail(concat("Ошибка: ", err.as_str())),
            },
            Event::ExePath(Ok(location)) => match platform {
                Platform::Windows => {
                    let exe = location.path;
                    let args = task_args(exe.as_str());
                    (
                        Stage::AwaitCreateTask { exe },
                        Effect::Run { program: "schtasks".to_owned(), args },
                    )
                },
                Platform::Linux => {
                    let dir = dirs_linux(&home);
                    let service_path = concat(dir.as_str(), "/remote_commander.service");
                    let unit = unit_text(location.path.as_str(), &location.parent);
                    let effect = Effect::CreateDir(dir.clone());
                    (Stage::AwaitCreateDir { dir, service_path, unit }, effect)
                },
            },
            _ => (
                Stage::Finished,
                Effect::Finish { stdout: no_lines(), stderr: no_lines(), failed: true },
            ),
        },
        Stage::AwaitCreateDir { dir, service_path, unit } => match event {
            Event::Done(Err(err)) => {
                let mut line = concat("Не удалось создать директорию ", dir.as_str());
                line.append(": ");
                line.append(err.as_str());
                fail(line)
            },
            _ => {
                let path = service_path.clone();
                (
                    Stage::AwaitWrite { service_path },
                    Effect::WriteFile { path, contents: unit },
                )
            },
        },
        Stage::AwaitWrite { service_path } => match event {
            Event::Done(Err(err)) => fail(concat("Не удалось записать unit-файл: ", err.as_str())),
            _ => {
                let mut out: Vec<String> = Vec::new();
                out.push(concat("Systemd unit записан: ", service_path.as_str()));
                out.push("".to_owned());
                out.push("Активируй автозапуск:".to_owned());
                out.push("  systemctl --user daemon-reload".to_owned());
                out.push("  systemctl --user enable --now remote_commander".to_owned());
                let ghost want = seq![
                    "Systemd unit записан: "@ + service_path@,
                    ""@,
                    "Активируй автозапуск:"@,
                    "  systemctl --user daemon-reload"@,
                    "  systemctl --user enable --now remote_commander"@,
                ];
                assert(views(out@) =~= want);
                (
                    Stage::Finished,
                    Effect::Finish { stdout: out, stderr: no_lines(), failed: false },
                )
            },
        },
        Stage::AwaitCreateTask { exe } => match event {
            Event::Ran(Ok(true)) => {
                let mut out: Vec<String> = Vec::new();
                out.push("Автозапуск установлен (Планировщик задач).".to_owned());
                out.push("Задача: 'RemoteCommander' — запуск при входе в систему.".to_owned());
                out.push(concat("Убедись, что .env находится рядом с exe: ", exe.as_str()));
                let ghost want = seq![
                    "Автозапуск установлен (Планировщик задач)."@,
                    "Задача: 'RemoteCommander' — запуск при входе в систему."@,
                    "Убедись, что .env находится рядом с exe: "@ + exe@,
                ];
                assert(views(out@) =~= want);
                (
                    Stage::Finished,
                    Effect::Finish { stdout: out, stderr: no_lines(), failed: false },
                )
            },
            Event::Ran(Err(err)) => fail(concat("Не удалось запустить schtasks: ", err.as_str())),
            _ => (
                Stage::Finished,
                Effect::Finish {
                    stdout: no_lines(),
                    stderr: lines2(
                        "schtasks завершился с ошибкой.".to_owned(),
                        "Попробуй запустить от имени Администратора.".to_owned(),
                    ),
                    failed: true,
                },
            ),
        },
        Stage::AwaitDeleteTask => match event {
            Event::Ran(Ok(true)) => (
                Stage::Finished,
                Effect::Finish {
                    stdout: lines1(
                        "Задача 'RemoteCommander' удалена из Планировщика задач.".to_owned(),
                    ),
                    stderr: no_lines(),
                    failed: false,
                },
            ),
            Event::Ran(Err(err)) => fail(concat("Не удалось запустить schtasks: ", err.as_str())),
            _ => fail("Задача не найдена или schtasks вернул ошибку.".to_owned()),
        },
        Stage::AwaitDisable { service_path } => {
            let path = service_path.clone();
            (Stage::AwaitRemove { service_path }, Effect::RemoveFile(path))
        },
        Stage::AwaitRemove { service_path } => match event {
            Event::Done(Err(err)) => {
                let mut line = concat("Не удалось удалить ", service_path.as_str());
                line.append(": ");
                line.append(err.as_str());
                fail(line)
            },
            _ => {
                let mut first = concat("Файл ", service_path.as_str());
                first.append(" удалён.");
                (
                    Stage::Finished,
                    Effect::Finish {
                        stdout: lines2(first, "Запусти: systemctl --user daemon-reload".to_owned()),
                        stderr: no_lines(),
                        failed: false,
                    },
                )
            },
        },
        Stage::Finished => (
            Stage::Finished,
            Effect::Finish { stdout: no_lines(), stderr: no_lines(), failed: false },
        ),
    }
}


/// How many more outcomes a stage can wait for, at most.
pub open spec fn stages_left(s: StageView) -> nat {
    match s {
        StageView::AwaitExe { .. } => 3,
        StageView::AwaitCreateDir { .. } => 2,
        StageView::AwaitWrite { .. } => 1,
        StageView::AwaitCreateTask { .. } => 1,
        StageView::AwaitDeleteTask => 1,
        StageView::AwaitDisable { .. } => 2,
        StageView::AwaitRemove { .. } => 1,
        StageView::Finished => 0,
    }
}

/// Every registration ends: each step moves closer to the end, and the
/// step that reaches it is exactly the one whose effect is `Finish`.
pub proof fn law_registration_ends(s: StageView, e: EventView)
    requires
        fits(s, e),
    ensures
        stages_left(next_step(s, e).0) < stages_left(s),
        (next_step(s, e).0 == StageView::Finished) <==> (next_step(s, e).1 is Finish),
{
}

/// Any failed outcome ends the registration with exit status 1, except the
/// outcome of disabling the unit, which is not looked at.
pub proof fn law_failures_end_the_run(s: StageView, e: EventView)
    requires
        fits(s, e),
        !(s is AwaitDisable),
        match e {
            EventView::ExePath(r) => r is Err,
            EventView::Ran(r) => r is Err,
            EventView::Done(r) => r is Err,
        },
    ensures
        next_step(s, e).0 == StageView::Finished,
        next_step(s, e).1 matches EffectView::Finish { failed, .. } && failed,
{
}

/// On Linux, installing for the executable `exe` writes the unit that
/// starts `exe` in its directory into `remote_commander.service` in the
/// unit directory under `home`, once that directory exists.
pub proof fn law_linux_install_writes_unit(home: Option<Seq<char>>, exe: ExeLocationView)
    ensures
        ({
            let s1 = install_start(Platform::Linux, home).0;
            let s2 = next_step(s1, EventView::ExePath(Ok(exe)));
            let s3 = next_step(s2.0, EventView::Done(Ok(())));
            &&& s2.1 == EffectView::CreateDir(unit_dir(home))
            &&& s3.1 == EffectView::WriteFile {
                path: unit_path(unit_dir(home)),
                contents: unit_file(exe.path, work_dir(exe.parent)),
            }
        }),
{
}

/// On Linux, uninstalling removes the same unit file that installing
/// writes.
pub proof fn law_uninstall_removes_installed_unit(home: Option<Seq<char>>, ran: Result<bool, Seq<char>>)
    ensures
        next_step(uninstall_start(Platform::Linux, home).0, EventView::Ran(ran)).1
            == EffectView::RemoveFile(unit_path(unit_dir(home))),
{
}

} // verus!
