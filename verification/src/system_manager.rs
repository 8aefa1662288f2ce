//! The system operations behind the bot's commands: memory figures,
//! ending processes by name, opening a link, the power operations, and the
//! volume level.
use vstd::prelude::*;
use sysinfo::{Pid, Process, System};
use crate::text::{decimal, u64_to_decimal};

verus! {

/// `sysinfo::System`, carried through opaque.
#[verifier::external_type_specification]
#[verifier::external_body]
pub struct ExSystem(System);

/// `sysinfo::Process`, carried through opaque.
#[verifier::external_type_specification]
#[verifier::external_body]
pub struct ExProcess(Process);

/// `std::io::Error`, the error of the operating-system requests, carried
/// through opaque.
#[verifier::external_type_specification]
#[verifier::external_body]
pub struct ExIoError(std::io::Error);

/// What `str::to_lowercase` gives for a string (the Unicode lowercase
/// mapping, character by character, with the final-sigma rule).
pub uninterp spec fn str_lowercase(s: Seq<char>) -> Seq<char>;

/// `str::to_lowercase`: the result is the lowercase mapping of `s`, and
/// depends on `s` alone.
#[verifier::external_body]
fn lowercase(s: &str) -> (r: String)
    ensures
        r@ == str_lowercase(s@),
{
    s.to_lowercase()
}

/// `sysinfo::System::new_all`: a snapshot of the machine with everything
/// loaded. Nothing is stated of what it holds.
#[verifier::external_body]
fn system_new_all() -> System {
    System::new_all()
}

/// `sysinfo::System::refresh_cpu`: reads the CPU figures again.
#[verifier::external_body]
fn system_refresh_cpu(sys: &mut System) {
    sys.refresh_cpu();
}

/// `sysinfo::System::refresh_memory`: reads the memory figures again.
#[verifier::external_body]
fn system_refresh_memory(sys: &mut System) {
    sys.refresh_memory();
}

/// `sysinfo::System::used_memory`: the used RAM in bytes, as last read.
#[verifier::external_body]
fn system_used_memory(sys: &System) -> u64 {
    sys.used_memory()
}

/// `sysinfo::System::total_memory`: the RAM size in bytes, as last read.
#[verifier::external_body]
fn system_total_memory(sys: &System) -> u64 {
    sys.total_memory()
}

/// `sysinfo::System::refresh_processes`: reads the process list again.
#[verifier::external_body]
fn system_refresh_processes(sys: &mut System) {
    sys.refresh_processes();
}

/// `sysinfo::System::processes`: each process of the last reading as its
/// pid (`Pid::as_u32`) and its name (`Process::name`), in the order in
/// which the map is walked. Nothing is stated of the contents.
#[verifier::external_body]
fn system_processes(sys: &System) -> Vec<(u32, String)> {
    let mut v = Vec::new();
    for (pid, p) in sys.processes() {
        v.push((pid.as_u32(), p.name().to_string()));
    }
    v
}

/// `sysinfo::System::process` with `Pid::from_u32`: the process of that pid
/// in the last reading, if there is one.
#[verifier::external_body]
fn system_process(sys: &System, pid: u32) -> Option<&Process> {
    sys.process(Pid::from_u32(pid))
}

/// `sysinfo::Process::kill`: sends the kill signal; whether it was sent.
#[verifier::external_body]
fn process_kill(p: &Process) -> bool {
    p.kill()
}

/// `webbrowser::open`: opens `url` in the default browser.
#[verifier::external_body]
fn browser_open(url: &str) -> Result<(), std::io::Error> {
    webbrowser::open(url)
}

/// `system_shutdown::shutdown`: asks the operating system to shut down.
#[verifier::external_body]
fn os_shutdown() -> Result<(), std::io::Error> {
    system_shutdown::shutdown()
}

/// `system_shutdown::reboot`: asks the operating system to reboot.
#[verifier::external_body]
fn os_reboot() -> Result<(), std::io::Error> {
    system_shutdown::reboot()
}

/// A failed system operation.
#[derive(Debug, Clone, PartialEq, Eq)]
pub enum SystemError {
    /// The browser could not be opened.
    BrowserFailed,
    /// The shutdown request failed.
    ShutdownFailed,
    /// The reboot request failed.
    RebootFailed,
    /// `amixer` could not be started; the reason is given.
    AmixerUnavailable(String),
    /// `amixer` ran and reported failure.
    AmixerFailed,
    /// The audio interface refused the new volume; the reason is given.
    Audio(String),
}

impl SystemError {
    /// The text shown to the user for this error.
    pub open spec fn spec_message(self) -> Seq<char> {
        match self {
            SystemError::BrowserFailed => "Не удалось открыть браузер"@,
            SystemError::ShutdownFailed => "Ошибка при попытке выключения ПК"@,
            SystemError::RebootFailed => "Ошибка при попытке перезагрузки ПК"@,
            SystemError::AmixerUnavailable(e) => "amixer недоступен: "@ + e@,
            SystemError::AmixerFailed => "amixer вернул ошибку"@,
            SystemError::Audio(e) => e@,
        }
    }

    /// The text shown to the user for this error.
    pub fn message(&self) -> (s: String)
        ensures
            s@ == self.spec_message(),
    {
        match self {
            SystemError::BrowserFailed => "Не удалось открыть браузер".to_owned(),
            SystemError::ShutdownFailed => "Ошибка при попытке выключения ПК".to_owned(),
            SystemError::RebootFailed => "Ошибка при попытке перезагрузки ПК".to_owned(),
            SystemError::AmixerUnavailable(e) => {
                let mut s = "amixer недоступен: ".to_owned();
                s.append(e.as_str());
                s
            },
            SystemError::AmixerFailed => "amixer вернул ошибку".to_owned(),
            SystemError::Audio(e) => e.clone(),
        }
    }
}

/// Memory use in megabytes (MiB).
#[derive(Debug, Clone, Copy, PartialEq, Eq)]
pub struct SystemStats {
    /// Used RAM.
    pub used_memory: u64,
    /// Total RAM.
    pub total_memory: u64,
}

/// Whole megabytes (MiB) in `bytes`, rounded down.
pub open spec fn megabytes(bytes: u64) -> u64 {
    (bytes / 1024 / 1024) as u64
}

impl SystemStats {
    /// The figures for `used` and `total` bytes.
    pub open spec fn spec_from_bytes(used: u64, total: u64) -> SystemStats {
        SystemStats { used_memory: megabytes(used), total_memory: megabytes(total) }
    }

    /// The figures for `used` and `total` bytes.
    pub fn from_bytes(used: u64, total: u64) -> (s: SystemStats)
        ensures
            s == SystemStats::spec_from_bytes(used, total),
    {
        SystemStats { used_memory: used / 1024 / 1024, total_memory: total / 1024 / 1024 }
    }
}

/// The pids of the processes whose name is `target` once both are
/// lowercased, in list order.
pub open spec fn matching_pids_of(procs: Seq<(u32, String)>, target: Seq<char>) -> Seq<u32>
    decreases procs.len(),
{
    if procs.len() == 0 {
        Seq::empty()
    } else {
        let rest = matching_pids_of(procs.drop_last(), target);
        if str_lowercase(procs.last().1@) == str_lowercase(target) {
            rest.push(procs.last().0)
        } else {
            rest
        }
    }
}

/// The pids in `procs` (pid and name) of the processes named `name`,
/// ignoring case.
pub fn matching_pids(procs: &Vec<(u32, String)>, name: &str) -> (r: Vec<u32>)
    ensures
        r@ == matching_pids_of(procs@, name@),
{
    let target = lowercase(name);
    let mut r: Vec<u32> = Vec::new();
    let mut i: usize = 0;
    assert(procs@.subrange(0, 0) =~= Seq::<(u32, String)>::empty());
    while i < procs.len()
        invariant
            i <= procs@.len(),
            target@ == str_lowercase(name@),
            r@ == matching_pids_of(procs@.subrange(0, i as int), name@),
        decreases procs.len() - i,
    {
        assert(procs@.subrange(0, i + 1).drop_last() =~= procs@.subrange(0, i as int));
        let p = &procs[i];
        let lowered = lowercase(p.1.as_str());
        if lowered == target {
            r.push(p.0);
        }
        i = i + 1;
    }
    assert(procs@.subrange(0, i as int) =~= procs@);
    r
}

/// The answer to a kill request for `name` that found `found` processes and
/// ended `killed` of them.
pub open spec fn kill_report_text(name: Seq<char>, found: nat, killed: nat) -> Seq<char> {
    if found == 0 {
        "Процесс '"@ + name + "' не найден"@
    } else {
        "Завершено: "@ + decimal(killed) + "/"@ + decimal(found) + " процессов '"@ + name + "'"@
    }
}

/// The answer to a kill request for `name` that found `found` processes and
/// ended `killed` of them.
pub fn kill_report(name: &str, found: usize, killed: usize) -> (s: String)
    ensures
        s@ == kill_report_text(name@, found as nat, killed as nat),
{
    if found == 0 {
        let mut s = "Процесс '".to_owned();
        s.append(name);
        s.append("' не найден");
        s
    } else {
        let mut s = "Завершено: ".to_owned();
        s.append(u64_to_decimal(killed as u64).as_str());
        s.append("/");
        s.append(u64_to_decimal(found as u64).as_str());
        s.append(" процессов '");
        s.append(name);
        s.append("'");
        s
    }
}

/// The volume level that is set for a requested `level`: at most 100.
pub open spec fn volume_level_of(level: u16) -> u16 {
    if level <= 100 {
        level
    } else {
        100
    }
}

/// The volume level that is set for a requested `level`: at most 100.
pub fn clamp_volume(level: u16) -> (r: u16)
    ensures
        r == volume_level_of(level),
        level <= 100 ==> r == level,
        level > 100 ==> r == 100,
{
    if level <= 100 {
        level
    } else {
        100
    }
}

/// The arguments of the `amixer` call that sets the master volume to
/// `level` percent.
pub fn amixer_args(level: u16) -> (args: Vec<String>)
    ensures
        args@.len() == 3,
        args@[0]@ == "set"@,
        args@[1]@ == "Master"@,
        args@[2]@ == decimal(level as nat) + "%"@,
{
    let mut pct = u64_to_decimal(level as u64);
    pct.append("%");
    let mut args: Vec<String> = Vec::new();
    args.push("set".to_owned());
    args.push("Master".to_owned());
    args.push(pct);
    args
}

/// The result of setting the volume with `amixer`, from how its run went:
/// `Err` with the reason if it could not be started, else whether it
/// reported success.
pub fn amixer_outcome(run: Result<bool, String>) -> (r: Result<(), SystemError>)
    ensures
        match run {
            Err(e) => r == Err::<(), SystemError>(SystemError::AmixerUnavailable(e)),
            Ok(true) => r == Ok::<(), SystemError>(()),
            Ok(false) => r == Err::<(), SystemError>(SystemError::AmixerFailed),
        },
{
    match run {
        Err(e) => Err(SystemError::AmixerUnavailable(e)),
        Ok(true) => Ok(()),
        Ok(false) => Err(SystemError::AmixerFailed),
    }
}

/// The result of an operating-system request that reports `r`: success,
/// or the failure `on_error` whatever the system's reason.
pub fn system_outcome(r: Result<(), std::io::Error>, on_error: SystemError) -> (out: Result<
    (),
    SystemError,
>)
    ensures
        r is Ok ==> out == Ok::<(), SystemError>(()),
        r is Err ==> out == Err::<(), SystemError>(on_error),
{
    match r {
        Ok(()) => Ok(()),
        Err(_) => Err(on_error),
    }
}

/// How many of the kill requests `reqs` (pid, whether the kill signal was
/// sent) were sent.
pub open spec fn sent_count(reqs: Seq<(u32, bool)>) -> nat
    decreases reqs.len(),
{
    if reqs.len() == 0 {
        0
    } else {
        sent_count(reqs.drop_last()) + if reqs.last().1 {
            1nat
        } else {
            0nat
        }
    }
}

/// The pids of the kill requests `reqs`, in order.
pub open spec fn requested_pids(reqs: Seq<(u32, bool)>) -> Seq<u32> {
    reqs.map_values(|r: (u32, bool)| r.0)
}

/// Holds the system snapshot that the operations read and refresh, and a
/// record of what the last operations read from it and asked of it.
pub struct SystemManager {
    /// The snapshot of the machine.
    pub sys: System,
    /// The used and total RAM in bytes of the last memory reading.
    memory_read: Ghost<(u64, u64)>,
    /// The process list (pid and name) of the last process reading.
    processes_read: Ghost<Seq<(u32, String)>>,
    /// The kill requests of the last `kill_process`: each pid, and whether
    /// its kill signal was sent.
    kills_requested: Ghost<Seq<(u32, bool)>>,
    /// The links that the browser was asked to open, in order, each with
    /// whether the request succeeded.
    urls_requested: Ghost<Seq<(Seq<char>, bool)>>,
}

impl SystemManager {
    /// The used and total RAM in bytes, as the last memory reading gave them.
    pub closed spec fn memory_reading(self) -> (u64, u64) {
        self.memory_read@
    }

    /// The process list, as the last process reading gave it.
    pub closed spec fn process_listing(self) -> Seq<(u32, String)> {
        self.processes_read@
    }

    /// The kill requests of the last `kill_process`, in order: each pid,
    /// and whether its kill signal was sent.
    pub closed spec fn kill_requests(self) -> Seq<(u32, bool)> {
        self.kills_requested@
    }

    /// The links that `open_url` asked the browser to open, in order, each
    /// with whether the request succeeded.
    pub closed spec fn url_requests(self) -> Seq<(Seq<char>, bool)> {
        self.urls_requested@
    }

    /// A manager with a snapshot of everything loaded, before any reading
    /// or request of its own.
    pub fn new() -> (m: Self)
        ensures
            m.memory_reading() == (0u64, 0u64),
            m.process_listing() == Seq::<(u32, String)>::empty(),
            m.kill_requests() == Seq::<(u32, bool)>::empty(),
            m.url_requests() == Seq::<(Seq<char>, bool)>::empty(),
    {
        SystemManager {
            sys: system_new_all(),
            memory_read: Ghost((0u64, 0u64)),
            processes_read: Ghost(Seq::empty()),
            kills_requested: Ghost(Seq::empty()),
            urls_requested: Ghost(Seq::empty()),
        }
    }

    /// Refreshes the CPU and memory figures and returns the memory use in
    /// megabytes: the used and the total RAM of this reading. The CPU load
    /// of the same refresh stays in `sys`.
    pub fn get_metrics(&mut self) -> (stats: SystemStats)
        ensures
            stats == SystemStats::spec_from_bytes(
                final(self).memory_reading().0,
                final(self).memory_reading().1,
            ),
            final(self).process_listing() == old(self).process_listing(),
            final(self).kill_requests() == old(self).kill_requests(),
            final(self).url_requests() == old(self).url_requests(),
    {
        system_refresh_cpu(&mut self.sys);
        system_refresh_memory(&mut self.sys);
        let used = system_used_memory(&self.sys);
        let total = system_total_memory(&self.sys);
        self.memory_read = Ghost((used, total));
        SystemStats::from_bytes(used, total)
    }

    /// Reads the process list again, asks the kill of every process in it
    /// named `name` (ignoring case), and reports how many were found and
    /// how many kill signals were sent.
    pub fn kill_process(&mut self, name: &str) -> (r: Result<String, SystemError>)
        ensures
            requested_pids(final(self).kill_requests()) == matching_pids_of(
                final(self).process_listing(),
                name@,
            ),
            r matches Ok(msg) && msg@ == kill_report_text(
                name@,
                matching_pids_of(final(self).process_listing(), name@).len(),
                sent_count(final(self).kill_requests()),
            ),
            sent_count(final(self).kill_requests()) <= matching_pids_of(
                final(self).process_listing(),
                name@,
            ).len(),
            r matches Ok(msg) && exists|procs: Seq<(u32, String)>, killed: nat|
                killed <= matching_pids_of(procs, name@).len() && msg@ == kill_report_text(
                    name@,
                    matching_pids_of(procs, name@).len(),
                    killed,
                ),
            final(self).memory_reading() == old(self).memory_reading(),
            final(self).url_requests() == old(self).url_requests(),
    {
        system_refresh_processes(&mut self.sys);
        let procs = system_processes(&self.sys);
        self.processes_read = Ghost(procs@);
        let pids = matching_pids(&procs, name);
        let mut killed: usize = 0;
        let mut i: usize = 0;
        let ghost mut reqs: Seq<(u32, bool)> = Seq::empty();
        while i < pids.len()
            invariant
                i <= pids@.len(),
                reqs.len() == i,
                forall|k: int| 0 <= k < i ==> #[trigger] reqs[k].0 == pids@[k],
                killed == sent_count(reqs),
                killed <= i,
            decreases pids.len() - i,
        {
            let sent = match system_process(&self.sys, pids[i]) {
                Some(p) => process_kill(p),
                None => false,
            };
            let ghost prev = reqs;
            proof {
                reqs = reqs.push((pids@[i as int], sent));
                assert(reqs.drop_last() =~= prev);
            }
            if sent {
                killed = killed + 1;
            }
            i = i + 1;
        }
        assert(requested_pids(reqs) =~= pids@);
        self.kills_requested = Ghost(reqs);
        let report = kill_report(name, pids.len(), killed);
        assert(killed <= matching_pids_of(procs@, name@).len() && report@ == kill_report_text(
            name@,
            matching_pids_of(procs@, name@).len(),
            killed as nat,
        ));
        Ok(report)
    }

    /// Asks the default browser to open exactly `url`, once; the answer is
    /// `Ok` exactly when that request succeeded.
    pub fn open_url(&mut self, url: &str) -> (r: Result<(), SystemError>)
        ensures
            r matches Err(e) ==> e == SystemError::BrowserFailed,
            final(self).url_requests() == old(self).url_requests().push((url@, r is Ok)),
            final(self).memory_reading() == old(self).memory_reading(),
            final(self).process_listing() == old(self).process_listing(),
            final(self).kill_requests() == old(self).kill_requests(),
    {
        let asked = browser_open(url);
        let ok = asked.is_ok();
        self.urls_requested = Ghost(self.urls_requested@.push((url@, ok)));
        system_outcome(asked, SystemError::BrowserFailed)
    }

    /// Shuts the computer down.
    pub fn shutdown(&self) -> (r: Result<(), SystemError>)
        ensures
            r matches Err(e) ==> e == SystemError::ShutdownFailed,
    {
        system_outcome(os_shutdown(), SystemError::ShutdownFailed)
    }

    /// Reboots the computer.
    pub fn reboot(&self) -> (r: Result<(), SystemError>)
        ensures
            r matches Err(e) ==> e == SystemError::RebootFailed,
    {
        system_outcome(os_reboot(), SystemError::RebootFailed)
    }
}


/// No more kill signals are counted as sent than were requested, and when
/// every requested signal was sent, all of them are counted.
pub proof fn law_sent_count(reqs: Seq<(u32, bool)>)
    ensures
        sent_count(reqs) <= reqs.len(),
        (forall|k: int| 0 <= k < reqs.len() ==> #[trigger] reqs[k].1) ==> sent_count(reqs)
            == reqs.len(),
        (forall|k: int| 0 <= k < reqs.len() ==> !#[trigger] reqs[k].1) ==> sent_count(reqs) == 0,
    decreases reqs.len(),
{
    if reqs.len() > 0 {
        law_sent_count(reqs.drop_last());
        assert forall|k: int| 0 <= k < reqs.len() - 1 implies #[trigger] reqs.drop_last()[k]
            == reqs[k] by {}
    }
}

/// When `kill_process` finds processes and every kill signal is sent, it
/// reports all of them ended: `killed/found` with `killed == found`.
pub proof fn law_all_found_are_reported_ended(
    name: Seq<char>,
    procs: Seq<(u32, String)>,
    reqs: Seq<(u32, bool)>,
)
    requires
        requested_pids(reqs) == matching_pids_of(procs, name),
        forall|k: int| 0 <= k < reqs.len() ==> #[trigger] reqs[k].1,
    ensures
        kill_report_text(name, matching_pids_of(procs, name).len(), sent_count(reqs))
            == kill_report_text(
            name,
            matching_pids_of(procs, name).len(),
            matching_pids_of(procs, name).len(),
        ),
{
    law_sent_count(reqs);
    assert(requested_pids(reqs).len() == reqs.len());
}

/// The pids that match `target` are exactly those of the processes whose
/// lowercased name is the lowercased `target`: every such process is in
/// the result, and every pid of the result belongs to such a process.
pub proof fn law_matching_pids(procs: Seq<(u32, String)>, target: Seq<char>)
    ensures
        forall|j: int|
            0 <= j < procs.len() && str_lowercase(procs[j].1@) == str_lowercase(target)
                ==> matching_pids_of(procs, target).contains(#[trigger] procs[j].0),
        forall|k: int|
            0 <= k < matching_pids_of(procs, target).len() ==> exists|j: int|
                0 <= j < procs.len() && procs[j].0 == #[trigger] matching_pids_of(procs, target)[k]
                    && str_lowercase(procs[j].1@) == str_lowercase(target),
        matching_pids_of(procs, target).len() <= procs.len(),
    decreases procs.len(),
{
    if procs.len() > 0 {
        let rest = procs.drop_last();
        let r0 = matching_pids_of(rest, target);
        let r = matching_pids_of(procs, target);
        law_matching_pids(rest, target);
        assert forall|j: int|
            0 <= j < procs.len() && str_lowercase(procs[j].1@) == str_lowercase(target)
                implies r.contains(#[trigger] procs[j].0) by {
            if j < procs.len() - 1 {
                assert(procs[j] == rest[j]);
                assert(r0.contains(rest[j].0));
                let m = choose|m: int| 0 <= m < r0.len() && r0[m] == rest[j].0;
                assert(r[m] == r0[m]);
            } else {
                assert(r[r.len() - 1] == procs[j].0);
            }
        }
        assert forall|k: int| 0 <= k < r.len() implies exists|j: int|
            0 <= j < procs.len() && procs[j].0 == #[trigger] r[k] && str_lowercase(procs[j].1@)
                == str_lowercase(target) by {
            if k < r0.len() {
                assert(r[k] == r0[k]);
                let j = choose|j: int|
                    0 <= j < rest.len() && rest[j].0 == #[trigger] r0[k] && str_lowercase(
                        rest[j].1@,
                    ) == str_lowercase(target);
                assert(procs[j] == rest[j]);
            } else {
                assert(procs[procs.len() - 1].0 == r[k]);
            }
        }
    }
}

/// The megabyte figures are the byte counts rounded down to whole MiB, and
/// the used figure is never above the total one when the used bytes are
/// not above the total bytes.
pub proof fn law_memory_figures(used: u64, total: u64)
    ensures
        SystemStats::spec_from_bytes(used, total).used_memory * 1048576 <= used,
        used < (SystemStats::spec_from_bytes(used, total).used_memory + 1) * 1048576,
        SystemStats::spec_from_bytes(used, total).total_memory * 1048576 <= total,
        total < (SystemStats::spec_from_bytes(used, total).total_memory + 1) * 1048576,
        used <= total ==> SystemStats::spec_from_bytes(used, total).used_memory
            <= SystemStats::spec_from_bytes(used, total).total_memory,
{
    assert(used / 1024 / 1024 == used / 1048576) by (nonlinear_arith);
    assert(total / 1024 / 1024 == total / 1048576) by (nonlinear_arith);
    assert((used / 1048576) * 1048576 <= used < (used / 1048576 + 1) * 1048576) by (nonlinear_arith);
    assert((total / 1048576) * 1048576 <= total < (total / 1048576 + 1) * 1048576) by (nonlinear_arith);
    assert(used <= total ==> used / 1048576 <= total / 1048576) by (nonlinear_arith);
}

/// The volume that is set is the requested level when that is at most 100,
/// and 100 above it: it never exceeds 100 and never changes a valid level.
pub proof fn law_volume_level(level: u16)
    ensures
        volume_level_of(level) <= 100,
        level <= 100 ==> volume_level_of(level) == level,
        level > 100 ==> volume_level_of(level) == 100,
        volume_level_of(volume_level_of(level)) == volume_level_of(level),
{
}

} // verus!
