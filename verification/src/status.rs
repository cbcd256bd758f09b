//! The settings app's view of GroveShell's own processes: which are alive,
//! the overall health verdict, the per-process status lines, and what the
//! tray's / Home page's single toggle does.

use vstd::prelude::*;
use vstd::string::*;
use crate::text::str_eq;

verus! {

/// What polling a spawned child process reported.
#[derive(Clone, Copy, Debug, PartialEq, Eq, Structural)]
pub enum ChildState {
    /// Never spawned (or the spawn failed).
    NotSpawned,
    /// Still running (`try_wait` returned `Ok(None)`).
    Running,
    /// Exited (`try_wait` returned `Ok(Some(_))`).
    Exited,
    /// Polling failed (`try_wait` returned `Err`).
    Unknown,
}

/// Whether the `ui` process is alive.
pub fn is_ui_running(ui: ChildState) -> (r: bool)
    ensures
        r == (ui == ChildState::Running),
{
    match ui {
        ChildState::Running => true,
        _ => false,
    }
}

/// What the tray's toggle item and the Home page's button do.
#[derive(Clone, Copy, Debug, PartialEq, Eq, Structural)]
pub enum ToggleAction {
    /// Stop ui (restoring Explorer's taskbar), host and watchdog.
    StopAll,
    /// Spawn watchdog, host and ui afresh.
    StartAll,
}

/// Restore Explorer if GroveShell's ui is running, start GroveShell if not.
pub fn toggle_groveshell(ui_running: bool) -> (r: ToggleAction)
    ensures
        ui_running ==> r == ToggleAction::StopAll,
        !ui_running ==> r == ToggleAction::StartAll,
{
    if ui_running {
        ToggleAction::StopAll
    } else {
        ToggleAction::StartAll
    }
}

/// The process ids of the three supervised processes, when spawned.
#[derive(Clone, Copy, Debug, PartialEq, Eq, Structural)]
pub struct ManagedPids {
    pub watchdog: Option<u32>,
    pub host: Option<u32>,
    pub ui: Option<u32>,
}

impl ManagedPids {
    /// The pid of `"watchdog"`, `"host"` or `"ui"`; `None` for any other
    /// name or a process that is not running.
    pub fn pid_of(&self, name: &str) -> (r: Option<u32>)
        ensures
            name@ == "watchdog"@ ==> r == self.watchdog,
            name@ == "host"@ ==> r == self.host,
            name@ == "ui"@ ==> r == self.ui,
            name@ != "watchdog"@ && name@ != "host"@ && name@ != "ui"@ ==> r is None,
    {
        proof {
            reveal_strlit("watchdog");
            reveal_strlit("host");
            reveal_strlit("ui");
            assert("watchdog"@.len() == 8);
            assert("host"@.len() == 4);
            assert("ui"@.len() == 2);
        }
        if str_eq(name, "watchdog") {
            self.watchdog
        } else if str_eq(name, "host") {
            self.host
        } else if str_eq(name, "ui") {
            self.ui
        } else {
            None
        }
    }
}

/// Whether the shell is healthy: every process must be running (checked in
/// the order watchdog, host, ui) and the host must answer a ping.
pub fn health_summary(pids: &ManagedPids, host_ping_ok: bool) -> (r: Result<(), String>)
    ensures
        pids.watchdog is None ==> (r matches Err(e) && e@ == "watchdog is not running"@),
        pids.watchdog is Some && pids.host is None ==> (r matches Err(e) && e@ == "host is not running"@),
        pids.watchdog is Some && pids.host is Some && pids.ui is None ==> (r matches Err(e) && e@
            == "ui is not running"@),
        pids.watchdog is Some && pids.host is Some && pids.ui is Some && !host_ping_ok ==> (r matches Err(e)
            && e@ == "host did not respond to ping"@),
        pids.watchdog is Some && pids.host is Some && pids.ui is Some && host_ping_ok ==> r is Ok,
{
    if pids.watchdog.is_none() {
        return Err(String::from_str("watchdog is not running"));
    }
    if pids.host.is_none() {
        return Err(String::from_str("host is not running"));
    }
    if pids.ui.is_none() {
        return Err(String::from_str("ui is not running"));
    }
    if !host_ping_ok {
        return Err(String::from_str("host did not respond to ping"));
    }
    Ok(())
}

/// The character of decimal digit `d`.
pub open spec fn digit_char(d: nat) -> char {
    if d == 0 { '0' } else if d == 1 { '1' } else if d == 2 { '2' } else if d == 3 { '3' } else if d == 4 {
        '4'
    } else if d == 5 { '5' } else if d == 6 { '6' } else if d == 7 { '7' } else if d == 8 { '8' } else {
        '9'
    }
}

/// The decimal representation of `n`, without leading zeros.
pub open spec fn decimal(n: nat) -> Seq<char>
    decreases n,
{
    if n < 10 {
        seq![digit_char(n)]
    } else {
        decimal(n / 10).push(digit_char(n % 10))
    }
}

fn digit_str(d: u32) -> (s: &'static str)
    requires
        d < 10,
    ensures
        s@ == seq![digit_char(d as nat)],
{
    proof {
        reveal_strlit("0");
        reveal_strlit("1");
        reveal_strlit("2");
        reveal_strlit("3");
        reveal_strlit("4");
        reveal_strlit("5");
        reveal_strlit("6");
        reveal_strlit("7");
        reveal_strlit("8");
        reveal_strlit("9");
    }
    let s = if d == 0 { "0" } else if d == 1 { "1" } else if d == 2 { "2" } else if d == 3 { "3" } else if d
        == 4 { "4" } else if d == 5 { "5" } else if d == 6 { "6" } else if d == 7 { "7" } else if d == 8 {
        "8"
    } else {
        "9"
    };
    assert(s@ =~= seq![digit_char(d as nat)]);
    s
}

/// `n` written in decimal.
pub fn decimal_string(n: u32) -> (s: String)
    ensures
        s@ == decimal(n as nat),
    decreases n,
{
    if n < 10 {
        String::from_str(digit_str(n))
    } else {
        let mut s = decimal_string(n / 10);
        s.append(digit_str(n % 10));
        s
    }
}

/// One Home-page status line: `"<name>: not running"`, `"<name>: running
/// (pid <pid>)"`, or with a usage summary (CPU/RAM, formatted by the
/// caller) `"<name>: running (pid <pid>, <usage>)"`.
pub fn process_status_line(name: &str, pid: Option<u32>, usage: Option<&str>) -> (s: String)
    ensures
        pid is None ==> s@ == name@ + ": not running"@,
        pid is Some && usage is None ==> s@ == name@ + ": running (pid "@ + decimal(pid->0 as nat) + ")"@,
        pid is Some && usage is Some ==> s@ == name@ + ": running (pid "@ + decimal(pid->0 as nat) + ", "@
            + usage->0@ + ")"@,
{
    let mut s = String::from_str(name);
    match pid {
        None => {
            s.append(": not running");
        },
        Some(p) => {
            s.append(": running (pid ");
            let digits = decimal_string(p);
            s.append(digits.as_str());
            if let Some(u) = usage {
                s.append(", ");
                s.append(u);
            }
            s.append(")");
        },
    }
    s
}

} // verus!
