//! What passes between the helper and the power manager over the system bus:
//! the signal that the helper listens for, what the signal carries, and the
//! request that the helper makes for a delay lock. Sending and receiving is
//! the driver's part.

use vstd::prelude::*;

verus! {

/// The bus name of the power manager.
pub const MANAGER_SERVICE: &'static str = "org.freedesktop.login1";

/// The object of the power manager that takes requests.
pub const MANAGER_OBJECT: &'static str = "/org/freedesktop/login1";

/// The interface of the power manager.
pub const MANAGER_INTERFACE: &'static str = "org.freedesktop.login1.Manager";

/// The signal sent before sleep and after resume.
pub const SLEEP_SIGNAL: &'static str = "PrepareForSleep";

/// The method that grants an inhibitor lock.
pub const INHIBIT_METHOD: &'static str = "Inhibit";

/// What the lock inhibits.
pub const WHAT: &'static str = "sleep";

/// Who asks for the lock.
pub const WHO: &'static str = "nouveau-sleep-daemon";

/// Why the lock is asked for.
pub const WHY: &'static str = "Turn off NVIDIA outputs before sleep";

/// How the lock inhibits: it delays sleep and never blocks it. The power
/// manager goes to sleep when its own grace period is over, released or not.
pub const MODE: &'static str = "delay";

/// One notification of the power manager: the whole body of its sleep signal.
#[derive(Debug, Clone, Copy, PartialEq, Eq)]
pub struct SleepNotification {
    /// `true`: the system is about to sleep. `false`: it has just resumed.
    pub going_down: bool,
}

/// The signals that the helper subscribes to.
#[derive(Debug, Clone, Copy, PartialEq, Eq)]
pub struct SignalMatch {
    /// The bus name that sends the signal.
    pub sender: &'static str,
    /// The interface that the signal belongs to.
    pub interface: &'static str,
    /// The name of the signal.
    pub member: &'static str,
}

/// One request for a delay lock: where it goes, and its four arguments.
#[derive(Debug, Clone, Copy, PartialEq, Eq)]
pub struct LockRequest {
    /// The bus name that the request is sent to.
    pub service: &'static str,
    /// The object that is asked.
    pub object: &'static str,
    /// The interface of the method.
    pub interface: &'static str,
    /// The method that is called.
    pub method: &'static str,
    /// First argument: what is inhibited.
    pub what: &'static str,
    /// Second argument: who asks.
    pub who: &'static str,
    /// Third argument: why, for a human reader.
    pub why: &'static str,
    /// Fourth argument: how the lock inhibits.
    pub mode: &'static str,
}

/// The match for the sleep signal of the power manager.
pub fn sleep_signal() -> (rule: SignalMatch)
    ensures
        rule.sender@ == "org.freedesktop.login1"@,
        rule.interface@ == "org.freedesktop.login1.Manager"@,
        rule.member@ == "PrepareForSleep"@,
{
    SignalMatch { sender: MANAGER_SERVICE, interface: MANAGER_INTERFACE, member: SLEEP_SIGNAL }
}

/// The request for a delay lock on sleep. It is the same every time.
pub fn lock_request() -> (request: LockRequest)
    ensures
        request.service@ == "org.freedesktop.login1"@,
        request.object@ == "/org/freedesktop/login1"@,
        request.interface@ == "org.freedesktop.login1.Manager"@,
        request.method@ == "Inhibit"@,
        request.what@ == "sleep"@,
        request.who@ == "nouveau-sleep-daemon"@,
        request.why@ == "Turn off NVIDIA outputs before sleep"@,
        request.mode@ == "delay"@,
{
    LockRequest {
        service: MANAGER_SERVICE,
        object: MANAGER_OBJECT,
        interface: MANAGER_INTERFACE,
        method: INHIBIT_METHOD,
        what: WHAT,
        who: WHO,
        why: WHY,
        mode: MODE,
    }
}

} // verus!
