//! The check for a connection to the internet, one probe at a time.
//!
//! The caller runs each probe it is handed, with the time limit given, and
//! reports how it went; the functions here decide whether the answer is
//! known or which probe comes next.

use crate::script::{Invocation, InvocationView};
use crate::text::views;
use crate::utils::exec::{exec, spec_exec};
use vstd::prelude::*;
use vstd::string::*;

verus! {

/// The probe that is under way.
#[derive(Debug, Clone, Copy, PartialEq, Eq, Structural)]
pub enum Probe {
    /// A ping of the endpoint with this place in the list.
    Ping(u8),
    /// A name lookup, after every ping failed.
    Lookup,
}

/// How a probe went.
#[derive(Debug, Clone, Copy, PartialEq, Eq, Structural)]
pub enum ProbeResult {
    /// The program ran and reported success.
    Succeeded,
    /// The program ran and reported failure.
    Failed,
    /// The program could not be run, or did not end in time.
    Unavailable,
}

/// What the check has come to.
#[derive(Debug, Clone, Copy, PartialEq, Eq, Structural)]
pub enum Connectivity {
    /// There is a connection.
    Connected,
    /// There is none.
    Disconnected,
    /// Not known yet: this probe is to be run next.
    Continue(Probe),
}

/// The addresses that are pinged, in order.
pub open spec fn endpoints() -> Seq<Seq<char>> {
    seq!["8.8.8.8"@, "1.1.1.1"@, "208.67.222.222"@]
}

/// The time limit of every probe, in seconds.
pub open spec fn probe_timeout_secs() -> u64 {
    5
}

/// The program of a probe: one ping with a wait of a second, or a lookup of
/// a well-known name.
pub open spec fn spec_probe_invocation(probe: Probe) -> InvocationView
    recommends
        probe matches Probe::Ping(i) ==> i < 3,
{
    match probe {
        Probe::Ping(i) => spec_exec("ping"@, seq!["-c"@, "1"@, "-W"@, "1000"@, endpoints()[i as int]]),
        Probe::Lookup => spec_exec("nslookup"@, seq!["google.com"@]),
    }
}

/// A ping that succeeds settles the check. A ping that does not is followed
/// by the next ping, the last by the lookup; the lookup's success is the
/// answer.
pub open spec fn spec_next(probe: Probe, result: ProbeResult) -> Connectivity {
    match probe {
        Probe::Ping(i) => if result is Succeeded {
            Connectivity::Connected
        } else if i < 2 {
            Connectivity::Continue(Probe::Ping((i + 1) as u8))
        } else {
            Connectivity::Continue(Probe::Lookup)
        },
        Probe::Lookup => if result is Succeeded {
            Connectivity::Connected
        } else {
            Connectivity::Disconnected
        },
    }
}

/// The probe that the check begins with.
pub fn first_probe() -> (r: Probe)
    ensures
        r == Probe::Ping(0),
{
    Probe::Ping(0)
}

/// The time limit of every probe, in seconds.
pub fn probe_timeout() -> (r: u64)
    ensures
        r == probe_timeout_secs(),
{
    5
}

/// The program of `probe`.
pub fn probe_invocation(probe: Probe) -> (r: Invocation)
    requires
        probe matches Probe::Ping(i) ==> i < 3,
    ensures
        r@ == spec_probe_invocation(probe),
{
    match probe {
        Probe::Ping(i) => {
            let endpoint = if i == 0 {
                "8.8.8.8"
            } else if i == 1 {
                "1.1.1.1"
            } else {
                "208.67.222.222"
            };
            let args = ["-c", "1", "-W", "1000", endpoint];
            assert(views(args@) =~= seq!["-c"@, "1"@, "-W"@, "1000"@, endpoints()[i as int]]);
            exec("ping", &args)
        },
        Probe::Lookup => {
            let args = ["google.com"];
            assert(views(args@) =~= seq!["google.com"@]);
            exec("nslookup", &args)
        },
    }
}

/// What follows when `probe` has ended in `result`.
pub fn check_internet_connection(probe: Probe, result: ProbeResult) -> (r: Connectivity)
    ensures
        r == spec_next(probe, result),
        probe matches Probe::Ping(i) && i < 3 ==> (r matches Connectivity::Continue(Probe::Ping(j))
            ==> j < 3),
{
    match probe {
        Probe::Ping(i) => match result {
            ProbeResult::Succeeded => Connectivity::Connected,
            _ => if i < 2 {
                Connectivity::Continue(Probe::Ping(i + 1))
            } else {
                Connectivity::Continue(Probe::Lookup)
            },
        },
        Probe::Lookup => match result {
            ProbeResult::Succeeded => Connectivity::Connected,
            _ => Connectivity::Disconnected,
        },
    }
}

/// The check ends after four probes at most, and says "connected" only
/// after a probe that succeeded.
pub proof fn lemma_check_ends(a: ProbeResult, b: ProbeResult, c: ProbeResult, d: ProbeResult)
    ensures
        ({
            let first = spec_next(Probe::Ping(0), a);
            let second = spec_next(Probe::Ping(1), b);
            let third = spec_next(Probe::Ping(2), c);
            let last = spec_next(Probe::Lookup, d);
            &&& first is Connected <==> a is Succeeded
            &&& !(a is Succeeded) ==> first == Connectivity::Continue(Probe::Ping(1))
            &&& !(b is Succeeded) ==> second == Connectivity::Continue(Probe::Ping(2))
            &&& !(c is Succeeded) ==> third == Connectivity::Continue(Probe::Lookup)
            &&& !(last is Continue)
            &&& last is Connected <==> d is Succeeded
        }),
{
}

} // verus!
