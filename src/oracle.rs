//! The time oracle's rules: which servers to ask and in what order, how often
//! to retry and how long to wait, and how to read each server's answer. The
//! caller makes the requests and sleeps; these functions decide.

use crate::primitives::{
    json_i64_member, json_i64_member_of, json_str_member, json_str_member_of, rfc3339_seconds,
    rfc3339_seconds_of,
};
use vstd::prelude::*;

verus! {

/// Attempts made on each server before moving to the next.
pub const MAX_ATTEMPTS: u32 = 3;

/// Seconds from 1601-01-01 (the Windows file time epoch) to 1970-01-01.
pub const FILETIME_EPOCH_OFFSET: i64 = 11_644_473_600;

/// Windows file time ticks (100 ns) per second.
pub const FILETIME_TICKS_PER_SECOND: i64 = 10_000_000;

/// The time servers, in order of preference.
#[derive(Clone, Copy, Debug, PartialEq, Eq, Structural)]
pub enum TimeEndpoint {
    WorldTimeApiUtc,
    WorldClockApi,
    TimeApiIo,
    WorldTimeApiIp,
}

pub open spec fn endpoint_spec(i: int) -> TimeEndpoint {
    if i == 0 {
        TimeEndpoint::WorldTimeApiUtc
    } else if i == 1 {
        TimeEndpoint::WorldClockApi
    } else if i == 2 {
        TimeEndpoint::TimeApiIo
    } else {
        TimeEndpoint::WorldTimeApiIp
    }
}

/// How many servers there are.
pub fn endpoint_count() -> (r: usize)
    ensures
        r == 4,
{
    4
}

/// The server at position `i` of the order of preference.
pub fn endpoint_at(i: usize) -> (r: TimeEndpoint)
    requires
        i < 4,
    ensures
        r == endpoint_spec(i as int),
{
    if i == 0 {
        TimeEndpoint::WorldTimeApiUtc
    } else if i == 1 {
        TimeEndpoint::WorldClockApi
    } else if i == 2 {
        TimeEndpoint::TimeApiIo
    } else {
        TimeEndpoint::WorldTimeApiIp
    }
}

impl TimeEndpoint {
    pub open spec fn url_spec(self) -> Seq<char> {
        match self {
            TimeEndpoint::WorldTimeApiUtc => "https://worldtimeapi.org/api/timezone/Etc/UTC"@,
            TimeEndpoint::WorldClockApi => "http://worldclockapi.com/api/json/utc/now"@,
            TimeEndpoint::TimeApiIo => "https://timeapi.io/api/Time/current/zone?timeZone=UTC"@,
            TimeEndpoint::WorldTimeApiIp => "https://worldtimeapi.org/api/ip"@,
        }
    }

    pub open spec fn label_spec(self) -> Seq<char> {
        match self {
            TimeEndpoint::WorldTimeApiUtc => "[Server 1]"@,
            TimeEndpoint::WorldClockApi => "[Server 2]"@,
            TimeEndpoint::TimeApiIo => "[Server 3]"@,
            TimeEndpoint::WorldTimeApiIp => "[Server 4]"@,
        }
    }

    /// The address to request.
    pub fn url(&self) -> (r: String)
        ensures
            r@ == self.url_spec(),
    {
        match self {
            TimeEndpoint::WorldTimeApiUtc => String::from_str(
                "https://worldtimeapi.org/api/timezone/Etc/UTC",
            ),
            TimeEndpoint::WorldClockApi => String::from_str(
                "http://worldclockapi.com/api/json/utc/now",
            ),
            TimeEndpoint::TimeApiIo => String::from_str(
                "https://timeapi.io/api/Time/current/zone?timeZone=UTC",
            ),
            TimeEndpoint::WorldTimeApiIp => String::from_str("https://worldtimeapi.org/api/ip"),
        }
    }

    /// The name reported as the time's source.
    pub fn label(&self) -> (r: String)
        ensures
            r@ == self.label_spec(),
    {
        match self {
            TimeEndpoint::WorldTimeApiUtc => String::from_str("[Server 1]"),
            TimeEndpoint::WorldClockApi => String::from_str("[Server 2]"),
            TimeEndpoint::TimeApiIo => String::from_str("[Server 3]"),
            TimeEndpoint::WorldTimeApiIp => String::from_str("[Server 4]"),
        }
    }
}

/// A signed count of seconds, if it is not before the epoch.
pub open spec fn unix_seconds(t: Option<i64>) -> Option<u64> {
    match t {
        Some(s) => if s >= 0 {
            Some(s as u64)
        } else {
            None
        },
        None => None,
    }
}

/// Unix seconds of an RFC 3339 string member.
pub open spec fn rfc3339_member(body: Seq<u8>, key: Seq<char>) -> Option<u64> {
    match json_str_member_of(body, key) {
        Some(s) => unix_seconds(rfc3339_seconds_of(s)),
        None => None,
    }
}

/// Unix seconds of a Windows file time (100 ns ticks since 1601).
pub open spec fn filetime_seconds(ticks: i64) -> Option<u64> {
    let secs = ticks as int / FILETIME_TICKS_PER_SECOND as int - FILETIME_EPOCH_OFFSET as int;
    if ticks >= 0 && secs >= 0 {
        Some(secs as u64)
    } else {
        None
    }
}

/// The time a server's successful answer gives, read as that server writes it.
pub open spec fn time_of_response(endpoint: TimeEndpoint, body: Seq<u8>) -> Option<u64> {
    match endpoint {
        TimeEndpoint::WorldTimeApiUtc | TimeEndpoint::WorldTimeApiIp => unix_seconds(
            json_i64_member_of(body, "unixtime"@),
        ),
        TimeEndpoint::TimeApiIo => rfc3339_member(body, "dateTime"@),
        TimeEndpoint::WorldClockApi => match rfc3339_member(body, "currentDateTime"@) {
            Some(t) => Some(t),
            None => match json_i64_member_of(body, "currentFileTime"@) {
                Some(ticks) => filetime_seconds(ticks),
                None => None,
            },
        },
    }
}

fn to_unix_seconds(t: Option<i64>) -> (r: Option<u64>)
    ensures
        r == unix_seconds(t),
{
    match t {
        Some(s) => if s >= 0 {
            Some(s as u64)
        } else {
            None
        },
        None => None,
    }
}

fn read_rfc3339_member(body: &Vec<u8>, key: &str) -> (r: Option<u64>)
    ensures
        r == rfc3339_member(body@, key@),
{
    match json_str_member(body, key) {
        Some(s) => to_unix_seconds(rfc3339_seconds(s.as_str())),
        None => None,
    }
}

/// Converts a Windows file time to Unix seconds.
pub fn filetime_to_unix(ticks: i64) -> (r: Option<u64>)
    ensures
        r == filetime_seconds(ticks),
{
    if ticks < 0 {
        return None;
    }
    let secs = ticks / FILETIME_TICKS_PER_SECOND;
    if secs < FILETIME_EPOCH_OFFSET {
        None
    } else {
        Some((secs - FILETIME_EPOCH_OFFSET) as u64)
    }
}

/// Reads the time from the body of a server's successful (2xx) answer;
/// `None` when the expected field is missing or does not parse.
pub fn parse_time_response(endpoint: TimeEndpoint, body: &Vec<u8>) -> (r: Option<u64>)
    ensures
        r == time_of_response(endpoint, body@),
{
    match endpoint {
        TimeEndpoint::WorldTimeApiUtc | TimeEndpoint::WorldTimeApiIp => to_unix_seconds(
            json_i64_member(body, "unixtime"),
        ),
        TimeEndpoint::TimeApiIo => read_rfc3339_member(body, "dateTime"),
        TimeEndpoint::WorldClockApi => match read_rfc3339_member(body, "currentDateTime") {
            Some(t) => Some(t),
            None => match json_i64_member(body, "currentFileTime") {
                Some(ticks) => filetime_to_unix(ticks),
                None => None,
            },
        },
    }
}

/// The wait before retrying a server after failed attempt number `attempt`
/// (counted from one): 500 ms, doubled for each attempt before it.
pub open spec fn backoff_spec(attempt: nat) -> nat
    decreases attempt,
{
    if attempt <= 1 {
        500
    } else {
        2 * backoff_spec((attempt - 1) as nat)
    }
}

/// The wait in milliseconds after failed attempt number `attempt`.
pub fn backoff_ms(attempt: u32) -> (r: u64)
    requires
        1 <= attempt <= MAX_ATTEMPTS,
    ensures
        r == backoff_spec(attempt as nat),
{
    proof {
        reveal_with_fuel(backoff_spec, 3);
    }
    if attempt == 1 {
        500
    } else if attempt == 2 {
        1000
    } else {
        2000
    }
}

/// Where the oracle stands: which server it is asking, and which attempt
/// on that server (counted from one) is being made.
#[derive(Clone, Copy, Debug)]
pub struct OracleState {
    pub endpoint: usize,
    pub attempt: u32,
}

/// What the caller does next.
#[derive(Clone, Copy, Debug)]
pub enum OracleStep {
    /// A server answered: its time is the result.
    Found { time: u64, endpoint: TimeEndpoint },
    /// Wait `sleep_ms` milliseconds (none when moving to the next server),
    /// then make the attempt that `state` names.
    Continue { state: OracleState, sleep_ms: u64 },
    /// Every server has failed every attempt: the time is unavailable.
    Exhausted,
}

impl OracleState {
    pub open spec fn wf(self) -> bool {
        self.endpoint < 4 && 1 <= self.attempt <= MAX_ATTEMPTS
    }

    /// Attempts made up to and including the current one.
    pub open spec fn progress(self) -> int {
        self.endpoint * MAX_ATTEMPTS + self.attempt
    }

    /// The first attempt on the most preferred server.
    pub fn start() -> (r: OracleState)
        ensures
            r.wf(),
            r.endpoint == 0 && r.attempt == 1,
    {
        OracleState { endpoint: 0, attempt: 1 }
    }

    /// The server the current attempt asks.
    pub fn current(&self) -> (r: TimeEndpoint)
        requires
            self.wf(),
        ensures
            r == endpoint_spec(self.endpoint as int),
    {
        endpoint_at(self.endpoint)
    }
}

/// The oracle's rule: on an answer, stop with it; else retry the same server
/// after a backoff until it has had all its attempts, then move to the next
/// server at once; after the last server, give up.
pub open spec fn step_spec(state: OracleState, observed: Option<u64>) -> OracleStep {
    match observed {
        Some(t) => OracleStep::Found { time: t, endpoint: endpoint_spec(state.endpoint as int) },
        None => if state.attempt < MAX_ATTEMPTS {
            OracleStep::Continue {
                state: OracleState { endpoint: state.endpoint, attempt: (state.attempt + 1) as u32 },
                sleep_ms: backoff_spec(state.attempt as nat) as u64,
            }
        } else if state.endpoint + 1 < 4 {
            OracleStep::Continue {
                state: OracleState { endpoint: (state.endpoint + 1) as usize, attempt: 1 },
                sleep_ms: 0,
            }
        } else {
            OracleStep::Exhausted
        },
    }
}

/// Decides the next step from the outcome of the current attempt: the time
/// read from a successful answer, or `None` for a network, status or parse
/// failure. Each step moves forward, so at most twelve attempts are made.
pub fn oracle_step(state: OracleState, observed: Option<u64>) -> (r: OracleStep)
    requires
        state.wf(),
    ensures
        r == step_spec(state, observed),
        r matches OracleStep::Continue { state: next, .. } ==> next.wf() && next.progress()
            == state.progress() + 1,
{
    match observed {
        Some(t) => OracleStep::Found { time: t, endpoint: endpoint_at(state.endpoint) },
        None => if state.attempt < MAX_ATTEMPTS {
            OracleStep::Continue {
                state: OracleState { endpoint: state.endpoint, attempt: state.attempt + 1 },
                sleep_ms: backoff_ms(state.attempt),
            }
        } else if state.endpoint + 1 < 4 {
            OracleStep::Continue {
                state: OracleState { endpoint: state.endpoint + 1, attempt: 1 },
                sleep_ms: 0,
            }
        } else {
            OracleStep::Exhausted
        },
    }
}

} // verus!
