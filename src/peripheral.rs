//! What the engine's peripheral commands say: the smart-light power request
//! and its confirmation, the retry policy for sending it, and how a shell
//! command line splits into program and argument.
use vstd::prelude::*;
use crate::text::{find_char, same_text};

verus! {

pub const YEELIGHT_TCP_PORT: u16 = 55443;
/// Request id used for power commands.
pub const YEELIGHT_COMMAND_ID: u32 = 1;
/// Transition effect duration, in milliseconds.
pub const YEELIGHT_DURATION_MS: u32 = 500;
/// How many times a power command is tried.
pub const YEELIGHT_ATTEMPTS: u32 = 3;

/// A power request: `{id, method, params: [power, effect, duration_ms]}`.
pub struct YeelightCommand {
    pub id: u32,
    pub method: String,
    pub power: String,
    pub effect: String,
    pub duration_ms: u32,
}

/// A light's answer: `{id, result}`.
pub struct YeelightResult {
    pub id: u32,
    pub result: Vec<String>,
}

/// The request that powers a light on or off with a smooth transition.
pub fn power_command(turn_on: bool) -> (r: YeelightCommand)
    ensures
        r.id == YEELIGHT_COMMAND_ID,
        r.method@ == "set_power"@,
        r.power@ == if turn_on {
            "on"@
        } else {
            "off"@
        },
        r.effect@ == "smooth"@,
        r.duration_ms == YEELIGHT_DURATION_MS,
{
    let power = if turn_on {
        String::from_str("on")
    } else {
        String::from_str("off")
    };
    YeelightCommand {
        id: YEELIGHT_COMMAND_ID,
        method: String::from_str("set_power"),
        power,
        effect: String::from_str("smooth"),
        duration_ms: YEELIGHT_DURATION_MS,
    }
}

/// The answer confirms request `id`: same id, and a result of exactly `"ok"`.
pub fn is_confirmation(res: &YeelightResult, id: u32) -> (r: bool)
    ensures
        r == (res.id == id && res.result@.len() == 1 && res.result@[0]@ == "ok"@),
{
    res.id == id && res.result.len() == 1 && same_text(res.result[0].as_str(), "ok")
}

/// How one attempt to send a power command ended.
#[derive(Clone, Copy, Debug, PartialEq, Eq, Structural)]
pub enum AttemptOutcome {
    ConnectFailed,
    WriteFailed,
    /// No answer, an unreadable one, or one that is not a confirmation.
    BadResponse,
    Confirmed,
}

/// After attempt number `attempt` (from 1) ended with `outcome`, whether
/// to try again.
pub fn should_retry(attempt: u32, outcome: AttemptOutcome) -> (r: bool)
    ensures
        r == (outcome != AttemptOutcome::Confirmed && attempt < YEELIGHT_ATTEMPTS),
{
    outcome != AttemptOutcome::Confirmed && attempt < YEELIGHT_ATTEMPTS
}

/// A command line splits at its first space into the program and one
/// argument holding the rest; without a space it is the program alone.
pub open spec fn split_line(cmd: Seq<char>) -> (Seq<char>, Option<Seq<char>>) {
    let i = find_char(cmd, ' ', 0);
    if i < cmd.len() {
        (cmd.subrange(0, i), Some(cmd.subrange(i + 1, cmd.len() as int)))
    } else {
        (cmd, None)
    }
}

/// Splits a command line into the program and its argument.
pub fn split_command(cmd: &str) -> (r: (String, Option<String>))
    ensures
        r.0@ == split_line(cmd@).0,
        match (r.1, split_line(cmd@).1) {
            (Some(a), Some(b)) => a@ == b,
            (None, None) => true,
            _ => false,
        },
{
    let n = crate::text::char_count(cmd);
    let mut i: usize = 0;
    while i < n
        invariant
            n == cmd@.len(),
            i <= n,
            find_char(cmd@, ' ', i as int) == find_char(cmd@, ' ', 0),
        decreases n - i,
    {
        if cmd.get_char(i) == ' ' {
            let program = cmd.substring_char(0, i).to_owned();
            let rest = cmd.substring_char(i + 1, n).to_owned();
            return (program, Some(rest));
        }
        i = i + 1;
    }
    (cmd.to_owned(), None)
}

} // verus!
