//! The typed telemetry records that classified output lines produce:
//! the latest progress snapshot, an extracted result record, and the
//! terminal completion record of a session.

use vstd::prelude::*;

verus! {

/// Mathematical value of a [`Statistics`] record.
pub struct StatisticsV {
    pub tasks: nat,
    pub memory: Seq<char>,
    pub targets: nat,
    pub attempts: nat,
    pub errors: nat,
    pub done: nat,
    pub done_percent: Seq<char>,
    pub reqs_per_sec: nat,
}

/// Latest-known progress snapshot of a session. Each field reflects the
/// most recent matching statistics line; nothing is accumulated.
///
/// `done_percent` keeps the decimal text captured from the line (floating
/// point stays out of the verified library); `reqs_per_sec` keeps the
/// integer part of the captured decimal, truncated.
pub struct Statistics {
    pub tasks: u64,
    pub memory: String,
    pub targets: u64,
    pub attempts: u64,
    pub errors: u64,
    pub done: u64,
    pub done_percent: String,
    pub reqs_per_sec: u64,
}

impl View for Statistics {
    type V = StatisticsV;

    open spec fn view(&self) -> StatisticsV {
        StatisticsV {
            tasks: self.tasks as nat,
            memory: self.memory@,
            targets: self.targets as nat,
            attempts: self.attempts as nat,
            errors: self.errors as nat,
            done: self.done as nat,
            done_percent: self.done_percent@,
            reqs_per_sec: self.reqs_per_sec as nat,
        }
    }
}

/// The value every session starts from: all counts zero, empty memory
/// text, and `"0"` as the percentage text.
pub open spec fn statistics_init() -> StatisticsV {
    StatisticsV {
        tasks: 0,
        memory: Seq::empty(),
        targets: 0,
        attempts: 0,
        errors: 0,
        done: 0,
        done_percent: "0"@,
        reqs_per_sec: 0,
    }
}

impl Statistics {
    /// Fresh snapshot with zeroed counts.
    pub fn new() -> (s: Statistics)
        ensures
            s@ == statistics_init(),
    {
        let s = Statistics {
            tasks: 0,
            memory: String::new(),
            targets: 0,
            attempts: 0,
            errors: 0,
            done: 0,
            done_percent: String::from_str("0"),
            reqs_per_sec: 0,
        };
        proof {
            assert(s@ =~= statistics_init());
        }
        s
    }
}

impl Default for Statistics {
    fn default() -> (s: Statistics)
        ensures
            s@ == statistics_init(),
    {
        Statistics::new()
    }
}

/// Mathematical value of a [`Loot`] record.
pub struct LootV {
    pub found_at: Seq<char>,
    pub plugin: Seq<char>,
    pub target: Option<Seq<char>>,
    pub data: Seq<char>,
}

/// A structured result record extracted from a recognized output line.
pub struct Loot {
    pub found_at: String,
    pub plugin: String,
    pub target: Option<String>,
    pub data: String,
}

impl View for Loot {
    type V = LootV;

    open spec fn view(&self) -> LootV {
        LootV {
            found_at: self.found_at@,
            plugin: self.plugin@,
            target: match self.target {
                Some(t) => Some(t@),
                None => None,
            },
            data: self.data@,
        }
    }
}

/// Mathematical value of a [`Completion`] record.
pub struct CompletionV {
    pub completed_at: u64,
    pub exit_code: i32,
    pub error: Option<Seq<char>>,
}

/// Terminal exit record of a session: set at most once, immutable after.
/// `exit_code` is `-1` when the code is unavailable (killed by a signal)
/// or when the exit could not be observed at all; only in the latter case
/// does `error` carry a message.
pub struct Completion {
    pub completed_at: u64,
    pub exit_code: i32,
    pub error: Option<String>,
}

impl View for Completion {
    type V = CompletionV;

    open spec fn view(&self) -> CompletionV {
        CompletionV {
            completed_at: self.completed_at,
            exit_code: self.exit_code,
            error: match self.error {
                Some(e) => Some(e@),
                None => None,
            },
        }
    }
}

impl Completion {
    /// Terminal record for a normally observed exit with a known or
    /// unavailable code.
    pub fn with_status(completed_at: u64, exit_code: i32) -> (c: Completion)
        ensures
            c@ == (CompletionV { completed_at, exit_code, error: None }),
    {
        Completion { completed_at, exit_code, error: None }
    }

    /// Terminal record for a failure to observe the exit at all.
    pub fn with_error(completed_at: u64, error: String) -> (c: Completion)
        ensures
            c@ == (CompletionV { completed_at, exit_code: -1i32, error: Some(error@) }),
    {
        Completion { completed_at, exit_code: -1, error: Some(error) }
    }

    /// Maps the outcome of waiting on the child process to its terminal
    /// record: a known code is kept, an exit without a code (killed by a
    /// signal) records `-1`, and a wait failure records `-1` with the
    /// failure message.
    pub fn of_wait_outcome(completed_at: u64, outcome: Result<Option<i32>, String>) -> (c:
        Completion)
        ensures
            c@ == match outcome {
                Ok(Some(code)) => CompletionV { completed_at, exit_code: code, error: None },
                Ok(None) => CompletionV { completed_at, exit_code: -1i32, error: None },
                Err(m) => CompletionV { completed_at, exit_code: -1i32, error: Some(m@) },
            },
    {
        match outcome {
            Ok(Some(code)) => Completion::with_status(completed_at, code),
            Ok(None) => Completion::with_status(completed_at, -1),
            Err(m) => Completion::with_error(completed_at, m),
        }
    }
}

} // verus!
