//! Session supervision state: one [`Wrapper`] per supervised child
//! process, holding its identity and telemetry, and the [`State`]
//! registry of all sessions.
//!
//! Process spawning, output capture, and exit waiting are outside work:
//! their outcomes enter here as plain values, and every decision taken
//! on them is verified. Signal delivery and identifier generation are
//! called through trusted wrappers.

use vstd::prelude::*;

use crate::classify::classification;
use crate::classify::classify_line;
use crate::classify::strip_ansi_of;
use crate::classify::LineClass;
use crate::classify::LineClassV;
use crate::records::statistics_init;
use crate::records::Completion;
use crate::records::CompletionV;
use crate::records::Loot;
use crate::records::LootV;
use crate::records::Statistics;
use crate::records::StatisticsV;

verus! {

/// An error of a session operation, each variant carrying what its
/// caller needs to report it.
#[derive(Debug)]
pub enum SessionError {
    /// The argument vector was rejected by the worker's argument schema.
    Validation(String),
    /// The child process could not be created, or no fresh identifier
    /// could be registered for it.
    Spawn(String),
    /// No session carries the given identifier.
    NotFound(u128),
    /// The termination signal could not be delivered.
    Signal(String),
}

/// What a successful spawn of the child process reports back.
pub struct SpawnInfo {
    /// Operating-system identifier of the child process.
    pub process_id: u32,
    /// When the process was started.
    pub started_at: u64,
}

/// Mathematical value of a [`Wrapper`].
pub struct WrapperV {
    pub session_id: u128,
    pub process_id: u32,
    pub client: Seq<char>,
    pub argv: Seq<Seq<char>>,
    pub started_at: u64,
    pub statistics: StatisticsV,
    pub loot: Seq<LootV>,
    pub output: Seq<Seq<char>>,
    pub completed: Option<CompletionV>,
}

/// One supervised session: immutable identity, and the telemetry that
/// the captured output and the completion waiter feed.
pub struct Wrapper {
    pub session_id: u128,
    pub process_id: u32,
    pub client: String,
    pub argv: Vec<String>,
    pub started_at: u64,
    pub statistics: Statistics,
    pub loot: Vec<Loot>,
    pub output: Vec<String>,
    pub completed: Option<Completion>,
}

impl View for Wrapper {
    type V = WrapperV;

    open spec fn view(&self) -> WrapperV {
        WrapperV {
            session_id: self.session_id,
            process_id: self.process_id,
            client: self.client@,
            argv: self.argv.deep_view(),
            started_at: self.started_at,
            statistics: self.statistics@,
            loot: self.loot@.map_values(|l: Loot| l@),
            output: self.output.deep_view(),
            completed: match self.completed {
                Some(c) => Some(c@),
                None => None,
            },
        }
    }
}

/// The state a session starts in: given identity, zeroed statistics, no
/// findings, no raw output, no completion.
pub open spec fn wrapper_init(
    session_id: u128,
    process_id: u32,
    client: Seq<char>,
    argv: Seq<Seq<char>>,
    started_at: u64,
) -> WrapperV {
    WrapperV {
        session_id,
        process_id,
        client,
        argv,
        started_at,
        statistics: statistics_init(),
        loot: Seq::empty(),
        output: Seq::empty(),
        completed: None,
    }
}

/// How one classified line changes a session's telemetry: a statistics
/// line overwrites the snapshot (even after completion, for a buffered
/// late line); a finding or raw line is appended only while the session
/// is not completed; an empty line changes nothing.
pub open spec fn wrapper_apply(w: WrapperV, c: LineClassV) -> WrapperV {
    match c {
        LineClassV::Empty => w,
        LineClassV::Stats(st) => WrapperV { statistics: st, ..w },
        LineClassV::Finding(f) => if w.completed is None {
            WrapperV { loot: w.loot.push(f), ..w }
        } else {
            w
        },
        LineClassV::Raw(t) => if w.completed is None {
            WrapperV { output: w.output.push(t), ..w }
        } else {
            w
        },
    }
}

/// How recording a completion changes a session: the first record is
/// kept, every later one is ignored.
pub open spec fn completion_step(w: WrapperV, c: CompletionV) -> WrapperV {
    if w.completed is None {
        WrapperV { completed: Some(c), ..w }
    } else {
        w
    }
}

/// Relies on nix::sys::signal::kill: delivers SIGTERM to the process
/// with the given id, reporting the system error text on failure;
/// whether delivery succeeds depends on the environment, so nothing
/// more is promised.
#[verifier::external_body]
fn send_sigterm(pid: u32) -> Result<(), String> {
    match nix::sys::signal::kill(
        nix::unistd::Pid::from_raw(pid as i32),
        nix::sys::signal::Signal::SIGTERM,
    ) {
        Ok(()) => Ok(()),
        Err(e) => Err(e.desc().to_owned()),
    }
}

/// Relies on uuid::Uuid::new_v4: draws a random version-4 identifier,
/// returned as its 128-bit value; nothing can be promised of a random
/// value.
#[verifier::external_body]
fn fresh_session_id() -> u128 {
    uuid::Uuid::new_v4().as_u128()
}

impl Wrapper {
    /// Builds the session record for a spawn outcome: a session in its
    /// initial state on success, the spawn error otherwise. No process
    /// is touched here; the spawn itself is the caller's outside work.
    pub fn start(
        client: String,
        session_id: u128,
        argv: Vec<String>,
        spawn: Result<SpawnInfo, String>,
    ) -> (r: Result<Wrapper, SessionError>)
        ensures
            match spawn {
                Ok(info) => match r {
                    Ok(w) => w@ == wrapper_init(
                        session_id,
                        info.process_id,
                        client@,
                        argv.deep_view(),
                        info.started_at,
                    ),
                    Err(_) => false,
                },
                Err(m) => r == Err::<Wrapper, SessionError>(SessionError::Spawn(m)),
            },
    {
        match spawn {
            Ok(info) => {
                let w = Wrapper {
                    session_id,
                    process_id: info.process_id,
                    client,
                    argv,
                    started_at: info.started_at,
                    statistics: Statistics::new(),
                    loot: Vec::new(),
                    output: Vec::new(),
                    completed: None,
                };
                proof {
                    assert(w@.loot =~= Seq::<LootV>::empty());
                    assert(w@.output =~= Seq::<Seq<char>>::empty());
                }
                Ok(w)
            },
            Err(m) => Err(SessionError::Spawn(m)),
        }
    }

    /// Feeds one captured output line into the session's telemetry,
    /// exactly as [`wrapper_apply`] of its classification says.
    pub fn apply_line(&mut self, line: &str)
        ensures
            final(self)@ == wrapper_apply(old(self)@, classification(strip_ansi_of(line@))),
    {
        let c = classify_line(line);
        match c {
            LineClass::Empty => {},
            LineClass::Stats(st) => {
                self.statistics = st;
            },
            LineClass::Finding(l) => {
                if self.completed.is_none() {
                    self.loot.push(l);
                    proof {
                        assert(self@.loot =~= old(self)@.loot.push(
                            classification(strip_ansi_of(line@))->Finding_0,
                        ));
                    }
                }
            },
            LineClass::Raw(t) => {
                if self.completed.is_none() {
                    self.output.push(t);
                    proof {
                        assert(self@.output =~= old(self)@.output.push(
                            classification(strip_ansi_of(line@))->Raw_0,
                        ));
                    }
                }
            },
        }
    }

    /// Records the terminal completion exactly once: the first record
    /// wins and every later call leaves the session unchanged. Returns
    /// whether this call set it.
    pub fn record_completion(&mut self, c: Completion) -> (recorded: bool)
        ensures
            recorded == (old(self)@.completed is None),
            final(self)@ == completion_step(old(self)@, c@),
    {
        if self.completed.is_none() {
            self.completed = Some(c);
            true
        } else {
            false
        }
    }

    /// Requests graceful termination of the child process: delivers a
    /// termination signal to the recorded process id. The session state
    /// is untouched; whether the process exits is observed later by the
    /// completion waiter.
    pub fn stop(&self) -> (r: Result<(), SessionError>)
        ensures
            match r {
                Ok(()) => true,
                Err(e) => e is Signal,
            },
    {
        match send_sigterm(self.process_id) {
            Ok(()) => Ok(()),
            Err(m) => Err(SessionError::Signal(m)),
        }
    }
}

/// Some registered session carries the identifier.
pub open spec fn contains_id(ws: Seq<WrapperV>, id: u128) -> bool {
    exists|k: int| 0 <= k < ws.len() && ws[k].session_id == id
}

/// No two registered sessions carry the same identifier.
pub open spec fn ids_distinct(ws: Seq<WrapperV>) -> bool {
    forall|a: int, b: int|
        0 <= a < b < ws.len() ==> ws[a].session_id != ws[b].session_id
}

/// The concurrency-safe registry of all known sessions. Its view is the
/// sequence of session values in registration order; identifiers are
/// unique, and sessions are never removed.
pub struct State {
    pub sessions: Vec<Wrapper>,
}

impl View for State {
    type V = Seq<WrapperV>;

    open spec fn view(&self) -> Seq<WrapperV> {
        self.sessions@.map_values(|w: Wrapper| w@)
    }
}

impl State {
    /// An empty registry.
    pub fn new() -> (s: State)
        ensures
            s@ == Seq::<WrapperV>::empty(),
            ids_distinct(s@),
    {
        let s = State { sessions: Vec::new() };
        proof {
            assert(s@ =~= Seq::<WrapperV>::empty());
        }
        s
    }

    /// How many sessions are registered.
    pub fn session_count(&self) -> (n: usize)
        ensures
            n == self@.len(),
    {
        self.sessions.len()
    }

    /// Index of the first session carrying `id`, if any.
    fn find_index(&self, id: u128) -> (r: Option<usize>)
        ensures
            match r {
                Some(k) => k < self@.len() && self@[k as int].session_id == id,
                None => !contains_id(self@, id),
            },
    {
        let mut cur: usize = 0;
        while cur < self.sessions.len()
            invariant
                cur <= self.sessions.len(),
                forall|m: int| 0 <= m < cur ==> self@[m].session_id != id,
            decreases self.sessions.len() - cur,
        {
            if self.sessions[cur].session_id == id {
                return Some(cur);
            }
            cur = cur + 1;
        }
        None
    }

    /// Registers a session under the identifier `id` for a successful
    /// spawn: succeeds exactly when no registered session carries `id`
    /// yet, appending the new session in its initial state; on a
    /// collision it fails as a spawn error and nothing changes.
    pub fn register_session(
        &mut self,
        id: u128,
        client: String,
        argv: Vec<String>,
        info: SpawnInfo,
    ) -> (r: Result<u128, SessionError>)
        requires
            ids_distinct(old(self)@),
        ensures
            ids_distinct(final(self)@),
            !contains_id(old(self)@, id) ==> r == Ok::<u128, SessionError>(id) && final(self)@
                == old(self)@.push(
                wrapper_init(id, info.process_id, client@, argv.deep_view(), info.started_at),
            ),
            contains_id(old(self)@, id) ==> (r matches Err(e) && e is Spawn) && final(self)@
                == old(self)@,
    {
        if self.find_index(id).is_some() {
            return Err(SessionError::Spawn("session id collision".to_owned()));
        }
        let ghost pre = self@;
        match Wrapper::start(client, id, argv, Ok(info)) {
            Ok(w) => {
                self.sessions.push(w);
                proof {
                    assert(self@ =~= pre.push(w@));
                    assert forall|a: int, b: int|
                        0 <= a < b < self@.len() implies self@[a].session_id
                        != self@[b].session_id by {
                        if b == self@.len() - 1 {
                            assert(!contains_id(pre, id));
                            assert(pre[a].session_id != id);
                        }
                    }
                }
                Ok(id)
            },
            Err(e) => {
                proof {
                    assert(false);
                }
                Err(e)
            },
        }
    }

    /// Creates a session: checks the validation outcome of the argument
    /// vector first (a rejected vector creates nothing), then the spawn
    /// outcome, then registers the session under a freshly drawn
    /// identifier through [`State::register_session`], whose contract
    /// says that registration succeeds whenever the drawn identifier is
    /// fresh. The draw is random; in the vanishing case that it collides
    /// with a registered identifier, the creation is reported as a spawn
    /// failure and nothing is registered.
    pub fn start_new_session(
        &mut self,
        client: String,
        argv: Vec<String>,
        validation: Result<(), String>,
        spawn: Result<SpawnInfo, String>,
    ) -> (r: Result<u128, SessionError>)
        requires
            ids_distinct(old(self)@),
        ensures
            ids_distinct(final(self)@),
            match validation {
                Err(m) => r == Err::<u128, SessionError>(SessionError::Validation(m))
                    && final(self)@ == old(self)@,
                Ok(_) => match spawn {
                    Err(m) => r == Err::<u128, SessionError>(SessionError::Spawn(m))
                        && final(self)@ == old(self)@,
                    Ok(info) => match r {
                        Ok(id) => !contains_id(old(self)@, id) && final(self)@ == old(self)@.push(
                            wrapper_init(
                                id,
                                info.process_id,
                                client@,
                                argv.deep_view(),
                                info.started_at,
                            ),
                        ),
                        Err(e) => e is Spawn && final(self)@ == old(self)@,
                    },
                },
            },
    {
        if let Err(m) = validation {
            return Err(SessionError::Validation(m));
        }
        let info = match spawn {
            Err(m) => {
                return Err(SessionError::Spawn(m));
            },
            Ok(info) => info,
        };
        let id = fresh_session_id();
        self.register_session(id, client, argv, info)
    }

    /// Requests termination of the session carrying `id`: fails with
    /// `NotFound` when no session carries it, and otherwise forwards the
    /// termination signal. Never changes any session state.
    pub fn stop_session(&self, id: u128) -> (r: Result<(), SessionError>)
        ensures
            match r {
                Ok(()) => contains_id(self@, id),
                Err(e) => match e {
                    SessionError::NotFound(missing) => missing == id && !contains_id(self@, id),
                    SessionError::Signal(_) => contains_id(self@, id),
                    _ => false,
                },
            },
            !contains_id(self@, id) <==> r == Err::<(), SessionError>(SessionError::NotFound(id)),
    {
        match self.find_index(id) {
            None => Err(SessionError::NotFound(id)),
            Some(k) => self.sessions[k].stop(),
        }
    }

    /// The first session carrying `id`, if any; with distinct
    /// identifiers, the only one.
    pub fn get_session(&self, id: u128) -> (r: Option<&Wrapper>)
        ensures
            match r {
                Some(w) => w@.session_id == id && contains_id(self@, id) && exists|k: int|
                    0 <= k < self@.len() && self@[k] == w@,
                None => !contains_id(self@, id),
            },
    {
        match self.find_index(id) {
            None => None,
            Some(k) => {
                let w = &self.sessions[k];
                proof {
                    assert(self@[k as int] == w@);
                }
                Some(w)
            },
        }
    }

    /// Feeds one captured output line into the session carrying `id`,
    /// as [`wrapper_apply`] of the line's classification says; a line
    /// for an unknown identifier changes nothing. Returns whether a
    /// session took the line.
    pub fn apply_line_to(&mut self, id: u128, line: &str) -> (applied: bool)
        requires
            ids_distinct(old(self)@),
        ensures
            ids_distinct(final(self)@),
            applied == contains_id(old(self)@, id),
            !applied ==> final(self)@ == old(self)@,
            applied ==> exists|k: int|
                0 <= k < old(self)@.len() && old(self)@[k].session_id == id && final(self)@ == old(
                    self,
                )@.update(
                    k,
                    wrapper_apply(old(self)@[k], classification(strip_ansi_of(line@))),
                ),
    {
        match self.find_index(id) {
            None => false,
            Some(k) => {
                let ghost pre = self@;
                let w = &mut self.sessions[k];
                w.apply_line(line);
                proof {
                    assert(self@ =~= pre.update(
                        k as int,
                        wrapper_apply(pre[k as int], classification(strip_ansi_of(line@))),
                    ));
                    assert forall|a: int, b: int|
                        0 <= a < b < self@.len() implies self@[a].session_id
                        != self@[b].session_id by {
                        assert(pre[a].session_id != pre[b].session_id);
                    }
                }
                true
            },
        }
    }

    /// Records the terminal completion of the session carrying `id`,
    /// first record wins, as [`completion_step`] says; an unknown
    /// identifier changes nothing. Returns whether this call set it.
    pub fn record_completion_to(&mut self, id: u128, c: Completion) -> (recorded: bool)
        requires
            ids_distinct(old(self)@),
        ensures
            ids_distinct(final(self)@),
            !contains_id(old(self)@, id) ==> final(self)@ == old(self)@ && !recorded,
            contains_id(old(self)@, id) ==> exists|k: int|
                0 <= k < old(self)@.len() && old(self)@[k].session_id == id && final(self)@ == old(
                    self,
                )@.update(k, completion_step(old(self)@[k], c@)) && recorded == (old(
                    self,
                )@[k].completed is None),
    {
        match self.find_index(id) {
            None => false,
            Some(k) => {
                let ghost pre = self@;
                let w = &mut self.sessions[k];
                let recorded = w.record_completion(c);
                proof {
                    assert(self@ =~= pre.update(k as int, completion_step(pre[k as int], c@)));
                    assert forall|a: int, b: int|
                        0 <= a < b < self@.len() implies self@[a].session_id
                        != self@[b].session_id by {
                        assert(pre[a].session_id != pre[b].session_id);
                    }
                }
                recorded
            },
        }
    }

    /// All registered sessions, in registration order.
    pub fn active_sessions(&self) -> (r: &Vec<Wrapper>)
        ensures
            r@.map_values(|w: Wrapper| w@) == self@,
    {
        &self.sessions
    }
}

} // verus!
