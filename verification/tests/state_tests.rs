use supervisor::records::Completion;
use supervisor::state::SessionError;
use supervisor::state::SpawnInfo;
use supervisor::state::State;
use supervisor::state::Wrapper;

fn spawn_ok(pid: u32) -> Result<SpawnInfo, String> {
    Ok(SpawnInfo { process_id: pid, started_at: 1_700_000_000 })
}

fn make_wrapper() -> Wrapper {
    Wrapper::start(
        "client-a".to_owned(),
        7,
        vec!["worker".to_owned(), "--fast".to_owned()],
        spawn_ok(4242),
    )
    .ok()
    .expect("spawn outcome was ok")
}

#[test]
fn create_registers_fresh_session() {
    let mut state = State::new();
    let id = state
        .start_new_session("client-a".to_owned(), vec!["worker".to_owned()], Ok(()), spawn_ok(10))
        .expect("creation succeeds on valid outcomes");
    assert_eq!(state.session_count(), 1);
    let w = state.get_session(id).expect("the issued id is registered");
    assert_eq!(w.session_id, id);
    assert_eq!(w.process_id, 10);
    assert_eq!(w.client, "client-a");
    assert_eq!(w.argv, vec!["worker".to_owned()]);
    assert!(w.completed.is_none());
    assert!(w.loot.is_empty());
    assert!(w.output.is_empty());
    assert_eq!(w.statistics.tasks, 0);

    let id2 = state
        .start_new_session("client-b".to_owned(), vec!["worker".to_owned()], Ok(()), spawn_ok(11))
        .expect("creation succeeds on valid outcomes");
    assert_ne!(id, id2, "a later create never reissues an id");
    assert_eq!(state.session_count(), 2);
}

#[test]
fn create_rejects_invalid_argv_without_registering() {
    let mut state = State::new();
    let r = state.start_new_session(
        "client-a".to_owned(),
        vec!["worker".to_owned(), "--no-such-flag".to_owned()],
        Err("unexpected argument".to_owned()),
        Err("never spawned".to_owned()),
    );
    match r {
        Err(SessionError::Validation(m)) => assert_eq!(m, "unexpected argument"),
        _ => panic!("expected a validation error"),
    }
    assert_eq!(state.session_count(), 0);
}

#[test]
fn create_reports_spawn_failure_without_registering() {
    let mut state = State::new();
    let r = state.start_new_session(
        "client-a".to_owned(),
        vec!["worker".to_owned()],
        Ok(()),
        Err("no such executable".to_owned()),
    );
    match r {
        Err(SessionError::Spawn(m)) => assert_eq!(m, "no such executable"),
        _ => panic!("expected a spawn error"),
    }
    assert_eq!(state.session_count(), 0);
}

#[test]
fn stop_unknown_session_is_not_found() {
    let state = State::new();
    match state.stop_session(77) {
        Err(SessionError::NotFound(id)) => assert_eq!(id, 77),
        _ => panic!("expected a not-found error"),
    }
    assert_eq!(state.session_count(), 0);
}

#[test]
fn stop_reports_signal_failure() {
    // A pid far above any real pid range: delivery fails, state is kept.
    let mut state = State::new();
    let id = state
        .start_new_session("client-a".to_owned(), vec!["worker".to_owned()], Ok(()), spawn_ok(999_999_999))
        .expect("creation succeeds on valid outcomes");
    match state.stop_session(id) {
        Err(SessionError::Signal(_)) => {}
        _ => panic!("expected a signal error"),
    }
    assert_eq!(state.session_count(), 1);
}

#[test]
fn latest_statistics_line_wins() {
    let mut w = make_wrapper();
    w.apply_line("x tasks=5 mem=120MB targets=10 attempts=50 done=25 (50.0%) errors=2 speed=12.5 reqs/s");
    w.apply_line("x tasks=6 mem=130MB targets=10 attempts=60 done=30 (60.0%) speed=9 reqs/s");
    assert_eq!(w.statistics.tasks, 6);
    assert_eq!(w.statistics.memory, "130MB");
    assert_eq!(w.statistics.attempts, 60);
    assert_eq!(w.statistics.done, 30);
    assert_eq!(w.statistics.done_percent, "60.0");
    assert_eq!(w.statistics.errors, 0, "absent errors resets to zero, nothing accumulates");
    assert_eq!(w.statistics.reqs_per_sec, 9);
    assert!(w.loot.is_empty());
    assert!(w.output.is_empty());
}

#[test]
fn findings_append_in_order() {
    let mut w = make_wrapper();
    w.apply_line("[t1] (p1) first hit");
    assert_eq!(w.loot.len(), 1);
    w.apply_line("[t2] (p2) <host> second hit");
    assert_eq!(w.loot.len(), 2);
    assert_eq!(w.loot[0].found_at, "t1");
    assert_eq!(w.loot[1].plugin, "p2");
    assert_eq!(w.loot[1].target.as_deref(), Some("host"));
}

#[test]
fn raw_lines_keep_arrival_order() {
    let mut w = make_wrapper();
    w.apply_line("  first  ");
    w.apply_line("second");
    w.apply_line("   ");
    assert_eq!(w.output, vec!["first".to_owned(), "second".to_owned()]);
}

#[test]
fn completion_is_recorded_once() {
    let mut w = make_wrapper();
    assert!(w.record_completion(Completion::with_status(100, 0)));
    assert!(!w.record_completion(Completion::with_status(200, 9)));
    let c = w.completed.as_ref().expect("completion was recorded");
    assert_eq!(c.completed_at, 100);
    assert_eq!(c.exit_code, 0);
    assert_eq!(c.error, None);
}

#[test]
fn completion_freezes_findings_and_raw_output() {
    let mut w = make_wrapper();
    w.record_completion(Completion::with_status(100, 0));
    w.apply_line("[t] (p) late hit");
    w.apply_line("late raw");
    assert!(w.loot.is_empty());
    assert!(w.output.is_empty());
    // A buffered late statistics line is still applied.
    w.apply_line("x tasks=1 mem=1MB targets=1 attempts=1 done=1 (1.0%) speed=1 reqs/s");
    assert_eq!(w.statistics.tasks, 1);
}

#[test]
fn wait_outcomes_map_to_completions() {
    let ok = Completion::of_wait_outcome(5, Ok(Some(0)));
    assert_eq!(ok.exit_code, 0);
    assert_eq!(ok.error, None);
    assert_eq!(ok.completed_at, 5);

    let signalled = Completion::of_wait_outcome(6, Ok(None));
    assert_eq!(signalled.exit_code, -1);
    assert_eq!(signalled.error, None);

    let failed = Completion::of_wait_outcome(7, Err("waitpid failed".to_owned()));
    assert_eq!(failed.exit_code, -1);
    assert_eq!(failed.error.as_deref(), Some("waitpid failed"));
}

#[test]
fn wrapper_start_keeps_spawn_error() {
    match Wrapper::start("c".to_owned(), 1, vec![], Err("exec format error".to_owned())) {
        Err(SessionError::Spawn(m)) => assert_eq!(m, "exec format error"),
        _ => panic!("expected a spawn error"),
    }
}

#[test]
fn sessions_are_listed_in_registration_order() {
    let mut state = State::new();
    let id1 = state
        .start_new_session("a".to_owned(), vec!["w".to_owned()], Ok(()), spawn_ok(1))
        .expect("creation succeeds on valid outcomes");
    let id2 = state
        .start_new_session("b".to_owned(), vec!["w".to_owned()], Ok(()), spawn_ok(2))
        .expect("creation succeeds on valid outcomes");
    let all = state.active_sessions();
    assert_eq!(all.len(), 2);
    assert_eq!(all[0].session_id, id1);
    assert_eq!(all[1].session_id, id2);
    let mut probe: u128 = 0;
    while probe == id1 || probe == id2 {
        probe += 1;
    }
    assert!(state.get_session(probe).is_none());
}

#[test]
fn statistics_default_is_zeroed() {
    let st = supervisor::records::Statistics::default();
    assert_eq!(st.tasks, 0);
    assert_eq!(st.memory, "");
    assert_eq!(st.targets, 0);
    assert_eq!(st.attempts, 0);
    assert_eq!(st.errors, 0);
    assert_eq!(st.done, 0);
    assert_eq!(st.done_percent, "0");
    assert_eq!(st.reqs_per_sec, 0);
}

#[test]
fn register_session_succeeds_on_fresh_id_and_rejects_collision() {
    let mut state = State::new();
    let info = SpawnInfo { process_id: 21, started_at: 5 };
    let r = state.register_session(9, "client-a".to_owned(), vec!["worker".to_owned()], info);
    assert_eq!(r.ok(), Some(9));
    assert_eq!(state.session_count(), 1);

    let info2 = SpawnInfo { process_id: 22, started_at: 6 };
    match state.register_session(9, "client-b".to_owned(), vec!["worker".to_owned()], info2) {
        Err(SessionError::Spawn(m)) => assert_eq!(m, "session id collision"),
        _ => panic!("expected a spawn error on a registered id"),
    }
    assert_eq!(state.session_count(), 1);
    assert_eq!(state.get_session(9).expect("still registered").process_id, 21);
}
