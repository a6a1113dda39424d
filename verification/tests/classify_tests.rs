use supervisor::classify::classify_line;
use supervisor::classify::classify_stripped;
use supervisor::classify::LineClass;

#[test]
fn stats_line_parsed() {
    let line = "[notice] progress tasks=5 mem=120MB targets=10 attempts=50 done=25 (50.0%) errors=2 speed=12.5 reqs/s";
    match classify_line(line) {
        LineClass::Stats(st) => {
            assert_eq!(st.tasks, 5);
            assert_eq!(st.memory, "120MB");
            assert_eq!(st.targets, 10);
            assert_eq!(st.attempts, 50);
            assert_eq!(st.done, 25);
            assert_eq!(st.done_percent, "50.0");
            assert_eq!(st.errors, 2);
            assert_eq!(st.reqs_per_sec, 12);
        }
        _ => panic!("expected a statistics record"),
    }
}

#[test]
fn stats_without_errors_defaults_zero() {
    let line = "x tasks=1 mem=64MB targets=2 attempts=3 done=4 (40.0%) speed=7 reqs/s";
    match classify_line(line) {
        LineClass::Stats(st) => {
            assert_eq!(st.errors, 0);
            assert_eq!(st.tasks, 1);
            assert_eq!(st.reqs_per_sec, 7);
        }
        _ => panic!("expected a statistics record"),
    }
}

#[test]
fn stats_speed_integer_part_kept() {
    let line = "x tasks=1 mem=1MB targets=1 attempts=1 done=1 (1.5%) speed=0.75 reqs/s";
    match classify_line(line) {
        LineClass::Stats(st) => {
            assert_eq!(st.reqs_per_sec, 0);
            assert_eq!(st.done_percent, "1.5");
        }
        _ => panic!("expected a statistics record"),
    }
}

#[test]
fn stats_overflowing_count_degrades_to_raw() {
    let line = "x tasks=99999999999999999999999 mem=1MB targets=1 attempts=1 done=1 (1.0%) speed=1 reqs/s";
    match classify_line(line) {
        LineClass::Raw(t) => assert_eq!(t, line),
        _ => panic!("expected a raw record"),
    }
}

#[test]
fn stats_bad_percent_degrades_to_raw() {
    let line = "x tasks=1 mem=1MB targets=1 attempts=1 done=1 (n/a%) speed=1 reqs/s";
    match classify_line(line) {
        LineClass::Raw(t) => assert_eq!(t, line),
        _ => panic!("expected a raw record"),
    }
}

#[test]
fn finding_line_parsed() {
    let line = "loot [2024-01-01T00:00:00] (sql-injection) <http://target> found admin:admin123";
    match classify_line(line) {
        LineClass::Finding(l) => {
            assert_eq!(l.found_at, "2024-01-01T00:00:00");
            assert_eq!(l.plugin, "sql-injection");
            assert_eq!(l.target.as_deref(), Some("http://target"));
            assert_eq!(l.data, "found admin:admin123");
        }
        _ => panic!("expected a finding record"),
    }
}

#[test]
fn finding_without_target() {
    let line = "[12:00:01] (http-auth) got a hit";
    match classify_line(line) {
        LineClass::Finding(l) => {
            assert_eq!(l.found_at, "12:00:01");
            assert_eq!(l.plugin, "http-auth");
            assert_eq!(l.target, None);
            assert_eq!(l.data, "got a hit");
        }
        _ => panic!("expected a finding record"),
    }
}

#[test]
fn statistics_take_priority_over_findings() {
    let line = "[2024] (plug) tasks=1 mem=1MB targets=2 attempts=3 done=4 (5.0%) speed=6 reqs/s";
    match classify_line(line) {
        LineClass::Stats(st) => assert_eq!(st.targets, 2),
        _ => panic!("expected the statistics grammar to win"),
    }
}

#[test]
fn blank_line_produces_nothing() {
    match classify_line("   \t   ") {
        LineClass::Empty => {}
        _ => panic!("expected no record"),
    }
    match classify_line("") {
        LineClass::Empty => {}
        _ => panic!("expected no record"),
    }
}

#[test]
fn escape_only_line_produces_nothing() {
    match classify_line("\x1b[2J  \x1b[0m") {
        LineClass::Empty => {}
        _ => panic!("expected no record"),
    }
}

#[test]
fn unmatched_line_becomes_trimmed_raw() {
    match classify_line("   hello world  ") {
        LineClass::Raw(t) => assert_eq!(t, "hello world"),
        _ => panic!("expected a raw record"),
    }
}

#[test]
fn escapes_are_stripped_before_classifying() {
    match classify_line("\x1b[31mred alert\x1b[0m") {
        LineClass::Raw(t) => assert_eq!(t, "red alert"),
        _ => panic!("expected a raw record"),
    }
}

#[test]
fn classify_stripped_takes_text_as_given() {
    match classify_stripped("plain text") {
        LineClass::Raw(t) => assert_eq!(t, "plain text"),
        _ => panic!("expected a raw record"),
    }
}

#[test]
fn unicode_whitespace_counts_as_blank() {
    // No-break space, em space, ideographic space: no record of any kind.
    match classify_line("\u{00a0}\u{2003}\u{3000}") {
        LineClass::Empty => {}
        _ => panic!("expected no record"),
    }
}

#[test]
fn unicode_whitespace_is_trimmed_from_raw() {
    match classify_line("\u{00a0}\u{2003} plain text \u{202f}\u{00a0}") {
        LineClass::Raw(t) => assert_eq!(t, "plain text"),
        _ => panic!("expected a raw record"),
    }
}
