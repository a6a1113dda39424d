//! The per-line output classifier: strips terminal escape sequences,
//! then classifies a line as a statistics update, a finding, or raw
//! text, in that priority order. The grammar of the two recognized
//! line shapes is stated here as spec functions, and the executable
//! parser is proved to implement it exactly.

use vstd::prelude::*;

use crate::is_digit_char;
use crate::is_ws_char;
use crate::records::Loot;
use crate::records::LootV;
use crate::records::Statistics;
use crate::records::StatisticsV;

verus! {

// ---------------------------------------------------------------------
// Elementary text scanning, at the spec level.
// ---------------------------------------------------------------------

/// The pattern `pat` occurs in `s` starting at index `i`.
pub open spec fn match_at(s: Seq<char>, i: int, pat: Seq<char>) -> bool {
    0 <= i && i + pat.len() <= s.len() && s.subrange(i, i + pat.len() as int) == pat
}

/// End of the run of decimal digits that starts at `i`: the first index
/// at or after `i` holding no digit.
pub open spec fn digit_run_end(s: Seq<char>, i: int) -> int
    decreases s.len() - i,
{
    if 0 <= i < s.len() && is_digit_char(s[i]) {
        digit_run_end(s, i + 1)
    } else {
        i
    }
}

/// End of the run of whitespace that starts at `i`.
pub open spec fn ws_run_end(s: Seq<char>, i: int) -> int
    decreases s.len() - i,
{
    if 0 <= i < s.len() && is_ws_char(s[i]) {
        ws_run_end(s, i + 1)
    } else {
        i
    }
}

/// First index at or after `i` where `c` stands, if any.
pub open spec fn char_find(s: Seq<char>, i: int, c: char) -> Option<int>
    decreases s.len() - i,
{
    if i < 0 || i >= s.len() {
        None
    } else if s[i] == c {
        Some(i)
    } else {
        char_find(s, i + 1, c)
    }
}

/// First index at or after `i` where `pat` occurs, if any.
pub open spec fn find_at(s: Seq<char>, i: int, pat: Seq<char>) -> Option<int>
    decreases s.len() - i + 1,
{
    if i < 0 || i + pat.len() > s.len() {
        None
    } else if match_at(s, i, pat) {
        Some(i)
    } else {
        find_at(s, i + 1, pat)
    }
}

/// First index `j` at or after `i` holding a whitespace character
/// directly followed by `pat`, if any.
pub open spec fn find_ws_then(s: Seq<char>, i: int, pat: Seq<char>) -> Option<int>
    decreases s.len() - i,
{
    if i < 0 || i >= s.len() {
        None
    } else if is_ws_char(s[i]) && match_at(s, i + 1, pat) {
        Some(i)
    } else {
        find_ws_then(s, i + 1, pat)
    }
}

/// Every index of `[i, j)` holds a decimal digit.
pub open spec fn all_digits(s: Seq<char>, i: int, j: int) -> bool {
    forall|k: int| i <= k < j ==> is_digit_char(s[k])
}

/// Numeric value of the digit run `s[i..j)`, read in base ten.
pub open spec fn digits_val(s: Seq<char>, i: int, j: int) -> int
    decreases j - i,
{
    if i >= j {
        0
    } else {
        digits_val(s, i, j - 1) * 10 + (s[j - 1] as int - '0' as int)
    }
}

// ---------------------------------------------------------------------
// Trimming.
// ---------------------------------------------------------------------

/// First index at or after `i` holding no whitespace.
pub open spec fn trim_start_idx(s: Seq<char>, i: int) -> int
    decreases s.len() - i,
{
    if 0 <= i < s.len() && is_ws_char(s[i]) {
        trim_start_idx(s, i + 1)
    } else {
        i
    }
}

/// One past the last index before `j` holding no whitespace.
pub open spec fn trim_end_idx(s: Seq<char>, j: int) -> int
    decreases j,
{
    if 0 < j <= s.len() && is_ws_char(s[j - 1]) {
        trim_end_idx(s, j - 1)
    } else {
        j
    }
}

/// `s` with leading and trailing whitespace removed.
pub open spec fn trim_spec(s: Seq<char>) -> Seq<char> {
    let a = trim_start_idx(s, 0);
    let b = trim_end_idx(s, s.len() as int);
    if a <= b {
        s.subrange(a, b)
    } else {
        Seq::empty()
    }
}

// ---------------------------------------------------------------------
// The statistics grammar.
// ---------------------------------------------------------------------

/// Field boundaries of a structurally matched statistics line: each pair
/// is the half-open index range of one captured field.
pub struct StatsSpan {
    pub tasks: (int, int),
    pub mem: (int, int),
    pub targets: (int, int),
    pub attempts: (int, int),
    pub done: (int, int),
    pub pct: (int, int),
    pub errors: Option<(int, int)>,
    pub speed: (int, int),
}

/// After one whitespace character at `e`, the literal `speed=` and a
/// nonempty text running to the first ` reqs/s`.
pub open spec fn speed_after(s: Seq<char>, e: int) -> Option<(int, int)> {
    if !(0 <= e < s.len() && is_ws_char(s[e]) && match_at(s, e + 1, "speed="@)) {
        None
    } else {
        let s0 = e + 1 + "speed="@.len();
        match find_at(s, s0 as int, " reqs/s"@) {
            None => None,
            Some(s1) => if s1 == s0 {
                None
            } else {
                Some((s0 as int, s1))
            },
        }
    }
}

/// The tail of a statistics line after the closing `%)`: an optional
/// ` errors=<digits>` group, then the speed group. When the errors group
/// is present but the speed group does not follow it, the errors group
/// is read as absent instead, as a backtracking matcher would.
pub open spec fn errors_speed_after(s: Seq<char>, q: int) -> Option<(Option<(int, int)>, (
    int,
    int,
))> {
    let with_errors = if 0 <= q < s.len() && is_ws_char(s[q]) && match_at(s, q + 1, "errors="@) {
        let e0 = q + 1 + "errors="@.len();
        let e1 = digit_run_end(s, e0 as int);
        if e1 > e0 {
            match speed_after(s, e1) {
                None => None,
                Some(sp) => Some((Some((e0 as int, e1)), sp)),
            }
        } else {
            None
        }
    } else {
        None
    };
    if with_errors is Some {
        with_errors
    } else {
        match speed_after(s, q) {
            None => None,
            Some(sp) => Some((None, sp)),
        }
    }
}

/// Structural match of the statistics grammar with its leading token at
/// index `i`: `tasks=<digits>`, whitespace, `mem=<text>`, whitespace,
/// `targets=<digits>`, one whitespace, `attempts=<digits>`, one
/// whitespace, `done=<digits>`, one whitespace, `(<text>%)`, an optional
/// ` errors=<digits>`, one whitespace, `speed=<text> reqs/s`. The memory
/// text runs to the first whitespace followed by `targets=`; the
/// percentage text runs to the first `%)`.
pub open spec fn stats_at(s: Seq<char>, i: int) -> Option<StatsSpan> {
    if !match_at(s, i, "tasks="@) {
        None
    } else {
        let d0 = i + "tasks="@.len();
        let d1 = digit_run_end(s, d0 as int);
        if d1 == d0 {
            None
        } else {
            let w1 = ws_run_end(s, d1);
            if w1 == d1 || !match_at(s, w1, "mem="@) {
                None
            } else {
                let m0 = w1 + "mem="@.len();
                match find_ws_then(s, m0 as int, "targets="@) {
                    None => None,
                    Some(mj) => if mj == m0 {
                        None
                    } else {
                        let t0 = mj + 1 + "targets="@.len();
                        let t1 = digit_run_end(s, t0 as int);
                        if t1 == t0 || !(t1 < s.len() && is_ws_char(s[t1]) && match_at(
                            s,
                            t1 + 1,
                            "attempts="@,
                        )) {
                            None
                        } else {
                            let a0 = t1 + 1 + "attempts="@.len();
                            let a1 = digit_run_end(s, a0 as int);
                            if a1 == a0 || !(a1 < s.len() && is_ws_char(s[a1]) && match_at(
                                s,
                                a1 + 1,
                                "done="@,
                            )) {
                                None
                            } else {
                                let o0 = a1 + 1 + "done="@.len();
                                let o1 = digit_run_end(s, o0 as int);
                                if o1 == o0 || !(o1 + 1 < s.len() && is_ws_char(s[o1]) && s[o1
                                    + 1] == '(') {
                                    None
                                } else {
                                    let p0 = o1 + 2;
                                    match find_at(s, p0, "%)"@) {
                                        None => None,
                                        Some(p1) => if p1 == p0 {
                                            None
                                        } else {
                                            let q = p1 + "%)"@.len();
                                            match errors_speed_after(s, q as int) {
                                                None => None,
                                                Some((er, sp)) => Some(
                                                    StatsSpan {
                                                        tasks: (d0 as int, d1),
                                                        mem: (m0 as int, mj),
                                                        targets: (t0 as int, t1),
                                                        attempts: (a0 as int, a1),
                                                        done: (o0 as int, o1),
                                                        pct: (p0, p1),
                                                        errors: er,
                                                        speed: sp,
                                                    },
                                                ),
                                            }
                                        },
                                    }
                                }
                            }
                        }
                    },
                }
            }
        }
    }
}

/// Leftmost structural match of the statistics grammar at or after `i`.
pub open spec fn stats_search(s: Seq<char>, i: int) -> Option<StatsSpan>
    decreases s.len() - i,
{
    if i < 0 || i >= s.len() {
        None
    } else if stats_at(s, i) is Some {
        stats_at(s, i)
    } else {
        stats_search(s, i + 1)
    }
}

// ---------------------------------------------------------------------
// Field validation for a structurally matched statistics line.
// ---------------------------------------------------------------------

/// First `.` inside `s[i..j)`, if any.
pub open spec fn dot_in(s: Seq<char>, i: int, j: int) -> Option<int>
    decreases j - i,
{
    if i < 0 || i >= j {
        None
    } else if s[i] == '.' {
        Some(i)
    } else {
        dot_in(s, i + 1, j)
    }
}

/// `s[i..j)` is decimal number text: nonempty, at most one `.`, every
/// other character a digit, and at least one digit.
pub open spec fn decimal_range(s: Seq<char>, i: int, j: int) -> bool {
    i < j && match dot_in(s, i, j) {
        None => all_digits(s, i, j),
        Some(p) => all_digits(s, i, p) && all_digits(s, p + 1, j) && (p > i || p + 1 < j),
    }
}

/// End of the integer part of the decimal text `s[i..j)`: the first `.`,
/// or `j` when there is none.
pub open spec fn int_part_end(s: Seq<char>, i: int, j: int) -> int {
    match dot_in(s, i, j) {
        None => j,
        Some(p) => p,
    }
}

/// The statistics record described by a structural match, if every
/// numeric field is in range: each digit run must fit in a `u64`, the
/// percentage and speed texts must be decimal number text, and the speed
/// is truncated to the integer part of its decimal text. An absent
/// errors group counts as zero.
pub open spec fn stats_of_span(s: Seq<char>, sp: StatsSpan) -> Option<StatisticsV> {
    let tasks = digits_val(s, sp.tasks.0, sp.tasks.1);
    let targets = digits_val(s, sp.targets.0, sp.targets.1);
    let attempts = digits_val(s, sp.attempts.0, sp.attempts.1);
    let done = digits_val(s, sp.done.0, sp.done.1);
    let errors = match sp.errors {
        None => 0,
        Some(e) => digits_val(s, e.0, e.1),
    };
    let speed = digits_val(s, sp.speed.0, int_part_end(s, sp.speed.0, sp.speed.1));
    if tasks <= u64::MAX && targets <= u64::MAX && attempts <= u64::MAX && done <= u64::MAX
        && errors <= u64::MAX && speed <= u64::MAX && decimal_range(s, sp.pct.0, sp.pct.1)
        && decimal_range(s, sp.speed.0, sp.speed.1) {
        Some(
            StatisticsV {
                tasks: tasks as nat,
                memory: s.subrange(sp.mem.0, sp.mem.1),
                targets: targets as nat,
                attempts: attempts as nat,
                errors: errors as nat,
                done: done as nat,
                done_percent: s.subrange(sp.pct.0, sp.pct.1),
                reqs_per_sec: speed as nat,
            },
        )
    } else {
        None
    }
}

// ---------------------------------------------------------------------
// The finding grammar.
// ---------------------------------------------------------------------

/// Field boundaries of a matched finding line: index ranges of the
/// timestamp and plugin texts, of the optional target text, and the
/// start of the data text, which runs to the end of the line.
pub struct LootSpan {
    pub found_at: (int, int),
    pub plugin: (int, int),
    pub target: Option<(int, int)>,
    pub data0: int,
}

/// Match of the finding grammar with its opening bracket at index `i`:
/// `[<found_at>]`, one whitespace, `(<plugin>)`, an optional
/// ` <<target>>`, one whitespace, and nonempty data running to the end
/// of the line. The bracketed texts are nonempty and run to the first
/// closing delimiter; when the target group is present but nothing
/// follows it, it is read as absent instead, as a backtracking matcher
/// would.
pub open spec fn loot_at(s: Seq<char>, i: int) -> Option<LootSpan> {
    if !(0 <= i < s.len() && s[i] == '[') {
        None
    } else {
        match char_find(s, i + 1, ']') {
            None => None,
            Some(f1) => if f1 == i + 1 {
                None
            } else {
                let g = f1 + 1;
                if !(g + 1 < s.len() && is_ws_char(s[g]) && s[g + 1] == '(') {
                    None
                } else {
                    let p0 = g + 2;
                    match char_find(s, p0, ')') {
                        None => None,
                        Some(p1) => if p1 == p0 {
                            None
                        } else {
                            let q = p1 + 1;
                            let with_target = if q + 1 < s.len() && is_ws_char(s[q]) && s[q + 1]
                                == '<' {
                                match char_find(s, q + 2, '>') {
                                    None => None,
                                    Some(t1) => if t1 == q + 2 {
                                        None
                                    } else {
                                        if t1 + 2 < s.len() && is_ws_char(s[t1 + 1]) {
                                            Some(
                                                LootSpan {
                                                    found_at: (i + 1, f1),
                                                    plugin: (p0, p1),
                                                    target: Some((q + 2, t1)),
                                                    data0: t1 + 2,
                                                },
                                            )
                                        } else {
                                            None
                                        }
                                    },
                                }
                            } else {
                                None
                            };
                            if with_target is Some {
                                with_target
                            } else {
                                if q + 1 < s.len() && is_ws_char(s[q]) {
                                    Some(
                                        LootSpan {
                                            found_at: (i + 1, f1),
                                            plugin: (p0, p1),
                                            target: None,
                                            data0: q + 1,
                                        },
                                    )
                                } else {
                                    None
                                }
                            }
                        },
                    }
                }
            },
        }
    }
}

/// Leftmost match of the finding grammar at or after `i`.
pub open spec fn loot_search(s: Seq<char>, i: int) -> Option<LootSpan>
    decreases s.len() - i,
{
    if i < 0 || i >= s.len() {
        None
    } else if loot_at(s, i) is Some {
        loot_at(s, i)
    } else {
        loot_search(s, i + 1)
    }
}

/// The finding record described by a match; its fields are free-form
/// text, so every match yields a record.
pub open spec fn loot_of_span(s: Seq<char>, sp: LootSpan) -> LootV {
    LootV {
        found_at: s.subrange(sp.found_at.0, sp.found_at.1),
        plugin: s.subrange(sp.plugin.0, sp.plugin.1),
        target: match sp.target {
            None => None,
            Some(t) => Some(s.subrange(t.0, t.1)),
        },
        data: s.subrange(sp.data0, s.len() as int),
    }
}

// ---------------------------------------------------------------------
// Classification.
// ---------------------------------------------------------------------

/// Mathematical value of a classified line.
pub enum LineClassV {
    /// Whitespace-only after escape stripping: no record of any kind.
    Empty,
    /// A statistics line: the latest progress snapshot to keep.
    Stats(StatisticsV),
    /// A finding line: a result record to append.
    Finding(LootV),
    /// Anything else: the trimmed text, to append to raw output.
    Raw(Seq<char>),
}

/// Classification of one already-stripped line, in strict priority
/// order: a whitespace-only line produces nothing; then the statistics
/// grammar is tried, then the finding grammar; an unmatched line, and a
/// structurally matched statistics line with a numeric field out of
/// range, degrade to the trimmed raw text. A line is never classified
/// into more than one category.
pub open spec fn classification(s: Seq<char>) -> LineClassV {
    let t = trim_spec(s);
    if t.len() == 0 {
        LineClassV::Empty
    } else {
        match stats_search(s, 0) {
            Some(sp) => match stats_of_span(s, sp) {
                Some(st) => LineClassV::Stats(st),
                None => LineClassV::Raw(t),
            },
            None => match loot_search(s, 0) {
                Some(lp) => LineClassV::Finding(loot_of_span(s, lp)),
                None => LineClassV::Raw(t),
            },
        }
    }
}

// ---------------------------------------------------------------------
// Executable scanning helpers, each proved against its spec function.
// ---------------------------------------------------------------------

/// Executable form of [`is_digit_char`].
fn digit_exec(c: char) -> (b: bool)
    ensures
        b == is_digit_char(c),
{
    let u = c as u32;
    48 <= u && u <= 57
}

/// Executable form of [`is_ws_char`].
fn ws_exec(c: char) -> (b: bool)
    ensures
        b == is_ws_char(c),
{
    let u = c as u32;
    u == 0x20 || u == 0x09 || u == 0x0a || u == 0x0d || u == 0x0b || u == 0x0c || u == 0x85 || u
        == 0xa0 || u == 0x1680 || (0x2000 <= u && u <= 0x200a) || u == 0x2028 || u == 0x2029 || u
        == 0x202f || u == 0x205f || u == 0x3000
}

/// The characters of `s`, in order.
fn chars_of(s: &str) -> (v: Vec<char>)
    ensures
        v@ == s@,
{
    let n = s.unicode_len();
    let mut v: Vec<char> = Vec::new();
    let mut i: usize = 0;
    while i < n
        invariant
            n == s@.len(),
            i <= n,
            v@ == s@.subrange(0, i as int),
        decreases n - i,
    {
        let c = s.get_char(i);
        v.push(c);
        proof {
            assert(v@ =~= s@.subrange(0, i + 1 as int));
        }
        i = i + 1;
    }
    proof {
        assert(v@ =~= s@);
    }
    v
}

/// Executable form of [`match_at`].
fn has_at(v: &Vec<char>, i: usize, pat: &Vec<char>) -> (b: bool)
    ensures
        b == match_at(v@, i as int, pat@),
{
    if pat.len() > v.len() || i > v.len() - pat.len() {
        proof {
            assert(!match_at(v@, i as int, pat@));
        }
        return false;
    }
    let mut k: usize = 0;
    while k < pat.len()
        invariant
            i + pat.len() <= v.len(),
            k <= pat.len(),
            forall|m: int| 0 <= m < k ==> v@[i + m] == pat@[m],
        decreases pat.len() - k,
    {
        if v[i + k] != pat[k] {
            proof {
                assert(v@.subrange(i as int, i + pat@.len() as int)[k as int] == v@[i + k]);
            }
            return false;
        }
        k = k + 1;
    }
    proof {
        assert(v@.subrange(i as int, i + pat@.len() as int) =~= pat@);
    }
    true
}

/// Executable form of [`digit_run_end`].
fn digit_end(v: &Vec<char>, i: usize) -> (j: usize)
    requires
        i <= v.len(),
    ensures
        i <= j <= v.len(),
        j == digit_run_end(v@, i as int),
        all_digits(v@, i as int, j as int),
{
    let mut cur = i;
    while cur < v.len() && digit_exec(v[cur])
        invariant
            i <= cur <= v.len(),
            digit_run_end(v@, i as int) == digit_run_end(v@, cur as int),
            all_digits(v@, i as int, cur as int),
        decreases v.len() - cur,
    {
        proof {
            assert(digit_run_end(v@, cur as int) == digit_run_end(v@, cur + 1 as int));
        }
        cur = cur + 1;
    }
    proof {
        assert(digit_run_end(v@, cur as int) == cur as int);
    }
    cur
}

/// Executable form of [`ws_run_end`].
fn ws_end(v: &Vec<char>, i: usize) -> (j: usize)
    requires
        i <= v.len(),
    ensures
        i <= j <= v.len(),
        j == ws_run_end(v@, i as int),
{
    let mut cur = i;
    while cur < v.len() && ws_exec(v[cur])
        invariant
            i <= cur <= v.len(),
            ws_run_end(v@, i as int) == ws_run_end(v@, cur as int),
        decreases v.len() - cur,
    {
        proof {
            assert(ws_run_end(v@, cur as int) == ws_run_end(v@, cur + 1 as int));
        }
        cur = cur + 1;
    }
    proof {
        assert(ws_run_end(v@, cur as int) == cur as int);
    }
    cur
}

/// Executable form of [`char_find`].
fn char_find_exec(v: &Vec<char>, i: usize, c: char) -> (r: Option<usize>)
    ensures
        match r {
            Some(j) => char_find(v@, i as int, c) == Some(j as int) && i <= j < v.len()
                && v@[j as int] == c,
            None => char_find(v@, i as int, c) is None,
        },
{
    let mut cur = i;
    while cur < v.len()
        invariant
            i <= cur,
            char_find(v@, i as int, c) == char_find(v@, cur as int, c),
        decreases v.len() - cur,
    {
        if v[cur] == c {
            return Some(cur);
        }
        proof {
            assert(char_find(v@, cur as int, c) == char_find(v@, cur + 1 as int, c));
        }
        cur = cur + 1;
    }
    proof {
        assert(char_find(v@, cur as int, c) is None);
    }
    None
}

/// Executable form of [`find_at`].
fn find_pat_exec(v: &Vec<char>, i: usize, pat: &Vec<char>) -> (r: Option<usize>)
    ensures
        match r {
            Some(j) => find_at(v@, i as int, pat@) == Some(j as int) && i <= j && j + pat@.len()
                <= v@.len() && match_at(v@, j as int, pat@),
            None => find_at(v@, i as int, pat@) is None,
        },
{
    if pat.len() > v.len() {
        proof {
            assert(find_at(v@, i as int, pat@) is None);
        }
        return None;
    }
    if pat.len() == 0 {
        if i <= v.len() {
            proof {
                assert(v@.subrange(i as int, i as int) =~= pat@);
            }
            return Some(i);
        } else {
            proof {
                assert(find_at(v@, i as int, pat@) is None);
            }
            return None;
        }
    }
    let last = v.len() - pat.len();
    let mut cur = i;
    while cur <= last
        invariant
            i <= cur,
            pat@.len() <= v@.len(),
            last == v@.len() - pat@.len(),
            last < usize::MAX,
            find_at(v@, i as int, pat@) == find_at(v@, cur as int, pat@),
        decreases last - cur + 1,
    {
        if has_at(v, cur, pat) {
            return Some(cur);
        }
        proof {
            assert(find_at(v@, cur as int, pat@) == find_at(v@, cur + 1 as int, pat@));
        }
        cur = cur + 1;
    }
    proof {
        assert(find_at(v@, cur as int, pat@) is None);
    }
    None
}

/// Executable form of [`find_ws_then`].
fn find_ws_then_exec(v: &Vec<char>, i: usize, pat: &Vec<char>) -> (r: Option<usize>)
    ensures
        match r {
            Some(j) => find_ws_then(v@, i as int, pat@) == Some(j as int) && i <= j < v@.len()
                && is_ws_char(v@[j as int]) && match_at(v@, j + 1 as int, pat@),
            None => find_ws_then(v@, i as int, pat@) is None,
        },
{
    let mut cur = i;
    while cur < v.len()
        invariant
            i <= cur,
            find_ws_then(v@, i as int, pat@) == find_ws_then(v@, cur as int, pat@),
        decreases v.len() - cur,
    {
        if ws_exec(v[cur]) && has_at(v, cur + 1, pat) {
            return Some(cur);
        }
        proof {
            assert(find_ws_then(v@, cur as int, pat@) == find_ws_then(v@, cur + 1 as int, pat@));
        }
        cur = cur + 1;
    }
    proof {
        assert(find_ws_then(v@, cur as int, pat@) is None);
    }
    None
}

// ---------------------------------------------------------------------
// Numeric field parsing and validation.
// ---------------------------------------------------------------------

/// A digit run's value is nonnegative.
proof fn lemma_digits_val_nonneg(s: Seq<char>, i: int, j: int)
    requires
        all_digits(s, i, j),
    ensures
        digits_val(s, i, j) >= 0,
    decreases j - i,
{
    if i < j {
        lemma_digits_val_nonneg(s, i, j - 1);
    }
}

/// Extending a digit run never shrinks its value.
proof fn lemma_digits_val_mono(s: Seq<char>, i: int, j: int, j2: int)
    requires
        i <= j <= j2,
        all_digits(s, i, j2),
    ensures
        digits_val(s, i, j2) >= digits_val(s, i, j),
    decreases j2 - j,
{
    if j2 > j {
        lemma_digits_val_mono(s, i, j, j2 - 1);
        lemma_digits_val_nonneg(s, i, j2 - 1);
    }
}

/// Value of the digit run `v[i..j)`, or nothing when it exceeds `u64`.
fn parse_u64(v: &Vec<char>, i: usize, j: usize) -> (r: Option<u64>)
    requires
        i <= j <= v.len(),
        all_digits(v@, i as int, j as int),
    ensures
        match r {
            Some(x) => x as int == digits_val(v@, i as int, j as int),
            None => digits_val(v@, i as int, j as int) > u64::MAX,
        },
{
    let limit: u64 = u64::MAX / 10;
    let mut acc: u64 = 0;
    let mut cur = i;
    while cur < j
        invariant
            i <= cur <= j <= v.len(),
            all_digits(v@, i as int, j as int),
            limit == u64::MAX / 10,
            acc as int == digits_val(v@, i as int, cur as int),
        decreases j - cur,
    {
        let u = v[cur] as u32;
        proof {
            assert(is_digit_char(v@[cur as int]));
        }
        let d = (u - 48) as u64;
        proof {
            assert(digits_val(v@, i as int, cur + 1 as int) == digits_val(v@, i as int, cur as int)
                * 10 + (v@[cur as int] as int - '0' as int));
        }
        if acc > limit || (acc == limit && d > 5) {
            proof {
                assert(digits_val(v@, i as int, cur + 1 as int) > u64::MAX);
                lemma_digits_val_mono(v@, i as int, cur + 1 as int, j as int);
            }
            return None;
        }
        acc = acc * 10 + d;
        cur = cur + 1;
    }
    Some(acc)
}

/// Executable form of [`dot_in`].
fn dot_in_exec(v: &Vec<char>, i: usize, j: usize) -> (r: Option<usize>)
    requires
        j <= v.len(),
    ensures
        match r {
            Some(p) => dot_in(v@, i as int, j as int) == Some(p as int) && i <= p < j,
            None => dot_in(v@, i as int, j as int) is None,
        },
{
    let mut cur = i;
    while cur < j
        invariant
            i <= cur,
            j <= v.len(),
            dot_in(v@, i as int, j as int) == dot_in(v@, cur as int, j as int),
        decreases j - cur,
    {
        if v[cur] == '.' {
            return Some(cur);
        }
        proof {
            assert(dot_in(v@, cur as int, j as int) == dot_in(v@, cur + 1 as int, j as int));
        }
        cur = cur + 1;
    }
    proof {
        assert(dot_in(v@, cur as int, j as int) is None);
    }
    None
}

/// Executable form of [`all_digits`].
fn all_digits_exec(v: &Vec<char>, i: usize, j: usize) -> (b: bool)
    requires
        j <= v.len(),
    ensures
        b == all_digits(v@, i as int, j as int),
{
    let mut cur = i;
    while cur < j
        invariant
            i <= cur,
            j <= v.len(),
            forall|k: int| i <= k < cur ==> is_digit_char(v@[k]),
        decreases j - cur,
    {
        if !digit_exec(v[cur]) {
            return false;
        }
        cur = cur + 1;
    }
    true
}

/// Executable form of [`decimal_range`].
fn decimal_check(v: &Vec<char>, i: usize, j: usize) -> (b: bool)
    requires
        i <= j <= v.len(),
    ensures
        b == decimal_range(v@, i as int, j as int),
{
    if i == j {
        return false;
    }
    match dot_in_exec(v, i, j) {
        None => all_digits_exec(v, i, j),
        Some(p) => {
            let before = all_digits_exec(v, i, p);
            let after = all_digits_exec(v, p + 1, j);
            before && after && (p > i || p + 1 < j)
        },
    }
}

// ---------------------------------------------------------------------
// Executable statistics matching.
// ---------------------------------------------------------------------

/// The literal tokens of the two grammars, held as character vectors.
struct Pats {
    tasks: Vec<char>,
    mem: Vec<char>,
    targets: Vec<char>,
    attempts: Vec<char>,
    done: Vec<char>,
    errors: Vec<char>,
    speed: Vec<char>,
    reqs: Vec<char>,
    pct_close: Vec<char>,
}

/// Each token vector holds exactly its literal.
spec fn pats_ok(p: Pats) -> bool {
    &&& p.tasks@ == "tasks="@
    &&& p.mem@ == "mem="@
    &&& p.targets@ == "targets="@
    &&& p.attempts@ == "attempts="@
    &&& p.done@ == "done="@
    &&& p.errors@ == "errors="@
    &&& p.speed@ == "speed="@
    &&& p.reqs@ == " reqs/s"@
    &&& p.pct_close@ == "%)"@
}

fn pats_new() -> (p: Pats)
    ensures
        pats_ok(p),
{
    Pats {
        tasks: chars_of("tasks="),
        mem: chars_of("mem="),
        targets: chars_of("targets="),
        attempts: chars_of("attempts="),
        done: chars_of("done="),
        errors: chars_of("errors="),
        speed: chars_of("speed="),
        reqs: chars_of(" reqs/s"),
        pct_close: chars_of("%)"),
    }
}

/// Field boundaries of a structurally matched statistics line, as the
/// executable matcher returns them.
pub struct StatsIdx {
    pub tasks: (usize, usize),
    pub mem: (usize, usize),
    pub targets: (usize, usize),
    pub attempts: (usize, usize),
    pub done: (usize, usize),
    pub pct: (usize, usize),
    pub errors: Option<(usize, usize)>,
    pub speed: (usize, usize),
}

impl View for StatsIdx {
    type V = StatsSpan;

    open spec fn view(&self) -> StatsSpan {
        StatsSpan {
            tasks: (self.tasks.0 as int, self.tasks.1 as int),
            mem: (self.mem.0 as int, self.mem.1 as int),
            targets: (self.targets.0 as int, self.targets.1 as int),
            attempts: (self.attempts.0 as int, self.attempts.1 as int),
            done: (self.done.0 as int, self.done.1 as int),
            pct: (self.pct.0 as int, self.pct.1 as int),
            errors: match self.errors {
                Some(e) => Some((e.0 as int, e.1 as int)),
                None => None,
            },
            speed: (self.speed.0 as int, self.speed.1 as int),
        }
    }
}

/// The boundaries are ordered, lie inside `s`, and every numeric span
/// holds digits only.
spec fn idx_wf(x: StatsIdx, s: Seq<char>) -> bool {
    &&& x.tasks.0 <= x.tasks.1 <= s.len()
    &&& x.mem.0 <= x.mem.1 <= s.len()
    &&& x.targets.0 <= x.targets.1 <= s.len()
    &&& x.attempts.0 <= x.attempts.1 <= s.len()
    &&& x.done.0 <= x.done.1 <= s.len()
    &&& x.pct.0 <= x.pct.1 <= s.len()
    &&& x.speed.0 <= x.speed.1 <= s.len()
    &&& all_digits(s, x.tasks.0 as int, x.tasks.1 as int)
    &&& all_digits(s, x.targets.0 as int, x.targets.1 as int)
    &&& all_digits(s, x.attempts.0 as int, x.attempts.1 as int)
    &&& all_digits(s, x.done.0 as int, x.done.1 as int)
    &&& match x.errors {
        Some(e) => e.0 <= e.1 <= s.len() && all_digits(s, e.0 as int, e.1 as int),
        None => true,
    }
}

/// Executable form of [`speed_after`].
fn speed_after_exec(v: &Vec<char>, e: usize, p: &Pats) -> (r: Option<(usize, usize)>)
    requires
        pats_ok(*p),
    ensures
        match r {
            Some(sp) => speed_after(v@, e as int) == Some((sp.0 as int, sp.1 as int)) && sp.0
                <= sp.1 <= v@.len(),
            None => speed_after(v@, e as int) is None,
        },
{
    let n = v.len();
    if !(e < n && ws_exec(v[e]) && has_at(v, e + 1, &p.speed)) {
        return None;
    }
    let s0 = e + 1 + p.speed.len();
    match find_pat_exec(v, s0, &p.reqs) {
        None => None,
        Some(s1) => if s1 == s0 {
            None
        } else {
            Some((s0, s1))
        },
    }
}

/// Executable form of [`errors_speed_after`].
fn errors_speed_exec(v: &Vec<char>, q: usize, p: &Pats) -> (r: Option<
    (Option<(usize, usize)>, (usize, usize)),
>)
    requires
        pats_ok(*p),
    ensures
        match r {
            Some(pair) => errors_speed_after(v@, q as int) == Some(
                (
                    match pair.0 {
                        Some(e) => Some((e.0 as int, e.1 as int)),
                        None => None,
                    },
                    (pair.1.0 as int, pair.1.1 as int),
                ),
            ) && pair.1.0 <= pair.1.1 <= v@.len() && match pair.0 {
                Some(e) => e.0 <= e.1 <= v@.len() && all_digits(v@, e.0 as int, e.1 as int),
                None => true,
            },
            None => errors_speed_after(v@, q as int) is None,
        },
{
    let n = v.len();
    let with_errors: Option<(Option<(usize, usize)>, (usize, usize))> = if q < n && ws_exec(v[q])
        && has_at(v, q + 1, &p.errors) {
        let e0 = q + 1 + p.errors.len();
        let e1 = digit_end(v, e0);
        if e1 > e0 {
            match speed_after_exec(v, e1, p) {
                None => None,
                Some(sp) => Some((Some((e0, e1)), sp)),
            }
        } else {
            None
        }
    } else {
        None
    };
    match with_errors {
        Some(r) => Some(r),
        None => match speed_after_exec(v, q, p) {
            None => None,
            Some(sp) => Some((None, sp)),
        },
    }
}

/// Executable form of [`stats_at`].
fn stats_at_exec(v: &Vec<char>, i: usize, p: &Pats) -> (r: Option<StatsIdx>)
    requires
        pats_ok(*p),
    ensures
        match r {
            Some(x) => stats_at(v@, i as int) == Some(x@) && idx_wf(x, v@),
            None => stats_at(v@, i as int) is None,
        },
{
    let n = v.len();
    if !has_at(v, i, &p.tasks) {
        return None;
    }
    let d0 = i + p.tasks.len();
    let d1 = digit_end(v, d0);
    if d1 == d0 {
        return None;
    }
    let w1 = ws_end(v, d1);
    if w1 == d1 || !has_at(v, w1, &p.mem) {
        return None;
    }
    let m0 = w1 + p.mem.len();
    let mj = match find_ws_then_exec(v, m0, &p.targets) {
        None => {
            return None;
        },
        Some(mj) => mj,
    };
    if mj == m0 {
        return None;
    }
    let t0 = mj + 1 + p.targets.len();
    let t1 = digit_end(v, t0);
    if t1 == t0 || !(t1 < n && ws_exec(v[t1]) && has_at(v, t1 + 1, &p.attempts)) {
        return None;
    }
    let a0 = t1 + 1 + p.attempts.len();
    let a1 = digit_end(v, a0);
    if a1 == a0 || !(a1 < n && ws_exec(v[a1]) && has_at(v, a1 + 1, &p.done)) {
        return None;
    }
    let o0 = a1 + 1 + p.done.len();
    let o1 = digit_end(v, o0);
    if o1 == o0 || !(o1 < n && ws_exec(v[o1]) && o1 + 1 < n && v[o1 + 1] == '(') {
        return None;
    }
    let p0 = o1 + 2;
    let p1 = match find_pat_exec(v, p0, &p.pct_close) {
        None => {
            return None;
        },
        Some(p1) => p1,
    };
    if p1 == p0 {
        return None;
    }
    let q = p1 + p.pct_close.len();
    match errors_speed_exec(v, q, p) {
        None => None,
        Some((er, sp)) => Some(
            StatsIdx {
                tasks: (d0, d1),
                mem: (m0, mj),
                targets: (t0, t1),
                attempts: (a0, a1),
                done: (o0, o1),
                pct: (p0, p1),
                errors: er,
                speed: sp,
            },
        ),
    }
}

/// Executable form of [`stats_search`], from the start of the line.
fn stats_search_exec(v: &Vec<char>, p: &Pats) -> (r: Option<StatsIdx>)
    requires
        pats_ok(*p),
    ensures
        match r {
            Some(x) => stats_search(v@, 0) == Some(x@) && idx_wf(x, v@),
            None => stats_search(v@, 0) is None,
        },
{
    let mut cur: usize = 0;
    while cur < v.len()
        invariant
            pats_ok(*p),
            stats_search(v@, 0) == stats_search(v@, cur as int),
        decreases v.len() - cur,
    {
        match stats_at_exec(v, cur, p) {
            Some(x) => {
                return Some(x);
            },
            None => {
                proof {
                    assert(stats_search(v@, cur as int) == stats_search(v@, cur + 1 as int));
                }
                cur = cur + 1;
            },
        }
    }
    proof {
        assert(stats_search(v@, cur as int) is None);
    }
    None
}

// ---------------------------------------------------------------------
// Executable finding matching.
// ---------------------------------------------------------------------

/// Field boundaries of a matched finding line, as the executable
/// matcher returns them.
pub struct LootIdx {
    pub found_at: (usize, usize),
    pub plugin: (usize, usize),
    pub target: Option<(usize, usize)>,
    pub data0: usize,
}

impl View for LootIdx {
    type V = LootSpan;

    open spec fn view(&self) -> LootSpan {
        LootSpan {
            found_at: (self.found_at.0 as int, self.found_at.1 as int),
            plugin: (self.plugin.0 as int, self.plugin.1 as int),
            target: match self.target {
                Some(t) => Some((t.0 as int, t.1 as int)),
                None => None,
            },
            data0: self.data0 as int,
        }
    }
}

/// The boundaries are ordered and lie inside `s`.
spec fn lidx_wf(x: LootIdx, s: Seq<char>) -> bool {
    &&& x.found_at.0 <= x.found_at.1 <= s.len()
    &&& x.plugin.0 <= x.plugin.1 <= s.len()
    &&& match x.target {
        Some(tg) => tg.0 <= tg.1 <= s.len(),
        None => true,
    }
    &&& x.data0 <= s.len()
}

/// Executable form of [`loot_at`].
fn loot_at_exec(v: &Vec<char>, i: usize) -> (r: Option<LootIdx>)
    ensures
        match r {
            Some(x) => loot_at(v@, i as int) == Some(x@) && lidx_wf(x, v@),
            None => loot_at(v@, i as int) is None,
        },
{
    let n = v.len();
    if !(i < n && v[i] == '[') {
        return None;
    }
    let f1 = match char_find_exec(v, i + 1, ']') {
        None => {
            return None;
        },
        Some(f1) => f1,
    };
    if f1 == i + 1 {
        return None;
    }
    let g = f1 + 1;
    if !(g < n && ws_exec(v[g]) && g + 1 < n && v[g + 1] == '(') {
        return None;
    }
    let p0 = g + 2;
    let p1 = match char_find_exec(v, p0, ')') {
        None => {
            return None;
        },
        Some(p1) => p1,
    };
    if p1 == p0 {
        return None;
    }
    let q = p1 + 1;
    let with_target: Option<LootIdx> = if q < n && ws_exec(v[q]) && q + 1 < n && v[q + 1] == '<' {
        match char_find_exec(v, q + 2, '>') {
            None => None,
            Some(t1) => if t1 == q + 2 {
                None
            } else {
                if t1 + 1 < n && ws_exec(v[t1 + 1]) && t1 + 2 < n {
                    Some(
                        LootIdx {
                            found_at: (i + 1, f1),
                            plugin: (p0, p1),
                            target: Some((q + 2, t1)),
                            data0: t1 + 2,
                        },
                    )
                } else {
                    None
                }
            },
        }
    } else {
        None
    };
    match with_target {
        Some(x) => Some(x),
        None => {
            if q < n && ws_exec(v[q]) && q + 1 < n {
                Some(LootIdx { found_at: (i + 1, f1), plugin: (p0, p1), target: None, data0: q + 1 })
            } else {
                None
            }
        },
    }
}

/// Executable form of [`loot_search`], from the start of the line.
fn loot_search_exec(v: &Vec<char>) -> (r: Option<LootIdx>)
    ensures
        match r {
            Some(x) => loot_search(v@, 0) == Some(x@) && lidx_wf(x, v@),
            None => loot_search(v@, 0) is None,
        },
{
    let mut cur: usize = 0;
    while cur < v.len()
        invariant
            loot_search(v@, 0) == loot_search(v@, cur as int),
        decreases v.len() - cur,
    {
        match loot_at_exec(v, cur) {
            Some(x) => {
                return Some(x);
            },
            None => {
                proof {
                    assert(loot_search(v@, cur as int) == loot_search(v@, cur + 1 as int));
                }
                cur = cur + 1;
            },
        }
    }
    proof {
        assert(loot_search(v@, cur as int) is None);
    }
    None
}

// ---------------------------------------------------------------------
// Building records and trimming.
// ---------------------------------------------------------------------

/// Trim boundaries of `v`: first index past the leading whitespace and
/// end of the text before the trailing whitespace.
fn trim_bounds(v: &Vec<char>) -> (r: (usize, usize))
    ensures
        r.0 as int == trim_start_idx(v@, 0),
        r.1 as int == trim_end_idx(v@, v@.len() as int),
        r.0 <= v.len(),
        r.1 <= v.len(),
{
    let n = v.len();
    let mut a: usize = 0;
    while a < n && ws_exec(v[a])
        invariant
            a <= n,
            n == v@.len(),
            trim_start_idx(v@, 0) == trim_start_idx(v@, a as int),
        decreases n - a,
    {
        proof {
            assert(trim_start_idx(v@, a as int) == trim_start_idx(v@, a + 1 as int));
        }
        a = a + 1;
    }
    proof {
        assert(trim_start_idx(v@, a as int) == a as int);
    }
    let mut b: usize = n;
    while b > 0 && ws_exec(v[b - 1])
        invariant
            b <= n,
            n == v@.len(),
            trim_end_idx(v@, n as int) == trim_end_idx(v@, b as int),
        decreases b,
    {
        proof {
            assert(trim_end_idx(v@, b as int) == trim_end_idx(v@, b - 1 as int));
        }
        b = b - 1;
    }
    proof {
        assert(trim_end_idx(v@, b as int) == b as int);
    }
    (a, b)
}

/// The statistics record of a structurally matched line, if every
/// numeric field is in range.
fn stats_build(line: &str, v: &Vec<char>, x: &StatsIdx) -> (r: Option<Statistics>)
    requires
        v@ == line@,
        idx_wf(*x, v@),
    ensures
        match r {
            Some(st) => stats_of_span(v@, x@) == Some(st@),
            None => stats_of_span(v@, x@) is None,
        },
{
    let pct_ok = decimal_check(v, x.pct.0, x.pct.1);
    let speed_ok = decimal_check(v, x.speed.0, x.speed.1);
    if !(pct_ok && speed_ok) {
        return None;
    }
    let ip_end = match dot_in_exec(v, x.speed.0, x.speed.1) {
        None => x.speed.1,
        Some(dp) => dp,
    };
    let tasks = parse_u64(v, x.tasks.0, x.tasks.1);
    let targets = parse_u64(v, x.targets.0, x.targets.1);
    let attempts = parse_u64(v, x.attempts.0, x.attempts.1);
    let done = parse_u64(v, x.done.0, x.done.1);
    let errors = match x.errors {
        None => Some(0u64),
        Some(e) => parse_u64(v, e.0, e.1),
    };
    let speed = parse_u64(v, x.speed.0, ip_end);
    match (tasks, targets, attempts, done, errors, speed) {
        (Some(tv), Some(gv), Some(av), Some(dv), Some(ev), Some(sv)) => {
            let st = Statistics {
                tasks: tv,
                memory: line.substring_char(x.mem.0, x.mem.1).to_owned(),
                targets: gv,
                attempts: av,
                errors: ev,
                done: dv,
                done_percent: line.substring_char(x.pct.0, x.pct.1).to_owned(),
                reqs_per_sec: sv,
            };
            proof {
                assert(stats_of_span(v@, x@) == Some(st@));
            }
            Some(st)
        },
        _ => None,
    }
}

/// The finding record of a matched line.
fn loot_build(line: &str, v: &Vec<char>, x: &LootIdx) -> (l: Loot)
    requires
        v@ == line@,
        lidx_wf(*x, v@),
    ensures
        l@ == loot_of_span(v@, x@),
{
    let n = line.unicode_len();
    Loot {
        found_at: line.substring_char(x.found_at.0, x.found_at.1).to_owned(),
        plugin: line.substring_char(x.plugin.0, x.plugin.1).to_owned(),
        target: match x.target {
            Some(tg) => Some(line.substring_char(tg.0, tg.1).to_owned()),
            None => None,
        },
        data: line.substring_char(x.data0, n).to_owned(),
    }
}

// ---------------------------------------------------------------------
// The classifier.
// ---------------------------------------------------------------------

/// What stripping terminal escape sequences leaves of a text; the
/// result depends on the text alone.
pub uninterp spec fn strip_ansi_of(s: Seq<char>) -> Seq<char>;

/// Relies on strip_ansi_escapes::strip_str: it strips ANSI escape
/// sequences, computing from the input text alone.
#[verifier::external_body]
fn strip_line(line: &str) -> (r: String)
    ensures
        r@ == strip_ansi_of(line@),
{
    strip_ansi_escapes::strip_str(line)
}

/// Classifies one already-stripped line: exactly [`classification`] of
/// its text.
pub fn classify_stripped(line: &str) -> (c: LineClass)
    ensures
        c@ == classification(line@),
{
    let v = chars_of(line);
    let (a, b) = trim_bounds(&v);
    if a >= b {
        return LineClass::Empty;
    }
    let pats = pats_new();
    match stats_search_exec(&v, &pats) {
        Some(x) => match stats_build(line, &v, &x) {
            Some(st) => LineClass::Stats(st),
            None => LineClass::Raw(line.substring_char(a, b).to_owned()),
        },
        None => match loot_search_exec(&v) {
            Some(lx) => LineClass::Finding(loot_build(line, &v, &lx)),
            None => LineClass::Raw(line.substring_char(a, b).to_owned()),
        },
    }
}

/// Strips terminal escape sequences from a captured line, then
/// classifies what is left.
pub fn classify_line(line: &str) -> (c: LineClass)
    ensures
        c@ == classification(strip_ansi_of(line@)),
{
    let stripped = strip_line(line);
    classify_stripped(stripped.as_str())
}

/// A classified line, as the executable classifier returns it.
pub enum LineClass {
    Empty,
    Stats(Statistics),
    Finding(Loot),
    Raw(String),
}

impl View for LineClass {
    type V = LineClassV;

    open spec fn view(&self) -> LineClassV {
        match self {
            LineClass::Empty => LineClassV::Empty,
            LineClass::Stats(st) => LineClassV::Stats(st@),
            LineClass::Finding(l) => LineClassV::Finding(l@),
            LineClass::Raw(t) => LineClassV::Raw(t@),
        }
    }
}

} // verus!
