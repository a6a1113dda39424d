//! The library's general guarantees, each stated over the spec
//! functions that the public contracts use and proved once and for all.

use vstd::prelude::*;

use crate::classify::classification;
use crate::classify::loot_search;
use crate::classify::stats_search;
use crate::classify::trim_spec;
use crate::classify::LineClassV;
use crate::records::CompletionV;
use crate::records::LootV;
use crate::records::StatisticsV;
use crate::state::completion_step;
use crate::state::contains_id;
use crate::state::wrapper_apply;
use crate::state::WrapperV;

verus! {

/// One successful creation step of the registry, as the contract of
/// `State::start_new_session` states it: the issued identifier was not
/// registered before, and the new session is appended.
pub open spec fn create_step(pre: Seq<WrapperV>, post: Seq<WrapperV>, id: u128, w: WrapperV) -> bool {
    &&& !contains_id(pre, id)
    &&& w.session_id == id
    &&& post == pre.push(w)
}

/// A session identifier issued by one successful creation is present in
/// the registry from then on, and is never issued again by a later
/// successful creation, as long as the steps in between keep every
/// registered identifier (no operation of the registry removes one).
pub proof fn lemma_session_id_never_reused(
    pre1: Seq<WrapperV>,
    post1: Seq<WrapperV>,
    id1: u128,
    w1: WrapperV,
    pre2: Seq<WrapperV>,
    post2: Seq<WrapperV>,
    id2: u128,
    w2: WrapperV,
)
    requires
        create_step(pre1, post1, id1, w1),
        forall|x: u128| contains_id(post1, x) ==> contains_id(pre2, x),
        create_step(pre2, post2, id2, w2),
    ensures
        contains_id(post1, id1),
        contains_id(post2, id2),
        id2 != id1,
{
    assert(post1[post1.len() - 1].session_id == id1);
    assert(post2[post2.len() - 1].session_id == id2);
    assert(contains_id(pre2, id1));
}

/// Only the values of the latest statistics line are retained: feeding
/// two statistics updates in a row leaves exactly the second, with no
/// accumulation, and touches nothing else of the session.
pub proof fn lemma_latest_statistics_wins(w: WrapperV, st1: StatisticsV, st2: StatisticsV)
    ensures
        wrapper_apply(wrapper_apply(w, LineClassV::Stats(st1)), LineClassV::Stats(st2))
            == wrapper_apply(w, LineClassV::Stats(st2)),
        wrapper_apply(w, LineClassV::Stats(st2)) == (WrapperV { statistics: st2, ..w }),
{
}

/// A line that is whitespace-only after escape stripping produces no
/// record of any kind: it classifies as empty and leaves the session
/// unchanged.
pub proof fn lemma_blank_line_no_record(w: WrapperV, s: Seq<char>)
    requires
        trim_spec(s).len() == 0,
    ensures
        classification(s) == LineClassV::Empty,
        wrapper_apply(w, classification(s)) == w,
{
}

/// A nonempty line matching neither grammar becomes, trimmed, exactly
/// the next raw-output entry of a running session: appended at the end,
/// so per-stream arrival order is preserved.
pub proof fn lemma_unmatched_line_appends_raw(w: WrapperV, s: Seq<char>)
    requires
        trim_spec(s).len() > 0,
        stats_search(s, 0) is None,
        loot_search(s, 0) is None,
        w.completed is None,
    ensures
        classification(s) == LineClassV::Raw(trim_spec(s)),
        wrapper_apply(w, classification(s)) == (WrapperV { output: w.output.push(trim_spec(s)), ..w }),
{
}

/// A recognized finding line of a running session appends exactly one
/// record at the end of the findings, leaving every earlier finding and
/// every other field in place.
pub proof fn lemma_finding_appends_one(w: WrapperV, f: LootV)
    requires
        w.completed is None,
    ensures
        wrapper_apply(w, LineClassV::Finding(f)) == (WrapperV { loot: w.loot.push(f), ..w }),
        wrapper_apply(w, LineClassV::Finding(f)).loot.len() == w.loot.len() + 1,
        wrapper_apply(w, LineClassV::Finding(f)).loot[w.loot.len() as int] == f,
{
}

/// Completion is set at most once: the first recorded completion is
/// kept, and recording again — in any order of concurrent observers —
/// never overwrites it.
pub proof fn lemma_completion_set_once(w: WrapperV, c1: CompletionV, c2: CompletionV)
    requires
        w.completed is None,
    ensures
        completion_step(w, c1).completed == Some(c1),
        completion_step(completion_step(w, c1), c2) == completion_step(w, c1),
{
}

} // verus!
