//! Laws of the launch session: exhaustion tries every candidate in order,
//! a success short-circuits the search, and a success on the last candidate
//! comes only after every earlier candidate was attempted exactly once.

use vstd::prelude::*;

use crate::launcher::LaunchModel;
use crate::launcher::spec_exhausted_failure;
use crate::launcher::spec_success_message;

verus! {

/// Running attempts that all fail advances the cursor by one candidate per
/// event, touches the candidates in order, and finds no success.
proof fn lemma_failures_advance(m: LaunchModel, events: Seq<bool>)
    requires
        m.succeeded is None,
        forall|i: int| 0 <= i < events.len() ==> !events[i],
    ensures
        m.run(events) == (LaunchModel { tried: (m.tried + events.len()) as nat, ..m }),
        m.attempts(events) =~= Seq::new(events.len(), |i: int| (m.tried + i) as nat),
    decreases events.len(),
{
    if events.len() > 0 {
        let m1 = m.step(events[0]);
        lemma_failures_advance(m1, events.drop_first());
    }
}

/// Running one attempt list after another runs them in order from where the
/// first left off.
proof fn lemma_run_append(m: LaunchModel, a: Seq<bool>, b: Seq<bool>)
    ensures
        m.run(a + b) == m.run(a).run(b),
        m.attempts(a + b) =~= m.attempts(a) + m.run(a).attempts(b),
    decreases a.len(),
{
    if a.len() == 0 {
        assert(a + b =~= b);
    } else {
        let m1 = m.step(a[0]);
        assert((a + b)[0] == a[0]);
        assert((a + b).drop_first() =~= a.drop_first() + b);
        lemma_run_append(m1, a.drop_first(), b);
    }
}

/// Exhaustion law: when no candidate spawns, the launcher attempts every
/// candidate exactly once, in declared order — no prefix of the run is
/// finished early — and only then reports the exhaustion failure.
pub proof fn lemma_exhaustion(m: LaunchModel, events: Seq<bool>)
    requires
        m.wf(),
        m.tried == 0,
        m.succeeded is None,
        events.len() == m.candidates.len(),
        forall|i: int| 0 <= i < events.len() ==> !events[i],
    ensures
        m.attempts(events) =~= Seq::new(m.candidates.len(), |i: int| i as nat),
        m.run(events).finished(),
        m.run(events).succeeded is None,
        m.run(events).outcome() == Some(Err::<Seq<char>, Seq<char>>(spec_exhausted_failure())),
        forall|k: int| 0 <= k < events.len() ==> !(#[trigger] m.run(events.take(k))).finished(),
{
    lemma_failures_advance(m, events);
    assert forall|k: int| 0 <= k < events.len() implies !(#[trigger] m.run(
        events.take(k),
    )).finished() by {
        lemma_failures_advance(m, events.take(k));
    }
}

/// First-success short-circuit law: when the candidate at the cursor spawns,
/// the session finishes at once with that candidate's success message; a
/// finished session offers no further candidate (`next_interpreter` returns
/// `None`) and accepts no further attempt (`record_attempt` requires an
/// unfinished session), so later candidates are never attempted.
pub proof fn lemma_first_success_short_circuits(m: LaunchModel)
    requires
        m.wf(),
        m.succeeded is None,
        m.tried < m.candidates.len(),
    ensures
        m.step(true).wf(),
        m.step(true).finished(),
        m.step(true).outcome() == Some(
            Ok::<Seq<char>, Seq<char>>(spec_success_message(m.candidates[m.tried as int])),
        ),
        m.attempts(seq![true]) =~= seq![m.tried],
{
    let s = seq![true];
    let e = Seq::<bool>::empty();
    assert(s.drop_first() =~= e);
    assert(m.attempts(s) == seq![m.tried] + m.step(true).attempts(s.drop_first()));
    assert(m.step(true).attempts(e) =~= Seq::<nat>::empty());
}

/// Last-candidate law: when only the last candidate spawns, every earlier
/// candidate is attempted exactly once, in declared order — no prefix of the
/// run is finished early — and the result names the last candidate.
pub proof fn lemma_last_candidate_success(m: LaunchModel, events: Seq<bool>)
    requires
        m.wf(),
        m.tried == 0,
        m.succeeded is None,
        events.len() == m.candidates.len(),
        events.len() > 0,
        forall|i: int| 0 <= i < events.len() - 1 ==> !events[i],
        events.last(),
    ensures
        m.attempts(events) =~= Seq::new(m.candidates.len(), |i: int| i as nat),
        m.run(events).finished(),
        m.run(events).succeeded == Some((m.candidates.len() - 1) as nat),
        m.run(events).outcome() == Some(
            Ok::<Seq<char>, Seq<char>>(
                spec_success_message(m.candidates[m.candidates.len() - 1]),
            ),
        ),
        forall|k: int| 0 <= k < events.len() ==> !(#[trigger] m.run(events.take(k))).finished(),
{
    let n = events.len() as int;
    let a = events.take(n - 1);
    let b = seq![events[n - 1]];
    assert(events =~= a + b);
    lemma_run_append(m, a, b);
    lemma_failures_advance(m, a);
    let m1 = m.run(a);
    let e = Seq::<bool>::empty();
    assert(b.drop_first() =~= e);
    assert(m1.run(b) == m1.step(true).run(b.drop_first()));
    assert(m1.step(true).run(e) == m1.step(true));
    assert(m1.attempts(b) == seq![m1.tried] + m1.step(true).attempts(b.drop_first()));
    assert(m1.step(true).attempts(e) =~= Seq::<nat>::empty());
    assert(m.attempts(events) =~= Seq::new(m.candidates.len(), |i: int| i as nat));
    assert forall|k: int| 0 <= k < events.len() implies !(#[trigger] m.run(
        events.take(k),
    )).finished() by {
        lemma_failures_advance(m, events.take(k));
    }
}

} // verus!
