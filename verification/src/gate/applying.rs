use crate::error::ErrorView;
use crate::gate::profile::{apply_next, plan_at, planned, BindingView, ProfileView, StepView};
use vstd::prelude::*;

verus! {

/// How applying a profile runs from `step` on, when the cluster answers the
/// upserts with `outcomes`, one after the other: the bindings that are
/// upserted, by their place in the profile, and the step at which the run
/// ends, or stands when the answers run out.
pub open spec fn run_from(
    profile: ProfileView,
    step: StepView,
    outcomes: Seq<Result<(), ErrorView>>,
) -> (Seq<int>, StepView)
    decreases outcomes.len(),
{
    match step {
        StepView::Upsert { index, request } => if outcomes.len() == 0 {
            (seq![index], step)
        } else {
            let rest = run_from(
                profile,
                apply_next(profile, index, outcomes[0]),
                outcomes.drop_first(),
            );
            (seq![index] + rest.0, rest.1)
        },
        _ => (Seq::empty(), step),
    }
}

/// How applying a profile runs from its start.
pub open spec fn run(profile: ProfileView, outcomes: Seq<Result<(), ErrorView>>) -> (
    Seq<int>,
    StepView,
) {
    run_from(profile, plan_at(profile, 0), outcomes)
}

/// Whether every binding of a profile has the identity that its scope asks for.
pub open spec fn all_identified(profile: ProfileView) -> bool {
    forall|i: int| 0 <= i < profile.resources.len() ==> (#[trigger] planned(
        profile.resources[i],
    )) is Ok
}

/// Whether every answer is a success.
pub open spec fn all_ok(outcomes: Seq<Result<(), ErrorView>>) -> bool {
    forall|i: int| 0 <= i < outcomes.len() ==> (#[trigger] outcomes[i]) is Ok
}

proof fn lemma_run_in_order(
    profile: ProfileView,
    start: int,
    outcomes: Seq<Result<(), ErrorView>>,
)
    requires
        0 <= start <= profile.resources.len(),
    ensures
        ({
            let upserts = run_from(profile, plan_at(profile, start), outcomes).0;
            &&& upserts.len() <= outcomes.len() + 1
            &&& start + upserts.len() <= profile.resources.len()
            &&& forall|i: int| 0 <= i < upserts.len() ==> upserts[i] == start + i
        }),
    decreases outcomes.len(),
{
    let step = plan_at(profile, start);
    if step is Upsert && outcomes.len() > 0 {
        let next = apply_next(profile, start, outcomes[0]);
        if outcomes[0] is Ok {
            lemma_run_in_order(profile, start + 1, outcomes.drop_first());
        } else {
            assert(run_from(profile, next, outcomes.drop_first()).0 =~= Seq::<int>::empty());
        }
    }
}

proof fn lemma_run_stops(
    profile: ProfileView,
    start: int,
    outcomes: Seq<Result<(), ErrorView>>,
    k: int,
)
    requires
        0 <= start <= profile.resources.len(),
        0 <= k < outcomes.len(),
        outcomes[k] is Err,
    ensures
        run_from(profile, plan_at(profile, start), outcomes).0.len() <= k + 1,
        run_from(profile, plan_at(profile, start), outcomes).1 !is Upsert,
        run_from(profile, plan_at(profile, start), outcomes).1 is Finished ==> start
            + run_from(profile, plan_at(profile, start), outcomes).0.len()
            == profile.resources.len() && run_from(
            profile,
            plan_at(profile, start),
            outcomes,
        ).0.len() <= k,
    decreases outcomes.len(),
{
    let step = plan_at(profile, start);
    if step is Upsert {
        let next = apply_next(profile, start, outcomes[0]);
        if outcomes[0] is Ok {
            assert(k > 0);
            lemma_run_stops(profile, start + 1, outcomes.drop_first(), k - 1);
        } else {
            assert(run_from(profile, next, outcomes.drop_first()).0 =~= Seq::<int>::empty());
        }
    }
}

/// The bindings of a profile are taken up in their order, none twice and
/// none skipped, and each upsert but the first follows an answer.
pub proof fn lemma_applied_in_order(profile: ProfileView, outcomes: Seq<Result<(), ErrorView>>)
    ensures
        run(profile, outcomes).0.len() <= outcomes.len() + 1,
        run(profile, outcomes).0.len() <= profile.resources.len(),
        forall|i: int| 0 <= i < run(profile, outcomes).0.len() ==> run(profile, outcomes).0[i] == i,
{
    lemma_run_in_order(profile, 0, outcomes);
}

/// Once an upsert has failed no further binding is taken up: where the
/// answer to upsert number `k` is a failure, at most the bindings up to place
/// `k` are upserted, and the run ends, with an error unless the profile was
/// through before that answer was needed.
pub proof fn lemma_stops_at_first_failure(
    profile: ProfileView,
    outcomes: Seq<Result<(), ErrorView>>,
    k: int,
)
    requires
        0 <= k < outcomes.len(),
        outcomes[k] is Err,
    ensures
        run(profile, outcomes).0.len() <= k + 1,
        forall|i: int| 0 <= i < run(profile, outcomes).0.len() ==> run(profile, outcomes).0[i] <= k,
        run(profile, outcomes).1 is Abort || (run(profile, outcomes).1 is Finished
            && profile.resources.len() <= k),
{
    lemma_run_in_order(profile, 0, outcomes);
    lemma_run_stops(profile, 0, outcomes, k);
}

/// Where the cluster keeps a binding: its namespace, where it has one, and
/// its name.
pub open spec fn place_of(binding: BindingView) -> (Option<Seq<char>>, Seq<char>) {
    (planned(binding)->Ok_0.namespace, planned(binding)->Ok_0.name)
}

/// A store of bindings after it took the upserts of `bindings`, in their
/// order: each binding stands at its place, where it replaced what stood
/// there.
pub open spec fn stored(
    store: Map<(Option<Seq<char>>, Seq<char>), BindingView>,
    bindings: Seq<BindingView>,
) -> Map<(Option<Seq<char>>, Seq<char>), BindingView>
    decreases bindings.len(),
{
    if bindings.len() == 0 {
        store
    } else {
        stored(store, bindings.drop_last()).insert(place_of(bindings.last()), bindings.last())
    }
}

/// How many upserts of a run took effect: all that were made, but for a last
/// one that failed or was not answered.
pub open spec fn took_effect(profile: ProfileView, outcomes: Seq<Result<(), ErrorView>>) -> nat {
    let made = run(profile, outcomes).0.len();
    if made == 0 {
        0
    } else if made <= outcomes.len() && outcomes[made - 1] is Ok {
        made
    } else {
        (made - 1) as nat
    }
}

/// The store after applying a profile to it, when the cluster answers the
/// upserts with `outcomes`.
pub open spec fn store_after(
    store: Map<(Option<Seq<char>>, Seq<char>), BindingView>,
    profile: ProfileView,
    outcomes: Seq<Result<(), ErrorView>>,
) -> Map<(Option<Seq<char>>, Seq<char>), BindingView> {
    stored(store, profile.resources.take(took_effect(profile, outcomes) as int))
}

/// Whether one of `bindings` stands at `place`.
pub open spec fn places(bindings: Seq<BindingView>, place: (Option<Seq<char>>, Seq<char>)) -> bool {
    exists|i: int| 0 <= i < bindings.len() && place_of(#[trigger] bindings[i]) == place
}

/// Whether two stores hold the same at `place`.
pub open spec fn same_at(
    a: Map<(Option<Seq<char>>, Seq<char>), BindingView>,
    b: Map<(Option<Seq<char>>, Seq<char>), BindingView>,
    place: (Option<Seq<char>>, Seq<char>),
) -> bool {
    a.dom().contains(place) == b.dom().contains(place) && (a.dom().contains(place) ==> a[place]
        == b[place])
}

proof fn lemma_places_front(bindings: Seq<BindingView>, place: (Option<Seq<char>>, Seq<char>))
    requires
        bindings.len() > 0,
        place != place_of(bindings.last()),
    ensures
        places(bindings, place) == places(bindings.drop_last(), place),
{
    let front = bindings.drop_last();
    if places(bindings, place) {
        let i = choose|i: int| 0 <= i < bindings.len() && place_of(#[trigger] bindings[i]) == place;
        assert(front[i] == bindings[i]);
    }
    if places(front, place) {
        let i = choose|i: int| 0 <= i < front.len() && place_of(#[trigger] front[i]) == place;
        assert(front[i] == bindings[i]);
    }
}

/// Upserts leave alone what stands where none of them goes.
proof fn lemma_stored_elsewhere(
    store: Map<(Option<Seq<char>>, Seq<char>), BindingView>,
    bindings: Seq<BindingView>,
    place: (Option<Seq<char>>, Seq<char>),
)
    requires
        !places(bindings, place),
    ensures
        same_at(stored(store, bindings), store, place),
    decreases bindings.len(),
{
    if bindings.len() > 0 {
        assert(place_of(bindings[bindings.len() - 1]) != place);
        lemma_places_front(bindings, place);
        lemma_stored_elsewhere(store, bindings.drop_last(), place);
    }
}

/// What upserts leave at a place where one of them goes does not depend on
/// what stood there before, nor on anything else in the store.
proof fn lemma_stored_overwrites(
    a: Map<(Option<Seq<char>>, Seq<char>), BindingView>,
    b: Map<(Option<Seq<char>>, Seq<char>), BindingView>,
    bindings: Seq<BindingView>,
    place: (Option<Seq<char>>, Seq<char>),
)
    requires
        places(bindings, place) || same_at(a, b, place),
    ensures
        same_at(stored(a, bindings), stored(b, bindings), place),
    decreases bindings.len(),
{
    if bindings.len() > 0 {
        if place != place_of(bindings.last()) {
            lemma_places_front(bindings, place);
            lemma_stored_overwrites(a, b, bindings.drop_last(), place);
        }
    } else {
        assert(!places(bindings, place));
    }
}

/// Upserting the same bindings a second time changes nothing.
pub proof fn lemma_stored_twice(
    store: Map<(Option<Seq<char>>, Seq<char>), BindingView>,
    bindings: Seq<BindingView>,
)
    ensures
        stored(stored(store, bindings), bindings) == stored(store, bindings),
{
    let once = stored(store, bindings);
    let twice = stored(once, bindings);
    assert forall|place: (Option<Seq<char>>, Seq<char>)|
        (#[trigger] twice.dom().contains(place)) == once.dom().contains(place) && (
        twice.dom().contains(place) ==> twice[place] == once[place]) by {
        if !places(bindings, place) {
            lemma_stored_elsewhere(store, bindings, place);
        }
        lemma_stored_overwrites(once, store, bindings, place);
        assert(same_at(twice, once, place));
    }
    assert(twice =~= once);
}

proof fn lemma_run_through(
    profile: ProfileView,
    start: int,
    outcomes: Seq<Result<(), ErrorView>>,
)
    requires
        0 <= start <= profile.resources.len(),
        all_identified(profile),
        all_ok(outcomes),
        outcomes.len() >= profile.resources.len() - start,
    ensures
        run_from(profile, plan_at(profile, start), outcomes).0.len() == profile.resources.len()
            - start,
        run_from(profile, plan_at(profile, start), outcomes).1 is Finished,
    decreases outcomes.len(),
{
    if start < profile.resources.len() {
        assert(planned(profile.resources[start]) is Ok);
        assert(outcomes[0] is Ok);
        let rest = outcomes.drop_first();
        assert forall|i: int| 0 <= i < rest.len() implies (#[trigger] rest[i]) is Ok by {
            assert(rest[i] == outcomes[i + 1]);
        }
        lemma_run_through(profile, start + 1, rest);
    }
}

/// A profile whose bindings all have their identity goes through without an
/// error against a cluster that takes every upsert, each time it is applied;
/// and the second time leaves the store as the first time left it.
pub proof fn lemma_applying_twice(
    store: Map<(Option<Seq<char>>, Seq<char>), BindingView>,
    profile: ProfileView,
    first: Seq<Result<(), ErrorView>>,
    second: Seq<Result<(), ErrorView>>,
)
    requires
        all_identified(profile),
        all_ok(first),
        all_ok(second),
        first.len() >= profile.resources.len(),
        second.len() >= profile.resources.len(),
    ensures
        run(profile, first).1 is Finished,
        run(profile, second).1 is Finished,
        store_after(store, profile, first) == stored(store, profile.resources),
        store_after(store_after(store, profile, first), profile, second) == store_after(
            store,
            profile,
            first,
        ),
{
    lemma_run_through(profile, 0, first);
    lemma_run_through(profile, 0, second);
    let n = profile.resources.len() as int;
    assert(profile.resources.take(n) =~= profile.resources);
    if n > 0 {
        assert(first[n - 1] is Ok);
        assert(second[n - 1] is Ok);
    }
    lemma_stored_twice(store, profile.resources);
}

} // verus!
