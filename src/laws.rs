//! What holds across calls: reproducibility of seeded runs, how derivation
//! consumes the parent's stream, and the isolation of consumers' generators.

use vstd::prelude::*;
use rand_xoshiro::Xoshiro256StarStar;
use crate::generator::{
    advance, advance_by, child_of, draw, draws, upper_half, xoshiro_from_text, xoshiro_from_u64,
    xoshiro_from_words, SEED_WORDS,
};
use crate::plugin::{seeded_state, RngPlugin, Seed};

verus! {

/// The states of the first `m` children that successive calls of
/// `RootRng::derive_child` derive from a root in state `g`, in order.
pub open spec fn children(g: Xoshiro256StarStar, m: nat) -> Seq<Xoshiro256StarStar>
    decreases m,
{
    if m == 0 {
        Seq::empty()
    } else {
        seq![child_of(g)] + children(advance_by(g, SEED_WORDS as nat), (m - 1) as nat)
    }
}

/// What two generators in states `a` and `b` hand out when drawn from in the
/// order `schedule` gives (`true`: draw from the first, `false`: from the
/// second): the values of each, in order.
pub open spec fn interleaved(
    a: Xoshiro256StarStar,
    b: Xoshiro256StarStar,
    schedule: Seq<bool>,
) -> (Seq<u64>, Seq<u64>)
    decreases schedule.len(),
{
    if schedule.len() == 0 {
        (Seq::empty(), Seq::empty())
    } else if schedule[0] {
        let rest = interleaved(advance(a), b, schedule.drop_first());
        (seq![draw(a)] + rest.0, rest.1)
    } else {
        let rest = interleaved(a, advance(b), schedule.drop_first());
        (rest.0, seq![draw(b)] + rest.1)
    }
}

/// The number of entries of `schedule` equal to `side`.
pub open spec fn turns(schedule: Seq<bool>, side: bool) -> nat
    decreases schedule.len(),
{
    if schedule.len() == 0 {
        0
    } else {
        (if schedule[0] == side { 1nat } else { 0nat }) + turns(schedule.drop_first(), side)
    }
}

/// One operation of a run: derive a new consumer's generator from the root,
/// or draw from the generator of the `i`-th consumer derived so far.
pub enum Step {
    Derive,
    DrawU32(nat),
    DrawU64(nat),
}

/// The state of a run: the root generator's state, and the states of the
/// consumers' generators in the order they were derived.
pub type RunState = (Xoshiro256StarStar, Seq<Xoshiro256StarStar>);

/// The run state that a root generator in state `g` starts in.
pub open spec fn start(g: Xoshiro256StarStar) -> RunState {
    (g, Seq::empty())
}

/// One step of a run, as `RootRng::derive_child`, `Rng::next_u32` and
/// `Rng::next_u64` state it: the new state and the values handed out. A draw
/// from a consumer not derived yet does nothing.
pub open spec fn step(st: RunState, s: Step) -> (RunState, Seq<u64>) {
    match s {
        Step::Derive => (
            (advance_by(st.0, SEED_WORDS as nat), st.1.push(child_of(st.0))),
            Seq::empty(),
        ),
        Step::DrawU32(i) => if i < st.1.len() {
            (
                (st.0, st.1.update(i as int, advance(st.1[i as int]))),
                seq![upper_half(draw(st.1[i as int])) as u64],
            )
        } else {
            (st, Seq::empty())
        },
        Step::DrawU64(i) => if i < st.1.len() {
            (
                (st.0, st.1.update(i as int, advance(st.1[i as int]))),
                seq![draw(st.1[i as int])],
            )
        } else {
            (st, Seq::empty())
        },
    }
}

/// A whole run of `steps` from `st`: the final state and every value handed
/// out, in order.
pub open spec fn run(st: RunState, steps: Seq<Step>) -> (RunState, Seq<u64>)
    decreases steps.len(),
{
    if steps.len() == 0 {
        (st, Seq::empty())
    } else {
        let first = step(st, steps[0]);
        let rest = run(first.0, steps.drop_first());
        (rest.0, first.1 + rest.1)
    }
}

/// The number of draws that `steps` make from the `i`-th consumer.
pub open spec fn draws_on(steps: Seq<Step>, i: nat) -> nat
    decreases steps.len(),
{
    if steps.len() == 0 {
        0
    } else {
        (match steps[0] {
            Step::DrawU32(j) => if j == i { 1nat } else { 0nat },
            Step::DrawU64(j) => if j == i { 1nat } else { 0nat },
            Step::Derive => 0nat,
        }) + draws_on(steps.drop_first(), i)
    }
}

/// `k` draws hand out `k` values.
pub proof fn lemma_draws_len(g: Xoshiro256StarStar, k: nat)
    ensures
        draws(g, k).len() == k,
    decreases k,
{
    if k > 0 {
        lemma_draws_len(advance(g), (k - 1) as nat);
    }
}

/// Advancing by `a` draws and then by `b` is advancing by `a + b`.
pub proof fn lemma_advance_by_add(g: Xoshiro256StarStar, a: nat, b: nat)
    ensures
        advance_by(advance_by(g, a), b) == advance_by(g, a + b),
    decreases a,
{
    if a > 0 {
        lemma_advance_by_add(advance(g), (a - 1) as nat, b);
        assert((a + b - 1) as nat == (a - 1) as nat + b);
    }
}

/// The next `a + b` draws are the next `a` followed by the `b` after those.
pub proof fn lemma_draws_split(g: Xoshiro256StarStar, a: nat, b: nat)
    ensures
        draws(g, a + b) == draws(g, a) + draws(advance_by(g, a), b),
    decreases a,
{
    if a == 0 {
        assert(draws(g, 0) + draws(g, b) =~= draws(g, b));
    } else {
        lemma_draws_split(advance(g), (a - 1) as nat, b);
        assert((a + b - 1) as nat == (a - 1) as nat + b);
        assert(draws(g, a + b) =~= draws(g, a) + draws(advance_by(g, a), b));
    }
}

/// Determinism of a numeric seed: plugins that hold the same number build
/// root generators in one same state, so that any same sequence of
/// derivations and draws hands out the same values and ends in the same
/// state; in particular the same derivations give the same children, and the
/// same draws from each child give the same values.
pub proof fn lemma_integer_seed_determinism(
    p: RngPlugin,
    q: RngPlugin,
    n: u64,
    steps: Seq<Step>,
    m: nat,
    k: nat,
)
    requires
        p.seed == Some(Seed::Number(n)),
        q.seed == Some(Seed::Number(n)),
    ensures
        run(start(seeded_state(p.seed.unwrap())), steps) == run(
            start(seeded_state(q.seed.unwrap())),
            steps,
        ),
        seeded_state(p.seed.unwrap()) == xoshiro_from_u64(n),
        seeded_state(p.seed.unwrap()) == seeded_state(q.seed.unwrap()),
        children(seeded_state(p.seed.unwrap()), m) == children(seeded_state(q.seed.unwrap()), m),
        forall|i: int|
            0 <= i < m ==> draws(#[trigger] children(seeded_state(p.seed.unwrap()), m)[i], k)
                == draws(children(seeded_state(q.seed.unwrap()), m)[i], k),
{
}

/// Determinism of a text seed: plugins that hold equal texts build root
/// generators in one same state, so that any same sequence of derivations
/// and draws hands out the same values and ends in the same state; in
/// particular the same derivations give the same children, and the same
/// draws from each child give the same values.
pub proof fn lemma_text_seed_determinism(
    p: RngPlugin,
    q: RngPlugin,
    t: Seq<char>,
    steps: Seq<Step>,
    m: nat,
    k: nat,
)
    requires
        p.seed matches Some(Seed::String(s)) && s@ == t,
        q.seed matches Some(Seed::String(s)) && s@ == t,
    ensures
        run(start(seeded_state(p.seed.unwrap())), steps) == run(
            start(seeded_state(q.seed.unwrap())),
            steps,
        ),
        seeded_state(p.seed.unwrap()) == xoshiro_from_text(t),
        seeded_state(p.seed.unwrap()) == seeded_state(q.seed.unwrap()),
        children(seeded_state(p.seed.unwrap()), m) == children(seeded_state(q.seed.unwrap()), m),
        forall|i: int|
            0 <= i < m ==> draws(#[trigger] children(seeded_state(p.seed.unwrap()), m)[i], k)
                == draws(children(seeded_state(q.seed.unwrap()), m)[i], k),
{
}

/// Derivation consumes the parent's stream: the `i`-th of `m` successive
/// children is seeded from the `i`-th window of four among the parent's next
/// `4 * m` draws, so no two children are seeded from the same draws.
pub proof fn lemma_children_windows(g: Xoshiro256StarStar, m: nat, i: int)
    requires
        0 <= i < m,
    ensures
        children(g, m).len() == m,
        children(g, m)[i] == xoshiro_from_words(
            draws(g, 4 * m).subrange(4 * i, 4 * i + 4),
        ),
    decreases m,
{
    let w = SEED_WORDS as nat;
    let g1 = advance_by(g, w);
    assert(4 * m == w + 4 * (m - 1) as nat);
    lemma_draws_split(g, w, 4 * (m - 1) as nat);
    lemma_draws_len(g, w);
    lemma_draws_len(g1, 4 * (m - 1) as nat);
    assert(children(g, m) == seq![child_of(g)] + children(g1, (m - 1) as nat));
    assert(children(g1, 0).len() == 0);
    if i == 0 {
        assert(draws(g, 4 * m).subrange(0, 4) =~= draws(g, w));
        if m > 1 {
            lemma_children_windows(g1, (m - 1) as nat, 0);
        }
    } else {
        lemma_children_windows(g1, (m - 1) as nat, i - 1);
        assert(draws(g, 4 * m).subrange(4 * i, 4 * i + 4)
            =~= draws(g1, 4 * (m - 1) as nat).subrange(4 * (i - 1), 4 * (i - 1) + 4));
    }
}

/// Deriving twice from a parent in state `g`: the first child is seeded from
/// the parent's next four draws, the second from the four after those, and
/// what the parent hands out afterwards is its stream with those eight draws
/// taken out.
pub proof fn lemma_derive_twice(g: Xoshiro256StarStar, k: nat)
    ensures
        child_of(g) == xoshiro_from_words(draws(g, 8).subrange(0, 4)),
        child_of(advance_by(g, 4)) == xoshiro_from_words(draws(g, 8).subrange(4, 8)),
        advance_by(advance_by(g, 4), 4) == advance_by(g, 8),
        draws(advance_by(advance_by(g, 4), 4), k) == draws(g, 8 + k).subrange(8, 8 + k as int),
{
    lemma_children_windows(g, 2, 0);
    lemma_children_windows(g, 2, 1);
    assert(children(g, 2)[1] == children(advance_by(g, 4), 1)[0]);
    lemma_advance_by_add(g, 4, 4);
    lemma_draws_split(g, 8, k);
    lemma_draws_len(g, 8);
    lemma_draws_len(advance_by(g, 8), k);
    assert(draws(g, 8 + k).subrange(8, 8 + k as int) =~= draws(advance_by(g, 8), k));
}

/// Isolation: however draws from two consumers' generators interleave, each
/// hands out exactly its own next values, as if drawn from alone.
pub proof fn lemma_isolation(a: Xoshiro256StarStar, b: Xoshiro256StarStar, schedule: Seq<bool>)
    ensures
        interleaved(a, b, schedule).0 == draws(a, turns(schedule, true)),
        interleaved(a, b, schedule).1 == draws(b, turns(schedule, false)),
    decreases schedule.len(),
{
    if schedule.len() > 0 {
        if schedule[0] {
            lemma_isolation(advance(a), b, schedule.drop_first());
        } else {
            lemma_isolation(a, advance(b), schedule.drop_first());
        }
    }
}

/// Isolation within a run: whatever derivations and draws a run makes, and
/// in whatever order, the generator of a consumer ends advanced by exactly
/// the draws made from it; draws from the others leave it alone.
pub proof fn lemma_run_isolation(st: RunState, steps: Seq<Step>, i: nat)
    requires
        i < st.1.len(),
    ensures
        i < run(st, steps).0.1.len(),
        run(st, steps).0.1[i as int] == advance_by(st.1[i as int], draws_on(steps, i)),
    decreases steps.len(),
{
    if steps.len() > 0 {
        let first = step(st, steps[0]);
        lemma_run_isolation(first.0, steps.drop_first(), i);
        let c = draws_on(steps.drop_first(), i);
        match steps[0] {
            Step::DrawU32(j) => {
                if j == i {
                    assert(advance_by(st.1[i as int], c + 1) == advance_by(advance(st.1[i as int]), c));
                }
            },
            Step::DrawU64(j) => {
                if j == i {
                    assert(advance_by(st.1[i as int], c + 1) == advance_by(advance(st.1[i as int]), c));
                }
            },
            Step::Derive => {},
        }
    }
}

} // verus!
