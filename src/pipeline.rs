//! The decisions of the compilation pipeline: which toolchain phase runs
//! next, and what a successful translation hands back.
use std::path::PathBuf;
use vstd::prelude::*;

use crate::engine::ModuleRef;

verus! {

/// What a compilation task is for.
#[derive(Clone, Copy, Debug, PartialEq, Eq, Structural)]
pub enum Goal {
    /// All four phases, ending in a native module.
    Execution,
    /// Parse, expand and analyze only; no code is generated.
    Analysis,
}

/// The toolchain's phases, in the order they run.
#[derive(Clone, Copy, Debug, PartialEq, Eq, Structural)]
pub enum Phase {
    Parse,
    Expand,
    Analyze,
    Translate,
}

/// What the pipeline does once a phase has ended.
#[derive(Clone, Copy, Debug, PartialEq, Eq, Structural)]
pub enum Step {
    /// Run this phase next.
    Run(Phase),
    /// A phase failed, its diagnostics are out; no later phase runs.
    Failed,
    /// Every phase the goal needs has succeeded.
    Finished,
}

/// The phases a goal runs, in order.
pub open spec fn phases(goal: Goal) -> Seq<Phase> {
    match goal {
        Goal::Execution => seq![Phase::Parse, Phase::Expand, Phase::Analyze, Phase::Translate],
        Goal::Analysis => seq![Phase::Parse, Phase::Expand, Phase::Analyze],
    }
}

/// The step after `phase`, when it succeeded or failed.
pub open spec fn spec_next_step(goal: Goal, phase: Phase, succeeded: bool) -> Step {
    if !succeeded {
        Step::Failed
    } else {
        let i = phases(goal).index_of(phase);
        if i + 1 < phases(goal).len() {
            Step::Run(phases(goal)[i + 1])
        } else {
            Step::Finished
        }
    }
}

/// The first phase of every compilation.
pub fn first_phase() -> (r: Phase)
    ensures
        r == phases(Goal::Execution)[0],
        r == phases(Goal::Analysis)[0],
{
    Phase::Parse
}

/// Decides what follows a phase of a task with the given goal: a failure
/// ends the task, a success runs the next phase until the goal is reached.
pub fn next_step(goal: Goal, phase: Phase, succeeded: bool) -> (r: Step)
    requires
        phases(goal).contains(phase),
    ensures
        r == spec_next_step(goal, phase, succeeded),
{
    proof {
        reveal(Seq::index_of);
        let s = phases(goal);
        assert(s[0] == Phase::Parse && s[1] == Phase::Expand && s[2] == Phase::Analyze);
        if goal == Goal::Execution {
            assert(s[3] == Phase::Translate);
        }
        assert(s.index_of(phase) == (match phase {
            Phase::Parse => 0int,
            Phase::Expand => 1int,
            Phase::Analyze => 2int,
            Phase::Translate => 3int,
        })) by {
            s.index_of_first_ensures(phase);
        }
    }
    if !succeeded {
        return Step::Failed;
    }
    match phase {
        Phase::Parse => Step::Run(Phase::Expand),
        Phase::Expand => Step::Run(Phase::Analyze),
        Phase::Analyze => match goal {
            Goal::Execution => Step::Run(Phase::Translate),
            Goal::Analysis => Step::Finished,
        },
        Phase::Translate => Step::Finished,
    }
}

/// Runs the phases after parsing, turning a failure (reported by its error
/// count) into `None`.
pub fn check_compile<F, R>(f: F) -> (r: Option<R>)
    where
        F: FnOnce() -> Result<R, usize>,
    requires
        f.requires(()),
    ensures
        exists|res: Result<R, usize>|
            f.ensures((), res) && r == (match res {
                Ok(v) => Some(v),
                Err(_) => None::<R>,
            }),
{
    let res = f();
    match res {
        Ok(v) => Some(v),
        Err(_) => None,
    }
}

/// The dependency set of a unit: the library paths of the crates its
/// analysis found linked, latest discovered first (dependencies before the
/// crates that use them), crates without a path left out.
pub open spec fn dependency_order(used: Seq<Option<PathBuf>>) -> Seq<PathBuf>
    decreases used.len(),
{
    if used.len() == 0 {
        Seq::empty()
    } else {
        let rest = dependency_order(used.drop_last());
        match used.last() {
            Some(p) => seq![p] + rest,
            None => rest,
        }
    }
}

/// Builds the dependency set from the crates the analysis found linked, in
/// the order it discovered them.
pub fn collect_dependencies(used: Vec<Option<PathBuf>>) -> (r: Vec<PathBuf>)
    ensures
        r@ == dependency_order(used@),
{
    let mut used = used;
    let ghost all = used@;
    let mut deps: Vec<PathBuf> = Vec::new();
    while used.len() > 0
        invariant
            used@.len() <= all.len(),
            used@ == all.subrange(0, used@.len() as int),
            dependency_order(all) == deps@ + dependency_order(used@),
        decreases used@.len(),
    {
        let ghost before = used@;
        let entry = used.pop();
        assert(before.drop_last() == used@);
        match entry {
            Some(Some(p)) => {
                deps.push(p);
                assert(deps@ + dependency_order(used@) =~= deps@.drop_last() + (seq![p] + dependency_order(used@)));
            },
            _ => {},
        }
    }
    assert(deps@ + dependency_order(used@) =~= deps@);
    deps
}

/// A successful translation: its one native module and the dependency set.
/// Producing no module, or several, is an internal fault of the toolchain
/// and is ruled out here.
pub fn finish_translation(modules: &Vec<ModuleRef>, used: Vec<Option<PathBuf>>) -> (r: (ModuleRef, Vec<PathBuf>))
    requires
        modules@.len() == 1,
    ensures
        r.0 == modules@[0],
        r.1@ == dependency_order(used@),
{
    (modules[0], collect_dependencies(used))
}

/// The place of the path found at `i` of the crates in discovery order, in
/// the dependency set.
pub open spec fn dependency_rank(used: Seq<Option<PathBuf>>, i: int) -> int {
    dependency_order(used.subrange(i + 1, used.len() as int)).len() as int
}

/// The dependency set of `used` is that of its crates from `i` on, followed
/// by that of the crates before `i`.
proof fn lemma_order_split(used: Seq<Option<PathBuf>>, i: int)
    requires
        0 <= i <= used.len(),
    ensures
        dependency_order(used) == dependency_order(used.subrange(i, used.len() as int))
            + dependency_order(used.subrange(0, i)),
    decreases used.len(),
{
    if i == used.len() {
        assert(used.subrange(i, used.len() as int) =~= Seq::<Option<PathBuf>>::empty());
        assert(used.subrange(0, i) =~= used);
        assert(Seq::<PathBuf>::empty() + dependency_order(used) =~= dependency_order(used));
    } else {
        let short = used.drop_last();
        lemma_order_split(short, i);
        let tail = used.subrange(i, used.len() as int);
        assert(tail.drop_last() =~= short.subrange(i, short.len() as int));
        assert(tail.last() == used.last());
        assert(short.subrange(0, i) =~= used.subrange(0, i));
        let a = dependency_order(short.subrange(i, short.len() as int));
        let b = dependency_order(used.subrange(0, i));
        match used.last() {
            Some(p) => {
                assert(seq![p] + (a + b) =~= (seq![p] + a) + b);
            },
            None => {},
        }
    }
}

/// The path found at `i` stands at `dependency_rank(used, i)` in the
/// dependency set.
proof fn lemma_rank_holds(used: Seq<Option<PathBuf>>, i: int)
    requires
        0 <= i < used.len(),
        used[i] is Some,
    ensures
        0 <= dependency_rank(used, i) < dependency_order(used).len(),
        dependency_order(used)[dependency_rank(used, i)] == used[i]->Some_0,
{
    lemma_order_split(used, i + 1);
    let head = used.subrange(0, i + 1);
    assert(head.last() == used[i]);
    assert(head.drop_last() =~= used.subrange(0, i));
}

/// Dependencies come before the crates that use them: of two crates with a
/// path, the one discovered later (`j`, a dependency of the one at `i`)
/// stands earlier in the dependency set.
pub proof fn lemma_dependencies_first(used: Seq<Option<PathBuf>>, i: int, j: int)
    requires
        0 <= i < j < used.len(),
        used[i] is Some,
        used[j] is Some,
    ensures
        0 <= dependency_rank(used, j) < dependency_rank(used, i) < dependency_order(used).len(),
        dependency_order(used)[dependency_rank(used, i)] == used[i]->Some_0,
        dependency_order(used)[dependency_rank(used, j)] == used[j]->Some_0,
{
    lemma_rank_holds(used, i);
    lemma_rank_holds(used, j);
    let after_i = used.subrange(i + 1, used.len() as int);
    lemma_order_split(after_i, j - i - 1);
    assert(after_i.subrange(j - i - 1, after_i.len() as int) =~= used.subrange(j, used.len() as int));
    lemma_order_split(used.subrange(j, used.len() as int), 1);
    let from_j = used.subrange(j, used.len() as int);
    assert(from_j.subrange(1, from_j.len() as int) =~= used.subrange(j + 1, used.len() as int));
    assert(from_j.subrange(0, 1).last() == used[j]);
    assert(from_j.subrange(0, 1).drop_last() =~= Seq::<Option<PathBuf>>::empty());
}

} // verus!
