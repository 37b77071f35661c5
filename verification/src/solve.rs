use vstd::prelude::*;
use crate::ir::{
    clause_list_len, clone_clause, clone_clause_list, clone_env, clone_trait_ref, goal_size,
    lemma_subst_goal_size, spec_subst_goal, spec_subst_trait_ref, spec_subst_trait_ref_list,
    subst_goal, subst_trait_ref, subst_trait_ref_list, trait_ref_list_len, Clause, ClauseList,
    Env, Goal, Program, TraitRef, TraitRefList, Ty, TyList,
};
use crate::unify::{
    fresh_var, new_ctx, revert_to, spec_revert, spec_unify_fuel, spec_unify_trait_refs,
    take_snapshot, unify_fuel, unify_trait_refs, CtxView, InferCtx, Snapshot, UnifyOutcome,
};
use crate::OVERFLOW_DEPTH;

verus! {

/// Why a solve did not succeed. `NotImplemented` reports the goal's trait
/// reference and the hypotheses in scope when every candidate was exhausted.
/// `Overflow` reports that the search exceeded the depth bound. `Internal`
/// marks a state the solver's own invariants forbid; it is never reached
/// from lowered programs of realistic size.
pub enum SolveErr {
    NotImplemented { trait_ref: TraitRef, env: Env },
    Overflow { limit: usize },
    Internal,
}

/// What trying one candidate clause came to: a proof, a dead end (the next
/// candidate is tried), or an abort that ends the whole search.
pub enum TryOutcome {
    Proved,
    Refuted,
    Aborted(SolveErr),
}

// ---------------------------------------------------------------------------
// Instantiation: a clause's binders are replaced by fresh inference
// variables, allocated in order at the current universe.

pub open spec fn spec_fresh_args(base: int, k: nat) -> TyList
    decreases k,
{
    if k == 0 {
        TyList::Nil
    } else {
        TyList::Cons(
            Box::new(Ty::Infer { var: base as usize }),
            Box::new(spec_fresh_args(base + 1, (k - 1) as nat)),
        )
    }
}

pub fn fresh_args(ctx: &mut InferCtx, universe: usize, k: usize) -> (r: TyList)
    ensures
        r == spec_fresh_args(old(ctx)@.universes.len() as int, k as nat),
        final(ctx)@.universes == old(ctx)@.universes + Seq::new(k as nat, |i: int| universe),
        final(ctx)@.bindings == old(ctx)@.bindings,
    decreases k,
{
    if k == 0 {
        proof {
            assert(ctx@.universes =~= ctx@.universes + Seq::new(0, |i: int| universe));
        }
        TyList::Nil
    } else {
        let v = fresh_var(ctx, universe);
        let rest = fresh_args(ctx, universe, k - 1);
        proof {
            assert(old(ctx)@.universes + Seq::new(k as nat, |i: int| universe)
                =~= old(ctx)@.universes.push(universe) + Seq::new(
                (k - 1) as nat,
                |i: int| universe,
            ));
        }
        TyList::Cons(Box::new(Ty::Infer { var: v }), Box::new(rest))
    }
}

// ---------------------------------------------------------------------------
// The search. `spec_solve_goal` is the complete functional description of
// the solver: for a program, an environment, a solver state, a goal and the
// remaining depth, it gives the outcome and the state after the search,
// every assignment and backtrack included. The executable functions below
// return exactly what it describes, so a solve is a function of the program
// and the goal alone.

pub open spec fn spec_solve_goal(
    prog: Program,
    env: Env,
    ctx: CtxView,
    goal: Goal,
    fuel: nat,
) -> (Result<(), SolveErr>, CtxView)
    decreases fuel, goal_size(goal), 4int, 0int,
        via spec_solve_goal_dec
{
    match goal {
        Goal::TraitRef(tr) => spec_try_hyps(prog, env, ctx, tr, env.clauses, fuel),
        Goal::And(g1, g2) => {
            let (r1, c1) = spec_solve_goal(prog, env, ctx, *g1, fuel);
            match r1 {
                Result::Ok(u) => spec_solve_goal(prog, env, c1, *g2, fuel),
                Result::Err(e) => (Result::Err(e), c1),
            }
        },
        Goal::Implies(c, g) => {
            let env2 = Env {
                universe: env.universe,
                clauses: ClauseList::Cons(c, Box::new(env.clauses)),
            };
            spec_solve_goal(prog, env2, ctx, *g, fuel)
        },
        Goal::ForAll(g) => {
            if env.universe == usize::MAX {
                (Result::Err(SolveErr::Internal), ctx)
            } else {
                let u2 = (env.universe + 1) as usize;
                let ph = Ty::Placeholder { universe: u2, index: 0 };
                let g2 = spec_subst_goal(
                    *g,
                    0,
                    TyList::Cons(Box::new(ph), Box::new(TyList::Nil)),
                    1,
                );
                let env2 = Env { universe: u2, clauses: env.clauses };
                spec_solve_goal(prog, env2, ctx, g2, fuel)
            }
        },
        Goal::Exists(g) => {
            let v = ctx.universes.len() as usize;
            let ctx2 = CtxView {
                universes: ctx.universes.push(env.universe),
                bindings: ctx.bindings,
            };
            let g2 = spec_subst_goal(
                *g,
                0,
                TyList::Cons(Box::new(Ty::Infer { var: v }), Box::new(TyList::Nil)),
                1,
            );
            spec_solve_goal(prog, env, ctx2, g2, fuel)
        },
    }
}

#[via_fn]
proof fn spec_solve_goal_dec(prog: Program, env: Env, ctx: CtxView, goal: Goal, fuel: nat) {
    match goal {
        Goal::ForAll(g) => {
            if env.universe != usize::MAX {
                let u2 = (env.universe + 1) as usize;
                let ph = Ty::Placeholder { universe: u2, index: 0 };
                lemma_subst_goal_size(
                    *g,
                    0,
                    TyList::Cons(Box::new(ph), Box::new(TyList::Nil)),
                    1,
                );
            }
        },
        Goal::Exists(g) => {
            let v = ctx.universes.len() as usize;
            lemma_subst_goal_size(
                *g,
                0,
                TyList::Cons(Box::new(Ty::Infer { var: v }), Box::new(TyList::Nil)),
                1,
            );
        },
        _ => {},
    }
}

/// Candidates are tried in order: the hypotheses, newest first, then the
/// program's impl clauses in source order; the first proof found wins.
pub open spec fn spec_try_hyps(
    prog: Program,
    env: Env,
    ctx: CtxView,
    tr: TraitRef,
    hyps: ClauseList,
    fuel: nat,
) -> (Result<(), SolveErr>, CtxView)
    decreases fuel, 0int, 3int, clause_list_len(hyps),
{
    match hyps {
        ClauseList::Nil => spec_try_impls(prog, env, ctx, tr, 0, fuel),
        ClauseList::Cons(c, rest) => {
            let (o, c1) = spec_try_clause(prog, env, ctx, tr, c, fuel);
            match o {
                TryOutcome::Proved => (Result::Ok(()), c1),
                TryOutcome::Refuted => spec_try_hyps(prog, env, c1, tr, *rest, fuel),
                TryOutcome::Aborted(e) => (Result::Err(e), c1),
            }
        },
    }
}

pub open spec fn spec_try_impls(
    prog: Program,
    env: Env,
    ctx: CtxView,
    tr: TraitRef,
    i: int,
    fuel: nat,
) -> (Result<(), SolveErr>, CtxView)
    decreases fuel, 0int, 2int, prog.clauses@.len() - i,
{
    if i < 0 || i >= prog.clauses@.len() {
        (Result::Err(SolveErr::NotImplemented { trait_ref: tr, env }), ctx)
    } else {
        let (o, c1) = spec_try_clause(prog, env, ctx, tr, prog.clauses@[i], fuel);
        match o {
            TryOutcome::Proved => (Result::Ok(()), c1),
            TryOutcome::Refuted => spec_try_impls(prog, env, c1, tr, i + 1, fuel),
            TryOutcome::Aborted(e) => (Result::Err(e), c1),
        }
    }
}

/// One candidate: snapshot, instantiate the clause's binders with fresh
/// variables, unify the instantiated head with the goal, then prove the
/// instantiated body left to right. Any failure reverts to the snapshot.
pub open spec fn spec_try_clause(
    prog: Program,
    env: Env,
    ctx: CtxView,
    tr: TraitRef,
    clause: Clause,
    fuel: nat,
) -> (TryOutcome, CtxView)
    decreases fuel, 0int, 1int, 0int,
{
    let snap = Snapshot {
        vars: ctx.universes.len() as usize,
        binds: ctx.bindings.len() as usize,
    };
    let base = ctx.universes.len() as int;
    let ctx1 = CtxView {
        universes: ctx.universes + Seq::new(clause.binders as nat, |i: int| env.universe),
        bindings: ctx.bindings,
    };
    let repls = spec_fresh_args(base, clause.binders as nat);
    let head = spec_subst_trait_ref(clause.head, 0, repls, clause.binders);
    let f = spec_unify_fuel(ctx1);
    let (u, ctx2) = spec_unify_trait_refs(ctx1, head, tr, f as nat);
    match u {
        UnifyOutcome::Unified => {
            let body = spec_subst_trait_ref_list(clause.body, 0, repls, clause.binders);
            let (r, ctx3) = spec_solve_body(prog, env, ctx2, body, fuel);
            match r {
                Result::Ok(un) => (TryOutcome::Proved, ctx3),
                Result::Err(e) => match e {
                    SolveErr::NotImplemented { trait_ref, env: e2 } => (
                        TryOutcome::Refuted,
                        spec_revert(ctx3, snap),
                    ),
                    _ => (TryOutcome::Aborted(e), spec_revert(ctx3, snap)),
                },
            }
        },
        UnifyOutcome::Mismatch => (TryOutcome::Refuted, spec_revert(ctx2, snap)),
        UnifyOutcome::OutOfFuel => (
            TryOutcome::Aborted(SolveErr::Internal),
            spec_revert(ctx2, snap),
        ),
    }
}

/// The body's sub-goals, left to right; descending into a body consumes one
/// unit of search depth.
pub open spec fn spec_solve_body(
    prog: Program,
    env: Env,
    ctx: CtxView,
    body: TraitRefList,
    fuel: nat,
) -> (Result<(), SolveErr>, CtxView)
    decreases fuel, 0int, 0int, trait_ref_list_len(body),
{
    match body {
        TraitRefList::Nil => (Result::Ok(()), ctx),
        TraitRefList::Cons(tr_sub, rest) => {
            if fuel == 0 {
                (Result::Err(SolveErr::Overflow { limit: OVERFLOW_DEPTH }), ctx)
            } else {
                let (r, c1) = spec_solve_goal(
                    prog,
                    env,
                    ctx,
                    Goal::TraitRef(tr_sub),
                    (fuel - 1) as nat,
                );
                match r {
                    Result::Ok(u) => spec_solve_body(prog, env, c1, *rest, fuel),
                    Result::Err(e) => (Result::Err(e), c1),
                }
            }
        },
    }
}

// ---------------------------------------------------------------------------
// The executable solver.

pub fn solve_goal(prog: &Program, env: &Env, ctx: &mut InferCtx, goal: &Goal, fuel: usize) -> (r:
    Result<(), SolveErr>)
    ensures
        r == spec_solve_goal(*prog, *env, old(ctx)@, *goal, fuel as nat).0,
        final(ctx)@ == spec_solve_goal(*prog, *env, old(ctx)@, *goal, fuel as nat).1,
    decreases fuel, goal_size(*goal), 4int, 0int,
{
    match goal {
        Goal::TraitRef(tr) => {
            let hyps = clone_clause_list(&env.clauses);
            try_hyps(prog, env, ctx, tr, &hyps, fuel)
        },
        Goal::And(g1, g2) => {
            let r1 = solve_goal(prog, env, ctx, g1, fuel);
            match r1 {
                Result::Ok(u) => solve_goal(prog, env, ctx, g2, fuel),
                Result::Err(e) => Result::Err(e),
            }
        },
        Goal::Implies(c, g) => {
            let env2 = Env {
                universe: env.universe,
                clauses: ClauseList::Cons(clone_clause(c), Box::new(clone_clause_list(&env.clauses))),
            };
            solve_goal(prog, &env2, ctx, g, fuel)
        },
        Goal::ForAll(g) => {
            if env.universe == usize::MAX {
                Result::Err(SolveErr::Internal)
            } else {
                let u2 = env.universe + 1;
                let ph = Ty::Placeholder { universe: u2, index: 0 };
                let repls = TyList::Cons(Box::new(ph), Box::new(TyList::Nil));
                let g2 = subst_goal(g, 0, &repls, 1);
                let env2 = Env { universe: u2, clauses: clone_clause_list(&env.clauses) };
                proof {
                    lemma_subst_goal_size(**g, 0, repls, 1);
                }
                solve_goal(prog, &env2, ctx, &g2, fuel)
            }
        },
        Goal::Exists(g) => {
            let v = fresh_var(ctx, env.universe);
            let repls = TyList::Cons(Box::new(Ty::Infer { var: v }), Box::new(TyList::Nil));
            let g2 = subst_goal(g, 0, &repls, 1);
            proof {
                lemma_subst_goal_size(**g, 0, repls, 1);
            }
            solve_goal(prog, env, ctx, &g2, fuel)
        },
    }
}

fn try_hyps(
    prog: &Program,
    env: &Env,
    ctx: &mut InferCtx,
    tr: &TraitRef,
    hyps: &ClauseList,
    fuel: usize,
) -> (r: Result<(), SolveErr>)
    ensures
        r == spec_try_hyps(*prog, *env, old(ctx)@, *tr, *hyps, fuel as nat).0,
        final(ctx)@ == spec_try_hyps(*prog, *env, old(ctx)@, *tr, *hyps, fuel as nat).1,
    decreases fuel, 0int, 3int, clause_list_len(*hyps),
{
    match hyps {
        ClauseList::Nil => try_impls(prog, env, ctx, tr, 0, fuel),
        ClauseList::Cons(c, rest) => {
            let o = try_clause(prog, env, ctx, tr, c, fuel);
            match o {
                TryOutcome::Proved => Result::Ok(()),
                TryOutcome::Refuted => try_hyps(prog, env, ctx, tr, rest, fuel),
                TryOutcome::Aborted(e) => Result::Err(e),
            }
        },
    }
}

fn try_impls(
    prog: &Program,
    env: &Env,
    ctx: &mut InferCtx,
    tr: &TraitRef,
    i: usize,
    fuel: usize,
) -> (r: Result<(), SolveErr>)
    ensures
        r == spec_try_impls(*prog, *env, old(ctx)@, *tr, i as int, fuel as nat).0,
        final(ctx)@ == spec_try_impls(*prog, *env, old(ctx)@, *tr, i as int, fuel as nat).1,
    decreases fuel, 0int, 2int, prog.clauses@.len() - i,
{
    if i >= prog.clauses.len() {
        Result::Err(SolveErr::NotImplemented {
            trait_ref: clone_trait_ref(tr),
            env: clone_env(env),
        })
    } else {
        let o = try_clause(prog, env, ctx, tr, &prog.clauses[i], fuel);
        match o {
            TryOutcome::Proved => Result::Ok(()),
            TryOutcome::Refuted => try_impls(prog, env, ctx, tr, i + 1, fuel),
            TryOutcome::Aborted(e) => Result::Err(e),
        }
    }
}

fn try_clause(
    prog: &Program,
    env: &Env,
    ctx: &mut InferCtx,
    tr: &TraitRef,
    clause: &Clause,
    fuel: usize,
) -> (r: TryOutcome)
    ensures
        r == spec_try_clause(*prog, *env, old(ctx)@, *tr, *clause, fuel as nat).0,
        final(ctx)@ == spec_try_clause(*prog, *env, old(ctx)@, *tr, *clause, fuel as nat).1,
    decreases fuel, 0int, 1int, 0int,
{
    let snap = take_snapshot(ctx);
    let repls = fresh_args(ctx, env.universe, clause.binders);
    let head = subst_trait_ref(&clause.head, 0, &repls, clause.binders);
    let f = unify_fuel(ctx);
    let u = unify_trait_refs(ctx, &head, tr, f);
    match u {
        UnifyOutcome::Unified => {
            let body = subst_trait_ref_list(&clause.body, 0, &repls, clause.binders);
            let r = solve_body(prog, env, ctx, &body, fuel);
            match r {
                Result::Ok(u2) => TryOutcome::Proved,
                Result::Err(e) => {
                    revert_to(ctx, &snap);
                    match e {
                        SolveErr::NotImplemented { trait_ref, env: e2 } => TryOutcome::Refuted,
                        other => TryOutcome::Aborted(other),
                    }
                },
            }
        },
        UnifyOutcome::Mismatch => {
            revert_to(ctx, &snap);
            TryOutcome::Refuted
        },
        UnifyOutcome::OutOfFuel => {
            revert_to(ctx, &snap);
            TryOutcome::Aborted(SolveErr::Internal)
        },
    }
}

fn solve_body(
    prog: &Program,
    env: &Env,
    ctx: &mut InferCtx,
    body: &TraitRefList,
    fuel: usize,
) -> (r: Result<(), SolveErr>)
    ensures
        r == spec_solve_body(*prog, *env, old(ctx)@, *body, fuel as nat).0,
        final(ctx)@ == spec_solve_body(*prog, *env, old(ctx)@, *body, fuel as nat).1,
    decreases fuel, 0int, 0int, trait_ref_list_len(*body),
{
    match body {
        TraitRefList::Nil => Result::Ok(()),
        TraitRefList::Cons(tr_sub, rest) => {
            if fuel == 0 {
                Result::Err(SolveErr::Overflow { limit: OVERFLOW_DEPTH })
            } else {
                let sub = Goal::TraitRef(clone_trait_ref(tr_sub));
                let r = solve_goal(prog, env, ctx, &sub, fuel - 1);
                match r {
                    Result::Ok(u) => solve_body(prog, env, ctx, rest, fuel),
                    Result::Err(e) => Result::Err(e),
                }
            }
        },
    }
}

// ---------------------------------------------------------------------------
// Entry point.

/// The result of one solve: the verdict and the final solver state, from
/// which reported bindings are resolved.
pub struct Solution {
    pub verdict: Result<(), SolveErr>,
    pub ctx: InferCtx,
}

/// What a solve with a chosen depth bound returns, as a function of the
/// program, the goal and the bound alone: the search starts at the root
/// universe with no hypotheses and no variables, and an overflow reports the
/// bound it exceeded.
pub open spec fn spec_solve_with_depth(
    prog: Program,
    goal: Goal,
    depth: usize,
) -> (Result<(), SolveErr>, CtxView) {
    let (r, ctx) = spec_solve_goal(
        prog,
        Env { universe: 0, clauses: ClauseList::Nil },
        CtxView { universes: Seq::empty(), bindings: Seq::empty() },
        goal,
        depth as nat,
    );
    let r2 = match r {
        Result::Err(SolveErr::Overflow { limit }) => Result::Err(
            SolveErr::Overflow { limit: depth },
        ),
        _ => r,
    };
    (r2, ctx)
}

/// What `solve` returns: a search at the default depth bound.
pub open spec fn spec_solve(prog: Program, goal: Goal) -> (Result<(), SolveErr>, CtxView) {
    spec_solve_with_depth(prog, goal, OVERFLOW_DEPTH)
}

/// Proof search for `goal` against `prog`'s clauses, bounded by `depth`.
pub fn solve_with_depth(prog: &Program, goal: &Goal, depth: usize) -> (r: Solution)
    ensures
        r.verdict == spec_solve_with_depth(*prog, *goal, depth).0,
        r.ctx@ == spec_solve_with_depth(*prog, *goal, depth).1,
{
    let mut ctx = new_ctx();
    proof {
        assert(ctx@.universes =~= Seq::<usize>::empty());
        assert(ctx@.bindings =~= Seq::<(usize, Ty)>::empty());
    }
    let env = Env { universe: 0, clauses: ClauseList::Nil };
    let verdict = solve_goal(prog, &env, &mut ctx, goal, depth);
    let verdict2 = match verdict {
        Result::Err(SolveErr::Overflow { limit }) => Result::Err(
            SolveErr::Overflow { limit: depth },
        ),
        other => other,
    };
    Solution { verdict: verdict2, ctx }
}

/// Proof search for `goal` against `prog`'s clauses at the default bound.
pub fn solve(prog: &Program, goal: &Goal) -> (r: Solution)
    ensures
        r.verdict == spec_solve(*prog, *goal).0,
        r.ctx@ == spec_solve(*prog, *goal).1,
{
    solve_with_depth(prog, goal, OVERFLOW_DEPTH)
}

} // verus!
