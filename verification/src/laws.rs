use vstd::prelude::*;
use crate::ir::{Clause, ClauseList, Env, Goal, Program, Ty, TyList};
use crate::solve::{spec_solve, spec_solve_goal, SolveErr};
use crate::unify::{
    spec_bind, spec_check, spec_check_list, spec_find_binding, spec_resolve, spec_resolve_list,
    spec_unify, spec_unify_args, spec_unify_heads, spec_unify_right, spec_univ_of, CtxView,
    UnifyOutcome,
};

verus! {

/// Determinism: what a solve returns — the verdict and the final solver
/// state — is a function of the program and the goal alone, so any two
/// solves of the same goal against the same program agree. The executable
/// `solve` returns exactly `spec_solve(program, goal)`, which this law
/// relates to itself.
pub proof fn lemma_solve_deterministic(
    prog: Program,
    goal: Goal,
    r1: (Result<(), SolveErr>, CtxView),
    r2: (Result<(), SolveErr>, CtxView),
)
    requires
        r1 == spec_solve(prog, goal),
        r2 == spec_solve(prog, goal),
    ensures
        r1 == r2,
{
}

/// What solving `And(Implies(c, g1), g2)` comes to, written out: the body
/// `g1` is solved with `c` pushed onto the hypotheses, and `g2` is then
/// solved in the original environment — only the substitution carries over.
pub open spec fn spec_hypothesis_scoped_form(
    prog: Program,
    env: Env,
    ctx: CtxView,
    c: Clause,
    g1: Goal,
    g2: Goal,
    fuel: nat,
) -> (Result<(), SolveErr>, CtxView) {
    let env2 = Env { universe: env.universe, clauses: ClauseList::Cons(c, Box::new(env.clauses)) };
    let (r1, c1) = spec_solve_goal(prog, env2, ctx, g1, fuel);
    match r1 {
        Result::Ok(u) => spec_solve_goal(prog, env, c1, g2, fuel),
        Result::Err(e) => (Result::Err(e), c1),
    }
}

/// Hypothesis scoping: a hypothesis assumed by `Implies` is visible only
/// inside its body. In `And(Implies(c, g1), g2)` the second conjunct is
/// solved against the same environment as the whole goal; whether it
/// succeeds or fails is exactly what it would have been without the
/// hypothesis, under the substitution that solving `g1` produced.
pub proof fn lemma_hypothesis_scoped(
    prog: Program,
    env: Env,
    ctx: CtxView,
    c: Clause,
    g1: Goal,
    g2: Goal,
    fuel: nat,
)
    ensures
        spec_solve_goal(
            prog,
            env,
            ctx,
            Goal::And(Box::new(Goal::Implies(c, Box::new(g1))), Box::new(g2)),
            fuel,
        ) == spec_hypothesis_scoped_form(prog, env, ctx, c, g1, g2, fuel),
{
    reveal_with_fuel(spec_solve_goal, 3);
}


// ---------------------------------------------------------------------------
// Universe hygiene.

/// Every placeholder in the term lives at a universe no higher than `u`.
pub open spec fn ty_placeholders_le(t: Ty, u: usize) -> bool
    decreases t,
{
    match t {
        Ty::Apply { head, args } => ty_list_placeholders_le(args, u),
        Ty::BoundVar { depth } => true,
        Ty::Placeholder { universe, index } => universe <= u,
        Ty::Infer { var } => true,
    }
}

pub open spec fn ty_list_placeholders_le(ts: TyList, u: usize) -> bool
    decreases ts,
{
    match ts {
        TyList::Nil => true,
        TyList::Cons(h, rest) => ty_placeholders_le(*h, u) && ty_list_placeholders_le(*rest, u),
    }
}

/// When the occurs-and-universe check admits binding a variable of universe
/// `vu` to `t`, then `t`, resolved through the same assignments, carries no
/// placeholder above `vu`.
pub proof fn lemma_check_bounds_placeholders(ctx: CtxView, v: usize, vu: usize, t: Ty, fuel: nat)
    requires
        spec_check(ctx, v, vu, t, fuel) == UnifyOutcome::Unified,
    ensures
        spec_resolve(ctx, t, fuel) matches Option::Some(rt) ==> ty_placeholders_le(rt, vu),
    decreases fuel, t,
{
    match t {
        Ty::Apply { head, args } => {
            lemma_check_bounds_placeholders_list(ctx, v, vu, args, fuel);
        },
        Ty::BoundVar { depth } => {},
        Ty::Placeholder { universe, index } => {},
        Ty::Infer { var } => {
            match spec_find_binding(ctx.bindings, var) {
                Option::Some(tw) => {
                    lemma_check_bounds_placeholders(ctx, v, vu, tw, (fuel - 1) as nat);
                },
                Option::None => {},
            }
        },
    }
}

pub proof fn lemma_check_bounds_placeholders_list(
    ctx: CtxView,
    v: usize,
    vu: usize,
    ts: TyList,
    fuel: nat,
)
    requires
        spec_check_list(ctx, v, vu, ts, fuel) == UnifyOutcome::Unified,
    ensures
        spec_resolve_list(ctx, ts, fuel) matches Option::Some(rs) ==> ty_list_placeholders_le(
            rs,
            vu,
        ),
    decreases fuel, ts,
{
    match ts {
        TyList::Nil => {},
        TyList::Cons(h, rest) => {
            assert(spec_check(ctx, v, vu, *h, fuel) == UnifyOutcome::Unified);
            lemma_check_bounds_placeholders(ctx, v, vu, *h, fuel);
            lemma_check_bounds_placeholders_list(ctx, v, vu, *rest, fuel);
        },
    }
}

/// Universe hygiene at the point an assignment is made: whenever the unifier
/// accepts an assignment `v := t`, the assigned term resolves, under the
/// assignments in force at that moment, to a term whose placeholders all
/// live at universes no higher than the variable's own. A placeholder
/// introduced under a `ForAll` (universe at least one) therefore never
/// enters the assignment of an existential of the root universe.
pub proof fn lemma_bind_respects_universes(ctx: CtxView, v: usize, t: Ty, fuel: nat)
    requires
        spec_bind(ctx, v, t, fuel).0 == UnifyOutcome::Unified,
    ensures
        match spec_univ_of(ctx.universes, v) {
            Option::Some(vu) => spec_resolve(ctx, t, fuel) matches Option::Some(rt)
                ==> ty_placeholders_le(rt, vu),
            Option::None => false,
        },
{
    match spec_univ_of(ctx.universes, v) {
        Option::Some(vu) => {
            lemma_check_bounds_placeholders(ctx, v, vu, t, fuel);
        },
        Option::None => {},
    }
}


// ---------------------------------------------------------------------------
// Unifier soundness on ground terms.

/// No inference variable occurs in the term.
pub open spec fn ty_no_infer(t: Ty) -> bool
    decreases t,
{
    match t {
        Ty::Apply { head, args } => ty_list_no_infer(args),
        Ty::BoundVar { depth } => true,
        Ty::Placeholder { universe, index } => true,
        Ty::Infer { var } => false,
    }
}

pub open spec fn ty_list_no_infer(ts: TyList) -> bool
    decreases ts,
{
    match ts {
        TyList::Nil => true,
        TyList::Cons(h, rest) => ty_no_infer(*h) && ty_list_no_infer(*rest),
    }
}

/// On ground terms — terms without inference variables — unification is
/// sound and effect-free: it succeeds only on equal terms, and it makes no
/// assignment.
pub proof fn lemma_unify_ground_sound(ctx: CtxView, a: Ty, b: Ty, fuel: nat)
    requires
        ty_no_infer(a),
        ty_no_infer(b),
        spec_unify(ctx, a, b, fuel).0 == UnifyOutcome::Unified,
    ensures
        a == b,
        spec_unify(ctx, a, b, fuel).1 == ctx,
    decreases fuel, a, 3int,
{
    assert(spec_unify(ctx, a, b, fuel) == spec_unify_right(ctx, a, b, fuel));
    assert(spec_unify_right(ctx, a, b, fuel) == spec_unify_heads(ctx, a, b, fuel));
    match (a, b) {
        (Ty::Apply { head: h1, args: a1 }, Ty::Apply { head: h2, args: a2 }) => {
            lemma_unify_args_ground_sound(ctx, a1, a2, fuel);
        },
        _ => {},
    }
}

pub proof fn lemma_unify_args_ground_sound(ctx: CtxView, x: TyList, y: TyList, fuel: nat)
    requires
        ty_list_no_infer(x),
        ty_list_no_infer(y),
        spec_unify_args(ctx, x, y, fuel).0 == UnifyOutcome::Unified,
    ensures
        x == y,
        spec_unify_args(ctx, x, y, fuel).1 == ctx,
    decreases fuel, x, 0int,
{
    match (x, y) {
        (TyList::Cons(xh, xt), TyList::Cons(yh, yt)) => {
            let (o, c1) = spec_unify(ctx, *xh, *yh, fuel);
            if o == UnifyOutcome::Unified {
                lemma_unify_ground_sound(ctx, *xh, *yh, fuel);
                lemma_unify_args_ground_sound(c1, *xt, *yt, fuel);
            }
        },
        _ => {},
    }
}

} // verus!
