use vstd::prelude::*;
use crate::ir::{clone_ty, TraitRef, Ty, TyList};

verus! {

/// The mutable state of one solver run: for each inference variable its
/// allocation universe (the variable's id is its position), and the
/// assignments made so far, in the order they were made. Assignments only
/// ever bind an unbound variable, so the list doubles as the undo log:
/// backtracking truncates it to a snapshot.
pub struct InferCtx {
    pub universes: Vec<usize>,
    pub bindings: Vec<(usize, Ty)>,
}

/// Ghost image of an `InferCtx`.
pub ghost struct CtxView {
    pub universes: Seq<usize>,
    pub bindings: Seq<(usize, Ty)>,
}

impl View for InferCtx {
    type V = CtxView;

    open spec fn view(&self) -> CtxView {
        CtxView { universes: self.universes@, bindings: self.bindings@ }
    }
}

pub enum UnifyOutcome {
    Unified,
    Mismatch,
    OutOfFuel,
}

/// A point to back out to: the counts of allocated variables and of
/// assignments at the time the snapshot was taken.
pub struct Snapshot {
    pub vars: usize,
    pub binds: usize,
}

pub fn new_ctx() -> (r: InferCtx)
    ensures
        r@.universes.len() == 0,
        r@.bindings.len() == 0,
{
    InferCtx { universes: Vec::new(), bindings: Vec::new() }
}

/// Allocates a fresh inference variable at the given universe; the result is
/// its id.
pub fn fresh_var(ctx: &mut InferCtx, universe: usize) -> (v: usize)
    ensures
        v == old(ctx)@.universes.len(),
        final(ctx)@.universes == old(ctx)@.universes.push(universe),
        final(ctx)@.bindings == old(ctx)@.bindings,
{
    let v = ctx.universes.len();
    ctx.universes.push(universe);
    v
}

pub fn take_snapshot(ctx: &InferCtx) -> (s: Snapshot)
    ensures
        s.vars == ctx@.universes.len(),
        s.binds == ctx@.bindings.len(),
{
    Snapshot { vars: ctx.universes.len(), binds: ctx.bindings.len() }
}

pub open spec fn spec_revert(ctx: CtxView, s: Snapshot) -> CtxView {
    CtxView {
        universes: if s.vars <= ctx.universes.len() {
            ctx.universes.subrange(0, s.vars as int)
        } else {
            ctx.universes
        },
        bindings: if s.binds <= ctx.bindings.len() {
            ctx.bindings.subrange(0, s.binds as int)
        } else {
            ctx.bindings
        },
    }
}

/// Backtracking: drops every variable and assignment made after the
/// snapshot.
pub fn revert_to(ctx: &mut InferCtx, s: &Snapshot) -> (r: ())
    ensures
        final(ctx)@ == spec_revert(old(ctx)@, *s),
{
    ctx.universes.truncate(s.vars);
    ctx.bindings.truncate(s.binds);
}

// ---------------------------------------------------------------------------
// Lookups.

pub open spec fn spec_find_binding_at(b: Seq<(usize, Ty)>, v: usize, i: int) -> Option<Ty>
    decreases b.len() - i,
{
    if i < 0 || i >= b.len() {
        Option::None
    } else if b[i].0 == v {
        Option::Some(b[i].1)
    } else {
        spec_find_binding_at(b, v, i + 1)
    }
}

pub open spec fn spec_find_binding(b: Seq<(usize, Ty)>, v: usize) -> Option<Ty> {
    spec_find_binding_at(b, v, 0)
}

fn find_binding_at(b: &Vec<(usize, Ty)>, v: usize, i: usize) -> (r: Option<Ty>)
    ensures
        r == spec_find_binding_at(b@, v, i as int),
    decreases b@.len() - i,
{
    if i >= b.len() {
        Option::None
    } else if b[i].0 == v {
        Option::Some(clone_ty(&b[i].1))
    } else {
        find_binding_at(b, v, i + 1)
    }
}

/// The assignment of variable `v`, or `None` while it is unbound.
pub fn find_binding(ctx: &InferCtx, v: usize) -> (r: Option<Ty>)
    ensures
        r == spec_find_binding(ctx@.bindings, v),
{
    find_binding_at(&ctx.bindings, v, 0)
}

pub open spec fn spec_univ_of(u: Seq<usize>, v: usize) -> Option<usize> {
    if v < u.len() {
        Option::Some(u[v as int])
    } else {
        Option::None
    }
}

pub fn univ_of(ctx: &InferCtx, v: usize) -> (r: Option<usize>)
    ensures
        r == spec_univ_of(ctx@.universes, v),
{
    if v < ctx.universes.len() {
        Option::Some(ctx.universes[v])
    } else {
        Option::None
    }
}

// ---------------------------------------------------------------------------
// The occurs and universe check: before `v` (of universe `vu`) is bound to
// `t`, every part of `t`, resolved through the current assignments, must be
// free of `v` itself, and must mention only placeholders and variables of
// universes no higher than `vu`. The fuel bounds how many assignments a
// resolution chain may pass through.

pub open spec fn spec_check(ctx: CtxView, v: usize, vu: usize, t: Ty, fuel: nat) -> UnifyOutcome
    decreases fuel, t,
{
    match t {
        Ty::Apply { head, args } => spec_check_list(ctx, v, vu, args, fuel),
        Ty::BoundVar { depth } => UnifyOutcome::Unified,
        Ty::Placeholder { universe, index } => if universe <= vu {
            UnifyOutcome::Unified
        } else {
            UnifyOutcome::Mismatch
        },
        Ty::Infer { var } => match spec_find_binding(ctx.bindings, var) {
            Option::Some(tw) => if fuel == 0 {
                UnifyOutcome::OutOfFuel
            } else {
                spec_check(ctx, v, vu, tw, (fuel - 1) as nat)
            },
            Option::None => if var == v {
                UnifyOutcome::Mismatch
            } else {
                match spec_univ_of(ctx.universes, var) {
                    Option::Some(wu) => if wu <= vu {
                        UnifyOutcome::Unified
                    } else {
                        UnifyOutcome::Mismatch
                    },
                    Option::None => UnifyOutcome::Mismatch,
                }
            },
        },
    }
}

pub open spec fn spec_check_list(
    ctx: CtxView,
    v: usize,
    vu: usize,
    ts: TyList,
    fuel: nat,
) -> UnifyOutcome
    decreases fuel, ts,
{
    match ts {
        TyList::Nil => UnifyOutcome::Unified,
        TyList::Cons(head, rest) => match spec_check(ctx, v, vu, *head, fuel) {
            UnifyOutcome::Unified => spec_check_list(ctx, v, vu, *rest, fuel),
            o => o,
        },
    }
}

fn check(ctx: &InferCtx, v: usize, vu: usize, t: &Ty, fuel: usize) -> (r: UnifyOutcome)
    ensures
        r == spec_check(ctx@, v, vu, *t, fuel as nat),
    decreases fuel, *t,
{
    match t {
        Ty::Apply { head, args } => check_list(ctx, v, vu, args, fuel),
        Ty::BoundVar { depth } => UnifyOutcome::Unified,
        Ty::Placeholder { universe, index } => if *universe <= vu {
            UnifyOutcome::Unified
        } else {
            UnifyOutcome::Mismatch
        },
        Ty::Infer { var } => match find_binding(ctx, *var) {
            Option::Some(tw) => if fuel == 0 {
                UnifyOutcome::OutOfFuel
            } else {
                check(ctx, v, vu, &tw, fuel - 1)
            },
            Option::None => if *var == v {
                UnifyOutcome::Mismatch
            } else {
                match univ_of(ctx, *var) {
                    Option::Some(wu) => if wu <= vu {
                        UnifyOutcome::Unified
                    } else {
                        UnifyOutcome::Mismatch
                    },
                    Option::None => UnifyOutcome::Mismatch,
                }
            },
        },
    }
}

fn check_list(ctx: &InferCtx, v: usize, vu: usize, ts: &TyList, fuel: usize) -> (r: UnifyOutcome)
    ensures
        r == spec_check_list(ctx@, v, vu, *ts, fuel as nat),
    decreases fuel, *ts,
{
    match ts {
        TyList::Nil => UnifyOutcome::Unified,
        TyList::Cons(head, rest) => match check(ctx, v, vu, head, fuel) {
            UnifyOutcome::Unified => check_list(ctx, v, vu, rest, fuel),
            o => o,
        },
    }
}

// ---------------------------------------------------------------------------
// Binding a variable.

pub open spec fn spec_bind(ctx: CtxView, v: usize, t: Ty, fuel: nat) -> (UnifyOutcome, CtxView) {
    match spec_univ_of(ctx.universes, v) {
        Option::Some(vu) => match spec_check(ctx, v, vu, t, fuel) {
            UnifyOutcome::Unified => (
                UnifyOutcome::Unified,
                CtxView { universes: ctx.universes, bindings: ctx.bindings.push((v, t)) },
            ),
            o => (o, ctx),
        },
        Option::None => (UnifyOutcome::Mismatch, ctx),
    }
}

fn bind(ctx: &mut InferCtx, v: usize, t: &Ty, fuel: usize) -> (r: UnifyOutcome)
    ensures
        r == spec_bind(old(ctx)@, v, *t, fuel as nat).0,
        final(ctx)@ == spec_bind(old(ctx)@, v, *t, fuel as nat).1,
{
    match univ_of(ctx, v) {
        Option::Some(vu) => match check(ctx, v, vu, t, fuel) {
            UnifyOutcome::Unified => {
                ctx.bindings.push((v, clone_ty(t)));
                UnifyOutcome::Unified
            },
            o => o,
        },
        Option::None => UnifyOutcome::Mismatch,
    }
}

// ---------------------------------------------------------------------------
// Unification. Terms are resolved through the current assignments as they
// are compared; each step through an assignment consumes one unit of fuel.
// `spec_unify` is the full functional description: it returns the outcome
// and the state after the call, with every assignment the call made.

pub open spec fn spec_unify(ctx: CtxView, a: Ty, b: Ty, fuel: nat) -> (UnifyOutcome, CtxView)
    decreases fuel, a, 3int,
{
    match a {
        Ty::Infer { var } => match spec_find_binding(ctx.bindings, var) {
            Option::Some(ta) => if fuel == 0 {
                (UnifyOutcome::OutOfFuel, ctx)
            } else {
                spec_unify(ctx, ta, b, (fuel - 1) as nat)
            },
            Option::None => spec_unify_right(ctx, a, b, fuel),
        },
        _ => spec_unify_right(ctx, a, b, fuel),
    }
}

/// The left side is not a bound variable; resolve the right side.
pub open spec fn spec_unify_right(ctx: CtxView, a: Ty, b: Ty, fuel: nat) -> (UnifyOutcome, CtxView)
    decreases fuel, a, 2int,
{
    match b {
        Ty::Infer { var } => match spec_find_binding(ctx.bindings, var) {
            Option::Some(tb) => if fuel == 0 {
                (UnifyOutcome::OutOfFuel, ctx)
            } else {
                spec_unify(ctx, a, tb, (fuel - 1) as nat)
            },
            Option::None => spec_unify_heads(ctx, a, b, fuel),
        },
        _ => spec_unify_heads(ctx, a, b, fuel),
    }
}

/// Neither side is a bound variable.
pub open spec fn spec_unify_heads(ctx: CtxView, a: Ty, b: Ty, fuel: nat) -> (UnifyOutcome, CtxView)
    decreases fuel, a, 1int,
{
    match (a, b) {
        (Ty::Infer { var: v }, Ty::Infer { var: w }) => if v == w {
            (UnifyOutcome::Unified, ctx)
        } else {
            match (spec_univ_of(ctx.universes, v), spec_univ_of(ctx.universes, w)) {
                (Option::Some(vu), Option::Some(wu)) => if wu <= vu {
                    spec_bind(ctx, v, b, fuel)
                } else {
                    spec_bind(ctx, w, a, fuel)
                },
                _ => (UnifyOutcome::Mismatch, ctx),
            }
        },
        (Ty::Infer { var: v }, _) => spec_bind(ctx, v, b, fuel),
        (_, Ty::Infer { var: w }) => spec_bind(ctx, w, a, fuel),
        (Ty::Apply { head: h1, args: a1 }, Ty::Apply { head: h2, args: a2 }) => if h1 == h2 {
            spec_unify_args(ctx, a1, a2, fuel)
        } else {
            (UnifyOutcome::Mismatch, ctx)
        },
        (
            Ty::Placeholder { universe: u1, index: i1 },
            Ty::Placeholder { universe: u2, index: i2 },
        ) => if u1 == u2 && i1 == i2 {
            (UnifyOutcome::Unified, ctx)
        } else {
            (UnifyOutcome::Mismatch, ctx)
        },
        (Ty::BoundVar { depth: d1 }, Ty::BoundVar { depth: d2 }) => if d1 == d2 {
            (UnifyOutcome::Unified, ctx)
        } else {
            (UnifyOutcome::Mismatch, ctx)
        },
        _ => (UnifyOutcome::Mismatch, ctx),
    }
}

pub open spec fn spec_unify_args(
    ctx: CtxView,
    x: TyList,
    y: TyList,
    fuel: nat,
) -> (UnifyOutcome, CtxView)
    decreases fuel, x, 0int,
{
    match (x, y) {
        (TyList::Nil, TyList::Nil) => (UnifyOutcome::Unified, ctx),
        (TyList::Cons(xh, xt), TyList::Cons(yh, yt)) => {
            let (o, c1) = spec_unify(ctx, *xh, *yh, fuel);
            match o {
                UnifyOutcome::Unified => spec_unify_args(c1, *xt, *yt, fuel),
                _ => (o, c1),
            }
        },
        _ => (UnifyOutcome::Mismatch, ctx),
    }
}

pub fn unify(ctx: &mut InferCtx, a: &Ty, b: &Ty, fuel: usize) -> (r: UnifyOutcome)
    ensures
        r == spec_unify(old(ctx)@, *a, *b, fuel as nat).0,
        final(ctx)@ == spec_unify(old(ctx)@, *a, *b, fuel as nat).1,
    decreases fuel, *a, 3int,
{
    match a {
        Ty::Infer { var } => match find_binding(ctx, *var) {
            Option::Some(ta) => if fuel == 0 {
                UnifyOutcome::OutOfFuel
            } else {
                unify(ctx, &ta, b, fuel - 1)
            },
            Option::None => unify_right(ctx, a, b, fuel),
        },
        _ => unify_right(ctx, a, b, fuel),
    }
}

fn unify_right(ctx: &mut InferCtx, a: &Ty, b: &Ty, fuel: usize) -> (r: UnifyOutcome)
    ensures
        r == spec_unify_right(old(ctx)@, *a, *b, fuel as nat).0,
        final(ctx)@ == spec_unify_right(old(ctx)@, *a, *b, fuel as nat).1,
    decreases fuel, *a, 2int,
{
    match b {
        Ty::Infer { var } => match find_binding(ctx, *var) {
            Option::Some(tb) => if fuel == 0 {
                UnifyOutcome::OutOfFuel
            } else {
                unify(ctx, a, &tb, fuel - 1)
            },
            Option::None => unify_heads(ctx, a, b, fuel),
        },
        _ => unify_heads(ctx, a, b, fuel),
    }
}

fn unify_heads(ctx: &mut InferCtx, a: &Ty, b: &Ty, fuel: usize) -> (r: UnifyOutcome)
    ensures
        r == spec_unify_heads(old(ctx)@, *a, *b, fuel as nat).0,
        final(ctx)@ == spec_unify_heads(old(ctx)@, *a, *b, fuel as nat).1,
    decreases fuel, *a, 1int,
{
    match (a, b) {
        (Ty::Infer { var: v }, Ty::Infer { var: w }) => if *v == *w {
            UnifyOutcome::Unified
        } else {
            match (univ_of(ctx, *v), univ_of(ctx, *w)) {
                (Option::Some(vu), Option::Some(wu)) => if wu <= vu {
                    bind(ctx, *v, b, fuel)
                } else {
                    bind(ctx, *w, a, fuel)
                },
                _ => UnifyOutcome::Mismatch,
            }
        },
        (Ty::Infer { var: v }, _) => bind(ctx, *v, b, fuel),
        (_, Ty::Infer { var: w }) => bind(ctx, *w, a, fuel),
        (Ty::Apply { head: h1, args: a1 }, Ty::Apply { head: h2, args: a2 }) => if *h1 == *h2 {
            unify_args(ctx, a1, a2, fuel)
        } else {
            UnifyOutcome::Mismatch
        },
        (
            Ty::Placeholder { universe: u1, index: i1 },
            Ty::Placeholder { universe: u2, index: i2 },
        ) => if *u1 == *u2 && *i1 == *i2 {
            UnifyOutcome::Unified
        } else {
            UnifyOutcome::Mismatch
        },
        (Ty::BoundVar { depth: d1 }, Ty::BoundVar { depth: d2 }) => if *d1 == *d2 {
            UnifyOutcome::Unified
        } else {
            UnifyOutcome::Mismatch
        },
        _ => UnifyOutcome::Mismatch,
    }
}

fn unify_args(ctx: &mut InferCtx, x: &TyList, y: &TyList, fuel: usize) -> (r: UnifyOutcome)
    ensures
        r == spec_unify_args(old(ctx)@, *x, *y, fuel as nat).0,
        final(ctx)@ == spec_unify_args(old(ctx)@, *x, *y, fuel as nat).1,
    decreases fuel, *x, 0int,
{
    match (x, y) {
        (TyList::Nil, TyList::Nil) => UnifyOutcome::Unified,
        (TyList::Cons(xh, xt), TyList::Cons(yh, yt)) => {
            let o = unify(ctx, xh, yh, fuel);
            match o {
                UnifyOutcome::Unified => unify_args(ctx, xt, yt, fuel),
                _ => o,
            }
        },
        _ => UnifyOutcome::Mismatch,
    }
}

/// Fuel that covers every resolution chain a single unification can walk:
/// two steps for each variable ever allocated, and two more.
pub open spec fn spec_unify_fuel(ctx: CtxView) -> usize {
    if ctx.universes.len() > ((usize::MAX - 2) / 2) as nat {
        usize::MAX
    } else {
        (2 * ctx.universes.len() + 2) as usize
    }
}

pub fn unify_fuel(ctx: &InferCtx) -> (r: usize)
    ensures
        r == spec_unify_fuel(ctx@),
{
    let n = ctx.universes.len();
    if n > (usize::MAX - 2) / 2 {
        usize::MAX
    } else {
        2 * n + 2
    }
}


// ---------------------------------------------------------------------------
// Trait references unify when they name the same trait and their arguments
// unify pairwise.

pub open spec fn spec_unify_trait_refs(
    ctx: CtxView,
    a: TraitRef,
    b: TraitRef,
    fuel: nat,
) -> (UnifyOutcome, CtxView) {
    if a.trait_id == b.trait_id {
        spec_unify_args(ctx, a.args, b.args, fuel)
    } else {
        (UnifyOutcome::Mismatch, ctx)
    }
}

pub fn unify_trait_refs(ctx: &mut InferCtx, a: &TraitRef, b: &TraitRef, fuel: usize) -> (r:
    UnifyOutcome)
    ensures
        r == spec_unify_trait_refs(old(ctx)@, *a, *b, fuel as nat).0,
        final(ctx)@ == spec_unify_trait_refs(old(ctx)@, *a, *b, fuel as nat).1,
{
    if a.trait_id == b.trait_id {
        unify_args(ctx, &a.args, &b.args, fuel)
    } else {
        UnifyOutcome::Mismatch
    }
}

// ---------------------------------------------------------------------------
// Deep resolution: a term with every bound inference variable replaced by
// its assignment, recursively. `None` when a resolution chain outruns the
// fuel, which no acyclic assignment list reaches.

pub open spec fn spec_resolve(ctx: CtxView, t: Ty, fuel: nat) -> Option<Ty>
    decreases fuel, t,
{
    match t {
        Ty::Apply { head, args } => match spec_resolve_list(ctx, args, fuel) {
            Option::Some(rs) => Option::Some(Ty::Apply { head, args: rs }),
            Option::None => Option::None,
        },
        Ty::BoundVar { depth } => Option::Some(t),
        Ty::Placeholder { universe, index } => Option::Some(t),
        Ty::Infer { var } => match spec_find_binding(ctx.bindings, var) {
            Option::Some(tw) => if fuel == 0 {
                Option::None
            } else {
                spec_resolve(ctx, tw, (fuel - 1) as nat)
            },
            Option::None => Option::Some(t),
        },
    }
}

pub open spec fn spec_resolve_list(ctx: CtxView, ts: TyList, fuel: nat) -> Option<TyList>
    decreases fuel, ts,
{
    match ts {
        TyList::Nil => Option::Some(TyList::Nil),
        TyList::Cons(head, rest) => match spec_resolve(ctx, *head, fuel) {
            Option::Some(rh) => match spec_resolve_list(ctx, *rest, fuel) {
                Option::Some(rt) => Option::Some(TyList::Cons(Box::new(rh), Box::new(rt))),
                Option::None => Option::None,
            },
            Option::None => Option::None,
        },
    }
}

pub fn resolve_ty(ctx: &InferCtx, t: &Ty, fuel: usize) -> (r: Option<Ty>)
    ensures
        r == spec_resolve(ctx@, *t, fuel as nat),
    decreases fuel, *t,
{
    match t {
        Ty::Apply { head, args } => match resolve_ty_list(ctx, args, fuel) {
            Option::Some(rs) => Option::Some(Ty::Apply { head: *head, args: rs }),
            Option::None => Option::None,
        },
        Ty::BoundVar { depth } => Option::Some(clone_ty(t)),
        Ty::Placeholder { universe, index } => Option::Some(clone_ty(t)),
        Ty::Infer { var } => match find_binding(ctx, *var) {
            Option::Some(tw) => if fuel == 0 {
                Option::None
            } else {
                resolve_ty(ctx, &tw, fuel - 1)
            },
            Option::None => Option::Some(clone_ty(t)),
        },
    }
}

pub fn resolve_ty_list(ctx: &InferCtx, ts: &TyList, fuel: usize) -> (r: Option<TyList>)
    ensures
        r == spec_resolve_list(ctx@, *ts, fuel as nat),
    decreases fuel, *ts,
{
    match ts {
        TyList::Nil => Option::Some(TyList::Nil),
        TyList::Cons(head, rest) => match resolve_ty(ctx, head, fuel) {
            Option::Some(rh) => match resolve_ty_list(ctx, rest, fuel) {
                Option::Some(rt) => Option::Some(TyList::Cons(Box::new(rh), Box::new(rt))),
                Option::None => Option::None,
            },
            Option::None => Option::None,
        },
    }
}

} // verus!
