use vstd::prelude::*;
use crate::ir::{
    clause_wf, goal_wf_under, trait_ref_list_wf_under, trait_ref_wf_under, ty_list_wf_under,
    ty_wf_under, Clause, Goal, Program, ProgramView, StructDecl, TraitDecl, TraitRef, TraitRefList,
    Ty, TyList,
};
use crate::parse::{GoalAst, IdList, ItemAst, ItemAstList, TyAst, TyAstList, WhereAst,
    WhereAstList};

verus! {

/// Why surface syntax could not be lowered. `UnresolvedName` is a name that
/// no binder, struct or trait declaration resolves; `KindMismatch` is a
/// trait name in type position or a struct name in trait position;
/// `ArityMismatch` is a wrong number of type arguments. `UnsupportedBound`
/// is reserved for bounds beyond plain trait references, which the surface
/// grammar of this core cannot yet spell, and `UnboundTypeVariable` for a
/// type-variable reference outside every binder, which cannot arise here:
/// a goal's free type parameters are lifted into binders, and a program's
/// names must be declared.
pub enum LowerError {
    UnresolvedName,
    ArityMismatch,
    KindMismatch,
    UnsupportedBound,
    UnboundTypeVariable,
}

// ---------------------------------------------------------------------------
// Counting and lookup helpers. Counts saturate at usize::MAX, which no list
// held in memory reaches.

pub open spec fn spec_id_len(l: IdList) -> usize
    decreases l,
{
    match l {
        IdList::Nil => 0,
        IdList::Cons(h, rest) => {
            let n = spec_id_len(*rest);
            if n == usize::MAX {
                n
            } else {
                (n + 1) as usize
            }
        },
    }
}

pub fn id_len(l: &IdList) -> (r: usize)
    ensures
        r == spec_id_len(*l),
    decreases *l,
{
    match l {
        IdList::Nil => 0,
        IdList::Cons(h, rest) => {
            let n = id_len(rest);
            if n == usize::MAX {
                n
            } else {
                n + 1
            }
        },
    }
}

/// The de Bruijn depth of `name` in the scope, front first.
pub open spec fn spec_scope_depth(scope: IdList, name: usize) -> Option<usize>
    decreases scope,
{
    match scope {
        IdList::Nil => Option::None,
        IdList::Cons(h, rest) => if h == name {
            Option::Some(0usize)
        } else {
            match spec_scope_depth(*rest, name) {
                Option::Some(d) => if d == usize::MAX {
                    Option::Some(d)
                } else {
                    Option::Some((d + 1) as usize)
                },
                Option::None => Option::None,
            }
        },
    }
}

pub fn scope_depth(scope: &IdList, name: usize) -> (r: Option<usize>)
    ensures
        r == spec_scope_depth(*scope, name),
    decreases *scope,
{
    match scope {
        IdList::Nil => Option::None,
        IdList::Cons(h, rest) => if *h == name {
            Option::Some(0usize)
        } else {
            match scope_depth(rest, name) {
                Option::Some(d) => if d == usize::MAX {
                    Option::Some(d)
                } else {
                    Option::Some(d + 1)
                },
                Option::None => Option::None,
            }
        },
    }
}

pub open spec fn spec_find_struct(structs: Seq<StructDecl>, name: usize, i: int) -> Option<usize>
    decreases structs.len() - i,
{
    if i < 0 || i >= structs.len() {
        Option::None
    } else if structs[i].name == name {
        Option::Some(i as usize)
    } else {
        spec_find_struct(structs, name, i + 1)
    }
}

fn find_struct(structs: &Vec<StructDecl>, name: usize, i: usize) -> (r: Option<usize>)
    ensures
        r == spec_find_struct(structs@, name, i as int),
        r matches Option::Some(j) ==> j < structs@.len(),
    decreases structs@.len() - i,
{
    if i >= structs.len() {
        Option::None
    } else if structs[i].name == name {
        Option::Some(i)
    } else {
        find_struct(structs, name, i + 1)
    }
}

pub open spec fn spec_find_trait(traits: Seq<TraitDecl>, name: usize, i: int) -> Option<usize>
    decreases traits.len() - i,
{
    if i < 0 || i >= traits.len() {
        Option::None
    } else if traits[i].name == name {
        Option::Some(i as usize)
    } else {
        spec_find_trait(traits, name, i + 1)
    }
}

fn find_trait(traits: &Vec<TraitDecl>, name: usize, i: usize) -> (r: Option<usize>)
    ensures
        r == spec_find_trait(traits@, name, i as int),
        r matches Option::Some(j) ==> j < traits@.len(),
    decreases traits@.len() - i,
{
    if i >= traits.len() {
        Option::None
    } else if traits[i].name == name {
        Option::Some(i)
    } else {
        find_trait(traits, name, i + 1)
    }
}

/// Whether an argument list has exactly `arity` entries, without counting.
pub open spec fn spec_args_fit(args: TyAstList, arity: usize) -> bool
    decreases args,
{
    match args {
        TyAstList::Nil => arity == 0,
        TyAstList::Cons(h, rest) => arity > 0 && spec_args_fit(*rest, (arity - 1) as usize),
    }
}

fn args_fit(args: &TyAstList, arity: usize) -> (r: bool)
    ensures
        r == spec_args_fit(*args, arity),
    decreases *args,
{
    match args {
        TyAstList::Nil => arity == 0,
        TyAstList::Cons(h, rest) => arity > 0 && args_fit(rest, arity - 1),
    }
}

// ---------------------------------------------------------------------------
// Pass one: declared structs and traits, ids by declaration order. A trait's
// arity counts the implicit `Self`.

pub open spec fn spec_pass1(
    items: ItemAstList,
    structs: Seq<StructDecl>,
    traits: Seq<TraitDecl>,
) -> (Seq<StructDecl>, Seq<TraitDecl>)
    decreases items,
{
    match items {
        ItemAstList::Nil => (structs, traits),
        ItemAstList::Cons(it, rest) => match it {
            ItemAst::StructDef { name, params } => spec_pass1(
                *rest,
                structs.push(StructDecl { name, arity: spec_id_len(params) }),
                traits,
            ),
            ItemAst::TraitDef { name, params } => {
                let n = spec_id_len(params);
                let arity = if n == usize::MAX {
                    n
                } else {
                    (n + 1) as usize
                };
                spec_pass1(*rest, structs, traits.push(TraitDecl { name, arity }))
            },
            ItemAst::ImplDef { params, trait_name, trait_args, self_ty, wheres } => spec_pass1(
                *rest,
                structs,
                traits,
            ),
        },
    }
}

fn pass1(items: &ItemAstList, structs: &mut Vec<StructDecl>, traits: &mut Vec<TraitDecl>) -> (r:
    ())
    ensures
        (final(structs)@, final(traits)@) == spec_pass1(*items, old(structs)@, old(traits)@),
    decreases *items,
{
    match items {
        ItemAstList::Nil => {},
        ItemAstList::Cons(it, rest) => match it {
            ItemAst::StructDef { name, params } => {
                let arity = id_len(params);
                structs.push(StructDecl { name: *name, arity });
                pass1(rest, structs, traits);
            },
            ItemAst::TraitDef { name, params } => {
                let n = id_len(params);
                let arity = if n == usize::MAX {
                    n
                } else {
                    n + 1
                };
                traits.push(TraitDecl { name: *name, arity });
                pass1(rest, structs, traits);
            },
            ItemAst::ImplDef { params, trait_name, trait_args, self_ty, wheres } => {
                pass1(rest, structs, traits);
            },
        },
    }
}

// ---------------------------------------------------------------------------
// Types. A name is looked up first among the parameters in scope, then among
// the structs; a trait name in type position is a kind mismatch; a name with
// no declaration at all is unresolved.

pub open spec fn spec_lower_ty(
    structs: Seq<StructDecl>,
    traits: Seq<TraitDecl>,
    scope: IdList,
    t: TyAst,
) -> Result<Ty, LowerError>
    decreases t, 1int,
{
    match spec_scope_depth(scope, t.name) {
        Option::Some(d) => match t.args {
            TyAstList::Nil => Result::Ok(Ty::BoundVar { depth: d }),
            TyAstList::Cons(h, rest) => Result::Err(LowerError::ArityMismatch),
        },
        Option::None => match spec_find_struct(structs, t.name, 0) {
            Option::Some(sid) => if spec_args_fit(t.args, structs[sid as int].arity) {
                match spec_lower_ty_list(structs, traits, scope, t.args) {
                    Result::Ok(args) => Result::Ok(Ty::Apply { head: sid, args }),
                    Result::Err(e) => Result::Err(e),
                }
            } else {
                Result::Err(LowerError::ArityMismatch)
            },
            Option::None => match spec_find_trait(traits, t.name, 0) {
                Option::Some(tid) => Result::Err(LowerError::KindMismatch),
                Option::None => Result::Err(LowerError::UnresolvedName),
            },
        },
    }
}

pub open spec fn spec_lower_ty_list(
    structs: Seq<StructDecl>,
    traits: Seq<TraitDecl>,
    scope: IdList,
    ts: TyAstList,
) -> Result<TyList, LowerError>
    decreases ts, 0int,
{
    match ts {
        TyAstList::Nil => Result::Ok(TyList::Nil),
        TyAstList::Cons(h, rest) => match spec_lower_ty(structs, traits, scope, *h) {
            Result::Ok(t) => match spec_lower_ty_list(structs, traits, scope, *rest) {
                Result::Ok(more) => Result::Ok(TyList::Cons(Box::new(t), Box::new(more))),
                Result::Err(e) => Result::Err(e),
            },
            Result::Err(e) => Result::Err(e),
        },
    }
}

fn lower_ty(
    structs: &Vec<StructDecl>,
    traits: &Vec<TraitDecl>,
    scope: &IdList,
    t: &TyAst,
) -> (r: Result<Ty, LowerError>)
    ensures
        r == spec_lower_ty(structs@, traits@, *scope, *t),
    decreases *t, 1int,
{
    match scope_depth(scope, t.name) {
        Option::Some(d) => match &t.args {
            TyAstList::Nil => Result::Ok(Ty::BoundVar { depth: d }),
            TyAstList::Cons(h, rest) => Result::Err(LowerError::ArityMismatch),
        },
        Option::None => match find_struct(structs, t.name, 0) {
            Option::Some(sid) => if args_fit(&t.args, structs[sid].arity) {
                match lower_ty_list(structs, traits, scope, &t.args) {
                    Result::Ok(args) => Result::Ok(Ty::Apply { head: sid, args }),
                    Result::Err(e) => Result::Err(e),
                }
            } else {
                Result::Err(LowerError::ArityMismatch)
            },
            Option::None => match find_trait(traits, t.name, 0) {
                Option::Some(tid) => Result::Err(LowerError::KindMismatch),
                Option::None => Result::Err(LowerError::UnresolvedName),
            },
        },
    }
}

fn lower_ty_list(
    structs: &Vec<StructDecl>,
    traits: &Vec<TraitDecl>,
    scope: &IdList,
    ts: &TyAstList,
) -> (r: Result<TyList, LowerError>)
    ensures
        r == spec_lower_ty_list(structs@, traits@, *scope, *ts),
    decreases *ts, 0int,
{
    match ts {
        TyAstList::Nil => Result::Ok(TyList::Nil),
        TyAstList::Cons(h, rest) => match lower_ty(structs, traits, scope, h) {
            Result::Ok(t) => match lower_ty_list(structs, traits, scope, rest) {
                Result::Ok(more) => Result::Ok(TyList::Cons(Box::new(t), Box::new(more))),
                Result::Err(e) => Result::Err(e),
            },
            Result::Err(e) => Result::Err(e),
        },
    }
}

// ---------------------------------------------------------------------------
// Bounds. `Self` is the first argument of the lowered trait reference, and
// the declared arity (which counts `Self`) must fit.

pub open spec fn spec_lower_bound(
    structs: Seq<StructDecl>,
    traits: Seq<TraitDecl>,
    scope: IdList,
    w: WhereAst,
) -> Result<TraitRef, LowerError> {
    match spec_find_trait(traits, w.trait_name, 0) {
        Option::Some(tid) => {
            let arity = traits[tid as int].arity;
            if arity >= 1 && spec_args_fit(w.args, (arity - 1) as usize) {
                match spec_lower_ty(structs, traits, scope, w.self_ty) {
                    Result::Ok(self_ty) => match spec_lower_ty_list(structs, traits, scope, w.args) {
                        Result::Ok(more) => Result::Ok(
                            TraitRef {
                                trait_id: tid,
                                args: TyList::Cons(Box::new(self_ty), Box::new(more)),
                            },
                        ),
                        Result::Err(e) => Result::Err(e),
                    },
                    Result::Err(e) => Result::Err(e),
                }
            } else {
                Result::Err(LowerError::ArityMismatch)
            }
        },
        Option::None => match spec_find_struct(structs, w.trait_name, 0) {
            Option::Some(sid) => Result::Err(LowerError::KindMismatch),
            Option::None => Result::Err(LowerError::UnresolvedName),
        },
    }
}

fn lower_bound(
    structs: &Vec<StructDecl>,
    traits: &Vec<TraitDecl>,
    scope: &IdList,
    w: &WhereAst,
) -> (r: Result<TraitRef, LowerError>)
    ensures
        r == spec_lower_bound(structs@, traits@, *scope, *w),
{
    match find_trait(traits, w.trait_name, 0) {
        Option::Some(tid) => {
            let arity = traits[tid].arity;
            if arity >= 1 && args_fit(&w.args, arity - 1) {
                match lower_ty(structs, traits, scope, &w.self_ty) {
                    Result::Ok(self_ty) => match lower_ty_list(structs, traits, scope, &w.args) {
                        Result::Ok(more) => Result::Ok(
                            TraitRef {
                                trait_id: tid,
                                args: TyList::Cons(Box::new(self_ty), Box::new(more)),
                            },
                        ),
                        Result::Err(e) => Result::Err(e),
                    },
                    Result::Err(e) => Result::Err(e),
                }
            } else {
                Result::Err(LowerError::ArityMismatch)
            }
        },
        Option::None => match find_struct(structs, w.trait_name, 0) {
            Option::Some(sid) => Result::Err(LowerError::KindMismatch),
            Option::None => Result::Err(LowerError::UnresolvedName),
        },
    }
}

pub open spec fn spec_lower_bound_list(
    structs: Seq<StructDecl>,
    traits: Seq<TraitDecl>,
    scope: IdList,
    ws: WhereAstList,
) -> Result<TraitRefList, LowerError>
    decreases ws,
{
    match ws {
        WhereAstList::Nil => Result::Ok(TraitRefList::Nil),
        WhereAstList::Cons(w, rest) => match spec_lower_bound(structs, traits, scope, w) {
            Result::Ok(tr) => match spec_lower_bound_list(structs, traits, scope, *rest) {
                Result::Ok(more) => Result::Ok(TraitRefList::Cons(tr, Box::new(more))),
                Result::Err(e) => Result::Err(e),
            },
            Result::Err(e) => Result::Err(e),
        },
    }
}

fn lower_bound_list(
    structs: &Vec<StructDecl>,
    traits: &Vec<TraitDecl>,
    scope: &IdList,
    ws: &WhereAstList,
) -> (r: Result<TraitRefList, LowerError>)
    ensures
        r == spec_lower_bound_list(structs@, traits@, *scope, *ws),
    decreases *ws,
{
    match ws {
        WhereAstList::Nil => Result::Ok(TraitRefList::Nil),
        WhereAstList::Cons(w, rest) => match lower_bound(structs, traits, scope, w) {
            Result::Ok(tr) => match lower_bound_list(structs, traits, scope, rest) {
                Result::Ok(more) => Result::Ok(TraitRefList::Cons(tr, Box::new(more))),
                Result::Err(e) => Result::Err(e),
            },
            Result::Err(e) => Result::Err(e),
        },
    }
}

// ---------------------------------------------------------------------------
// Pass two: each impl becomes one clause, in source order. The impl's
// parameter list is the clause's binder group, the first parameter at
// depth 0.

pub open spec fn spec_lower_impl(
    structs: Seq<StructDecl>,
    traits: Seq<TraitDecl>,
    params: IdList,
    trait_name: usize,
    trait_args: TyAstList,
    self_ty: TyAst,
    wheres: WhereAstList,
) -> Result<Clause, LowerError> {
    let head_ast = WhereAst { self_ty, trait_name, args: trait_args };
    match spec_lower_bound(structs, traits, params, head_ast) {
        Result::Ok(head) => match spec_lower_bound_list(structs, traits, params, wheres) {
            Result::Ok(body) => Result::Ok(
                Clause { binders: spec_id_len(params), head, body },
            ),
            Result::Err(e) => Result::Err(e),
        },
        Result::Err(e) => Result::Err(e),
    }
}

pub open spec fn spec_pass2(
    items: ItemAstList,
    structs: Seq<StructDecl>,
    traits: Seq<TraitDecl>,
    acc: Seq<Clause>,
) -> Result<Seq<Clause>, LowerError>
    decreases items,
{
    match items {
        ItemAstList::Nil => Result::Ok(acc),
        ItemAstList::Cons(it, rest) => match it {
            ItemAst::ImplDef { params, trait_name, trait_args, self_ty, wheres } => {
                match spec_lower_impl(
                    structs,
                    traits,
                    params,
                    trait_name,
                    trait_args,
                    self_ty,
                    wheres,
                ) {
                    Result::Ok(c) => spec_pass2(*rest, structs, traits, acc.push(c)),
                    Result::Err(e) => Result::Err(e),
                }
            },
            _ => spec_pass2(*rest, structs, traits, acc),
        },
    }
}

fn pass2(
    items: &ItemAstList,
    structs: &Vec<StructDecl>,
    traits: &Vec<TraitDecl>,
    acc: &mut Vec<Clause>,
) -> (r: Result<(), LowerError>)
    ensures
        r matches Result::Ok(u) ==> spec_pass2(*items, structs@, traits@, old(acc)@)
            == Result::<Seq<Clause>, LowerError>::Ok(final(acc)@),
        r matches Result::Err(e) ==> spec_pass2(*items, structs@, traits@, old(acc)@)
            == Result::<Seq<Clause>, LowerError>::Err(e),
    decreases *items,
{
    match items {
        ItemAstList::Nil => Result::Ok(()),
        ItemAstList::Cons(it, rest) => match it {
            ItemAst::ImplDef { params, trait_name, trait_args, self_ty, wheres } => {
                let head_ast = WhereAst {
                    self_ty: clone_ty_ast(self_ty),
                    trait_name: *trait_name,
                    args: clone_ty_ast_list(trait_args),
                };
                match lower_bound(structs, traits, params, &head_ast) {
                    Result::Ok(head) => match lower_bound_list(structs, traits, params, wheres) {
                        Result::Ok(body) => {
                            let binders = id_len(params);
                            acc.push(Clause { binders, head, body });
                            pass2(rest, structs, traits, acc)
                        },
                        Result::Err(e) => Result::Err(e),
                    },
                    Result::Err(e) => Result::Err(e),
                }
            },
            _ => pass2(rest, structs, traits, acc),
        },
    }
}

fn clone_ty_ast(t: &TyAst) -> (r: TyAst)
    ensures
        r == *t,
    decreases *t,
{
    TyAst { name: t.name, args: clone_ty_ast_list(&t.args) }
}

fn clone_ty_ast_list(ts: &TyAstList) -> (r: TyAstList)
    ensures
        r == *ts,
    decreases *ts,
{
    match ts {
        TyAstList::Nil => TyAstList::Nil,
        TyAstList::Cons(h, rest) => TyAstList::Cons(
            Box::new(clone_ty_ast(h)),
            Box::new(clone_ty_ast_list(rest)),
        ),
    }
}

// ---------------------------------------------------------------------------
// Whole programs and goals.

pub open spec fn spec_lower_program(
    items: ItemAstList,
    names: Seq<Seq<u8>>,
) -> Result<ProgramView, LowerError> {
    let (structs, traits) = spec_pass1(items, Seq::empty(), Seq::empty());
    match spec_pass2(items, structs, traits, Seq::empty()) {
        Result::Ok(clauses) => Result::Ok(ProgramView { names, structs, traits, clauses }),
        Result::Err(e) => Result::Err(e),
    }
}

/// Lowers a parsed program: pass one assigns ids and arities, pass two
/// lowers each impl to a clause. The name table is carried unchanged for
/// rendering.
pub fn lower_program(items: &ItemAstList, names: Vec<Vec<u8>>) -> (r: Result<Program, LowerError>)
    ensures
        r matches Result::Ok(p) ==> spec_lower_program(*items, names.deep_view()) == Result::<
            ProgramView,
            LowerError,
        >::Ok(p@),
        r matches Result::Err(e) ==> spec_lower_program(*items, names.deep_view()) == Result::<
            ProgramView,
            LowerError,
        >::Err(e),
{
    let mut structs: Vec<StructDecl> = Vec::new();
    let mut traits: Vec<TraitDecl> = Vec::new();
    proof {
        assert(structs@ =~= Seq::<StructDecl>::empty());
        assert(traits@ =~= Seq::<TraitDecl>::empty());
    }
    pass1(items, &mut structs, &mut traits);
    let mut clauses: Vec<Clause> = Vec::new();
    proof {
        assert(clauses@ =~= Seq::<Clause>::empty());
    }
    match pass2(items, &structs, &traits, &mut clauses) {
        Result::Ok(u) => Result::Ok(Program { names, structs, traits, clauses }),
        Result::Err(e) => Result::Err(e),
    }
}

pub open spec fn spec_lower_goal(
    structs: Seq<StructDecl>,
    traits: Seq<TraitDecl>,
    scope: IdList,
    g: GoalAst,
) -> Result<Goal, LowerError>
    decreases g,
{
    match g {
        GoalAst::Atom(w) => match spec_lower_bound(structs, traits, scope, w) {
            Result::Ok(tr) => Result::Ok(Goal::TraitRef(tr)),
            Result::Err(e) => Result::Err(e),
        },
        GoalAst::And(a, b) => match spec_lower_goal(structs, traits, scope, *a) {
            Result::Ok(ga) => match spec_lower_goal(structs, traits, scope, *b) {
                Result::Ok(gb) => Result::Ok(Goal::And(Box::new(ga), Box::new(gb))),
                Result::Err(e) => Result::Err(e),
            },
            Result::Err(e) => Result::Err(e),
        },
        GoalAst::Implies(w, b) => match spec_lower_bound(structs, traits, scope, w) {
            Result::Ok(head) => match spec_lower_goal(structs, traits, scope, *b) {
                Result::Ok(gb) => Result::Ok(
                    Goal::Implies(
                        Clause { binders: 0, head, body: TraitRefList::Nil },
                        Box::new(gb),
                    ),
                ),
                Result::Err(e) => Result::Err(e),
            },
            Result::Err(e) => Result::Err(e),
        },
        GoalAst::ForAll(n, b) => match spec_lower_goal(
            structs,
            traits,
            IdList::Cons(n, Box::new(scope)),
            *b,
        ) {
            Result::Ok(gb) => Result::Ok(Goal::ForAll(Box::new(gb))),
            Result::Err(e) => Result::Err(e),
        },
        GoalAst::Exists(n, b) => match spec_lower_goal(
            structs,
            traits,
            IdList::Cons(n, Box::new(scope)),
            *b,
        ) {
            Result::Ok(gb) => Result::Ok(Goal::Exists(Box::new(gb))),
            Result::Err(e) => Result::Err(e),
        },
    }
}

fn lower_goal_at(
    structs: &Vec<StructDecl>,
    traits: &Vec<TraitDecl>,
    scope: IdList,
    g: &GoalAst,
) -> (r: Result<Goal, LowerError>)
    ensures
        r == spec_lower_goal(structs@, traits@, scope, *g),
    decreases *g,
{
    match g {
        GoalAst::Atom(w) => match lower_bound(structs, traits, &scope, w) {
            Result::Ok(tr) => Result::Ok(Goal::TraitRef(tr)),
            Result::Err(e) => Result::Err(e),
        },
        GoalAst::And(a, b) => match lower_goal_at(structs, traits, clone_scope(&scope), a) {
            Result::Ok(ga) => match lower_goal_at(structs, traits, scope, b) {
                Result::Ok(gb) => Result::Ok(Goal::And(Box::new(ga), Box::new(gb))),
                Result::Err(e) => Result::Err(e),
            },
            Result::Err(e) => Result::Err(e),
        },
        GoalAst::Implies(w, b) => match lower_bound(structs, traits, &scope, w) {
            Result::Ok(head) => match lower_goal_at(structs, traits, scope, b) {
                Result::Ok(gb) => Result::Ok(
                    Goal::Implies(
                        Clause { binders: 0, head, body: TraitRefList::Nil },
                        Box::new(gb),
                    ),
                ),
                Result::Err(e) => Result::Err(e),
            },
            Result::Err(e) => Result::Err(e),
        },
        GoalAst::ForAll(n, b) => match lower_goal_at(
            structs,
            traits,
            IdList::Cons(*n, Box::new(scope)),
            b,
        ) {
            Result::Ok(gb) => Result::Ok(Goal::ForAll(Box::new(gb))),
            Result::Err(e) => Result::Err(e),
        },
        GoalAst::Exists(n, b) => match lower_goal_at(
            structs,
            traits,
            IdList::Cons(*n, Box::new(scope)),
            b,
        ) {
            Result::Ok(gb) => Result::Ok(Goal::Exists(Box::new(gb))),
            Result::Err(e) => Result::Err(e),
        },
    }
}

fn clone_scope(scope: &IdList) -> (r: IdList)
    ensures
        r == *scope,
    decreases *scope,
{
    match scope {
        IdList::Nil => IdList::Nil,
        IdList::Cons(h, rest) => IdList::Cons(*h, Box::new(clone_scope(rest))),
    }
}

// ---------------------------------------------------------------------------
// Free type parameters of a goal: bare names in type position that no
// binder, struct or trait declaration resolves. They are collected in order
// of first occurrence — the goal's declaration order — and lifted into
// `ForAll` binders around the lowered body, the first collected name
// binding the outermost level.

pub open spec fn spec_id_contains(l: IdList, x: usize) -> bool
    decreases l,
{
    match l {
        IdList::Nil => false,
        IdList::Cons(h, rest) => h == x || spec_id_contains(*rest, x),
    }
}

fn id_contains(l: &IdList, x: usize) -> (r: bool)
    ensures
        r == spec_id_contains(*l, x),
    decreases *l,
{
    match l {
        IdList::Nil => false,
        IdList::Cons(h, rest) => *h == x || id_contains(rest, x),
    }
}

pub open spec fn spec_id_append(l: IdList, x: usize) -> IdList
    decreases l,
{
    match l {
        IdList::Nil => IdList::Cons(x, Box::new(IdList::Nil)),
        IdList::Cons(h, rest) => IdList::Cons(h, Box::new(spec_id_append(*rest, x))),
    }
}

fn id_append(l: IdList, x: usize) -> (r: IdList)
    ensures
        r == spec_id_append(l, x),
    decreases l,
{
    match l {
        IdList::Nil => IdList::Cons(x, Box::new(IdList::Nil)),
        IdList::Cons(h, rest) => IdList::Cons(h, Box::new(id_append(*rest, x))),
    }
}

/// Whether a surface type is a free type parameter at this point: a bare
/// name that neither the scope nor the declarations resolve.
pub open spec fn spec_is_free_param(
    structs: Seq<StructDecl>,
    traits: Seq<TraitDecl>,
    scope: IdList,
    t: TyAst,
) -> bool {
    &&& t.args is Nil
    &&& spec_scope_depth(scope, t.name) is None
    &&& spec_find_struct(structs, t.name, 0) is None
    &&& spec_find_trait(traits, t.name, 0) is None
}

pub open spec fn spec_free_in_ty(
    structs: Seq<StructDecl>,
    traits: Seq<TraitDecl>,
    scope: IdList,
    acc: IdList,
    t: TyAst,
) -> IdList
    decreases t, 1int,
{
    let acc1 = if spec_is_free_param(structs, traits, scope, t) && !spec_id_contains(
        acc,
        t.name,
    ) {
        spec_id_append(acc, t.name)
    } else {
        acc
    };
    spec_free_in_ty_list(structs, traits, scope, acc1, t.args)
}

pub open spec fn spec_free_in_ty_list(
    structs: Seq<StructDecl>,
    traits: Seq<TraitDecl>,
    scope: IdList,
    acc: IdList,
    ts: TyAstList,
) -> IdList
    decreases ts, 0int,
{
    match ts {
        TyAstList::Nil => acc,
        TyAstList::Cons(h, rest) => spec_free_in_ty_list(
            structs,
            traits,
            scope,
            spec_free_in_ty(structs, traits, scope, acc, *h),
            *rest,
        ),
    }
}

fn free_in_ty(
    structs: &Vec<StructDecl>,
    traits: &Vec<TraitDecl>,
    scope: &IdList,
    acc: IdList,
    t: &TyAst,
) -> (r: IdList)
    ensures
        r == spec_free_in_ty(structs@, traits@, *scope, acc, *t),
    decreases *t, 1int,
{
    let bare = match &t.args {
        TyAstList::Nil => true,
        TyAstList::Cons(h, rest) => false,
    };
    let free = bare && scope_depth(scope, t.name).is_none() && find_struct(
        structs,
        t.name,
        0,
    ).is_none() && find_trait(traits, t.name, 0).is_none();
    let acc1 = if free && !id_contains(&acc, t.name) {
        id_append(acc, t.name)
    } else {
        acc
    };
    free_in_ty_list(structs, traits, scope, acc1, &t.args)
}

fn free_in_ty_list(
    structs: &Vec<StructDecl>,
    traits: &Vec<TraitDecl>,
    scope: &IdList,
    acc: IdList,
    ts: &TyAstList,
) -> (r: IdList)
    ensures
        r == spec_free_in_ty_list(structs@, traits@, *scope, acc, *ts),
    decreases *ts, 0int,
{
    match ts {
        TyAstList::Nil => acc,
        TyAstList::Cons(h, rest) => {
            let acc1 = free_in_ty(structs, traits, scope, acc, h);
            free_in_ty_list(structs, traits, scope, acc1, rest)
        },
    }
}

pub open spec fn spec_free_in_bound(
    structs: Seq<StructDecl>,
    traits: Seq<TraitDecl>,
    scope: IdList,
    acc: IdList,
    w: WhereAst,
) -> IdList {
    spec_free_in_ty_list(
        structs,
        traits,
        scope,
        spec_free_in_ty(structs, traits, scope, acc, w.self_ty),
        w.args,
    )
}

fn free_in_bound(
    structs: &Vec<StructDecl>,
    traits: &Vec<TraitDecl>,
    scope: &IdList,
    acc: IdList,
    w: &WhereAst,
) -> (r: IdList)
    ensures
        r == spec_free_in_bound(structs@, traits@, *scope, acc, *w),
{
    let acc1 = free_in_ty(structs, traits, scope, acc, &w.self_ty);
    free_in_ty_list(structs, traits, scope, acc1, &w.args)
}

pub open spec fn spec_free_in_goal(
    structs: Seq<StructDecl>,
    traits: Seq<TraitDecl>,
    scope: IdList,
    acc: IdList,
    g: GoalAst,
) -> IdList
    decreases g,
{
    match g {
        GoalAst::Atom(w) => spec_free_in_bound(structs, traits, scope, acc, w),
        GoalAst::And(a, b) => spec_free_in_goal(
            structs,
            traits,
            scope,
            spec_free_in_goal(structs, traits, scope, acc, *a),
            *b,
        ),
        GoalAst::Implies(w, b) => spec_free_in_goal(
            structs,
            traits,
            scope,
            spec_free_in_bound(structs, traits, scope, acc, w),
            *b,
        ),
        GoalAst::ForAll(n, b) => spec_free_in_goal(
            structs,
            traits,
            IdList::Cons(n, Box::new(scope)),
            acc,
            *b,
        ),
        GoalAst::Exists(n, b) => spec_free_in_goal(
            structs,
            traits,
            IdList::Cons(n, Box::new(scope)),
            acc,
            *b,
        ),
    }
}

fn free_in_goal(
    structs: &Vec<StructDecl>,
    traits: &Vec<TraitDecl>,
    scope: &IdList,
    acc: IdList,
    g: &GoalAst,
) -> (r: IdList)
    ensures
        r == spec_free_in_goal(structs@, traits@, *scope, acc, *g),
    decreases *g,
{
    match g {
        GoalAst::Atom(w) => free_in_bound(structs, traits, scope, acc, w),
        GoalAst::And(a, b) => {
            let acc1 = free_in_goal(structs, traits, scope, acc, a);
            free_in_goal(structs, traits, scope, acc1, b)
        },
        GoalAst::Implies(w, b) => {
            let acc1 = free_in_bound(structs, traits, scope, acc, w);
            free_in_goal(structs, traits, scope, acc1, b)
        },
        GoalAst::ForAll(n, b) => {
            let inner = IdList::Cons(*n, Box::new(clone_scope(scope)));
            free_in_goal(structs, traits, &inner, acc, b)
        },
        GoalAst::Exists(n, b) => {
            let inner = IdList::Cons(*n, Box::new(clone_scope(scope)));
            free_in_goal(structs, traits, &inner, acc, b)
        },
    }
}

pub open spec fn spec_reverse_onto(l: IdList, acc: IdList) -> IdList
    decreases l,
{
    match l {
        IdList::Nil => acc,
        IdList::Cons(h, rest) => spec_reverse_onto(*rest, IdList::Cons(h, Box::new(acc))),
    }
}

fn reverse_onto(l: IdList, acc: IdList) -> (r: IdList)
    ensures
        r == spec_reverse_onto(l, acc),
    decreases l,
{
    match l {
        IdList::Nil => acc,
        IdList::Cons(h, rest) => reverse_onto(*rest, IdList::Cons(h, Box::new(acc))),
    }
}

pub open spec fn spec_wrap_foralls(k: nat, g: Goal) -> Goal
    decreases k,
{
    if k == 0 {
        g
    } else {
        Goal::ForAll(Box::new(spec_wrap_foralls((k - 1) as nat, g)))
    }
}

fn wrap_foralls(k: usize, g: Goal) -> (r: Goal)
    ensures
        r == spec_wrap_foralls(k as nat, g),
    decreases k,
{
    if k == 0 {
        g
    } else {
        Goal::ForAll(Box::new(wrap_foralls(k - 1, g)))
    }
}

/// What lowering a whole goal gives: its free type parameters, in order of
/// first occurrence, are lifted into `ForAll` binders around the lowered
/// body, the first outermost; the body is lowered with those parameters in
/// scope.
pub open spec fn spec_lower_goal_entry(
    structs: Seq<StructDecl>,
    traits: Seq<TraitDecl>,
    g: GoalAst,
) -> Result<Goal, LowerError> {
    let frees = spec_free_in_goal(structs, traits, IdList::Nil, IdList::Nil, g);
    let scope = spec_reverse_onto(frees, IdList::Nil);
    match spec_lower_goal(structs, traits, scope, g) {
        Result::Ok(body) => Result::Ok(spec_wrap_foralls(spec_id_len(frees) as nat, body)),
        Result::Err(e) => Result::Err(e),
    }
}

/// Lowers a parsed goal against a program: names resolve to the program's
/// ids, binders open one de Bruijn level each, and free type parameters are
/// lifted into `ForAll` binders in declaration order.
pub fn lower_goal(prog: &Program, g: &GoalAst) -> (r: Result<Goal, LowerError>)
    ensures
        r == spec_lower_goal_entry(prog.structs@, prog.traits@, *g),
{
    let frees = free_in_goal(&prog.structs, &prog.traits, &IdList::Nil, IdList::Nil, g);
    let k = id_len(&frees);
    let scope = reverse_onto(frees, IdList::Nil);
    match lower_goal_at(&prog.structs, &prog.traits, scope, g) {
        Result::Ok(body) => Result::Ok(wrap_foralls(k, body)),
        Result::Err(e) => Result::Err(e),
    }
}


// ---------------------------------------------------------------------------
// Lowered impls are closed clauses: every bound variable names one of the
// impl's parameters, and no placeholder or inference variable occurs. These
// lemmas state the invariant that stored clauses obey.

/// A name found in the scope lies below the scope's length (counts saturate
/// only past usize::MAX entries, which no scope in memory reaches).
proof fn lemma_scope_depth_lt(scope: IdList, name: usize)
    requires
        spec_id_len(scope) < usize::MAX,
        spec_scope_depth(scope, name) is Some,
    ensures
        (spec_scope_depth(scope, name)->Some_0 as nat) < spec_id_len(scope) as nat,
    decreases scope,
{
    match scope {
        IdList::Nil => {},
        IdList::Cons(h, rest) => {
            if h == name {
            } else {
                lemma_scope_depth_lt(*rest, name);
            }
        },
    }
}

proof fn lemma_lower_ty_wf(
    structs: Seq<StructDecl>,
    traits: Seq<TraitDecl>,
    scope: IdList,
    t: TyAst,
)
    requires
        spec_id_len(scope) < usize::MAX,
        spec_lower_ty(structs, traits, scope, t) is Ok,
    ensures
        ty_wf_under(spec_lower_ty(structs, traits, scope, t)->Ok_0, spec_id_len(scope) as nat),
    decreases t, 1int,
{
    match spec_scope_depth(scope, t.name) {
        Option::Some(d) => {
            lemma_scope_depth_lt(scope, t.name);
        },
        Option::None => {
            lemma_lower_ty_list_wf(structs, traits, scope, t.args);
        },
    }
}

proof fn lemma_lower_ty_list_wf(
    structs: Seq<StructDecl>,
    traits: Seq<TraitDecl>,
    scope: IdList,
    ts: TyAstList,
)
    requires
        spec_id_len(scope) < usize::MAX,
        spec_lower_ty_list(structs, traits, scope, ts) is Ok,
    ensures
        ty_list_wf_under(
            spec_lower_ty_list(structs, traits, scope, ts)->Ok_0,
            spec_id_len(scope) as nat,
        ),
    decreases ts, 0int,
{
    match ts {
        TyAstList::Nil => {},
        TyAstList::Cons(h, rest) => {
            lemma_lower_ty_wf(structs, traits, scope, *h);
            lemma_lower_ty_list_wf(structs, traits, scope, *rest);
        },
    }
}

proof fn lemma_lower_bound_wf(
    structs: Seq<StructDecl>,
    traits: Seq<TraitDecl>,
    scope: IdList,
    w: WhereAst,
)
    requires
        spec_id_len(scope) < usize::MAX,
        spec_lower_bound(structs, traits, scope, w) is Ok,
    ensures
        trait_ref_wf_under(
            spec_lower_bound(structs, traits, scope, w)->Ok_0,
            spec_id_len(scope) as nat,
        ),
{
    lemma_lower_ty_wf(structs, traits, scope, w.self_ty);
    lemma_lower_ty_list_wf(structs, traits, scope, w.args);
}

proof fn lemma_lower_bound_list_wf(
    structs: Seq<StructDecl>,
    traits: Seq<TraitDecl>,
    scope: IdList,
    ws: WhereAstList,
)
    requires
        spec_id_len(scope) < usize::MAX,
        spec_lower_bound_list(structs, traits, scope, ws) is Ok,
    ensures
        trait_ref_list_wf_under(
            spec_lower_bound_list(structs, traits, scope, ws)->Ok_0,
            spec_id_len(scope) as nat,
        ),
    decreases ws,
{
    match ws {
        WhereAstList::Nil => {},
        WhereAstList::Cons(w, rest) => {
            lemma_lower_bound_wf(structs, traits, scope, w);
            lemma_lower_bound_list_wf(structs, traits, scope, *rest);
        },
    }
}

/// Every clause that lowering an impl produces is closed under its binders.
pub proof fn lemma_lower_impl_wf(
    structs: Seq<StructDecl>,
    traits: Seq<TraitDecl>,
    params: IdList,
    trait_name: usize,
    trait_args: TyAstList,
    self_ty: TyAst,
    wheres: WhereAstList,
)
    requires
        spec_id_len(params) < usize::MAX,
        spec_lower_impl(structs, traits, params, trait_name, trait_args, self_ty, wheres) is Ok,
    ensures
        clause_wf(
            spec_lower_impl(structs, traits, params, trait_name, trait_args, self_ty, wheres)
                ->Ok_0,
        ),
{
    let head_ast = WhereAst { self_ty, trait_name, args: trait_args };
    lemma_lower_bound_wf(structs, traits, params, head_ast);
    lemma_lower_bound_list_wf(structs, traits, params, wheres);
}

/// Every clause of a lowered program is closed: bound variables stay under
/// their binder group, and neither placeholders nor inference variables are
/// stored. The bound on each impl's parameter count is a machine limit no
/// parsed program reaches.
pub proof fn lemma_lowered_clauses_wf(
    items: ItemAstList,
    structs: Seq<StructDecl>,
    traits: Seq<TraitDecl>,
    acc: Seq<Clause>,
)
    requires
        items_params_small(items),
        spec_pass2(items, structs, traits, acc) is Ok,
        forall|i: int| 0 <= i < acc.len() ==> clause_wf(#[trigger] acc[i]),
    ensures
        forall|i: int|
            0 <= i < spec_pass2(items, structs, traits, acc)->Ok_0.len() ==> clause_wf(
                #[trigger] spec_pass2(items, structs, traits, acc)->Ok_0[i],
            ),
    decreases items,
{
    match items {
        ItemAstList::Nil => {},
        ItemAstList::Cons(it, rest) => match it {
            ItemAst::ImplDef { params, trait_name, trait_args, self_ty, wheres } => {
                match spec_lower_impl(
                    structs,
                    traits,
                    params,
                    trait_name,
                    trait_args,
                    self_ty,
                    wheres,
                ) {
                    Result::Ok(c) => {
                        lemma_lower_impl_wf(
                            structs,
                            traits,
                            params,
                            trait_name,
                            trait_args,
                            self_ty,
                            wheres,
                        );
                        lemma_lowered_clauses_wf(*rest, structs, traits, acc.push(c));
                    },
                    Result::Err(e) => {},
                }
            },
            _ => {
                lemma_lowered_clauses_wf(*rest, structs, traits, acc);
            },
        },
    }
}

/// Every impl's parameter list is shorter than usize::MAX.
pub open spec fn items_params_small(items: ItemAstList) -> bool
    decreases items,
{
    match items {
        ItemAstList::Nil => true,
        ItemAstList::Cons(it, rest) => {
            let head_ok = match it {
                ItemAst::ImplDef { params, trait_name, trait_args, self_ty, wheres } => spec_id_len(
                    params,
                ) < usize::MAX,
                _ => true,
            };
            head_ok && items_params_small(*rest)
        },
    }
}


// ---------------------------------------------------------------------------
// Lowered goals are closed: every bound variable points at a binder, and
// neither placeholders nor inference variables occur. The machine-limit
// hypotheses never bind on parsed input.

/// The deepest binder nesting of a surface goal.
pub open spec fn spec_goal_ast_depth(g: GoalAst) -> nat
    decreases g,
{
    match g {
        GoalAst::Atom(w) => 0,
        GoalAst::And(a, b) => {
            let da = spec_goal_ast_depth(*a);
            let db = spec_goal_ast_depth(*b);
            if da >= db {
                da
            } else {
                db
            }
        },
        GoalAst::Implies(w, b) => spec_goal_ast_depth(*b),
        GoalAst::ForAll(n, b) => 1 + spec_goal_ast_depth(*b),
        GoalAst::Exists(n, b) => 1 + spec_goal_ast_depth(*b),
    }
}

proof fn lemma_lower_goal_wf(
    structs: Seq<StructDecl>,
    traits: Seq<TraitDecl>,
    scope: IdList,
    g: GoalAst,
)
    requires
        spec_id_len(scope) + spec_goal_ast_depth(g) < usize::MAX,
        spec_lower_goal(structs, traits, scope, g) is Ok,
    ensures
        goal_wf_under(
            spec_lower_goal(structs, traits, scope, g)->Ok_0,
            spec_id_len(scope) as nat,
        ),
    decreases g,
{
    match g {
        GoalAst::Atom(w) => {
            lemma_lower_bound_wf(structs, traits, scope, w);
        },
        GoalAst::And(a, b) => {
            lemma_lower_goal_wf(structs, traits, scope, *a);
            lemma_lower_goal_wf(structs, traits, scope, *b);
        },
        GoalAst::Implies(w, b) => {
            lemma_lower_bound_wf(structs, traits, scope, w);
            lemma_lower_goal_wf(structs, traits, scope, *b);
        },
        GoalAst::ForAll(n, b) => {
            lemma_lower_goal_wf(structs, traits, IdList::Cons(n, Box::new(scope)), *b);
        },
        GoalAst::Exists(n, b) => {
            lemma_lower_goal_wf(structs, traits, IdList::Cons(n, Box::new(scope)), *b);
        },
    }
}

proof fn lemma_wrap_foralls_wf(k: nat, d: nat, g: Goal)
    requires
        goal_wf_under(g, d + k),
    ensures
        goal_wf_under(spec_wrap_foralls(k, g), d),
    decreases k,
{
    if k > 0 {
        lemma_wrap_foralls_wf((k - 1) as nat, d + 1, g);
    }
}

proof fn lemma_reverse_onto_len(l: IdList, acc: IdList)
    requires
        spec_id_len(l) + spec_id_len(acc) < usize::MAX,
    ensures
        spec_id_len(spec_reverse_onto(l, acc)) == spec_id_len(l) + spec_id_len(acc),
    decreases l,
{
    match l {
        IdList::Nil => {},
        IdList::Cons(h, rest) => {
            lemma_reverse_onto_len(*rest, IdList::Cons(h, Box::new(acc)));
        },
    }
}

/// Every goal that lowering produces is closed at the top: all bound
/// variables point at the lifted or explicit binders, and no placeholder or
/// inference variable occurs.
pub proof fn lemma_lower_goal_entry_wf(
    structs: Seq<StructDecl>,
    traits: Seq<TraitDecl>,
    g: GoalAst,
)
    requires
        spec_id_len(spec_free_in_goal(structs, traits, IdList::Nil, IdList::Nil, g))
            + spec_goal_ast_depth(g) < usize::MAX,
        spec_lower_goal_entry(structs, traits, g) is Ok,
    ensures
        goal_wf_under(spec_lower_goal_entry(structs, traits, g)->Ok_0, 0),
{
    let frees = spec_free_in_goal(structs, traits, IdList::Nil, IdList::Nil, g);
    let scope = spec_reverse_onto(frees, IdList::Nil);
    lemma_reverse_onto_len(frees, IdList::Nil);
    lemma_lower_goal_wf(structs, traits, scope, g);
    match spec_lower_goal(structs, traits, scope, g) {
        Result::Ok(body) => {
            lemma_wrap_foralls_wf(spec_id_len(frees) as nat, 0, body);
        },
        Result::Err(e) => {},
    }
}

} // verus!
