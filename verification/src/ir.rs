use vstd::prelude::*;

verus! {

/// A type term.
///
/// `BoundVar` is a de Bruijn index: depth 0 is the nearest enclosing binder.
/// A clause with `binders` parameters counts as `binders` nested levels, the
/// first declared parameter being the outermost. `Placeholder` is the rigid
/// stand-in for a universally bound parameter, tagged with the universe of
/// its binder. `Infer` is a unification variable owned by one solver run.
pub enum Ty {
    Apply { head: usize, args: TyList },
    BoundVar { depth: usize },
    Placeholder { universe: usize, index: usize },
    Infer { var: usize },
}

/// Argument list of a type application.
pub enum TyList {
    Nil,
    Cons(Box<Ty>, Box<TyList>),
}

/// The proposition that the listed types implement the trait `trait_id`;
/// the first argument is the implicit `Self`.
pub struct TraitRef {
    pub trait_id: usize,
    pub args: TyList,
}

pub enum TraitRefList {
    Nil,
    Cons(TraitRef, Box<TraitRefList>),
}

/// A program clause `forall<binders> head :- body`: the head holds whenever
/// every trait reference of the body holds. All parameters are type
/// parameters in this core.
pub struct Clause {
    pub binders: usize,
    pub head: TraitRef,
    pub body: TraitRefList,
}

pub enum ClauseList {
    Nil,
    Cons(Clause, Box<ClauseList>),
}

/// A goal to prove. Each `ForAll` and `Exists` binds exactly one type
/// parameter; nested binders give consecutive de Bruijn depths.
pub enum Goal {
    TraitRef(TraitRef),
    And(Box<Goal>, Box<Goal>),
    Implies(Clause, Box<Goal>),
    ForAll(Box<Goal>),
    Exists(Box<Goal>),
}

/// A struct declaration: an interned name and the number of type parameters.
pub struct StructDecl {
    pub name: usize,
    pub arity: usize,
}

/// A trait declaration: an interned name and the number of type parameters
/// counting the implicit `Self`.
pub struct TraitDecl {
    pub name: usize,
    pub arity: usize,
}

/// A lowered program: interned name table, declared structs and traits
/// (ids are positions), and the impl clauses in source order. Immutable
/// once built.
pub struct Program {
    pub names: Vec<Vec<u8>>,
    pub structs: Vec<StructDecl>,
    pub traits: Vec<TraitDecl>,
    pub clauses: Vec<Clause>,
}

/// Ghost image of a `Program`, with sequences in place of vectors.
pub ghost struct ProgramView {
    pub names: Seq<Seq<u8>>,
    pub structs: Seq<StructDecl>,
    pub traits: Seq<TraitDecl>,
    pub clauses: Seq<Clause>,
}

impl View for Program {
    type V = ProgramView;

    open spec fn view(&self) -> ProgramView {
        ProgramView {
            names: self.names.deep_view(),
            structs: self.structs@,
            traits: self.traits@,
            clauses: self.clauses@,
        }
    }
}

/// Hypotheses in scope and the current universe. The hypothesis list is
/// newest-first, which is also the order in which candidates are tried.
pub struct Env {
    pub universe: usize,
    pub clauses: ClauseList,
}

// ---------------------------------------------------------------------------
// Sizes, used as termination measures.

pub open spec fn goal_size(g: Goal) -> nat
    decreases g,
{
    match g {
        Goal::TraitRef(_) => 1,
        Goal::And(a, b) => 1 + goal_size(*a) + goal_size(*b),
        Goal::Implies(_, b) => 1 + goal_size(*b),
        Goal::ForAll(b) => 1 + goal_size(*b),
        Goal::Exists(b) => 1 + goal_size(*b),
    }
}

pub open spec fn clause_list_len(l: ClauseList) -> nat
    decreases l,
{
    match l {
        ClauseList::Nil => 0,
        ClauseList::Cons(_, rest) => 1 + clause_list_len(*rest),
    }
}

pub open spec fn trait_ref_list_len(l: TraitRefList) -> nat
    decreases l,
{
    match l {
        TraitRefList::Nil => 0,
        TraitRefList::Cons(_, rest) => 1 + trait_ref_list_len(*rest),
    }
}

// ---------------------------------------------------------------------------
// Saturating addition for binder levels. A level only ever saturates when a
// term's binder nesting approaches usize::MAX, which no term held in memory
// reaches.

pub open spec fn spec_level_add(l: usize, k: usize) -> usize {
    if l > usize::MAX - k {
        usize::MAX
    } else {
        (l + k) as usize
    }
}

pub fn level_add(l: usize, k: usize) -> (r: usize)
    ensures
        r == spec_level_add(l, k),
{
    if l > usize::MAX - k {
        usize::MAX
    } else {
        l + k
    }
}

// ---------------------------------------------------------------------------
// Indexing a type list; out-of-range positions give an arbitrary fixed term,
// and never arise on well-formed terms.

pub open spec fn spec_ty_at(l: TyList, i: usize) -> Ty
    decreases l,
{
    match l {
        TyList::Nil => Ty::BoundVar { depth: 0 },
        TyList::Cons(head, rest) => if i == 0 {
            *head
        } else {
            spec_ty_at(*rest, (i - 1) as usize)
        },
    }
}

pub fn ty_at(l: &TyList, i: usize) -> (r: Ty)
    ensures
        r == spec_ty_at(*l, i),
    decreases *l,
{
    match l {
        TyList::Nil => Ty::BoundVar { depth: 0 },
        TyList::Cons(head, rest) => if i == 0 {
            clone_ty(head)
        } else {
            ty_at(rest, i - 1)
        },
    }
}

// ---------------------------------------------------------------------------
// Deep clones with exact contracts (a derived clone says nothing to the
// verifier).

pub fn clone_ty(t: &Ty) -> (r: Ty)
    ensures
        r == *t,
    decreases *t,
{
    match t {
        Ty::Apply { head, args } => Ty::Apply { head: *head, args: clone_ty_list(args) },
        Ty::BoundVar { depth } => Ty::BoundVar { depth: *depth },
        Ty::Placeholder { universe, index } => Ty::Placeholder {
            universe: *universe,
            index: *index,
        },
        Ty::Infer { var } => Ty::Infer { var: *var },
    }
}

pub fn clone_ty_list(l: &TyList) -> (r: TyList)
    ensures
        r == *l,
    decreases *l,
{
    match l {
        TyList::Nil => TyList::Nil,
        TyList::Cons(head, rest) => TyList::Cons(
            Box::new(clone_ty(head)),
            Box::new(clone_ty_list(rest)),
        ),
    }
}

pub fn clone_trait_ref(t: &TraitRef) -> (r: TraitRef)
    ensures
        r == *t,
{
    TraitRef { trait_id: t.trait_id, args: clone_ty_list(&t.args) }
}

pub fn clone_trait_ref_list(l: &TraitRefList) -> (r: TraitRefList)
    ensures
        r == *l,
    decreases *l,
{
    match l {
        TraitRefList::Nil => TraitRefList::Nil,
        TraitRefList::Cons(head, rest) => TraitRefList::Cons(
            clone_trait_ref(head),
            Box::new(clone_trait_ref_list(rest)),
        ),
    }
}

pub fn clone_clause(c: &Clause) -> (r: Clause)
    ensures
        r == *c,
{
    Clause {
        binders: c.binders,
        head: clone_trait_ref(&c.head),
        body: clone_trait_ref_list(&c.body),
    }
}

pub fn clone_clause_list(l: &ClauseList) -> (r: ClauseList)
    ensures
        r == *l,
    decreases *l,
{
    match l {
        ClauseList::Nil => ClauseList::Nil,
        ClauseList::Cons(head, rest) => ClauseList::Cons(
            clone_clause(head),
            Box::new(clone_clause_list(rest)),
        ),
    }
}

pub fn clone_env(e: &Env) -> (r: Env)
    ensures
        r == *e,
{
    Env { universe: e.universe, clauses: clone_clause_list(&e.clauses) }
}

// ---------------------------------------------------------------------------
// Substitution of bound variables. `subst_ty(t, l, repls, k)` replaces
// `BoundVar { depth: l + j }` for `j < k` by the `j`-th replacement and
// shifts deeper references down by `k`; references below `l` are untouched.
// Replacement terms are closed (placeholders, inference variables or ground
// applications), so no shifting of the replacements is needed.

pub open spec fn spec_subst_ty(t: Ty, l: usize, repls: TyList, k: usize) -> Ty
    decreases t,
{
    match t {
        Ty::Apply { head, args } => Ty::Apply {
            head,
            args: spec_subst_ty_list(args, l, repls, k),
        },
        Ty::BoundVar { depth } => if depth < l {
            Ty::BoundVar { depth }
        } else {
            if depth - l < k {
                spec_ty_at(repls, (depth - l) as usize)
            } else {
                Ty::BoundVar { depth: (depth - k) as usize }
            }
        },
        Ty::Placeholder { universe, index } => Ty::Placeholder { universe, index },
        Ty::Infer { var } => Ty::Infer { var },
    }
}

pub open spec fn spec_subst_ty_list(ts: TyList, l: usize, repls: TyList, k: usize) -> TyList
    decreases ts,
{
    match ts {
        TyList::Nil => TyList::Nil,
        TyList::Cons(head, rest) => TyList::Cons(
            Box::new(spec_subst_ty(*head, l, repls, k)),
            Box::new(spec_subst_ty_list(*rest, l, repls, k)),
        ),
    }
}

pub fn subst_ty(t: &Ty, l: usize, repls: &TyList, k: usize) -> (r: Ty)
    ensures
        r == spec_subst_ty(*t, l, *repls, k),
    decreases *t,
{
    match t {
        Ty::Apply { head, args } => Ty::Apply {
            head: *head,
            args: subst_ty_list(args, l, repls, k),
        },
        Ty::BoundVar { depth } => {
            let d = *depth;
            if d < l {
                Ty::BoundVar { depth: d }
            } else {
                if d - l < k {
                    ty_at(repls, d - l)
                } else {
                    Ty::BoundVar { depth: d - k }
                }
            }
        },
        Ty::Placeholder { universe, index } => Ty::Placeholder {
            universe: *universe,
            index: *index,
        },
        Ty::Infer { var } => Ty::Infer { var: *var },
    }
}

pub fn subst_ty_list(ts: &TyList, l: usize, repls: &TyList, k: usize) -> (r: TyList)
    ensures
        r == spec_subst_ty_list(*ts, l, *repls, k),
    decreases *ts,
{
    match ts {
        TyList::Nil => TyList::Nil,
        TyList::Cons(head, rest) => TyList::Cons(
            Box::new(subst_ty(head, l, repls, k)),
            Box::new(subst_ty_list(rest, l, repls, k)),
        ),
    }
}

pub open spec fn spec_subst_trait_ref(t: TraitRef, l: usize, repls: TyList, k: usize) -> TraitRef {
    TraitRef { trait_id: t.trait_id, args: spec_subst_ty_list(t.args, l, repls, k) }
}

pub fn subst_trait_ref(t: &TraitRef, l: usize, repls: &TyList, k: usize) -> (r: TraitRef)
    ensures
        r == spec_subst_trait_ref(*t, l, *repls, k),
{
    TraitRef { trait_id: t.trait_id, args: subst_ty_list(&t.args, l, repls, k) }
}

pub open spec fn spec_subst_trait_ref_list(
    ts: TraitRefList,
    l: usize,
    repls: TyList,
    k: usize,
) -> TraitRefList
    decreases ts,
{
    match ts {
        TraitRefList::Nil => TraitRefList::Nil,
        TraitRefList::Cons(head, rest) => TraitRefList::Cons(
            spec_subst_trait_ref(head, l, repls, k),
            Box::new(spec_subst_trait_ref_list(*rest, l, repls, k)),
        ),
    }
}

pub fn subst_trait_ref_list(ts: &TraitRefList, l: usize, repls: &TyList, k: usize) -> (r:
    TraitRefList)
    ensures
        r == spec_subst_trait_ref_list(*ts, l, *repls, k),
    decreases *ts,
{
    match ts {
        TraitRefList::Nil => TraitRefList::Nil,
        TraitRefList::Cons(head, rest) => TraitRefList::Cons(
            subst_trait_ref(head, l, repls, k),
            Box::new(subst_trait_ref_list(rest, l, repls, k)),
        ),
    }
}

/// Substituting inside a clause crosses the clause's own binders.
pub open spec fn spec_subst_clause(c: Clause, l: usize, repls: TyList, k: usize) -> Clause {
    Clause {
        binders: c.binders,
        head: spec_subst_trait_ref(c.head, spec_level_add(l, c.binders), repls, k),
        body: spec_subst_trait_ref_list(c.body, spec_level_add(l, c.binders), repls, k),
    }
}

pub fn subst_clause(c: &Clause, l: usize, repls: &TyList, k: usize) -> (r: Clause)
    ensures
        r == spec_subst_clause(*c, l, *repls, k),
{
    let inner = level_add(l, c.binders);
    Clause {
        binders: c.binders,
        head: subst_trait_ref(&c.head, inner, repls, k),
        body: subst_trait_ref_list(&c.body, inner, repls, k),
    }
}

pub open spec fn spec_subst_goal(g: Goal, l: usize, repls: TyList, k: usize) -> Goal
    decreases g,
{
    match g {
        Goal::TraitRef(t) => Goal::TraitRef(spec_subst_trait_ref(t, l, repls, k)),
        Goal::And(a, b) => Goal::And(
            Box::new(spec_subst_goal(*a, l, repls, k)),
            Box::new(spec_subst_goal(*b, l, repls, k)),
        ),
        Goal::Implies(c, b) => Goal::Implies(
            spec_subst_clause(c, l, repls, k),
            Box::new(spec_subst_goal(*b, l, repls, k)),
        ),
        Goal::ForAll(b) => Goal::ForAll(
            Box::new(spec_subst_goal(*b, spec_level_add(l, 1), repls, k)),
        ),
        Goal::Exists(b) => Goal::Exists(
            Box::new(spec_subst_goal(*b, spec_level_add(l, 1), repls, k)),
        ),
    }
}

pub fn subst_goal(g: &Goal, l: usize, repls: &TyList, k: usize) -> (r: Goal)
    ensures
        r == spec_subst_goal(*g, l, *repls, k),
    decreases *g,
{
    match g {
        Goal::TraitRef(t) => Goal::TraitRef(subst_trait_ref(t, l, repls, k)),
        Goal::And(a, b) => Goal::And(
            Box::new(subst_goal(a, l, repls, k)),
            Box::new(subst_goal(b, l, repls, k)),
        ),
        Goal::Implies(c, b) => Goal::Implies(
            subst_clause(c, l, repls, k),
            Box::new(subst_goal(b, l, repls, k)),
        ),
        Goal::ForAll(b) => Goal::ForAll(Box::new(subst_goal(b, level_add(l, 1), repls, k))),
        Goal::Exists(b) => Goal::Exists(Box::new(subst_goal(b, level_add(l, 1), repls, k))),
    }
}

/// Substitution does not change the goal's shape, only the terms inside it,
/// so the goal's size is kept. The solver's termination measure rests on
/// this.
pub proof fn lemma_subst_goal_size(g: Goal, l: usize, repls: TyList, k: usize)
    ensures
        goal_size(spec_subst_goal(g, l, repls, k)) == goal_size(g),
    decreases g,
{
    match g {
        Goal::TraitRef(_) => {},
        Goal::And(a, b) => {
            lemma_subst_goal_size(*a, l, repls, k);
            lemma_subst_goal_size(*b, l, repls, k);
        },
        Goal::Implies(_, b) => {
            lemma_subst_goal_size(*b, l, repls, k);
        },
        Goal::ForAll(b) => {
            lemma_subst_goal_size(*b, spec_level_add(l, 1), repls, k);
        },
        Goal::Exists(b) => {
            lemma_subst_goal_size(*b, spec_level_add(l, 1), repls, k);
        },
    }
}


// ---------------------------------------------------------------------------
// Well-formedness of stored clauses: every bound variable points at one of
// the clause's own binders, and neither placeholders nor inference variables
// occur. Lowering establishes this; placeholders and inference variables
// exist only in live goals during solving.

pub open spec fn ty_wf_under(t: Ty, binders: nat) -> bool
    decreases t,
{
    match t {
        Ty::Apply { head, args } => ty_list_wf_under(args, binders),
        Ty::BoundVar { depth } => (depth as nat) < binders,
        Ty::Placeholder { universe, index } => false,
        Ty::Infer { var } => false,
    }
}

pub open spec fn ty_list_wf_under(ts: TyList, binders: nat) -> bool
    decreases ts,
{
    match ts {
        TyList::Nil => true,
        TyList::Cons(h, rest) => ty_wf_under(*h, binders) && ty_list_wf_under(*rest, binders),
    }
}

pub open spec fn trait_ref_wf_under(tr: TraitRef, binders: nat) -> bool {
    ty_list_wf_under(tr.args, binders)
}

pub open spec fn trait_ref_list_wf_under(ts: TraitRefList, binders: nat) -> bool
    decreases ts,
{
    match ts {
        TraitRefList::Nil => true,
        TraitRefList::Cons(h, rest) => trait_ref_wf_under(h, binders) && trait_ref_list_wf_under(
            *rest,
            binders,
        ),
    }
}

/// A stored program clause is closed under its own binder group.
pub open spec fn clause_wf(c: Clause) -> bool {
    trait_ref_wf_under(c.head, c.binders as nat) && trait_ref_list_wf_under(
        c.body,
        c.binders as nat,
    )
}


/// A live goal is closed at `depth` enclosing binder levels: every bound
/// variable points at a binder, counting the binder groups of hypothesis
/// clauses, and neither placeholders nor inference variables occur.
pub open spec fn goal_wf_under(g: Goal, depth: nat) -> bool
    decreases g,
{
    match g {
        Goal::TraitRef(tr) => trait_ref_wf_under(tr, depth),
        Goal::And(a, b) => goal_wf_under(*a, depth) && goal_wf_under(*b, depth),
        Goal::Implies(c, b) => trait_ref_wf_under(c.head, depth + c.binders as nat)
            && trait_ref_list_wf_under(c.body, depth + c.binders as nat) && goal_wf_under(
            *b,
            depth,
        ),
        Goal::ForAll(b) => goal_wf_under(*b, depth + 1),
        Goal::Exists(b) => goal_wf_under(*b, depth + 1),
    }
}

} // verus!
