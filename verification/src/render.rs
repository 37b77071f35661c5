use vstd::prelude::*;
use crate::ir::{Clause, ClauseList, Env, StructDecl, TraitDecl, TraitRef, TraitRefList, Ty,
    TyList};

verus! {

// ---------------------------------------------------------------------------
// Fixed fragments of the rendered output, as bytes.

/// The bytes of `Yes`.
pub open spec fn spec_frag_yes() -> Seq<u8> {
    seq![89u8, 101u8, 115u8]
}

pub fn push_frag_yes(out: &mut Vec<u8>) -> (r: ())
    ensures
        final(out)@ == old(out)@ + spec_frag_yes(),
{
    out.push(89u8);
    out.push(101u8);
    out.push(115u8);
    proof {
        assert(out@ =~= old(out)@ + spec_frag_yes());
    }
}

/// The bytes of `overflow`.
pub open spec fn spec_frag_overflow() -> Seq<u8> {
    seq![111u8, 118u8, 101u8, 114u8, 102u8, 108u8, 111u8, 119u8]
}

#[verifier::rlimit(50)]
pub fn push_frag_overflow(out: &mut Vec<u8>) -> (r: ())
    ensures
        final(out)@ == old(out)@ + spec_frag_overflow(),
{
    out.push(111u8);
    out.push(118u8);
    out.push(101u8);
    out.push(114u8);
    out.push(102u8);
    out.push(108u8);
    out.push(111u8);
    out.push(119u8);
    proof {
        assert(out@ =~= old(out)@ + spec_frag_overflow());
    }
}

/// The bytes of `internal invariant violation`.
pub open spec fn spec_frag_internal() -> Seq<u8> {
    seq![105u8, 110u8, 116u8, 101u8, 114u8, 110u8, 97u8, 108u8, 32u8, 105u8, 110u8, 118u8, 97u8, 114u8, 105u8, 97u8, 110u8, 116u8, 32u8, 118u8, 105u8, 111u8, 108u8, 97u8, 116u8, 105u8, 111u8, 110u8]
}

#[verifier::rlimit(50)]
pub fn push_frag_internal(out: &mut Vec<u8>) -> (r: ())
    ensures
        final(out)@ == old(out)@ + spec_frag_internal(),
{
    out.push(105u8);
    out.push(110u8);
    out.push(116u8);
    out.push(101u8);
    out.push(114u8);
    out.push(110u8);
    out.push(97u8);
    out.push(108u8);
    out.push(32u8);
    out.push(105u8);
    out.push(110u8);
    out.push(118u8);
    out.push(97u8);
    out.push(114u8);
    out.push(105u8);
    out.push(97u8);
    out.push(110u8);
    out.push(116u8);
    out.push(32u8);
    out.push(118u8);
    out.push(105u8);
    out.push(111u8);
    out.push(108u8);
    out.push(97u8);
    out.push(116u8);
    out.push(105u8);
    out.push(111u8);
    out.push(110u8);
    proof {
        assert(out@ =~= old(out)@ + spec_frag_internal());
    }
}

/// The bytes of ```.
pub open spec fn spec_frag_backtick() -> Seq<u8> {
    seq![96u8]
}

pub fn push_frag_backtick(out: &mut Vec<u8>) -> (r: ())
    ensures
        final(out)@ == old(out)@ + spec_frag_backtick(),
{
    out.push(96u8);
    proof {
        assert(out@ =~= old(out)@ + spec_frag_backtick());
    }
}

/// The bytes of `` is not implemented in environment ``.
pub open spec fn spec_frag_not_impl() -> Seq<u8> {
    seq![96u8, 32u8, 105u8, 115u8, 32u8, 110u8, 111u8, 116u8, 32u8, 105u8, 109u8, 112u8, 108u8, 101u8, 109u8, 101u8, 110u8, 116u8, 101u8, 100u8, 32u8, 105u8, 110u8, 32u8, 101u8, 110u8, 118u8, 105u8, 114u8, 111u8, 110u8, 109u8, 101u8, 110u8, 116u8, 32u8, 96u8]
}

#[verifier::rlimit(50)]
pub fn push_frag_not_impl(out: &mut Vec<u8>) -> (r: ())
    ensures
        final(out)@ == old(out)@ + spec_frag_not_impl(),
{
    out.push(96u8);
    out.push(32u8);
    out.push(105u8);
    out.push(115u8);
    out.push(32u8);
    out.push(110u8);
    out.push(111u8);
    out.push(116u8);
    out.push(32u8);
    out.push(105u8);
    out.push(109u8);
    out.push(112u8);
    out.push(108u8);
    out.push(101u8);
    out.push(109u8);
    out.push(101u8);
    out.push(110u8);
    out.push(116u8);
    out.push(101u8);
    out.push(100u8);
    out.push(32u8);
    out.push(105u8);
    out.push(110u8);
    out.push(32u8);
    out.push(101u8);
    out.push(110u8);
    out.push(118u8);
    out.push(105u8);
    out.push(114u8);
    out.push(111u8);
    out.push(110u8);
    out.push(109u8);
    out.push(101u8);
    out.push(110u8);
    out.push(116u8);
    out.push(32u8);
    out.push(96u8);
    proof {
        assert(out@ =~= old(out)@ + spec_frag_not_impl());
    }
}

/// The bytes of `Environment { universe: UniverseIndex { counter: `.
pub open spec fn spec_frag_env_open() -> Seq<u8> {
    seq![69u8, 110u8, 118u8, 105u8, 114u8, 111u8, 110u8, 109u8, 101u8, 110u8, 116u8, 32u8, 123u8, 32u8, 117u8, 110u8, 105u8, 118u8, 101u8, 114u8, 115u8, 101u8, 58u8, 32u8, 85u8, 110u8, 105u8, 118u8, 101u8, 114u8, 115u8, 101u8, 73u8, 110u8, 100u8, 101u8, 120u8, 32u8, 123u8, 32u8, 99u8, 111u8, 117u8, 110u8, 116u8, 101u8, 114u8, 58u8, 32u8]
}

#[verifier::rlimit(50)]
pub fn push_frag_env_open(out: &mut Vec<u8>) -> (r: ())
    ensures
        final(out)@ == old(out)@ + spec_frag_env_open(),
{
    out.push(69u8);
    out.push(110u8);
    out.push(118u8);
    out.push(105u8);
    out.push(114u8);
    out.push(111u8);
    out.push(110u8);
    out.push(109u8);
    out.push(101u8);
    out.push(110u8);
    out.push(116u8);
    out.push(32u8);
    out.push(123u8);
    out.push(32u8);
    out.push(117u8);
    out.push(110u8);
    out.push(105u8);
    out.push(118u8);
    out.push(101u8);
    out.push(114u8);
    out.push(115u8);
    out.push(101u8);
    out.push(58u8);
    out.push(32u8);
    out.push(85u8);
    out.push(110u8);
    out.push(105u8);
    out.push(118u8);
    out.push(101u8);
    out.push(114u8);
    out.push(115u8);
    out.push(101u8);
    out.push(73u8);
    out.push(110u8);
    out.push(100u8);
    out.push(101u8);
    out.push(120u8);
    out.push(32u8);
    out.push(123u8);
    out.push(32u8);
    out.push(99u8);
    out.push(111u8);
    out.push(117u8);
    out.push(110u8);
    out.push(116u8);
    out.push(101u8);
    out.push(114u8);
    out.push(58u8);
    out.push(32u8);
    proof {
        assert(out@ =~= old(out)@ + spec_frag_env_open());
    }
}

/// The bytes of ` }, clauses: [`.
pub open spec fn spec_frag_env_mid() -> Seq<u8> {
    seq![32u8, 125u8, 44u8, 32u8, 99u8, 108u8, 97u8, 117u8, 115u8, 101u8, 115u8, 58u8, 32u8, 91u8]
}

#[verifier::rlimit(50)]
pub fn push_frag_env_mid(out: &mut Vec<u8>) -> (r: ())
    ensures
        final(out)@ == old(out)@ + spec_frag_env_mid(),
{
    out.push(32u8);
    out.push(125u8);
    out.push(44u8);
    out.push(32u8);
    out.push(99u8);
    out.push(108u8);
    out.push(97u8);
    out.push(117u8);
    out.push(115u8);
    out.push(101u8);
    out.push(115u8);
    out.push(58u8);
    out.push(32u8);
    out.push(91u8);
    proof {
        assert(out@ =~= old(out)@ + spec_frag_env_mid());
    }
}

/// The bytes of `] }`.
pub open spec fn spec_frag_env_close() -> Seq<u8> {
    seq![93u8, 32u8, 125u8]
}

pub fn push_frag_env_close(out: &mut Vec<u8>) -> (r: ())
    ensures
        final(out)@ == old(out)@ + spec_frag_env_close(),
{
    out.push(93u8);
    out.push(32u8);
    out.push(125u8);
    proof {
        assert(out@ =~= old(out)@ + spec_frag_env_close());
    }
}

/// The bytes of ` as `.
pub open spec fn spec_frag_as_sep() -> Seq<u8> {
    seq![32u8, 97u8, 115u8, 32u8]
}

pub fn push_frag_as_sep(out: &mut Vec<u8>) -> (r: ())
    ensures
        final(out)@ == old(out)@ + spec_frag_as_sep(),
{
    out.push(32u8);
    out.push(97u8);
    out.push(115u8);
    out.push(32u8);
    proof {
        assert(out@ =~= old(out)@ + spec_frag_as_sep());
    }
}

/// The bytes of `<`.
pub open spec fn spec_frag_lt() -> Seq<u8> {
    seq![60u8]
}

pub fn push_frag_lt(out: &mut Vec<u8>) -> (r: ())
    ensures
        final(out)@ == old(out)@ + spec_frag_lt(),
{
    out.push(60u8);
    proof {
        assert(out@ =~= old(out)@ + spec_frag_lt());
    }
}

/// The bytes of `>`.
pub open spec fn spec_frag_gt() -> Seq<u8> {
    seq![62u8]
}

pub fn push_frag_gt(out: &mut Vec<u8>) -> (r: ())
    ensures
        final(out)@ == old(out)@ + spec_frag_gt(),
{
    out.push(62u8);
    proof {
        assert(out@ =~= old(out)@ + spec_frag_gt());
    }
}

/// The bytes of `, `.
pub open spec fn spec_frag_comma() -> Seq<u8> {
    seq![44u8, 32u8]
}

pub fn push_frag_comma(out: &mut Vec<u8>) -> (r: ())
    ensures
        final(out)@ == old(out)@ + spec_frag_comma(),
{
    out.push(44u8);
    out.push(32u8);
    proof {
        assert(out@ =~= old(out)@ + spec_frag_comma());
    }
}

/// The bytes of `!`.
pub open spec fn spec_frag_bang() -> Seq<u8> {
    seq![33u8]
}

pub fn push_frag_bang(out: &mut Vec<u8>) -> (r: ())
    ensures
        final(out)@ == old(out)@ + spec_frag_bang(),
{
    out.push(33u8);
    proof {
        assert(out@ =~= old(out)@ + spec_frag_bang());
    }
}

/// The bytes of `_`.
pub open spec fn spec_frag_uscore() -> Seq<u8> {
    seq![95u8]
}

pub fn push_frag_uscore(out: &mut Vec<u8>) -> (r: ())
    ensures
        final(out)@ == old(out)@ + spec_frag_uscore(),
{
    out.push(95u8);
    proof {
        assert(out@ =~= old(out)@ + spec_frag_uscore());
    }
}

/// The bytes of `?`.
pub open spec fn spec_frag_qmark() -> Seq<u8> {
    seq![63u8]
}

pub fn push_frag_qmark(out: &mut Vec<u8>) -> (r: ())
    ensures
        final(out)@ == old(out)@ + spec_frag_qmark(),
{
    out.push(63u8);
    proof {
        assert(out@ =~= old(out)@ + spec_frag_qmark());
    }
}

/// The bytes of `^`.
pub open spec fn spec_frag_caret() -> Seq<u8> {
    seq![94u8]
}

pub fn push_frag_caret(out: &mut Vec<u8>) -> (r: ())
    ensures
        final(out)@ == old(out)@ + spec_frag_caret(),
{
    out.push(94u8);
    proof {
        assert(out@ =~= old(out)@ + spec_frag_caret());
    }
}

/// The bytes of `forall<`.
pub open spec fn spec_frag_forall_open() -> Seq<u8> {
    seq![102u8, 111u8, 114u8, 97u8, 108u8, 108u8, 60u8]
}

pub fn push_frag_forall_open(out: &mut Vec<u8>) -> (r: ())
    ensures
        final(out)@ == old(out)@ + spec_frag_forall_open(),
{
    out.push(102u8);
    out.push(111u8);
    out.push(114u8);
    out.push(97u8);
    out.push(108u8);
    out.push(108u8);
    out.push(60u8);
    proof {
        assert(out@ =~= old(out)@ + spec_frag_forall_open());
    }
}

/// The bytes of `> `.
pub open spec fn spec_frag_forall_close() -> Seq<u8> {
    seq![62u8, 32u8]
}

pub fn push_frag_forall_close(out: &mut Vec<u8>) -> (r: ())
    ensures
        final(out)@ == old(out)@ + spec_frag_forall_close(),
{
    out.push(62u8);
    out.push(32u8);
    proof {
        assert(out@ =~= old(out)@ + spec_frag_forall_close());
    }
}

/// The bytes of ` :- [`.
pub open spec fn spec_frag_turnstile() -> Seq<u8> {
    seq![32u8, 58u8, 45u8, 32u8, 91u8]
}

pub fn push_frag_turnstile(out: &mut Vec<u8>) -> (r: ())
    ensures
        final(out)@ == old(out)@ + spec_frag_turnstile(),
{
    out.push(32u8);
    out.push(58u8);
    out.push(45u8);
    out.push(32u8);
    out.push(91u8);
    proof {
        assert(out@ =~= old(out)@ + spec_frag_turnstile());
    }
}

/// The bytes of `]`.
pub open spec fn spec_frag_rbracket() -> Seq<u8> {
    seq![93u8]
}

pub fn push_frag_rbracket(out: &mut Vec<u8>) -> (r: ())
    ensures
        final(out)@ == old(out)@ + spec_frag_rbracket(),
{
    out.push(93u8);
    proof {
        assert(out@ =~= old(out)@ + spec_frag_rbracket());
    }
}

// ---------------------------------------------------------------------------
// Decimal numbers.

pub open spec fn spec_num(n: nat) -> Seq<u8>
    decreases n,
{
    if n < 10 {
        seq![(48 + n) as u8]
    } else {
        spec_num(n / 10) + seq![(48 + n % 10) as u8]
    }
}

pub fn push_num(out: &mut Vec<u8>, n: usize) -> (r: ())
    ensures
        final(out)@ == old(out)@ + spec_num(n as nat),
    decreases n,
{
    if n < 10 {
        out.push(48 + (n as u8));
        proof {
            assert(out@ =~= old(out)@ + spec_num(n as nat));
        }
    } else {
        push_num(out, n / 10);
        out.push(48 + ((n % 10) as u8));
        proof {
            assert(out@ =~= old(out)@ + spec_num(n as nat));
        }
    }
}

// ---------------------------------------------------------------------------
// Names. An id outside the table, or one that is not a struct or trait id,
// renders as a question mark, so rendering is total; bytes beyond ASCII are
// replaced in the same way.

pub open spec fn spec_clean_byte(b: u8) -> u8 {
    if b < 128 {
        b
    } else {
        63u8
    }
}

pub open spec fn spec_render_name(names: Seq<Seq<u8>>, i: usize) -> Seq<u8> {
    if i < names.len() {
        names[i as int].map_values(|b: u8| spec_clean_byte(b))
    } else {
        spec_frag_qmark()
    }
}

pub fn push_name(out: &mut Vec<u8>, names: &Vec<Vec<u8>>, i: usize) -> (r: ())
    ensures
        final(out)@ == old(out)@ + spec_render_name(names.deep_view(), i),
{
    if i < names.len() {
        let w = &names[i];
        let mut j: usize = 0;
        proof {
            assert(out@ =~= old(out)@ + w@.subrange(0, 0).map_values(|b: u8| spec_clean_byte(b)));
        }
        while j < w.len()
            invariant
                j <= w@.len(),
                out@ == old(out)@ + w@.subrange(0, j as int).map_values(
                    |b: u8| spec_clean_byte(b),
                ),
            decreases w@.len() - j,
        {
            let b = w[j];
            if b < 128 {
                out.push(b);
            } else {
                out.push(63u8);
            }
            j = j + 1;
            proof {
                assert(out@ =~= old(out)@ + w@.subrange(0, j as int).map_values(
                    |b: u8| spec_clean_byte(b),
                ));
            }
        }
        proof {
            assert(w@.subrange(0, w@.len() as int) =~= w@);
            assert(names.deep_view()[i as int] =~= w@);
            assert(out@ =~= old(out)@ + spec_render_name(names.deep_view(), i));
        }
    } else {
        push_frag_qmark(out);
    }
}

/// The struct name for a head id.
pub open spec fn spec_render_head(
    names: Seq<Seq<u8>>,
    structs: Seq<StructDecl>,
    head: usize,
) -> Seq<u8> {
    if head < structs.len() {
        spec_render_name(names, structs[head as int].name)
    } else {
        spec_frag_qmark()
    }
}

pub fn push_head(out: &mut Vec<u8>, names: &Vec<Vec<u8>>, structs: &Vec<StructDecl>, head: usize)
    -> (r: ())
    ensures
        final(out)@ == old(out)@ + spec_render_head(names.deep_view(), structs@, head),
{
    if head < structs.len() {
        push_name(out, names, structs[head].name);
    } else {
        push_frag_qmark(out);
    }
}

pub open spec fn spec_render_trait_name(
    names: Seq<Seq<u8>>,
    traits: Seq<TraitDecl>,
    id: usize,
) -> Seq<u8> {
    if id < traits.len() {
        spec_render_name(names, traits[id as int].name)
    } else {
        spec_frag_qmark()
    }
}

pub fn push_trait_name(out: &mut Vec<u8>, names: &Vec<Vec<u8>>, traits: &Vec<TraitDecl>, id: usize)
    -> (r: ())
    ensures
        final(out)@ == old(out)@ + spec_render_trait_name(names.deep_view(), traits@, id),
{
    if id < traits.len() {
        push_name(out, names, traits[id].name);
    } else {
        push_frag_qmark(out);
    }
}

// ---------------------------------------------------------------------------
// Terms. `Foo`, `Vec<Bar>`, placeholders as `!u_i`, inference variables as
// `?n`, bound variables as `^d`.

pub open spec fn spec_render_ty(
    names: Seq<Seq<u8>>,
    structs: Seq<StructDecl>,
    t: Ty,
) -> Seq<u8>
    decreases t, 1int,
{
    match t {
        Ty::Apply { head, args } => match args {
            TyList::Nil => spec_render_head(names, structs, head),
            TyList::Cons(h, rest) => spec_render_head(names, structs, head) + spec_frag_lt()
                + spec_render_ty_args(names, structs, args) + spec_frag_gt(),
        },
        Ty::BoundVar { depth } => spec_frag_caret() + spec_num(depth as nat),
        Ty::Placeholder { universe, index } => spec_frag_bang() + spec_num(universe as nat)
            + spec_frag_uscore() + spec_num(index as nat),
        Ty::Infer { var } => spec_frag_qmark() + spec_num(var as nat),
    }
}

pub open spec fn spec_render_ty_args(
    names: Seq<Seq<u8>>,
    structs: Seq<StructDecl>,
    ts: TyList,
) -> Seq<u8>
    decreases ts, 0int,
{
    match ts {
        TyList::Nil => Seq::empty(),
        TyList::Cons(h, rest) => match *rest {
            TyList::Nil => spec_render_ty(names, structs, *h),
            TyList::Cons(h2, r2) => spec_render_ty(names, structs, *h) + spec_frag_comma()
                + spec_render_ty_args(names, structs, *rest),
        },
    }
}

pub fn push_ty(out: &mut Vec<u8>, names: &Vec<Vec<u8>>, structs: &Vec<StructDecl>, t: &Ty) -> (r:
    ())
    ensures
        final(out)@ == old(out)@ + spec_render_ty(names.deep_view(), structs@, *t),
    decreases *t, 1int,
{
    match t {
        Ty::Apply { head, args } => match args {
            TyList::Nil => push_head(out, names, structs, *head),
            TyList::Cons(h, rest) => {
                push_head(out, names, structs, *head);
                push_frag_lt(out);
                push_ty_args(out, names, structs, args);
                push_frag_gt(out);
                proof {
                    assert(out@ =~= old(out)@ + spec_render_ty(names.deep_view(), structs@, *t));
                }
            },
        },
        Ty::BoundVar { depth } => {
            push_frag_caret(out);
            push_num(out, *depth);
            proof {
                assert(out@ =~= old(out)@ + spec_render_ty(names.deep_view(), structs@, *t));
            }
        },
        Ty::Placeholder { universe, index } => {
            push_frag_bang(out);
            push_num(out, *universe);
            push_frag_uscore(out);
            push_num(out, *index);
            proof {
                assert(out@ =~= old(out)@ + spec_render_ty(names.deep_view(), structs@, *t));
            }
        },
        Ty::Infer { var } => {
            push_frag_qmark(out);
            push_num(out, *var);
            proof {
                assert(out@ =~= old(out)@ + spec_render_ty(names.deep_view(), structs@, *t));
            }
        },
    }
}

pub fn push_ty_args(out: &mut Vec<u8>, names: &Vec<Vec<u8>>, structs: &Vec<StructDecl>, ts:
    &TyList) -> (r: ())
    ensures
        final(out)@ == old(out)@ + spec_render_ty_args(names.deep_view(), structs@, *ts),
    decreases *ts, 0int,
{
    match ts {
        TyList::Nil => {
            proof {
                assert(out@ =~= old(out)@ + spec_render_ty_args(names.deep_view(), structs@, *ts));
            }
        },
        TyList::Cons(h, rest) => match &**rest {
            TyList::Nil => {
                push_ty(out, names, structs, h);
                proof {
                    assert(out@ =~= old(out)@ + spec_render_ty_args(
                        names.deep_view(),
                        structs@,
                        *ts,
                    ));
                }
            },
            TyList::Cons(h2, r2) => {
                push_ty(out, names, structs, h);
                push_frag_comma(out);
                push_ty_args(out, names, structs, rest);
                proof {
                    assert(out@ =~= old(out)@ + spec_render_ty_args(
                        names.deep_view(),
                        structs@,
                        *ts,
                    ));
                }
            },
        },
    }
}

// ---------------------------------------------------------------------------
// Trait references: `Vec<Bar> as Clone`, with further trait arguments after
// the trait name.

pub open spec fn spec_render_trait_ref(
    names: Seq<Seq<u8>>,
    structs: Seq<StructDecl>,
    traits: Seq<TraitDecl>,
    tr: TraitRef,
) -> Seq<u8> {
    match tr.args {
        TyList::Nil => spec_frag_qmark() + spec_frag_as_sep() + spec_render_trait_name(
            names,
            traits,
            tr.trait_id,
        ),
        TyList::Cons(self_ty, rest) => {
            let base = spec_render_ty(names, structs, *self_ty) + spec_frag_as_sep()
                + spec_render_trait_name(names, traits, tr.trait_id);
            match *rest {
                TyList::Nil => base,
                TyList::Cons(h2, r2) => base + spec_frag_lt() + spec_render_ty_args(
                    names,
                    structs,
                    *rest,
                ) + spec_frag_gt(),
            }
        },
    }
}

pub fn push_trait_ref(
    out: &mut Vec<u8>,
    names: &Vec<Vec<u8>>,
    structs: &Vec<StructDecl>,
    traits: &Vec<TraitDecl>,
    tr: &TraitRef,
) -> (r: ())
    ensures
        final(out)@ == old(out)@ + spec_render_trait_ref(
            names.deep_view(),
            structs@,
            traits@,
            *tr,
        ),
{
    match &tr.args {
        TyList::Nil => {
            push_frag_qmark(out);
            push_frag_as_sep(out);
            push_trait_name(out, names, traits, tr.trait_id);
            proof {
                assert(out@ =~= old(out)@ + spec_render_trait_ref(
                    names.deep_view(),
                    structs@,
                    traits@,
                    *tr,
                ));
            }
        },
        TyList::Cons(self_ty, rest) => {
            push_ty(out, names, structs, self_ty);
            push_frag_as_sep(out);
            push_trait_name(out, names, traits, tr.trait_id);
            match &**rest {
                TyList::Nil => {},
                TyList::Cons(h2, r2) => {
                    push_frag_lt(out);
                    push_ty_args(out, names, structs, rest);
                    push_frag_gt(out);
                },
            }
            proof {
                assert(out@ =~= old(out)@ + spec_render_trait_ref(
                    names.deep_view(),
                    structs@,
                    traits@,
                    *tr,
                ));
            }
        },
    }
}

// ---------------------------------------------------------------------------
// Clauses and environments. A hypothesis renders as its head, prefixed with
// its binder count when it has binders, and followed by its body when it has
// one.

pub open spec fn spec_render_clause(
    names: Seq<Seq<u8>>,
    structs: Seq<StructDecl>,
    traits: Seq<TraitDecl>,
    c: Clause,
) -> Seq<u8> {
    let quant = if c.binders > 0 {
        spec_frag_forall_open() + spec_num(c.binders as nat) + spec_frag_forall_close()
    } else {
        Seq::<u8>::empty()
    };
    let body = match c.body {
        TraitRefList::Nil => Seq::<u8>::empty(),
        TraitRefList::Cons(h, rest) => spec_frag_turnstile() + spec_render_trait_ref_list(
            names,
            structs,
            traits,
            c.body,
        ) + spec_frag_rbracket(),
    };
    quant + spec_render_trait_ref(names, structs, traits, c.head) + body
}

pub open spec fn spec_render_trait_ref_list(
    names: Seq<Seq<u8>>,
    structs: Seq<StructDecl>,
    traits: Seq<TraitDecl>,
    ts: TraitRefList,
) -> Seq<u8>
    decreases ts,
{
    match ts {
        TraitRefList::Nil => Seq::empty(),
        TraitRefList::Cons(h, rest) => match *rest {
            TraitRefList::Nil => spec_render_trait_ref(names, structs, traits, h),
            TraitRefList::Cons(h2, r2) => spec_render_trait_ref(names, structs, traits, h)
                + spec_frag_comma() + spec_render_trait_ref_list(names, structs, traits, *rest),
        },
    }
}

pub fn push_trait_ref_list(
    out: &mut Vec<u8>,
    names: &Vec<Vec<u8>>,
    structs: &Vec<StructDecl>,
    traits: &Vec<TraitDecl>,
    ts: &TraitRefList,
) -> (r: ())
    ensures
        final(out)@ == old(out)@ + spec_render_trait_ref_list(
            names.deep_view(),
            structs@,
            traits@,
            *ts,
        ),
    decreases *ts,
{
    match ts {
        TraitRefList::Nil => {
            proof {
                assert(out@ =~= old(out)@ + spec_render_trait_ref_list(
                    names.deep_view(),
                    structs@,
                    traits@,
                    *ts,
                ));
            }
        },
        TraitRefList::Cons(h, rest) => match &**rest {
            TraitRefList::Nil => {
                push_trait_ref(out, names, structs, traits, h);
                proof {
                    assert(out@ =~= old(out)@ + spec_render_trait_ref_list(
                        names.deep_view(),
                        structs@,
                        traits@,
                        *ts,
                    ));
                }
            },
            TraitRefList::Cons(h2, r2) => {
                push_trait_ref(out, names, structs, traits, h);
                push_frag_comma(out);
                push_trait_ref_list(out, names, structs, traits, rest);
                proof {
                    assert(out@ =~= old(out)@ + spec_render_trait_ref_list(
                        names.deep_view(),
                        structs@,
                        traits@,
                        *ts,
                    ));
                }
            },
        },
    }
}

pub fn push_clause(
    out: &mut Vec<u8>,
    names: &Vec<Vec<u8>>,
    structs: &Vec<StructDecl>,
    traits: &Vec<TraitDecl>,
    c: &Clause,
) -> (r: ())
    ensures
        final(out)@ == old(out)@ + spec_render_clause(names.deep_view(), structs@, traits@, *c),
{
    if c.binders > 0 {
        push_frag_forall_open(out);
        push_num(out, c.binders);
        push_frag_forall_close(out);
    }
    push_trait_ref(out, names, structs, traits, &c.head);
    match &c.body {
        TraitRefList::Nil => {},
        TraitRefList::Cons(h, rest) => {
            push_frag_turnstile(out);
            push_trait_ref_list(out, names, structs, traits, &c.body);
            push_frag_rbracket(out);
        },
    }
    proof {
        assert(out@ =~= old(out)@ + spec_render_clause(names.deep_view(), structs@, traits@, *c));
    }
}

pub open spec fn spec_render_clause_list(
    names: Seq<Seq<u8>>,
    structs: Seq<StructDecl>,
    traits: Seq<TraitDecl>,
    cs: ClauseList,
) -> Seq<u8>
    decreases cs,
{
    match cs {
        ClauseList::Nil => Seq::empty(),
        ClauseList::Cons(h, rest) => match *rest {
            ClauseList::Nil => spec_render_clause(names, structs, traits, h),
            ClauseList::Cons(h2, r2) => spec_render_clause(names, structs, traits, h)
                + spec_frag_comma() + spec_render_clause_list(names, structs, traits, *rest),
        },
    }
}

pub fn push_clause_list(
    out: &mut Vec<u8>,
    names: &Vec<Vec<u8>>,
    structs: &Vec<StructDecl>,
    traits: &Vec<TraitDecl>,
    cs: &ClauseList,
) -> (r: ())
    ensures
        final(out)@ == old(out)@ + spec_render_clause_list(
            names.deep_view(),
            structs@,
            traits@,
            *cs,
        ),
    decreases *cs,
{
    match cs {
        ClauseList::Nil => {
            proof {
                assert(out@ =~= old(out)@ + spec_render_clause_list(
                    names.deep_view(),
                    structs@,
                    traits@,
                    *cs,
                ));
            }
        },
        ClauseList::Cons(h, rest) => match &**rest {
            ClauseList::Nil => {
                push_clause(out, names, structs, traits, h);
                proof {
                    assert(out@ =~= old(out)@ + spec_render_clause_list(
                        names.deep_view(),
                        structs@,
                        traits@,
                        *cs,
                    ));
                }
            },
            ClauseList::Cons(h2, r2) => {
                push_clause(out, names, structs, traits, h);
                push_frag_comma(out);
                push_clause_list(out, names, structs, traits, rest);
                proof {
                    assert(out@ =~= old(out)@ + spec_render_clause_list(
                        names.deep_view(),
                        structs@,
                        traits@,
                        *cs,
                    ));
                }
            },
        },
    }
}

/// `Environment { universe: UniverseIndex { counter: N }, clauses: [...] }`.
pub open spec fn spec_render_env(
    names: Seq<Seq<u8>>,
    structs: Seq<StructDecl>,
    traits: Seq<TraitDecl>,
    e: Env,
) -> Seq<u8> {
    spec_frag_env_open() + spec_num(e.universe as nat) + spec_frag_env_mid()
        + spec_render_clause_list(names, structs, traits, e.clauses) + spec_frag_env_close()
}

pub fn push_env(
    out: &mut Vec<u8>,
    names: &Vec<Vec<u8>>,
    structs: &Vec<StructDecl>,
    traits: &Vec<TraitDecl>,
    e: &Env,
) -> (r: ())
    ensures
        final(out)@ == old(out)@ + spec_render_env(names.deep_view(), structs@, traits@, *e),
{
    push_frag_env_open(out);
    push_num(out, e.universe);
    push_frag_env_mid(out);
    push_clause_list(out, names, structs, traits, &e.clauses);
    push_frag_env_close(out);
    proof {
        assert(out@ =~= old(out)@ + spec_render_env(names.deep_view(), structs@, traits@, *e));
    }
}

/// The failure message fixed by the interface:
/// a backtick-quoted trait reference, `is not implemented in environment`,
/// and the backtick-quoted environment.
pub open spec fn spec_render_failure(
    names: Seq<Seq<u8>>,
    structs: Seq<StructDecl>,
    traits: Seq<TraitDecl>,
    tr: TraitRef,
    e: Env,
) -> Seq<u8> {
    spec_frag_backtick() + spec_render_trait_ref(names, structs, traits, tr) + spec_frag_not_impl()
        + spec_render_env(names, structs, traits, e) + spec_frag_backtick()
}

pub fn push_failure(
    out: &mut Vec<u8>,
    names: &Vec<Vec<u8>>,
    structs: &Vec<StructDecl>,
    traits: &Vec<TraitDecl>,
    tr: &TraitRef,
    e: &Env,
) -> (r: ())
    ensures
        final(out)@ == old(out)@ + spec_render_failure(
            names.deep_view(),
            structs@,
            traits@,
            *tr,
            *e,
        ),
{
    push_frag_backtick(out);
    push_trait_ref(out, names, structs, traits, tr);
    push_frag_not_impl(out);
    push_env(out, names, structs, traits, e);
    push_frag_backtick(out);
    proof {
        assert(out@ =~= old(out)@ + spec_render_failure(
            names.deep_view(),
            structs@,
            traits@,
            *tr,
            *e,
        ));
    }
}

} // verus!
