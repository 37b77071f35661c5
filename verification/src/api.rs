use vstd::prelude::*;
use crate::ir::{clone_ty_list, Goal, Program, ProgramView, TraitRef, TyList};
use crate::lower::{
    lower_goal, lower_program, spec_lower_goal_entry, spec_lower_program, LowerError,
};
use crate::parse::{
    parse_goal_tokens, parse_program_tokens, spec_parse_goal_tokens, spec_parse_program_tokens,
    spec_tokenize, tokenize, ParseError,
};
use crate::render::{
    push_failure, push_frag_internal, push_frag_overflow, push_frag_yes, spec_clean_byte,
    spec_frag_internal, spec_frag_overflow, spec_frag_yes, spec_render_failure,
};
use crate::solve::{solve, spec_solve, SolveErr};
use crate::unify::{resolve_ty_list, spec_resolve_list, spec_unify_fuel, unify_fuel};

verus! {

/// Why building a program or goal from text failed: the surface syntax could
/// not be parsed, or the parsed syntax could not be lowered.
pub enum BuildError {
    Parse(ParseError),
    Lower(LowerError),
}

/// What building a program from text gives: the text is tokenized with a
/// fresh name table, the tokens are parsed as items, and the items are
/// lowered; the first error ends the build, and no partial program is ever
/// exposed.
pub open spec fn spec_build_program(text: Seq<char>) -> Result<ProgramView, BuildError> {
    match spec_tokenize(text, Seq::empty()) {
        Result::Ok((toks, names)) => match spec_parse_program_tokens(toks) {
            Result::Ok(items) => match spec_lower_program(items, names) {
                Result::Ok(pv) => Result::Ok(pv),
                Result::Err(e) => Result::Err(BuildError::Lower(e)),
            },
            Result::Err(e) => Result::Err(BuildError::Parse(e)),
        },
        Result::Err(e) => Result::Err(BuildError::Parse(e)),
    }
}

/// Parses and lowers program text: struct, trait and impl declarations.
pub fn build_program(text: &str) -> (r: Result<Program, BuildError>)
    ensures
        r matches Result::Ok(p) ==> spec_build_program(text@) == Result::<
            ProgramView,
            BuildError,
        >::Ok(p@),
        r matches Result::Err(e) ==> spec_build_program(text@) == Result::<
            ProgramView,
            BuildError,
        >::Err(e),
{
    let mut names: Vec<Vec<u8>> = Vec::new();
    proof {
        assert(names.deep_view() =~~= Seq::<Seq<u8>>::empty());
    }
    let toks = match tokenize(text, &mut names) {
        Result::Ok(t) => t,
        Result::Err(e) => {
            return Result::Err(BuildError::Parse(e));
        },
    };
    let items = match parse_program_tokens(&toks) {
        Result::Ok(t) => t,
        Result::Err(e) => {
            return Result::Err(BuildError::Parse(e));
        },
    };
    match lower_program(&items, names) {
        Result::Ok(p) => Result::Ok(p),
        Result::Err(e) => Result::Err(BuildError::Lower(e)),
    }
}

fn clone_bytes(v: &Vec<u8>) -> (r: Vec<u8>)
    ensures
        r@ == v@,
{
    let mut out: Vec<u8> = Vec::new();
    let mut i: usize = 0;
    proof {
        assert(out@ =~= v@.subrange(0, 0));
    }
    while i < v.len()
        invariant
            i <= v@.len(),
            out@ == v@.subrange(0, i as int),
        decreases v@.len() - i,
    {
        out.push(v[i]);
        i = i + 1;
        proof {
            assert(out@ =~= v@.subrange(0, i as int));
        }
    }
    proof {
        assert(v@.subrange(0, v@.len() as int) =~= v@);
    }
    out
}

fn clone_names(v: &Vec<Vec<u8>>) -> (r: Vec<Vec<u8>>)
    ensures
        r.deep_view() == v.deep_view(),
{
    let mut out: Vec<Vec<u8>> = Vec::new();
    let mut i: usize = 0;
    proof {
        assert(out.deep_view() =~~= v.deep_view().subrange(0, 0));
    }
    while i < v.len()
        invariant
            i <= v@.len(),
            out.deep_view() == v.deep_view().subrange(0, i as int),
        decreases v@.len() - i,
    {
        let c = clone_bytes(&v[i]);
        let ghost pre = out.deep_view();
        let ghost cv = c@;
        out.push(c);
        i = i + 1;
        proof {
            assert(out.deep_view() =~~= pre.push(cv));
            assert(cv =~= v.deep_view()[i - 1]);
            assert(pre.push(cv) =~~= v.deep_view().subrange(0, i as int));
        }
    }
    proof {
        assert(v.deep_view().subrange(0, v@.len() as int) =~~= v.deep_view());
    }
    out
}

/// What building a goal from text gives: the text is tokenized against the
/// program's interned names (binder names live only inside the goal), parsed
/// as one goal, and lowered with the program's declarations, free type
/// parameters lifted into binders; the first error ends the build.
pub open spec fn spec_build_goal(prog: Program, text: Seq<char>) -> Result<Goal, BuildError> {
    match spec_tokenize(text, prog.names.deep_view()) {
        Result::Ok((toks, names)) => match spec_parse_goal_tokens(toks) {
            Result::Ok(ast) => match spec_lower_goal_entry(prog.structs@, prog.traits@, ast) {
                Result::Ok(g) => Result::Ok(g),
                Result::Err(e) => Result::Err(BuildError::Lower(e)),
            },
            Result::Err(e) => Result::Err(BuildError::Parse(e)),
        },
        Result::Err(e) => Result::Err(BuildError::Parse(e)),
    }
}

/// Parses and lowers goal text against a program.
pub fn build_goal(prog: &Program, text: &str) -> (r: Result<Goal, BuildError>)
    ensures
        r == spec_build_goal(*prog, text@),
{
    let mut names = clone_names(&prog.names);
    let toks = match tokenize(text, &mut names) {
        Result::Ok(t) => t,
        Result::Err(e) => {
            return Result::Err(BuildError::Parse(e));
        },
    };
    let ast = match parse_goal_tokens(&toks) {
        Result::Ok(t) => t,
        Result::Err(e) => {
            return Result::Err(BuildError::Parse(e));
        },
    };
    match lower_goal(prog, &ast) {
        Result::Ok(g) => Result::Ok(g),
        Result::Err(e) => Result::Err(BuildError::Lower(e)),
    }
}

// ---------------------------------------------------------------------------
// The rendered outcome.

/// The bytes that `solve_outcome` renders: `Yes` on success; on exhaustion
/// the fixed not-implemented message over the goal's trait reference,
/// resolved through the final assignments, and the environment; `overflow`
/// past the depth bound.
pub open spec fn spec_outcome_bytes(prog: Program, goal: Goal) -> Seq<u8> {
    let (verdict, ctx) = spec_solve(prog, goal);
    match verdict {
        Result::Ok(u) => spec_frag_yes(),
        Result::Err(e) => match e {
            SolveErr::NotImplemented { trait_ref, env } => {
                let args = match spec_resolve_list(
                    ctx,
                    trait_ref.args,
                    spec_unify_fuel(ctx) as nat,
                ) {
                    Option::Some(rs) => rs,
                    Option::None => trait_ref.args,
                };
                spec_render_failure(
                    prog.names.deep_view(),
                    prog.structs@,
                    prog.traits@,
                    TraitRef { trait_id: trait_ref.trait_id, args },
                    env,
                )
            },
            SolveErr::Overflow { limit } => spec_frag_overflow(),
            SolveErr::Internal => spec_frag_internal(),
        },
    }
}

pub open spec fn spec_outcome_chars(prog: Program, goal: Goal) -> Seq<char> {
    spec_outcome_bytes(prog, goal).map_values(|b: u8| spec_clean_byte(b) as char)
}

/// Relies on alloc's String::from_utf8: a vector of bytes below 128 is valid
/// UTF-8 and decodes to exactly the characters with those code points.
#[verifier::external_body]
fn ascii_to_string(v: Vec<u8>) -> (r: String)
    requires
        forall|i: int| 0 <= i < v@.len() ==> v@[i] < 128,
    ensures
        r@ == v@.map_values(|b: u8| b as char),
{
    String::from_utf8(v).unwrap_or_default()
}

/// One canonical string for a solve, as fixed by the interface.
pub fn solve_outcome(prog: &Program, goal: &Goal) -> (r: String)
    ensures
        r@ == spec_outcome_chars(*prog, *goal),
{
    let sol = solve(prog, goal);
    let mut bytes: Vec<u8> = Vec::new();
    match sol.verdict {
        Result::Ok(u) => {
            push_frag_yes(&mut bytes);
        },
        Result::Err(e) => match e {
            SolveErr::NotImplemented { trait_ref, env } => {
                let fuel = unify_fuel(&sol.ctx);
                let args = match resolve_ty_list(&sol.ctx, &trait_ref.args, fuel) {
                    Option::Some(rs) => rs,
                    Option::None => clone_ty_list(&trait_ref.args),
                };
                let shown = TraitRef { trait_id: trait_ref.trait_id, args };
                push_failure(&mut bytes, &prog.names, &prog.structs, &prog.traits, &shown, &env);
            },
            SolveErr::Overflow { limit } => {
                push_frag_overflow(&mut bytes);
            },
            SolveErr::Internal => {
                push_frag_internal(&mut bytes);
            },
        },
    }
    proof {
        assert(bytes@ =~= spec_outcome_bytes(*prog, *goal));
    }
    let mut clean: Vec<u8> = Vec::new();
    let mut i: usize = 0;
    proof {
        assert(clean@ =~= bytes@.subrange(0, 0).map_values(|b: u8| spec_clean_byte(b)));
    }
    while i < bytes.len()
        invariant
            i <= bytes@.len(),
            clean@ == bytes@.subrange(0, i as int).map_values(|b: u8| spec_clean_byte(b)),
            forall|j: int| 0 <= j < clean@.len() ==> clean@[j] < 128,
        decreases bytes@.len() - i,
    {
        let b = bytes[i];
        if b < 128 {
            clean.push(b);
        } else {
            clean.push(63u8);
        }
        i = i + 1;
        proof {
            assert(clean@ =~= bytes@.subrange(0, i as int).map_values(
                |b2: u8| spec_clean_byte(b2),
            ));
        }
    }
    proof {
        assert(bytes@.subrange(0, bytes@.len() as int) =~= bytes@);
        assert(clean@.map_values(|b: u8| b as char) =~= spec_outcome_chars(*prog, *goal));
    }
    ascii_to_string(clean)
}

} // verus!
