use chalk_rust::api::{build_goal, build_program, solve_outcome, BuildError};
use chalk_rust::ir::{Goal, Program, Ty};
use chalk_rust::lower::LowerError;
use chalk_rust::parse::ParseError;
use chalk_rust::render::push_ty;
use chalk_rust::solve::{solve, solve_with_depth, SolveErr};
use chalk_rust::unify::{resolve_ty, unify_fuel};

fn no_ws(s: &str) -> String {
    s.chars().filter(|c| !c.is_whitespace()).collect()
}

fn program(text: &str) -> Program {
    match build_program(text) {
        Ok(p) => p,
        Err(_) => panic!("program text did not build"),
    }
}

fn goal(p: &Program, text: &str) -> Goal {
    match build_goal(p, text) {
        Ok(g) => g,
        Err(_) => panic!("goal text did not build"),
    }
}

fn outcome(program_text: &str, goal_text: &str) -> String {
    let p = program(program_text);
    let g = goal(&p, goal_text);
    solve_outcome(&p, &g)
}

fn check(program_text: &str, goal_text: &str, expected: &str) {
    let actual = outcome(program_text, goal_text);
    assert_eq!(no_ws(&actual), no_ws(expected));
}

const CLONE_PROGRAM: &str = "struct Foo { } struct Bar { } struct Vec<T> { } trait Clone { } \
     impl<T> Clone for Vec<T> where T: Clone { } impl Clone for Foo { }";

#[test]
fn prove_clone() {
    check(CLONE_PROGRAM, "Vec<Foo>: Clone", "Yes");
    check(CLONE_PROGRAM, "Foo: Clone", "Yes");
    check(
        CLONE_PROGRAM,
        "Bar: Clone",
        "`Bar as Clone` is not implemented in environment \
         `Environment { universe: UniverseIndex { counter: 0 }, clauses: [] }`",
    );
    check(
        CLONE_PROGRAM,
        "Vec<Bar>: Clone",
        "`Vec<Bar> as Clone` is not implemented in environment \
         `Environment { universe: UniverseIndex { counter: 0 }, clauses: [] }`",
    );
}

#[test]
fn forall_needs_rigid_impl() {
    // No impl matches a rigid placeholder.
    check(
        "struct Foo { } trait Clone { }",
        "forall<T> { T: Clone }",
        "`!1_0 as Clone` is not implemented in environment \
         `Environment { universe: UniverseIndex { counter: 1 }, clauses: [] }`",
    );
}

#[test]
fn exists_picks_a_witness() {
    let p = program("struct Foo { } trait Clone { } impl Clone for Foo { }");
    let g = goal(&p, "exists<T> { T: Clone }");
    assert_eq!(no_ws(&solve_outcome(&p, &g)), "Yes");
    // The reported binding is T := Foo.
    let sol = solve(&p, &g);
    assert!(sol.verdict.is_ok());
    let fuel = unify_fuel(&sol.ctx);
    let t = match resolve_ty(&sol.ctx, &Ty::Infer { var: 0 }, fuel) {
        Some(t) => t,
        None => panic!("resolution ran out of fuel"),
    };
    let mut shown: Vec<u8> = Vec::new();
    push_ty(&mut shown, &p.names, &p.structs, &t);
    assert_eq!(shown, b"Foo".to_vec());
}

#[test]
fn hypothetical_clone() {
    check(CLONE_PROGRAM, "forall<T> { if (T: Clone) { Vec<T>: Clone } }", "Yes");
}

#[test]
fn where_clause_without_impl_fails() {
    check(
        "struct Foo { } trait A { } trait B { } impl A for Foo where Foo: B { }",
        "Foo: A",
        "`Foo as A` is not implemented in environment \
         `Environment { universe: UniverseIndex { counter: 0 }, clauses: [] }`",
    );
}

#[test]
fn solve_is_deterministic() {
    let first = outcome(CLONE_PROGRAM, "Vec<Bar>: Clone");
    let second = outcome(CLONE_PROGRAM, "Vec<Bar>: Clone");
    assert_eq!(first, second);
    let third = outcome(CLONE_PROGRAM, "Vec<Foo>: Clone");
    let fourth = outcome(CLONE_PROGRAM, "Vec<Foo>: Clone");
    assert_eq!(third, fourth);
}

#[test]
fn clause_order_keeps_provability() {
    // The same declarations with the impls reversed: every ground goal keeps
    // its verdict.
    let reordered = "struct Foo { } struct Bar { } struct Vec<T> { } trait Clone { } \
         impl Clone for Foo { } impl<T> Clone for Vec<T> where T: Clone { }";
    check(reordered, "Vec<Foo>: Clone", "Yes");
    check(reordered, "Foo: Clone", "Yes");
    assert_eq!(
        no_ws(&outcome(reordered, "Bar: Clone")),
        no_ws(&outcome(CLONE_PROGRAM, "Bar: Clone")),
    );
}

#[test]
fn reported_binding_substitutes_soundly() {
    // T := Foo was reported for `exists<T> { T: Clone }`; the substituted
    // goal is provable on its own.
    let p = program("struct Foo { } trait Clone { } impl Clone for Foo { }");
    let g = goal(&p, "exists<T> { T: Clone }");
    assert_eq!(no_ws(&solve_outcome(&p, &g)), "Yes");
    let substituted = goal(&p, "Foo: Clone");
    assert_eq!(no_ws(&solve_outcome(&p, &substituted)), "Yes");
}

#[test]
fn hypothesis_visible_inside_only() {
    // Inside the implication the hypothesis proves the goal.
    check(CLONE_PROGRAM, "if (Bar: Clone) { Bar: Clone }", "Yes");
    // An otherwise-identical goal after the implication body fails exactly as
    // it would have without the hypothesis: the reported environment is
    // empty.
    check(
        CLONE_PROGRAM,
        "if (Bar: Clone) { Bar: Clone }, Bar: Clone",
        "`Bar as Clone` is not implemented in environment \
         `Environment { universe: UniverseIndex { counter: 0 }, clauses: [] }`",
    );
}

#[test]
fn hypothesis_is_rendered_in_scope() {
    check(
        "struct Foo { } struct Bar { } trait A { } trait Clone { }",
        "if (Bar: A) { Bar: Clone }",
        "`Bar as Clone` is not implemented in environment \
         `Environment { universe: UniverseIndex { counter: 0 }, clauses: [Bar as A] }`",
    );
}

#[test]
fn fat_arrow_spells_implication() {
    check(CLONE_PROGRAM, "Bar: Clone => Bar: Clone", "Yes");
}

#[test]
fn placeholder_never_escapes_outer_existential() {
    // `U` is rigid inside the `forall`; binding the outer existential to it
    // would leak a higher universe, so the unifier refuses and the goal
    // fails.
    let p = program("struct Foo { } trait Eq2<A> { } impl<T> Eq2<T> for T { }");
    let g = goal(&p, "exists<T> { forall<U> { U: Eq2<T> } }");
    let shown = solve_outcome(&p, &g);
    assert!(shown.contains("is not implemented"));
    // And the outer existential stays unbound.
    let sol = solve(&p, &g);
    let fuel = unify_fuel(&sol.ctx);
    let t = match resolve_ty(&sol.ctx, &Ty::Infer { var: 0 }, fuel) {
        Some(t) => t,
        None => panic!("resolution ran out of fuel"),
    };
    assert!(matches!(t, Ty::Infer { var: 0 }));
}

#[test]
fn blanket_impl_leaves_outer_existential_free() {
    let p = program("struct Foo { } trait Clone { } impl<T> Clone for T { }");
    let g = goal(&p, "exists<T> { forall<U> { U: Clone } }");
    assert_eq!(no_ws(&solve_outcome(&p, &g)), "Yes");
    let sol = solve(&p, &g);
    let fuel = unify_fuel(&sol.ctx);
    let t = match resolve_ty(&sol.ctx, &Ty::Infer { var: 0 }, fuel) {
        Some(t) => t,
        None => panic!("resolution ran out of fuel"),
    };
    assert!(matches!(t, Ty::Infer { var: 0 }));
}

#[test]
fn recursive_impl_overflows() {
    check(
        "struct Foo { } trait A { } impl A for Foo where Foo: A { }",
        "Foo: A",
        "overflow",
    );
}

#[test]
fn free_goal_parameter_is_lifted() {
    // A bare undeclared name in a goal is a free type parameter: it is
    // lifted into a `ForAll` binder, so the goal asks about every type.
    check(
        "trait Clone { }",
        "Foo: Clone",
        "`!1_0 as Clone` is not implemented in environment \
         `Environment { universe: UniverseIndex { counter: 1 }, clauses: [] }`",
    );
    // With a blanket impl the lifted goal holds.
    check("trait Clone { } impl<T> Clone for T { }", "Foo: Clone", "Yes");
}

#[test]
fn free_parameters_lift_in_declaration_order() {
    // `T` under the constructor is free: the goal is solved as
    // `forall<T> { Vec<T>: Clone }`, and fails on the rigid placeholder.
    check(
        CLONE_PROGRAM,
        "Vec<T>: Clone",
        "`Vec<!1_0> as Clone` is not implemented in environment \
         `Environment { universe: UniverseIndex { counter: 1 }, clauses: [] }`",
    );
    // Two distinct free names give two binders, first occurrence outermost.
    let p = program("struct Pair<A, B> { } trait Clone { } impl<T> Clone for T { }");
    let g = goal(&p, "Pair<X, Y>: Clone");
    assert_eq!(no_ws(&solve_outcome(&p, &g)), "Yes");
}

#[test]
fn unknown_trait_is_unresolved() {
    let p = program("struct Foo { }");
    assert!(matches!(
        build_goal(&p, "Foo: Clone"),
        Err(BuildError::Lower(LowerError::UnresolvedName))
    ));
}

#[test]
fn unknown_constructor_is_unresolved() {
    let p = program("struct Foo { } trait Clone { }");
    assert!(matches!(
        build_goal(&p, "Wrapper<Foo>: Clone"),
        Err(BuildError::Lower(LowerError::UnresolvedName))
    ));
}

#[test]
fn trait_in_type_position_is_kind_mismatch() {
    let p = program("struct Foo { } trait Clone { }");
    assert!(matches!(
        build_goal(&p, "Clone: Clone"),
        Err(BuildError::Lower(LowerError::KindMismatch))
    ));
}

#[test]
fn struct_in_trait_position_is_kind_mismatch() {
    let p = program("struct Foo { } struct Bar { } trait Clone { }");
    assert!(matches!(
        build_goal(&p, "Foo: Bar"),
        Err(BuildError::Lower(LowerError::KindMismatch))
    ));
}

#[test]
fn wrong_argument_count_is_arity_mismatch() {
    let p = program("struct Vec<T> { } trait Clone { }");
    assert!(matches!(
        build_goal(&p, "Vec: Clone"),
        Err(BuildError::Lower(LowerError::ArityMismatch))
    ));
}

#[test]
fn bad_program_is_parse_error() {
    assert!(matches!(
        build_program("struct {"),
        Err(BuildError::Parse(ParseError::Syntax))
    ));
    assert!(matches!(
        build_program("struct Foo {} %"),
        Err(BuildError::Parse(ParseError::BadByte))
    ));
}

#[test]
fn impl_error_surfaces_from_lowering() {
    // An undeclared name in an impl is unresolved: impls never introduce
    // type variables beyond their own parameter list.
    assert!(matches!(
        build_program("trait Clone { } impl Clone for Foo { }"),
        Err(BuildError::Lower(LowerError::UnresolvedName))
    ));
}

#[test]
fn multi_parameter_traits_resolve() {
    let p = program(
        "struct Foo { } struct Bar { } trait Convert<Target> { } \
         impl Convert<Bar> for Foo { }",
    );
    let g = goal(&p, "Foo: Convert<Bar>");
    assert_eq!(no_ws(&solve_outcome(&p, &g)), "Yes");
    let g2 = goal(&p, "Bar: Convert<Foo>");
    let shown = solve_outcome(&p, &g2);
    assert_eq!(
        no_ws(&shown),
        no_ws(
            "`Bar as Convert<Foo>` is not implemented in environment \
             `Environment { universe: UniverseIndex { counter: 0 }, clauses: [] }`"
        ),
    );
}

#[test]
fn conjunction_needs_both_sides() {
    check(CLONE_PROGRAM, "Foo: Clone, Vec<Foo>: Clone", "Yes");
    check(
        CLONE_PROGRAM,
        "Foo: Clone, Bar: Clone",
        "`Bar as Clone` is not implemented in environment \
         `Environment { universe: UniverseIndex { counter: 0 }, clauses: [] }`",
    );
}

#[test]
fn nested_vectors_resolve_recursively() {
    check(CLONE_PROGRAM, "Vec<Vec<Foo>>: Clone", "Yes");
    check(
        CLONE_PROGRAM,
        "Vec<Vec<Bar>>: Clone",
        "`Vec<Vec<Bar>> as Clone` is not implemented in environment \
         `Environment { universe: UniverseIndex { counter: 0 }, clauses: [] }`",
    );
}

#[test]
fn exists_under_constructor_finds_witness() {
    // With the ground impl first, the existential settles on `Foo` before
    // the blanket impl can send the search into ever-deeper vectors.
    let p = program("struct Foo { } struct Vec<T> { } trait Clone { } \
         impl Clone for Foo { } impl<T> Clone for Vec<T> where T: Clone { }");
    let g = goal(&p, "exists<T> { Vec<T>: Clone }");
    assert_eq!(no_ws(&solve_outcome(&p, &g)), "Yes");
    let sol = solve(&p, &g);
    let fuel = unify_fuel(&sol.ctx);
    let t = match resolve_ty(&sol.ctx, &Ty::Infer { var: 0 }, fuel) {
        Some(t) => t,
        None => panic!("resolution ran out of fuel"),
    };
    let mut shown: Vec<u8> = Vec::new();
    push_ty(&mut shown, &p.names, &p.structs, &t);
    assert_eq!(shown, b"Foo".to_vec());
}

#[test]
fn parenthesized_goals_group() {
    check(CLONE_PROGRAM, "(Foo: Clone)", "Yes");
    check(CLONE_PROGRAM, "(Foo: Clone, Vec<Foo>: Clone)", "Yes");
}

#[test]
fn multi_binder_quantifiers_nest() {
    check(
        "struct Foo { } trait Clone { } impl<T> Clone for T { }",
        "forall<T, U> { T: Clone }",
        "Yes",
    );
    let p = program("struct Foo { } trait Clone { } impl Clone for Foo { }");
    let g = goal(&p, "exists<T, U> { T: Clone }");
    assert_eq!(no_ws(&solve_outcome(&p, &g)), "Yes");
}

#[test]
fn whitespace_is_insignificant() {
    let compact = outcome("struct Foo{}trait Clone{}impl Clone for Foo{}", "Foo:Clone");
    assert_eq!(no_ws(&compact), "Yes");
}

#[test]
fn depth_bound_is_configurable() {
    let p = program(CLONE_PROGRAM);
    let g = goal(&p, "Vec<Vec<Foo>>: Clone");
    let shallow = solve_with_depth(&p, &g, 1);
    assert!(matches!(shallow.verdict, Err(SolveErr::Overflow { limit: 1 })));
    let deep = solve_with_depth(&p, &g, 2);
    assert!(deep.verdict.is_ok());
}
