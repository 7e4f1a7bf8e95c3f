//! Laws that tie the checker's and the generator's rules to what Sage's
//! operators, types, imports and test assertions mean: the generated
//! operator is the Rust operator of the same operation, equality applies to
//! any type, container types are compatible only through their components,
//! a glob import brings in every public declaration, and no test assertion
//! is written as its opposite.

use vstd::prelude::*;
use crate::assertgen::assertion_form;
use crate::ast::BinOp;
use crate::ast::Expr;
use crate::ast::Program;
use crate::ast::Span;
use crate::checker::St;
use crate::checker::binary_v;
use crate::checker::binop_text;
use crate::checker::binop_type;
use crate::checker::numeric;
use crate::exprgen::CodePiece;
use crate::exprgen::expr_code;
use crate::generator::binop_code;
use crate::modules::ImportsV;
use crate::modules::agent_pubs;
use crate::modules::const_pubs;
use crate::modules::enum_pubs;
use crate::modules::function_pubs;
use crate::modules::glob_names;
use crate::modules::glob_v;
use crate::modules::record_pubs;
use crate::types::TypeV;
use crate::types::compatible;
use crate::types::compatible_all;

verus! {

// =========================================================================
// Operators in generated code
// =========================================================================

/// Every Sage operator other than `++` is generated as the Rust operator
/// with the checker's spelling of that operator (the same spelling in both
/// languages, so the same operation).
pub proof fn law_binop_code_is_the_operator(op: BinOp)
    requires
        op != BinOp::Concat,
    ensures
        binop_code(op) == binop_text(op),
{
}

/// Two different Sage operators are never generated as the same Rust
/// operator.
pub proof fn law_binop_codes_distinct(a: BinOp, b: BinOp)
    requires
        a != b,
    ensures
        binop_code(a) != binop_code(b),
{
    reveal_strlit("+");
    reveal_strlit("-");
    reveal_strlit("*");
    reveal_strlit("/");
    reveal_strlit("==");
    reveal_strlit("!=");
    reveal_strlit("<");
    reveal_strlit("<=");
    reveal_strlit(">");
    reveal_strlit(">=");
    reveal_strlit("&&");
    reveal_strlit("||");
    reveal_strlit("++");
    assert(binop_code(a).len() != binop_code(b).len() || binop_code(a)[0] != binop_code(b)[0] || binop_code(a)[1]
        != binop_code(b)[1]);
}

/// A binary expression other than `++` is generated as its operands'
/// texts around the operator, spelled as the checker spells it.
pub proof fn law_binary_expr_code(c: Set<Seq<char>>, lv: nat, op: BinOp, l: Expr, r: Expr, span: Span)
    requires
        op != BinOp::Concat,
    ensures
        expr_code(c, lv, Expr::Binary { op, left: Box::new(l), right: Box::new(r), span }) == expr_code(c, lv, l)
            + " "@ + binop_text(op) + " "@ + expr_code(c, lv, r),
{
}

// =========================================================================
// Operators in checking
// =========================================================================

/// `==` and `!=` apply to two operands of any one type and give a `Bool`.
pub proof fn law_equality_on_any_type(t: TypeV)
    ensures
        binop_type(BinOp::Eq, t, t) == Some(TypeV::Bool),
        binop_type(BinOp::Ne, t, t) == Some(TypeV::Bool),
{
}

/// Checking `a == b` or `a != b` on two operands of one type reports no
/// error and gives a `Bool`.
pub proof fn law_equality_checks_clean(s: St, t: TypeV, span: Span)
    requires
        !(t is Error),
    ensures
        binary_v(s, BinOp::Eq, t, t, span) == (s, TypeV::Bool),
        binary_v(s, BinOp::Ne, t, t, span) == (s, TypeV::Bool),
{
}

/// An operator applies only to two operands of one type; arithmetic gives
/// that type, comparisons and logic a `Bool`, `++` a `String`.
pub proof fn law_operands_of_one_type(op: BinOp, l: TypeV, r: TypeV)
    ensures
        binop_type(op, l, r) is Some ==> l == r,
        binop_type(op, l, r) matches Some(t) ==> (t == l || t == TypeV::Bool || t == TypeV::Str),
{
}

/// Arithmetic and ordering apply to two integers and to two floats.
pub proof fn law_numbers_have_arithmetic(op: BinOp, t: TypeV)
    requires
        numeric(t),
    ensures
        (op is Add || op is Sub || op is Mul || op is Div) ==> binop_type(op, t, t) == Some(t),
        (op is Lt || op is Le || op is Gt || op is Ge) ==> binop_type(op, t, t) == Some(TypeV::Bool),
{
}

/// `++` joins two strings into a string, and `&&`, `||` combine two
/// booleans into a boolean.
pub proof fn law_strings_and_booleans(op: BinOp)
    ensures
        binop_type(BinOp::Concat, TypeV::Str, TypeV::Str) == Some(TypeV::Str),
        (op is And || op is Or) ==> binop_type(op, TypeV::Bool, TypeV::Bool) == Some(TypeV::Bool),
{
}

// =========================================================================
// Compatibility of types
// =========================================================================

/// A primitive type.
pub open spec fn primitive(t: TypeV) -> bool {
    t is Int || t is Float || t is Bool || t is Str || t is Unit
}

/// Two different primitive types are never compatible.
pub proof fn law_distinct_primitives_incompatible(a: TypeV, b: TypeV)
    requires
        primitive(a),
        primitive(b),
        a != b,
    ensures
        !compatible(a, b),
{
}

/// Maps are compatible only when their keys and their values are.
pub proof fn law_dict_compatible_by_parts(k1: TypeV, v1: TypeV, k2: TypeV, v2: TypeV)
    ensures
        compatible(TypeV::Dict(Box::new(k1), Box::new(v1)), TypeV::Dict(Box::new(k2), Box::new(v2))) ==> compatible(
            k1,
            k2,
        ) && compatible(v1, v2),
{
    if k1 == k2 {
        assert(compatible(k1, k2));
    }
    if v1 == v2 {
        assert(compatible(v1, v2));
    }
}

/// Results are compatible only when their success and error types are.
pub proof fn law_result_compatible_by_parts(o1: TypeV, e1: TypeV, o2: TypeV, e2: TypeV)
    ensures
        compatible(TypeV::Res(Box::new(o1), Box::new(e1)), TypeV::Res(Box::new(o2), Box::new(e2))) ==> compatible(
            o1,
            o2,
        ) && compatible(e1, e2),
{
    if o1 == o2 {
        assert(compatible(o1, o2));
    }
    if e1 == e2 {
        assert(compatible(e1, e2));
    }
}

/// Lists are compatible only when their elements are.
pub proof fn law_list_compatible_by_parts(a: TypeV, b: TypeV)
    ensures
        compatible(TypeV::List(Box::new(a)), TypeV::List(Box::new(b))) ==> compatible(a, b),
{
    if a == b {
        assert(compatible(a, b));
    }
}

/// Options are compatible only when their contents are.
pub proof fn law_option_compatible_by_parts(a: TypeV, b: TypeV)
    ensures
        compatible(TypeV::Opt(Box::new(a)), TypeV::Opt(Box::new(b))) ==> compatible(a, b),
{
    if a == b {
        assert(compatible(a, b));
    }
}

proof fn lemma_compatible_all(s1: Seq<TypeV>, s2: Seq<TypeV>, i: int)
    requires
        s1.len() == s2.len(),
        compatible_all(s1, s2),
        0 <= i < s1.len(),
    ensures
        compatible(s1[i], s2[i]),
    decreases s1.len(),
{
    if i < s1.len() - 1 {
        assert(s1.drop_last()[i] == s1[i]);
        assert(s2.drop_last()[i] == s2[i]);
        lemma_compatible_all(s1.drop_last(), s2.drop_last(), i);
    }
}

/// Tuples are compatible only when they have the same length and their
/// elements are compatible place by place.
pub proof fn law_tuple_compatible_by_parts(e1: Seq<TypeV>, e2: Seq<TypeV>, i: int)
    requires
        compatible(TypeV::Tuple(e1), TypeV::Tuple(e2)),
    ensures
        e1.len() == e2.len(),
        0 <= i < e1.len() ==> compatible(e1[i], e2[i]),
{
    if e1 != e2 && 0 <= i < e1.len() {
        lemma_compatible_all(e1, e2, i);
    }
    if e1 == e2 && 0 <= i < e1.len() {
        assert(compatible(e1[i], e2[i]));
    }
}

/// Function types are compatible only when they take the same number of
/// parameters, compatible place by place, and return compatible types.
pub proof fn law_function_compatible_by_parts(p1: Seq<TypeV>, r1: TypeV, p2: Seq<TypeV>, r2: TypeV, i: int)
    requires
        compatible(TypeV::Func(p1, Box::new(r1)), TypeV::Func(p2, Box::new(r2))),
    ensures
        p1.len() == p2.len(),
        0 <= i < p1.len() ==> compatible(p1[i], p2[i]),
        compatible(r1, r2),
{
    if TypeV::Func(p1, Box::new(r1)) != TypeV::Func(p2, Box::new(r2)) {
        if 0 <= i < p1.len() {
            lemma_compatible_all(p1, p2, i);
        }
    } else {
        assert(compatible(r1, r2));
        if 0 <= i < p1.len() {
            assert(compatible(p1[i], p2[i]));
        }
    }
}

/// Instances of generic types are compatible only when they instantiate
/// the same type with as many arguments, compatible place by place.
pub proof fn law_generic_compatible_by_parts(n1: Seq<char>, a1: Seq<TypeV>, n2: Seq<char>, a2: Seq<TypeV>, i: int)
    requires
        compatible(TypeV::Generic(n1, a1), TypeV::Generic(n2, a2)),
    ensures
        n1 == n2,
        a1.len() == a2.len(),
        0 <= i < a1.len() ==> compatible(a1[i], a2[i]),
{
    if TypeV::Generic(n1, a1) != TypeV::Generic(n2, a2) {
        if 0 <= i < a1.len() {
            lemma_compatible_all(a1, a2, i);
        }
    } else if 0 <= i < a1.len() {
        assert(compatible(a1[i], a2[i]));
    }
}

/// Containers of incompatible primitive parts are incompatible: a list, an
/// option, a map (by key or by value) or a result of one is never
/// compatible with the same container of the other.
pub proof fn law_containers_of_distinct_primitives(a: TypeV, b: TypeV, x: TypeV)
    requires
        primitive(a),
        primitive(b),
        a != b,
    ensures
        !compatible(TypeV::List(Box::new(a)), TypeV::List(Box::new(b))),
        !compatible(TypeV::Opt(Box::new(a)), TypeV::Opt(Box::new(b))),
        !compatible(TypeV::Dict(Box::new(x), Box::new(a)), TypeV::Dict(Box::new(x), Box::new(b))),
        !compatible(TypeV::Dict(Box::new(a), Box::new(x)), TypeV::Dict(Box::new(b), Box::new(x))),
        !compatible(TypeV::Res(Box::new(a), Box::new(x)), TypeV::Res(Box::new(b), Box::new(x))),
        !compatible(TypeV::Res(Box::new(x), Box::new(a)), TypeV::Res(Box::new(x), Box::new(b))),
{
    law_distinct_primitives_incompatible(a, b);
    law_list_compatible_by_parts(a, b);
    law_option_compatible_by_parts(a, b);
    law_dict_compatible_by_parts(x, a, x, b);
    law_dict_compatible_by_parts(a, x, b, x);
    law_result_compatible_by_parts(a, x, b, x);
    law_result_compatible_by_parts(x, a, x, b);
}

// =========================================================================
// Glob imports
// =========================================================================

proof fn lemma_glob_keeps(imp: ImportsV, target: Seq<Seq<char>>, names: Seq<(Seq<char>, bool)>, k: Seq<char>)
    requires
        imp.contains_key(k),
        imp[k] == (target, k),
    ensures
        glob_names(imp, target, names).contains_key(k),
        glob_names(imp, target, names)[k] == (target, k),
    decreases names.len(),
{
    if names.len() > 0 {
        lemma_glob_keeps(imp, target, names.drop_last(), k);
    }
}

proof fn lemma_glob_adds(imp: ImportsV, target: Seq<Seq<char>>, names: Seq<(Seq<char>, bool)>, k: Seq<char>, i: int)
    requires
        0 <= i < names.len(),
        names[i] == (k, true),
    ensures
        glob_names(imp, target, names).contains_key(k),
        glob_names(imp, target, names)[k] == (target, k),
    decreases names.len(),
{
    if i < names.len() - 1 {
        assert(names.drop_last()[i] == names[i]);
        lemma_glob_adds(imp, target, names.drop_last(), k, i);
    }
}

/// `use target::*` imports every public declaration of the module, each
/// under its own name and from that module, whatever was imported before:
/// public agents, functions, records, enums and constants alike.
pub proof fn law_glob_imports_every_public(imp: ImportsV, target: Seq<Seq<char>>, p: Program, k: Seq<char>)
    requires
        crate::laws::declares_public(p, k),
    ensures
        glob_v(imp, target, p).contains_key(k),
        glob_v(imp, target, p)[k] == (target, k),
{
    let a = agent_pubs(p.agents@);
    let f = function_pubs(p.functions@);
    let r = record_pubs(p.records@);
    let e = enum_pubs(p.enums@);
    let cs = const_pubs(p.consts@);
    let m1 = glob_names(imp, target, a);
    let m2 = glob_names(m1, target, f);
    let m3 = glob_names(m2, target, r);
    let m4 = glob_names(m3, target, e);
    if exists|i: int| 0 <= i < p.agents@.len() && #[trigger] p.agents@[i].name.name@ == k && p.agents@[i].is_pub {
        let i = choose|i: int| 0 <= i < p.agents@.len() && #[trigger] p.agents@[i].name.name@ == k && p.agents@[i].is_pub;
        assert(a[i] == (k, true));
        lemma_glob_adds(imp, target, a, k, i);
        lemma_glob_keeps(m1, target, f, k);
        lemma_glob_keeps(m2, target, r, k);
        lemma_glob_keeps(m3, target, e, k);
        lemma_glob_keeps(m4, target, cs, k);
    } else if exists|i: int|
        0 <= i < p.functions@.len() && #[trigger] p.functions@[i].name.name@ == k && p.functions@[i].is_pub {
        let i = choose|i: int|
            0 <= i < p.functions@.len() && #[trigger] p.functions@[i].name.name@ == k && p.functions@[i].is_pub;
        assert(f[i] == (k, true));
        lemma_glob_adds(m1, target, f, k, i);
        lemma_glob_keeps(m2, target, r, k);
        lemma_glob_keeps(m3, target, e, k);
        lemma_glob_keeps(m4, target, cs, k);
    } else if exists|i: int| 0 <= i < p.records@.len() && #[trigger] p.records@[i].name.name@ == k && p.records@[i].is_pub {
        let i = choose|i: int|
            0 <= i < p.records@.len() && #[trigger] p.records@[i].name.name@ == k && p.records@[i].is_pub;
        assert(r[i] == (k, true));
        lemma_glob_adds(m2, target, r, k, i);
        lemma_glob_keeps(m3, target, e, k);
        lemma_glob_keeps(m4, target, cs, k);
    } else if exists|i: int| 0 <= i < p.enums@.len() && #[trigger] p.enums@[i].name.name@ == k && p.enums@[i].is_pub {
        let i = choose|i: int| 0 <= i < p.enums@.len() && #[trigger] p.enums@[i].name.name@ == k && p.enums@[i].is_pub;
        assert(e[i] == (k, true));
        lemma_glob_adds(m3, target, e, k, i);
        lemma_glob_keeps(m4, target, cs, k);
    } else {
        let i = choose|i: int| 0 <= i < p.consts@.len() && #[trigger] p.consts@[i].name.name@ == k && p.consts@[i].is_pub;
        assert(cs[i] == (k, true));
        lemma_glob_adds(m4, target, cs, k, i);
    }
}

// =========================================================================
// Test assertions
// =========================================================================

/// Two test assertions that claim opposite things.
pub open spec fn opposite_assertions(a: Seq<char>, b: Seq<char>) -> bool {
    ||| a == "assert_eq"@ && b == "assert_neq"@
    ||| a == "assert"@ && b == "assert_false"@
    ||| a == "assert_true"@ && b == "assert_false"@
    ||| a == "assert_contains"@ && b == "assert_not_contains"@
    ||| a == "assert_empty"@ && b == "assert_not_empty"@
    ||| a == "assert_empty_list"@ && b == "assert_not_empty_list"@
    ||| a == "assert_gt"@ && b == "assert_lte"@
    ||| a == "assert_lt"@ && b == "assert_gte"@
}

/// Two test assertions that claim opposite things are never written the
/// same way.
pub proof fn law_opposite_assertions_differ(a: Seq<char>, b: Seq<char>)
    requires
        opposite_assertions(a, b),
    ensures
        assertion_form(a) is Some,
        assertion_form(b) is Some,
        assertion_form(a) != assertion_form(b),
{
    reveal_strlit("assert_eq");
    reveal_strlit("assert_neq");
    reveal_strlit("assert");
    reveal_strlit("assert_true");
    reveal_strlit("assert_false");
    reveal_strlit("assert_contains");
    reveal_strlit("assert_not_contains");
    reveal_strlit("assert_empty");
    reveal_strlit("assert_not_empty");
    reveal_strlit("assert_empty_list");
    reveal_strlit("assert_not_empty_list");
    reveal_strlit("assert_gt");
    reveal_strlit("assert_lte");
    reveal_strlit("assert_lt");
    reveal_strlit("assert_gte");
    reveal_strlit("assert_eq!(");
    reveal_strlit("assert_ne!(");
    reveal_strlit("assert!(");
    reveal_strlit("assert!(!");
    reveal_strlit(" > ");
    reveal_strlit(" <= ");
    reveal_strlit(" < ");
    reveal_strlit(" >= ");
    lemma_assertion_names_distinct();
    reveal_strlit(">");
    reveal_strlit("<");
    reveal_strlit(">=");
    reveal_strlit("<=");
    reveal_strlit(" ");
    assert(">"@.len() == 1 && "<"@.len() == 1 && ">="@.len() == 2 && "<="@.len() == 2);
    assert("assert!("@.len() == 8 && "assert!(!"@.len() == 9);
    assert("assert_eq!("@[7] == 'e' && "assert_ne!("@[7] == 'n');
    if a == "assert_eq"@ {
        lemma_macro_assert_eq();
        lemma_macro_assert_neq();
        assert("assert_eq!("@[7] != "assert_ne!("@[7]);
    } else if a == "assert_gt"@ {
        lemma_comparison_assert_gt();
        lemma_comparison_assert_lte();
        assert((" "@ + binop_text(BinOp::Gt) + " "@).len() != (" "@ + binop_text(BinOp::Le) + " "@).len());
        let fa = assertion_form(a)->0;
        let fb = assertion_form(b)->0;
        assert(fa.2[1] != fb.2[1]);
    } else if a == "assert_lt"@ {
        lemma_comparison_assert_lt();
        lemma_comparison_assert_gte();
        assert((" "@ + binop_text(BinOp::Lt) + " "@).len() != (" "@ + binop_text(BinOp::Ge) + " "@).len());
        let fa = assertion_form(a)->0;
        let fb = assertion_form(b)->0;
        assert(fa.2[1] != fb.2[1]);
    } else {
        lemma_open_assert();
        lemma_open_assert_true();
        lemma_open_assert_false();
        lemma_open_assert_contains();
        lemma_open_assert_not_contains();
        lemma_open_assert_empty();
        lemma_open_assert_not_empty();
        lemma_open_assert_empty_list();
        lemma_open_assert_not_empty_list();
        assert("assert!("@.len() != "assert!(!"@.len());
    }
}

/// The comparison a test assertion claims between its two arguments.
pub open spec fn assertion_relation(name: Seq<char>) -> Option<BinOp> {
    if name == "assert_eq"@ {
        Some(BinOp::Eq)
    } else if name == "assert_neq"@ {
        Some(BinOp::Ne)
    } else if name == "assert_gt"@ {
        Some(BinOp::Gt)
    } else if name == "assert_lt"@ {
        Some(BinOp::Lt)
    } else if name == "assert_gte"@ {
        Some(BinOp::Ge)
    } else if name == "assert_lte"@ {
        Some(BinOp::Le)
    } else {
        None
    }
}

/// The test assertions' names are pairwise different.
proof fn lemma_assertion_names_distinct()
    ensures
        "assert"@ != "assert_true"@,
        "assert"@ != "assert_false"@,
        "assert"@ != "assert_eq"@,
        "assert"@ != "assert_neq"@,
        "assert"@ != "assert_gt"@,
        "assert"@ != "assert_lt"@,
        "assert"@ != "assert_gte"@,
        "assert"@ != "assert_lte"@,
        "assert"@ != "assert_contains"@,
        "assert"@ != "assert_not_contains"@,
        "assert"@ != "assert_empty"@,
        "assert"@ != "assert_not_empty"@,
        "assert"@ != "assert_starts_with"@,
        "assert"@ != "assert_ends_with"@,
        "assert"@ != "assert_len"@,
        "assert"@ != "assert_empty_list"@,
        "assert"@ != "assert_not_empty_list"@,
        "assert_true"@ != "assert_false"@,
        "assert_true"@ != "assert_eq"@,
        "assert_true"@ != "assert_neq"@,
        "assert_true"@ != "assert_gt"@,
        "assert_true"@ != "assert_lt"@,
        "assert_true"@ != "assert_gte"@,
        "assert_true"@ != "assert_lte"@,
        "assert_true"@ != "assert_contains"@,
        "assert_true"@ != "assert_not_contains"@,
        "assert_true"@ != "assert_empty"@,
        "assert_true"@ != "assert_not_empty"@,
        "assert_true"@ != "assert_starts_with"@,
        "assert_true"@ != "assert_ends_with"@,
        "assert_true"@ != "assert_len"@,
        "assert_true"@ != "assert_empty_list"@,
        "assert_true"@ != "assert_not_empty_list"@,
        "assert_false"@ != "assert_eq"@,
        "assert_false"@ != "assert_neq"@,
        "assert_false"@ != "assert_gt"@,
        "assert_false"@ != "assert_lt"@,
        "assert_false"@ != "assert_gte"@,
        "assert_false"@ != "assert_lte"@,
        "assert_false"@ != "assert_contains"@,
        "assert_false"@ != "assert_not_contains"@,
        "assert_false"@ != "assert_empty"@,
        "assert_false"@ != "assert_not_empty"@,
        "assert_false"@ != "assert_starts_with"@,
        "assert_false"@ != "assert_ends_with"@,
        "assert_false"@ != "assert_len"@,
        "assert_false"@ != "assert_empty_list"@,
        "assert_false"@ != "assert_not_empty_list"@,
        "assert_eq"@ != "assert_neq"@,
        "assert_eq"@ != "assert_gt"@,
        "assert_eq"@ != "assert_lt"@,
        "assert_eq"@ != "assert_gte"@,
        "assert_eq"@ != "assert_lte"@,
        "assert_eq"@ != "assert_contains"@,
        "assert_eq"@ != "assert_not_contains"@,
        "assert_eq"@ != "assert_empty"@,
        "assert_eq"@ != "assert_not_empty"@,
        "assert_eq"@ != "assert_starts_with"@,
        "assert_eq"@ != "assert_ends_with"@,
        "assert_eq"@ != "assert_len"@,
        "assert_eq"@ != "assert_empty_list"@,
        "assert_eq"@ != "assert_not_empty_list"@,
        "assert_neq"@ != "assert_gt"@,
        "assert_neq"@ != "assert_lt"@,
        "assert_neq"@ != "assert_gte"@,
        "assert_neq"@ != "assert_lte"@,
        "assert_neq"@ != "assert_contains"@,
        "assert_neq"@ != "assert_not_contains"@,
        "assert_neq"@ != "assert_empty"@,
        "assert_neq"@ != "assert_not_empty"@,
        "assert_neq"@ != "assert_starts_with"@,
        "assert_neq"@ != "assert_ends_with"@,
        "assert_neq"@ != "assert_len"@,
        "assert_neq"@ != "assert_empty_list"@,
        "assert_neq"@ != "assert_not_empty_list"@,
        "assert_gt"@ != "assert_lt"@,
        "assert_gt"@ != "assert_gte"@,
        "assert_gt"@ != "assert_lte"@,
        "assert_gt"@ != "assert_contains"@,
        "assert_gt"@ != "assert_not_contains"@,
        "assert_gt"@ != "assert_empty"@,
        "assert_gt"@ != "assert_not_empty"@,
        "assert_gt"@ != "assert_starts_with"@,
        "assert_gt"@ != "assert_ends_with"@,
        "assert_gt"@ != "assert_len"@,
        "assert_gt"@ != "assert_empty_list"@,
        "assert_gt"@ != "assert_not_empty_list"@,
        "assert_lt"@ != "assert_gte"@,
        "assert_lt"@ != "assert_lte"@,
        "assert_lt"@ != "assert_contains"@,
        "assert_lt"@ != "assert_not_contains"@,
        "assert_lt"@ != "assert_empty"@,
        "assert_lt"@ != "assert_not_empty"@,
        "assert_lt"@ != "assert_starts_with"@,
        "assert_lt"@ != "assert_ends_with"@,
        "assert_lt"@ != "assert_len"@,
        "assert_lt"@ != "assert_empty_list"@,
        "assert_lt"@ != "assert_not_empty_list"@,
        "assert_gte"@ != "assert_lte"@,
        "assert_gte"@ != "assert_contains"@,
        "assert_gte"@ != "assert_not_contains"@,
        "assert_gte"@ != "assert_empty"@,
        "assert_gte"@ != "assert_not_empty"@,
        "assert_gte"@ != "assert_starts_with"@,
        "assert_gte"@ != "assert_ends_with"@,
        "assert_gte"@ != "assert_len"@,
        "assert_gte"@ != "assert_empty_list"@,
        "assert_gte"@ != "assert_not_empty_list"@,
        "assert_lte"@ != "assert_contains"@,
        "assert_lte"@ != "assert_not_contains"@,
        "assert_lte"@ != "assert_empty"@,
        "assert_lte"@ != "assert_not_empty"@,
        "assert_lte"@ != "assert_starts_with"@,
        "assert_lte"@ != "assert_ends_with"@,
        "assert_lte"@ != "assert_len"@,
        "assert_lte"@ != "assert_empty_list"@,
        "assert_lte"@ != "assert_not_empty_list"@,
        "assert_contains"@ != "assert_not_contains"@,
        "assert_contains"@ != "assert_empty"@,
        "assert_contains"@ != "assert_not_empty"@,
        "assert_contains"@ != "assert_starts_with"@,
        "assert_contains"@ != "assert_ends_with"@,
        "assert_contains"@ != "assert_len"@,
        "assert_contains"@ != "assert_empty_list"@,
        "assert_contains"@ != "assert_not_empty_list"@,
        "assert_not_contains"@ != "assert_empty"@,
        "assert_not_contains"@ != "assert_not_empty"@,
        "assert_not_contains"@ != "assert_starts_with"@,
        "assert_not_contains"@ != "assert_ends_with"@,
        "assert_not_contains"@ != "assert_len"@,
        "assert_not_contains"@ != "assert_empty_list"@,
        "assert_not_contains"@ != "assert_not_empty_list"@,
        "assert_empty"@ != "assert_not_empty"@,
        "assert_empty"@ != "assert_starts_with"@,
        "assert_empty"@ != "assert_ends_with"@,
        "assert_empty"@ != "assert_len"@,
        "assert_empty"@ != "assert_empty_list"@,
        "assert_empty"@ != "assert_not_empty_list"@,
        "assert_not_empty"@ != "assert_starts_with"@,
        "assert_not_empty"@ != "assert_ends_with"@,
        "assert_not_empty"@ != "assert_len"@,
        "assert_not_empty"@ != "assert_empty_list"@,
        "assert_not_empty"@ != "assert_not_empty_list"@,
        "assert_starts_with"@ != "assert_ends_with"@,
        "assert_starts_with"@ != "assert_len"@,
        "assert_starts_with"@ != "assert_empty_list"@,
        "assert_starts_with"@ != "assert_not_empty_list"@,
        "assert_ends_with"@ != "assert_len"@,
        "assert_ends_with"@ != "assert_empty_list"@,
        "assert_ends_with"@ != "assert_not_empty_list"@,
        "assert_len"@ != "assert_empty_list"@,
        "assert_len"@ != "assert_not_empty_list"@,
        "assert_empty_list"@ != "assert_not_empty_list"@,
{
    reveal_strlit("assert");
    reveal_strlit("assert_true");
    reveal_strlit("assert_false");
    reveal_strlit("assert_eq");
    reveal_strlit("assert_neq");
    reveal_strlit("assert_gt");
    reveal_strlit("assert_lt");
    reveal_strlit("assert_gte");
    reveal_strlit("assert_lte");
    reveal_strlit("assert_contains");
    reveal_strlit("assert_not_contains");
    reveal_strlit("assert_empty");
    reveal_strlit("assert_not_empty");
    reveal_strlit("assert_starts_with");
    reveal_strlit("assert_ends_with");
    reveal_strlit("assert_len");
    reveal_strlit("assert_empty_list");
    reveal_strlit("assert_not_empty_list");
    assert("assert"@.len() == 6);
    assert("assert_true"@.len() == 11);
    assert("assert_false"@.len() == 12);
    assert("assert_eq"@.len() == 9);
    assert("assert_neq"@.len() == 10);
    assert("assert_gt"@.len() == 9);
    assert("assert_lt"@.len() == 9);
    assert("assert_gte"@.len() == 10);
    assert("assert_lte"@.len() == 10);
    assert("assert_contains"@.len() == 15);
    assert("assert_not_contains"@.len() == 19);
    assert("assert_empty"@.len() == 12);
    assert("assert_not_empty"@.len() == 16);
    assert("assert_starts_with"@.len() == 18);
    assert("assert_ends_with"@.len() == 16);
    assert("assert_len"@.len() == 10);
    assert("assert_empty_list"@.len() == 17);
    assert("assert_not_empty_list"@.len() == 21);
    assert("assert_false"@[7] == 'f' && "assert_empty"@[7] == 'e');
    assert("assert_eq"@[7] == 'e' && "assert_gt"@[7] == 'g');
    assert("assert_eq"@[7] == 'e' && "assert_lt"@[7] == 'l');
    assert("assert_neq"@[7] == 'n' && "assert_gte"@[7] == 'g');
    assert("assert_neq"@[7] == 'n' && "assert_lte"@[7] == 'l');
    assert("assert_neq"@[7] == 'n' && "assert_len"@[7] == 'l');
    assert("assert_gt"@[7] == 'g' && "assert_lt"@[7] == 'l');
    assert("assert_gte"@[7] == 'g' && "assert_lte"@[7] == 'l');
    assert("assert_gte"@[7] == 'g' && "assert_len"@[7] == 'l');
    assert("assert_lte"@[8] == 't' && "assert_len"@[8] == 'e');
    assert("assert_not_empty"@[7] == 'n' && "assert_ends_with"@[7] == 'e');
}

/// The written form opens with `open`.
pub open spec fn opens_with(f: Option<(Seq<char>, nat, Seq<CodePiece>, Seq<char>)>, open: Seq<char>) -> bool {
    let g = f->0;
    f is Some && g.0 == open
}

proof fn lemma_open_assert()
    ensures
        opens_with(assertion_form("assert"@), "assert!("@),
{
    lemma_assertion_names_distinct();
    reveal_strlit("assert");
    reveal_strlit("assert!(");
}

proof fn lemma_open_assert_true()
    ensures
        opens_with(assertion_form("assert_true"@), "assert!("@),
{
    lemma_assertion_names_distinct();
    reveal_strlit("assert");
    reveal_strlit("assert_true");
    reveal_strlit("assert!(");
}

proof fn lemma_open_assert_false()
    ensures
        opens_with(assertion_form("assert_false"@), "assert!(!"@),
{
    lemma_assertion_names_distinct();
    reveal_strlit("assert");
    reveal_strlit("assert_true");
    reveal_strlit("assert_false");
    reveal_strlit("assert!(!");
}

proof fn lemma_open_assert_contains()
    ensures
        opens_with(assertion_form("assert_contains"@), "assert!("@),
{
    lemma_assertion_names_distinct();
    reveal_strlit("assert");
    reveal_strlit("assert_true");
    reveal_strlit("assert_false");
    reveal_strlit("assert_eq");
    reveal_strlit("assert_neq");
    reveal_strlit("assert_gt");
    reveal_strlit("assert_lt");
    reveal_strlit("assert_gte");
    reveal_strlit("assert_lte");
    reveal_strlit("assert_contains");
    reveal_strlit("assert!(");
}

proof fn lemma_open_assert_not_contains()
    ensures
        opens_with(assertion_form("assert_not_contains"@), "assert!(!"@),
{
    lemma_assertion_names_distinct();
    reveal_strlit("assert");
    reveal_strlit("assert_true");
    reveal_strlit("assert_false");
    reveal_strlit("assert_eq");
    reveal_strlit("assert_neq");
    reveal_strlit("assert_gt");
    reveal_strlit("assert_lt");
    reveal_strlit("assert_gte");
    reveal_strlit("assert_lte");
    reveal_strlit("assert_contains");
    reveal_strlit("assert_not_contains");
    reveal_strlit("assert!(!");
}

proof fn lemma_open_assert_empty()
    ensures
        opens_with(assertion_form("assert_empty"@), "assert!("@),
{
    lemma_assertion_names_distinct();
    reveal_strlit("assert");
    reveal_strlit("assert_true");
    reveal_strlit("assert_false");
    reveal_strlit("assert_eq");
    reveal_strlit("assert_neq");
    reveal_strlit("assert_gt");
    reveal_strlit("assert_lt");
    reveal_strlit("assert_gte");
    reveal_strlit("assert_lte");
    reveal_strlit("assert_contains");
    reveal_strlit("assert_not_contains");
    reveal_strlit("assert_empty");
    reveal_strlit("assert!(");
}

proof fn lemma_open_assert_not_empty()
    ensures
        opens_with(assertion_form("assert_not_empty"@), "assert!(!"@),
{
    lemma_assertion_names_distinct();
    reveal_strlit("assert");
    reveal_strlit("assert_true");
    reveal_strlit("assert_false");
    reveal_strlit("assert_eq");
    reveal_strlit("assert_neq");
    reveal_strlit("assert_gt");
    reveal_strlit("assert_lt");
    reveal_strlit("assert_gte");
    reveal_strlit("assert_lte");
    reveal_strlit("assert_contains");
    reveal_strlit("assert_not_contains");
    reveal_strlit("assert_empty");
    reveal_strlit("assert_not_empty");
    reveal_strlit("assert!(!");
}

proof fn lemma_open_assert_empty_list()
    ensures
        opens_with(assertion_form("assert_empty_list"@), "assert!("@),
{
    lemma_assertion_names_distinct();
    reveal_strlit("assert");
    reveal_strlit("assert_true");
    reveal_strlit("assert_false");
    reveal_strlit("assert_eq");
    reveal_strlit("assert_neq");
    reveal_strlit("assert_gt");
    reveal_strlit("assert_lt");
    reveal_strlit("assert_gte");
    reveal_strlit("assert_lte");
    reveal_strlit("assert_contains");
    reveal_strlit("assert_not_contains");
    reveal_strlit("assert_empty");
    reveal_strlit("assert_not_empty");
    reveal_strlit("assert_starts_with");
    reveal_strlit("assert_ends_with");
    reveal_strlit("assert_len");
    reveal_strlit("assert_empty_list");
    reveal_strlit("assert!(");
}

proof fn lemma_open_assert_not_empty_list()
    ensures
        opens_with(assertion_form("assert_not_empty_list"@), "assert!(!"@),
{
    lemma_assertion_names_distinct();
    reveal_strlit("assert");
    reveal_strlit("assert_true");
    reveal_strlit("assert_false");
    reveal_strlit("assert_eq");
    reveal_strlit("assert_neq");
    reveal_strlit("assert_gt");
    reveal_strlit("assert_lt");
    reveal_strlit("assert_gte");
    reveal_strlit("assert_lte");
    reveal_strlit("assert_contains");
    reveal_strlit("assert_not_contains");
    reveal_strlit("assert_empty");
    reveal_strlit("assert_not_empty");
    reveal_strlit("assert_starts_with");
    reveal_strlit("assert_ends_with");
    reveal_strlit("assert_len");
    reveal_strlit("assert_empty_list");
    reveal_strlit("assert_not_empty_list");
    reveal_strlit("assert!(!");
}

proof fn lemma_macro_assert_eq()
    ensures
        asserts_with_macro(assertion_form("assert_eq"@), "assert_eq!("@),
{
    lemma_assertion_names_distinct();
    reveal_strlit("assert");
    reveal_strlit("assert_true");
    reveal_strlit("assert_false");
    reveal_strlit("assert_eq");
    reveal_strlit("assert_eq!(");
    reveal_strlit(", ");
    reveal_strlit(");");
    assert(assertion_form("assert_eq"@) is Some);
    let g = assertion_form("assert_eq"@)->0;
    assert(g.0 == "assert_eq!("@);
    assert(g.1 == 2);
    assert(g.2.len() == 3);
    assert(g.2[0] == CodePiece::Arg(0));
    assert(g.2[1] is Text);
    assert(g.2[1]->Text_0@ == ", "@);
    assert(g.3 == ");"@);
}

proof fn lemma_macro_assert_neq()
    ensures
        asserts_with_macro(assertion_form("assert_neq"@), "assert_ne!("@),
{
    lemma_assertion_names_distinct();
    reveal_strlit("assert");
    reveal_strlit("assert_true");
    reveal_strlit("assert_false");
    reveal_strlit("assert_eq");
    reveal_strlit("assert_neq");
    reveal_strlit("assert_ne!(");
    reveal_strlit(", ");
    reveal_strlit(");");
}

proof fn lemma_comparison_assert_gt()
    ensures
        asserts_comparison(assertion_form("assert_gt"@), BinOp::Gt),
{
    lemma_assertion_names_distinct();
    reveal_strlit("assert");
    reveal_strlit("assert_true");
    reveal_strlit("assert_false");
    reveal_strlit("assert_eq");
    reveal_strlit("assert_neq");
    reveal_strlit("assert_gt");
    reveal_strlit("assert!(");
    reveal_strlit(");");
    reveal_strlit(" > ");
    reveal_strlit(" ");
    reveal_strlit(">");
    assert(" > "@ =~= " "@ + ">"@ + " "@);
    let g = assertion_form("assert_gt"@)->0;
    assert(g.2[1]->Text_0@ =~= " "@ + binop_text(BinOp::Gt) + " "@);
}

proof fn lemma_comparison_assert_lt()
    ensures
        asserts_comparison(assertion_form("assert_lt"@), BinOp::Lt),
{
    lemma_assertion_names_distinct();
    reveal_strlit("assert");
    reveal_strlit("assert_true");
    reveal_strlit("assert_false");
    reveal_strlit("assert_eq");
    reveal_strlit("assert_neq");
    reveal_strlit("assert_gt");
    reveal_strlit("assert_lt");
    reveal_strlit("assert!(");
    reveal_strlit(");");
    reveal_strlit(" < ");
    reveal_strlit(" ");
    reveal_strlit("<");
    assert(" < "@ =~= " "@ + "<"@ + " "@);
    let g = assertion_form("assert_lt"@)->0;
    assert(g.2[1]->Text_0@ =~= " "@ + binop_text(BinOp::Lt) + " "@);
}

proof fn lemma_comparison_assert_gte()
    ensures
        asserts_comparison(assertion_form("assert_gte"@), BinOp::Ge),
{
    lemma_assertion_names_distinct();
    reveal_strlit("assert");
    reveal_strlit("assert_true");
    reveal_strlit("assert_false");
    reveal_strlit("assert_eq");
    reveal_strlit("assert_neq");
    reveal_strlit("assert_gt");
    reveal_strlit("assert_lt");
    reveal_strlit("assert_gte");
    reveal_strlit("assert!(");
    reveal_strlit(");");
    reveal_strlit(" >= ");
    reveal_strlit(" ");
    reveal_strlit(">=");
    assert(" >= "@ =~= " "@ + ">="@ + " "@);
    let g = assertion_form("assert_gte"@)->0;
    assert(g.2[1]->Text_0@ =~= " "@ + binop_text(BinOp::Ge) + " "@);
}

proof fn lemma_comparison_assert_lte()
    ensures
        asserts_comparison(assertion_form("assert_lte"@), BinOp::Le),
{
    lemma_assertion_names_distinct();
    reveal_strlit("assert");
    reveal_strlit("assert_true");
    reveal_strlit("assert_false");
    reveal_strlit("assert_eq");
    reveal_strlit("assert_neq");
    reveal_strlit("assert_gt");
    reveal_strlit("assert_lt");
    reveal_strlit("assert_gte");
    reveal_strlit("assert_lte");
    reveal_strlit("assert!(");
    reveal_strlit(");");
    reveal_strlit(" <= ");
    reveal_strlit(" ");
    reveal_strlit("<=");
    assert(" <= "@ =~= " "@ + "<="@ + " "@);
    let g = assertion_form("assert_lte"@)->0;
    assert(g.2[1]->Text_0@ =~= " "@ + binop_text(BinOp::Le) + " "@);
}

/// The form `<macro>a, b);` of Rust's two-argument assertion macros.
pub open spec fn asserts_with_macro(f: Option<(Seq<char>, nat, Seq<CodePiece>, Seq<char>)>, mac: Seq<char>) -> bool {
    let g = f->0;
    &&& f is Some
    &&& g.0 == mac
    &&& g.1 == 2
    &&& g.2.len() == 3
    &&& g.2[0] == CodePiece::Arg(0)
    &&& g.2[2] == CodePiece::Arg(1)
    &&& g.2[1] is Text
    &&& g.2[1]->Text_0@ == ", "@
    &&& g.3 == ");"@
}

/// The form `assert!(a <op> b);`, with the operator spelled as the checker
/// spells it.
pub open spec fn asserts_comparison(f: Option<(Seq<char>, nat, Seq<CodePiece>, Seq<char>)>, op: BinOp) -> bool {
    let g = f->0;
    &&& f is Some
    &&& g.0 == "assert!("@
    &&& g.1 == 2
    &&& g.2.len() == 3
    &&& g.2[0] == CodePiece::Arg(0)
    &&& g.2[2] == CodePiece::Arg(1)
    &&& g.2[1] is Text
    &&& g.2[1]->Text_0@ == " "@ + binop_text(op) + " "@
    &&& g.3 == ");"@
}

/// A comparison assertion is written as a Rust assertion of that
/// comparison between its two arguments: `==` and `!=` through Rust's
/// `assert_eq!` and `assert_ne!`, the orderings as `assert!` of the
/// operator, spelled as the checker spells it.
pub proof fn law_comparison_assertions(name: Seq<char>, op: BinOp)
    requires
        assertion_relation(name) == Some(op),
    ensures
        op == BinOp::Eq ==> asserts_with_macro(assertion_form(name), "assert_eq!("@),
        op == BinOp::Ne ==> asserts_with_macro(assertion_form(name), "assert_ne!("@),
        (op != BinOp::Eq && op != BinOp::Ne) ==> asserts_comparison(assertion_form(name), op),
{
    reveal_strlit("assert_eq");
    reveal_strlit("assert_neq");
    reveal_strlit("assert_gt");
    reveal_strlit("assert_lt");
    reveal_strlit("assert_gte");
    reveal_strlit("assert_lte");
    lemma_assertion_names_distinct();
    lemma_macro_assert_eq();
    lemma_macro_assert_neq();
    lemma_comparison_assert_gt();
    lemma_comparison_assert_lt();
    lemma_comparison_assert_gte();
    lemma_comparison_assert_lte();
}

} // verus!
