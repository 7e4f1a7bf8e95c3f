//! The Rust text of Sage expressions, and the snake-case names the
//! generator derives from agent and type names.

use vstd::prelude::*;
use crate::ast::BinOp;
use crate::ast::ClosureParam;
use crate::ast::Expr;
use crate::ast::FieldInit;
use crate::ast::Literal;
use crate::ast::MapEntry;
use crate::ast::MatchArm;
use crate::ast::StringPart;
use crate::ast::StringTemplate;
use crate::generator::Generator;
use crate::generator::binop_code;
use crate::generator::escaped;
use crate::generator::lead;
use crate::generator::indentation;
use crate::stmtgen::pattern_code;
use crate::generator::message_type_name;
use crate::generator::type_code;
use crate::generator::unaryop_code;
use crate::rules::decimal;

verus! {

// =========================================================================
// Names
// =========================================================================

/// Whether `char::is_uppercase` holds of a character (the Unicode
/// `Uppercase` property).
pub uninterp spec fn is_uppercase_char(c: char) -> bool;

/// The lowercase form `str::to_lowercase` gives a text (Unicode case
/// mapping).
pub uninterp spec fn lowercase_text(s: Seq<char>) -> Seq<char>;

/// `char::is_uppercase`. Claims that the answer is what `is_uppercase_char`
/// names, and the plain facts of its documentation for ASCII: the letters
/// `A` to `Z` are uppercase; lowercase letters, digits and `_` are not.
#[verifier::external_body]
fn char_is_uppercase(c: char) -> (r: bool)
    ensures
        r == is_uppercase_char(c),
        'A' <= c <= 'Z' ==> r,
        ('a' <= c <= 'z' || '0' <= c <= '9' || c == '_') ==> !r,
{
    c.is_uppercase()
}

/// `str::to_lowercase`. Claims that the result is what `lowercase_text`
/// names.
#[verifier::external_body]
fn to_lowercase(s: &str) -> (r: String)
    ensures
        r@ == lowercase_text(s@),
{
    s.to_lowercase()
}

/// `char::to_ascii_lowercase`: ASCII capitals become small letters, every
/// other character stays.
pub open spec fn ascii_lower(c: char) -> char {
    if 'A' <= c <= 'Z' {
        ((c as u32) + 32) as char
    } else {
        c
    }
}

/// The snake-case form of a name: an underscore before every uppercase
/// character but the first, and each uppercase character lowered as ASCII.
pub open spec fn snake_case(s: Seq<char>) -> Seq<char>
    decreases s.len(),
{
    if s.len() == 0 {
        Seq::empty()
    } else {
        let c = s.last();
        snake_case(s.drop_last()) + if is_uppercase_char(c) {
            if s.len() > 1 {
                seq!['_', ascii_lower(c)]
            } else {
                seq![ascii_lower(c)]
            }
        } else {
            seq![c]
        }
    }
}

/// Convert a CamelCase name to snake_case.
pub fn to_snake_case(name: &str) -> (r: String)
    ensures
        r@ == snake_case(name@),
{
    proof {
        reveal_strlit("");
        reveal_strlit("_");
        reveal_strlit("abcdefghijklmnopqrstuvwxyz");
    }
    let small = "abcdefghijklmnopqrstuvwxyz";
    let mut out = String::from_str("");
    let n = name.unicode_len();
    let mut i: usize = 0;
    while i < n
        invariant
            n == name@.len(),
            i <= n,
            small@ == "abcdefghijklmnopqrstuvwxyz"@,
            small@.len() == 26,
            forall|d: int| 0 <= d < 26 ==> #[trigger] small@[d] == ((('a' as u32) + d) as char),
            out@ == snake_case(name@.subrange(0, i as int)),
        decreases n - i,
    {
        let ghost pre = name@.subrange(0, i as int);
        let ghost post = name@.subrange(0, i + 1);
        assert(post.drop_last() =~= pre);
        let c = name.get_char(i);
        assert(post.last() == c);
        let ghost o0 = out@;
        if char_is_uppercase(c) {
            if i > 0 {
                proof {
                    reveal_strlit("_");
                }
                out.append("_");
                assert(out@ =~= o0 + seq!['_']);
            }
            let ghost o1 = out@;
            if 'A' <= c && c <= 'Z' {
                let d = ((c as u32) - ('A' as u32)) as usize;
                let one = small.substring_char(d, d + 1);
                assert(one@ =~= seq![small@[d as int]]);
                assert(small@[d as int] == ascii_lower(c));
                out.append(one);
            } else {
                let one = name.substring_char(i, i + 1);
                assert(one@ =~= seq![c]);
                out.append(one);
            }
            assert(out@ =~= o1 + seq![ascii_lower(c)]);
            if i > 0 {
                assert(out@ =~= o0 + seq!['_', ascii_lower(c)]);
            } else {
                assert(out@ =~= o0 + seq![ascii_lower(c)]);
            }
        } else {
            let one = name.substring_char(i, i + 1);
            assert(one@ =~= seq![c]);
            out.append(one);
            assert(out@ =~= o0 + seq![c]);
        }
        i = i + 1;
    }
    assert(name@.subrange(0, n as int) =~= name@);
    out
}


// =========================================================================
// Expressions: what is written
// =========================================================================

/// The names the generator treats as built-in functions: a call of one is
/// written as its Rust counterpart, not as a call of a user function.
pub open spec fn codegen_builtin_names() -> Set<Seq<char>> {
    set![
        "print"@, "str"@, "len"@, "split"@, "lines"@, "chars"@, "join"@, "trim"@, "trim_start"@, "trim_end"@,
        "starts_with"@, "ends_with"@, "str_contains"@, "replace"@, "replace_first"@, "to_upper"@, "to_lower"@,
        "str_len"@, "str_slice"@, "str_index_of"@, "str_repeat"@, "str_pad_start"@, "str_pad_end"@, "chr"@,
        "abs"@, "abs_float"@, "min"@, "max"@, "min_float"@, "max_float"@, "clamp"@, "clamp_float"@, "floor"@,
        "ceil"@, "round"@, "floor_float"@, "ceil_float"@, "pow"@, "pow_float"@, "sqrt"@, "int_to_float"@,
        "float_to_int"@, "parse_int"@, "parse_float"@, "parse_bool"@, "float_to_str"@, "bool_to_str"@,
        "int_to_str"@, "map"@, "filter"@, "reduce"@, "any"@, "all"@, "find"@, "flat_map"@, "zip"@, "sort_by"@,
        "enumerate"@, "take"@, "drop"@, "flatten"@, "reverse"@, "unique"@, "count_where"@, "sum"@,
        "sum_floats"@, "range"@, "range_step"@, "first"@, "last"@, "get"@, "list_contains"@, "sort"@,
        "list_slice"@, "chunk"@, "pop"@, "push"@, "concat"@, "take_while"@, "drop_while"@, "is_some"@,
        "is_none"@, "unwrap"@, "unwrap_or"@, "unwrap_or_else"@, "map_option"@, "or_option"@, "is_ok"@,
        "is_err"@, "unwrap_result"@, "unwrap_err"@, "unwrap_or_result"@, "map_result"@, "map_err"@, "ok"@,
        "err_value"@, "read_file"@, "write_file"@, "append_file"@, "file_exists"@, "delete_file"@,
        "list_dir"@, "make_dir"@, "read_line"@, "read_all"@, "print_err"@, "now_ms"@, "now_s"@, "sleep_ms"@,
        "format_timestamp"@, "parse_timestamp"@, "json_parse"@, "json_get"@, "json_get_int"@,
        "json_get_float"@, "json_get_bool"@, "json_get_list"@, "json_stringify"@
    ]
}

/// Whether the expression generator writes an expression on its own: a
/// call of a built-in function only where it has the arguments that the
/// built-in's template refers to, and no spawn (which reads the spawned
/// agent's handlers), at any depth.
pub open spec fn plain_expr(e: Expr) -> bool
    decreases e, 1int,
{
    match e {
        Expr::Literal { .. } => true,
        Expr::Var { .. } => true,
        Expr::List { elements, .. } => plain_exprs(elements@),
        Expr::Binary { left, right, .. } => plain_expr(*left) && plain_expr(*right),
        Expr::Unary { operand, .. } => plain_expr(*operand),
        Expr::Call { name, args, .. } => plain_exprs(args@) && match builtin_template(name.name@) {
            Some(t) => args_fit(t, args@.len()),
            None => !codegen_builtin_names().contains(name.name@),
        },
        Expr::SelfField { .. } => true,
        Expr::SelfMethodCall { args, .. } => plain_exprs(args@),
        Expr::Infer { .. } => true,
        Expr::Spawn { .. } => false,
        Expr::Await { handle, .. } => plain_expr(*handle),
        Expr::Send { handle, message, .. } => plain_expr(*handle) && plain_expr(*message),
        Expr::Emit { value, .. } => plain_expr(*value),
        Expr::Paren { inner, .. } => plain_expr(*inner),
        Expr::StringInterp { .. } => true,
        Expr::Match { scrutinee, arms, .. } => plain_expr(*scrutinee) && plain_arms(arms@),
        Expr::RecordConstruct { fields, .. } => plain_fields(fields@),
        Expr::FieldAccess { object, .. } => plain_expr(*object),
        Expr::Receive { .. } => true,
        Expr::Try { expr, .. } => plain_expr(*expr),
        Expr::Catch { expr, recovery, .. } => plain_expr(*expr) && plain_expr(*recovery),
        Expr::Closure { body, .. } => plain_expr(*body),
        Expr::Tuple { elements, .. } => plain_exprs(elements@),
        Expr::TupleIndex { tuple, .. } => plain_expr(*tuple),
        Expr::Dict { entries, .. } => plain_entries(entries@),
        Expr::VariantConstruct { payload, .. } => match payload {
            Some(p) => plain_expr(*p),
            None => true,
        },
        Expr::ToolCall { args, .. } => plain_exprs(args@),
    }
}

/// Every expression of the list is plain.
pub open spec fn plain_exprs(es: Seq<Expr>) -> bool
    decreases es, 0int,
{
    if es.len() == 0 {
        true
    } else {
        plain_exprs(es.drop_last()) && plain_expr(es.last())
    }
}

/// Every arm's body is plain.
pub open spec fn plain_arms(arms: Seq<MatchArm>) -> bool
    decreases arms, 0int,
{
    if arms.len() == 0 {
        true
    } else {
        plain_arms(arms.drop_last()) && plain_expr(arms.last().body)
    }
}

/// How many levels deeper than an expression's own the lines of the
/// `match` arms inside it go (a `catch` is written as a `match`).
pub open spec fn expr_depth(e: Expr) -> nat
    decreases e, 1int,
{
    match e {
        Expr::List { elements, .. } => exprs_depth(elements@),
        Expr::Binary { left, right, .. } => max_nat(expr_depth(*left), expr_depth(*right)),
        Expr::Unary { operand, .. } => expr_depth(*operand),
        Expr::Call { args, .. } => exprs_depth(args@),
        Expr::SelfMethodCall { args, .. } => exprs_depth(args@),
        Expr::Await { handle, .. } => expr_depth(*handle),
        Expr::Send { handle, message, .. } => max_nat(expr_depth(*handle), expr_depth(*message)),
        Expr::Emit { value, .. } => expr_depth(*value),
        Expr::Paren { inner, .. } => expr_depth(*inner),
        Expr::Match { scrutinee, arms, .. } => max_nat(expr_depth(*scrutinee), 1 + arms_depth(arms@)),
        Expr::RecordConstruct { fields, .. } => inits_depth(fields@),
        Expr::FieldAccess { object, .. } => expr_depth(*object),
        Expr::Try { expr, .. } => expr_depth(*expr),
        Expr::Catch { expr, recovery, .. } => max_nat(expr_depth(*expr), 1 + expr_depth(*recovery)),
        Expr::Closure { body, .. } => expr_depth(*body),
        Expr::Tuple { elements, .. } => exprs_depth(elements@),
        Expr::TupleIndex { tuple, .. } => expr_depth(*tuple),
        Expr::Dict { entries, .. } => entries_depth(entries@),
        Expr::VariantConstruct { payload, .. } => match payload {
            Some(p) => expr_depth(*p),
            None => 0,
        },
        Expr::ToolCall { args, .. } => exprs_depth(args@),
        _ => 0,
    }
}

/// The larger of two numbers.
pub open spec fn max_nat(a: nat, b: nat) -> nat {
    if a >= b {
        a
    } else {
        b
    }
}

/// The deepest of a list of expressions.
pub open spec fn exprs_depth(es: Seq<Expr>) -> nat
    decreases es, 0int,
{
    if es.len() == 0 {
        0
    } else {
        max_nat(exprs_depth(es.drop_last()), expr_depth(es.last()))
    }
}

/// The deepest of the arms' bodies.
pub open spec fn arms_depth(arms: Seq<MatchArm>) -> nat
    decreases arms, 0int,
{
    if arms.len() == 0 {
        0
    } else {
        max_nat(arms_depth(arms.drop_last()), expr_depth(arms.last().body))
    }
}

/// The deepest of the initializers' values.
pub open spec fn inits_depth(fs: Seq<FieldInit>) -> nat
    decreases fs, 0int,
{
    if fs.len() == 0 {
        0
    } else {
        max_nat(inits_depth(fs.drop_last()), expr_depth(fs.last().value))
    }
}

/// The deepest of the entries' keys and values.
pub open spec fn entries_depth(es: Seq<MapEntry>) -> nat
    decreases es, 0int,
{
    if es.len() == 0 {
        0
    } else {
        max_nat(entries_depth(es.drop_last()), max_nat(expr_depth(es.last().key), expr_depth(es.last().value)))
    }
}

/// Every initializer's value is plain.
pub open spec fn plain_fields(fs: Seq<FieldInit>) -> bool
    decreases fs, 0int,
{
    if fs.len() == 0 {
        true
    } else {
        plain_fields(fs.drop_last()) && plain_expr(fs.last().value)
    }
}

/// Every entry's key and value are plain.
pub open spec fn plain_entries(es: Seq<MapEntry>) -> bool
    decreases es, 0int,
{
    if es.len() == 0 {
        true
    } else {
        plain_entries(es.drop_last()) && plain_expr(es.last().key) && plain_expr(es.last().value)
    }
}

/// The decimal text of a signed integer.
pub open spec fn int_text(n: i64) -> Seq<char> {
    if n < 0 {
        "-"@ + decimal((-n) as nat)
    } else {
        decimal(n as nat)
    }
}

/// The Rust text of a literal.
pub open spec fn literal_code(l: Literal) -> Seq<char> {
    match l {
        Literal::Int(n) => int_text(n) + "_i64"@,
        Literal::Float(t) => t@ + "_f64"@,
        Literal::Bool(b) => if b {
            "true"@
        } else {
            "false"@
        },
        Literal::String(s) => "\""@ + escaped(s@) + "\".to_string()"@,
    }
}

/// The Rust text of a variable: the built-in constants become their Rust
/// values, and a string constant is turned into a `String`.
pub open spec fn var_code(consts: Set<Seq<char>>, n: Seq<char>) -> Seq<char> {
    if n == "PI"@ {
        "std::f64::consts::PI"@
    } else if n == "E"@ {
        "std::f64::consts::E"@
    } else if n == "MS_PER_SECOND"@ {
        "1000_i64"@
    } else if n == "MS_PER_MINUTE"@ {
        "60000_i64"@
    } else if n == "MS_PER_HOUR"@ {
        "3600000_i64"@
    } else if n == "MS_PER_DAY"@ {
        "86400000_i64"@
    } else if consts.contains(n) {
        n + ".to_string()"@
    } else {
        n
    }
}

/// A text with `{` and `}` doubled, for a `format!` string.
pub open spec fn braces_doubled(s: Seq<char>) -> Seq<char>
    decreases s.len(),
{
    if s.len() == 0 {
        Seq::empty()
    } else {
        braces_doubled(s.drop_last()) + if s.last() == '{' {
            seq!['{', '{']
        } else if s.last() == '}' {
            seq!['}', '}']
        } else {
            seq![s.last()]
        }
    }
}

/// Some part of the template is an interpolation.
pub open spec fn has_interpolation(ps: Seq<StringPart>) -> bool {
    exists|i: int| 0 <= i < ps.len() && #[trigger] ps[i] is Interpolation
}

/// The `format!` string of a template's parts: each literal escaped with
/// its braces doubled, each interpolation `{}`.
pub open spec fn format_text(ps: Seq<StringPart>) -> Seq<char>
    decreases ps.len(),
{
    if ps.len() == 0 {
        Seq::empty()
    } else {
        format_text(ps.drop_last()) + match ps.last() {
            StringPart::Literal(s) => braces_doubled(escaped(s@)),
            StringPart::Interpolation(_) => "{}"@,
        }
    }
}

/// The `format!` arguments of a template's interpolations: `, ` and the
/// interpolated name's Rust text, in order.
pub open spec fn format_args(consts: Set<Seq<char>>, ps: Seq<StringPart>) -> Seq<char>
    decreases ps.len(),
{
    if ps.len() == 0 {
        Seq::empty()
    } else {
        format_args(consts, ps.drop_last()) + match ps.last() {
            StringPart::Literal(_) => Seq::empty(),
            StringPart::Interpolation(id) => ", "@ + var_code(consts, id.name@),
        }
    }
}

/// The Rust text of an interpolated string: a string literal when nothing
/// is interpolated (nothing when the template is empty), else a `format!`.
pub open spec fn template_code(consts: Set<Seq<char>>, t: StringTemplate) -> Seq<char> {
    let ps = t.parts@;
    if !has_interpolation(ps) {
        if ps.len() > 0 && ps[0] is Literal {
            "\""@ + escaped(ps[0]->Literal_0@) + "\".to_string()"@
        } else {
            Seq::empty()
        }
    } else {
        "format!(\""@ + format_text(ps) + "\""@ + format_args(consts, ps) + ")"@
    }
}

/// A closure's parameters: each name, with `: ` and its Rust type when one
/// was written, separated by `, `.
pub open spec fn closure_params_code(ps: Seq<ClosureParam>) -> Seq<char>
    decreases ps.len(),
{
    if ps.len() == 0 {
        Seq::empty()
    } else {
        let p = ps.last();
        closure_params_code(ps.drop_last()) + (if ps.len() > 1 {
            ", "@
        } else {
            Seq::empty()
        }) + p.name.name@ + match p.ty {
            Some(t) => ": "@ + type_code(t),
            None => Seq::empty(),
        }
    }
}

/// The Rust text of an expression, given the names of the string
/// constants. (Only plain expressions are written this way; see
/// `plain_expr`.)
pub open spec fn expr_code(c: Set<Seq<char>>, lv: nat, e: Expr) -> Seq<char>
    decreases e, 1int,
{
    match e {
        Expr::Literal { value, .. } => literal_code(value),
        Expr::Var { name, .. } => var_code(c, name.name@),
        Expr::List { elements, .. } => "vec!["@ + list_code(c, lv, elements@, false) + "]"@,
        Expr::Binary { op, left, right, .. } => if op == BinOp::Concat {
            "format!(\"{}{}\", "@ + expr_code(c, lv, *left) + ", "@ + expr_code(c, lv, *right) + ")"@
        } else {
            expr_code(c, lv, *left) + " "@ + binop_code(op) + " "@ + expr_code(c, lv, *right)
        },
        Expr::Unary { op, operand, .. } => unaryop_code(op) + expr_code(c, lv, *operand),
        Expr::Call { name, args, .. } => match builtin_template(name.name@) {
            Some(t) => template_fill(t, arg_codes(c, lv, args@)),
            None => name.name@ + "("@ + list_code(c, lv, args@, true) + ")"@,
        },
        Expr::SelfField { field, .. } => "self."@ + field.name@,
        Expr::SelfMethodCall { method, args, .. } => "self."@ + method.name@ + "("@ + list_code(c, lv, args@, false)
            + ")"@,
        Expr::Infer { template, .. } => "ctx.infer_string(&"@ + template_code(c, template) + ").await"@,
        Expr::Spawn { .. } => Seq::empty(),
        Expr::Await { handle, .. } => expr_code(c, lv, *handle) + ".result().await"@,
        Expr::Send { handle, message, .. } => expr_code(c, lv, *handle) + match message_type_name(*message) {
            Some(t) => ".send_message(Message::new("@ + expr_code(c, lv, *message) + ")?.with_type_name(\""@ + t
                + "\")).await"@,
            None => ".send("@ + expr_code(c, lv, *message) + ").await"@,
        },
        Expr::Emit { value, .. } => "ctx.emit("@ + expr_code(c, lv, *value) + ")"@,
        Expr::Paren { inner, .. } => "("@ + expr_code(c, lv, *inner) + ")"@,
        Expr::StringInterp { template, .. } => template_code(c, template),
        Expr::Match { scrutinee, arms, .. } => "match "@ + expr_code(c, lv, *scrutinee) + " {"@ + "\n"@ + arms_code(
            c,
            lv + 1,
            arms@,
        ) + indentation(lv) + "}"@,
        Expr::RecordConstruct { name, fields, .. } => name.name@ + " { "@ + inits_code(c, lv, fields@) + " }"@,
        Expr::FieldAccess { object, field, .. } => expr_code(c, lv, *object) + "."@ + field.name@,
        Expr::Receive { .. } => "ctx.receive().await?"@,
        Expr::Try { expr, .. } => expr_code(c, lv, *expr) + "?"@,
        Expr::Catch { expr, error_bind, recovery, .. } => "match "@ + (match *expr {
            Expr::Try { expr: inner, .. } => expr_code(c, lv, *inner),
            _ => expr_code(c, lv, *expr),
        }) + " {"@ + "\n"@ + indentation(lv + 1) + "Ok(__val) => __val,"@ + "\n"@ + indentation(lv + 1) + (match error_bind {
            Some(n) => "Err("@ + n.name@ + ") => "@,
            None => "Err(_) => "@,
        }) + expr_code(c, lv + 1, *recovery) + ","@ + "\n"@ + indentation(lv) + "}"@,
        Expr::Closure { params, body, .. } => "Box::new(move |"@ + closure_params_code(params@) + "| "@
            + expr_code(c, lv, *body) + ")"@,
        Expr::Tuple { elements, .. } => "("@ + list_code(c, lv, elements@, false) + ")"@,
        Expr::TupleIndex { tuple, index, .. } => expr_code(c, lv, *tuple) + "."@ + decimal(index as nat),
        Expr::Dict { entries, .. } => if entries@.len() == 0 {
            "std::collections::HashMap::new()"@
        } else {
            "std::collections::HashMap::from(["@ + entries_code(c, lv, entries@) + "])"@
        },
        Expr::VariantConstruct { enum_name, variant, payload, .. } => enum_name.name@ + "::"@ + variant.name@
            + match payload {
            Some(p) => "("@ + expr_code(c, lv, *p) + ")"@,
            None => Seq::empty(),
        },
        Expr::ToolCall { tool, function, args, .. } => "self."@ + lowercase_text(tool.name@) + "."@
            + function.name@ + "("@ + list_code(c, lv, args@, true) + ").await"@,
    }
}

/// Expressions separated by `, `; with `cloned`, each written as
/// `(..).clone()` (arguments of user functions and tools).
pub open spec fn list_code(c: Set<Seq<char>>, lv: nat, es: Seq<Expr>, cloned: bool) -> Seq<char>
    decreases es, 0int,
{
    if es.len() == 0 {
        Seq::empty()
    } else {
        list_code(c, lv, es.drop_last(), cloned) + (if es.len() > 1 {
            ", "@
        } else {
            Seq::empty()
        }) + if cloned {
            "("@ + expr_code(c, lv, es.last()) + ").clone()"@
        } else {
            expr_code(c, lv, es.last())
        }
    }
}

/// Match arms, each on a line of its own `lv` levels deep:
/// `pattern => body,`.
pub open spec fn arms_code(c: Set<Seq<char>>, lv: nat, arms: Seq<MatchArm>) -> Seq<char>
    decreases arms, 0int,
{
    if arms.len() == 0 {
        Seq::empty()
    } else {
        arms_code(c, lv, arms.drop_last()) + indentation(lv) + pattern_code(arms.last().pattern) + " => "@
            + expr_code(c, lv, arms.last().body) + ","@ + "\n"@
    }
}

/// Field initializers `name: value`, separated by `, `.
pub open spec fn inits_code(c: Set<Seq<char>>, lv: nat, fs: Seq<FieldInit>) -> Seq<char>
    decreases fs, 0int,
{
    if fs.len() == 0 {
        Seq::empty()
    } else {
        inits_code(c, lv, fs.drop_last()) + (if fs.len() > 1 {
            ", "@
        } else {
            Seq::empty()
        }) + fs.last().name.name@ + ": "@ + expr_code(c, lv, fs.last().value)
    }
}

/// Map entries as `(key, value)` pairs, separated by `, `.
pub open spec fn entries_code(c: Set<Seq<char>>, lv: nat, es: Seq<MapEntry>) -> Seq<char>
    decreases es, 0int,
{
    if es.len() == 0 {
        Seq::empty()
    } else {
        entries_code(c, lv, es.drop_last()) + (if es.len() > 1 {
            ", "@
        } else {
            Seq::empty()
        }) + "("@ + expr_code(c, lv, es.last().key) + ", "@ + expr_code(c, lv, es.last().value) + ")"@
    }
}


// =========================================================================
// Expressions: writing them
// =========================================================================

pub(crate) proof fn lemma_plain_exprs(es: Seq<Expr>, i: int)
    requires
        0 <= i < es.len(),
    ensures
        plain_exprs(es) ==> plain_expr(es[i]),
        expr_depth(es[i]) <= exprs_depth(es),
    decreases es.len(),
{
    if i < es.len() - 1 {
        lemma_plain_exprs(es.drop_last(), i);
    }
}

proof fn lemma_plain_fields(fs: Seq<FieldInit>, i: int)
    requires
        0 <= i < fs.len(),
    ensures
        plain_fields(fs) ==> plain_expr(fs[i].value),
        expr_depth(fs[i].value) <= inits_depth(fs),
    decreases fs.len(),
{
    if i < fs.len() - 1 {
        lemma_plain_fields(fs.drop_last(), i);
    }
}

proof fn lemma_plain_entries(es: Seq<MapEntry>, i: int)
    requires
        0 <= i < es.len(),
    ensures
        plain_entries(es) ==> plain_expr(es[i].key) && plain_expr(es[i].value),
        expr_depth(es[i].key) <= entries_depth(es),
        expr_depth(es[i].value) <= entries_depth(es),
    decreases es.len(),
{
    if i < es.len() - 1 {
        lemma_plain_entries(es.drop_last(), i);
    }
}

proof fn lemma_plain_arms(arms: Seq<MatchArm>, i: int)
    requires
        0 <= i < arms.len(),
    ensures
        plain_arms(arms) ==> plain_expr(arms[i].body),
        expr_depth(arms[i].body) <= arms_depth(arms),
    decreases arms.len(),
{
    if i < arms.len() - 1 {
        lemma_plain_arms(arms.drop_last(), i);
    }
}

/// The decimal digits of a number.
fn u64_decimal(n: u64) -> (r: String)
    ensures
        r@ == decimal(n as nat),
    decreases n,
{
    if n < 10 {
        String::from_str(crate::checker::digit_str(n as usize))
    } else {
        let mut r = u64_decimal(n / 10);
        r.append(crate::checker::digit_str((n % 10) as usize));
        r
    }
}

/// A text with `{` and `}` doubled.
fn double_braces(s: &str) -> (r: String)
    ensures
        r@ == braces_doubled(s@),
{
    proof {
        reveal_strlit("");
    }
    let mut out = String::from_str("");
    let n = s.unicode_len();
    let mut i: usize = 0;
    while i < n
        invariant
            n == s@.len(),
            i <= n,
            out@ == braces_doubled(s@.subrange(0, i as int)),
        decreases n - i,
    {
        proof {
            reveal_strlit("{{");
            reveal_strlit("}}");
        }
        assert(s@.subrange(0, i + 1).drop_last() =~= s@.subrange(0, i as int));
        let c = s.get_char(i);
        let ghost o0 = out@;
        if c == '{' {
            out.append("{{");
            assert(out@ =~= o0 + seq!['{', '{']);
        } else if c == '}' {
            out.append("}}");
            assert(out@ =~= o0 + seq!['}', '}']);
        } else {
            let one = s.substring_char(i, i + 1);
            assert(one@ =~= seq![c]);
            out.append(one);
            assert(out@ =~= o0 + seq![c]);
        }
        i = i + 1;
    }
    assert(s@.subrange(0, n as int) =~= s@);
    out
}

impl Generator {
    /// Write a literal.
    pub fn emit_literal(&mut self, lit: &Literal)
        ensures
            final(self).text() == old(self).text() + literal_code(*lit),
            final(self).string_consts() == old(self).string_consts(),
            final(self).reassigned() == old(self).reassigned(),
            final(self).wf() == old(self).wf(),
            final(self).level() == old(self).level(),
            final(self).at_line_start() == old(self).at_line_start(),
    {
        let ghost t0 = self.text();
        match lit {
            Literal::Int(n) => {
                let v: i64 = *n;
                if v < 0 {
                    self.write("-");
                    let wide: i128 = v as i128;
                    let m: u64 = (0i128 - wide) as u64;
                    let d = u64_decimal(m);
                    self.write(d.as_str());
                } else {
                    let m: u64 = v as u64;
                    let d = u64_decimal(m);
                    self.write(d.as_str());
                }
                self.write("_i64");
                assert(self.text() =~= t0 + literal_code(*lit));
            },
            Literal::Float(t) => {
                self.write(t.as_str());
                self.write("_f64");
                assert(self.text() =~= t0 + literal_code(*lit));
            },
            Literal::Bool(b) => {
                if *b {
                    self.write("true");
                } else {
                    self.write("false");
                }
            },
            Literal::String(text) => {
                self.write("\"");
                let e = crate::generator::escape_string_for_rust(text.as_str());
                self.write(e.as_str());
                self.write("\".to_string()");
                assert(self.text() =~= t0 + literal_code(*lit));
            },
        }
    }

    /// Write a variable.
    fn emit_var(&mut self, name: &str)
        ensures
            final(self).text() == old(self).text() + var_code(old(self).string_consts(), name@),
            final(self).string_consts() == old(self).string_consts(),
            final(self).reassigned() == old(self).reassigned(),
            final(self).wf() == old(self).wf(),
            final(self).level() == old(self).level(),
            final(self).at_line_start() == old(self).at_line_start(),
    {
        let ghost t0 = self.text();
        if crate::text::str_eq(name, "PI") {
            self.write("std::f64::consts::PI");
        } else if crate::text::str_eq(name, "E") {
            self.write("std::f64::consts::E");
        } else if crate::text::str_eq(name, "MS_PER_SECOND") {
            self.write("1000_i64");
        } else if crate::text::str_eq(name, "MS_PER_MINUTE") {
            self.write("60000_i64");
        } else if crate::text::str_eq(name, "MS_PER_HOUR") {
            self.write("3600000_i64");
        } else if crate::text::str_eq(name, "MS_PER_DAY") {
            self.write("86400000_i64");
        } else {
            let is_const = self.is_string_const(name);
            self.write(name);
            if is_const {
                self.write(".to_string()");
            }
            assert(self.text() =~= t0 + var_code(old(self).string_consts(), name@));
        }
    }

    /// Write an interpolated string.
    pub fn emit_string_template(&mut self, template: &StringTemplate)
        ensures
            final(self).text() == old(self).text() + template_code(old(self).string_consts(), *template),
            final(self).string_consts() == old(self).string_consts(),
            final(self).reassigned() == old(self).reassigned(),
            final(self).wf() == old(self).wf(),
            final(self).level() == old(self).level(),
            final(self).at_line_start() == old(self).at_line_start(),
    {
        let ghost t0 = self.text();
        let ghost c = self.string_consts();
        let ghost lv = self.level();
        let ps = &template.parts;
        let n = ps.len();
        let mut found = false;
        for i in 0..n
            invariant
                n == ps@.len(),
                found <==> exists|k: int| 0 <= k < i && #[trigger] ps@[k] is Interpolation,
        {
            if matches!(ps[i], StringPart::Interpolation(_)) {
                found = true;
            }
        }
        if !found {
            if n > 0 {
                if let StringPart::Literal(text) = &ps[0] {
                    self.write("\"");
                    let e = crate::generator::escape_string_for_rust(text.as_str());
                    self.write(e.as_str());
                    self.write("\".to_string()");
                    assert(self.text() =~= t0 + template_code(c, *template));
                }
            }
            return;
        }
        self.write("format!(\"");
        let ghost t1 = self.text();
        assert(ps@.subrange(0, 0) =~= Seq::<StringPart>::empty());
        assert(t1 + Seq::<char>::empty() =~= t1);
        for i in 0..n
            invariant
                n == ps@.len(),
                self.text() == t1 + format_text(ps@.subrange(0, i as int)),
                self.string_consts() == c,
                self.reassigned() == old(self).reassigned(),
                self.wf() == old(self).wf(),
                self.level() == old(self).level(),
                self.at_line_start() == old(self).at_line_start(),
        {
            assert(ps@.subrange(0, i + 1).drop_last() =~= ps@.subrange(0, i as int));
            assert(ps@.subrange(0, i + 1).last() == ps@[i as int]);
            match &ps[i] {
                StringPart::Literal(text) => {
                    let e = crate::generator::escape_string_for_rust(text.as_str());
                    let d = double_braces(e.as_str());
                    self.write(d.as_str());
                },
                StringPart::Interpolation(_) => {
                    self.write("{}");
                },
            }
            assert(self.text() =~= t1 + format_text(ps@.subrange(0, i + 1)));
        }
        assert(ps@.subrange(0, n as int) =~= ps@);
        self.write("\"");
        let ghost t2 = self.text();
        assert(t2 + Seq::<char>::empty() =~= t2);
        for i in 0..n
            invariant
                n == ps@.len(),
                self.text() == t2 + format_args(c, ps@.subrange(0, i as int)),
                self.string_consts() == c,
                self.reassigned() == old(self).reassigned(),
                self.wf() == old(self).wf(),
                self.level() == old(self).level(),
                self.at_line_start() == old(self).at_line_start(),
        {
            assert(ps@.subrange(0, i + 1).drop_last() =~= ps@.subrange(0, i as int));
            assert(ps@.subrange(0, i + 1).last() == ps@[i as int]);
            match &ps[i] {
                StringPart::Literal(_) => {},
                StringPart::Interpolation(id) => {
                    self.write(", ");
                    self.emit_var(id.name.as_str());
                },
            }
            assert(self.text() =~= t2 + format_args(c, ps@.subrange(0, i + 1)));
        }
        self.write(")");
        assert(self.text() =~= t0 + template_code(c, *template));
    }

    /// Write a closure's parameters.
    fn emit_closure_params(&mut self, ps: &Vec<ClosureParam>)
        ensures
            final(self).text() == old(self).text() + closure_params_code(ps@),
            final(self).string_consts() == old(self).string_consts(),
            final(self).reassigned() == old(self).reassigned(),
            final(self).wf() == old(self).wf(),
            final(self).level() == old(self).level(),
            final(self).at_line_start() == old(self).at_line_start(),
    {
        let ghost t0 = self.text();
        let n = ps.len();
        assert(ps@.subrange(0, 0) =~= Seq::<ClosureParam>::empty());
        assert(t0 + Seq::<char>::empty() =~= t0);
        for i in 0..n
            invariant
                n == ps@.len(),
                self.text() == t0 + closure_params_code(ps@.subrange(0, i as int)),
                self.string_consts() == old(self).string_consts(),
                self.reassigned() == old(self).reassigned(),
                self.wf() == old(self).wf(),
                self.level() == old(self).level(),
                self.at_line_start() == old(self).at_line_start(),
        {
            assert(ps@.subrange(0, i + 1).drop_last() =~= ps@.subrange(0, i as int));
            assert(ps@.subrange(0, i + 1).last() == ps@[i as int]);
            let ghost before = self.text();
            if i > 0 {
                self.write(", ");
            }
            let ghost mid = self.text();
            let p = &ps[i];
            self.write(p.name.name.as_str());
            if let Some(t) = &p.ty {
                self.write(": ");
                self.emit_type(t);
            }
            proof {
                reveal_strlit("");
            }
            assert(mid =~= before + (if i > 0 { ", "@ } else { Seq::<char>::empty() }));
            assert(self.text() =~= t0 + closure_params_code(ps@.subrange(0, i + 1)));
        }
        assert(ps@.subrange(0, n as int) =~= ps@);
    }
}


impl Generator {
    /// Write the Rust text of an expression.
    #[verifier::spinoff_prover]
    #[verifier::rlimit(50)]
    pub fn generate_expr(&mut self, expr: &Expr)
        requires
            plain_expr(*expr),
            old(self).level() + expr_depth(*expr) < usize::MAX,
        ensures
            final(self).text() == old(self).text() + lead(*old(self)) + expr_code(old(self).string_consts(), old(self).level(), *expr),
            final(self).string_consts() == old(self).string_consts(),
            final(self).reassigned() == old(self).reassigned(),
            final(self).wf() == old(self).wf(),
            final(self).level() == old(self).level(),
            !final(self).at_line_start(),
        decreases expr, 1int,
    {
        self.start_line();
        let ghost t0 = self.text();
        let ghost c = self.string_consts();
        let ghost lv = self.level();
        match expr {
            Expr::Literal { value, .. } => {
                self.emit_literal(value);
            },
            Expr::Var { name, .. } => {
                self.emit_var(name.name.as_str());
            },
            Expr::List { elements, .. } => {
                self.write("vec![");
                self.generate_list(elements, false);
                self.write("]");
                assert(self.text() =~= t0 + expr_code(c, lv, *expr));
            },
            Expr::Binary { op, left, right, .. } => {
                if matches!(op, BinOp::Concat) {
                    self.write("format!(\"{}{}\", ");
                    self.generate_expr(left);
                    self.write(", ");
                    self.generate_expr(right);
                    self.write(")");
                } else {
                    self.generate_expr(left);
                    self.write(" ");
                    self.emit_binop(op);
                    self.write(" ");
                    self.generate_expr(right);
                }
                assert(self.text() =~= t0 + expr_code(c, lv, *expr));
            },
            Expr::Unary { op, operand, .. } => {
                self.emit_unaryop(op);
                self.generate_expr(operand);
                assert(self.text() =~= t0 + expr_code(c, lv, *expr));
            },
            Expr::Call { .. } => {
                self.generate_call(expr);
            },
            Expr::SelfField { field, .. } => {
                self.write("self.");
                self.write(field.name.as_str());
                assert(self.text() =~= t0 + expr_code(c, lv, *expr));
            },
            Expr::SelfMethodCall { method, args, .. } => {
                self.write("self.");
                self.write(method.name.as_str());
                self.write("(");
                self.generate_list(args, false);
                self.write(")");
                assert(self.text() =~= t0 + expr_code(c, lv, *expr));
            },
            Expr::Infer { template, .. } => {
                self.write("ctx.infer_string(&");
                self.emit_string_template(template);
                self.write(").await");
                assert(self.text() =~= t0 + expr_code(c, lv, *expr));
            },
            Expr::Spawn { .. } => {},
            Expr::Await { handle, .. } => {
                self.generate_expr(handle);
                self.write(".result().await");
                assert(self.text() =~= t0 + expr_code(c, lv, *expr));
            },
            Expr::Send { handle, message, .. } => {
                self.generate_expr(handle);
                match crate::generator::extract_message_type_name(message) {
                    Some(message_type) => {
                        self.write(".send_message(Message::new(");
                        self.generate_expr(message);
                        self.write(")?.with_type_name(\"");
                        self.write(message_type.as_str());
                        self.write("\")).await");
                    },
                    None => {
                        self.write(".send(");
                        self.generate_expr(message);
                        self.write(").await");
                    },
                }
                assert(self.text() =~= t0 + expr_code(c, lv, *expr));
            },
            Expr::Emit { value, .. } => {
                self.write("ctx.emit(");
                self.generate_expr(value);
                self.write(")");
                assert(self.text() =~= t0 + expr_code(c, lv, *expr));
            },
            Expr::Paren { inner, .. } => {
                self.write("(");
                self.generate_expr(inner);
                self.write(")");
                assert(self.text() =~= t0 + expr_code(c, lv, *expr));
            },
            Expr::StringInterp { template, .. } => {
                self.emit_string_template(template);
            },
            Expr::Match { .. } => {
                self.generate_match(expr);
            },
            Expr::RecordConstruct { name, fields, .. } => {
                self.write(name.name.as_str());
                self.write(" { ");
                self.generate_inits(fields);
                self.write(" }");
                assert(self.text() =~= t0 + expr_code(c, lv, *expr));
            },
            Expr::FieldAccess { object, field, .. } => {
                self.generate_expr(object);
                self.write(".");
                self.write(field.name.as_str());
                assert(self.text() =~= t0 + expr_code(c, lv, *expr));
            },
            Expr::Receive { .. } => {
                self.write("ctx.receive().await?");
            },
            Expr::Try { expr: inner, .. } => {
                self.generate_expr(inner);
                self.write("?");
                assert(self.text() =~= t0 + expr_code(c, lv, *expr));
            },
            Expr::Catch { .. } => {
                self.generate_catch(expr);
            },
            Expr::Closure { params, body, .. } => {
                self.write("Box::new(move |");
                self.emit_closure_params(params);
                self.write("| ");
                self.generate_expr(body);
                self.write(")");
                assert(self.text() =~= t0 + expr_code(c, lv, *expr));
            },
            Expr::Tuple { elements, .. } => {
                self.write("(");
                self.generate_list(elements, false);
                self.write(")");
                assert(self.text() =~= t0 + expr_code(c, lv, *expr));
            },
            Expr::TupleIndex { tuple, index, .. } => {
                self.generate_expr(tuple);
                self.write(".");
                let d = crate::checker::decimal_string(*index);
                self.write(d.as_str());
                assert(self.text() =~= t0 + expr_code(c, lv, *expr));
            },
            Expr::Dict { entries, .. } => {
                if entries.len() == 0 {
                    self.write("std::collections::HashMap::new()");
                } else {
                    self.write("std::collections::HashMap::from([");
                    self.generate_entries(entries);
                    self.write("])");
                    assert(self.text() =~= t0 + expr_code(c, lv, *expr));
                }
            },
            Expr::VariantConstruct { enum_name, variant, payload, .. } => {
                self.write(enum_name.name.as_str());
                self.write("::");
                self.write(variant.name.as_str());
                if let Some(p) = payload {
                    self.write("(");
                    self.generate_expr(p);
                    self.write(")");
                }
                proof {
                    reveal_strlit("");
                }
                assert(self.text() =~= t0 + expr_code(c, lv, *expr));
            },
            Expr::ToolCall { tool, function, args, .. } => {
                self.write("self.");
                let lower = to_lowercase(tool.name.as_str());
                self.write(lower.as_str());
                self.write(".");
                self.write(function.name.as_str());
                self.write("(");
                self.generate_list(args, true);
                self.write(").await");
                assert(self.text() =~= t0 + expr_code(c, lv, *expr));
            },
        }
    }

    /// Write expressions separated by `, `, each as `(..).clone()` when
    /// `cloned`.
    fn generate_list(&mut self, es: &Vec<Expr>, cloned: bool)
        requires
            old(self).level() + exprs_depth(es@) < usize::MAX,
            !old(self).at_line_start(),
            plain_exprs(es@),
        ensures
            final(self).text() == old(self).text() + list_code(old(self).string_consts(), old(self).level(), es@, cloned),
            final(self).string_consts() == old(self).string_consts(),
            final(self).reassigned() == old(self).reassigned(),
            final(self).wf() == old(self).wf(),
            final(self).level() == old(self).level(),
            final(self).at_line_start() == old(self).at_line_start(),
        decreases es, 0int,
    {
        let ghost t0 = self.text();
        let ghost c = self.string_consts();
        let ghost lv = self.level();
        let n = es.len();
        assert(es@.subrange(0, 0) =~= Seq::<Expr>::empty());
        assert(t0 + Seq::<char>::empty() =~= t0);
        for i in 0..n
            invariant
                n == es@.len(),
                plain_exprs(es@),
                old(self).level() + exprs_depth(es@) < usize::MAX,
                lv == old(self).level(),
                !old(self).at_line_start(),
                self.text() == t0 + list_code(c, lv, es@.subrange(0, i as int), cloned),
                self.string_consts() == c,
                self.reassigned() == old(self).reassigned(),
                self.wf() == old(self).wf(),
                self.level() == old(self).level(),
                self.at_line_start() == old(self).at_line_start(),
        {
            assert(es@.subrange(0, i + 1).drop_last() =~= es@.subrange(0, i as int));
            assert(es@.subrange(0, i + 1).last() == es@[i as int]);
            assert(decreases_to!(es => es@[i as int]));
            proof {
                lemma_plain_exprs(es@, i as int);
                reveal_strlit("");
            }
            let ghost before = self.text();
            if i > 0 {
                self.write(", ");
            }
            let ghost mid = self.text();
            assert(mid =~= before + (if i > 0 { ", "@ } else { Seq::<char>::empty() }));
            if cloned {
                self.write("(");
                self.generate_expr(&es[i]);
                self.write(").clone()");
            } else {
                self.generate_expr(&es[i]);
            }
            assert(self.text() =~= t0 + list_code(c, lv, es@.subrange(0, i + 1), cloned));
        }
        assert(es@.subrange(0, n as int) =~= es@);
    }

    /// Write a `match` expression: its arms one level deeper, one to a line.
    #[verifier::spinoff_prover]
    fn generate_match(&mut self, expr: &Expr)
        requires
            *expr is Match,
            !old(self).at_line_start(),
            plain_expr(*expr),
            old(self).level() + expr_depth(*expr) < usize::MAX,
        ensures
            final(self).text() == old(self).text() + expr_code(old(self).string_consts(), old(self).level(), *expr),
            final(self).string_consts() == old(self).string_consts(),
            final(self).reassigned() == old(self).reassigned(),
            final(self).wf() == old(self).wf(),
            final(self).level() == old(self).level(),
            !final(self).at_line_start(),
        decreases expr, 0int,
    {
        let ghost t0 = self.text();
        let ghost c = self.string_consts();
        let ghost lv = self.level();
        if let Expr::Match { scrutinee, arms, .. } = expr {
            self.write("match ");
            self.generate_expr(scrutinee);
            self.writeln(" {");
            self.indent();
            self.generate_arms(arms);
            self.dedent();
            self.start_line();
            self.write("}");
            assert(self.text() =~= t0 + expr_code(c, lv, *expr));
        }
    }

    /// Write a `catch` expression as a `match` on the result of the attempt
    /// (without its `try`): the value when it is `Ok`, the recovery when it
    /// is `Err`.
    #[verifier::spinoff_prover]
    fn generate_catch(&mut self, expr: &Expr)
        requires
            *expr is Catch,
            !old(self).at_line_start(),
            plain_expr(*expr),
            old(self).level() + expr_depth(*expr) < usize::MAX,
        ensures
            final(self).text() == old(self).text() + expr_code(old(self).string_consts(), old(self).level(), *expr),
            final(self).string_consts() == old(self).string_consts(),
            final(self).reassigned() == old(self).reassigned(),
            final(self).wf() == old(self).wf(),
            final(self).level() == old(self).level(),
            !final(self).at_line_start(),
        decreases expr, 0int,
    {
        let ghost t0 = self.text();
        let ghost c = self.string_consts();
        let ghost lv = self.level();
        if let Expr::Catch { expr: attempt, error_bind, recovery, .. } = expr {
            self.write("match ");
            self.generate_attempt(attempt);
            self.writeln(" {");
            self.indent();
            self.writeln("Ok(__val) => __val,");
            self.start_line();
            match error_bind {
                Some(n) => {
                    self.write("Err(");
                    self.write(n.name.as_str());
                    self.write(") => ");
                },
                None => {
                    self.write("Err(_) => ");
                },
            }
            self.generate_expr(recovery);
            self.writeln(",");
            self.dedent();
            self.start_line();
            self.write("}");
            assert(self.text() =~= t0 + expr_code(c, lv, *expr));
        }
    }

    /// Write a call: a built-in with a template as its Rust counterpart,
    /// any other function as a call with each argument cloned.
    #[verifier::spinoff_prover]
    fn generate_call(&mut self, expr: &Expr)
        requires
            *expr is Call,
            !old(self).at_line_start(),
            plain_expr(*expr),
            old(self).level() + expr_depth(*expr) < usize::MAX,
        ensures
            final(self).text() == old(self).text() + expr_code(old(self).string_consts(), old(self).level(), *expr),
            final(self).string_consts() == old(self).string_consts(),
            final(self).reassigned() == old(self).reassigned(),
            final(self).wf() == old(self).wf(),
            final(self).level() == old(self).level(),
            !final(self).at_line_start(),
        decreases expr, 0int,
    {
        let ghost t0 = self.text();
        let ghost c = self.string_consts();
        let ghost lv = self.level();
        if let Expr::Call { name, args, .. } = expr {
            match builtin_template_of(name.name.as_str()) {
                Some(tpl) => {
                    self.generate_template(&tpl, args);
                },
                None => {
                    self.write(name.name.as_str());
                    self.write("(");
                    self.generate_list(args, true);
                    self.write(")");
                    assert(self.text() =~= t0 + expr_code(c, lv, *expr));
                },
            }
        }
    }

    /// Write a built-in's template with its arguments filled in.
    pub(crate) fn generate_template(&mut self, tpl: &Vec<CodePiece>, args: &Vec<Expr>)
        requires
            !old(self).at_line_start(),
            plain_exprs(args@),
            args_fit(tpl@, args@.len()),
            old(self).level() + exprs_depth(args@) < usize::MAX,
        ensures
            final(self).text() == old(self).text() + template_fill(
                tpl@,
                arg_codes(old(self).string_consts(), old(self).level(), args@),
            ),
            final(self).string_consts() == old(self).string_consts(),
            final(self).reassigned() == old(self).reassigned(),
            final(self).wf() == old(self).wf(),
            final(self).level() == old(self).level(),
            !final(self).at_line_start(),
        decreases args, 0int,
    {
        let ghost t0 = self.text();
        let ghost c = self.string_consts();
        let ghost lv = self.level();
        let ghost codes = arg_codes(c, lv, args@);
        proof {
            lemma_arg_codes(c, lv, args@);
        }
        let n = tpl.len();
        assert(tpl@.subrange(0, 0) =~= Seq::<CodePiece>::empty());
        assert(t0 + Seq::<char>::empty() =~= t0);
        for i in 0..n
            invariant
                n == tpl@.len(),
                plain_exprs(args@),
                args_fit(tpl@, args@.len()),
                old(self).level() + exprs_depth(args@) < usize::MAX,
                lv == old(self).level(),
                c == old(self).string_consts(),
                codes == arg_codes(c, lv, args@),
                codes.len() == args@.len(),
                forall|k: int| 0 <= k < args@.len() ==> #[trigger] codes[k] == expr_code(c, lv, args@[k]),
                self.text() == t0 + template_fill(tpl@.subrange(0, i as int), codes),
                self.string_consts() == c,
                self.reassigned() == old(self).reassigned(),
                self.wf() == old(self).wf(),
                self.level() == lv,
                !self.at_line_start(),
        {
            assert(tpl@.subrange(0, i + 1).drop_last() =~= tpl@.subrange(0, i as int));
            assert(tpl@.subrange(0, i + 1).last() == tpl@[i as int]);
            match tpl[i] {
                CodePiece::Text(x) => {
                    self.write(x);
                },
                CodePiece::Arg(k) => {
                    assert(tpl@[i as int] matches CodePiece::Arg(k2) ==> k2 < args@.len());
                    assert(k < args@.len());
                    proof {
                        lemma_plain_exprs(args@, k as int);
                    }
                    assert(decreases_to!(args => args@[k as int]));
                    self.generate_expr(&args[k]);
                    assert(codes[k as int] == expr_code(c, lv, args@[k as int]));
                },
            }
            assert(self.text() =~= t0 + template_fill(tpl@.subrange(0, i + 1), codes));
        }
        assert(tpl@.subrange(0, n as int) =~= tpl@);
    }

    /// Write the attempt of a `catch`, without its `try`.
    fn generate_attempt(&mut self, attempt: &Expr)
        requires
            !old(self).at_line_start(),
            plain_expr(*attempt),
            old(self).level() + expr_depth(*attempt) < usize::MAX,
        ensures
            final(self).text() == old(self).text() + match *attempt {
                Expr::Try { expr: inner, .. } => expr_code(old(self).string_consts(), old(self).level(), *inner),
                _ => expr_code(old(self).string_consts(), old(self).level(), *attempt),
            },
            final(self).string_consts() == old(self).string_consts(),
            final(self).reassigned() == old(self).reassigned(),
            final(self).wf() == old(self).wf(),
            final(self).level() == old(self).level(),
            !final(self).at_line_start(),
        decreases attempt, 2int,
    {
        match attempt {
            Expr::Try { expr: inner, .. } => {
                self.generate_expr(inner);
            },
            _ => {
                self.generate_expr(attempt);
            },
        }
    }

    /// Write match arms, each on a line of its own: `pattern => body,`.
    fn generate_arms(&mut self, arms: &Vec<MatchArm>)
        requires
            old(self).at_line_start(),
            plain_arms(arms@),
            old(self).level() + arms_depth(arms@) < usize::MAX,
        ensures
            final(self).text() == old(self).text() + arms_code(old(self).string_consts(), old(self).level(), arms@),
            final(self).string_consts() == old(self).string_consts(),
            final(self).reassigned() == old(self).reassigned(),
            final(self).wf() == old(self).wf(),
            final(self).level() == old(self).level(),
            final(self).at_line_start(),
        decreases arms, 0int,
    {
        let ghost t0 = self.text();
        let ghost c = self.string_consts();
        let ghost lv = self.level();
        let n = arms.len();
        assert(arms@.subrange(0, 0) =~= Seq::<MatchArm>::empty());
        assert(t0 + Seq::<char>::empty() =~= t0);
        for i in 0..n
            invariant
                n == arms@.len(),
                plain_arms(arms@),
                old(self).level() + arms_depth(arms@) < usize::MAX,
                lv == old(self).level(),
                self.text() == t0 + arms_code(c, lv, arms@.subrange(0, i as int)),
                self.string_consts() == c,
                self.reassigned() == old(self).reassigned(),
                self.wf() == old(self).wf(),
                self.level() == lv,
                self.at_line_start(),
        {
            assert(arms@.subrange(0, i + 1).drop_last() =~= arms@.subrange(0, i as int));
            assert(arms@.subrange(0, i + 1).last() == arms@[i as int]);
            assert(decreases_to!(arms => arms@[i as int].body));
            proof {
                lemma_plain_arms(arms@, i as int);
            }
            let ghost before = self.text();
            let arm = &arms[i];
            self.start_line();
            self.emit_pattern(&arm.pattern);
            self.write(" => ");
            self.generate_expr(&arm.body);
            self.writeln(",");
            assert(self.text() =~= t0 + arms_code(c, lv, arms@.subrange(0, i + 1)));
        }
        assert(arms@.subrange(0, n as int) =~= arms@);
    }

    /// Write field initializers `name: value`, separated by `, `.
    fn generate_inits(&mut self, fs: &Vec<FieldInit>)
        requires
            old(self).level() + inits_depth(fs@) < usize::MAX,
            !old(self).at_line_start(),
            plain_fields(fs@),
        ensures
            final(self).text() == old(self).text() + inits_code(old(self).string_consts(), old(self).level(), fs@),
            final(self).string_consts() == old(self).string_consts(),
            final(self).reassigned() == old(self).reassigned(),
            final(self).wf() == old(self).wf(),
            final(self).level() == old(self).level(),
            final(self).at_line_start() == old(self).at_line_start(),
        decreases fs, 0int,
    {
        let ghost t0 = self.text();
        let ghost c = self.string_consts();
        let ghost lv = self.level();
        let n = fs.len();
        assert(fs@.subrange(0, 0) =~= Seq::<FieldInit>::empty());
        assert(t0 + Seq::<char>::empty() =~= t0);
        for i in 0..n
            invariant
                n == fs@.len(),
                plain_fields(fs@),
                old(self).level() + inits_depth(fs@) < usize::MAX,
                lv == old(self).level(),
                !old(self).at_line_start(),
                self.text() == t0 + inits_code(c, lv, fs@.subrange(0, i as int)),
                self.string_consts() == c,
                self.reassigned() == old(self).reassigned(),
                self.wf() == old(self).wf(),
                self.level() == old(self).level(),
                self.at_line_start() == old(self).at_line_start(),
        {
            assert(fs@.subrange(0, i + 1).drop_last() =~= fs@.subrange(0, i as int));
            assert(fs@.subrange(0, i + 1).last() == fs@[i as int]);
            assert(decreases_to!(fs => fs@[i as int].value));
            proof {
                lemma_plain_fields(fs@, i as int);
                reveal_strlit("");
            }
            let ghost before = self.text();
            if i > 0 {
                self.write(", ");
            }
            let ghost mid = self.text();
            assert(mid =~= before + (if i > 0 { ", "@ } else { Seq::<char>::empty() }));
            let f = &fs[i];
            self.write(f.name.name.as_str());
            self.write(": ");
            self.generate_expr(&f.value);
            assert(self.text() =~= t0 + inits_code(c, lv, fs@.subrange(0, i + 1)));
        }
        assert(fs@.subrange(0, n as int) =~= fs@);
    }

    /// Write map entries as `(key, value)` pairs, separated by `, `.
    fn generate_entries(&mut self, es: &Vec<MapEntry>)
        requires
            old(self).level() + entries_depth(es@) < usize::MAX,
            !old(self).at_line_start(),
            plain_entries(es@),
        ensures
            final(self).text() == old(self).text() + entries_code(old(self).string_consts(), old(self).level(), es@),
            final(self).string_consts() == old(self).string_consts(),
            final(self).reassigned() == old(self).reassigned(),
            final(self).wf() == old(self).wf(),
            final(self).level() == old(self).level(),
            final(self).at_line_start() == old(self).at_line_start(),
        decreases es, 0int,
    {
        let ghost t0 = self.text();
        let ghost c = self.string_consts();
        let ghost lv = self.level();
        let n = es.len();
        assert(es@.subrange(0, 0) =~= Seq::<MapEntry>::empty());
        assert(t0 + Seq::<char>::empty() =~= t0);
        for i in 0..n
            invariant
                n == es@.len(),
                plain_entries(es@),
                old(self).level() + entries_depth(es@) < usize::MAX,
                lv == old(self).level(),
                !old(self).at_line_start(),
                self.text() == t0 + entries_code(c, lv, es@.subrange(0, i as int)),
                self.string_consts() == c,
                self.reassigned() == old(self).reassigned(),
                self.wf() == old(self).wf(),
                self.level() == old(self).level(),
                self.at_line_start() == old(self).at_line_start(),
        {
            assert(es@.subrange(0, i + 1).drop_last() =~= es@.subrange(0, i as int));
            assert(es@.subrange(0, i + 1).last() == es@[i as int]);
            assert(decreases_to!(es => es@[i as int].key));
            assert(decreases_to!(es => es@[i as int].value));
            proof {
                lemma_plain_entries(es@, i as int);
                reveal_strlit("");
            }
            let ghost before = self.text();
            if i > 0 {
                self.write(", ");
            }
            let ghost mid = self.text();
            assert(mid =~= before + (if i > 0 { ", "@ } else { Seq::<char>::empty() }));
            let e = &es[i];
            self.write("(");
            self.generate_expr(&e.key);
            self.write(", ");
            self.generate_expr(&e.value);
            self.write(")");
            assert(self.text() =~= t0 + entries_code(c, lv, es@.subrange(0, i + 1)));
        }
        assert(es@.subrange(0, n as int) =~= es@);
    }
}


// =========================================================================
// Calls of built-in functions
// =========================================================================

/// A piece of the Rust text of a built-in call: fixed text, or the text of
/// the argument at an index.
#[derive(Debug, Clone, Copy)]
pub enum CodePiece {
    Text(&'static str),
    Arg(usize),
}

/// Every argument a template refers to is among the first `n`.
pub open spec fn args_fit(t: Seq<CodePiece>, n: nat) -> bool {
    forall|i: int| 0 <= i < t.len() ==> (#[trigger] t[i] matches CodePiece::Arg(k) ==> k < n)
}

/// A template filled in: each fixed text as it is, each argument by its
/// Rust text.
pub open spec fn template_fill(t: Seq<CodePiece>, codes: Seq<Seq<char>>) -> Seq<char>
    decreases t.len(),
{
    if t.len() == 0 {
        Seq::empty()
    } else {
        template_fill(t.drop_last(), codes) + match t.last() {
            CodePiece::Text(x) => x@,
            CodePiece::Arg(k) => codes[k as int],
        }
    }
}

/// The Rust texts of a list of expressions.
pub open spec fn arg_codes(c: Set<Seq<char>>, lv: nat, es: Seq<Expr>) -> Seq<Seq<char>>
    decreases es, 0int,
{
    if es.len() == 0 {
        Seq::empty()
    } else {
        arg_codes(c, lv, es.drop_last()).push(expr_code(c, lv, es.last()))
    }
}

proof fn lemma_arg_codes(c: Set<Seq<char>>, lv: nat, es: Seq<Expr>)
    ensures
        arg_codes(c, lv, es).len() == es.len(),
        forall|k: int| 0 <= k < es.len() ==> #[trigger] arg_codes(c, lv, es)[k] == expr_code(c, lv, es[k]),
    decreases es.len(),
{
    if es.len() > 0 {
        lemma_arg_codes(c, lv, es.drop_last());
        assert forall|k: int| 0 <= k < es.len() implies #[trigger] arg_codes(c, lv, es)[k] == expr_code(c, lv, es[k]) by {
            if k < es.len() - 1 {
                assert(es.drop_last()[k] == es[k]);
            }
        }
    }
}

/// The template of a built-in call: the built-in's Rust text is its
/// arguments' texts between fixed texts.
pub open spec fn builtin_template(name: Seq<char>) -> Option<Seq<CodePiece>> {
    if builtin_templates_0(name) is Some {
        builtin_templates_0(name)
    } else if builtin_templates_1(name) is Some {
        builtin_templates_1(name)
    } else if builtin_templates_2(name) is Some {
        builtin_templates_2(name)
    } else if builtin_templates_3(name) is Some {
        builtin_templates_3(name)
    } else if builtin_templates_4(name) is Some {
        builtin_templates_4(name)
    } else if builtin_templates_5(name) is Some {
        builtin_templates_5(name)
    } else {
        None
    }
}

/// Built-in templates, part 1 of 6.
pub open spec fn builtin_templates_0(name: Seq<char>) -> Option<Seq<CodePiece>> {
    if name == "print"@ {
        Some(seq![CodePiece::Text("println!(\"{}\", "), CodePiece::Arg(0), CodePiece::Text(")")])
    } else if name == "str"@ {
        Some(seq![CodePiece::Arg(0), CodePiece::Text(".to_string()")])
    } else if name == "len"@ {
        Some(seq![CodePiece::Arg(0), CodePiece::Text(".len() as i64")])
    } else if name == "split"@ {
        Some(seq![CodePiece::Arg(0), CodePiece::Text(".split(&*"), CodePiece::Arg(1), CodePiece::Text(").map(str::to_string).collect::<Vec<_>>()")])
    } else if name == "lines"@ {
        Some(seq![CodePiece::Arg(0), CodePiece::Text(".lines().map(str::to_string).collect::<Vec<_>>()")])
    } else if name == "chars"@ {
        Some(seq![CodePiece::Arg(0), CodePiece::Text(".chars().map(|c| c.to_string()).collect::<Vec<_>>()")])
    } else if name == "join"@ {
        Some(seq![CodePiece::Arg(0), CodePiece::Text(".join(&*"), CodePiece::Arg(1), CodePiece::Text(")")])
    } else if name == "trim"@ {
        Some(seq![CodePiece::Arg(0), CodePiece::Text(".trim().to_string()")])
    } else if name == "trim_start"@ {
        Some(seq![CodePiece::Arg(0), CodePiece::Text(".trim_start().to_string()")])
    } else if name == "trim_end"@ {
        Some(seq![CodePiece::Arg(0), CodePiece::Text(".trim_end().to_string()")])
    } else if name == "starts_with"@ {
        Some(seq![CodePiece::Arg(0), CodePiece::Text(".starts_with(&*"), CodePiece::Arg(1), CodePiece::Text(")")])
    } else if name == "ends_with"@ {
        Some(seq![CodePiece::Arg(0), CodePiece::Text(".ends_with(&*"), CodePiece::Arg(1), CodePiece::Text(")")])
    } else if name == "str_contains"@ {
        Some(seq![CodePiece::Arg(0), CodePiece::Text(".contains(&*"), CodePiece::Arg(1), CodePiece::Text(")")])
    } else if name == "replace"@ {
        Some(seq![CodePiece::Arg(0), CodePiece::Text(".replace(&*"), CodePiece::Arg(1), CodePiece::Text(", &*"), CodePiece::Arg(2), CodePiece::Text(")")])
    } else if name == "replace_first"@ {
        Some(seq![CodePiece::Arg(0), CodePiece::Text(".replacen(&*"), CodePiece::Arg(1), CodePiece::Text(", &*"), CodePiece::Arg(2), CodePiece::Text(", 1)")])
    } else if name == "to_upper"@ {
        Some(seq![CodePiece::Arg(0), CodePiece::Text(".to_uppercase()")])
    } else if name == "to_lower"@ {
        Some(seq![CodePiece::Arg(0), CodePiece::Text(".to_lowercase()")])
    } else if name == "str_len"@ {
        Some(seq![CodePiece::Arg(0), CodePiece::Text(".chars().count() as i64")])
    } else if name == "str_slice"@ {
        Some(seq![CodePiece::Text("sage_runtime::stdlib::str_slice(&"), CodePiece::Arg(0), CodePiece::Text(", "), CodePiece::Arg(1), CodePiece::Text(", "), CodePiece::Arg(2), CodePiece::Text(")")])
    } else if name == "str_index_of"@ {
        Some(seq![CodePiece::Text("sage_runtime::stdlib::str_index_of(&"), CodePiece::Arg(0), CodePiece::Text(", &"), CodePiece::Arg(1), CodePiece::Text(")")])
    } else if name == "str_repeat"@ {
        Some(seq![CodePiece::Arg(0), CodePiece::Text(".repeat("), CodePiece::Arg(1), CodePiece::Text(" as usize)")])
    } else if name == "str_pad_start"@ {
        Some(seq![CodePiece::Text("sage_runtime::stdlib::str_pad_start(&"), CodePiece::Arg(0), CodePiece::Text(", "), CodePiece::Arg(1), CodePiece::Text(", &"), CodePiece::Arg(2), CodePiece::Text(")")])
    } else if name == "str_pad_end"@ {
        Some(seq![CodePiece::Text("sage_runtime::stdlib::str_pad_end(&"), CodePiece::Arg(0), CodePiece::Text(", "), CodePiece::Arg(1), CodePiece::Text(", &"), CodePiece::Arg(2), CodePiece::Text(")")])
    } else if name == "chr"@ {
        Some(seq![CodePiece::Text("sage_runtime::stdlib::chr("), CodePiece::Arg(0), CodePiece::Text(")")])
    } else {
        None
    }
}

/// Built-in templates, part 2 of 6.
pub open spec fn builtin_templates_1(name: Seq<char>) -> Option<Seq<CodePiece>> {
    if name == "abs"@ {
        Some(seq![CodePiece::Text("("), CodePiece::Arg(0), CodePiece::Text(").abs()")])
    } else if name == "abs_float"@ {
        Some(seq![CodePiece::Text("("), CodePiece::Arg(0), CodePiece::Text(").abs()")])
    } else if name == "min"@ {
        Some(seq![CodePiece::Arg(0), CodePiece::Text(".min("), CodePiece::Arg(1), CodePiece::Text(")")])
    } else if name == "max"@ {
        Some(seq![CodePiece::Arg(0), CodePiece::Text(".max("), CodePiece::Arg(1), CodePiece::Text(")")])
    } else if name == "min_float"@ {
        Some(seq![CodePiece::Arg(0), CodePiece::Text(".min("), CodePiece::Arg(1), CodePiece::Text(")")])
    } else if name == "max_float"@ {
        Some(seq![CodePiece::Arg(0), CodePiece::Text(".max("), CodePiece::Arg(1), CodePiece::Text(")")])
    } else if name == "clamp"@ {
        Some(seq![CodePiece::Text("("), CodePiece::Arg(0), CodePiece::Text(").clamp("), CodePiece::Arg(1), CodePiece::Text(", "), CodePiece::Arg(2), CodePiece::Text(")")])
    } else if name == "clamp_float"@ {
        Some(seq![CodePiece::Text("("), CodePiece::Arg(0), CodePiece::Text(").clamp("), CodePiece::Arg(1), CodePiece::Text(", "), CodePiece::Arg(2), CodePiece::Text(")")])
    } else if name == "floor"@ {
        Some(seq![CodePiece::Arg(0), CodePiece::Text(".floor() as i64")])
    } else if name == "ceil"@ {
        Some(seq![CodePiece::Arg(0), CodePiece::Text(".ceil() as i64")])
    } else if name == "round"@ {
        Some(seq![CodePiece::Arg(0), CodePiece::Text(".round() as i64")])
    } else if name == "floor_float"@ {
        Some(seq![CodePiece::Arg(0), CodePiece::Text(".floor()")])
    } else if name == "ceil_float"@ {
        Some(seq![CodePiece::Arg(0), CodePiece::Text(".ceil()")])
    } else if name == "pow"@ {
        Some(seq![CodePiece::Text("{ let __base = "), CodePiece::Arg(0), CodePiece::Text("; let __exp = "), CodePiece::Arg(1), CodePiece::Text("; if __exp < 0 { 0 } else { __base.pow(__exp as u32) } }")])
    } else if name == "pow_float"@ {
        Some(seq![CodePiece::Arg(0), CodePiece::Text(".powf("), CodePiece::Arg(1), CodePiece::Text(")")])
    } else if name == "sqrt"@ {
        Some(seq![CodePiece::Arg(0), CodePiece::Text(".sqrt()")])
    } else if name == "int_to_float"@ {
        Some(seq![CodePiece::Arg(0), CodePiece::Text(" as f64")])
    } else if name == "float_to_int"@ {
        Some(seq![CodePiece::Arg(0), CodePiece::Text(" as i64")])
    } else if name == "parse_int"@ {
        Some(seq![CodePiece::Arg(0), CodePiece::Text(".trim().parse::<i64>().map_err(|e| e.to_string())")])
    } else if name == "parse_float"@ {
        Some(seq![CodePiece::Arg(0), CodePiece::Text(".trim().parse::<f64>().map_err(|e| e.to_string())")])
    } else if name == "parse_bool"@ {
        Some(seq![CodePiece::Text("sage_runtime::stdlib::parse_bool(&"), CodePiece::Arg(0), CodePiece::Text(")")])
    } else if name == "float_to_str"@ {
        Some(seq![CodePiece::Arg(0), CodePiece::Text(".to_string()")])
    } else if name == "bool_to_str"@ {
        Some(seq![CodePiece::Text("if "), CodePiece::Arg(0), CodePiece::Text(" { \"true\".to_string() } else { \"false\".to_string() }")])
    } else if name == "int_to_str"@ {
        Some(seq![CodePiece::Text("("), CodePiece::Arg(0), CodePiece::Text(").to_string()")])
    } else {
        None
    }
}

/// Built-in templates, part 3 of 6.
pub open spec fn builtin_templates_2(name: Seq<char>) -> Option<Seq<CodePiece>> {
    if name == "map"@ {
        Some(seq![CodePiece::Arg(0), CodePiece::Text(".into_iter().map("), CodePiece::Arg(1), CodePiece::Text(").collect::<Vec<_>>()")])
    } else if name == "filter"@ {
        Some(seq![CodePiece::Arg(0), CodePiece::Text(".into_iter().filter(|__x| ("), CodePiece::Arg(1), CodePiece::Text(")((__x).clone())).collect::<Vec<_>>()")])
    } else if name == "reduce"@ {
        Some(seq![CodePiece::Arg(0), CodePiece::Text(".into_iter().fold("), CodePiece::Arg(1), CodePiece::Text(", "), CodePiece::Arg(2), CodePiece::Text(")")])
    } else if name == "any"@ {
        Some(seq![CodePiece::Arg(0), CodePiece::Text(".into_iter().any(|__x| ("), CodePiece::Arg(1), CodePiece::Text(")((__x).clone()))")])
    } else if name == "all"@ {
        Some(seq![CodePiece::Arg(0), CodePiece::Text(".into_iter().all(|__x| ("), CodePiece::Arg(1), CodePiece::Text(")((__x).clone()))")])
    } else if name == "find"@ {
        Some(seq![CodePiece::Arg(0), CodePiece::Text(".into_iter().find(|__x| ("), CodePiece::Arg(1), CodePiece::Text(")((__x).clone()))")])
    } else if name == "flat_map"@ {
        Some(seq![CodePiece::Arg(0), CodePiece::Text(".into_iter().flat_map("), CodePiece::Arg(1), CodePiece::Text(").collect::<Vec<_>>()")])
    } else if name == "zip"@ {
        Some(seq![CodePiece::Arg(0), CodePiece::Text(".into_iter().zip("), CodePiece::Arg(1), CodePiece::Text(".into_iter()).collect::<Vec<_>>()")])
    } else if name == "enumerate"@ {
        Some(seq![CodePiece::Arg(0), CodePiece::Text(".into_iter().enumerate().map(|(__i, __x)| (__i as i64, __x)).collect::<Vec<_>>()")])
    } else if name == "take"@ {
        Some(seq![CodePiece::Arg(0), CodePiece::Text(".into_iter().take("), CodePiece::Arg(1), CodePiece::Text(" as usize).collect::<Vec<_>>()")])
    } else if name == "drop"@ {
        Some(seq![CodePiece::Arg(0), CodePiece::Text(".into_iter().skip("), CodePiece::Arg(1), CodePiece::Text(" as usize).collect::<Vec<_>>()")])
    } else if name == "flatten"@ {
        Some(seq![CodePiece::Arg(0), CodePiece::Text(".into_iter().flatten().collect::<Vec<_>>()")])
    } else if name == "reverse"@ {
        Some(seq![CodePiece::Text("{ let mut __v = "), CodePiece::Arg(0), CodePiece::Text("; __v.reverse(); __v }")])
    } else if name == "unique"@ {
        Some(seq![CodePiece::Text("{ let mut __seen = std::collections::HashSet::new(); "), CodePiece::Arg(0), CodePiece::Text(".into_iter().filter(|__x| __seen.insert(format!(\"{:?}\", __x))).collect::<Vec<_>>() }")])
    } else if name == "count_where"@ {
        Some(seq![CodePiece::Arg(0), CodePiece::Text(".into_iter().filter(|__x| ("), CodePiece::Arg(1), CodePiece::Text(")((__x).clone())).count() as i64")])
    } else if name == "sum"@ {
        Some(seq![CodePiece::Arg(0), CodePiece::Text(".iter().sum::<i64>()")])
    } else if name == "sum_floats"@ {
        Some(seq![CodePiece::Arg(0), CodePiece::Text(".iter().sum::<f64>()")])
    } else if name == "range"@ {
        Some(seq![CodePiece::Text("("), CodePiece::Arg(0), CodePiece::Text(".."), CodePiece::Arg(1), CodePiece::Text(").collect::<Vec<_>>()")])
    } else if name == "range_step"@ {
        Some(seq![CodePiece::Text("("), CodePiece::Arg(0), CodePiece::Text(".."), CodePiece::Arg(1), CodePiece::Text(").step_by("), CodePiece::Arg(2), CodePiece::Text(" as usize).collect::<Vec<_>>()")])
    } else if name == "first"@ {
        Some(seq![CodePiece::Arg(0), CodePiece::Text(".first().cloned()")])
    } else if name == "last"@ {
        Some(seq![CodePiece::Arg(0), CodePiece::Text(".last().cloned()")])
    } else if name == "get"@ {
        Some(seq![CodePiece::Arg(0), CodePiece::Text(".get("), CodePiece::Arg(1), CodePiece::Text(" as usize).cloned()")])
    } else if name == "list_contains"@ {
        Some(seq![CodePiece::Arg(0), CodePiece::Text(".contains(&"), CodePiece::Arg(1), CodePiece::Text(")")])
    } else if name == "sort"@ {
        Some(seq![CodePiece::Text("{ let mut __v = "), CodePiece::Arg(0), CodePiece::Text("; __v.sort(); __v }")])
    } else {
        None
    }
}

/// Built-in templates, part 4 of 6.
pub open spec fn builtin_templates_3(name: Seq<char>) -> Option<Seq<CodePiece>> {
    if name == "list_slice"@ {
        Some(seq![CodePiece::Text("sage_runtime::stdlib::list_slice("), CodePiece::Arg(0), CodePiece::Text(", "), CodePiece::Arg(1), CodePiece::Text(", "), CodePiece::Arg(2), CodePiece::Text(")")])
    } else if name == "chunk"@ {
        Some(seq![CodePiece::Arg(0), CodePiece::Text(".chunks("), CodePiece::Arg(1), CodePiece::Text(" as usize).map(|c| c.to_vec()).collect::<Vec<_>>()")])
    } else if name == "pop"@ {
        Some(seq![CodePiece::Text("{ let mut __v = "), CodePiece::Arg(0), CodePiece::Text("; __v.pop() }")])
    } else if name == "push"@ {
        Some(seq![CodePiece::Text("{ let mut __v = "), CodePiece::Arg(0), CodePiece::Text("; __v.push("), CodePiece::Arg(1), CodePiece::Text("); __v }")])
    } else if name == "concat"@ {
        Some(seq![CodePiece::Text("{ let mut __v = "), CodePiece::Arg(0), CodePiece::Text("; __v.extend("), CodePiece::Arg(1), CodePiece::Text("); __v }")])
    } else if name == "take_while"@ {
        Some(seq![CodePiece::Arg(0), CodePiece::Text(".into_iter().take_while(|__x| ("), CodePiece::Arg(1), CodePiece::Text(")((__x).clone())).collect::<Vec<_>>()")])
    } else if name == "drop_while"@ {
        Some(seq![CodePiece::Arg(0), CodePiece::Text(".into_iter().skip_while(|__x| ("), CodePiece::Arg(1), CodePiece::Text(")((__x).clone())).collect::<Vec<_>>()")])
    } else if name == "is_some"@ {
        Some(seq![CodePiece::Arg(0), CodePiece::Text(".is_some()")])
    } else if name == "is_none"@ {
        Some(seq![CodePiece::Arg(0), CodePiece::Text(".is_none()")])
    } else if name == "unwrap"@ {
        Some(seq![CodePiece::Arg(0), CodePiece::Text(".expect(\"unwrap called on None\")")])
    } else if name == "unwrap_or"@ {
        Some(seq![CodePiece::Arg(0), CodePiece::Text(".unwrap_or("), CodePiece::Arg(1), CodePiece::Text(")")])
    } else if name == "unwrap_or_else"@ {
        Some(seq![CodePiece::Arg(0), CodePiece::Text(".unwrap_or_else("), CodePiece::Arg(1), CodePiece::Text(")")])
    } else if name == "map_option"@ {
        Some(seq![CodePiece::Arg(0), CodePiece::Text(".map("), CodePiece::Arg(1), CodePiece::Text(")")])
    } else if name == "or_option"@ {
        Some(seq![CodePiece::Arg(0), CodePiece::Text(".or("), CodePiece::Arg(1), CodePiece::Text(")")])
    } else if name == "is_ok"@ {
        Some(seq![CodePiece::Arg(0), CodePiece::Text(".is_ok()")])
    } else if name == "is_err"@ {
        Some(seq![CodePiece::Arg(0), CodePiece::Text(".is_err()")])
    } else if name == "unwrap_result"@ {
        Some(seq![CodePiece::Arg(0), CodePiece::Text(".expect(\"unwrap_result called on Err\")")])
    } else if name == "unwrap_err"@ {
        Some(seq![CodePiece::Arg(0), CodePiece::Text(".expect_err(\"unwrap_err called on Ok\")")])
    } else if name == "unwrap_or_result"@ {
        Some(seq![CodePiece::Arg(0), CodePiece::Text(".unwrap_or("), CodePiece::Arg(1), CodePiece::Text(")")])
    } else if name == "map_result"@ {
        Some(seq![CodePiece::Arg(0), CodePiece::Text(".map("), CodePiece::Arg(1), CodePiece::Text(")")])
    } else if name == "map_err"@ {
        Some(seq![CodePiece::Arg(0), CodePiece::Text(".map_err("), CodePiece::Arg(1), CodePiece::Text(")")])
    } else if name == "ok"@ {
        Some(seq![CodePiece::Arg(0), CodePiece::Text(".ok()")])
    } else if name == "err_value"@ {
        Some(seq![CodePiece::Arg(0), CodePiece::Text(".err()")])
    } else if name == "read_file"@ {
        Some(seq![CodePiece::Text("sage_runtime::stdlib::read_file(&"), CodePiece::Arg(0), CodePiece::Text(").map_err(sage_runtime::SageError::agent)?")])
    } else {
        None
    }
}

/// Built-in templates, part 5 of 6.
pub open spec fn builtin_templates_4(name: Seq<char>) -> Option<Seq<CodePiece>> {
    if name == "write_file"@ {
        Some(seq![CodePiece::Text("sage_runtime::stdlib::write_file(&"), CodePiece::Arg(0), CodePiece::Text(", &"), CodePiece::Arg(1), CodePiece::Text(").map_err(sage_runtime::SageError::agent)?")])
    } else if name == "append_file"@ {
        Some(seq![CodePiece::Text("sage_runtime::stdlib::append_file(&"), CodePiece::Arg(0), CodePiece::Text(", &"), CodePiece::Arg(1), CodePiece::Text(").map_err(sage_runtime::SageError::agent)?")])
    } else if name == "file_exists"@ {
        Some(seq![CodePiece::Text("sage_runtime::stdlib::file_exists(&"), CodePiece::Arg(0), CodePiece::Text(")")])
    } else if name == "delete_file"@ {
        Some(seq![CodePiece::Text("sage_runtime::stdlib::delete_file(&"), CodePiece::Arg(0), CodePiece::Text(").map_err(sage_runtime::SageError::agent)?")])
    } else if name == "list_dir"@ {
        Some(seq![CodePiece::Text("sage_runtime::stdlib::list_dir(&"), CodePiece::Arg(0), CodePiece::Text(").map_err(sage_runtime::SageError::agent)?")])
    } else if name == "make_dir"@ {
        Some(seq![CodePiece::Text("sage_runtime::stdlib::make_dir(&"), CodePiece::Arg(0), CodePiece::Text(").map_err(sage_runtime::SageError::agent)?")])
    } else if name == "read_line"@ {
        Some(seq![CodePiece::Text("sage_runtime::stdlib::read_line().map_err(sage_runtime::SageError::agent)")])
    } else if name == "read_all"@ {
        Some(seq![CodePiece::Text("sage_runtime::stdlib::read_all().map_err(sage_runtime::SageError::agent)")])
    } else if name == "print_err"@ {
        Some(seq![CodePiece::Text("eprintln!(\"{}\", "), CodePiece::Arg(0), CodePiece::Text(")")])
    } else if name == "now_ms"@ {
        Some(seq![CodePiece::Text("sage_runtime::stdlib::now_ms()")])
    } else if name == "now_s"@ {
        Some(seq![CodePiece::Text("sage_runtime::stdlib::now_s()")])
    } else if name == "sleep_ms"@ {
        Some(seq![CodePiece::Text("tokio::time::sleep(std::time::Duration::from_millis("), CodePiece::Arg(0), CodePiece::Text(" as u64)).await")])
    } else if name == "format_timestamp"@ {
        Some(seq![CodePiece::Text("sage_runtime::stdlib::format_timestamp("), CodePiece::Arg(0), CodePiece::Text(", &"), CodePiece::Arg(1), CodePiece::Text(")")])
    } else if name == "parse_timestamp"@ {
        Some(seq![CodePiece::Text("sage_runtime::stdlib::parse_timestamp(&"), CodePiece::Arg(0), CodePiece::Text(", &"), CodePiece::Arg(1), CodePiece::Text(").map_err(sage_runtime::SageError::agent)?")])
    } else if name == "json_parse"@ {
        Some(seq![CodePiece::Text("sage_runtime::stdlib::json_parse(&"), CodePiece::Arg(0), CodePiece::Text(").map_err(sage_runtime::SageError::agent)?")])
    } else if name == "json_get"@ {
        Some(seq![CodePiece::Text("sage_runtime::stdlib::json_get(&"), CodePiece::Arg(0), CodePiece::Text(", &"), CodePiece::Arg(1), CodePiece::Text(")")])
    } else if name == "json_get_int"@ {
        Some(seq![CodePiece::Text("sage_runtime::stdlib::json_get_int(&"), CodePiece::Arg(0), CodePiece::Text(", &"), CodePiece::Arg(1), CodePiece::Text(")")])
    } else if name == "json_get_float"@ {
        Some(seq![CodePiece::Text("sage_runtime::stdlib::json_get_float(&"), CodePiece::Arg(0), CodePiece::Text(", &"), CodePiece::Arg(1), CodePiece::Text(")")])
    } else if name == "json_get_bool"@ {
        Some(seq![CodePiece::Text("sage_runtime::stdlib::json_get_bool(&"), CodePiece::Arg(0), CodePiece::Text(", &"), CodePiece::Arg(1), CodePiece::Text(")")])
    } else if name == "json_get_list"@ {
        Some(seq![CodePiece::Text("sage_runtime::stdlib::json_get_list(&"), CodePiece::Arg(0), CodePiece::Text(", &"), CodePiece::Arg(1), CodePiece::Text(")")])
    } else if name == "json_stringify"@ {
        Some(seq![CodePiece::Text("sage_runtime::stdlib::json_stringify_string(&"), CodePiece::Arg(0), CodePiece::Text(".to_string())")])
    } else {
        None
    }
}

/// Built-in templates, part 6 of 6.
pub open spec fn builtin_templates_5(name: Seq<char>) -> Option<Seq<CodePiece>> {
    if name == "sort_by"@ {
        Some(seq![CodePiece::Text("{ let mut __v = "), CodePiece::Arg(0), CodePiece::Text("; __v.sort_by(|__a, __b| { let __cmp = ("), CodePiece::Arg(1), CodePiece::Text(")((__a).clone(), (__b).clone()); if __cmp < 0 { std::cmp::Ordering::Less } else if __cmp > 0 { std::cmp::Ordering::Greater } else { std::cmp::Ordering::Equal } }); __v }")])
    } else {
        None
    }
}

/// The templates of part 1.
fn builtin_templates_of_0(name: &str) -> (r: Option<Vec<CodePiece>>)
    ensures
        match builtin_templates_0(name@) {
            Some(t) => r is Some && r->0@ == t,
            None => r is None,
        },
{
    if crate::text::str_eq(name, "print") {
        return Some(vec![CodePiece::Text("println!(\"{}\", "), CodePiece::Arg(0), CodePiece::Text(")")]);
    }
    if crate::text::str_eq(name, "str") {
        return Some(vec![CodePiece::Arg(0), CodePiece::Text(".to_string()")]);
    }
    if crate::text::str_eq(name, "len") {
        return Some(vec![CodePiece::Arg(0), CodePiece::Text(".len() as i64")]);
    }
    if crate::text::str_eq(name, "split") {
        return Some(vec![CodePiece::Arg(0), CodePiece::Text(".split(&*"), CodePiece::Arg(1), CodePiece::Text(").map(str::to_string).collect::<Vec<_>>()")]);
    }
    if crate::text::str_eq(name, "lines") {
        return Some(vec![CodePiece::Arg(0), CodePiece::Text(".lines().map(str::to_string).collect::<Vec<_>>()")]);
    }
    if crate::text::str_eq(name, "chars") {
        return Some(vec![CodePiece::Arg(0), CodePiece::Text(".chars().map(|c| c.to_string()).collect::<Vec<_>>()")]);
    }
    if crate::text::str_eq(name, "join") {
        return Some(vec![CodePiece::Arg(0), CodePiece::Text(".join(&*"), CodePiece::Arg(1), CodePiece::Text(")")]);
    }
    if crate::text::str_eq(name, "trim") {
        return Some(vec![CodePiece::Arg(0), CodePiece::Text(".trim().to_string()")]);
    }
    if crate::text::str_eq(name, "trim_start") {
        return Some(vec![CodePiece::Arg(0), CodePiece::Text(".trim_start().to_string()")]);
    }
    if crate::text::str_eq(name, "trim_end") {
        return Some(vec![CodePiece::Arg(0), CodePiece::Text(".trim_end().to_string()")]);
    }
    if crate::text::str_eq(name, "starts_with") {
        return Some(vec![CodePiece::Arg(0), CodePiece::Text(".starts_with(&*"), CodePiece::Arg(1), CodePiece::Text(")")]);
    }
    if crate::text::str_eq(name, "ends_with") {
        return Some(vec![CodePiece::Arg(0), CodePiece::Text(".ends_with(&*"), CodePiece::Arg(1), CodePiece::Text(")")]);
    }
    if crate::text::str_eq(name, "str_contains") {
        return Some(vec![CodePiece::Arg(0), CodePiece::Text(".contains(&*"), CodePiece::Arg(1), CodePiece::Text(")")]);
    }
    if crate::text::str_eq(name, "replace") {
        return Some(vec![CodePiece::Arg(0), CodePiece::Text(".replace(&*"), CodePiece::Arg(1), CodePiece::Text(", &*"), CodePiece::Arg(2), CodePiece::Text(")")]);
    }
    if crate::text::str_eq(name, "replace_first") {
        return Some(vec![CodePiece::Arg(0), CodePiece::Text(".replacen(&*"), CodePiece::Arg(1), CodePiece::Text(", &*"), CodePiece::Arg(2), CodePiece::Text(", 1)")]);
    }
    if crate::text::str_eq(name, "to_upper") {
        return Some(vec![CodePiece::Arg(0), CodePiece::Text(".to_uppercase()")]);
    }
    if crate::text::str_eq(name, "to_lower") {
        return Some(vec![CodePiece::Arg(0), CodePiece::Text(".to_lowercase()")]);
    }
    if crate::text::str_eq(name, "str_len") {
        return Some(vec![CodePiece::Arg(0), CodePiece::Text(".chars().count() as i64")]);
    }
    if crate::text::str_eq(name, "str_slice") {
        return Some(vec![CodePiece::Text("sage_runtime::stdlib::str_slice(&"), CodePiece::Arg(0), CodePiece::Text(", "), CodePiece::Arg(1), CodePiece::Text(", "), CodePiece::Arg(2), CodePiece::Text(")")]);
    }
    if crate::text::str_eq(name, "str_index_of") {
        return Some(vec![CodePiece::Text("sage_runtime::stdlib::str_index_of(&"), CodePiece::Arg(0), CodePiece::Text(", &"), CodePiece::Arg(1), CodePiece::Text(")")]);
    }
    if crate::text::str_eq(name, "str_repeat") {
        return Some(vec![CodePiece::Arg(0), CodePiece::Text(".repeat("), CodePiece::Arg(1), CodePiece::Text(" as usize)")]);
    }
    if crate::text::str_eq(name, "str_pad_start") {
        return Some(vec![CodePiece::Text("sage_runtime::stdlib::str_pad_start(&"), CodePiece::Arg(0), CodePiece::Text(", "), CodePiece::Arg(1), CodePiece::Text(", &"), CodePiece::Arg(2), CodePiece::Text(")")]);
    }
    if crate::text::str_eq(name, "str_pad_end") {
        return Some(vec![CodePiece::Text("sage_runtime::stdlib::str_pad_end(&"), CodePiece::Arg(0), CodePiece::Text(", "), CodePiece::Arg(1), CodePiece::Text(", &"), CodePiece::Arg(2), CodePiece::Text(")")]);
    }
    if crate::text::str_eq(name, "chr") {
        return Some(vec![CodePiece::Text("sage_runtime::stdlib::chr("), CodePiece::Arg(0), CodePiece::Text(")")]);
    }
    None
}

/// The templates of part 2.
fn builtin_templates_of_1(name: &str) -> (r: Option<Vec<CodePiece>>)
    ensures
        match builtin_templates_1(name@) {
            Some(t) => r is Some && r->0@ == t,
            None => r is None,
        },
{
    if crate::text::str_eq(name, "abs") {
        return Some(vec![CodePiece::Text("("), CodePiece::Arg(0), CodePiece::Text(").abs()")]);
    }
    if crate::text::str_eq(name, "abs_float") {
        return Some(vec![CodePiece::Text("("), CodePiece::Arg(0), CodePiece::Text(").abs()")]);
    }
    if crate::text::str_eq(name, "min") {
        return Some(vec![CodePiece::Arg(0), CodePiece::Text(".min("), CodePiece::Arg(1), CodePiece::Text(")")]);
    }
    if crate::text::str_eq(name, "max") {
        return Some(vec![CodePiece::Arg(0), CodePiece::Text(".max("), CodePiece::Arg(1), CodePiece::Text(")")]);
    }
    if crate::text::str_eq(name, "min_float") {
        return Some(vec![CodePiece::Arg(0), CodePiece::Text(".min("), CodePiece::Arg(1), CodePiece::Text(")")]);
    }
    if crate::text::str_eq(name, "max_float") {
        return Some(vec![CodePiece::Arg(0), CodePiece::Text(".max("), CodePiece::Arg(1), CodePiece::Text(")")]);
    }
    if crate::text::str_eq(name, "clamp") {
        return Some(vec![CodePiece::Text("("), CodePiece::Arg(0), CodePiece::Text(").clamp("), CodePiece::Arg(1), CodePiece::Text(", "), CodePiece::Arg(2), CodePiece::Text(")")]);
    }
    if crate::text::str_eq(name, "clamp_float") {
        return Some(vec![CodePiece::Text("("), CodePiece::Arg(0), CodePiece::Text(").clamp("), CodePiece::Arg(1), CodePiece::Text(", "), CodePiece::Arg(2), CodePiece::Text(")")]);
    }
    if crate::text::str_eq(name, "floor") {
        return Some(vec![CodePiece::Arg(0), CodePiece::Text(".floor() as i64")]);
    }
    if crate::text::str_eq(name, "ceil") {
        return Some(vec![CodePiece::Arg(0), CodePiece::Text(".ceil() as i64")]);
    }
    if crate::text::str_eq(name, "round") {
        return Some(vec![CodePiece::Arg(0), CodePiece::Text(".round() as i64")]);
    }
    if crate::text::str_eq(name, "floor_float") {
        return Some(vec![CodePiece::Arg(0), CodePiece::Text(".floor()")]);
    }
    if crate::text::str_eq(name, "ceil_float") {
        return Some(vec![CodePiece::Arg(0), CodePiece::Text(".ceil()")]);
    }
    if crate::text::str_eq(name, "pow") {
        return Some(vec![CodePiece::Text("{ let __base = "), CodePiece::Arg(0), CodePiece::Text("; let __exp = "), CodePiece::Arg(1), CodePiece::Text("; if __exp < 0 { 0 } else { __base.pow(__exp as u32) } }")]);
    }
    if crate::text::str_eq(name, "pow_float") {
        return Some(vec![CodePiece::Arg(0), CodePiece::Text(".powf("), CodePiece::Arg(1), CodePiece::Text(")")]);
    }
    if crate::text::str_eq(name, "sqrt") {
        return Some(vec![CodePiece::Arg(0), CodePiece::Text(".sqrt()")]);
    }
    if crate::text::str_eq(name, "int_to_float") {
        return Some(vec![CodePiece::Arg(0), CodePiece::Text(" as f64")]);
    }
    if crate::text::str_eq(name, "float_to_int") {
        return Some(vec![CodePiece::Arg(0), CodePiece::Text(" as i64")]);
    }
    if crate::text::str_eq(name, "parse_int") {
        return Some(vec![CodePiece::Arg(0), CodePiece::Text(".trim().parse::<i64>().map_err(|e| e.to_string())")]);
    }
    if crate::text::str_eq(name, "parse_float") {
        return Some(vec![CodePiece::Arg(0), CodePiece::Text(".trim().parse::<f64>().map_err(|e| e.to_string())")]);
    }
    if crate::text::str_eq(name, "parse_bool") {
        return Some(vec![CodePiece::Text("sage_runtime::stdlib::parse_bool(&"), CodePiece::Arg(0), CodePiece::Text(")")]);
    }
    if crate::text::str_eq(name, "float_to_str") {
        return Some(vec![CodePiece::Arg(0), CodePiece::Text(".to_string()")]);
    }
    if crate::text::str_eq(name, "bool_to_str") {
        return Some(vec![CodePiece::Text("if "), CodePiece::Arg(0), CodePiece::Text(" { \"true\".to_string() } else { \"false\".to_string() }")]);
    }
    if crate::text::str_eq(name, "int_to_str") {
        return Some(vec![CodePiece::Text("("), CodePiece::Arg(0), CodePiece::Text(").to_string()")]);
    }
    None
}

/// The templates of part 3.
fn builtin_templates_of_2(name: &str) -> (r: Option<Vec<CodePiece>>)
    ensures
        match builtin_templates_2(name@) {
            Some(t) => r is Some && r->0@ == t,
            None => r is None,
        },
{
    if crate::text::str_eq(name, "map") {
        return Some(vec![CodePiece::Arg(0), CodePiece::Text(".into_iter().map("), CodePiece::Arg(1), CodePiece::Text(").collect::<Vec<_>>()")]);
    }
    if crate::text::str_eq(name, "filter") {
        return Some(vec![CodePiece::Arg(0), CodePiece::Text(".into_iter().filter(|__x| ("), CodePiece::Arg(1), CodePiece::Text(")((__x).clone())).collect::<Vec<_>>()")]);
    }
    if crate::text::str_eq(name, "reduce") {
        return Some(vec![CodePiece::Arg(0), CodePiece::Text(".into_iter().fold("), CodePiece::Arg(1), CodePiece::Text(", "), CodePiece::Arg(2), CodePiece::Text(")")]);
    }
    if crate::text::str_eq(name, "any") {
        return Some(vec![CodePiece::Arg(0), CodePiece::Text(".into_iter().any(|__x| ("), CodePiece::Arg(1), CodePiece::Text(")((__x).clone()))")]);
    }
    if crate::text::str_eq(name, "all") {
        return Some(vec![CodePiece::Arg(0), CodePiece::Text(".into_iter().all(|__x| ("), CodePiece::Arg(1), CodePiece::Text(")((__x).clone()))")]);
    }
    if crate::text::str_eq(name, "find") {
        return Some(vec![CodePiece::Arg(0), CodePiece::Text(".into_iter().find(|__x| ("), CodePiece::Arg(1), CodePiece::Text(")((__x).clone()))")]);
    }
    if crate::text::str_eq(name, "flat_map") {
        return Some(vec![CodePiece::Arg(0), CodePiece::Text(".into_iter().flat_map("), CodePiece::Arg(1), CodePiece::Text(").collect::<Vec<_>>()")]);
    }
    if crate::text::str_eq(name, "zip") {
        return Some(vec![CodePiece::Arg(0), CodePiece::Text(".into_iter().zip("), CodePiece::Arg(1), CodePiece::Text(".into_iter()).collect::<Vec<_>>()")]);
    }
    if crate::text::str_eq(name, "enumerate") {
        return Some(vec![CodePiece::Arg(0), CodePiece::Text(".into_iter().enumerate().map(|(__i, __x)| (__i as i64, __x)).collect::<Vec<_>>()")]);
    }
    if crate::text::str_eq(name, "take") {
        return Some(vec![CodePiece::Arg(0), CodePiece::Text(".into_iter().take("), CodePiece::Arg(1), CodePiece::Text(" as usize).collect::<Vec<_>>()")]);
    }
    if crate::text::str_eq(name, "drop") {
        return Some(vec![CodePiece::Arg(0), CodePiece::Text(".into_iter().skip("), CodePiece::Arg(1), CodePiece::Text(" as usize).collect::<Vec<_>>()")]);
    }
    if crate::text::str_eq(name, "flatten") {
        return Some(vec![CodePiece::Arg(0), CodePiece::Text(".into_iter().flatten().collect::<Vec<_>>()")]);
    }
    if crate::text::str_eq(name, "reverse") {
        return Some(vec![CodePiece::Text("{ let mut __v = "), CodePiece::Arg(0), CodePiece::Text("; __v.reverse(); __v }")]);
    }
    if crate::text::str_eq(name, "unique") {
        return Some(vec![CodePiece::Text("{ let mut __seen = std::collections::HashSet::new(); "), CodePiece::Arg(0), CodePiece::Text(".into_iter().filter(|__x| __seen.insert(format!(\"{:?}\", __x))).collect::<Vec<_>>() }")]);
    }
    if crate::text::str_eq(name, "count_where") {
        return Some(vec![CodePiece::Arg(0), CodePiece::Text(".into_iter().filter(|__x| ("), CodePiece::Arg(1), CodePiece::Text(")((__x).clone())).count() as i64")]);
    }
    if crate::text::str_eq(name, "sum") {
        return Some(vec![CodePiece::Arg(0), CodePiece::Text(".iter().sum::<i64>()")]);
    }
    if crate::text::str_eq(name, "sum_floats") {
        return Some(vec![CodePiece::Arg(0), CodePiece::Text(".iter().sum::<f64>()")]);
    }
    if crate::text::str_eq(name, "range") {
        return Some(vec![CodePiece::Text("("), CodePiece::Arg(0), CodePiece::Text(".."), CodePiece::Arg(1), CodePiece::Text(").collect::<Vec<_>>()")]);
    }
    if crate::text::str_eq(name, "range_step") {
        return Some(vec![CodePiece::Text("("), CodePiece::Arg(0), CodePiece::Text(".."), CodePiece::Arg(1), CodePiece::Text(").step_by("), CodePiece::Arg(2), CodePiece::Text(" as usize).collect::<Vec<_>>()")]);
    }
    if crate::text::str_eq(name, "first") {
        return Some(vec![CodePiece::Arg(0), CodePiece::Text(".first().cloned()")]);
    }
    if crate::text::str_eq(name, "last") {
        return Some(vec![CodePiece::Arg(0), CodePiece::Text(".last().cloned()")]);
    }
    if crate::text::str_eq(name, "get") {
        return Some(vec![CodePiece::Arg(0), CodePiece::Text(".get("), CodePiece::Arg(1), CodePiece::Text(" as usize).cloned()")]);
    }
    if crate::text::str_eq(name, "list_contains") {
        return Some(vec![CodePiece::Arg(0), CodePiece::Text(".contains(&"), CodePiece::Arg(1), CodePiece::Text(")")]);
    }
    if crate::text::str_eq(name, "sort") {
        return Some(vec![CodePiece::Text("{ let mut __v = "), CodePiece::Arg(0), CodePiece::Text("; __v.sort(); __v }")]);
    }
    None
}

/// The templates of part 4.
fn builtin_templates_of_3(name: &str) -> (r: Option<Vec<CodePiece>>)
    ensures
        match builtin_templates_3(name@) {
            Some(t) => r is Some && r->0@ == t,
            None => r is None,
        },
{
    if crate::text::str_eq(name, "list_slice") {
        return Some(vec![CodePiece::Text("sage_runtime::stdlib::list_slice("), CodePiece::Arg(0), CodePiece::Text(", "), CodePiece::Arg(1), CodePiece::Text(", "), CodePiece::Arg(2), CodePiece::Text(")")]);
    }
    if crate::text::str_eq(name, "chunk") {
        return Some(vec![CodePiece::Arg(0), CodePiece::Text(".chunks("), CodePiece::Arg(1), CodePiece::Text(" as usize).map(|c| c.to_vec()).collect::<Vec<_>>()")]);
    }
    if crate::text::str_eq(name, "pop") {
        return Some(vec![CodePiece::Text("{ let mut __v = "), CodePiece::Arg(0), CodePiece::Text("; __v.pop() }")]);
    }
    if crate::text::str_eq(name, "push") {
        return Some(vec![CodePiece::Text("{ let mut __v = "), CodePiece::Arg(0), CodePiece::Text("; __v.push("), CodePiece::Arg(1), CodePiece::Text("); __v }")]);
    }
    if crate::text::str_eq(name, "concat") {
        return Some(vec![CodePiece::Text("{ let mut __v = "), CodePiece::Arg(0), CodePiece::Text("; __v.extend("), CodePiece::Arg(1), CodePiece::Text("); __v }")]);
    }
    if crate::text::str_eq(name, "take_while") {
        return Some(vec![CodePiece::Arg(0), CodePiece::Text(".into_iter().take_while(|__x| ("), CodePiece::Arg(1), CodePiece::Text(")((__x).clone())).collect::<Vec<_>>()")]);
    }
    if crate::text::str_eq(name, "drop_while") {
        return Some(vec![CodePiece::Arg(0), CodePiece::Text(".into_iter().skip_while(|__x| ("), CodePiece::Arg(1), CodePiece::Text(")((__x).clone())).collect::<Vec<_>>()")]);
    }
    if crate::text::str_eq(name, "is_some") {
        return Some(vec![CodePiece::Arg(0), CodePiece::Text(".is_some()")]);
    }
    if crate::text::str_eq(name, "is_none") {
        return Some(vec![CodePiece::Arg(0), CodePiece::Text(".is_none()")]);
    }
    if crate::text::str_eq(name, "unwrap") {
        return Some(vec![CodePiece::Arg(0), CodePiece::Text(".expect(\"unwrap called on None\")")]);
    }
    if crate::text::str_eq(name, "unwrap_or") {
        return Some(vec![CodePiece::Arg(0), CodePiece::Text(".unwrap_or("), CodePiece::Arg(1), CodePiece::Text(")")]);
    }
    if crate::text::str_eq(name, "unwrap_or_else") {
        return Some(vec![CodePiece::Arg(0), CodePiece::Text(".unwrap_or_else("), CodePiece::Arg(1), CodePiece::Text(")")]);
    }
    if crate::text::str_eq(name, "map_option") {
        return Some(vec![CodePiece::Arg(0), CodePiece::Text(".map("), CodePiece::Arg(1), CodePiece::Text(")")]);
    }
    if crate::text::str_eq(name, "or_option") {
        return Some(vec![CodePiece::Arg(0), CodePiece::Text(".or("), CodePiece::Arg(1), CodePiece::Text(")")]);
    }
    if crate::text::str_eq(name, "is_ok") {
        return Some(vec![CodePiece::Arg(0), CodePiece::Text(".is_ok()")]);
    }
    if crate::text::str_eq(name, "is_err") {
        return Some(vec![CodePiece::Arg(0), CodePiece::Text(".is_err()")]);
    }
    if crate::text::str_eq(name, "unwrap_result") {
        return Some(vec![CodePiece::Arg(0), CodePiece::Text(".expect(\"unwrap_result called on Err\")")]);
    }
    if crate::text::str_eq(name, "unwrap_err") {
        return Some(vec![CodePiece::Arg(0), CodePiece::Text(".expect_err(\"unwrap_err called on Ok\")")]);
    }
    if crate::text::str_eq(name, "unwrap_or_result") {
        return Some(vec![CodePiece::Arg(0), CodePiece::Text(".unwrap_or("), CodePiece::Arg(1), CodePiece::Text(")")]);
    }
    if crate::text::str_eq(name, "map_result") {
        return Some(vec![CodePiece::Arg(0), CodePiece::Text(".map("), CodePiece::Arg(1), CodePiece::Text(")")]);
    }
    if crate::text::str_eq(name, "map_err") {
        return Some(vec![CodePiece::Arg(0), CodePiece::Text(".map_err("), CodePiece::Arg(1), CodePiece::Text(")")]);
    }
    if crate::text::str_eq(name, "ok") {
        return Some(vec![CodePiece::Arg(0), CodePiece::Text(".ok()")]);
    }
    if crate::text::str_eq(name, "err_value") {
        return Some(vec![CodePiece::Arg(0), CodePiece::Text(".err()")]);
    }
    if crate::text::str_eq(name, "read_file") {
        return Some(vec![CodePiece::Text("sage_runtime::stdlib::read_file(&"), CodePiece::Arg(0), CodePiece::Text(").map_err(sage_runtime::SageError::agent)?")]);
    }
    None
}

/// The templates of part 5.
fn builtin_templates_of_4(name: &str) -> (r: Option<Vec<CodePiece>>)
    ensures
        match builtin_templates_4(name@) {
            Some(t) => r is Some && r->0@ == t,
            None => r is None,
        },
{
    if crate::text::str_eq(name, "write_file") {
        return Some(vec![CodePiece::Text("sage_runtime::stdlib::write_file(&"), CodePiece::Arg(0), CodePiece::Text(", &"), CodePiece::Arg(1), CodePiece::Text(").map_err(sage_runtime::SageError::agent)?")]);
    }
    if crate::text::str_eq(name, "append_file") {
        return Some(vec![CodePiece::Text("sage_runtime::stdlib::append_file(&"), CodePiece::Arg(0), CodePiece::Text(", &"), CodePiece::Arg(1), CodePiece::Text(").map_err(sage_runtime::SageError::agent)?")]);
    }
    if crate::text::str_eq(name, "file_exists") {
        return Some(vec![CodePiece::Text("sage_runtime::stdlib::file_exists(&"), CodePiece::Arg(0), CodePiece::Text(")")]);
    }
    if crate::text::str_eq(name, "delete_file") {
        return Some(vec![CodePiece::Text("sage_runtime::stdlib::delete_file(&"), CodePiece::Arg(0), CodePiece::Text(").map_err(sage_runtime::SageError::agent)?")]);
    }
    if crate::text::str_eq(name, "list_dir") {
        return Some(vec![CodePiece::Text("sage_runtime::stdlib::list_dir(&"), CodePiece::Arg(0), CodePiece::Text(").map_err(sage_runtime::SageError::agent)?")]);
    }
    if crate::text::str_eq(name, "make_dir") {
        return Some(vec![CodePiece::Text("sage_runtime::stdlib::make_dir(&"), CodePiece::Arg(0), CodePiece::Text(").map_err(sage_runtime::SageError::agent)?")]);
    }
    if crate::text::str_eq(name, "read_line") {
        return Some(vec![CodePiece::Text("sage_runtime::stdlib::read_line().map_err(sage_runtime::SageError::agent)")]);
    }
    if crate::text::str_eq(name, "read_all") {
        return Some(vec![CodePiece::Text("sage_runtime::stdlib::read_all().map_err(sage_runtime::SageError::agent)")]);
    }
    if crate::text::str_eq(name, "print_err") {
        return Some(vec![CodePiece::Text("eprintln!(\"{}\", "), CodePiece::Arg(0), CodePiece::Text(")")]);
    }
    if crate::text::str_eq(name, "now_ms") {
        return Some(vec![CodePiece::Text("sage_runtime::stdlib::now_ms()")]);
    }
    if crate::text::str_eq(name, "now_s") {
        return Some(vec![CodePiece::Text("sage_runtime::stdlib::now_s()")]);
    }
    if crate::text::str_eq(name, "sleep_ms") {
        return Some(vec![CodePiece::Text("tokio::time::sleep(std::time::Duration::from_millis("), CodePiece::Arg(0), CodePiece::Text(" as u64)).await")]);
    }
    if crate::text::str_eq(name, "format_timestamp") {
        return Some(vec![CodePiece::Text("sage_runtime::stdlib::format_timestamp("), CodePiece::Arg(0), CodePiece::Text(", &"), CodePiece::Arg(1), CodePiece::Text(")")]);
    }
    if crate::text::str_eq(name, "parse_timestamp") {
        return Some(vec![CodePiece::Text("sage_runtime::stdlib::parse_timestamp(&"), CodePiece::Arg(0), CodePiece::Text(", &"), CodePiece::Arg(1), CodePiece::Text(").map_err(sage_runtime::SageError::agent)?")]);
    }
    if crate::text::str_eq(name, "json_parse") {
        return Some(vec![CodePiece::Text("sage_runtime::stdlib::json_parse(&"), CodePiece::Arg(0), CodePiece::Text(").map_err(sage_runtime::SageError::agent)?")]);
    }
    if crate::text::str_eq(name, "json_get") {
        return Some(vec![CodePiece::Text("sage_runtime::stdlib::json_get(&"), CodePiece::Arg(0), CodePiece::Text(", &"), CodePiece::Arg(1), CodePiece::Text(")")]);
    }
    if crate::text::str_eq(name, "json_get_int") {
        return Some(vec![CodePiece::Text("sage_runtime::stdlib::json_get_int(&"), CodePiece::Arg(0), CodePiece::Text(", &"), CodePiece::Arg(1), CodePiece::Text(")")]);
    }
    if crate::text::str_eq(name, "json_get_float") {
        return Some(vec![CodePiece::Text("sage_runtime::stdlib::json_get_float(&"), CodePiece::Arg(0), CodePiece::Text(", &"), CodePiece::Arg(1), CodePiece::Text(")")]);
    }
    if crate::text::str_eq(name, "json_get_bool") {
        return Some(vec![CodePiece::Text("sage_runtime::stdlib::json_get_bool(&"), CodePiece::Arg(0), CodePiece::Text(", &"), CodePiece::Arg(1), CodePiece::Text(")")]);
    }
    if crate::text::str_eq(name, "json_get_list") {
        return Some(vec![CodePiece::Text("sage_runtime::stdlib::json_get_list(&"), CodePiece::Arg(0), CodePiece::Text(", &"), CodePiece::Arg(1), CodePiece::Text(")")]);
    }
    if crate::text::str_eq(name, "json_stringify") {
        return Some(vec![CodePiece::Text("sage_runtime::stdlib::json_stringify_string(&"), CodePiece::Arg(0), CodePiece::Text(".to_string())")]);
    }
    None
}

/// The templates of part 6.
fn builtin_templates_of_5(name: &str) -> (r: Option<Vec<CodePiece>>)
    ensures
        match builtin_templates_5(name@) {
            Some(t) => r is Some && r->0@ == t,
            None => r is None,
        },
{
    if crate::text::str_eq(name, "sort_by") {
        return Some(vec![CodePiece::Text("{ let mut __v = "), CodePiece::Arg(0), CodePiece::Text("; __v.sort_by(|__a, __b| { let __cmp = ("), CodePiece::Arg(1), CodePiece::Text(")((__a).clone(), (__b).clone()); if __cmp < 0 { std::cmp::Ordering::Less } else if __cmp > 0 { std::cmp::Ordering::Greater } else { std::cmp::Ordering::Equal } }); __v }")]);
    }
    None
}

/// The template of a built-in call, when the built-in has one.
pub fn builtin_template_of(name: &str) -> (r: Option<Vec<CodePiece>>)
    ensures
        match builtin_template(name@) {
            Some(t) => r is Some && r->0@ == t,
            None => r is None,
        },
{
    let t0 = builtin_templates_of_0(name);
    if t0.is_some() {
        return t0;
    }
    let t1 = builtin_templates_of_1(name);
    if t1.is_some() {
        return t1;
    }
    let t2 = builtin_templates_of_2(name);
    if t2.is_some() {
        return t2;
    }
    let t3 = builtin_templates_of_3(name);
    if t3.is_some() {
        return t3;
    }
    let t4 = builtin_templates_of_4(name);
    if t4.is_some() {
        return t4;
    }
    let t5 = builtin_templates_of_5(name);
    if t5.is_some() {
        return t5;
    }
    None
}

} // verus!
