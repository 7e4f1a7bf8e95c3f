//! The built-in functions, enums and tools known to every program.

use vstd::prelude::*;
use crate::names::NameMap;
use crate::scope::BuiltinInfo;
use crate::scope::BuiltinV;
use crate::scope::EnumInfo;
use crate::scope::EnumV;
use crate::scope::ToolFnV;
use crate::scope::ToolV;
use crate::scope::Scope;
use crate::scope::SymbolTable;
use crate::scope::ToolFnInfo;
use crate::scope::ToolInfo;
use crate::types::Type;
use crate::types::TypeV;
use crate::types::type_view;
use crate::types::view_types;

verus! {

/// Views of lists of up to three types.
proof fn lemma_view_types_small(a: Type, b: Type, c: Type)
    ensures
        view_types(Seq::<Type>::empty()) == Seq::<TypeV>::empty(),
        view_types(seq![a]) == seq![a@],
        view_types(seq![a, b]) == seq![a@, b@],
        view_types(seq![a, b, c]) == seq![a@, b@, c@],
{
    reveal_with_fuel(view_types, 4);
    assert(seq![a].drop_last() =~= Seq::<Type>::empty());
    assert(seq![a, b].drop_last() =~= seq![a]);
    assert(seq![a, b, c].drop_last() =~= seq![a, b]);
    assert(Seq::<TypeV>::empty().push(a@) =~= seq![a@]);
    assert(seq![a@].push(b@) =~= seq![a@, b@]);
    assert(seq![a@, b@].push(c@) =~= seq![a@, b@, c@]);
}

/// A built-in whose calls are checked specially (generic or variadic).
fn special(name: &'static str, ret: Type, fallible: bool) -> (r: BuiltinInfo)
    ensures
        r.name == name,
        r@ == (BuiltinV { params: None, return_type: ret@, is_fallible: fallible }),
{
    BuiltinInfo { name, params: None, return_type: ret, is_fallible: fallible }
}

/// A built-in without parameters.
fn fixed0(name: &'static str, ret: Type, fallible: bool) -> (r: BuiltinInfo)
    ensures
        r.name == name,
        r@ == (BuiltinV { params: Some(Seq::empty()), return_type: ret@, is_fallible: fallible }),
{
    proof {
        lemma_view_types_small(Type::Unit, Type::Unit, Type::Unit);
    }
    BuiltinInfo { name, params: Some(Vec::new()), return_type: ret, is_fallible: fallible }
}

/// A built-in with one parameter.
fn fixed1(name: &'static str, p1: Type, ret: Type, fallible: bool) -> (r: BuiltinInfo)
    ensures
        r.name == name,
        r@ == (BuiltinV { params: Some(seq![p1@]), return_type: ret@, is_fallible: fallible }),
{
    let ghost g1 = p1;
    let mut ps: Vec<Type> = Vec::new();
    ps.push(p1);
    proof {
        lemma_view_types_small(g1, Type::Unit, Type::Unit);
        assert(ps@ =~= seq![g1]);
    }
    BuiltinInfo { name, params: Some(ps), return_type: ret, is_fallible: fallible }
}

/// A built-in with two parameters.
fn fixed2(name: &'static str, p1: Type, p2: Type, ret: Type, fallible: bool) -> (r: BuiltinInfo)
    ensures
        r.name == name,
        r@ == (BuiltinV { params: Some(seq![p1@, p2@]), return_type: ret@, is_fallible: fallible }),
{
    proof {
        lemma_view_types_small(p1, p2, Type::Unit);
    }
    BuiltinInfo { name, params: Some(vec![p1, p2]), return_type: ret, is_fallible: fallible }
}

/// A built-in with three parameters.
fn fixed3(name: &'static str, p1: Type, p2: Type, p3: Type, ret: Type, fallible: bool) -> (r:
    BuiltinInfo)
    ensures
        r.name == name,
        r@ == (BuiltinV {
            params: Some(seq![p1@, p2@, p3@]),
            return_type: ret@,
            is_fallible: fallible,
        }),
{
    proof {
        lemma_view_types_small(p1, p2, p3);
    }
    BuiltinInfo { name, params: Some(vec![p1, p2, p3]), return_type: ret, is_fallible: fallible }
}

/// The signatures of the built-in core functions, added to `m`.
pub open spec fn spec_core_builtins(m: Map<Seq<char>, BuiltinV>) -> Map<Seq<char>, BuiltinV> {
    m.insert("print"@, BuiltinV { params: Some(seq![TypeV::Str]), return_type: TypeV::Unit, is_fallible: false }).insert("len"@, BuiltinV { params: None, return_type: TypeV::Int, is_fallible: false }).insert("push"@, BuiltinV { params: None, return_type: TypeV::Error, is_fallible: false }).insert("join"@, BuiltinV { params: Some(seq![TypeV::List(Box::new(TypeV::Str)), TypeV::Str]), return_type: TypeV::Str, is_fallible: false }).insert("lines"@, BuiltinV { params: Some(seq![TypeV::Str]), return_type: TypeV::List(Box::new(TypeV::Str)), is_fallible: false }).insert("chars"@, BuiltinV { params: Some(seq![TypeV::Str]), return_type: TypeV::List(Box::new(TypeV::Str)), is_fallible: false }).insert("str"@, BuiltinV { params: None, return_type: TypeV::Str, is_fallible: false }).insert("int_to_str"@, BuiltinV { params: Some(seq![TypeV::Int]), return_type: TypeV::Str, is_fallible: false }).insert("str_contains"@, BuiltinV { params: Some(seq![TypeV::Str, TypeV::Str]), return_type: TypeV::Bool, is_fallible: false }).insert("sleep_ms"@, BuiltinV { params: Some(seq![TypeV::Int]), return_type: TypeV::Unit, is_fallible: false }).insert("map_get"@, BuiltinV { params: None, return_type: TypeV::Error, is_fallible: false }).insert("map_set"@, BuiltinV { params: None, return_type: TypeV::Unit, is_fallible: false }).insert("map_delete"@, BuiltinV { params: None, return_type: TypeV::Unit, is_fallible: false }).insert("map_has"@, BuiltinV { params: None, return_type: TypeV::Bool, is_fallible: false }).insert("map_keys"@, BuiltinV { params: None, return_type: TypeV::Error, is_fallible: false }).insert("map_values"@, BuiltinV { params: None, return_type: TypeV::Error, is_fallible: false })
}

/// The signatures of the built-in string functions, added to `m`.
pub open spec fn spec_string_builtins(m: Map<Seq<char>, BuiltinV>) -> Map<Seq<char>, BuiltinV> {
    m.insert("split"@, BuiltinV { params: Some(seq![TypeV::Str, TypeV::Str]), return_type: TypeV::List(Box::new(TypeV::Str)), is_fallible: false }).insert("trim"@, BuiltinV { params: Some(seq![TypeV::Str]), return_type: TypeV::Str, is_fallible: false }).insert("trim_start"@, BuiltinV { params: Some(seq![TypeV::Str]), return_type: TypeV::Str, is_fallible: false }).insert("trim_end"@, BuiltinV { params: Some(seq![TypeV::Str]), return_type: TypeV::Str, is_fallible: false }).insert("starts_with"@, BuiltinV { params: Some(seq![TypeV::Str, TypeV::Str]), return_type: TypeV::Bool, is_fallible: false }).insert("ends_with"@, BuiltinV { params: Some(seq![TypeV::Str, TypeV::Str]), return_type: TypeV::Bool, is_fallible: false }).insert("replace"@, BuiltinV { params: Some(seq![TypeV::Str, TypeV::Str, TypeV::Str]), return_type: TypeV::Str, is_fallible: false }).insert("replace_first"@, BuiltinV { params: Some(seq![TypeV::Str, TypeV::Str, TypeV::Str]), return_type: TypeV::Str, is_fallible: false }).insert("to_upper"@, BuiltinV { params: Some(seq![TypeV::Str]), return_type: TypeV::Str, is_fallible: false }).insert("to_lower"@, BuiltinV { params: Some(seq![TypeV::Str]), return_type: TypeV::Str, is_fallible: false }).insert("str_len"@, BuiltinV { params: Some(seq![TypeV::Str]), return_type: TypeV::Int, is_fallible: false }).insert("str_slice"@, BuiltinV { params: Some(seq![TypeV::Str, TypeV::Int, TypeV::Int]), return_type: TypeV::Str, is_fallible: false }).insert("str_index_of"@, BuiltinV { params: Some(seq![TypeV::Str, TypeV::Str]), return_type: TypeV::Opt(Box::new(TypeV::Int)), is_fallible: false }).insert("str_repeat"@, BuiltinV { params: Some(seq![TypeV::Str, TypeV::Int]), return_type: TypeV::Str, is_fallible: false }).insert("str_pad_start"@, BuiltinV { params: Some(seq![TypeV::Str, TypeV::Int, TypeV::Str]), return_type: TypeV::Str, is_fallible: false }).insert("str_pad_end"@, BuiltinV { params: Some(seq![TypeV::Str, TypeV::Int, TypeV::Str]), return_type: TypeV::Str, is_fallible: false })
}

/// The signatures of the built-in math functions, added to `m`.
pub open spec fn spec_math_builtins(m: Map<Seq<char>, BuiltinV>) -> Map<Seq<char>, BuiltinV> {
    m.insert("abs"@, BuiltinV { params: Some(seq![TypeV::Int]), return_type: TypeV::Int, is_fallible: false }).insert("abs_float"@, BuiltinV { params: Some(seq![TypeV::Float]), return_type: TypeV::Float, is_fallible: false }).insert("min"@, BuiltinV { params: Some(seq![TypeV::Int, TypeV::Int]), return_type: TypeV::Int, is_fallible: false }).insert("max"@, BuiltinV { params: Some(seq![TypeV::Int, TypeV::Int]), return_type: TypeV::Int, is_fallible: false }).insert("min_float"@, BuiltinV { params: Some(seq![TypeV::Float, TypeV::Float]), return_type: TypeV::Float, is_fallible: false }).insert("max_float"@, BuiltinV { params: Some(seq![TypeV::Float, TypeV::Float]), return_type: TypeV::Float, is_fallible: false }).insert("clamp"@, BuiltinV { params: Some(seq![TypeV::Int, TypeV::Int, TypeV::Int]), return_type: TypeV::Int, is_fallible: false }).insert("clamp_float"@, BuiltinV { params: Some(seq![TypeV::Float, TypeV::Float, TypeV::Float]), return_type: TypeV::Float, is_fallible: false }).insert("floor"@, BuiltinV { params: Some(seq![TypeV::Float]), return_type: TypeV::Int, is_fallible: false }).insert("ceil"@, BuiltinV { params: Some(seq![TypeV::Float]), return_type: TypeV::Int, is_fallible: false }).insert("round"@, BuiltinV { params: Some(seq![TypeV::Float]), return_type: TypeV::Int, is_fallible: false }).insert("floor_float"@, BuiltinV { params: Some(seq![TypeV::Float]), return_type: TypeV::Float, is_fallible: false }).insert("ceil_float"@, BuiltinV { params: Some(seq![TypeV::Float]), return_type: TypeV::Float, is_fallible: false }).insert("pow"@, BuiltinV { params: Some(seq![TypeV::Int, TypeV::Int]), return_type: TypeV::Int, is_fallible: false }).insert("pow_float"@, BuiltinV { params: Some(seq![TypeV::Float, TypeV::Float]), return_type: TypeV::Float, is_fallible: false }).insert("sqrt"@, BuiltinV { params: Some(seq![TypeV::Float]), return_type: TypeV::Float, is_fallible: false }).insert("int_to_float"@, BuiltinV { params: Some(seq![TypeV::Int]), return_type: TypeV::Float, is_fallible: false }).insert("float_to_int"@, BuiltinV { params: Some(seq![TypeV::Float]), return_type: TypeV::Int, is_fallible: false })
}

/// The signatures of the built-in parsing functions, added to `m`.
pub open spec fn spec_parsing_builtins(m: Map<Seq<char>, BuiltinV>) -> Map<Seq<char>, BuiltinV> {
    m.insert("parse_int"@, BuiltinV { params: Some(seq![TypeV::Str]), return_type: TypeV::Res(Box::new(TypeV::Int), Box::new(TypeV::Str)), is_fallible: false }).insert("parse_float"@, BuiltinV { params: Some(seq![TypeV::Str]), return_type: TypeV::Res(Box::new(TypeV::Float), Box::new(TypeV::Str)), is_fallible: false }).insert("parse_bool"@, BuiltinV { params: Some(seq![TypeV::Str]), return_type: TypeV::Res(Box::new(TypeV::Bool), Box::new(TypeV::Str)), is_fallible: false }).insert("float_to_str"@, BuiltinV { params: Some(seq![TypeV::Float]), return_type: TypeV::Str, is_fallible: false }).insert("bool_to_str"@, BuiltinV { params: Some(seq![TypeV::Bool]), return_type: TypeV::Str, is_fallible: false })
}

/// The signatures of the built-in higher-order list functions, added to `m`.
pub open spec fn spec_higher_order_builtins(m: Map<Seq<char>, BuiltinV>) -> Map<Seq<char>, BuiltinV> {
    m.insert("map"@, BuiltinV { params: None, return_type: TypeV::Error, is_fallible: false }).insert("filter"@, BuiltinV { params: None, return_type: TypeV::Error, is_fallible: false }).insert("reduce"@, BuiltinV { params: None, return_type: TypeV::Error, is_fallible: false }).insert("any"@, BuiltinV { params: None, return_type: TypeV::Bool, is_fallible: false }).insert("all"@, BuiltinV { params: None, return_type: TypeV::Bool, is_fallible: false }).insert("find"@, BuiltinV { params: None, return_type: TypeV::Error, is_fallible: false }).insert("flat_map"@, BuiltinV { params: None, return_type: TypeV::Error, is_fallible: false }).insert("zip"@, BuiltinV { params: None, return_type: TypeV::Error, is_fallible: false }).insert("sort_by"@, BuiltinV { params: None, return_type: TypeV::Error, is_fallible: false }).insert("enumerate"@, BuiltinV { params: None, return_type: TypeV::Error, is_fallible: false }).insert("take"@, BuiltinV { params: None, return_type: TypeV::Error, is_fallible: false }).insert("drop"@, BuiltinV { params: None, return_type: TypeV::Error, is_fallible: false }).insert("flatten"@, BuiltinV { params: None, return_type: TypeV::Error, is_fallible: false }).insert("reverse"@, BuiltinV { params: None, return_type: TypeV::Error, is_fallible: false }).insert("unique"@, BuiltinV { params: None, return_type: TypeV::Error, is_fallible: false }).insert("count_where"@, BuiltinV { params: None, return_type: TypeV::Int, is_fallible: false }).insert("sum"@, BuiltinV { params: Some(seq![TypeV::List(Box::new(TypeV::Int))]), return_type: TypeV::Int, is_fallible: false }).insert("sum_floats"@, BuiltinV { params: Some(seq![TypeV::List(Box::new(TypeV::Float))]), return_type: TypeV::Float, is_fallible: false })
}

/// The signatures of the built-in list utilities, added to `m`.
pub open spec fn spec_list_builtins(m: Map<Seq<char>, BuiltinV>) -> Map<Seq<char>, BuiltinV> {
    m.insert("range"@, BuiltinV { params: Some(seq![TypeV::Int, TypeV::Int]), return_type: TypeV::List(Box::new(TypeV::Int)), is_fallible: false }).insert("range_step"@, BuiltinV { params: Some(seq![TypeV::Int, TypeV::Int, TypeV::Int]), return_type: TypeV::List(Box::new(TypeV::Int)), is_fallible: false }).insert("first"@, BuiltinV { params: None, return_type: TypeV::Error, is_fallible: false }).insert("last"@, BuiltinV { params: None, return_type: TypeV::Error, is_fallible: false }).insert("get"@, BuiltinV { params: None, return_type: TypeV::Error, is_fallible: false }).insert("list_contains"@, BuiltinV { params: None, return_type: TypeV::Bool, is_fallible: false }).insert("sort"@, BuiltinV { params: None, return_type: TypeV::Error, is_fallible: false }).insert("list_slice"@, BuiltinV { params: None, return_type: TypeV::Error, is_fallible: false }).insert("chunk"@, BuiltinV { params: None, return_type: TypeV::Error, is_fallible: false }).insert("pop"@, BuiltinV { params: None, return_type: TypeV::Error, is_fallible: false }).insert("concat"@, BuiltinV { params: None, return_type: TypeV::Error, is_fallible: false }).insert("take_while"@, BuiltinV { params: None, return_type: TypeV::Error, is_fallible: false }).insert("drop_while"@, BuiltinV { params: None, return_type: TypeV::Error, is_fallible: false })
}

/// The signatures of the built-in I/O functions, added to `m`.
pub open spec fn spec_io_builtins(m: Map<Seq<char>, BuiltinV>) -> Map<Seq<char>, BuiltinV> {
    m.insert("read_file"@, BuiltinV { params: Some(seq![TypeV::Str]), return_type: TypeV::Str, is_fallible: true }).insert("write_file"@, BuiltinV { params: Some(seq![TypeV::Str, TypeV::Str]), return_type: TypeV::Unit, is_fallible: true }).insert("append_file"@, BuiltinV { params: Some(seq![TypeV::Str, TypeV::Str]), return_type: TypeV::Unit, is_fallible: true }).insert("file_exists"@, BuiltinV { params: Some(seq![TypeV::Str]), return_type: TypeV::Bool, is_fallible: false }).insert("delete_file"@, BuiltinV { params: Some(seq![TypeV::Str]), return_type: TypeV::Unit, is_fallible: true }).insert("list_dir"@, BuiltinV { params: Some(seq![TypeV::Str]), return_type: TypeV::List(Box::new(TypeV::Str)), is_fallible: true }).insert("make_dir"@, BuiltinV { params: Some(seq![TypeV::Str]), return_type: TypeV::Unit, is_fallible: true }).insert("read_line"@, BuiltinV { params: Some(seq![]), return_type: TypeV::Str, is_fallible: true }).insert("read_all"@, BuiltinV { params: Some(seq![]), return_type: TypeV::Str, is_fallible: true }).insert("print_err"@, BuiltinV { params: None, return_type: TypeV::Unit, is_fallible: false })
}

/// The signatures of the built-in time functions, added to `m`.
pub open spec fn spec_time_builtins(m: Map<Seq<char>, BuiltinV>) -> Map<Seq<char>, BuiltinV> {
    m.insert("now_ms"@, BuiltinV { params: Some(seq![]), return_type: TypeV::Int, is_fallible: false }).insert("now_s"@, BuiltinV { params: Some(seq![]), return_type: TypeV::Int, is_fallible: false }).insert("format_timestamp"@, BuiltinV { params: Some(seq![TypeV::Int, TypeV::Str]), return_type: TypeV::Str, is_fallible: false }).insert("parse_timestamp"@, BuiltinV { params: Some(seq![TypeV::Str, TypeV::Str]), return_type: TypeV::Int, is_fallible: true })
}

/// The signatures of the built-in JSON utilities, added to `m`.
pub open spec fn spec_json_builtins(m: Map<Seq<char>, BuiltinV>) -> Map<Seq<char>, BuiltinV> {
    m.insert("json_parse"@, BuiltinV { params: Some(seq![TypeV::Str]), return_type: TypeV::Str, is_fallible: true }).insert("json_get"@, BuiltinV { params: Some(seq![TypeV::Str, TypeV::Str]), return_type: TypeV::Opt(Box::new(TypeV::Str)), is_fallible: false }).insert("json_get_int"@, BuiltinV { params: Some(seq![TypeV::Str, TypeV::Str]), return_type: TypeV::Opt(Box::new(TypeV::Int)), is_fallible: false }).insert("json_get_float"@, BuiltinV { params: Some(seq![TypeV::Str, TypeV::Str]), return_type: TypeV::Opt(Box::new(TypeV::Float)), is_fallible: false }).insert("json_get_bool"@, BuiltinV { params: Some(seq![TypeV::Str, TypeV::Str]), return_type: TypeV::Opt(Box::new(TypeV::Bool)), is_fallible: false }).insert("json_get_list"@, BuiltinV { params: Some(seq![TypeV::Str, TypeV::Str]), return_type: TypeV::Opt(Box::new(TypeV::List(Box::new(TypeV::Str)))), is_fallible: false }).insert("json_stringify"@, BuiltinV { params: None, return_type: TypeV::Str, is_fallible: false })
}

/// The signatures of the built-in option utilities, added to `m`.
pub open spec fn spec_option_builtins(m: Map<Seq<char>, BuiltinV>) -> Map<Seq<char>, BuiltinV> {
    m.insert("is_some"@, BuiltinV { params: None, return_type: TypeV::Bool, is_fallible: false }).insert("is_none"@, BuiltinV { params: None, return_type: TypeV::Bool, is_fallible: false }).insert("unwrap"@, BuiltinV { params: None, return_type: TypeV::Error, is_fallible: false }).insert("unwrap_or"@, BuiltinV { params: None, return_type: TypeV::Error, is_fallible: false }).insert("unwrap_or_else"@, BuiltinV { params: None, return_type: TypeV::Error, is_fallible: false }).insert("map_option"@, BuiltinV { params: None, return_type: TypeV::Error, is_fallible: false }).insert("or_option"@, BuiltinV { params: None, return_type: TypeV::Error, is_fallible: false })
}

/// The signatures of the built-in assertions, added to `m`.
pub open spec fn spec_assertion_builtins(m: Map<Seq<char>, BuiltinV>) -> Map<Seq<char>, BuiltinV> {
    m.insert("assert"@, BuiltinV { params: Some(seq![TypeV::Bool]), return_type: TypeV::Unit, is_fallible: false }).insert("assert_eq"@, BuiltinV { params: None, return_type: TypeV::Unit, is_fallible: false }).insert("assert_neq"@, BuiltinV { params: None, return_type: TypeV::Unit, is_fallible: false }).insert("assert_gt"@, BuiltinV { params: None, return_type: TypeV::Unit, is_fallible: false }).insert("assert_lt"@, BuiltinV { params: None, return_type: TypeV::Unit, is_fallible: false }).insert("assert_gte"@, BuiltinV { params: None, return_type: TypeV::Unit, is_fallible: false }).insert("assert_lte"@, BuiltinV { params: None, return_type: TypeV::Unit, is_fallible: false }).insert("assert_true"@, BuiltinV { params: Some(seq![TypeV::Bool]), return_type: TypeV::Unit, is_fallible: false }).insert("assert_false"@, BuiltinV { params: Some(seq![TypeV::Bool]), return_type: TypeV::Unit, is_fallible: false }).insert("assert_contains"@, BuiltinV { params: Some(seq![TypeV::Str, TypeV::Str]), return_type: TypeV::Unit, is_fallible: false }).insert("assert_not_contains"@, BuiltinV { params: Some(seq![TypeV::Str, TypeV::Str]), return_type: TypeV::Unit, is_fallible: false }).insert("assert_empty"@, BuiltinV { params: Some(seq![TypeV::Str]), return_type: TypeV::Unit, is_fallible: false }).insert("assert_not_empty"@, BuiltinV { params: Some(seq![TypeV::Str]), return_type: TypeV::Unit, is_fallible: false }).insert("assert_starts_with"@, BuiltinV { params: Some(seq![TypeV::Str, TypeV::Str]), return_type: TypeV::Unit, is_fallible: false }).insert("assert_ends_with"@, BuiltinV { params: Some(seq![TypeV::Str, TypeV::Str]), return_type: TypeV::Unit, is_fallible: false }).insert("assert_len"@, BuiltinV { params: None, return_type: TypeV::Unit, is_fallible: false }).insert("assert_empty_list"@, BuiltinV { params: None, return_type: TypeV::Unit, is_fallible: false }).insert("assert_not_empty_list"@, BuiltinV { params: None, return_type: TypeV::Unit, is_fallible: false }).insert("assert_fails"@, BuiltinV { params: None, return_type: TypeV::Unit, is_fallible: false })
}

/// The signatures of all built-in functions.
pub open spec fn spec_builtins() -> Map<Seq<char>, BuiltinV> {
    spec_assertion_builtins(spec_option_builtins(spec_json_builtins(spec_time_builtins(spec_io_builtins(spec_list_builtins(spec_higher_order_builtins(spec_parsing_builtins(spec_math_builtins(spec_string_builtins(spec_core_builtins(Map::empty())))))))))))
}

impl SymbolTable {
    /// Registers the built-in core functions.
    fn register_core_builtins(&mut self)
        requires
            old(self).wf(),
        ensures
            final(self).wf(),
            final(self).builtins() == spec_core_builtins(old(self).builtins()),
            final(self).declarations_unchanged(*old(self)),
    {
        reveal_with_fuel(type_view, 4);
        self.add_builtin(fixed1("print", Type::String, Type::Unit, false));
        self.add_builtin(special("len", Type::Int, false));
        self.add_builtin(special("push", Type::Error, false));
        self.add_builtin(fixed2("join", Type::List(Box::new(Type::String)), Type::String, Type::String, false));
        self.add_builtin(fixed1("lines", Type::String, Type::List(Box::new(Type::String)), false));
        self.add_builtin(fixed1("chars", Type::String, Type::List(Box::new(Type::String)), false));
        self.add_builtin(special("str", Type::String, false));
        self.add_builtin(fixed1("int_to_str", Type::Int, Type::String, false));
        self.add_builtin(fixed2("str_contains", Type::String, Type::String, Type::Bool, false));
        self.add_builtin(fixed1("sleep_ms", Type::Int, Type::Unit, false));
        self.add_builtin(special("map_get", Type::Error, false));
        self.add_builtin(special("map_set", Type::Unit, false));
        self.add_builtin(special("map_delete", Type::Unit, false));
        self.add_builtin(special("map_has", Type::Bool, false));
        self.add_builtin(special("map_keys", Type::Error, false));
        self.add_builtin(special("map_values", Type::Error, false));
    }

    /// Registers the built-in string functions.
    fn register_string_builtins(&mut self)
        requires
            old(self).wf(),
        ensures
            final(self).wf(),
            final(self).builtins() == spec_string_builtins(old(self).builtins()),
            final(self).declarations_unchanged(*old(self)),
    {
        reveal_with_fuel(type_view, 4);
        self.add_builtin(fixed2("split", Type::String, Type::String, Type::List(Box::new(Type::String)), false));
        self.add_builtin(fixed1("trim", Type::String, Type::String, false));
        self.add_builtin(fixed1("trim_start", Type::String, Type::String, false));
        self.add_builtin(fixed1("trim_end", Type::String, Type::String, false));
        self.add_builtin(fixed2("starts_with", Type::String, Type::String, Type::Bool, false));
        self.add_builtin(fixed2("ends_with", Type::String, Type::String, Type::Bool, false));
        self.add_builtin(fixed3("replace", Type::String, Type::String, Type::String, Type::String, false));
        self.add_builtin(fixed3("replace_first", Type::String, Type::String, Type::String, Type::String, false));
        self.add_builtin(fixed1("to_upper", Type::String, Type::String, false));
        self.add_builtin(fixed1("to_lower", Type::String, Type::String, false));
        self.add_builtin(fixed1("str_len", Type::String, Type::Int, false));
        self.add_builtin(fixed3("str_slice", Type::String, Type::Int, Type::Int, Type::String, false));
        self.add_builtin(fixed2("str_index_of", Type::String, Type::String, Type::Option(Box::new(Type::Int)), false));
        self.add_builtin(fixed2("str_repeat", Type::String, Type::Int, Type::String, false));
        self.add_builtin(fixed3("str_pad_start", Type::String, Type::Int, Type::String, Type::String, false));
        self.add_builtin(fixed3("str_pad_end", Type::String, Type::Int, Type::String, Type::String, false));
    }

    /// Registers the built-in math functions.
    fn register_math_builtins(&mut self)
        requires
            old(self).wf(),
        ensures
            final(self).wf(),
            final(self).builtins() == spec_math_builtins(old(self).builtins()),
            final(self).declarations_unchanged(*old(self)),
    {
        reveal_with_fuel(type_view, 4);
        self.add_builtin(fixed1("abs", Type::Int, Type::Int, false));
        self.add_builtin(fixed1("abs_float", Type::Float, Type::Float, false));
        self.add_builtin(fixed2("min", Type::Int, Type::Int, Type::Int, false));
        self.add_builtin(fixed2("max", Type::Int, Type::Int, Type::Int, false));
        self.add_builtin(fixed2("min_float", Type::Float, Type::Float, Type::Float, false));
        self.add_builtin(fixed2("max_float", Type::Float, Type::Float, Type::Float, false));
        self.add_builtin(fixed3("clamp", Type::Int, Type::Int, Type::Int, Type::Int, false));
        self.add_builtin(fixed3("clamp_float", Type::Float, Type::Float, Type::Float, Type::Float, false));
        self.add_builtin(fixed1("floor", Type::Float, Type::Int, false));
        self.add_builtin(fixed1("ceil", Type::Float, Type::Int, false));
        self.add_builtin(fixed1("round", Type::Float, Type::Int, false));
        self.add_builtin(fixed1("floor_float", Type::Float, Type::Float, false));
        self.add_builtin(fixed1("ceil_float", Type::Float, Type::Float, false));
        self.add_builtin(fixed2("pow", Type::Int, Type::Int, Type::Int, false));
        self.add_builtin(fixed2("pow_float", Type::Float, Type::Float, Type::Float, false));
        self.add_builtin(fixed1("sqrt", Type::Float, Type::Float, false));
        self.add_builtin(fixed1("int_to_float", Type::Int, Type::Float, false));
        self.add_builtin(fixed1("float_to_int", Type::Float, Type::Int, false));
    }

    /// Registers the built-in parsing functions.
    fn register_parsing_builtins(&mut self)
        requires
            old(self).wf(),
        ensures
            final(self).wf(),
            final(self).builtins() == spec_parsing_builtins(old(self).builtins()),
            final(self).declarations_unchanged(*old(self)),
    {
        reveal_with_fuel(type_view, 4);
        self.add_builtin(fixed1("parse_int", Type::String, Type::Result(Box::new(Type::Int), Box::new(Type::String)), false));
        self.add_builtin(fixed1("parse_float", Type::String, Type::Result(Box::new(Type::Float), Box::new(Type::String)), false));
        self.add_builtin(fixed1("parse_bool", Type::String, Type::Result(Box::new(Type::Bool), Box::new(Type::String)), false));
        self.add_builtin(fixed1("float_to_str", Type::Float, Type::String, false));
        self.add_builtin(fixed1("bool_to_str", Type::Bool, Type::String, false));
    }

    /// Registers the built-in higher-order list functions.
    fn register_higher_order_builtins(&mut self)
        requires
            old(self).wf(),
        ensures
            final(self).wf(),
            final(self).builtins() == spec_higher_order_builtins(old(self).builtins()),
            final(self).declarations_unchanged(*old(self)),
    {
        reveal_with_fuel(type_view, 4);
        self.add_builtin(special("map", Type::Error, false));
        self.add_builtin(special("filter", Type::Error, false));
        self.add_builtin(special("reduce", Type::Error, false));
        self.add_builtin(special("any", Type::Bool, false));
        self.add_builtin(special("all", Type::Bool, false));
        self.add_builtin(special("find", Type::Error, false));
        self.add_builtin(special("flat_map", Type::Error, false));
        self.add_builtin(special("zip", Type::Error, false));
        self.add_builtin(special("sort_by", Type::Error, false));
        self.add_builtin(special("enumerate", Type::Error, false));
        self.add_builtin(special("take", Type::Error, false));
        self.add_builtin(special("drop", Type::Error, false));
        self.add_builtin(special("flatten", Type::Error, false));
        self.add_builtin(special("reverse", Type::Error, false));
        self.add_builtin(special("unique", Type::Error, false));
        self.add_builtin(special("count_where", Type::Int, false));
        self.add_builtin(fixed1("sum", Type::List(Box::new(Type::Int)), Type::Int, false));
        self.add_builtin(fixed1("sum_floats", Type::List(Box::new(Type::Float)), Type::Float, false));
    }

    /// Registers the built-in list utilities.
    fn register_list_builtins(&mut self)
        requires
            old(self).wf(),
        ensures
            final(self).wf(),
            final(self).builtins() == spec_list_builtins(old(self).builtins()),
            final(self).declarations_unchanged(*old(self)),
    {
        reveal_with_fuel(type_view, 4);
        self.add_builtin(fixed2("range", Type::Int, Type::Int, Type::List(Box::new(Type::Int)), false));
        self.add_builtin(fixed3("range_step", Type::Int, Type::Int, Type::Int, Type::List(Box::new(Type::Int)), false));
        self.add_builtin(special("first", Type::Error, false));
        self.add_builtin(special("last", Type::Error, false));
        self.add_builtin(special("get", Type::Error, false));
        self.add_builtin(special("list_contains", Type::Bool, false));
        self.add_builtin(special("sort", Type::Error, false));
        self.add_builtin(special("list_slice", Type::Error, false));
        self.add_builtin(special("chunk", Type::Error, false));
        self.add_builtin(special("pop", Type::Error, false));
        self.add_builtin(special("concat", Type::Error, false));
        self.add_builtin(special("take_while", Type::Error, false));
        self.add_builtin(special("drop_while", Type::Error, false));
    }

    /// Registers the built-in I/O functions.
    fn register_io_builtins(&mut self)
        requires
            old(self).wf(),
        ensures
            final(self).wf(),
            final(self).builtins() == spec_io_builtins(old(self).builtins()),
            final(self).declarations_unchanged(*old(self)),
    {
        reveal_with_fuel(type_view, 4);
        self.add_builtin(fixed1("read_file", Type::String, Type::String, true));
        self.add_builtin(fixed2("write_file", Type::String, Type::String, Type::Unit, true));
        self.add_builtin(fixed2("append_file", Type::String, Type::String, Type::Unit, true));
        self.add_builtin(fixed1("file_exists", Type::String, Type::Bool, false));
        self.add_builtin(fixed1("delete_file", Type::String, Type::Unit, true));
        self.add_builtin(fixed1("list_dir", Type::String, Type::List(Box::new(Type::String)), true));
        self.add_builtin(fixed1("make_dir", Type::String, Type::Unit, true));
        self.add_builtin(fixed0("read_line", Type::String, true));
        self.add_builtin(fixed0("read_all", Type::String, true));
        self.add_builtin(special("print_err", Type::Unit, false));
    }

    /// Registers the built-in time functions.
    fn register_time_builtins(&mut self)
        requires
            old(self).wf(),
        ensures
            final(self).wf(),
            final(self).builtins() == spec_time_builtins(old(self).builtins()),
            final(self).declarations_unchanged(*old(self)),
    {
        reveal_with_fuel(type_view, 4);
        self.add_builtin(fixed0("now_ms", Type::Int, false));
        self.add_builtin(fixed0("now_s", Type::Int, false));
        self.add_builtin(fixed2("format_timestamp", Type::Int, Type::String, Type::String, false));
        self.add_builtin(fixed2("parse_timestamp", Type::String, Type::String, Type::Int, true));
    }

    /// Registers the built-in JSON utilities.
    fn register_json_builtins(&mut self)
        requires
            old(self).wf(),
        ensures
            final(self).wf(),
            final(self).builtins() == spec_json_builtins(old(self).builtins()),
            final(self).declarations_unchanged(*old(self)),
    {
        reveal_with_fuel(type_view, 4);
        self.add_builtin(fixed1("json_parse", Type::String, Type::String, true));
        self.add_builtin(fixed2("json_get", Type::String, Type::String, Type::Option(Box::new(Type::String)), false));
        self.add_builtin(fixed2("json_get_int", Type::String, Type::String, Type::Option(Box::new(Type::Int)), false));
        self.add_builtin(fixed2("json_get_float", Type::String, Type::String, Type::Option(Box::new(Type::Float)), false));
        self.add_builtin(fixed2("json_get_bool", Type::String, Type::String, Type::Option(Box::new(Type::Bool)), false));
        self.add_builtin(fixed2("json_get_list", Type::String, Type::String, Type::Option(Box::new(Type::List(Box::new(Type::String)))), false));
        self.add_builtin(special("json_stringify", Type::String, false));
    }

    /// Registers the built-in option utilities.
    fn register_option_builtins(&mut self)
        requires
            old(self).wf(),
        ensures
            final(self).wf(),
            final(self).builtins() == spec_option_builtins(old(self).builtins()),
            final(self).declarations_unchanged(*old(self)),
    {
        reveal_with_fuel(type_view, 4);
        self.add_builtin(special("is_some", Type::Bool, false));
        self.add_builtin(special("is_none", Type::Bool, false));
        self.add_builtin(special("unwrap", Type::Error, false));
        self.add_builtin(special("unwrap_or", Type::Error, false));
        self.add_builtin(special("unwrap_or_else", Type::Error, false));
        self.add_builtin(special("map_option", Type::Error, false));
        self.add_builtin(special("or_option", Type::Error, false));
    }

    /// Registers the built-in assertions.
    fn register_assertion_builtins(&mut self)
        requires
            old(self).wf(),
        ensures
            final(self).wf(),
            final(self).builtins() == spec_assertion_builtins(old(self).builtins()),
            final(self).declarations_unchanged(*old(self)),
    {
        reveal_with_fuel(type_view, 4);
        self.add_builtin(fixed1("assert", Type::Bool, Type::Unit, false));
        self.add_builtin(special("assert_eq", Type::Unit, false));
        self.add_builtin(special("assert_neq", Type::Unit, false));
        self.add_builtin(special("assert_gt", Type::Unit, false));
        self.add_builtin(special("assert_lt", Type::Unit, false));
        self.add_builtin(special("assert_gte", Type::Unit, false));
        self.add_builtin(special("assert_lte", Type::Unit, false));
        self.add_builtin(fixed1("assert_true", Type::Bool, Type::Unit, false));
        self.add_builtin(fixed1("assert_false", Type::Bool, Type::Unit, false));
        self.add_builtin(fixed2("assert_contains", Type::String, Type::String, Type::Unit, false));
        self.add_builtin(fixed2("assert_not_contains", Type::String, Type::String, Type::Unit, false));
        self.add_builtin(fixed1("assert_empty", Type::String, Type::Unit, false));
        self.add_builtin(fixed1("assert_not_empty", Type::String, Type::Unit, false));
        self.add_builtin(fixed2("assert_starts_with", Type::String, Type::String, Type::Unit, false));
        self.add_builtin(fixed2("assert_ends_with", Type::String, Type::String, Type::Unit, false));
        self.add_builtin(special("assert_len", Type::Unit, false));
        self.add_builtin(special("assert_empty_list", Type::Unit, false));
        self.add_builtin(special("assert_not_empty_list", Type::Unit, false));
        self.add_builtin(special("assert_fails", Type::Unit, false));
    }

    /// Register the built-in functions.
    fn register_builtins(&mut self)
        requires
            old(self).wf(),
            old(self).builtins() == Map::<Seq<char>, BuiltinV>::empty(),
        ensures
            final(self).wf(),
            final(self).builtins() == spec_builtins(),
            final(self).declarations_unchanged(*old(self)),
    {
        self.register_core_builtins();
        self.register_string_builtins();
        self.register_math_builtins();
        self.register_parsing_builtins();
        self.register_higher_order_builtins();
        self.register_list_builtins();
        self.register_io_builtins();
        self.register_time_builtins();
        self.register_json_builtins();
        self.register_option_builtins();
        self.register_assertion_builtins();
    }
}


/// The built-in `Option<T>` enum: `Some(T) | None`.
pub open spec fn option_enum_v() -> EnumV {
    EnumV {
        name: "Option"@,
        type_params: seq!["T"@],
        variants: seq![("Some"@, Some(TypeV::TypeParam("T"@))), ("None"@, None)],
        is_pub: true,
        module: Seq::empty(),
    }
}

/// The built-in `Result<T, E>` enum: `Ok(T) | Err(E)`.
pub open spec fn result_enum_v() -> EnumV {
    EnumV {
        name: "Result"@,
        type_params: seq!["T"@, "E"@],
        variants: seq![
            ("Ok"@, Some(TypeV::TypeParam("T"@))),
            ("Err"@, Some(TypeV::TypeParam("E"@))),
        ],
        is_pub: true,
        module: Seq::empty(),
    }
}

/// The models of the built-in enums, by name.
pub open spec fn spec_builtin_enums() -> Map<Seq<char>, EnumV> {
    Map::<Seq<char>, EnumV>::empty().insert("Option"@, option_enum_v()).insert(
        "Result"@,
        result_enum_v(),
    )
}

/// A type parameter reference.
fn type_param(name: &'static str) -> (r: Type)
    ensures
        r@ == TypeV::TypeParam(name@),
{
    Type::TypeParam(String::from_str(name))
}

/// The declaration of `Option<T>`.
fn option_enum() -> (r: EnumInfo)
    ensures
        r@ == option_enum_v(),
{
    let mut type_params: Vec<String> = Vec::new();
    type_params.push(String::from_str("T"));
    let mut variants: Vec<(String, Option<Type>)> = Vec::new();
    variants.push((String::from_str("Some"), Some(type_param("T"))));
    variants.push((String::from_str("None"), None));
    let r = EnumInfo {
        name: String::from_str("Option"),
        type_params,
        variants,
        is_pub: true,
        module: Vec::new(),
    };
    assert(r@.type_params =~= option_enum_v().type_params);
    assert(r@.variants =~= option_enum_v().variants);
    assert(r@.module =~= option_enum_v().module);
    r
}

/// The declaration of `Result<T, E>`.
fn result_enum() -> (r: EnumInfo)
    ensures
        r@ == result_enum_v(),
{
    let mut type_params: Vec<String> = Vec::new();
    type_params.push(String::from_str("T"));
    type_params.push(String::from_str("E"));
    let mut variants: Vec<(String, Option<Type>)> = Vec::new();
    variants.push((String::from_str("Ok"), Some(type_param("T"))));
    variants.push((String::from_str("Err"), Some(type_param("E"))));
    let r = EnumInfo {
        name: String::from_str("Result"),
        type_params,
        variants,
        is_pub: true,
        module: Vec::new(),
    };
    assert(r@.type_params =~= result_enum_v().type_params);
    assert(r@.variants =~= result_enum_v().variants);
    assert(r@.module =~= result_enum_v().module);
    r
}

impl SymbolTable {
    /// The models of the declared enums, by name.
    pub open spec fn enums_view(&self) -> Map<Seq<char>, EnumV> {
        self.enums().map_values(|e: EnumInfo| e@)
    }

    /// Register the built-in enum types (`Option`, `Result`).
    fn register_builtin_enums(&mut self)
        requires
            old(self).wf(),
        ensures
            final(self).wf(),
            old(self).keyed_by_name() ==> final(self).keyed_by_name(),
            final(self).enums_view() == old(self).enums_view().insert("Option"@, option_enum_v()).insert(
                "Result"@,
                result_enum_v(),
            ),
            final(self).builtins() == old(self).builtins(),
            final(self).agents() == old(self).agents(),
            final(self).supervisors() == old(self).supervisors(),
            final(self).protocols() == old(self).protocols(),
            final(self).effect_handlers() == old(self).effect_handlers(),
            final(self).functions() == old(self).functions(),
            final(self).records() == old(self).records(),
            final(self).consts() == old(self).consts(),
    {
        let opt = option_enum();
        let ghost g_opt = opt;
        self.define_enum(opt);
        let res = result_enum();
        let ghost g_res = res;
        self.define_enum(res);
        assert(self.enums() == old(self).enums().insert("Option"@, g_opt).insert("Result"@, g_res));
        assert(self.enums_view() =~= old(self).enums_view().insert("Option"@, option_enum_v()).insert(
            "Result"@,
            result_enum_v(),
        ));
    }

    /// Create a new symbol table holding the built-in functions and enums.
    pub fn new() -> (r: Self)
        ensures
            r.wf(),
            r.builtins() == spec_builtins(),
            r.enums_view() == spec_builtin_enums(),
            r.keyed_by_name(),
            r.agents() == Map::<Seq<char>, crate::scope::AgentInfo>::empty(),
            r.supervisors() == Map::<Seq<char>, crate::scope::SupervisorInfo>::empty(),
            r.protocols() == Map::<Seq<char>, crate::scope::ProtocolInfo>::empty(),
            r.effect_handlers() == Map::<Seq<char>, crate::scope::EffectHandlerInfo>::empty(),
            r.functions() == Map::<Seq<char>, crate::scope::FunctionInfo>::empty(),
            r.records() == Map::<Seq<char>, crate::scope::RecordInfo>::empty(),
            r.consts() == Map::<Seq<char>, crate::scope::ConstInfo>::empty(),
    {
        let mut table = SymbolTable::empty();
        table.register_builtins();
        table.register_builtin_enums();
        assert(table.enums_view() =~= spec_builtin_enums()) by {
            assert(Map::<Seq<char>, EnumInfo>::empty().map_values(|e: EnumInfo| e@) =~= Map::<
                Seq<char>,
                EnumV,
            >::empty());
        }
        table
    }
}

/// The `Result<ok, String>` type that tool functions return.
pub open spec fn tool_result_v(ok: TypeV) -> TypeV {
    TypeV::Res(Box::new(ok), Box::new(TypeV::Str))
}

/// The signature of a tool function with one parameter.
pub open spec fn tool_fn1_v(p: Seq<char>, t: TypeV, ret: TypeV) -> ToolFnV {
    ToolFnV { params: seq![(p, t)], return_ty: ret }
}

/// The signature of a tool function with two parameters.
pub open spec fn tool_fn2_v(p1: Seq<char>, t1: TypeV, p2: Seq<char>, t2: TypeV, ret: TypeV) -> ToolFnV {
    ToolFnV { params: seq![(p1, t1), (p2, t2)], return_ty: ret }
}

/// The built-in `Http` tool.
pub open spec fn http_tool_v() -> ToolV {
    let resp = tool_result_v(TypeV::Named("HttpResponse"@));
    ToolV {
        name: "Http"@,
        functions: Map::<Seq<char>, ToolFnV>::empty().insert(
            "get"@,
            tool_fn1_v("url"@, TypeV::Str, resp),
        ).insert("post"@, tool_fn2_v("url"@, TypeV::Str, "body"@, TypeV::Str, resp)).insert(
            "put"@,
            tool_fn2_v("url"@, TypeV::Str, "body"@, TypeV::Str, resp),
        ).insert("delete"@, tool_fn1_v("url"@, TypeV::Str, resp)),
        is_pub: true,
    }
}

/// The built-in `Fs` (file system) tool.
pub open spec fn fs_tool_v() -> ToolV {
    ToolV {
        name: "Fs"@,
        functions: Map::<Seq<char>, ToolFnV>::empty().insert(
            "read"@,
            tool_fn1_v("path"@, TypeV::Str, tool_result_v(TypeV::Str)),
        ).insert(
            "write"@,
            tool_fn2_v("path"@, TypeV::Str, "content"@, TypeV::Str, tool_result_v(TypeV::Unit)),
        ).insert("exists"@, tool_fn1_v("path"@, TypeV::Str, tool_result_v(TypeV::Bool))).insert(
            "list"@,
            tool_fn1_v("path"@, TypeV::Str, tool_result_v(TypeV::List(Box::new(TypeV::Str)))),
        ).insert("delete"@, tool_fn1_v("path"@, TypeV::Str, tool_result_v(TypeV::Unit))),
        is_pub: true,
    }
}

/// The built-in `Shell` tool.
pub open spec fn shell_tool_v() -> ToolV {
    ToolV {
        name: "Shell"@,
        functions: Map::<Seq<char>, ToolFnV>::empty().insert(
            "run"@,
            tool_fn1_v("command"@, TypeV::Str, tool_result_v(TypeV::Named("ShellResult"@))),
        ),
        is_pub: true,
    }
}

/// The built-in `Database` tool.
pub open spec fn database_tool_v() -> ToolV {
    ToolV {
        name: "Database"@,
        functions: Map::<Seq<char>, ToolFnV>::empty().insert(
            "query"@,
            tool_fn1_v(
                "sql"@,
                TypeV::Str,
                tool_result_v(TypeV::List(Box::new(TypeV::Named("DbRow"@)))),
            ),
        ).insert("execute"@, tool_fn1_v("sql"@, TypeV::Str, tool_result_v(TypeV::Int))),
        is_pub: true,
    }
}

/// The models of the built-in tools, by name.
pub open spec fn spec_builtin_tools() -> Map<Seq<char>, ToolV> {
    Map::<Seq<char>, ToolV>::empty().insert("Http"@, http_tool_v()).insert("Fs"@, fs_tool_v()).insert(
        "Shell"@,
        shell_tool_v(),
    ).insert("Database"@, database_tool_v())
}

/// A user-defined type by name.
fn named(name: &'static str) -> (r: Type)
    ensures
        r@ == TypeV::Named(name@),
{
    Type::Named(String::from_str(name))
}

/// `Result<ok, String>`.
fn tool_result(ok: Type) -> (r: Type)
    ensures
        r@ == tool_result_v(ok@),
{
    reveal_with_fuel(type_view, 2);
    Type::Result(Box::new(ok), Box::new(Type::String))
}

/// A tool function with one parameter.
fn tool_fn1(p: &'static str, t: Type, ret: Type) -> (r: ToolFnInfo)
    ensures
        r@ == tool_fn1_v(p@, t@, ret@),
{
    let mut params: Vec<(String, Type)> = Vec::new();
    params.push((String::from_str(p), t));
    let r = ToolFnInfo { params, return_ty: ret };
    assert(r@.params =~= tool_fn1_v(p@, t@, ret@).params);
    r
}

/// A tool function with two parameters.
fn tool_fn2(p1: &'static str, t1: Type, p2: &'static str, t2: Type, ret: Type) -> (r: ToolFnInfo)
    ensures
        r@ == tool_fn2_v(p1@, t1@, p2@, t2@, ret@),
{
    let mut params: Vec<(String, Type)> = Vec::new();
    params.push((String::from_str(p1), t1));
    params.push((String::from_str(p2), t2));
    let r = ToolFnInfo { params, return_ty: ret };
    assert(r@.params =~= tool_fn2_v(p1@, t1@, p2@, t2@, ret@).params);
    r
}

/// The `Http` tool.
fn http_tool() -> (r: ToolInfo)
    ensures
        r.wf(),
        r@ == http_tool_v(),
{
    let mut fns: NameMap<ToolFnInfo> = NameMap::new();
    fns.insert(String::from_str("get"), tool_fn1("url", Type::String, tool_result(named("HttpResponse"))));
    fns.insert(
        String::from_str("post"),
        tool_fn2("url", Type::String, "body", Type::String, tool_result(named("HttpResponse"))),
    );
    fns.insert(
        String::from_str("put"),
        tool_fn2("url", Type::String, "body", Type::String, tool_result(named("HttpResponse"))),
    );
    fns.insert(String::from_str("delete"), tool_fn1("url", Type::String, tool_result(named("HttpResponse"))));
    let r = ToolInfo { name: String::from_str("Http"), functions: fns, is_pub: true };
    assert(r.functions_view() =~= http_tool_v().functions);
    r
}

/// The `Fs` tool.
fn fs_tool() -> (r: ToolInfo)
    ensures
        r.wf(),
        r@ == fs_tool_v(),
{
    let mut fns: NameMap<ToolFnInfo> = NameMap::new();
    fns.insert(String::from_str("read"), tool_fn1("path", Type::String, tool_result(Type::String)));
    fns.insert(
        String::from_str("write"),
        tool_fn2("path", Type::String, "content", Type::String, tool_result(Type::Unit)),
    );
    fns.insert(String::from_str("exists"), tool_fn1("path", Type::String, tool_result(Type::Bool)));
    let list_of_strings = Type::List(Box::new(Type::String));
    fns.insert(String::from_str("list"), tool_fn1("path", Type::String, tool_result(list_of_strings)));
    fns.insert(String::from_str("delete"), tool_fn1("path", Type::String, tool_result(Type::Unit)));
    let r = ToolInfo { name: String::from_str("Fs"), functions: fns, is_pub: true };
    assert(r.functions_view() =~= fs_tool_v().functions);
    r
}

/// The `Shell` tool.
fn shell_tool() -> (r: ToolInfo)
    ensures
        r.wf(),
        r@ == shell_tool_v(),
{
    let mut fns: NameMap<ToolFnInfo> = NameMap::new();
    fns.insert(String::from_str("run"), tool_fn1("command", Type::String, tool_result(named("ShellResult"))));
    let r = ToolInfo { name: String::from_str("Shell"), functions: fns, is_pub: true };
    assert(r.functions_view() =~= shell_tool_v().functions);
    r
}

/// The `Database` tool.
fn database_tool() -> (r: ToolInfo)
    ensures
        r.wf(),
        r@ == database_tool_v(),
{
    let mut fns: NameMap<ToolFnInfo> = NameMap::new();
    let rows = Type::List(Box::new(named("DbRow")));
    fns.insert(String::from_str("query"), tool_fn1("sql", Type::String, tool_result(rows)));
    fns.insert(String::from_str("execute"), tool_fn1("sql", Type::String, tool_result(Type::Int)));
    let r = ToolInfo { name: String::from_str("Database"), functions: fns, is_pub: true };
    assert(r.functions_view() =~= database_tool_v().functions);
    r
}

impl Scope {
    /// The models of the scope's tools, by name.
    pub open spec fn tools_view(&self) -> Map<Seq<char>, ToolV> {
        self.tools().map_values(|t: ToolInfo| t@)
    }

    /// Create a scope holding the built-in tools (`Http`, `Fs`, `Shell`, `Database`)
    /// and no variables.
    pub fn with_builtins() -> (r: Self)
        ensures
            r.wf(),
            r.variables() == Map::<Seq<char>, Type>::empty(),
            r.tools_view() == spec_builtin_tools(),
    {
        let mut scope = Scope::new();
        let http = http_tool();
        let ghost g1 = http;
        scope.add_tool(http);
        let fs = fs_tool();
        let ghost g2 = fs;
        scope.add_tool(fs);
        let shell = shell_tool();
        let ghost g3 = shell;
        scope.add_tool(shell);
        let db = database_tool();
        let ghost g4 = db;
        scope.add_tool(db);
        assert(scope.tools() == Map::<Seq<char>, ToolInfo>::empty().insert("Http"@, g1).insert(
            "Fs"@,
            g2,
        ).insert("Shell"@, g3).insert("Database"@, g4));
        assert(scope.tools_view() =~= spec_builtin_tools());
        scope
    }
}

} // verus!
