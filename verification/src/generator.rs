//! The Rust code generator's state (the text written so far, its
//! indentation, the string constants and reassigned variables), and the
//! Rust text of Sage types, operators, records and enums, the names derived
//! from types, Rust string escaping, and whether a program needs
//! persistence.

use vstd::prelude::*;
use crate::ast::AgentDecl;
use crate::ast::BinOp;
use crate::ast::Program;
use crate::ast::TypeExpr;
use crate::ast::UnaryOp;

verus! {

// =========================================================================
// Rust types
// =========================================================================

/// The Rust type written for a Sage type.
pub open spec fn type_code(t: TypeExpr) -> Seq<char>
    decreases t,
{
    match t {
        TypeExpr::Int => "i64"@,
        TypeExpr::Float => "f64"@,
        TypeExpr::Bool => "bool"@,
        TypeExpr::String => "String"@,
        TypeExpr::Unit => "()"@,
        TypeExpr::List(inner) => "Vec<"@ + type_code(*inner) + ">"@,
        TypeExpr::Option(inner) => "Option<"@ + type_code(*inner) + ">"@,
        TypeExpr::Oracle(inner) => type_code(*inner),
        TypeExpr::Agent(name) => "AgentHandle<"@ + name.name@ + "Output>"@,
        TypeExpr::Named(name, args) => if args@.len() == 0 {
            name.name@
        } else {
            name.name@ + "<"@ + types_code(args@) + ">"@
        },
        TypeExpr::Error => "sage_runtime::SageError"@,
        TypeExpr::Fn(params, ret) => "Box<dyn Fn("@ + types_code(params@) + ") -> "@ + type_code(*ret)
            + " + Send + 'static>"@,
        TypeExpr::Dict(k, v) => "std::collections::HashMap<"@ + type_code(*k) + ", "@ + type_code(*v) + ">"@,
        TypeExpr::Tuple(elems) => "("@ + types_code(elems@) + ")"@,
        TypeExpr::Result(ok, err) => "Result<"@ + type_code(*ok) + ", "@ + type_code(*err) + ">"@,
    }
}

/// The Rust types of a list of Sage types, separated by `, `.
pub open spec fn types_code(s: Seq<TypeExpr>) -> Seq<char>
    decreases s,
{
    if s.len() == 0 {
        Seq::empty()
    } else if s.len() == 1 {
        type_code(s[0])
    } else {
        types_code(s.drop_last()) + ", "@ + type_code(s.last())
    }
}

/// The indentation of a line `level` levels deep: four spaces a level.
pub open spec fn indentation(level: nat) -> Seq<char>
    decreases level,
{
    if level == 0 {
        Seq::empty()
    } else {
        indentation((level - 1) as nat) + "    "@
    }
}

/// What is written before the first text of a line: its indentation, when
/// nothing has been written on the line yet.
pub open spec fn lead(g: Generator) -> Seq<char> {
    if g.at_line_start() {
        indentation(g.level())
    } else {
        Seq::empty()
    }
}

/// The generated Rust text so far, and the names of the string constants
/// declared so far (a reference to one is written with `.to_string()`).
pub struct Generator {
    out: String,
    string_consts: crate::names::NameSet,
    reassigned: crate::names::NameSet,
    level: usize,
    line_start: bool,
}

impl Generator {
    /// The text written so far.
    pub closed spec fn text(&self) -> Seq<char> {
        self.out@
    }

    /// The names of the string constants declared so far.
    pub closed spec fn string_consts(&self) -> Set<Seq<char>> {
        self.string_consts@
    }

    /// The variables assigned to again in the blocks being written (a `let`
    /// of one is written `let mut`).
    pub closed spec fn reassigned(&self) -> Set<Seq<char>> {
        self.reassigned@
    }

    /// How many levels deep the next line is indented.
    pub closed spec fn level(&self) -> nat {
        self.level as nat
    }

    /// Whether nothing has been written on the current line yet.
    pub closed spec fn at_line_start(&self) -> bool {
        self.line_start
    }

    /// The generator is well formed.
    pub closed spec fn wf(&self) -> bool {
        self.string_consts.wf() && self.reassigned.wf()
    }

    /// A generator that has written nothing.
    pub fn new() -> (r: Self)
        ensures
            r.wf(),
            r.text() == Seq::<char>::empty(),
            r.string_consts() == Set::<Seq<char>>::empty(),
            r.reassigned() == Set::<Seq<char>>::empty(),
            r.level() == 0,
            r.at_line_start(),
    {
        proof {
            reveal_strlit("");
        }
        Generator { out: String::from_str(""), string_consts: crate::names::NameSet::new(), reassigned: crate::names::NameSet::new(), level: 0, line_start: true }
    }

    /// Append text.
    pub fn write(&mut self, s: &str)
        ensures
            final(self).text() == old(self).text() + s@,
            final(self).string_consts() == old(self).string_consts(),
            final(self).reassigned() == old(self).reassigned(),
            final(self).wf() == old(self).wf(),
            final(self).level() == old(self).level(),
            final(self).at_line_start() == old(self).at_line_start(),
    {
        self.out.append(s);
    }

    /// Begin writing on the current line: when nothing has been written on
    /// it yet, write its indentation first.
    pub fn start_line(&mut self)
        ensures
            final(self).text() == old(self).text() + lead(*old(self)),
            !final(self).at_line_start(),
            final(self).level() == old(self).level(),
            final(self).string_consts() == old(self).string_consts(),
            final(self).reassigned() == old(self).reassigned(),
            final(self).wf() == old(self).wf(),
    {
        if self.line_start {
            let ghost t0 = self.text();
            let mut k: usize = 0;
            assert(t0 + indentation(0) =~= t0);
            while k < self.level
                invariant
                    k <= self.level,
                    self.line_start,
                    self.level == old(self).level,
                    self.string_consts == old(self).string_consts,
                    self.reassigned == old(self).reassigned,
                    self.text() == t0 + indentation(k as nat),
                decreases self.level - k,
            {
                self.out.append("    ");
                k = k + 1;
                assert(self.text() =~= t0 + indentation(k as nat));
            }
            self.line_start = false;
        }
    }

    /// Write a text and end the line (the indentation first, when the line
    /// is still empty).
    pub fn writeln(&mut self, s: &str)
        ensures
            final(self).text() == old(self).text() + lead(*old(self)) + s@ + "\n"@,
            final(self).at_line_start(),
            final(self).level() == old(self).level(),
            final(self).string_consts() == old(self).string_consts(),
            final(self).reassigned() == old(self).reassigned(),
            final(self).wf() == old(self).wf(),
    {
        self.start_line();
        self.out.append(s);
        self.out.append("\n");
        self.line_start = true;
        assert(self.text() =~= old(self).text() + lead(*old(self)) + s@ + "\n"@);
    }

    /// Indent the following lines one level deeper.
    pub fn indent(&mut self)
        requires
            old(self).level() < usize::MAX,
        ensures
            final(self).text() == old(self).text(),
            final(self).level() == old(self).level() + 1,
            final(self).at_line_start() == old(self).at_line_start(),
            final(self).string_consts() == old(self).string_consts(),
            final(self).reassigned() == old(self).reassigned(),
            final(self).wf() == old(self).wf(),
    {
        self.level = self.level + 1;
    }

    /// Indent the following lines one level less (not below none).
    pub fn dedent(&mut self)
        ensures
            final(self).text() == old(self).text(),
            final(self).level() == (if old(self).level() > 0 { old(self).level() - 1 } else { 0 }),
            final(self).at_line_start() == old(self).at_line_start(),
            final(self).string_consts() == old(self).string_consts(),
            final(self).reassigned() == old(self).reassigned(),
            final(self).wf() == old(self).wf(),
    {
        if self.level > 0 {
            self.level = self.level - 1;
        }
    }

    /// Record that `name` is a string constant.
    pub fn add_string_const(&mut self, name: String)
        requires
            old(self).wf(),
        ensures
            final(self).wf(),
            final(self).text() == old(self).text(),
            final(self).level() == old(self).level(),
            final(self).at_line_start() == old(self).at_line_start(),
            final(self).string_consts() == old(self).string_consts().insert(name@),
            final(self).reassigned() == old(self).reassigned(),
    {
        self.string_consts.insert(name);
    }

    /// Record that `name` is assigned to again.
    pub fn add_reassigned(&mut self, name: String)
        requires
            old(self).wf(),
        ensures
            final(self).wf(),
            final(self).text() == old(self).text(),
            final(self).level() == old(self).level(),
            final(self).at_line_start() == old(self).at_line_start(),
            final(self).string_consts() == old(self).string_consts(),
            final(self).reassigned() == old(self).reassigned().insert(name@),
    {
        self.reassigned.insert(name);
    }

    /// Whether `name` is assigned to again.
    pub fn is_reassigned(&self, name: &str) -> (r: bool)
        ensures
            r == self.reassigned().contains(name@),
    {
        self.reassigned.contains(name)
    }

    /// Whether `name` is a string constant.
    pub fn is_string_const(&self, name: &str) -> (r: bool)
        ensures
            r == self.string_consts().contains(name@),
    {
        self.string_consts.contains(name)
    }

    /// The text written.
    pub fn finish(self) -> (r: String)
        ensures
            r@ == self.text(),
    {
        self.out
    }

    /// Write the Rust type of a Sage type.
    pub fn emit_type(&mut self, ty: &TypeExpr)
        ensures
            final(self).text() == old(self).text() + type_code(*ty),
            final(self).string_consts() == old(self).string_consts(),
            final(self).reassigned() == old(self).reassigned(),
            final(self).wf() == old(self).wf(),
            final(self).level() == old(self).level(),
            final(self).at_line_start() == old(self).at_line_start(),
        decreases ty,
    {
        let ghost t0 = self.text();
        match ty {
            TypeExpr::Int => self.write("i64"),
            TypeExpr::Float => self.write("f64"),
            TypeExpr::Bool => self.write("bool"),
            TypeExpr::String => self.write("String"),
            TypeExpr::Unit => self.write("()"),
            TypeExpr::List(inner) => {
                self.write("Vec<");
                self.emit_type(inner);
                self.write(">");
                assert(self.text() =~= t0 + type_code(*ty));
            },
            TypeExpr::Option(inner) => {
                self.write("Option<");
                self.emit_type(inner);
                self.write(">");
                assert(self.text() =~= t0 + type_code(*ty));
            },
            TypeExpr::Oracle(inner) => {
                self.emit_type(inner);
            },
            TypeExpr::Agent(agent_name) => {
                self.write("AgentHandle<");
                self.write(agent_name.name.as_str());
                self.write("Output>");
                assert(self.text() =~= t0 + type_code(*ty));
            },
            TypeExpr::Named(name, type_args) => {
                self.write(name.name.as_str());
                if type_args.len() > 0 {
                    self.write("<");
                    self.emit_types(type_args);
                    self.write(">");
                    assert(self.text() =~= t0 + type_code(*ty));
                }
            },
            TypeExpr::Error => self.write("sage_runtime::SageError"),
            TypeExpr::Fn(params, ret) => {
                self.write("Box<dyn Fn(");
                self.emit_types(params);
                self.write(") -> ");
                self.emit_type(ret);
                self.write(" + Send + 'static>");
                assert(self.text() =~= t0 + type_code(*ty));
            },
            TypeExpr::Dict(key, value) => {
                self.write("std::collections::HashMap<");
                self.emit_type(key);
                self.write(", ");
                self.emit_type(value);
                self.write(">");
                assert(self.text() =~= t0 + type_code(*ty));
            },
            TypeExpr::Tuple(elems) => {
                self.write("(");
                self.emit_types(elems);
                self.write(")");
                assert(self.text() =~= t0 + type_code(*ty));
            },
            TypeExpr::Result(ok, err) => {
                self.write("Result<");
                self.emit_type(ok);
                self.write(", ");
                self.emit_type(err);
                self.write(">");
                assert(self.text() =~= t0 + type_code(*ty));
            },
        }
    }

    /// Write the Rust types of a list of Sage types, separated by `, `.
    fn emit_types(&mut self, ts: &Vec<TypeExpr>)
        ensures
            final(self).text() == old(self).text() + types_code(ts@),
            final(self).string_consts() == old(self).string_consts(),
            final(self).reassigned() == old(self).reassigned(),
            final(self).wf() == old(self).wf(),
            final(self).level() == old(self).level(),
            final(self).at_line_start() == old(self).at_line_start(),
        decreases ts,
    {
        let ghost t0 = self.text();
        let n = ts.len();
        assert(ts@.subrange(0, 0) =~= Seq::<TypeExpr>::empty());
        assert(t0 + Seq::<char>::empty() =~= t0);
        for i in 0..n
            invariant
                n == ts@.len(),
                self.text() == t0 + types_code(ts@.subrange(0, i as int)),
                self.string_consts() == old(self).string_consts(),
                self.reassigned() == old(self).reassigned(),
                self.wf() == old(self).wf(),
                self.level() == old(self).level(),
                self.at_line_start() == old(self).at_line_start(),
        {
            let ghost pre = ts@.subrange(0, i as int);
            let ghost post = ts@.subrange(0, i + 1);
            assert(post.drop_last() =~= pre);
            assert(post.last() == ts@[i as int]);
            assert(decreases_to!(ts => ts@[i as int]));
            if i > 0 {
                self.write(", ");
            }
            self.emit_type(&ts[i]);
            if i == 0 {
                assert(post =~= seq![ts@[0]]);
                assert(self.text() =~= t0 + types_code(post));
            } else {
                assert(self.text() =~= t0 + types_code(post));
            }
        }
        assert(ts@.subrange(0, n as int) =~= ts@);
    }

    /// Write a binary operator (`++` is written by the caller as string
    /// concatenation).
    pub fn emit_binop(&mut self, op: &BinOp)
        ensures
            final(self).text() == old(self).text() + binop_code(*op),
            final(self).string_consts() == old(self).string_consts(),
            final(self).reassigned() == old(self).reassigned(),
            final(self).wf() == old(self).wf(),
            final(self).level() == old(self).level(),
            final(self).at_line_start() == old(self).at_line_start(),
    {
        let s = match op {
            BinOp::Add => "+",
            BinOp::Sub => "-",
            BinOp::Mul => "*",
            BinOp::Div => "/",
            BinOp::Eq => "==",
            BinOp::Ne => "!=",
            BinOp::Lt => "<",
            BinOp::Gt => ">",
            BinOp::Le => "<=",
            BinOp::Ge => ">=",
            BinOp::And => "&&",
            BinOp::Or => "||",
            BinOp::Concat => "++",
        };
        self.write(s);
    }

    /// Write a unary operator.
    pub fn emit_unaryop(&mut self, op: &UnaryOp)
        ensures
            final(self).text() == old(self).text() + unaryop_code(*op),
            final(self).string_consts() == old(self).string_consts(),
            final(self).reassigned() == old(self).reassigned(),
            final(self).wf() == old(self).wf(),
            final(self).level() == old(self).level(),
            final(self).at_line_start() == old(self).at_line_start(),
    {
        let s = match op {
            UnaryOp::Neg => "-",
            UnaryOp::Not => "!",
        };
        self.write(s);
    }
}

/// The Rust text of a binary operator.
pub open spec fn binop_code(op: BinOp) -> Seq<char> {
    match op {
        BinOp::Add => "+"@,
        BinOp::Sub => "-"@,
        BinOp::Mul => "*"@,
        BinOp::Div => "/"@,
        BinOp::Eq => "=="@,
        BinOp::Ne => "!="@,
        BinOp::Lt => "<"@,
        BinOp::Gt => ">"@,
        BinOp::Le => "<="@,
        BinOp::Ge => ">="@,
        BinOp::And => "&&"@,
        BinOp::Or => "||"@,
        BinOp::Concat => "++"@,
    }
}

/// The Rust text of a unary operator.
pub open spec fn unaryop_code(op: UnaryOp) -> Seq<char> {
    match op {
        UnaryOp::Neg => "-"@,
        UnaryOp::Not => "!"@,
    }
}

// =========================================================================
// Records and enums
// =========================================================================

/// The indentation of a line inside a top-level item's braces.
pub open spec fn indent_unit() -> Seq<char> {
    "    "@
}

/// The field lines of a generated struct.
pub open spec fn fields_code(fs: Seq<crate::ast::RecordField>) -> Seq<char>
    decreases fs.len(),
{
    if fs.len() == 0 {
        Seq::empty()
    } else {
        fields_code(fs.drop_last()) + indent_unit() + fs.last().name.name@ + ": "@ + type_code(fs.last().ty) + ",\n"@
    }
}

/// The Rust struct generated for a record declaration, at the top level.
pub open spec fn record_code(r: crate::ast::RecordDecl) -> Seq<char> {
    (if r.is_pub {
        "pub "@
    } else {
        Seq::empty()
    }) + "#[derive(Debug, Clone, serde::Serialize, serde::Deserialize)]\n"@ + "struct "@ + r.name.name@ + " {\n"@
        + fields_code(r.fields@) + "}\n"@
}

/// The variant lines of a generated enum.
pub open spec fn variants_code(vs: Seq<crate::ast::EnumVariant>) -> Seq<char>
    decreases vs.len(),
{
    if vs.len() == 0 {
        Seq::empty()
    } else {
        variants_code(vs.drop_last()) + indent_unit() + vs.last().name.name@ + match vs.last().payload {
            Some(t) => "("@ + type_code(t) + ")"@,
            None => Seq::empty(),
        } + ",\n"@
    }
}

/// The Rust enum generated for an enum declaration, at the top level.
pub open spec fn enum_code(e: crate::ast::EnumDecl) -> Seq<char> {
    (if e.is_pub {
        "pub "@
    } else {
        Seq::empty()
    }) + "#[derive(Debug, Clone, Copy, PartialEq, Eq)]\n"@ + "enum "@ + e.name.name@ + " {\n"@ + variants_code(
        e.variants@,
    ) + "}\n"@
}

impl Generator {
    /// Write the struct of a record declaration, at the top level.
    pub fn generate_record(&mut self, record: &crate::ast::RecordDecl)
        ensures
            final(self).text() == old(self).text() + record_code(*record),
    {
        proof {
            reveal_strlit("");
        }
        let ghost t0 = self.text();
        if record.is_pub {
            self.write("pub ");
        }
        self.write("#[derive(Debug, Clone, serde::Serialize, serde::Deserialize)]\n");
        self.write("struct ");
        self.write(record.name.name.as_str());
        self.write(" {\n");
        let ghost t1 = self.text();
        let fs = &record.fields;
        let n = fs.len();
        assert(fs@.subrange(0, 0) =~= Seq::<crate::ast::RecordField>::empty());
        assert(t1 + Seq::<char>::empty() =~= t1);
        for i in 0..n
            invariant
                n == fs@.len(),
                self.text() == t1 + fields_code(fs@.subrange(0, i as int)),
        {
            assert(fs@.subrange(0, i + 1).drop_last() =~= fs@.subrange(0, i as int));
            assert(fs@.subrange(0, i + 1).last() == fs@[i as int]);
            let f = &fs[i];
            self.write("    ");
            self.write(f.name.name.as_str());
            self.write(": ");
            self.emit_type(&f.ty);
            self.write(",\n");
            assert(self.text() =~= t1 + fields_code(fs@.subrange(0, i + 1)));
        }
        assert(fs@.subrange(0, n as int) =~= fs@);
        self.write("}\n");
        assert(self.text() =~= t0 + record_code(*record));
    }

    /// Write the enum of an enum declaration, at the top level.
    pub fn generate_enum(&mut self, decl: &crate::ast::EnumDecl)
        ensures
            final(self).text() == old(self).text() + enum_code(*decl),
    {
        proof {
            reveal_strlit("");
        }
        let ghost t0 = self.text();
        if decl.is_pub {
            self.write("pub ");
        }
        self.write("#[derive(Debug, Clone, Copy, PartialEq, Eq)]\n");
        self.write("enum ");
        self.write(decl.name.name.as_str());
        self.write(" {\n");
        let ghost t1 = self.text();
        let vs = &decl.variants;
        let n = vs.len();
        assert(vs@.subrange(0, 0) =~= Seq::<crate::ast::EnumVariant>::empty());
        assert(t1 + Seq::<char>::empty() =~= t1);
        for i in 0..n
            invariant
                n == vs@.len(),
                self.text() == t1 + variants_code(vs@.subrange(0, i as int)),
        {
            assert(vs@.subrange(0, i + 1).drop_last() =~= vs@.subrange(0, i as int));
            assert(vs@.subrange(0, i + 1).last() == vs@[i as int]);
            let v = &vs[i];
            let ghost before = self.text();
            self.write("    ");
            self.write(v.name.name.as_str());
            if let Some(payload_ty) = &v.payload {
                self.write("(");
                self.emit_type(payload_ty);
                self.write(")");
            }
            self.write(",\n");
            assert(self.text() =~= t1 + variants_code(vs@.subrange(0, i + 1)));
        }
        assert(vs@.subrange(0, n as int) =~= vs@);
        self.write("}\n");
        assert(self.text() =~= t0 + enum_code(*decl));
    }
}

// =========================================================================
// Names derived from types
// =========================================================================

/// The variant name a type gets in a protocol's state enum.
pub open spec fn state_type_name(t: TypeExpr) -> Seq<char> {
    match t {
        TypeExpr::Int => "Int"@,
        TypeExpr::Float => "Float"@,
        TypeExpr::String => "String"@,
        TypeExpr::Bool => "Bool"@,
        TypeExpr::Unit => "Unit"@,
        TypeExpr::Named(ident, _) => ident.name@,
        TypeExpr::List(_) => "List"@,
        TypeExpr::Dict(_, _) => "Map"@,
        TypeExpr::Option(_) => "Option"@,
        TypeExpr::Result(_, _) => "Result"@,
        TypeExpr::Oracle(_) => "Oracle"@,
        TypeExpr::Agent(_) => "Agent"@,
        TypeExpr::Tuple(_) => "Tuple"@,
        TypeExpr::Fn(_, _) => "Fn"@,
        TypeExpr::Error => "Error"@,
    }
}

/// Get the type name as a string (for state generation).
pub fn type_name_for_state(ty: &TypeExpr) -> (r: String)
    ensures
        r@ == state_type_name(*ty),
{
    match ty {
        TypeExpr::Int => String::from_str("Int"),
        TypeExpr::Float => String::from_str("Float"),
        TypeExpr::String => String::from_str("String"),
        TypeExpr::Bool => String::from_str("Bool"),
        TypeExpr::Unit => String::from_str("Unit"),
        TypeExpr::Named(ident, _) => ident.name.clone(),
        TypeExpr::List(_) => String::from_str("List"),
        TypeExpr::Dict(_, _) => String::from_str("Map"),
        TypeExpr::Option(_) => String::from_str("Option"),
        TypeExpr::Result(_, _) => String::from_str("Result"),
        TypeExpr::Oracle(_) => String::from_str("Oracle"),
        TypeExpr::Agent(_) => String::from_str("Agent"),
        TypeExpr::Tuple(_) => String::from_str("Tuple"),
        TypeExpr::Fn(_, _) => String::from_str("Fn"),
        TypeExpr::Error => String::from_str("Error"),
    }
}

/// The base name of a type, used to derive method names from message types:
/// `List<Int>` is `ListInt`, `Map<K, V>` is `MapKToV`, a tuple joins its
/// element names after `Tuple`, `Result<T, E>` is `ResultTOrE`.
pub open spec fn type_base_name(t: TypeExpr) -> Seq<char>
    decreases t,
{
    match t {
        TypeExpr::Int => "Int"@,
        TypeExpr::Float => "Float"@,
        TypeExpr::Bool => "Bool"@,
        TypeExpr::String => "String"@,
        TypeExpr::Unit => "Unit"@,
        TypeExpr::Named(name, _) => name.name@,
        TypeExpr::List(inner) => "List"@ + type_base_name(*inner),
        TypeExpr::Option(inner) => "Option"@ + type_base_name(*inner),
        TypeExpr::Oracle(inner) => type_base_name(*inner),
        TypeExpr::Agent(name) => name.name@,
        TypeExpr::Error => "Error"@,
        TypeExpr::Dict(k, v) => "Map"@ + type_base_name(*k) + "To"@ + type_base_name(*v),
        TypeExpr::Fn(_, _) => "Fn"@,
        TypeExpr::Tuple(elems) => "Tuple"@ + type_base_names(elems@),
        TypeExpr::Result(ok, err) => "Result"@ + type_base_name(*ok) + "Or"@ + type_base_name(*err),
    }
}

/// The base names of a list of types, joined with nothing between them.
pub open spec fn type_base_names(s: Seq<TypeExpr>) -> Seq<char>
    decreases s,
{
    if s.len() == 0 {
        Seq::empty()
    } else {
        type_base_names(s.drop_last()) + type_base_name(s.last())
    }
}

/// The base names of a list of types, joined with nothing between them.
fn type_names_joined(elems: &Vec<TypeExpr>) -> (r: String)
    ensures
        r@ == type_base_names(elems@),
    decreases elems,
{
    proof {
        reveal_strlit("");
    }
    let mut r = String::from_str("");
    let n = elems.len();
    assert(elems@.subrange(0, 0) =~= Seq::<TypeExpr>::empty());
    for i in 0..n
        invariant
            n == elems@.len(),
            r@ == type_base_names(elems@.subrange(0, i as int)),
    {
        assert(elems@.subrange(0, i + 1).drop_last() =~= elems@.subrange(0, i as int));
        assert(decreases_to!(elems => elems@[i as int]));
        let s = type_expr_to_string(&elems[i]);
        r.append(s.as_str());
        assert(r@ =~= type_base_names(elems@.subrange(0, i + 1)));
    }
    assert(elems@.subrange(0, n as int) =~= elems@);
    r
}

/// Convert a type to its base type name.
pub fn type_expr_to_string(ty: &TypeExpr) -> (r: String)
    ensures
        r@ == type_base_name(*ty),
    decreases ty,
{
    match ty {
        TypeExpr::Int => String::from_str("Int"),
        TypeExpr::Float => String::from_str("Float"),
        TypeExpr::Bool => String::from_str("Bool"),
        TypeExpr::String => String::from_str("String"),
        TypeExpr::Unit => String::from_str("Unit"),
        TypeExpr::Named(name, _) => name.name.clone(),
        TypeExpr::List(inner) => {
            let mut r = String::from_str("List");
            let s = type_expr_to_string(inner);
            r.append(s.as_str());
            r
        },
        TypeExpr::Option(inner) => {
            let mut r = String::from_str("Option");
            let s = type_expr_to_string(inner);
            r.append(s.as_str());
            r
        },
        TypeExpr::Oracle(inner) => type_expr_to_string(inner),
        TypeExpr::Agent(name) => name.name.clone(),
        TypeExpr::Error => String::from_str("Error"),
        TypeExpr::Dict(k, v) => {
            let mut r = String::from_str("Map");
            let ks = type_expr_to_string(k);
            r.append(ks.as_str());
            r.append("To");
            let vs = type_expr_to_string(v);
            r.append(vs.as_str());
            r
        },
        TypeExpr::Fn(_, _) => String::from_str("Fn"),
        TypeExpr::Tuple(elems) => {
            let mut r = String::from_str("Tuple");
            let names = type_names_joined(elems);
            r.append(names.as_str());
            r
        },
        TypeExpr::Result(ok, err) => {
            let mut r = String::from_str("Result");
            let os = type_expr_to_string(ok);
            r.append(os.as_str());
            r.append("Or");
            let es = type_expr_to_string(err);
            r.append(es.as_str());
            r
        },
    }
}

// =========================================================================
// Rust string literals
// =========================================================================

/// A control character (Unicode general category `Cc`).
pub open spec fn is_control(c: char) -> bool {
    (c as u32) <= 0x1f || (0x7f <= (c as u32) && (c as u32) <= 0x9f)
}

/// A lowercase hexadecimal digit.
pub open spec fn hex_digit(d: u32) -> char {
    if d < 10 {
        (('0' as u32) + d) as char
    } else {
        (('a' as u32) + d - 10) as char
    }
}

/// How a character is written inside a Rust string literal.
pub open spec fn escape_char(c: char) -> Seq<char> {
    if c == '"' {
        seq!['\\', '"']
    } else if c == '\\' {
        seq!['\\', '\\']
    } else if c == '\n' {
        seq!['\\', 'n']
    } else if c == '\r' {
        seq!['\\', 'r']
    } else if c == '\t' {
        seq!['\\', 't']
    } else if is_control(c) {
        seq!['\\', 'x', hex_digit((c as u32) / 16), hex_digit((c as u32) % 16)]
    } else {
        seq![c]
    }
}

/// A text with each character escaped for a Rust string literal.
pub open spec fn escaped(s: Seq<char>) -> Seq<char>
    decreases s.len(),
{
    if s.len() == 0 {
        Seq::empty()
    } else {
        escaped(s.drop_last()) + escape_char(s.last())
    }
}

/// Escape a text for a Rust string literal: quotes, backslashes, newlines,
/// carriage returns and tabs get their escapes, other control characters a
/// `\x` escape with two lowercase hex digits.
pub fn escape_string_for_rust(s: &str) -> (r: String)
    ensures
        r@ == escaped(s@),
{
    proof {
        reveal_strlit("");
        reveal_strlit("0123456789abcdef");
    }
    let hex = "0123456789abcdef";
    let mut out = String::from_str("");
    let n = s.unicode_len();
    let mut i: usize = 0;
    while i < n
        invariant
            n == s@.len(),
            i <= n,
            hex@ == "0123456789abcdef"@,
            hex@.len() == 16,
            forall|d: int| 0 <= d < 16 ==> #[trigger] hex@[d] == hex_digit(d as u32),
            out@ == escaped(s@.subrange(0, i as int)),
        decreases n - i,
    {
        assert(s@.subrange(0, i + 1).drop_last() =~= s@.subrange(0, i as int));
        let c = s.get_char(i);
        let ghost o0 = out@;
        let code = c as u32;
        proof {
            reveal_strlit("\\\"");
            reveal_strlit("\\\\");
            reveal_strlit("\\n");
            reveal_strlit("\\r");
            reveal_strlit("\\t");
            reveal_strlit("\\x");
        }
        if c == '"' {
            out.append("\\\"");
        } else if c == '\\' {
            out.append("\\\\");
        } else if c == '\n' {
            out.append("\\n");
        } else if c == '\r' {
            out.append("\\r");
        } else if c == '\t' {
            out.append("\\t");
        } else if code <= 0x1f || (0x7f <= code && code <= 0x9f) {
            out.append("\\x");
            let hi = (code / 16) as usize;
            let lo = (code % 16) as usize;
            let h = hex.substring_char(hi, hi + 1);
            let l = hex.substring_char(lo, lo + 1);
            assert(h@ =~= seq![hex_digit(code / 16)]);
            assert(l@ =~= seq![hex_digit(code % 16)]);
            out.append(h);
            out.append(l);
            assert(is_control(c));
        } else {
            let one = s.substring_char(i, i + 1);
            assert(one@ =~= seq![c]);
            assert(!is_control(c));
            out.append(one);
        }
        assert(out@ =~= o0 + escape_char(c));
        i = i + 1;
    }
    assert(s@.subrange(0, n as int) =~= s@);
    out
}

// =========================================================================
// Checkpoint stores, message types, expression types
// =========================================================================

/// The expression that opens the checkpoint store of a persistence backend,
/// as a line.
pub open spec fn checkpoint_store_code(b: crate::codegen::PersistenceBackend) -> Seq<char> {
    match b {
        crate::codegen::PersistenceBackend::Memory => "sage_runtime::persistence::MemoryCheckpointStore::new()\n"@,
        crate::codegen::PersistenceBackend::Sqlite { path } => "sage_runtime::persistence::SyncSqliteStore::open(\""@
            + path@ + "\").expect(\"Failed to open checkpoint database\")\n"@,
        crate::codegen::PersistenceBackend::Postgres { url } => "sage_runtime::persistence::SyncPostgresStore::connect(\""@
            + url@ + "\").expect(\"Failed to connect to checkpoint database\")\n"@,
        crate::codegen::PersistenceBackend::File { path } => "sage_runtime::persistence::SyncFileStore::open(\""@
            + path@ + "\").expect(\"Failed to open checkpoint directory\")\n"@,
    }
}

impl Generator {
    /// Write the expression that opens the configured checkpoint store.
    pub fn emit_checkpoint_store_init(&mut self, backend: &crate::codegen::PersistenceBackend)
        ensures
            final(self).text() == old(self).text() + checkpoint_store_code(*backend),
    {
        let ghost t0 = self.text();
        match backend {
            crate::codegen::PersistenceBackend::Memory => {
                self.write("sage_runtime::persistence::MemoryCheckpointStore::new()\n");
            },
            crate::codegen::PersistenceBackend::Sqlite { path } => {
                self.write("sage_runtime::persistence::SyncSqliteStore::open(\"");
                self.write(path.as_str());
                self.write("\").expect(\"Failed to open checkpoint database\")\n");
                assert(self.text() =~= t0 + checkpoint_store_code(*backend));
            },
            crate::codegen::PersistenceBackend::Postgres { url } => {
                self.write("sage_runtime::persistence::SyncPostgresStore::connect(\"");
                self.write(url.as_str());
                self.write("\").expect(\"Failed to connect to checkpoint database\")\n");
                assert(self.text() =~= t0 + checkpoint_store_code(*backend));
            },
            crate::codegen::PersistenceBackend::File { path } => {
                self.write("sage_runtime::persistence::SyncFileStore::open(\"");
                self.write(path.as_str());
                self.write("\").expect(\"Failed to open checkpoint directory\")\n");
                assert(self.text() =~= t0 + checkpoint_store_code(*backend));
            },
        }
    }
}

/// Whether a call names a test assertion built-in (the generator writes
/// those as Rust assertions).
pub fn is_assertion_builtin(name: &str) -> (r: bool)
    ensures
        r == crate::scope::test_assertion_names().contains(name@),
{
    crate::scope::is_test_assertion_name(name)
}

/// The type name of a message expression, when it can be read off the
/// expression: a record construction's record, a variant's enum, through
/// parentheses.
pub open spec fn message_type_name(e: crate::ast::Expr) -> Option<Seq<char>>
    decreases e,
{
    match e {
        crate::ast::Expr::RecordConstruct { name, .. } => Some(name.name@),
        crate::ast::Expr::VariantConstruct { enum_name, .. } => Some(enum_name.name@),
        crate::ast::Expr::Paren { inner, .. } => message_type_name(*inner),
        _ => None,
    }
}

/// Extract the type name from a message expression, if it can be read off.
pub fn extract_message_type_name(expr: &crate::ast::Expr) -> (r: Option<String>)
    ensures
        match message_type_name(*expr) {
            Some(n) => r is Some && r->0@ == n,
            None => r is None,
        },
    decreases expr,
{
    match expr {
        crate::ast::Expr::RecordConstruct { name, .. } => Some(name.name.clone()),
        crate::ast::Expr::VariantConstruct { enum_name, .. } => Some(enum_name.name.clone()),
        crate::ast::Expr::Paren { inner, .. } => extract_message_type_name(inner),
        _ => None,
    }
}

/// The type name of an expression, for protocol checks on replies: a
/// record construction's record, a variant's enum, a variable's name, else
/// `Message`.
pub open spec fn expr_type_name(e: crate::ast::Expr) -> Seq<char> {
    match e {
        crate::ast::Expr::RecordConstruct { name, .. } => name.name@,
        crate::ast::Expr::VariantConstruct { enum_name, .. } => enum_name.name@,
        crate::ast::Expr::Var { name, .. } => name.name@,
        _ => "Message"@,
    }
}

/// Infer the type name of an expression.
pub fn infer_expr_type_name(expr: &crate::ast::Expr) -> (r: String)
    ensures
        r@ == expr_type_name(*expr),
{
    match expr {
        crate::ast::Expr::RecordConstruct { name, .. } => name.name.clone(),
        crate::ast::Expr::VariantConstruct { enum_name, .. } => enum_name.name.clone(),
        crate::ast::Expr::Var { name, .. } => name.name.clone(),
        _ => String::from_str("Message"),
    }
}

/// The Rust type guessed for an expression: from a literal, comparisons are
/// `bool`, `++` is `String`, `infer` and interpolated strings are `String`,
/// `str(..)` is `String`, `len(..)` and anything else `i64`.
pub open spec fn expr_rust_type(e: crate::ast::Expr) -> Seq<char> {
    match e {
        crate::ast::Expr::Literal { value, .. } => match value {
            crate::ast::Literal::Int(_) => "i64"@,
            crate::ast::Literal::Float(_) => "f64"@,
            crate::ast::Literal::Bool(_) => "bool"@,
            crate::ast::Literal::String(_) => "String"@,
        },
        crate::ast::Expr::Binary { op, .. } => match op {
            BinOp::Eq | BinOp::Ne | BinOp::Lt | BinOp::Gt | BinOp::Le | BinOp::Ge => "bool"@,
            BinOp::Concat => "String"@,
            _ => "i64"@,
        },
        crate::ast::Expr::Infer { .. } => "String"@,
        crate::ast::Expr::StringInterp { .. } => "String"@,
        crate::ast::Expr::Call { name, .. } => if name.name@ == "str"@ {
            "String"@
        } else {
            "i64"@
        },
        _ => "i64"@,
    }
}

/// Infer the Rust type of an expression.
pub fn infer_expr_type(expr: &crate::ast::Expr) -> (r: String)
    ensures
        r@ == expr_rust_type(*expr),
{
    match expr {
        crate::ast::Expr::Literal { value, .. } => match value {
            crate::ast::Literal::Int(_) => String::from_str("i64"),
            crate::ast::Literal::Float(_) => String::from_str("f64"),
            crate::ast::Literal::Bool(_) => String::from_str("bool"),
            crate::ast::Literal::String(_) => String::from_str("String"),
        },
        crate::ast::Expr::Binary { op, .. } => match op {
            BinOp::Eq | BinOp::Ne | BinOp::Lt | BinOp::Gt | BinOp::Le | BinOp::Ge => String::from_str("bool"),
            BinOp::Concat => String::from_str("String"),
            _ => String::from_str("i64"),
        },
        crate::ast::Expr::Infer { .. } => String::from_str("String"),
        crate::ast::Expr::StringInterp { .. } => String::from_str("String"),
        crate::ast::Expr::Call { name, .. } => if crate::text::str_eq(name.name.as_str(), "str") {
            String::from_str("String")
        } else {
            String::from_str("i64")
        },
        _ => String::from_str("i64"),
    }
}

// =========================================================================
// Persistence
// =========================================================================

/// Some agent of the program has a `@persistent` belief.
pub open spec fn needs_persistence(p: Program) -> bool {
    exists|i: int, j: int|
        0 <= i < p.agents@.len() && 0 <= j < p.agents@[i].beliefs@.len() && #[trigger] p.agents@[i].beliefs@[j].is_persistent
}

/// Whether an agent has a `@persistent` belief.
fn agent_has_persistent(a: &AgentDecl) -> (r: bool)
    ensures
        r == exists|j: int| 0 <= j < a.beliefs@.len() && #[trigger] a.beliefs@[j].is_persistent,
{
    let n = a.beliefs.len();
    for j in 0..n
        invariant
            n == a.beliefs@.len(),
            forall|k: int| 0 <= k < j ==> !(#[trigger] a.beliefs@[k].is_persistent),
    {
        if a.beliefs[j].is_persistent {
            return true;
        }
    }
    false
}

/// Whether some agent of the program has a `@persistent` belief.
pub fn has_persistent_fields(program: &Program) -> (r: bool)
    ensures
        r == needs_persistence(*program),
{
    let n = program.agents.len();
    for i in 0..n
        invariant
            n == program.agents@.len(),
            forall|k: int, j: int|
                0 <= k < i && 0 <= j < program.agents@[k].beliefs@.len() ==> !(#[trigger] program.agents@[k].beliefs@[j].is_persistent),
    {
        if agent_has_persistent(&program.agents[i]) {
            return true;
        }
    }
    false
}

} // verus!
