//! The Rust text of Sage function and constant declarations.

use vstd::prelude::*;
use crate::ast::ConstDecl;
use crate::ast::Expr;
use crate::ast::FnDecl;
use crate::ast::Literal;
use crate::ast::Param;
use crate::ast::TypeExpr;
use crate::exprgen::expr_code;
use crate::exprgen::plain_expr;
use crate::exprgen::expr_depth;
use crate::generator::Generator;
use crate::generator::escaped;
use crate::generator::lead;
use crate::generator::type_code;
use crate::stmtgen::block_assigns;
use crate::stmtgen::block_code;
use crate::stmtgen::block_depth;
use crate::stmtgen::plain_block;

verus! {

/// A function's parameters `name: Type`, separated by `, `.
pub open spec fn params_code(ps: Seq<Param>) -> Seq<char>
    decreases ps.len(),
{
    if ps.len() == 0 {
        Seq::empty()
    } else {
        params_code(ps.drop_last()) + (if ps.len() > 1 {
            ", "@
        } else {
            Seq::empty()
        }) + ps.last().name.name@ + ": "@ + type_code(ps.last().ty)
    }
}

/// The Rust function written for a function declaration `level` levels
/// deep, with the reassigned variables `r` (those of its body included) and
/// the string constants `c`: a fallible function returns `SageResult<T>`.
pub open spec fn function_code(c: Set<Seq<char>>, r: Set<Seq<char>>, level: nat, f: FnDecl) -> Seq<char> {
    function_header(f) + block_code(c, r, level, f.body, false)
}

/// A function's signature, up to its body.
pub open spec fn function_header(f: FnDecl) -> Seq<char> {
    (if f.is_pub {
        "pub "@
    } else {
        Seq::empty()
    }) + "fn "@ + f.name.name@ + "("@ + params_code(f.params@) + ") -> "@ + (if f.is_fallible {
        "SageResult<"@ + type_code(f.return_ty) + ">"@
    } else {
        type_code(f.return_ty)
    }) + " "@
}

/// Whether a constant is a string constant (written as `&'static str`).
pub open spec fn is_string_const(d: ConstDecl) -> bool {
    d.ty is String
}

/// The text of a string literal expression.
pub open spec fn string_literal(e: Expr) -> Option<Seq<char>> {
    match e {
        Expr::Literal { value: Literal::String(s), .. } => Some(s@),
        _ => None,
    }
}

/// The Rust constant written for a constant declaration, given the string
/// constants `c` (this one included when it is a string constant).
pub open spec fn const_code(c: Set<Seq<char>>, lv: nat, d: ConstDecl) -> Seq<char> {
    (if d.is_pub {
        "pub "@
    } else {
        Seq::empty()
    }) + "const "@ + d.name.name@ + ": "@ + (if is_string_const(d) {
        "&'static str"@
    } else {
        type_code(d.ty)
    }) + " = "@ + (if is_string_const(d) && string_literal(d.value) is Some {
        "\""@ + escaped(string_literal(d.value)->0) + "\""@
    } else {
        expr_code(c, lv, d.value)
    }) + ";\n"@
}

impl Generator {
    /// Write a function's parameters.
    fn emit_params(&mut self, ps: &Vec<Param>)
        ensures
            final(self).text() == old(self).text() + params_code(ps@),
            final(self).string_consts() == old(self).string_consts(),
            final(self).reassigned() == old(self).reassigned(),
            final(self).wf() == old(self).wf(),
            final(self).level() == old(self).level(),
            final(self).at_line_start() == old(self).at_line_start(),
    {
        let ghost t0 = self.text();
        let n = ps.len();
        assert(ps@.subrange(0, 0) =~= Seq::<Param>::empty());
        assert(t0 + Seq::<char>::empty() =~= t0);
        for i in 0..n
            invariant
                n == ps@.len(),
                self.text() == t0 + params_code(ps@.subrange(0, i as int)),
                self.string_consts() == old(self).string_consts(),
                self.reassigned() == old(self).reassigned(),
                self.wf() == old(self).wf(),
                self.level() == old(self).level(),
                self.at_line_start() == old(self).at_line_start(),
        {
            assert(ps@.subrange(0, i + 1).drop_last() =~= ps@.subrange(0, i as int));
            assert(ps@.subrange(0, i + 1).last() == ps@[i as int]);
            proof {
                reveal_strlit("");
            }
            let ghost before = self.text();
            if i > 0 {
                self.write(", ");
            }
            let ghost mid = self.text();
            assert(mid =~= before + (if i > 0 { ", "@ } else { Seq::<char>::empty() }));
            let p = &ps[i];
            self.write(p.name.name.as_str());
            self.write(": ");
            self.emit_type(&p.ty);
            assert(self.text() =~= t0 + params_code(ps@.subrange(0, i + 1)));
        }
        assert(ps@.subrange(0, n as int) =~= ps@);
    }

    /// Write a function declaration; the variables its body assigns to
    /// become reassigned.
    #[verifier::spinoff_prover]
    #[verifier::rlimit(100)]
    pub fn generate_function(&mut self, func: &FnDecl)
        requires
            old(self).wf(),
            plain_block(func.body),
            old(self).level() + 1 + block_depth(func.body) < usize::MAX,
        ensures
            final(self).reassigned() == old(self).reassigned() + block_assigns(func.body),
            final(self).text() == old(self).text() + lead(*old(self)) + function_code(
                old(self).string_consts(),
                final(self).reassigned(),
                old(self).level(),
                *func,
            ),
            final(self).at_line_start(),
            final(self).wf(),
            final(self).level() == old(self).level(),
            final(self).string_consts() == old(self).string_consts(),
    {
        proof {
            reveal_strlit("");
            reveal_strlit("{");
            reveal_strlit("\n");
            reveal_strlit("{\n");
            reveal_strlit("}");
            reveal_strlit("}\n");
        }
        let ghost t0 = self.text();
        self.start_line();
        let ghost t1 = self.text();
        if func.is_pub {
            self.write("pub ");
        }
        self.write("fn ");
        self.write(func.name.name.as_str());
        self.write("(");
        self.emit_params(&func.params);
        self.write(") -> ");
        if func.is_fallible {
            self.write("SageResult<");
            self.emit_type(&func.return_ty);
            self.write(">");
        } else {
            self.emit_type(&func.return_ty);
        }
        self.write(" ");
        let ghost t2 = self.text();
        assert(t2 =~= t1 + function_header(*func));
        self.writeln("{");
        self.indent();
        self.generate_block_contents(&func.body);
        self.dedent();
        self.writeln("}");
        let ghost r = self.reassigned();
        assert(self.text() =~= t2 + block_code(old(self).string_consts(), r, old(self).level(), func.body, false));
    }

    /// Write a constant declaration; a string constant is declared
    /// `&'static str` (its string literal written without `.to_string()`)
    /// and recorded, so that references to it are turned into `String`s.
    pub fn generate_const(&mut self, decl: &ConstDecl)
        requires
            old(self).wf(),
            plain_expr(decl.value),
            old(self).level() + expr_depth(decl.value) < usize::MAX,
        ensures
            final(self).string_consts() == (if is_string_const(*decl) {
                old(self).string_consts().insert(decl.name.name@)
            } else {
                old(self).string_consts()
            }),
            final(self).text() == old(self).text() + lead(*old(self)) + const_code(final(self).string_consts(), old(self).level(), *decl),
            final(self).at_line_start(),
            final(self).wf(),
            final(self).level() == old(self).level(),
            final(self).reassigned() == old(self).reassigned(),
    {
        proof {
            reveal_strlit("");
            reveal_strlit(";");
            reveal_strlit("\n");
            reveal_strlit(";\n");
        }
        let ghost t0 = self.text();
        self.start_line();
        if decl.is_pub {
            self.write("pub ");
        }
        self.write("const ");
        self.write(decl.name.name.as_str());
        self.write(": ");
        let is_string = matches!(decl.ty, TypeExpr::String);
        if is_string {
            self.add_string_const(decl.name.name.clone());
            self.write("&'static str");
        } else {
            self.emit_type(&decl.ty);
        }
        self.write(" = ");
        let ghost t1 = self.text();
        let ghost c = self.string_consts();
        let mut literal = false;
        if is_string {
            if let Expr::Literal { value: Literal::String(text), .. } = &decl.value {
                self.write("\"");
                let e = crate::generator::escape_string_for_rust(text.as_str());
                self.write(e.as_str());
                self.write("\"");
                literal = true;
            }
        }
        if !literal {
            self.generate_expr(&decl.value);
        }
        let ghost t2 = self.text();
        assert(t2 =~= t1 + (if is_string_const(*decl) && string_literal(decl.value) is Some {
            "\""@ + escaped(string_literal(decl.value)->0) + "\""@
        } else {
            expr_code(c, old(self).level(), decl.value)
        }));
        self.writeln(";");
        assert(self.text() =~= t0 + lead(*old(self)) + const_code(c, old(self).level(), *decl));
    }
}

} // verus!
