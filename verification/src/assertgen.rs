//! The Rust assertions written for the test assertion built-ins.

use vstd::prelude::*;
use crate::ast::Expr;
use crate::exprgen::CodePiece;
use crate::exprgen::arg_codes;
use crate::exprgen::args_fit;
use crate::exprgen::lemma_plain_exprs;
use crate::scope::test_assertion_names;
use crate::exprgen::expr_code;
use crate::exprgen::exprs_depth;
use crate::exprgen::plain_exprs;
use crate::exprgen::template_fill;
use crate::generator::Generator;
use crate::generator::indentation;
use crate::generator::lead;

verus! {

/// How a test assertion other than `assert_fails` is written: the text
/// that opens it, how many arguments it needs, the template of those
/// arguments, and the text that closes it.
pub open spec fn assertion_form(name: Seq<char>) -> Option<(Seq<char>, nat, Seq<CodePiece>, Seq<char>)> {
    if name == "assert"@ {
        Some(("assert!("@, 1nat, seq![CodePiece::Arg(0)], ");"@))
    } else if name == "assert_true"@ {
        Some(("assert!("@, 1nat, seq![CodePiece::Arg(0)], ");"@))
    } else if name == "assert_false"@ {
        Some(("assert!(!"@, 1nat, seq![CodePiece::Arg(0)], ");"@))
    } else if name == "assert_eq"@ {
        Some(("assert_eq!("@, 2nat, seq![CodePiece::Arg(0), CodePiece::Text(", "), CodePiece::Arg(1)], ");"@))
    } else if name == "assert_neq"@ {
        Some(("assert_ne!("@, 2nat, seq![CodePiece::Arg(0), CodePiece::Text(", "), CodePiece::Arg(1)], ");"@))
    } else if name == "assert_gt"@ {
        Some(("assert!("@, 2nat, seq![CodePiece::Arg(0), CodePiece::Text(" > "), CodePiece::Arg(1)], ");"@))
    } else if name == "assert_lt"@ {
        Some(("assert!("@, 2nat, seq![CodePiece::Arg(0), CodePiece::Text(" < "), CodePiece::Arg(1)], ");"@))
    } else if name == "assert_gte"@ {
        Some(("assert!("@, 2nat, seq![CodePiece::Arg(0), CodePiece::Text(" >= "), CodePiece::Arg(1)], ");"@))
    } else if name == "assert_lte"@ {
        Some(("assert!("@, 2nat, seq![CodePiece::Arg(0), CodePiece::Text(" <= "), CodePiece::Arg(1)], ");"@))
    } else if name == "assert_contains"@ {
        Some(("assert!("@, 2nat, seq![CodePiece::Arg(0), CodePiece::Text(".contains(&"), CodePiece::Arg(1), CodePiece::Text(")")], ");"@))
    } else if name == "assert_not_contains"@ {
        Some(("assert!(!"@, 2nat, seq![CodePiece::Arg(0), CodePiece::Text(".contains(&"), CodePiece::Arg(1), CodePiece::Text(")")], ");"@))
    } else if name == "assert_empty"@ {
        Some(("assert!("@, 1nat, seq![CodePiece::Arg(0)], ".is_empty());"@))
    } else if name == "assert_not_empty"@ {
        Some(("assert!(!"@, 1nat, seq![CodePiece::Arg(0)], ".is_empty());"@))
    } else if name == "assert_starts_with"@ {
        Some(("assert!("@, 2nat, seq![CodePiece::Arg(0), CodePiece::Text(".starts_with(&"), CodePiece::Arg(1), CodePiece::Text(")")], ");"@))
    } else if name == "assert_ends_with"@ {
        Some(("assert!("@, 2nat, seq![CodePiece::Arg(0), CodePiece::Text(".ends_with(&"), CodePiece::Arg(1), CodePiece::Text(")")], ");"@))
    } else if name == "assert_len"@ {
        Some(("assert_eq!("@, 2nat, seq![CodePiece::Arg(0), CodePiece::Text(".len() as i64, "), CodePiece::Arg(1)], ");"@))
    } else if name == "assert_empty_list"@ {
        Some(("assert!("@, 1nat, seq![CodePiece::Arg(0)], ".is_empty());"@))
    } else if name == "assert_not_empty_list"@ {
        Some(("assert!(!"@, 1nat, seq![CodePiece::Arg(0)], ".is_empty());"@))
    } else {
        None
    }
}

/// The Rust statement written for a test assertion `level` levels deep,
/// from the start of its line: the opening, the arguments' template when
/// the call has the arguments it needs, and the close; `assert_fails` runs
/// its argument in a block and asserts that it failed.
pub open spec fn assertion_code(c: Set<Seq<char>>, level: nat, name: Seq<char>, args: Seq<Expr>) -> Seq<char> {
    match assertion_form(name) {
        Some((open, need, body, close)) => open + (if args.len() >= need {
            template_fill(body, arg_codes(c, level, args))
        } else {
            Seq::empty()
        }) + close + "\n"@,
        None => assert_fails_code(c, level, args),
    }
}

/// The block written for `assert_fails`: its argument is run, and the
/// result asserted to be an error.
pub open spec fn assert_fails_code(c: Set<Seq<char>>, level: nat, args: Seq<Expr>) -> Seq<char> {
    "{"@ + "\n"@ + indentation(level + 1) + "let result = "@ + (if args.len() > 0 {
        expr_code(c, level + 1, args[0])
    } else {
        Seq::empty()
    }) + ";"@ + "\n"@ + indentation(level + 1)
        + "assert!(result.is_err(), \"Expected operation to fail but it succeeded\");"@ + "\n"@
        + indentation(level) + "}"@ + "\n"@
}

/// The form of a test assertion, when it has one.
fn assertion_form_of(name: &str) -> (r: Option<(&'static str, usize, Vec<CodePiece>, &'static str)>)
    ensures
        match assertion_form(name@) {
            Some((open, need, body, close)) => r matches Some((o, k, b, e)) && o@ == open && k == need && b@ == body
                && e@ == close,
            None => r is None,
        },
{
    if crate::text::str_eq(name, "assert") {
        return Some(("assert!(", 1, vec![CodePiece::Arg(0)], ");"));
    }
    if crate::text::str_eq(name, "assert_true") {
        return Some(("assert!(", 1, vec![CodePiece::Arg(0)], ");"));
    }
    if crate::text::str_eq(name, "assert_false") {
        return Some(("assert!(!", 1, vec![CodePiece::Arg(0)], ");"));
    }
    if crate::text::str_eq(name, "assert_eq") {
        return Some(("assert_eq!(", 2, vec![CodePiece::Arg(0), CodePiece::Text(", "), CodePiece::Arg(1)], ");"));
    }
    if crate::text::str_eq(name, "assert_neq") {
        return Some(("assert_ne!(", 2, vec![CodePiece::Arg(0), CodePiece::Text(", "), CodePiece::Arg(1)], ");"));
    }
    if crate::text::str_eq(name, "assert_gt") {
        return Some(("assert!(", 2, vec![CodePiece::Arg(0), CodePiece::Text(" > "), CodePiece::Arg(1)], ");"));
    }
    if crate::text::str_eq(name, "assert_lt") {
        return Some(("assert!(", 2, vec![CodePiece::Arg(0), CodePiece::Text(" < "), CodePiece::Arg(1)], ");"));
    }
    if crate::text::str_eq(name, "assert_gte") {
        return Some(("assert!(", 2, vec![CodePiece::Arg(0), CodePiece::Text(" >= "), CodePiece::Arg(1)], ");"));
    }
    if crate::text::str_eq(name, "assert_lte") {
        return Some(("assert!(", 2, vec![CodePiece::Arg(0), CodePiece::Text(" <= "), CodePiece::Arg(1)], ");"));
    }
    if crate::text::str_eq(name, "assert_contains") {
        return Some(("assert!(", 2, vec![CodePiece::Arg(0), CodePiece::Text(".contains(&"), CodePiece::Arg(1), CodePiece::Text(")")], ");"));
    }
    if crate::text::str_eq(name, "assert_not_contains") {
        return Some(("assert!(!", 2, vec![CodePiece::Arg(0), CodePiece::Text(".contains(&"), CodePiece::Arg(1), CodePiece::Text(")")], ");"));
    }
    if crate::text::str_eq(name, "assert_empty") {
        return Some(("assert!(", 1, vec![CodePiece::Arg(0)], ".is_empty());"));
    }
    if crate::text::str_eq(name, "assert_not_empty") {
        return Some(("assert!(!", 1, vec![CodePiece::Arg(0)], ".is_empty());"));
    }
    if crate::text::str_eq(name, "assert_starts_with") {
        return Some(("assert!(", 2, vec![CodePiece::Arg(0), CodePiece::Text(".starts_with(&"), CodePiece::Arg(1), CodePiece::Text(")")], ");"));
    }
    if crate::text::str_eq(name, "assert_ends_with") {
        return Some(("assert!(", 2, vec![CodePiece::Arg(0), CodePiece::Text(".ends_with(&"), CodePiece::Arg(1), CodePiece::Text(")")], ");"));
    }
    if crate::text::str_eq(name, "assert_len") {
        return Some(("assert_eq!(", 2, vec![CodePiece::Arg(0), CodePiece::Text(".len() as i64, "), CodePiece::Arg(1)], ");"));
    }
    if crate::text::str_eq(name, "assert_empty_list") {
        return Some(("assert!(", 1, vec![CodePiece::Arg(0)], ".is_empty());"));
    }
    if crate::text::str_eq(name, "assert_not_empty_list") {
        return Some(("assert!(!", 1, vec![CodePiece::Arg(0)], ".is_empty());"));
    }
    None
}


proof fn lemma_forms_fit(name: Seq<char>)
    ensures
        assertion_form(name) matches Some((_, need, body, _)) ==> args_fit(body, need),
{
}

impl Generator {
    /// Write `assert_fails`: a block that runs its argument and asserts
    /// that the result is an error.
    #[verifier::spinoff_prover]
    fn generate_assert_fails(&mut self, args: &Vec<Expr>)
        requires
            plain_exprs(args@),
            old(self).level() + 1 + exprs_depth(args@) < usize::MAX,
        ensures
            final(self).text() == old(self).text() + lead(*old(self)) + assert_fails_code(
                old(self).string_consts(),
                old(self).level(),
                args@,
            ),
            final(self).string_consts() == old(self).string_consts(),
            final(self).reassigned() == old(self).reassigned(),
            final(self).wf() == old(self).wf(),
            final(self).level() == old(self).level(),
            final(self).at_line_start(),
    {
        proof {
            reveal_strlit("{");
            reveal_strlit("\n");
            reveal_strlit("}");
            reveal_strlit(";");
            reveal_strlit("");
        }
        let ghost t0 = self.text();
        let ghost c = self.string_consts();
        let ghost lv = self.level();
        self.writeln("{");
        self.indent();
        self.start_line();
        self.write("let result = ");
        if args.len() > 0 {
            proof {
                lemma_plain_exprs(args@, 0);
            }
            self.generate_expr(&args[0]);
        }
        self.writeln(";");
        self.writeln("assert!(result.is_err(), \"Expected operation to fail but it succeeded\");");
        self.dedent();
        self.writeln("}");
        assert(self.text() =~= t0 + lead(*old(self)) + assert_fails_code(c, lv, args@));
    }

    /// Write a test assertion as a Rust assertion statement.
    #[verifier::spinoff_prover]
    #[verifier::rlimit(50)]
    pub fn generate_assertion(&mut self, name: &str, args: &Vec<Expr>)
        requires
            test_assertion_names().contains(name@),
            plain_exprs(args@),
            old(self).level() + 1 + exprs_depth(args@) < usize::MAX,
        ensures
            final(self).text() == old(self).text() + lead(*old(self)) + assertion_code(
                old(self).string_consts(),
                old(self).level(),
                name@,
                args@,
            ),
            final(self).string_consts() == old(self).string_consts(),
            final(self).reassigned() == old(self).reassigned(),
            final(self).wf() == old(self).wf(),
            final(self).level() == old(self).level(),
            final(self).at_line_start(),
    {
        let ghost t0 = self.text();
        let ghost c = self.string_consts();
        let ghost lv = self.level();
        proof {
            lemma_forms_fit(name@);
        }
        match assertion_form_of(name) {
            Some((open, need, body, close)) => {
                self.start_line();
                self.write(open);
                let ghost t1 = self.text();
                if args.len() >= need {
                    assert(args_fit(body@, args@.len()));
                    self.generate_template(&body, args);
                }
                let ghost t2 = self.text();
                assert(t2 =~= t1 + (if args@.len() >= need {
                    template_fill(body@, arg_codes(c, lv, args@))
                } else {
                    Seq::<char>::empty()
                }));
                self.writeln(close);
                assert(self.text() =~= t0 + lead(*old(self)) + assertion_code(c, lv, name@, args@));
            },
            None => {
                self.generate_assert_fails(args);
            },
        }
    }
}

} // verus!
