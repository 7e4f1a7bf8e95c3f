//! The Rust text of Sage patterns, statements and blocks.

use vstd::prelude::*;
use crate::ast::Block;
use crate::ast::ElseBranch;
use crate::ast::Expr;
use crate::ast::Ident;
use crate::ast::Pattern;
use crate::ast::Stmt;
use crate::exprgen::expr_code;
use crate::exprgen::literal_code;
use crate::exprgen::plain_expr;
use crate::assertgen::assertion_code;
use crate::exprgen::expr_depth;
use crate::exprgen::max_nat;
use crate::generator::Generator;
use crate::generator::indentation;
use crate::generator::type_code;
use crate::scope::test_assertion_names;

verus! {

// =========================================================================
// Patterns
// =========================================================================

/// The Rust text of a pattern.
pub open spec fn pattern_code(p: Pattern) -> Seq<char>
    decreases p, 1int,
{
    match p {
        Pattern::Wildcard { .. } => "_"@,
        Pattern::Binding { name, .. } => name.name@,
        Pattern::Variant { enum_name, variant, payload, .. } => (match enum_name {
            Some(e) => e.name@ + "::"@,
            None => Seq::empty(),
        }) + variant.name@ + match payload {
            Some(inner) => "("@ + pattern_code(*inner) + ")"@,
            None => Seq::empty(),
        },
        Pattern::Literal { value, .. } => literal_code(value),
        Pattern::Tuple { elements, .. } => "("@ + patterns_code(elements@) + ")"@,
    }
}

/// Patterns separated by `, `.
pub open spec fn patterns_code(ps: Seq<Pattern>) -> Seq<char>
    decreases ps, 0int,
{
    if ps.len() == 0 {
        Seq::empty()
    } else {
        patterns_code(ps.drop_last()) + (if ps.len() > 1 {
            ", "@
        } else {
            Seq::empty()
        }) + pattern_code(ps.last())
    }
}

// =========================================================================
// Statements: what is written
// =========================================================================

/// The names a statement assigns to, at any depth of its blocks.
pub open spec fn stmt_assigns(st: Stmt) -> Set<Seq<char>>
    decreases st, 2int,
{
    match st {
        Stmt::Assign { name, .. } => set![name.name@],
        Stmt::If { then_block, else_block, .. } => block_assigns(then_block) + match else_block {
            None => Set::empty(),
            Some(ElseBranch::Block(b)) => block_assigns(b),
            Some(ElseBranch::ElseIf(inner)) => stmt_assigns(*inner),
        },
        Stmt::For { body, .. } => block_assigns(body),
        Stmt::While { body, .. } => block_assigns(body),
        Stmt::Loop { body, .. } => block_assigns(body),
        _ => Set::empty(),
    }
}

/// The names a block assigns to.
pub open spec fn block_assigns(b: Block) -> Set<Seq<char>>
    decreases b, 1int,
{
    stmts_assigns(b.stmts@)
}

/// The names a list of statements assigns to.
pub open spec fn stmts_assigns(ss: Seq<Stmt>) -> Set<Seq<char>>
    decreases ss, 0int,
{
    if ss.len() == 0 {
        Set::empty()
    } else {
        stmts_assigns(ss.drop_last()) + stmt_assigns(ss.last())
    }
}

/// Whether the statement generator writes a statement on its own: every
/// expression in it is plain.
pub open spec fn plain_stmt(st: Stmt) -> bool
    decreases st, 2int,
{
    match st {
        Stmt::Let { value, .. } => plain_expr(value),
        Stmt::Assign { value, .. } => plain_expr(value),
        Stmt::Return { value, .. } => match value {
            Some(e) => plain_expr(e),
            None => true,
        },
        Stmt::If { condition, then_block, else_block, .. } => plain_expr(condition) && plain_block(then_block)
            && match else_block {
            None => true,
            Some(ElseBranch::Block(b)) => plain_block(b),
            Some(ElseBranch::ElseIf(inner)) => plain_stmt(*inner),
        },
        Stmt::For { iter, body, .. } => plain_expr(iter) && plain_block(body),
        Stmt::While { condition, body, .. } => plain_expr(condition) && plain_block(body),
        Stmt::Loop { body, .. } => plain_block(body),
        Stmt::Break { .. } => true,
        Stmt::Expr { expr, .. } => match expr {
            Expr::Emit { value, .. } => plain_expr(*value),
            _ => plain_expr(expr),
        },
        Stmt::LetTuple { value, .. } => plain_expr(value),
    }
}

/// Every statement of a block is plain.
pub open spec fn plain_block(b: Block) -> bool
    decreases b, 1int,
{
    plain_stmts(b.stmts@)
}

/// Every statement of the list is plain.
pub open spec fn plain_stmts(ss: Seq<Stmt>) -> bool
    decreases ss, 0int,
{
    if ss.len() == 0 {
        true
    } else {
        plain_stmts(ss.drop_last()) && plain_stmt(ss.last())
    }
}

/// The indentation written before a statement `level` levels deep: all of
/// it at the start of a line, none in the middle of one.
pub open spec fn lead_at(line_start: bool, level: nat) -> Seq<char> {
    if line_start {
        indentation(level)
    } else {
        Seq::empty()
    }
}

/// Names separated by `, `.
pub open spec fn names_code(ns: Seq<Ident>) -> Seq<char>
    decreases ns.len(),
{
    if ns.len() == 0 {
        Seq::empty()
    } else {
        names_code(ns.drop_last()) + (if ns.len() > 1 {
            ", "@
        } else {
            Seq::empty()
        }) + ns.last().name@
    }
}

/// The Rust text of a statement `level` levels deep, given the string
/// constants `c` and the reassigned variables `r` (which a `let` declares
/// `mut`); `line_start` tells whether the line is still empty.
pub open spec fn stmt_code(c: Set<Seq<char>>, r: Set<Seq<char>>, level: nat, line_start: bool, st: Stmt) -> Seq<char>
    decreases st, 2int,
{
    lead_at(line_start, level) + match st {
        Stmt::Let { name, ty, value, .. } => (if r.contains(name.name@) {
            "let mut "@
        } else {
            "let "@
        }) + name.name@ + (match ty {
            Some(t) => ": "@ + type_code(t),
            None => Seq::empty(),
        }) + " = "@ + expr_code(c, level, value) + ";\n"@,
        Stmt::Assign { name, value, .. } => name.name@ + " = "@ + expr_code(c, level, value) + ";\n"@,
        Stmt::Return { value, .. } => "return "@ + (match value {
            Some(e) => expr_code(c, level, e),
            None => Seq::empty(),
        }) + ";\n"@,
        Stmt::If { condition, then_block, else_block, .. } => "if "@ + expr_code(c, level, condition) + " "@
            + match else_block {
            None => block_code(c, r, level, then_block, false),
            Some(ElseBranch::Block(b)) => block_code(c, r, level, then_block, true) + " else "@ + block_code(
                c,
                r,
                level,
                b,
                false,
            ),
            Some(ElseBranch::ElseIf(inner)) => block_code(c, r, level, then_block, true) + " else "@ + stmt_code(
                c,
                r,
                level,
                false,
                *inner,
            ),
        },
        Stmt::For { pattern, iter, body, .. } => "for "@ + pattern_code(pattern) + " in "@ + expr_code(c, level, iter) + " "@
            + block_code(c, r, level, body, false),
        Stmt::While { condition, body, .. } => "while "@ + expr_code(c, level, condition) + " "@ + block_code(
            c,
            r,
            level,
            body,
            false,
        ),
        Stmt::Loop { body, .. } => "loop "@ + block_code(c, r, level, body, false),
        Stmt::Break { .. } => "break;\n"@,
        Stmt::Expr { expr, .. } => match expr {
            Expr::Emit { value, .. } => "return ctx.emit("@ + expr_code(c, level, *value) + ");\n"@,
            Expr::Call { name, args, .. } => if test_assertion_names().contains(name.name@) {
                assertion_code(c, level, name.name@, args@)
            } else {
                expr_code(c, level, expr) + ";\n"@
            },
            _ => expr_code(c, level, expr) + ";\n"@,
        },
        Stmt::LetTuple { names, value, .. } => "let ("@ + names_code(names@) + ") = "@ + expr_code(c, level, value)
            + ";\n"@,
    }
}

/// The Rust text of a block opened in the middle of a line `level` levels
/// deep: `{`, its statements one level deeper, and `}` on a line of its
/// own, ending the line unless `inline`.
pub open spec fn block_code(c: Set<Seq<char>>, r: Set<Seq<char>>, level: nat, b: Block, inline: bool) -> Seq<char>
    decreases b, 1int,
{
    "{\n"@ + stmts_code(c, r, level + 1, b.stmts@) + indentation(level) + if inline {
        "}"@
    } else {
        "}\n"@
    }
}

/// Statements, each on lines of its own `level` levels deep.
pub open spec fn stmts_code(c: Set<Seq<char>>, r: Set<Seq<char>>, level: nat, ss: Seq<Stmt>) -> Seq<char>
    decreases ss, 0int,
{
    if ss.len() == 0 {
        Seq::empty()
    } else {
        stmts_code(c, r, level, ss.drop_last()) + stmt_code(c, r, level, true, ss.last())
    }
}


/// How deeply the lines inside a statement nest: blocks, and the arms of
/// the `match` expressions in it.
pub open spec fn stmt_depth(st: Stmt) -> nat
    decreases st, 2int,
{
    match st {
        Stmt::Let { value, .. } => expr_depth(value),
        Stmt::Assign { value, .. } => expr_depth(value),
        Stmt::Return { value, .. } => match value {
            Some(e) => expr_depth(e),
            None => 0,
        },
        Stmt::If { condition, then_block, else_block, .. } => {
            let t = max_nat(expr_depth(condition), 1 + block_depth(then_block));
            let e = match else_block {
                None => 0,
                Some(ElseBranch::Block(b)) => 1 + block_depth(b),
                Some(ElseBranch::ElseIf(inner)) => stmt_depth(*inner),
            };
            max_nat(t, e)
        },
        Stmt::For { iter, body, .. } => max_nat(expr_depth(iter), 1 + block_depth(body)),
        Stmt::While { condition, body, .. } => max_nat(expr_depth(condition), 1 + block_depth(body)),
        Stmt::Loop { body, .. } => 1 + block_depth(body),
        Stmt::Break { .. } => 0,
        Stmt::Expr { expr, .. } => match expr {
            Expr::Call { name, .. } => if test_assertion_names().contains(name.name@) {
                1 + expr_depth(expr)
            } else {
                expr_depth(expr)
            },
            _ => expr_depth(expr),
        },
        Stmt::LetTuple { value, .. } => expr_depth(value),
    }
}

/// How deeply blocks nest inside a block's statements.
pub open spec fn block_depth(b: Block) -> nat
    decreases b, 1int,
{
    stmts_depth(b.stmts@)
}

/// How deeply blocks nest inside a list of statements.
pub open spec fn stmts_depth(ss: Seq<Stmt>) -> nat
    decreases ss, 0int,
{
    if ss.len() == 0 {
        0
    } else {
        let a = stmts_depth(ss.drop_last());
        let b = stmt_depth(ss.last());
        if a >= b {
            a
        } else {
            b
        }
    }
}

// =========================================================================
// Statements: writing them
// =========================================================================

proof fn lemma_stmts_parts(ss: Seq<Stmt>, i: int)
    requires
        0 <= i < ss.len(),
    ensures
        stmt_depth(ss[i]) <= stmts_depth(ss),
        stmt_assigns(ss[i]).subset_of(stmts_assigns(ss)),
        plain_stmts(ss) ==> plain_stmt(ss[i]),
    decreases ss.len(),
{
    if i < ss.len() - 1 {
        lemma_stmts_parts(ss.drop_last(), i);
    }
}

proof fn lemma_patterns(ps: Seq<Pattern>, i: int)
    requires
        0 <= i < ps.len(),
    ensures
        decreases_to!(ps => ps[i]),
{
}

impl Generator {
    /// Write a pattern.
    pub fn emit_pattern(&mut self, p: &Pattern)
        ensures
            final(self).text() == old(self).text() + pattern_code(*p),
            final(self).string_consts() == old(self).string_consts(),
            final(self).reassigned() == old(self).reassigned(),
            final(self).wf() == old(self).wf(),
            final(self).level() == old(self).level(),
            final(self).at_line_start() == old(self).at_line_start(),
        decreases p, 1int,
    {
        let ghost t0 = self.text();
        match p {
            Pattern::Wildcard { .. } => {
                self.write("_");
            },
            Pattern::Binding { name, .. } => {
                self.write(name.name.as_str());
            },
            Pattern::Variant { enum_name, variant, payload, .. } => {
                if let Some(e) = enum_name {
                    self.write(e.name.as_str());
                    self.write("::");
                }
                self.write(variant.name.as_str());
                if let Some(inner) = payload {
                    self.write("(");
                    self.emit_pattern(inner);
                    self.write(")");
                }
                proof {
                    reveal_strlit("");
                }
                assert(self.text() =~= t0 + pattern_code(*p));
            },
            Pattern::Literal { value, .. } => {
                self.emit_literal(value);
            },
            Pattern::Tuple { elements, .. } => {
                self.write("(");
                self.emit_patterns(elements);
                self.write(")");
                assert(self.text() =~= t0 + pattern_code(*p));
            },
        }
    }

    /// Write patterns separated by `, `.
    fn emit_patterns(&mut self, ps: &Vec<Pattern>)
        ensures
            final(self).text() == old(self).text() + patterns_code(ps@),
            final(self).string_consts() == old(self).string_consts(),
            final(self).reassigned() == old(self).reassigned(),
            final(self).wf() == old(self).wf(),
            final(self).level() == old(self).level(),
            final(self).at_line_start() == old(self).at_line_start(),
        decreases ps, 0int,
    {
        let ghost t0 = self.text();
        let n = ps.len();
        assert(ps@.subrange(0, 0) =~= Seq::<Pattern>::empty());
        assert(t0 + Seq::<char>::empty() =~= t0);
        for i in 0..n
            invariant
                n == ps@.len(),
                self.text() == t0 + patterns_code(ps@.subrange(0, i as int)),
                self.string_consts() == old(self).string_consts(),
                self.reassigned() == old(self).reassigned(),
                self.wf() == old(self).wf(),
                self.level() == old(self).level(),
                self.at_line_start() == old(self).at_line_start(),
        {
            assert(ps@.subrange(0, i + 1).drop_last() =~= ps@.subrange(0, i as int));
            assert(ps@.subrange(0, i + 1).last() == ps@[i as int]);
            assert(decreases_to!(ps => ps@[i as int]));
            proof {
                reveal_strlit("");
            }
            let ghost before = self.text();
            if i > 0 {
                self.write(", ");
            }
            let ghost mid = self.text();
            assert(mid =~= before + (if i > 0 { ", "@ } else { Seq::<char>::empty() }));
            self.emit_pattern(&ps[i]);
            assert(self.text() =~= t0 + patterns_code(ps@.subrange(0, i + 1)));
        }
        assert(ps@.subrange(0, n as int) =~= ps@);
    }

    /// Record the names a statement assigns to as reassigned.
    fn collect_reassigned_vars_stmt(&mut self, st: &Stmt)
        requires
            old(self).wf(),
        ensures
            final(self).wf(),
            final(self).reassigned() == old(self).reassigned() + stmt_assigns(*st),
            final(self).text() == old(self).text(),
            final(self).string_consts() == old(self).string_consts(),
            final(self).level() == old(self).level(),
            final(self).at_line_start() == old(self).at_line_start(),
        decreases st, 2int,
    {
        match st {
            Stmt::Assign { name, .. } => {
                self.add_reassigned(name.name.clone());
                assert(self.reassigned() =~= old(self).reassigned() + stmt_assigns(*st));
            },
            Stmt::If { then_block, else_block, .. } => {
                self.collect_reassigned_vars(then_block);
                match else_block {
                    None => {},
                    Some(ElseBranch::Block(b)) => {
                        self.collect_reassigned_vars(b);
                    },
                    Some(ElseBranch::ElseIf(inner)) => {
                        self.collect_reassigned_vars_stmt(inner);
                    },
                }
                assert(self.reassigned() =~= old(self).reassigned() + stmt_assigns(*st));
            },
            Stmt::For { body, .. } => {
                self.collect_reassigned_vars(body);
            },
            Stmt::While { body, .. } => {
                self.collect_reassigned_vars(body);
            },
            Stmt::Loop { body, .. } => {
                self.collect_reassigned_vars(body);
            },
            _ => {
                assert(self.reassigned() =~= old(self).reassigned() + stmt_assigns(*st));
            },
        }
    }

    /// Record the names a block assigns to as reassigned.
    pub fn collect_reassigned_vars(&mut self, b: &Block)
        requires
            old(self).wf(),
        ensures
            final(self).wf(),
            final(self).reassigned() == old(self).reassigned() + block_assigns(*b),
            final(self).text() == old(self).text(),
            final(self).string_consts() == old(self).string_consts(),
            final(self).level() == old(self).level(),
            final(self).at_line_start() == old(self).at_line_start(),
        decreases b, 1int,
    {
        self.collect_reassigned_stmts(&b.stmts);
    }

    /// Record the names a list of statements assigns to as reassigned.
    fn collect_reassigned_stmts(&mut self, ss: &Vec<Stmt>)
        requires
            old(self).wf(),
        ensures
            final(self).wf(),
            final(self).reassigned() == old(self).reassigned() + stmts_assigns(ss@),
            final(self).text() == old(self).text(),
            final(self).string_consts() == old(self).string_consts(),
            final(self).level() == old(self).level(),
            final(self).at_line_start() == old(self).at_line_start(),
        decreases ss, 0int,
    {
        let n = ss.len();
        assert(ss@.subrange(0, 0) =~= Seq::<Stmt>::empty());
        assert(old(self).reassigned() + Set::<Seq<char>>::empty() =~= old(self).reassigned());
        for i in 0..n
            invariant
                n == ss@.len(),
                self.wf(),
                self.reassigned() == old(self).reassigned() + stmts_assigns(ss@.subrange(0, i as int)),
                self.text() == old(self).text(),
                self.string_consts() == old(self).string_consts(),
                self.level() == old(self).level(),
                self.at_line_start() == old(self).at_line_start(),
        {
            assert(ss@.subrange(0, i + 1).drop_last() =~= ss@.subrange(0, i as int));
            assert(ss@.subrange(0, i + 1).last() == ss@[i as int]);
            assert(decreases_to!(ss => ss@[i as int]));
            self.collect_reassigned_vars_stmt(&ss[i]);
            assert(self.reassigned() =~= old(self).reassigned() + stmts_assigns(ss@.subrange(0, i + 1)));
        }
        assert(ss@.subrange(0, n as int) =~= ss@);
    }
}


impl Generator {
    /// Write a statement (its lines end where it ends).
    pub fn generate_stmt(&mut self, stmt: &Stmt)
        requires
            old(self).wf(),
            plain_stmt(*stmt),
            stmt_assigns(*stmt).subset_of(old(self).reassigned()),
            old(self).level() + stmt_depth(*stmt) < usize::MAX,
        ensures
            final(self).text() == old(self).text() + stmt_code(
                old(self).string_consts(),
                old(self).reassigned(),
                old(self).level(),
                old(self).at_line_start(),
                *stmt,
            ),
            final(self).at_line_start(),
            final(self).wf(),
            final(self).level() == old(self).level(),
            final(self).string_consts() == old(self).string_consts(),
            final(self).reassigned() == old(self).reassigned(),
        decreases stmt, 3int,
    {
        match stmt {
            Stmt::If { .. } => self.generate_if(stmt),
            Stmt::For { .. } => self.generate_loop(stmt),
            Stmt::While { .. } => self.generate_loop(stmt),
            Stmt::Loop { .. } => self.generate_loop(stmt),
            Stmt::Let { .. } => self.generate_let(stmt),
            Stmt::Assign { .. } => self.generate_binding(stmt),
            Stmt::LetTuple { .. } => self.generate_binding(stmt),
            _ => self.generate_simple(stmt),
        }
    }

    /// Write an `if` statement.
    #[verifier::spinoff_prover]
    #[verifier::rlimit(100)]
    fn generate_if(&mut self, stmt: &Stmt)
        requires
            old(self).wf(),
            *stmt is If,
            plain_stmt(*stmt),
            stmt_assigns(*stmt).subset_of(old(self).reassigned()),
            old(self).level() + stmt_depth(*stmt) < usize::MAX,
        ensures
            final(self).text() == old(self).text() + stmt_code(
                old(self).string_consts(),
                old(self).reassigned(),
                old(self).level(),
                old(self).at_line_start(),
                *stmt,
            ),
            final(self).at_line_start(),
            final(self).wf(),
            final(self).level() == old(self).level(),
            final(self).string_consts() == old(self).string_consts(),
            final(self).reassigned() == old(self).reassigned(),
        decreases stmt, 2int,
    {
        let ghost t0 = self.text();
        let ghost c = self.string_consts();
        let ghost r = self.reassigned();
        let ghost lv = self.level();
        let ghost ls = self.at_line_start();
        match stmt {
            Stmt::If { condition, then_block, else_block, .. } => {
                self.start_line();
                self.write("if ");
                self.generate_expr(condition);
                self.write(" ");
                let ghost t1 = self.text();
                assert(t1 =~= t0 + lead_at(ls, lv) + "if "@ + expr_code(c, lv, *condition) + " "@);
                match else_block {
                    None => {
                        self.generate_block(then_block, false);
                    },
                    Some(ElseBranch::Block(b)) => {
                        self.generate_block(then_block, true);
                        self.write(" else ");
                        self.generate_block(b, false);
                    },
                    Some(ElseBranch::ElseIf(inner)) => {
                        self.generate_block(then_block, true);
                        self.write(" else ");
                        self.generate_stmt(inner);
                    },
                }
                assert(self.text() =~= t0 + stmt_code(c, r, lv, ls, *stmt));
            },
            _ => {},
        }
    }

    /// Write a `for`, `while` or `loop` statement.
    #[verifier::spinoff_prover]
    fn generate_loop(&mut self, stmt: &Stmt)
        requires
            old(self).wf(),
            *stmt is For || *stmt is While || *stmt is Loop,
            plain_stmt(*stmt),
            stmt_assigns(*stmt).subset_of(old(self).reassigned()),
            old(self).level() + stmt_depth(*stmt) < usize::MAX,
        ensures
            final(self).text() == old(self).text() + stmt_code(
                old(self).string_consts(),
                old(self).reassigned(),
                old(self).level(),
                old(self).at_line_start(),
                *stmt,
            ),
            final(self).at_line_start(),
            final(self).wf(),
            final(self).level() == old(self).level(),
            final(self).string_consts() == old(self).string_consts(),
            final(self).reassigned() == old(self).reassigned(),
        decreases stmt, 2int,
    {
        let ghost t0 = self.text();
        let ghost c = self.string_consts();
        let ghost r = self.reassigned();
        let ghost lv = self.level();
        let ghost ls = self.at_line_start();
        match stmt {
            Stmt::For { pattern, iter, body, .. } => {
                self.start_line();
                self.write("for ");
                self.emit_pattern(pattern);
                self.write(" in ");
                self.generate_expr(iter);
                self.write(" ");
                self.generate_block(body, false);
                assert(self.text() =~= t0 + stmt_code(c, r, lv, ls, *stmt));
            },
            Stmt::While { condition, body, .. } => {
                self.start_line();
                self.write("while ");
                self.generate_expr(condition);
                self.write(" ");
                self.generate_block(body, false);
                assert(self.text() =~= t0 + stmt_code(c, r, lv, ls, *stmt));
            },
            Stmt::Loop { body, .. } => {
                self.start_line();
                self.write("loop ");
                self.generate_block(body, false);
                assert(self.text() =~= t0 + stmt_code(c, r, lv, ls, *stmt));
            },
            _ => {},
        }
    }

    /// Write a `let` statement.
    fn generate_let(&mut self, stmt: &Stmt)
        requires
            old(self).wf(),
            *stmt is Let,
            plain_stmt(*stmt),
            stmt_assigns(*stmt).subset_of(old(self).reassigned()),
            old(self).level() + stmt_depth(*stmt) < usize::MAX,
        ensures
            final(self).text() == old(self).text() + stmt_code(
                old(self).string_consts(),
                old(self).reassigned(),
                old(self).level(),
                old(self).at_line_start(),
                *stmt,
            ),
            final(self).at_line_start(),
            final(self).wf(),
            final(self).level() == old(self).level(),
            final(self).string_consts() == old(self).string_consts(),
            final(self).reassigned() == old(self).reassigned(),
    {
        proof {
            reveal_strlit(";");
            reveal_strlit("\n");
            reveal_strlit(";\n");
        }
        let ghost t0 = self.text();
        let ghost c = self.string_consts();
        let ghost r = self.reassigned();
        let ghost lv = self.level();
        let ghost ls = self.at_line_start();
        if let Stmt::Let { name, ty, value, .. } = stmt {
            self.start_line();
            let ghost t1 = self.text();
            assert(t1 == t0 + lead_at(ls, lv));
            if self.is_reassigned(name.name.as_str()) {
                self.write("let mut ");
            } else {
                self.write("let ");
            }
            let ghost t2 = self.text();
            assert(t2 == t1 + (if r.contains(name.name@) { "let mut "@ } else { "let "@ }));
            self.write(name.name.as_str());
            if let Some(t) = ty {
                self.write(": ");
                self.emit_type(t);
            }
            let ghost t3 = self.text();
            let ghost typed = if ty.is_some() {
                ": "@ + type_code(ty->0)
            } else {
                Seq::<char>::empty()
            };
            assert(t3 =~= t2 + name.name@ + typed);
            self.write(" = ");
            self.generate_expr(value);
            let ghost t4 = self.text();
            assert(t4 =~= t3 + " = "@ + expr_code(c, lv, *value));
            self.writeln(";");
            assert(self.text() =~= t4 + ";\n"@);
            assert(self.text() =~= t0 + stmt_code(c, r, lv, ls, *stmt));
        }
    }

    /// Write an assignment or a tuple `let`.
    fn generate_binding(&mut self, stmt: &Stmt)
        requires
            old(self).wf(),
            *stmt is Assign || *stmt is LetTuple,
            plain_stmt(*stmt),
            stmt_assigns(*stmt).subset_of(old(self).reassigned()),
            old(self).level() + stmt_depth(*stmt) < usize::MAX,
        ensures
            final(self).text() == old(self).text() + stmt_code(
                old(self).string_consts(),
                old(self).reassigned(),
                old(self).level(),
                old(self).at_line_start(),
                *stmt,
            ),
            final(self).at_line_start(),
            final(self).wf(),
            final(self).level() == old(self).level(),
            final(self).string_consts() == old(self).string_consts(),
            final(self).reassigned() == old(self).reassigned(),
    {
        proof {
            reveal_strlit(";");
            reveal_strlit("\n");
            reveal_strlit(";\n");
            reveal_strlit("break;");
            reveal_strlit("break;\n");
            reveal_strlit(");");
            reveal_strlit(");\n");
        }
        let ghost t0 = self.text();
        let ghost c = self.string_consts();
        let ghost r = self.reassigned();
        let ghost lv = self.level();
        let ghost ls = self.at_line_start();
        match stmt {
            Stmt::Assign { name, value, .. } => {
                self.start_line();
                self.write(name.name.as_str());
                self.write(" = ");
                self.generate_expr(value);
                self.writeln(";");
                assert(self.text() =~= t0 + stmt_code(c, r, lv, ls, *stmt));
            },
            Stmt::LetTuple { names, value, .. } => {
                self.start_line();
                self.write("let (");
                self.emit_names(names);
                self.write(") = ");
                self.generate_expr(value);
                self.writeln(";");
                assert(self.text() =~= t0 + stmt_code(c, r, lv, ls, *stmt));
            },
            _ => {},
        }
    }

    /// Write a `return`, a `break` or an expression statement.
    fn generate_simple(&mut self, stmt: &Stmt)
        requires
            old(self).wf(),
            *stmt is Return || *stmt is Break || *stmt is Expr,
            plain_stmt(*stmt),
            stmt_assigns(*stmt).subset_of(old(self).reassigned()),
            old(self).level() + stmt_depth(*stmt) < usize::MAX,
        ensures
            final(self).text() == old(self).text() + stmt_code(
                old(self).string_consts(),
                old(self).reassigned(),
                old(self).level(),
                old(self).at_line_start(),
                *stmt,
            ),
            final(self).at_line_start(),
            final(self).wf(),
            final(self).level() == old(self).level(),
            final(self).string_consts() == old(self).string_consts(),
            final(self).reassigned() == old(self).reassigned(),
    {
        proof {
            reveal_strlit(";");
            reveal_strlit("\n");
            reveal_strlit(";\n");
            reveal_strlit("break;");
            reveal_strlit("break;\n");
            reveal_strlit(");");
            reveal_strlit(");\n");
        }
        let ghost t0 = self.text();
        let ghost c = self.string_consts();
        let ghost r = self.reassigned();
        let ghost lv = self.level();
        let ghost ls = self.at_line_start();
        match stmt {
            Stmt::Return { value, .. } => {
                self.start_line();
                self.write("return ");
                if let Some(e) = value {
                    self.generate_expr(e);
                }
                self.writeln(";");
                proof {
                    reveal_strlit("");
                }
                assert(self.text() =~= t0 + stmt_code(c, r, lv, ls, *stmt));
            },
            Stmt::Break { .. } => {
                self.writeln("break;");
                assert(self.text() =~= t0 + stmt_code(c, r, lv, ls, *stmt));
            },
            Stmt::Expr { expr, .. } => {
                match expr {
                    Expr::Emit { value, .. } => {
                        self.start_line();
                        self.write("return ctx.emit(");
                        self.generate_expr(value);
                        self.writeln(");");
                    },
                    Expr::Call { name, args, .. } => {
                        if crate::generator::is_assertion_builtin(name.name.as_str()) {
                            self.generate_assertion(name.name.as_str(), args);
                        } else {
                            self.generate_expr(expr);
                            self.writeln(";");
                        }
                    },
                    _ => {
                        self.generate_expr(expr);
                        self.writeln(";");
                    },
                }
                assert(self.text() =~= t0 + stmt_code(c, r, lv, ls, *stmt));
            },
            _ => {},
        }
    }

    /// Write names separated by `, `.
    fn emit_names(&mut self, ns: &Vec<Ident>)
        ensures
            final(self).text() == old(self).text() + names_code(ns@),
            final(self).string_consts() == old(self).string_consts(),
            final(self).reassigned() == old(self).reassigned(),
            final(self).wf() == old(self).wf(),
            final(self).level() == old(self).level(),
            final(self).at_line_start() == old(self).at_line_start(),
    {
        let ghost t0 = self.text();
        let n = ns.len();
        assert(ns@.subrange(0, 0) =~= Seq::<Ident>::empty());
        assert(t0 + Seq::<char>::empty() =~= t0);
        for i in 0..n
            invariant
                n == ns@.len(),
                self.text() == t0 + names_code(ns@.subrange(0, i as int)),
                self.string_consts() == old(self).string_consts(),
                self.reassigned() == old(self).reassigned(),
                self.wf() == old(self).wf(),
                self.level() == old(self).level(),
                self.at_line_start() == old(self).at_line_start(),
        {
            assert(ns@.subrange(0, i + 1).drop_last() =~= ns@.subrange(0, i as int));
            assert(ns@.subrange(0, i + 1).last() == ns@[i as int]);
            proof {
                reveal_strlit("");
            }
            let ghost before = self.text();
            if i > 0 {
                self.write(", ");
            }
            let ghost mid = self.text();
            assert(mid =~= before + (if i > 0 { ", "@ } else { Seq::<char>::empty() }));
            self.write(ns[i].name.as_str());
            assert(self.text() =~= t0 + names_code(ns@.subrange(0, i + 1)));
        }
        assert(ns@.subrange(0, n as int) =~= ns@);
    }

    /// Write a block opened in the middle of a line: `{`, its statements
    /// one level deeper, then `}` on a line of its own, ending the line
    /// unless `inline`.
    fn generate_block(&mut self, b: &Block, inline: bool)
        requires
            old(self).wf(),
            !old(self).at_line_start(),
            plain_block(*b),
            block_assigns(*b).subset_of(old(self).reassigned()),
            old(self).level() + 1 + block_depth(*b) < usize::MAX,
        ensures
            final(self).text() == old(self).text() + block_code(
                old(self).string_consts(),
                old(self).reassigned(),
                old(self).level(),
                *b,
                inline,
            ),
            final(self).at_line_start() == !inline,
            final(self).wf(),
            final(self).level() == old(self).level(),
            final(self).string_consts() == old(self).string_consts(),
            final(self).reassigned() == old(self).reassigned(),
        decreases b, 1int,
    {
        proof {
            reveal_strlit("{");
            reveal_strlit("\n");
            reveal_strlit("{\n");
            reveal_strlit("}");
            reveal_strlit("}\n");
        }
        let ghost t0 = self.text();
        let ghost r = self.reassigned();
        self.writeln("{");
        self.indent();
        self.generate_block_contents(b);
        assert(self.reassigned() =~= r);
        self.dedent();
        if inline {
            self.start_line();
            self.write("}");
        } else {
            self.writeln("}");
        }
        assert(self.text() =~= t0 + block_code(old(self).string_consts(), r, old(self).level(), *b, inline));
    }

    /// Write a block's statements at the current level, each starting on a
    /// line of its own, after recording the names the block assigns to.
    pub fn generate_block_contents(&mut self, b: &Block)
        requires
            old(self).wf(),
            old(self).at_line_start(),
            plain_block(*b),
            old(self).level() + block_depth(*b) < usize::MAX,
        ensures
            final(self).reassigned() == old(self).reassigned() + block_assigns(*b),
            final(self).text() == old(self).text() + stmts_code(
                old(self).string_consts(),
                final(self).reassigned(),
                old(self).level(),
                b.stmts@,
            ),
            final(self).at_line_start(),
            final(self).wf(),
            final(self).level() == old(self).level(),
            final(self).string_consts() == old(self).string_consts(),
        decreases b, 0int,
    {
        self.collect_reassigned_vars(b);
        self.generate_stmts(&b.stmts);
    }

    /// Write statements in order, each starting on a line of its own.
    fn generate_stmts(&mut self, ss: &Vec<Stmt>)
        requires
            old(self).wf(),
            old(self).at_line_start(),
            plain_stmts(ss@),
            stmts_assigns(ss@).subset_of(old(self).reassigned()),
            old(self).level() + stmts_depth(ss@) < usize::MAX,
        ensures
            final(self).text() == old(self).text() + stmts_code(
                old(self).string_consts(),
                old(self).reassigned(),
                old(self).level(),
                ss@,
            ),
            final(self).at_line_start(),
            final(self).wf(),
            final(self).level() == old(self).level(),
            final(self).string_consts() == old(self).string_consts(),
            final(self).reassigned() == old(self).reassigned(),
        decreases ss, 0int,
    {
        let ghost t0 = self.text();
        let ghost c = self.string_consts();
        let ghost r = self.reassigned();
        let n = ss.len();
        assert(ss@.subrange(0, 0) =~= Seq::<Stmt>::empty());
        assert(t0 + Seq::<char>::empty() =~= t0);
        for i in 0..n
            invariant
                n == ss@.len(),
                plain_stmts(ss@),
                stmts_assigns(ss@).subset_of(r),
                old(self).level() + stmts_depth(ss@) < usize::MAX,
                self.wf(),
                self.at_line_start(),
                self.text() == t0 + stmts_code(c, r, old(self).level(), ss@.subrange(0, i as int)),
                self.level() == old(self).level(),
                self.string_consts() == c,
                self.reassigned() == r,
        {
            assert(ss@.subrange(0, i + 1).drop_last() =~= ss@.subrange(0, i as int));
            assert(ss@.subrange(0, i + 1).last() == ss@[i as int]);
            assert(decreases_to!(ss => ss@[i as int]));
            proof {
                lemma_stmts_parts(ss@, i as int);
            }
            self.generate_stmt(&ss[i]);
            assert(self.text() =~= t0 + stmts_code(c, r, old(self).level(), ss@.subrange(0, i + 1)));
        }
        assert(ss@.subrange(0, n as int) =~= ss@);
    }
}

} // verus!
