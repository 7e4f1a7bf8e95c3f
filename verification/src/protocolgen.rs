//! The Rust module generated for a protocol: its state enum and the
//! state machine that checks the order of its messages.

use vstd::prelude::*;
use crate::ast::ProtocolDecl;
use crate::ast::ProtocolStep;
use crate::exprgen::snake_case;
use crate::generator::Generator;
use crate::generator::indentation;
use crate::generator::lead;
use crate::generator::state_type_name;
use crate::rules::decimal;

verus! {

/// What `char::to_uppercase` gives a character, collected into a text
/// (Unicode case mapping; some characters become several).
pub uninterp spec fn char_uppercase(c: char) -> Seq<char>;

/// `char::to_uppercase`, collected into a `String`. Claims that the result
/// is what `char_uppercase` names.
#[verifier::external_body]
fn uppercase_char(c: char) -> (r: String)
    ensures
        r@ == char_uppercase(c),
{
    c.to_uppercase().collect::<String>()
}

/// A name with its first character in upper case.
pub open spec fn capitalized(s: Seq<char>) -> Seq<char> {
    if s.len() == 0 {
        Seq::empty()
    } else {
        char_uppercase(s[0]) + s.subrange(1, s.len() as int)
    }
}

/// Capitalize the first letter of a name.
pub fn capitalize(name: &str) -> (r: String)
    ensures
        r@ == capitalized(name@),
{
    proof {
        reveal_strlit("");
    }
    let n = name.unicode_len();
    if n == 0 {
        return String::from_str("");
    }
    let mut out = uppercase_char(name.get_char(0));
    let rest = name.substring_char(1, n);
    out.append(rest);
    out
}

/// A line `level` levels deep.
pub open spec fn ln(level: nat, s: Seq<char>) -> Seq<char> {
    indentation(level) + s + "\n"@
}

/// The name of the state after a step, without its number.
pub open spec fn state_label(s: ProtocolStep) -> Seq<char> {
    "After"@ + capitalized(s.sender.name@) + "Sends"@ + state_type_name(s.message_type)
}

/// The state variant after step `i`.
pub open spec fn state_variant(s: ProtocolStep, i: nat) -> Seq<char> {
    state_label(s) + "_"@ + decimal(i)
}

/// The state before step `i`: the initial state, or the one after the
/// step before.
pub open spec fn state_before(steps: Seq<ProtocolStep>, i: int) -> Seq<char> {
    if i == 0 {
        "State::Initial"@
    } else {
        "State::"@ + state_variant(steps[i - 1], (i - 1) as nat)
    }
}

/// The state after step `i`: the final state after the last step.
pub open spec fn state_after(steps: Seq<ProtocolStep>, i: int) -> Seq<char> {
    if i >= steps.len() - 1 {
        "State::Done"@
    } else {
        "State::"@ + state_variant(steps[i], i as nat)
    }
}

/// The lines of the first `n` steps, each made by `f`.
pub open spec fn step_lines(level: nat, steps: Seq<ProtocolStep>, n: nat, f: spec_fn(Seq<ProtocolStep>, int) -> Seq<char>) -> Seq<char>
    decreases n,
{
    if n == 0 {
        Seq::empty()
    } else {
        step_lines(level, steps, (n - 1) as nat, f) + ln(level, f(steps, n - 1))
    }
}

/// A variant line of the state enum.
pub open spec fn variant_lines_line(steps: Seq<ProtocolStep>, i: int) -> Seq<char> {
    state_variant(steps[i], i as nat) + ","@
}

/// A line of `state_name`.
pub open spec fn name_lines_line(steps: Seq<ProtocolStep>, i: int) -> Seq<char> {
    "State::"@ + state_variant(steps[i], i as nat) + " => \""@ + state_label(steps[i]) + "\","@
}

/// A line of `can_send`.
pub open spec fn send_lines_line(steps: Seq<ProtocolStep>, i: int) -> Seq<char> {
    "("@ + state_before(steps, i) + ", \""@ + state_type_name(steps[i].message_type) + "\", \""@
        + steps[i].sender.name@ + "\") => true,"@
}

/// A line of `can_receive`.
pub open spec fn receive_lines_line(steps: Seq<ProtocolStep>, i: int) -> Seq<char> {
    "("@ + state_before(steps, i) + ", \""@ + state_type_name(steps[i].message_type) + "\", \""@
        + steps[i].receiver.name@ + "\") => true,"@
}

/// A line of `transition`.
pub open spec fn transition_lines_line(steps: Seq<ProtocolStep>, i: int) -> Seq<char> {
    "("@ + state_before(steps, i) + ", \""@ + state_type_name(steps[i].message_type) + "\") => "@
        + state_after(steps, i) + ","@
}

/// The variant lines of the first `n` steps.
pub open spec fn variant_lines(level: nat, steps: Seq<ProtocolStep>, n: nat) -> Seq<char> {
    step_lines(level, steps, n, |s: Seq<ProtocolStep>, i: int| variant_lines_line(s, i))
}

/// The `state_name` lines of the first `n` steps.
pub open spec fn name_lines(level: nat, steps: Seq<ProtocolStep>, n: nat) -> Seq<char> {
    step_lines(level, steps, n, |s: Seq<ProtocolStep>, i: int| name_lines_line(s, i))
}

/// The `can_send` lines of the first `n` steps.
pub open spec fn send_lines(level: nat, steps: Seq<ProtocolStep>, n: nat) -> Seq<char> {
    step_lines(level, steps, n, |s: Seq<ProtocolStep>, i: int| send_lines_line(s, i))
}

/// The `can_receive` lines of the first `n` steps.
pub open spec fn receive_lines(level: nat, steps: Seq<ProtocolStep>, n: nat) -> Seq<char> {
    step_lines(level, steps, n, |s: Seq<ProtocolStep>, i: int| receive_lines_line(s, i))
}

/// The `transition` lines of the first `n` steps.
pub open spec fn transition_lines(level: nat, steps: Seq<ProtocolStep>, n: nat) -> Seq<char> {
    step_lines(level, steps, n, |s: Seq<ProtocolStep>, i: int| transition_lines_line(s, i))
}

/// The state enum, `level` levels deep.
#[verifier::opaque]
pub open spec fn state_enum_code(l: nat, p: ProtocolDecl) -> Seq<char> {
    ln(l, "#[derive(Debug, Clone, Copy, PartialEq, Eq)]"@) + ln(l, "pub enum State {"@) + ln(l + 1, "Initial,"@)
        + variant_lines(l + 1, p.steps@, p.steps@.len()) + ln(l + 1, "Done,"@) + ln(l, "}"@) + "\n"@
}

/// The `Default` impl of the state enum.
#[verifier::opaque]
pub open spec fn default_impl_code(l: nat) -> Seq<char> {
    ln(l, "impl Default for State {"@) + ln(l + 1, "fn default() -> Self {"@) + ln(l + 2, "Self::Initial"@) + ln(
        l + 1,
        "}"@,
    ) + ln(l, "}"@) + "\n"@
}

/// `state_name`, inside the state machine impl `l` levels deep.
#[verifier::opaque]
pub open spec fn state_name_code(l: nat, p: ProtocolDecl) -> Seq<char> {
    ln(l, "fn state_name(&self) -> &str {"@) + ln(l + 1, "match self {"@) + ln(l + 2, "State::Initial => \"Initial\","@)
        + name_lines(l + 2, p.steps@, p.steps@.len()) + ln(l + 2, "State::Done => \"Done\","@) + ln(l + 1, "}"@)
        + ln(l, "}"@) + "\n"@
}

/// `can_send`.
#[verifier::opaque]
pub open spec fn can_send_code(l: nat, p: ProtocolDecl) -> Seq<char> {
    ln(l, "fn can_send(&self, msg_type: &str, from_role: &str) -> bool {"@) + ln(
        l + 1,
        "match (self, msg_type, from_role) {"@,
    ) + send_lines(l + 2, p.steps@, p.steps@.len()) + ln(l + 2, "_ => false,"@) + ln(l + 1, "}"@) + ln(l, "}"@)
        + "\n"@
}

/// `can_receive`.
#[verifier::opaque]
pub open spec fn can_receive_code(l: nat, p: ProtocolDecl) -> Seq<char> {
    ln(l, "fn can_receive(&self, msg_type: &str, to_role: &str) -> bool {"@) + ln(
        l + 1,
        "match (self, msg_type, to_role) {"@,
    ) + receive_lines(l + 2, p.steps@, p.steps@.len()) + ln(l + 2, "_ => false,"@) + ln(l + 1, "}"@) + ln(
        l,
        "}"@,
    ) + "\n"@
}

/// The opening of `transition`: its signature, and a match arm for each
/// step.
#[verifier::opaque]
pub open spec fn transition_head(l: nat, p: ProtocolDecl) -> Seq<char> {
    ln(l, "fn transition(&mut self, msg_type: &str) -> Result<(), ProtocolViolation> {"@) + ln(
        l + 1,
        "let next = match (&self, msg_type) {"@,
    ) + transition_lines(l + 2, p.steps@, p.steps@.len())
}

/// The arm of `transition` for an unexpected message.
#[verifier::opaque]
pub open spec fn transition_error(l: nat, p: ProtocolDecl) -> Seq<char> {
    ln(l + 2, "_ => return Err(ProtocolViolation::UnexpectedMessage {"@) + ln(
        l + 3,
        "protocol: \""@ + p.name.name@ + "\".to_string(),"@,
    ) + ln(l + 3, "expected: \"unknown\".to_string(),"@) + ln(l + 3, "received: msg_type.to_string(),"@) + ln(
        l + 3,
        "state: self.state_name().to_string(),"@,
    ) + ln(l + 2, "}),"@)
}

/// The end of `transition`: the move to the next state.
#[verifier::opaque]
pub open spec fn transition_end(l: nat) -> Seq<char> {
    ln(l + 1, "};"@) + ln(l + 1, "*self = next;"@) + ln(l + 1, "Ok(())"@) + ln(l, "}"@) + "\n"@
}

/// `transition`.
pub open spec fn transition_code(l: nat, p: ProtocolDecl) -> Seq<char> {
    transition_head(l, p) + transition_error(l, p) + transition_end(l)
}

/// `is_terminal`, `protocol_name` and `clone_box`.
#[verifier::opaque]
pub open spec fn tail_code(l: nat, p: ProtocolDecl) -> Seq<char> {
    ln(l, "fn is_terminal(&self) -> bool {"@) + ln(l + 1, "matches!(self, State::Done)"@) + ln(l, "}"@) + "\n"@
        + ln(l, "fn protocol_name(&self) -> &str {"@) + ln(l + 1, "\""@ + p.name.name@ + "\""@) + ln(l, "}"@)
        + "\n"@ + ln(l, "fn clone_box(&self) -> Box<dyn ProtocolStateMachine> {"@) + ln(l + 1, "Box::new(*self)"@)
        + ln(l, "}"@)
}

/// The functions of the state machine impl, `l` levels deep.
pub open spec fn machine_code(l: nat, p: ProtocolDecl) -> Seq<char> {
    state_name_code(l, p) + can_send_code(l, p) + can_receive_code(l, p) + transition_code(l, p) + tail_code(l, p)
}

/// The items of a protocol's module, `l` levels deep, up to the end of the
/// state machine impl's functions.
pub open spec fn protocol_items(l: nat, p: ProtocolDecl) -> Seq<char> {
    ln(l, "use super::*;"@) + "\n"@ + state_enum_code(l, p) + default_impl_code(l) + ln(
        l,
        "impl ProtocolStateMachine for State {"@,
    ) + machine_code(l + 1, p)
}

/// The line that opens a protocol's module.
pub open spec fn protocol_mod_line(p: ProtocolDecl) -> Seq<char> {
    (if p.is_pub {
        "pub "@
    } else {
        Seq::empty()
    }) + "mod protocol_"@ + snake_case(p.name.name@) + " {"@
}

/// The module generated for a protocol, `l` levels deep, from the start of
/// its first line: a comment naming it, then `mod protocol_<name>` with the
/// state enum, its `Default` impl and its `ProtocolStateMachine` impl.
pub open spec fn protocol_code(l: nat, p: ProtocolDecl) -> Seq<char> {
    "// Protocol: "@ + p.name.name@ + "\n"@ + ln(l, protocol_mod_line(p)) + protocol_items(l + 1, p) + ln(l + 1, "}"@)
        + ln(l, "}"@)
}


// =========================================================================
// Writing a protocol
// =========================================================================

/// The state name after a step, without its number.
fn state_label_text(step: &ProtocolStep) -> (r: String)
    ensures
        r@ == state_label(*step),
{
    let mut out = String::from_str("After");
    let cap = capitalize(step.sender.name.as_str());
    out.append(cap.as_str());
    out.append("Sends");
    let t = crate::generator::type_name_for_state(&step.message_type);
    out.append(t.as_str());
    assert(out@ =~= state_label(*step));
    out
}

/// The state variant after step `i`.
fn state_variant_text(step: &ProtocolStep, i: usize) -> (r: String)
    ensures
        r@ == state_variant(*step, i as nat),
{
    let mut out = state_label_text(step);
    out.append("_");
    let d = crate::checker::decimal_string(i);
    out.append(d.as_str());
    assert(out@ =~= state_variant(*step, i as nat));
    out
}

/// The state before step `i`.
fn state_before_text(steps: &Vec<ProtocolStep>, i: usize) -> (r: String)
    requires
        i < steps@.len(),
    ensures
        r@ == state_before(steps@, i as int),
{
    if i == 0 {
        String::from_str("State::Initial")
    } else {
        let mut out = String::from_str("State::");
        let v = state_variant_text(&steps[i - 1], i - 1);
        out.append(v.as_str());
        assert(out@ =~= state_before(steps@, i as int));
        out
    }
}

/// The state after step `i`.
fn state_after_text(steps: &Vec<ProtocolStep>, i: usize) -> (r: String)
    requires
        i < steps@.len(),
    ensures
        r@ == state_after(steps@, i as int),
{
    if i >= steps.len() - 1 {
        String::from_str("State::Done")
    } else {
        let mut out = String::from_str("State::");
        let v = state_variant_text(&steps[i], i);
        out.append(v.as_str());
        assert(out@ =~= state_after(steps@, i as int));
        out
    }
}

/// A variant line of the state enum.
fn variant_line_text(steps: &Vec<ProtocolStep>, i: usize) -> (r: String)
    requires
        i < steps@.len(),
    ensures
        r@ == variant_lines_line(steps@, i as int),
{
    let mut out = state_variant_text(&steps[i], i);
    out.append(",");
    assert(out@ =~= variant_lines_line(steps@, i as int));
    out
}

/// A line of `state_name`.
fn name_line_text(steps: &Vec<ProtocolStep>, i: usize) -> (r: String)
    requires
        i < steps@.len(),
    ensures
        r@ == name_lines_line(steps@, i as int),
{
    let mut out = String::from_str("State::");
    let v = state_variant_text(&steps[i], i);
    out.append(v.as_str());
    out.append(" => \"");
    let l = state_label_text(&steps[i]);
    out.append(l.as_str());
    out.append("\",");
    assert(out@ =~= name_lines_line(steps@, i as int));
    out
}

/// A line of `can_send` (`receiver` false) or `can_receive` (true).
fn role_line_text(steps: &Vec<ProtocolStep>, i: usize, receiver: bool) -> (r: String)
    requires
        i < steps@.len(),
    ensures
        r@ == (if receiver { receive_lines_line(steps@, i as int) } else { send_lines_line(steps@, i as int) }),
{
    let mut out = String::from_str("(");
    let b = state_before_text(steps, i);
    out.append(b.as_str());
    out.append(", \"");
    let t = crate::generator::type_name_for_state(&steps[i].message_type);
    out.append(t.as_str());
    out.append("\", \"");
    if receiver {
        out.append(steps[i].receiver.name.as_str());
    } else {
        out.append(steps[i].sender.name.as_str());
    }
    out.append("\") => true,");
    assert(out@ =~= (if receiver { receive_lines_line(steps@, i as int) } else { send_lines_line(steps@, i as int) }));
    out
}

/// A line of `transition`.
fn transition_line_text(steps: &Vec<ProtocolStep>, i: usize) -> (r: String)
    requires
        i < steps@.len(),
    ensures
        r@ == transition_lines_line(steps@, i as int),
{
    let mut out = String::from_str("(");
    let b = state_before_text(steps, i);
    out.append(b.as_str());
    out.append(", \"");
    let t = crate::generator::type_name_for_state(&steps[i].message_type);
    out.append(t.as_str());
    out.append("\") => ");
    let a = state_after_text(steps, i);
    out.append(a.as_str());
    out.append(",");
    assert(out@ =~= transition_lines_line(steps@, i as int));
    out
}

impl Generator {
    /// The variant lines of the state enum.
    fn emit_variant_lines(&mut self, p: &ProtocolDecl)
        requires
            old(self).at_line_start(),
        ensures
            final(self).text() == old(self).text() + variant_lines(old(self).level(), p.steps@, p.steps@.len()),
            final(self).string_consts() == old(self).string_consts(),
            final(self).reassigned() == old(self).reassigned(),
            final(self).wf() == old(self).wf(),
            final(self).level() == old(self).level(),
            final(self).at_line_start(),
    {
        let ghost t0 = self.text();
        let ghost lv = self.level();
        let n = p.steps.len();
        assert(t0 + Seq::<char>::empty() =~= t0);
        for i in 0..n
            invariant
                n == p.steps@.len(),
                self.text() == t0 + variant_lines(lv, p.steps@, i as nat),
                self.string_consts() == old(self).string_consts(),
                self.reassigned() == old(self).reassigned(),
                self.wf() == old(self).wf(),
                self.level() == lv,
                self.at_line_start(),
        {
            let ghost before = self.text();
            let line = variant_line_text(&p.steps, i);
            self.writeln(line.as_str());
            assert(self.text() =~= t0 + variant_lines(lv, p.steps@, (i + 1) as nat));
        }
    }

    /// The lines of `state_name`.
    fn emit_name_lines(&mut self, p: &ProtocolDecl)
        requires
            old(self).at_line_start(),
        ensures
            final(self).text() == old(self).text() + name_lines(old(self).level(), p.steps@, p.steps@.len()),
            final(self).string_consts() == old(self).string_consts(),
            final(self).reassigned() == old(self).reassigned(),
            final(self).wf() == old(self).wf(),
            final(self).level() == old(self).level(),
            final(self).at_line_start(),
    {
        let ghost t0 = self.text();
        let ghost lv = self.level();
        let n = p.steps.len();
        assert(t0 + Seq::<char>::empty() =~= t0);
        for i in 0..n
            invariant
                n == p.steps@.len(),
                self.text() == t0 + name_lines(lv, p.steps@, i as nat),
                self.string_consts() == old(self).string_consts(),
                self.reassigned() == old(self).reassigned(),
                self.wf() == old(self).wf(),
                self.level() == lv,
                self.at_line_start(),
        {
            let ghost before = self.text();
            let line = name_line_text(&p.steps, i);
            self.writeln(line.as_str());
            assert(self.text() =~= t0 + name_lines(lv, p.steps@, (i + 1) as nat));
        }
    }

    /// The lines of `can_send`.
    fn emit_send_lines(&mut self, p: &ProtocolDecl)
        requires
            old(self).at_line_start(),
        ensures
            final(self).text() == old(self).text() + send_lines(old(self).level(), p.steps@, p.steps@.len()),
            final(self).string_consts() == old(self).string_consts(),
            final(self).reassigned() == old(self).reassigned(),
            final(self).wf() == old(self).wf(),
            final(self).level() == old(self).level(),
            final(self).at_line_start(),
    {
        let ghost t0 = self.text();
        let ghost lv = self.level();
        let n = p.steps.len();
        assert(t0 + Seq::<char>::empty() =~= t0);
        for i in 0..n
            invariant
                n == p.steps@.len(),
                self.text() == t0 + send_lines(lv, p.steps@, i as nat),
                self.string_consts() == old(self).string_consts(),
                self.reassigned() == old(self).reassigned(),
                self.wf() == old(self).wf(),
                self.level() == lv,
                self.at_line_start(),
        {
            let ghost before = self.text();
            let line = role_line_text(&p.steps, i, false);
            self.writeln(line.as_str());
            assert(self.text() =~= t0 + send_lines(lv, p.steps@, (i + 1) as nat));
        }
    }

    /// The lines of `can_receive`.
    fn emit_receive_lines(&mut self, p: &ProtocolDecl)
        requires
            old(self).at_line_start(),
        ensures
            final(self).text() == old(self).text() + receive_lines(old(self).level(), p.steps@, p.steps@.len()),
            final(self).string_consts() == old(self).string_consts(),
            final(self).reassigned() == old(self).reassigned(),
            final(self).wf() == old(self).wf(),
            final(self).level() == old(self).level(),
            final(self).at_line_start(),
    {
        let ghost t0 = self.text();
        let ghost lv = self.level();
        let n = p.steps.len();
        assert(t0 + Seq::<char>::empty() =~= t0);
        for i in 0..n
            invariant
                n == p.steps@.len(),
                self.text() == t0 + receive_lines(lv, p.steps@, i as nat),
                self.string_consts() == old(self).string_consts(),
                self.reassigned() == old(self).reassigned(),
                self.wf() == old(self).wf(),
                self.level() == lv,
                self.at_line_start(),
        {
            let ghost before = self.text();
            let line = role_line_text(&p.steps, i, true);
            self.writeln(line.as_str());
            assert(self.text() =~= t0 + receive_lines(lv, p.steps@, (i + 1) as nat));
        }
    }

    /// The lines of `transition`.
    fn emit_transition_lines(&mut self, p: &ProtocolDecl)
        requires
            old(self).at_line_start(),
        ensures
            final(self).text() == old(self).text() + transition_lines(old(self).level(), p.steps@, p.steps@.len()),
            final(self).string_consts() == old(self).string_consts(),
            final(self).reassigned() == old(self).reassigned(),
            final(self).wf() == old(self).wf(),
            final(self).level() == old(self).level(),
            final(self).at_line_start(),
    {
        let ghost t0 = self.text();
        let ghost lv = self.level();
        let n = p.steps.len();
        assert(t0 + Seq::<char>::empty() =~= t0);
        for i in 0..n
            invariant
                n == p.steps@.len(),
                self.text() == t0 + transition_lines(lv, p.steps@, i as nat),
                self.string_consts() == old(self).string_consts(),
                self.reassigned() == old(self).reassigned(),
                self.wf() == old(self).wf(),
                self.level() == lv,
                self.at_line_start(),
        {
            let ghost before = self.text();
            let line = transition_line_text(&p.steps, i);
            self.writeln(line.as_str());
            assert(self.text() =~= t0 + transition_lines(lv, p.steps@, (i + 1) as nat));
        }
    }

}


impl Generator {
    /// Write the state enum.
    #[verifier::spinoff_prover]
    #[verifier::rlimit(100)]
    fn emit_state_enum(&mut self, p: &ProtocolDecl)
        requires
            old(self).at_line_start(),
            old(self).level() + 2 < usize::MAX,
        ensures
            final(self).text() == old(self).text() + state_enum_code(old(self).level(), *p),
            final(self).string_consts() == old(self).string_consts(),
            final(self).reassigned() == old(self).reassigned(),
            final(self).wf() == old(self).wf(),
            final(self).level() == old(self).level(),
            final(self).at_line_start(),
    {
        proof {
            reveal(state_enum_code);
        }
        let ghost t0 = self.text();
        let ghost lv = self.level();
        self.writeln("#[derive(Debug, Clone, Copy, PartialEq, Eq)]");
        self.writeln("pub enum State {");
        self.indent();
        self.writeln("Initial,");
        self.emit_variant_lines(p);
        self.writeln("Done,");
        self.dedent();
        self.writeln("}");
        self.write("\n");
        assert(self.text() =~= t0 + state_enum_code(lv, *p));
    }

    /// Write the `Default` impl of the state enum.
    #[verifier::spinoff_prover]
    #[verifier::rlimit(100)]
    fn emit_default_impl(&mut self, p: &ProtocolDecl)
        requires
            old(self).at_line_start(),
            old(self).level() + 3 < usize::MAX,
        ensures
            final(self).text() == old(self).text() + default_impl_code(old(self).level()),
            final(self).string_consts() == old(self).string_consts(),
            final(self).reassigned() == old(self).reassigned(),
            final(self).wf() == old(self).wf(),
            final(self).level() == old(self).level(),
            final(self).at_line_start(),
    {
        proof {
            reveal(default_impl_code);
        }
        let ghost t0 = self.text();
        let ghost lv = self.level();
        self.writeln("impl Default for State {");
        self.indent();
        self.writeln("fn default() -> Self {");
        self.indent();
        self.writeln("Self::Initial");
        self.dedent();
        self.writeln("}");
        self.dedent();
        self.writeln("}");
        self.write("\n");
        assert(self.text() =~= t0 + default_impl_code(lv));
    }

    /// Write `state_name`.
    #[verifier::spinoff_prover]
    #[verifier::rlimit(100)]
    fn emit_state_name(&mut self, p: &ProtocolDecl)
        requires
            old(self).at_line_start(),
            old(self).level() + 3 < usize::MAX,
        ensures
            final(self).text() == old(self).text() + state_name_code(old(self).level(), *p),
            final(self).string_consts() == old(self).string_consts(),
            final(self).reassigned() == old(self).reassigned(),
            final(self).wf() == old(self).wf(),
            final(self).level() == old(self).level(),
            final(self).at_line_start(),
    {
        proof {
            reveal(state_name_code);
        }
        let ghost t0 = self.text();
        let ghost lv = self.level();
        self.writeln("fn state_name(&self) -> &str {");
        self.indent();
        self.writeln("match self {");
        self.indent();
        self.writeln("State::Initial => \"Initial\",");
        self.emit_name_lines(p);
        self.writeln("State::Done => \"Done\",");
        self.dedent();
        self.writeln("}");
        self.dedent();
        self.writeln("}");
        self.write("\n");
        assert(self.text() =~= t0 + state_name_code(lv, *p));
    }

    /// Write `can_send`.
    #[verifier::spinoff_prover]
    #[verifier::rlimit(100)]
    fn emit_can_send(&mut self, p: &ProtocolDecl)
        requires
            old(self).at_line_start(),
            old(self).level() + 3 < usize::MAX,
        ensures
            final(self).text() == old(self).text() + can_send_code(old(self).level(), *p),
            final(self).string_consts() == old(self).string_consts(),
            final(self).reassigned() == old(self).reassigned(),
            final(self).wf() == old(self).wf(),
            final(self).level() == old(self).level(),
            final(self).at_line_start(),
    {
        proof {
            reveal(can_send_code);
        }
        let ghost t0 = self.text();
        let ghost lv = self.level();
        self.writeln("fn can_send(&self, msg_type: &str, from_role: &str) -> bool {");
        self.indent();
        self.writeln("match (self, msg_type, from_role) {");
        self.indent();
        self.emit_send_lines(p);
        self.writeln("_ => false,");
        self.dedent();
        self.writeln("}");
        self.dedent();
        self.writeln("}");
        self.write("\n");
        assert(self.text() =~= t0 + can_send_code(lv, *p));
    }

    /// Write `can_receive`.
    #[verifier::spinoff_prover]
    #[verifier::rlimit(100)]
    fn emit_can_receive(&mut self, p: &ProtocolDecl)
        requires
            old(self).at_line_start(),
            old(self).level() + 3 < usize::MAX,
        ensures
            final(self).text() == old(self).text() + can_receive_code(old(self).level(), *p),
            final(self).string_consts() == old(self).string_consts(),
            final(self).reassigned() == old(self).reassigned(),
            final(self).wf() == old(self).wf(),
            final(self).level() == old(self).level(),
            final(self).at_line_start(),
    {
        proof {
            reveal(can_receive_code);
        }
        let ghost t0 = self.text();
        let ghost lv = self.level();
        self.writeln("fn can_receive(&self, msg_type: &str, to_role: &str) -> bool {");
        self.indent();
        self.writeln("match (self, msg_type, to_role) {");
        self.indent();
        self.emit_receive_lines(p);
        self.writeln("_ => false,");
        self.dedent();
        self.writeln("}");
        self.dedent();
        self.writeln("}");
        self.write("\n");
        assert(self.text() =~= t0 + can_receive_code(lv, *p));
    }

    /// Write `transition`.
    #[verifier::spinoff_prover]
    #[verifier::rlimit(100)]
    fn emit_transition(&mut self, p: &ProtocolDecl)
        requires
            old(self).at_line_start(),
            old(self).level() + 4 < usize::MAX,
        ensures
            final(self).text() == old(self).text() + transition_code(old(self).level(), *p),
            final(self).string_consts() == old(self).string_consts(),
            final(self).reassigned() == old(self).reassigned(),
            final(self).wf() == old(self).wf(),
            final(self).level() == old(self).level(),
            final(self).at_line_start(),
    {
        let ghost t0 = self.text();
        let ghost lv = self.level();
        self.emit_transition_head(p);
        self.emit_transition_error(p);
        self.emit_transition_end(p);
        assert(self.text() =~= t0 + transition_code(lv, *p));
    }

    /// Write the opening of `transition`.
    #[verifier::spinoff_prover]
    #[verifier::rlimit(100)]
    fn emit_transition_head(&mut self, p: &ProtocolDecl)
        requires
            old(self).at_line_start(),
            old(self).level() + 3 < usize::MAX,
        ensures
            final(self).text() == old(self).text() + transition_head(old(self).level(), *p),
            final(self).string_consts() == old(self).string_consts(),
            final(self).reassigned() == old(self).reassigned(),
            final(self).wf() == old(self).wf(),
            final(self).level() == old(self).level(),
            final(self).at_line_start(),
    {
        proof {
            reveal(transition_head);
        }
        let ghost t0 = self.text();
        let ghost lv = self.level();
        self.writeln("fn transition(&mut self, msg_type: &str) -> Result<(), ProtocolViolation> {");
        self.indent();
        self.writeln("let next = match (&self, msg_type) {");
        self.indent();
        self.emit_transition_lines(p);
        self.dedent();
        self.dedent();
        assert(self.text() =~= t0 + transition_head(lv, *p));
    }

    /// Write the arm of `transition` for an unexpected message.
    #[verifier::spinoff_prover]
    #[verifier::rlimit(100)]
    fn emit_transition_error(&mut self, p: &ProtocolDecl)
        requires
            old(self).at_line_start(),
            old(self).level() + 4 < usize::MAX,
        ensures
            final(self).text() == old(self).text() + transition_error(old(self).level(), *p),
            final(self).string_consts() == old(self).string_consts(),
            final(self).reassigned() == old(self).reassigned(),
            final(self).wf() == old(self).wf(),
            final(self).level() == old(self).level(),
            final(self).at_line_start(),
    {
        proof {
            reveal(transition_error);
        }
        let ghost t0 = self.text();
        let ghost lv = self.level();
        self.indent();
        self.indent();
        self.writeln("_ => return Err(ProtocolViolation::UnexpectedMessage {");
        self.indent();
        let mut first = String::from_str("protocol: \"");
        first.append(p.name.name.as_str());
        first.append("\".to_string(),");
        self.writeln(first.as_str());
        self.writeln("expected: \"unknown\".to_string(),");
        self.writeln("received: msg_type.to_string(),");
        self.writeln("state: self.state_name().to_string(),");
        self.dedent();
        self.writeln("}),");
        self.dedent();
        self.dedent();
        assert(self.text() =~= t0 + transition_error(lv, *p));
    }

    /// Write the end of `transition`.
    #[verifier::spinoff_prover]
    #[verifier::rlimit(100)]
    fn emit_transition_end(&mut self, p: &ProtocolDecl)
        requires
            old(self).at_line_start(),
            old(self).level() + 2 < usize::MAX,
        ensures
            final(self).text() == old(self).text() + transition_end(old(self).level()),
            final(self).string_consts() == old(self).string_consts(),
            final(self).reassigned() == old(self).reassigned(),
            final(self).wf() == old(self).wf(),
            final(self).level() == old(self).level(),
            final(self).at_line_start(),
    {
        proof {
            reveal(transition_end);
        }
        let ghost t0 = self.text();
        let ghost lv = self.level();
        self.indent();
        self.writeln("};");
        self.writeln("*self = next;");
        self.writeln("Ok(())");
        self.dedent();
        self.writeln("}");
        self.write("\n");
        assert(self.text() =~= t0 + transition_end(lv));
    }

    /// Write `is_terminal`, `protocol_name` and `clone_box`.
    #[verifier::spinoff_prover]
    #[verifier::rlimit(100)]
    fn emit_protocol_tail(&mut self, p: &ProtocolDecl)
        requires
            old(self).at_line_start(),
            old(self).level() + 2 < usize::MAX,
        ensures
            final(self).text() == old(self).text() + tail_code(old(self).level(), *p),
            final(self).string_consts() == old(self).string_consts(),
            final(self).reassigned() == old(self).reassigned(),
            final(self).wf() == old(self).wf(),
            final(self).level() == old(self).level(),
            final(self).at_line_start(),
    {
        proof {
            reveal(tail_code);
        }
        let ghost t0 = self.text();
        let ghost lv = self.level();
        self.writeln("fn is_terminal(&self) -> bool {");
        self.indent();
        self.writeln("matches!(self, State::Done)");
        self.dedent();
        self.writeln("}");
        self.write("\n");
        let ghost t1 = self.text();
        assert(t1 =~= t0 + ln(lv, "fn is_terminal(&self) -> bool {"@) + ln(lv + 1, "matches!(self, State::Done)"@) + ln(
            lv,
            "}"@,
        ) + "\n"@);
        self.writeln("fn protocol_name(&self) -> &str {");
        self.indent();
        let mut quoted = String::from_str("\"");
        quoted.append(p.name.name.as_str());
        quoted.append("\"");
        self.writeln(quoted.as_str());
        self.dedent();
        self.writeln("}");
        self.write("\n");
        let ghost t2 = self.text();
        assert(t2 =~= t1 + ln(lv, "fn protocol_name(&self) -> &str {"@) + ln(lv + 1, "\""@ + p.name.name@ + "\""@) + ln(
            lv,
            "}"@,
        ) + "\n"@);
        self.writeln("fn clone_box(&self) -> Box<dyn ProtocolStateMachine> {");
        self.indent();
        self.writeln("Box::new(*self)");
        self.dedent();
        self.writeln("}");
        assert(self.text() =~= t0 + tail_code(lv, *p));
    }

    /// Write the functions of the state machine impl.
    #[verifier::spinoff_prover]
    fn emit_machine(&mut self, p: &ProtocolDecl)
        requires
            old(self).at_line_start(),
            old(self).level() + 4 < usize::MAX,
        ensures
            final(self).text() == old(self).text() + machine_code(old(self).level(), *p),
            final(self).string_consts() == old(self).string_consts(),
            final(self).reassigned() == old(self).reassigned(),
            final(self).wf() == old(self).wf(),
            final(self).level() == old(self).level(),
            final(self).at_line_start(),
    {
        let ghost t0 = self.text();
        self.emit_state_name(p);
        self.emit_can_send(p);
        self.emit_can_receive(p);
        self.emit_transition(p);
        self.emit_protocol_tail(p);
        assert(self.text() =~= t0 + machine_code(old(self).level(), *p));
    }

    /// Write the items of a protocol's module.
    #[verifier::spinoff_prover]
    fn emit_protocol_items(&mut self, p: &ProtocolDecl)
        requires
            old(self).at_line_start(),
            old(self).level() + 5 < usize::MAX,
        ensures
            final(self).text() == old(self).text() + protocol_items(old(self).level(), *p),
            final(self).string_consts() == old(self).string_consts(),
            final(self).reassigned() == old(self).reassigned(),
            final(self).wf() == old(self).wf(),
            final(self).level() == old(self).level(),
            final(self).at_line_start(),
    {
        let ghost t0 = self.text();
        self.writeln("use super::*;");
        self.write("\n");
        self.emit_state_enum(p);
        self.emit_default_impl(p);
        self.writeln("impl ProtocolStateMachine for State {");
        self.indent();
        self.emit_machine(p);
        self.dedent();
        assert(self.text() =~= t0 + protocol_items(old(self).level(), *p));
    }

    /// Write the module of a protocol: a comment naming it, then
    /// `mod protocol_<name>` holding its state enum, the enum's `Default`
    /// impl and its `ProtocolStateMachine` impl, which accepts the
    /// protocol's messages in their order, from their senders to their
    /// receivers.
    #[verifier::spinoff_prover]
    pub fn generate_protocol(&mut self, p: &ProtocolDecl)
        requires
            old(self).level() + 6 < usize::MAX,
        ensures
            final(self).text() == old(self).text() + lead(*old(self)) + protocol_code(old(self).level(), *p),
            final(self).string_consts() == old(self).string_consts(),
            final(self).reassigned() == old(self).reassigned(),
            final(self).wf() == old(self).wf(),
            final(self).level() == old(self).level(),
            final(self).at_line_start(),
    {
        proof {
            reveal_strlit("");
        }
        let ghost t0 = self.text();
        let ghost lv = self.level();
        self.write_first("// Protocol: ");
        self.writeln(p.name.name.as_str());
        let mut opening = if p.is_pub {
            String::from_str("pub ")
        } else {
            String::from_str("")
        };
        opening.append("mod protocol_");
        let snake = crate::exprgen::to_snake_case(p.name.name.as_str());
        opening.append(snake.as_str());
        opening.append(" {");
        assert(opening@ =~= protocol_mod_line(*p));
        self.writeln(opening.as_str());
        let ghost t1 = self.text();
        self.indent();
        self.emit_protocol_items(p);
        self.writeln("}");
        self.dedent();
        self.writeln("}");
        assert(self.text() =~= t1 + protocol_items(lv + 1, *p) + ln(lv + 1, "}"@) + ln(lv, "}"@));
        assert(self.text() =~= t0 + lead(*old(self)) + protocol_code(lv, *p));
    }

    /// Write the first text of a line, after its indentation when the line
    /// is still empty.
    fn write_first(&mut self, s: &str)
        ensures
            final(self).text() == old(self).text() + lead(*old(self)) + s@,
            !final(self).at_line_start(),
            final(self).string_consts() == old(self).string_consts(),
            final(self).reassigned() == old(self).reassigned(),
            final(self).wf() == old(self).wf(),
            final(self).level() == old(self).level(),
    {
        self.start_line();
        self.write(s);
    }
}

} // verus!
