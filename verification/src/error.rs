//! Errors reported by the semantic checker.

use vstd::prelude::*;
use crate::rules::decimal;
use crate::checker::decimal_string;
use crate::ast::Span;
use crate::types::Type;
use crate::types::display;

verus! {

/// A semantic error detected during name resolution or type checking.
#[allow(inconsistent_fields)]
#[derive(Debug)]
pub enum CheckError {
    /// Reported as: undefined variable `{name}`
    UndefinedVariable {
        name: String,
        span: Span,
    },
    /// Reported as: undefined agent `{name}`
    UndefinedAgent {
        name: String,
        span: Span,
    },
    /// Reported as: undefined function `{name}`
    UndefinedFunction {
        name: String,
        span: Span,
    },
    /// Reported as: undefined belief `{name}`
    UndefinedBelief {
        name: String,
        span: Span,
    },
    /// Reported as: duplicate definition of `{name}`
    DuplicateDefinition {
        name: String,
        span: Span,
    },
    /// Reported as: `self` used outside of agent context
    SelfOutsideAgent {
        span: Span,
    },
    /// Reported as: type mismatch: expected `{expected}`, found `{found}`
    TypeMismatch {
        expected: String,
        found: String,
        span: Span,
    },
    /// Reported as: cannot apply operator `{op}` to types `{left}` and `{right}`
    InvalidBinaryOp {
        op: String,
        left: String,
        right: String,
        span: Span,
    },
    /// Reported as: cannot apply operator `{op}` to type `{operand}`
    InvalidUnaryOp {
        op: String,
        operand: String,
        span: Span,
    },
    /// Reported as: cannot iterate over type `{ty}`
    NotIterable {
        ty: String,
        span: Span,
    },
    /// Reported as: cannot await non-agent type `{ty}`
    AwaitNonAgent {
        ty: String,
        span: Span,
    },
    /// Reported as: cannot send to non-agent type `{ty}`
    SendNonAgent {
        ty: String,
        span: Span,
    },
    /// Reported as: function `{name}` expects {expected} arguments, found {found}
    WrongArgCount {
        name: String,
        expected: usize,
        found: usize,
        span: Span,
    },
    /// Reported as: missing belief initialization: `{name}`
    MissingBeliefInit {
        name: String,
        span: Span,
    },
    /// Reported as: unknown field `{name}` in agent initialization
    UnknownField {
        name: String,
        span: Span,
    },
    /// Reported as: agent `{name}` has no message handler
    NoMessageHandler {
        name: String,
        span: Span,
    },
    /// Reported as: entry agent `{name}` must have no beliefs
    EntryAgentHasBeliefs {
        name: String,
        span: Span,
    },
    /// Reported as: entry agent `{name}` must have an `on start` handler
    EntryAgentNoStart {
        name: String,
        span: Span,
    },
    /// Reported as: module `{path}` not found
    ModuleNotFound {
        path: String,
        span: Span,
    },
    /// Reported as: item `{name}` in module `{module}` is private
    PrivateItem {
        name: String,
        module: String,
        span: Span,
    },
    /// Reported as: item `{name}` not found in module `{module}`
    ItemNotFound {
        name: String,
        module: String,
        span: Span,
    },
    /// Reported as: undefined type `{name}`
    UndefinedType {
        name: String,
        span: Span,
    },
    /// Reported as: missing field `{field}` in record `{record}`
    MissingField {
        field: String,
        record: String,
        span: Span,
    },
    /// Reported as: cannot access field on type `{ty}`
    FieldAccessOnNonRecord {
        ty: String,
        span: Span,
    },
    /// Reported as: undefined field `{field}` in record `{record}`
    UndefinedRecordField {
        field: String,
        record: String,
        span: Span,
    },
    /// Reported as: undefined variant `{variant}` in enum `{enum_name}`
    UndefinedEnumVariant {
        variant: String,
        enum_name: String,
        span: Span,
    },
    /// Reported as: non-exhaustive match: missing patterns
    NonExhaustiveMatch {
        span: Span,
    },
    /// Reported as: cannot call value of type `{ty}`
    NotCallable {
        ty: String,
        span: Span,
    },
    /// Reported as: unused belief `{name}`
    UnusedBelief {
        name: String,
        span: Span,
    },
    /// Reported as: return statement outside of function
    ReturnOutsideFunction {
        span: Span,
    },
    /// Reported as: condition must be Bool, found `{found}`
    NonBoolCondition {
        found: String,
        span: Span,
    },
    /// Reported as: `break` outside of loop
    BreakOutsideLoop {
        span: Span,
    },
    /// Reported as: `receive()` called in agent `{name}` which has no `receives` declaration
    ReceiveWithoutReceives {
        name: String,
        span: Span,
    },
    /// Reported as: `receive()` called outside of agent
    ReceiveOutsideAgent {
        span: Span,
    },
    /// Reported as: unhandled error: calling fallible function `{name}` without `try` or `catch`
    UnhandledError {
        name: String,
        span: Span,
    },
    /// Reported as: `try` used in non-fallible context
    TryInNonFallible {
        span: Span,
    },
    /// Reported as: catch recovery type mismatch: expected `{expected}`, found `{found}`
    CatchTypeMismatch {
        expected: String,
        found: String,
        span: Span,
    },
    /// Reported as: unhandled propagated error in agent without `on error` handler
    MissingErrorHandler {
        agent: String,
        span: Span,
    },
    /// Reported as: `yield` cannot be called in `on stop` handler
    EmitInStopHandler {
        span: Span,
    },
    /// Reported as: closure parameter `{name}` requires type annotation
    ClosureParamNeedsType {
        name: String,
        span: Span,
    },
    /// Reported as: tuple arity mismatch: expected {expected} elements, found {found}
    TupleArityMismatch {
        expected: usize,
        found: usize,
        span: Span,
    },
    /// Reported as: tuple index {index} out of bounds for tuple with {len} elements
    TupleIndexOutOfBounds {
        index: usize,
        len: usize,
        span: Span,
    },
    /// Reported as: cannot use tuple index on non-tuple type `{ty}`
    TupleIndexOnNonTuple {
        ty: String,
        span: Span,
    },
    /// Reported as: empty map literal requires type annotation
    EmptyMapLiteral {
        span: Span,
    },
    /// Reported as: tool `{tool}` has no function `{function}`
    UndefinedToolFunction {
        tool: String,
        function: String,
        span: Span,
    },
    /// Reported as: agent uses tool `{tool}` without declaring `use {tool}`
    UndeclaredToolUse {
        tool: String,
        span: Span,
    },
    /// Reported as: tool function `{tool}.{function}` expects {expected} arguments, found {found}
    ToolCallArity {
        tool: String,
        function: String,
        expected: usize,
        found: usize,
        span: Span,
    },
    /// Reported as: test constructs are only available in `_test.sg` files
    TestOutsideTestFile {
        span: Span,
    },
    /// Reported as: `run` statement not allowed in test files
    RunInTestFile {
        span: Span,
    },
    /// Reported as: duplicate test name `{name}`
    DuplicateTestName {
        name: String,
        span: Span,
    },
    /// Reported as: `mock divine` is only valid inside a `test` block
    MockInferOutsideTest {
        span: Span,
    },
    /// Reported as: `mock tool` is only valid inside a `test` block
    MockToolOutsideTest {
        span: Span,
    },
    /// Reported as: `fail` argument must be a String
    MockFailNotString {
        found: String,
        span: Span,
    },
    /// Reported as: `@persistent` field `{name}` has non-serializable type `{ty}`
    PersistentFieldNotSerializable {
        name: String,
        ty: String,
        span: Span,
    },
    /// Reported as: `checkpoint()` called outside of agent handler
    CheckpointOutsideAgent {
        span: Span,
    },
    /// Reported as: `on waking` handler in agent with no `@persistent` fields
    WakingWithoutPersistentFields {
        agent_name: String,
        span: Span,
    },
    /// Reported as: {message}
    GenericError {
        message: String,
        span: Span,
    },
    /// Reported as: supervisor `{name}` has no children
    SupervisorNoChildren {
        name: String,
        span: Span,
    },
    /// Reported as: child agent `{child}` does not exist
    SupervisorChildNotFound {
        child: String,
        span: Span,
    },
    /// Reported as: child `{child}` is missing required belief `{belief}`
    SupervisorChildMissingBelief {
        child: String,
        belief: String,
        span: Span,
    },
    /// Reported as: supervisor nesting depth exceeds maximum ({depth} > {max})
    SupervisorNestingTooDeep {
        depth: usize,
        max: usize,
        span: Span,
    },
    /// Reported as: child `{child}` has Permanent restart but no @persistent fields
    PermanentWithoutPersistence {
        child: String,
        span: Span,
    },
    /// Reported as: unknown protocol `{name}`
    UnknownProtocol {
        name: String,
        span: Span,
    },
    /// Reported as: unknown role `{role}` in protocol `{protocol}`
    UnknownProtocolRole {
        role: String,
        protocol: String,
        span: Span,
    },
    /// Reported as: unknown effect handler `{name}`
    UnknownEffectHandler {
        name: String,
        span: Span,
    },
    /// Reported as: `reply` used outside of message handler
    ReplyOutsideMessageHandler {
        span: Span,
    },
    /// Reported as: message type `{msg_type}` not allowed in protocol `{protocol}` from `{sender}` to `{receiver}`
    ProtocolMessageMismatch {
        protocol: String,
        sender: String,
        receiver: String,
        msg_type: String,
        span: Span,
    },
    /// Reported as: protocol `{protocol}` requires reply in message handler
    ProtocolMissingReply {
        protocol: String,
        span: Span,
    },
    /// Reported as: agents do not share a protocol permitting this message
    NoSharedProtocol {
        sender: String,
        receiver: String,
        msg_type: String,
        span: Span,
    },
}

/// The model of a [`CheckError`]: texts as character sequences.
#[allow(inconsistent_fields)]
pub ghost enum ErrV {
    UndefinedVariable { name: Seq<char>, span: Span },
    UndefinedAgent { name: Seq<char>, span: Span },
    UndefinedFunction { name: Seq<char>, span: Span },
    UndefinedBelief { name: Seq<char>, span: Span },
    DuplicateDefinition { name: Seq<char>, span: Span },
    SelfOutsideAgent { span: Span },
    TypeMismatch { expected: Seq<char>, found: Seq<char>, span: Span },
    InvalidBinaryOp { op: Seq<char>, left: Seq<char>, right: Seq<char>, span: Span },
    InvalidUnaryOp { op: Seq<char>, operand: Seq<char>, span: Span },
    NotIterable { ty: Seq<char>, span: Span },
    AwaitNonAgent { ty: Seq<char>, span: Span },
    SendNonAgent { ty: Seq<char>, span: Span },
    WrongArgCount { name: Seq<char>, expected: nat, found: nat, span: Span },
    MissingBeliefInit { name: Seq<char>, span: Span },
    UnknownField { name: Seq<char>, span: Span },
    NoMessageHandler { name: Seq<char>, span: Span },
    EntryAgentHasBeliefs { name: Seq<char>, span: Span },
    EntryAgentNoStart { name: Seq<char>, span: Span },
    ModuleNotFound { path: Seq<char>, span: Span },
    PrivateItem { name: Seq<char>, module: Seq<char>, span: Span },
    ItemNotFound { name: Seq<char>, module: Seq<char>, span: Span },
    UndefinedType { name: Seq<char>, span: Span },
    MissingField { field: Seq<char>, record: Seq<char>, span: Span },
    FieldAccessOnNonRecord { ty: Seq<char>, span: Span },
    UndefinedRecordField { field: Seq<char>, record: Seq<char>, span: Span },
    UndefinedEnumVariant { variant: Seq<char>, enum_name: Seq<char>, span: Span },
    NonExhaustiveMatch { span: Span },
    NotCallable { ty: Seq<char>, span: Span },
    UnusedBelief { name: Seq<char>, span: Span },
    ReturnOutsideFunction { span: Span },
    NonBoolCondition { found: Seq<char>, span: Span },
    BreakOutsideLoop { span: Span },
    ReceiveWithoutReceives { name: Seq<char>, span: Span },
    ReceiveOutsideAgent { span: Span },
    UnhandledError { name: Seq<char>, span: Span },
    TryInNonFallible { span: Span },
    CatchTypeMismatch { expected: Seq<char>, found: Seq<char>, span: Span },
    MissingErrorHandler { agent: Seq<char>, span: Span },
    EmitInStopHandler { span: Span },
    ClosureParamNeedsType { name: Seq<char>, span: Span },
    TupleArityMismatch { expected: nat, found: nat, span: Span },
    TupleIndexOutOfBounds { index: nat, len: nat, span: Span },
    TupleIndexOnNonTuple { ty: Seq<char>, span: Span },
    EmptyMapLiteral { span: Span },
    UndefinedToolFunction { tool: Seq<char>, function: Seq<char>, span: Span },
    UndeclaredToolUse { tool: Seq<char>, span: Span },
    ToolCallArity { tool: Seq<char>, function: Seq<char>, expected: nat, found: nat, span: Span },
    TestOutsideTestFile { span: Span },
    RunInTestFile { span: Span },
    DuplicateTestName { name: Seq<char>, span: Span },
    MockInferOutsideTest { span: Span },
    MockToolOutsideTest { span: Span },
    MockFailNotString { found: Seq<char>, span: Span },
    PersistentFieldNotSerializable { name: Seq<char>, ty: Seq<char>, span: Span },
    CheckpointOutsideAgent { span: Span },
    WakingWithoutPersistentFields { agent_name: Seq<char>, span: Span },
    GenericError { message: Seq<char>, span: Span },
    SupervisorNoChildren { name: Seq<char>, span: Span },
    SupervisorChildNotFound { child: Seq<char>, span: Span },
    SupervisorChildMissingBelief { child: Seq<char>, belief: Seq<char>, span: Span },
    SupervisorNestingTooDeep { depth: nat, max: nat, span: Span },
    PermanentWithoutPersistence { child: Seq<char>, span: Span },
    UnknownProtocol { name: Seq<char>, span: Span },
    UnknownProtocolRole { role: Seq<char>, protocol: Seq<char>, span: Span },
    UnknownEffectHandler { name: Seq<char>, span: Span },
    ReplyOutsideMessageHandler { span: Span },
    ProtocolMessageMismatch { protocol: Seq<char>, sender: Seq<char>, receiver: Seq<char>, msg_type: Seq<char>, span: Span },
    ProtocolMissingReply { protocol: Seq<char>, span: Span },
    NoSharedProtocol { sender: Seq<char>, receiver: Seq<char>, msg_type: Seq<char>, span: Span },
}

impl View for CheckError {
    type V = ErrV;

    open spec fn view(&self) -> ErrV {
        match self {
            CheckError::UndefinedVariable { name, span } => ErrV::UndefinedVariable { name: name@, span: *span },
            CheckError::UndefinedAgent { name, span } => ErrV::UndefinedAgent { name: name@, span: *span },
            CheckError::UndefinedFunction { name, span } => ErrV::UndefinedFunction { name: name@, span: *span },
            CheckError::UndefinedBelief { name, span } => ErrV::UndefinedBelief { name: name@, span: *span },
            CheckError::DuplicateDefinition { name, span } => ErrV::DuplicateDefinition { name: name@, span: *span },
            CheckError::SelfOutsideAgent { span } => ErrV::SelfOutsideAgent { span: *span },
            CheckError::TypeMismatch { expected, found, span } => ErrV::TypeMismatch { expected: expected@, found: found@, span: *span },
            CheckError::InvalidBinaryOp { op, left, right, span } => ErrV::InvalidBinaryOp { op: op@, left: left@, right: right@, span: *span },
            CheckError::InvalidUnaryOp { op, operand, span } => ErrV::InvalidUnaryOp { op: op@, operand: operand@, span: *span },
            CheckError::NotIterable { ty, span } => ErrV::NotIterable { ty: ty@, span: *span },
            CheckError::AwaitNonAgent { ty, span } => ErrV::AwaitNonAgent { ty: ty@, span: *span },
            CheckError::SendNonAgent { ty, span } => ErrV::SendNonAgent { ty: ty@, span: *span },
            CheckError::WrongArgCount { name, expected, found, span } => ErrV::WrongArgCount { name: name@, expected: *expected as nat, found: *found as nat, span: *span },
            CheckError::MissingBeliefInit { name, span } => ErrV::MissingBeliefInit { name: name@, span: *span },
            CheckError::UnknownField { name, span } => ErrV::UnknownField { name: name@, span: *span },
            CheckError::NoMessageHandler { name, span } => ErrV::NoMessageHandler { name: name@, span: *span },
            CheckError::EntryAgentHasBeliefs { name, span } => ErrV::EntryAgentHasBeliefs { name: name@, span: *span },
            CheckError::EntryAgentNoStart { name, span } => ErrV::EntryAgentNoStart { name: name@, span: *span },
            CheckError::ModuleNotFound { path, span } => ErrV::ModuleNotFound { path: path@, span: *span },
            CheckError::PrivateItem { name, module, span } => ErrV::PrivateItem { name: name@, module: module@, span: *span },
            CheckError::ItemNotFound { name, module, span } => ErrV::ItemNotFound { name: name@, module: module@, span: *span },
            CheckError::UndefinedType { name, span } => ErrV::UndefinedType { name: name@, span: *span },
            CheckError::MissingField { field, record, span } => ErrV::MissingField { field: field@, record: record@, span: *span },
            CheckError::FieldAccessOnNonRecord { ty, span } => ErrV::FieldAccessOnNonRecord { ty: ty@, span: *span },
            CheckError::UndefinedRecordField { field, record, span } => ErrV::UndefinedRecordField { field: field@, record: record@, span: *span },
            CheckError::UndefinedEnumVariant { variant, enum_name, span } => ErrV::UndefinedEnumVariant { variant: variant@, enum_name: enum_name@, span: *span },
            CheckError::NonExhaustiveMatch { span } => ErrV::NonExhaustiveMatch { span: *span },
            CheckError::NotCallable { ty, span } => ErrV::NotCallable { ty: ty@, span: *span },
            CheckError::UnusedBelief { name, span } => ErrV::UnusedBelief { name: name@, span: *span },
            CheckError::ReturnOutsideFunction { span } => ErrV::ReturnOutsideFunction { span: *span },
            CheckError::NonBoolCondition { found, span } => ErrV::NonBoolCondition { found: found@, span: *span },
            CheckError::BreakOutsideLoop { span } => ErrV::BreakOutsideLoop { span: *span },
            CheckError::ReceiveWithoutReceives { name, span } => ErrV::ReceiveWithoutReceives { name: name@, span: *span },
            CheckError::ReceiveOutsideAgent { span } => ErrV::ReceiveOutsideAgent { span: *span },
            CheckError::UnhandledError { name, span } => ErrV::UnhandledError { name: name@, span: *span },
            CheckError::TryInNonFallible { span } => ErrV::TryInNonFallible { span: *span },
            CheckError::CatchTypeMismatch { expected, found, span } => ErrV::CatchTypeMismatch { expected: expected@, found: found@, span: *span },
            CheckError::MissingErrorHandler { agent, span } => ErrV::MissingErrorHandler { agent: agent@, span: *span },
            CheckError::EmitInStopHandler { span } => ErrV::EmitInStopHandler { span: *span },
            CheckError::ClosureParamNeedsType { name, span } => ErrV::ClosureParamNeedsType { name: name@, span: *span },
            CheckError::TupleArityMismatch { expected, found, span } => ErrV::TupleArityMismatch { expected: *expected as nat, found: *found as nat, span: *span },
            CheckError::TupleIndexOutOfBounds { index, len, span } => ErrV::TupleIndexOutOfBounds { index: *index as nat, len: *len as nat, span: *span },
            CheckError::TupleIndexOnNonTuple { ty, span } => ErrV::TupleIndexOnNonTuple { ty: ty@, span: *span },
            CheckError::EmptyMapLiteral { span } => ErrV::EmptyMapLiteral { span: *span },
            CheckError::UndefinedToolFunction { tool, function, span } => ErrV::UndefinedToolFunction { tool: tool@, function: function@, span: *span },
            CheckError::UndeclaredToolUse { tool, span } => ErrV::UndeclaredToolUse { tool: tool@, span: *span },
            CheckError::ToolCallArity { tool, function, expected, found, span } => ErrV::ToolCallArity { tool: tool@, function: function@, expected: *expected as nat, found: *found as nat, span: *span },
            CheckError::TestOutsideTestFile { span } => ErrV::TestOutsideTestFile { span: *span },
            CheckError::RunInTestFile { span } => ErrV::RunInTestFile { span: *span },
            CheckError::DuplicateTestName { name, span } => ErrV::DuplicateTestName { name: name@, span: *span },
            CheckError::MockInferOutsideTest { span } => ErrV::MockInferOutsideTest { span: *span },
            CheckError::MockToolOutsideTest { span } => ErrV::MockToolOutsideTest { span: *span },
            CheckError::MockFailNotString { found, span } => ErrV::MockFailNotString { found: found@, span: *span },
            CheckError::PersistentFieldNotSerializable { name, ty, span } => ErrV::PersistentFieldNotSerializable { name: name@, ty: ty@, span: *span },
            CheckError::CheckpointOutsideAgent { span } => ErrV::CheckpointOutsideAgent { span: *span },
            CheckError::WakingWithoutPersistentFields { agent_name, span } => ErrV::WakingWithoutPersistentFields { agent_name: agent_name@, span: *span },
            CheckError::GenericError { message, span } => ErrV::GenericError { message: message@, span: *span },
            CheckError::SupervisorNoChildren { name, span } => ErrV::SupervisorNoChildren { name: name@, span: *span },
            CheckError::SupervisorChildNotFound { child, span } => ErrV::SupervisorChildNotFound { child: child@, span: *span },
            CheckError::SupervisorChildMissingBelief { child, belief, span } => ErrV::SupervisorChildMissingBelief { child: child@, belief: belief@, span: *span },
            CheckError::SupervisorNestingTooDeep { depth, max, span } => ErrV::SupervisorNestingTooDeep { depth: *depth as nat, max: *max as nat, span: *span },
            CheckError::PermanentWithoutPersistence { child, span } => ErrV::PermanentWithoutPersistence { child: child@, span: *span },
            CheckError::UnknownProtocol { name, span } => ErrV::UnknownProtocol { name: name@, span: *span },
            CheckError::UnknownProtocolRole { role, protocol, span } => ErrV::UnknownProtocolRole { role: role@, protocol: protocol@, span: *span },
            CheckError::UnknownEffectHandler { name, span } => ErrV::UnknownEffectHandler { name: name@, span: *span },
            CheckError::ReplyOutsideMessageHandler { span } => ErrV::ReplyOutsideMessageHandler { span: *span },
            CheckError::ProtocolMessageMismatch { protocol, sender, receiver, msg_type, span } => ErrV::ProtocolMessageMismatch { protocol: protocol@, sender: sender@, receiver: receiver@, msg_type: msg_type@, span: *span },
            CheckError::ProtocolMissingReply { protocol, span } => ErrV::ProtocolMissingReply { protocol: protocol@, span: *span },
            CheckError::NoSharedProtocol { sender, receiver, msg_type, span } => ErrV::NoSharedProtocol { sender: sender@, receiver: receiver@, msg_type: msg_type@, span: *span },
        }
    }
}

impl CheckError {
    /// Create an undefined variable error.
    pub fn undefined_variable(name: &str, span: &Span) -> (r: CheckError)
        ensures
            r@ == (ErrV::UndefinedVariable { name: name@, span: *span }),
    {
        CheckError::UndefinedVariable { name: String::from_str(name), span: *span }
    }

    /// Create an undefined agent error.
    pub fn undefined_agent(name: &str, span: &Span) -> (r: CheckError)
        ensures
            r@ == (ErrV::UndefinedAgent { name: name@, span: *span }),
    {
        CheckError::UndefinedAgent { name: String::from_str(name), span: *span }
    }

    /// Create an undefined function error.
    pub fn undefined_function(name: &str, span: &Span) -> (r: CheckError)
        ensures
            r@ == (ErrV::UndefinedFunction { name: name@, span: *span }),
    {
        CheckError::UndefinedFunction { name: String::from_str(name), span: *span }
    }

    /// Create an undefined belief error.
    pub fn undefined_belief(name: &str, span: &Span) -> (r: CheckError)
        ensures
            r@ == (ErrV::UndefinedBelief { name: name@, span: *span }),
    {
        CheckError::UndefinedBelief { name: String::from_str(name), span: *span }
    }

    /// Create a duplicate definition error.
    pub fn duplicate_definition(name: &str, span: &Span) -> (r: CheckError)
        ensures
            r@ == (ErrV::DuplicateDefinition { name: name@, span: *span }),
    {
        CheckError::DuplicateDefinition { name: String::from_str(name), span: *span }
    }

    /// Create a self-outside-agent error.
    pub fn self_outside_agent(span: &Span) -> (r: CheckError)
        ensures
            r@ == (ErrV::SelfOutsideAgent { span: *span }),
    {
        CheckError::SelfOutsideAgent { span: *span }
    }

    /// Create a type mismatch error.
    pub fn type_mismatch(expected: &str, found: &str, span: &Span) -> (r: CheckError)
        ensures
            r@ == (ErrV::TypeMismatch { expected: expected@, found: found@, span: *span }),
    {
        CheckError::TypeMismatch { expected: String::from_str(expected), found: String::from_str(found), span: *span }
    }

    /// Create an invalid binary operator error.
    pub fn invalid_binary_op(op: &str, left: &str, right: &str, span: &Span) -> (r: CheckError)
        ensures
            r@ == (ErrV::InvalidBinaryOp { op: op@, left: left@, right: right@, span: *span }),
    {
        CheckError::InvalidBinaryOp { op: String::from_str(op), left: String::from_str(left), right: String::from_str(right), span: *span }
    }

    /// Create an invalid unary operator error.
    pub fn invalid_unary_op(op: &str, operand: &str, span: &Span) -> (r: CheckError)
        ensures
            r@ == (ErrV::InvalidUnaryOp { op: op@, operand: operand@, span: *span }),
    {
        CheckError::InvalidUnaryOp { op: String::from_str(op), operand: String::from_str(operand), span: *span }
    }

    /// Create a not-iterable error.
    pub fn not_iterable(ty: &str, span: &Span) -> (r: CheckError)
        ensures
            r@ == (ErrV::NotIterable { ty: ty@, span: *span }),
    {
        CheckError::NotIterable { ty: String::from_str(ty), span: *span }
    }

    /// Create an await-non-agent error.
    pub fn await_non_agent(ty: &str, span: &Span) -> (r: CheckError)
        ensures
            r@ == (ErrV::AwaitNonAgent { ty: ty@, span: *span }),
    {
        CheckError::AwaitNonAgent { ty: String::from_str(ty), span: *span }
    }

    /// Create a send-non-agent error.
    pub fn send_non_agent(ty: &str, span: &Span) -> (r: CheckError)
        ensures
            r@ == (ErrV::SendNonAgent { ty: ty@, span: *span }),
    {
        CheckError::SendNonAgent { ty: String::from_str(ty), span: *span }
    }

    /// Create a wrong argument count error.
    pub fn wrong_arg_count(name: &str, expected: usize, found: usize, span: &Span) -> (r: CheckError)
        ensures
            r@ == (ErrV::WrongArgCount { name: name@, expected: expected as nat, found: found as nat, span: *span }),
    {
        CheckError::WrongArgCount { name: String::from_str(name), expected: expected, found: found, span: *span }
    }

    /// Create a missing belief initialization error.
    pub fn missing_belief_init(name: &str, span: &Span) -> (r: CheckError)
        ensures
            r@ == (ErrV::MissingBeliefInit { name: name@, span: *span }),
    {
        CheckError::MissingBeliefInit { name: String::from_str(name), span: *span }
    }

    /// Create an unknown field error.
    pub fn unknown_field(name: &str, span: &Span) -> (r: CheckError)
        ensures
            r@ == (ErrV::UnknownField { name: name@, span: *span }),
    {
        CheckError::UnknownField { name: String::from_str(name), span: *span }
    }

    /// Create a no-message-handler error.
    pub fn no_message_handler(name: &str, span: &Span) -> (r: CheckError)
        ensures
            r@ == (ErrV::NoMessageHandler { name: name@, span: *span }),
    {
        CheckError::NoMessageHandler { name: String::from_str(name), span: *span }
    }

    /// Create an entry-agent-has-beliefs error.
    pub fn entry_agent_has_beliefs(name: &str, span: &Span) -> (r: CheckError)
        ensures
            r@ == (ErrV::EntryAgentHasBeliefs { name: name@, span: *span }),
    {
        CheckError::EntryAgentHasBeliefs { name: String::from_str(name), span: *span }
    }

    /// Create an entry-agent-no-start error.
    pub fn entry_agent_no_start(name: &str, span: &Span) -> (r: CheckError)
        ensures
            r@ == (ErrV::EntryAgentNoStart { name: name@, span: *span }),
    {
        CheckError::EntryAgentNoStart { name: String::from_str(name), span: *span }
    }

    /// Create a return-outside-function error.
    pub fn return_outside_function(span: &Span) -> (r: CheckError)
        ensures
            r@ == (ErrV::ReturnOutsideFunction { span: *span }),
    {
        CheckError::ReturnOutsideFunction { span: *span }
    }

    /// Create a non-bool-condition error.
    pub fn non_bool_condition(found: &str, span: &Span) -> (r: CheckError)
        ensures
            r@ == (ErrV::NonBoolCondition { found: found@, span: *span }),
    {
        CheckError::NonBoolCondition { found: String::from_str(found), span: *span }
    }

    /// Create an unused belief warning.
    pub fn unused_belief(name: &str, span: &Span) -> (r: CheckError)
        ensures
            r@ == (ErrV::UnusedBelief { name: name@, span: *span }),
    {
        CheckError::UnusedBelief { name: String::from_str(name), span: *span }
    }

    /// Create a module-not-found error.
    pub fn module_not_found(path: &str, span: &Span) -> (r: CheckError)
        ensures
            r@ == (ErrV::ModuleNotFound { path: path@, span: *span }),
    {
        CheckError::ModuleNotFound { path: String::from_str(path), span: *span }
    }

    /// Create a private-item error.
    pub fn private_item(name: &str, module: &str, span: &Span) -> (r: CheckError)
        ensures
            r@ == (ErrV::PrivateItem { name: name@, module: module@, span: *span }),
    {
        CheckError::PrivateItem { name: String::from_str(name), module: String::from_str(module), span: *span }
    }

    /// Create an item-not-found error.
    pub fn item_not_found(name: &str, module: &str, span: &Span) -> (r: CheckError)
        ensures
            r@ == (ErrV::ItemNotFound { name: name@, module: module@, span: *span }),
    {
        CheckError::ItemNotFound { name: String::from_str(name), module: String::from_str(module), span: *span }
    }

    /// Create an undefined type error.
    pub fn undefined_type(name: &str, span: &Span) -> (r: CheckError)
        ensures
            r@ == (ErrV::UndefinedType { name: name@, span: *span }),
    {
        CheckError::UndefinedType { name: String::from_str(name), span: *span }
    }

    /// Create a missing field error.
    pub fn missing_field(field: &str, record: &str, span: &Span) -> (r: CheckError)
        ensures
            r@ == (ErrV::MissingField { field: field@, record: record@, span: *span }),
    {
        CheckError::MissingField { field: String::from_str(field), record: String::from_str(record), span: *span }
    }

    /// Create a field-access-on-non-record error.
    pub fn field_access_on_non_record(ty: &str, span: &Span) -> (r: CheckError)
        ensures
            r@ == (ErrV::FieldAccessOnNonRecord { ty: ty@, span: *span }),
    {
        CheckError::FieldAccessOnNonRecord { ty: String::from_str(ty), span: *span }
    }

    /// Create a not callable error.
    pub fn not_callable(ty: &Type, span: &Span) -> (r: CheckError)
        ensures
            r@ == (ErrV::NotCallable { ty: display(ty@), span: *span }),
    {
        CheckError::NotCallable { ty: ty.to_display_string(), span: *span }
    }

    /// Create an undefined record field error.
    pub fn undefined_record_field(field: &str, record: &str, span: &Span) -> (r: CheckError)
        ensures
            r@ == (ErrV::UndefinedRecordField { field: field@, record: record@, span: *span }),
    {
        CheckError::UndefinedRecordField { field: String::from_str(field), record: String::from_str(record), span: *span }
    }

    /// Create an undefined enum variant error.
    pub fn undefined_enum_variant(variant: &str, enum_name: &str, span: &Span) -> (r: CheckError)
        ensures
            r@ == (ErrV::UndefinedEnumVariant { variant: variant@, enum_name: enum_name@, span: *span }),
    {
        CheckError::UndefinedEnumVariant { variant: String::from_str(variant), enum_name: String::from_str(enum_name), span: *span }
    }

    /// Create a non-exhaustive match error.
    pub fn non_exhaustive_match(span: &Span) -> (r: CheckError)
        ensures
            r@ == (ErrV::NonExhaustiveMatch { span: *span }),
    {
        CheckError::NonExhaustiveMatch { span: *span }
    }

    /// Create a break-outside-loop error.
    pub fn break_outside_loop(span: &Span) -> (r: CheckError)
        ensures
            r@ == (ErrV::BreakOutsideLoop { span: *span }),
    {
        CheckError::BreakOutsideLoop { span: *span }
    }

    /// Create a receive-without-receives error.
    pub fn receive_without_receives(name: &str, span: &Span) -> (r: CheckError)
        ensures
            r@ == (ErrV::ReceiveWithoutReceives { name: name@, span: *span }),
    {
        CheckError::ReceiveWithoutReceives { name: String::from_str(name), span: *span }
    }

    /// Create a receive-outside-agent error.
    pub fn receive_outside_agent(span: &Span) -> (r: CheckError)
        ensures
            r@ == (ErrV::ReceiveOutsideAgent { span: *span }),
    {
        CheckError::ReceiveOutsideAgent { span: *span }
    }

    /// Create an unhandled error (E013).
    pub fn unhandled_error(name: &str, span: &Span) -> (r: CheckError)
        ensures
            r@ == (ErrV::UnhandledError { name: name@, span: *span }),
    {
        CheckError::UnhandledError { name: String::from_str(name), span: *span }
    }

    /// Create a try-in-non-fallible error (E014).
    pub fn try_in_non_fallible(span: &Span) -> (r: CheckError)
        ensures
            r@ == (ErrV::TryInNonFallible { span: *span }),
    {
        CheckError::TryInNonFallible { span: *span }
    }

    /// Create a catch type mismatch error (E015).
    pub fn catch_type_mismatch(expected: &str, found: &str, span: &Span) -> (r: CheckError)
        ensures
            r@ == (ErrV::CatchTypeMismatch { expected: expected@, found: found@, span: *span }),
    {
        CheckError::CatchTypeMismatch { expected: String::from_str(expected), found: String::from_str(found), span: *span }
    }

    /// Create a missing error handler error (E016).
    pub fn missing_error_handler(agent: &str, span: &Span) -> (r: CheckError)
        ensures
            r@ == (ErrV::MissingErrorHandler { agent: agent@, span: *span }),
    {
        CheckError::MissingErrorHandler { agent: String::from_str(agent), span: *span }
    }

    /// Create a yield in stop handler error (E017).
    pub fn yield_in_stop_handler(span: &Span) -> (r: CheckError)
        ensures
            r@ == (ErrV::EmitInStopHandler { span: *span }),
    {
        CheckError::EmitInStopHandler { span: *span }
    }

    /// Create a closure param needs type error (E040).
    pub fn closure_param_needs_type(name: &str, span: &Span) -> (r: CheckError)
        ensures
            r@ == (ErrV::ClosureParamNeedsType { name: name@, span: *span }),
    {
        CheckError::ClosureParamNeedsType { name: String::from_str(name), span: *span }
    }

    /// Create a tuple arity mismatch error (E028).
    pub fn tuple_arity_mismatch(expected: usize, found: usize, span: &Span) -> (r: CheckError)
        ensures
            r@ == (ErrV::TupleArityMismatch { expected: expected as nat, found: found as nat, span: *span }),
    {
        CheckError::TupleArityMismatch { expected: expected, found: found, span: *span }
    }

    /// Create a tuple index out of bounds error (E034).
    pub fn tuple_index_out_of_bounds(index: usize, len: usize, span: &Span) -> (r: CheckError)
        ensures
            r@ == (ErrV::TupleIndexOutOfBounds { index: index as nat, len: len as nat, span: *span }),
    {
        CheckError::TupleIndexOutOfBounds { index: index, len: len, span: *span }
    }

    /// Create a tuple index on non-tuple error (E049).
    pub fn tuple_index_on_non_tuple(ty: &str, span: &Span) -> (r: CheckError)
        ensures
            r@ == (ErrV::TupleIndexOnNonTuple { ty: ty@, span: *span }),
    {
        CheckError::TupleIndexOnNonTuple { ty: String::from_str(ty), span: *span }
    }

    /// Create an empty map literal error (E025).
    pub fn empty_map_literal(span: &Span) -> (r: CheckError)
        ensures
            r@ == (ErrV::EmptyMapLiteral { span: *span }),
    {
        CheckError::EmptyMapLiteral { span: *span }
    }

    /// Create an undefined tool function error (E036).
    pub fn undefined_tool_function(tool: &str, function: &str, span: &Span) -> (r: CheckError)
        ensures
            r@ == (ErrV::UndefinedToolFunction { tool: tool@, function: function@, span: *span }),
    {
        CheckError::UndefinedToolFunction { tool: String::from_str(tool), function: String::from_str(function), span: *span }
    }

    /// Create an undeclared tool use error (E038).
    pub fn undeclared_tool_use(tool: &str, span: &Span) -> (r: CheckError)
        ensures
            r@ == (ErrV::UndeclaredToolUse { tool: tool@, span: *span }),
    {
        CheckError::UndeclaredToolUse { tool: String::from_str(tool), span: *span }
    }

    /// Create a tool call arity error (E039).
    pub fn tool_call_arity(tool: &str, function: &str, expected: usize, found: usize, span: &Span) -> (r: CheckError)
        ensures
            r@ == (ErrV::ToolCallArity { tool: tool@, function: function@, expected: expected as nat, found: found as nat, span: *span }),
    {
        CheckError::ToolCallArity { tool: String::from_str(tool), function: String::from_str(function), expected: expected, found: found, span: *span }
    }

    /// Create a test-outside-test-file error (E050).
    pub fn test_outside_test_file(span: &Span) -> (r: CheckError)
        ensures
            r@ == (ErrV::TestOutsideTestFile { span: *span }),
    {
        CheckError::TestOutsideTestFile { span: *span }
    }

    /// Create a run-in-test-file error (E051).
    pub fn run_in_test_file(span: &Span) -> (r: CheckError)
        ensures
            r@ == (ErrV::RunInTestFile { span: *span }),
    {
        CheckError::RunInTestFile { span: *span }
    }

    /// Create a duplicate test name error (E055).
    pub fn duplicate_test_name(name: &str, span: &Span) -> (r: CheckError)
        ensures
            r@ == (ErrV::DuplicateTestName { name: name@, span: *span }),
    {
        CheckError::DuplicateTestName { name: String::from_str(name), span: *span }
    }

    /// Create a mock-divine-outside-test error (E056).
    pub fn mock_divine_outside_test(span: &Span) -> (r: CheckError)
        ensures
            r@ == (ErrV::MockInferOutsideTest { span: *span }),
    {
        CheckError::MockInferOutsideTest { span: *span }
    }

    /// Create a mock-tool-outside-test error (E057).
    pub fn mock_tool_outside_test(span: &Span) -> (r: CheckError)
        ensures
            r@ == (ErrV::MockToolOutsideTest { span: *span }),
    {
        CheckError::MockToolOutsideTest { span: *span }
    }

    /// Create a mock-fail-not-string error (E058).
    pub fn mock_fail_not_string(found: &str, span: &Span) -> (r: CheckError)
        ensures
            r@ == (ErrV::MockFailNotString { found: found@, span: *span }),
    {
        CheckError::MockFailNotString { found: String::from_str(found), span: *span }
    }

    /// Create a persistent field not serializable error (E052).
    pub fn persistent_field_not_serializable(name: &str, ty: &str, span: &Span) -> (r: CheckError)
        ensures
            r@ == (ErrV::PersistentFieldNotSerializable { name: name@, ty: ty@, span: *span }),
    {
        CheckError::PersistentFieldNotSerializable { name: String::from_str(name), ty: String::from_str(ty), span: *span }
    }

    /// Create a checkpoint outside agent error (E053).
    pub fn checkpoint_outside_agent(span: &Span) -> (r: CheckError)
        ensures
            r@ == (ErrV::CheckpointOutsideAgent { span: *span }),
    {
        CheckError::CheckpointOutsideAgent { span: *span }
    }

    /// Create a waking without persistent fields warning (W006).
    pub fn waking_without_persistent_fields(agent_name: &str, span: &Span) -> (r: CheckError)
        ensures
            r@ == (ErrV::WakingWithoutPersistentFields { agent_name: agent_name@, span: *span }),
    {
        CheckError::WakingWithoutPersistentFields { agent_name: String::from_str(agent_name), span: *span }
    }

    /// Create a generic-related error (E100).
    pub fn generic(message: &str, span: &Span) -> (r: CheckError)
        ensures
            r@ == (ErrV::GenericError { message: message@, span: *span }),
    {
        CheckError::GenericError { message: String::from_str(message), span: *span }
    }

    /// Create a supervisor-no-children error (E060).
    pub fn supervisor_no_children(name: &str, span: &Span) -> (r: CheckError)
        ensures
            r@ == (ErrV::SupervisorNoChildren { name: name@, span: *span }),
    {
        CheckError::SupervisorNoChildren { name: String::from_str(name), span: *span }
    }

    /// Create a supervisor-child-not-found error (E061).
    pub fn supervisor_child_not_found(child: &str, span: &Span) -> (r: CheckError)
        ensures
            r@ == (ErrV::SupervisorChildNotFound { child: child@, span: *span }),
    {
        CheckError::SupervisorChildNotFound { child: String::from_str(child), span: *span }
    }

    /// Create a supervisor-child-missing-belief error (E062).
    pub fn supervisor_child_missing_belief(child: &str, belief: &str, span: &Span) -> (r: CheckError)
        ensures
            r@ == (ErrV::SupervisorChildMissingBelief { child: child@, belief: belief@, span: *span }),
    {
        CheckError::SupervisorChildMissingBelief { child: String::from_str(child), belief: String::from_str(belief), span: *span }
    }

    /// Create a supervisor-nesting-too-deep error (E063).
    pub fn supervisor_nesting_too_deep(depth: usize, max: usize, span: &Span) -> (r: CheckError)
        ensures
            r@ == (ErrV::SupervisorNestingTooDeep { depth: depth as nat, max: max as nat, span: *span }),
    {
        CheckError::SupervisorNestingTooDeep { depth: depth, max: max, span: *span }
    }

    /// Create a permanent-without-persistence warning (W004).
    pub fn permanent_without_persistence(child: &str, span: &Span) -> (r: CheckError)
        ensures
            r@ == (ErrV::PermanentWithoutPersistence { child: child@, span: *span }),
    {
        CheckError::PermanentWithoutPersistence { child: String::from_str(child), span: *span }
    }

    /// Create an unknown-protocol error (E070).
    pub fn unknown_protocol(name: &str, span: &Span) -> (r: CheckError)
        ensures
            r@ == (ErrV::UnknownProtocol { name: name@, span: *span }),
    {
        CheckError::UnknownProtocol { name: String::from_str(name), span: *span }
    }

    /// Create an unknown-protocol-role error (E071).
    pub fn unknown_protocol_role(role: &str, protocol: &str, span: &Span) -> (r: CheckError)
        ensures
            r@ == (ErrV::UnknownProtocolRole { role: role@, protocol: protocol@, span: *span }),
    {
        CheckError::UnknownProtocolRole { role: String::from_str(role), protocol: String::from_str(protocol), span: *span }
    }

    /// Create an unknown-effect-handler error (E072).
    pub fn unknown_effect_handler(name: &str, span: &Span) -> (r: CheckError)
        ensures
            r@ == (ErrV::UnknownEffectHandler { name: name@, span: *span }),
    {
        CheckError::UnknownEffectHandler { name: String::from_str(name), span: *span }
    }

    /// Create a reply-outside-message-handler error (E073).
    pub fn reply_outside_message_handler(span: &Span) -> (r: CheckError)
        ensures
            r@ == (ErrV::ReplyOutsideMessageHandler { span: *span }),
    {
        CheckError::ReplyOutsideMessageHandler { span: *span }
    }

    /// Create a protocol-message-mismatch error (E074).
    pub fn protocol_message_mismatch(protocol: &str, sender: &str, receiver: &str, msg_type: &str, span: &Span) -> (r: CheckError)
        ensures
            r@ == (ErrV::ProtocolMessageMismatch { protocol: protocol@, sender: sender@, receiver: receiver@, msg_type: msg_type@, span: *span }),
    {
        CheckError::ProtocolMessageMismatch { protocol: String::from_str(protocol), sender: String::from_str(sender), receiver: String::from_str(receiver), msg_type: String::from_str(msg_type), span: *span }
    }

    /// Create a protocol-missing-reply error (E076).
    pub fn protocol_missing_reply(protocol: &str, span: &Span) -> (r: CheckError)
        ensures
            r@ == (ErrV::ProtocolMissingReply { protocol: protocol@, span: *span }),
    {
        CheckError::ProtocolMissingReply { protocol: String::from_str(protocol), span: *span }
    }

    /// Create a no-shared-protocol error (E078).
    pub fn no_shared_protocol(sender: &str, receiver: &str, msg_type: &str, span: &Span) -> (r: CheckError)
        ensures
            r@ == (ErrV::NoSharedProtocol { sender: sender@, receiver: receiver@, msg_type: msg_type@, span: *span }),
    {
        CheckError::NoSharedProtocol { sender: String::from_str(sender), receiver: String::from_str(receiver), msg_type: String::from_str(msg_type), span: *span }
    }

}


/// The message an error is reported with.
pub open spec fn message_v(e: ErrV) -> Seq<char> {
    match e {
        ErrV::UndefinedVariable { name, .. } => "undefined variable `"@ + name + "`"@,
        ErrV::UndefinedAgent { name, .. } => "undefined agent `"@ + name + "`"@,
        ErrV::UndefinedFunction { name, .. } => "undefined function `"@ + name + "`"@,
        ErrV::UndefinedBelief { name, .. } => "undefined belief `"@ + name + "`"@,
        ErrV::DuplicateDefinition { name, .. } => "duplicate definition of `"@ + name + "`"@,
        ErrV::SelfOutsideAgent { .. } => "`self` used outside of agent context"@,
        ErrV::TypeMismatch { expected, found, .. } => "type mismatch: expected `"@ + expected + "`, found `"@ + found + "`"@,
        ErrV::InvalidBinaryOp { left, op, right, .. } => "cannot apply operator `"@ + op + "` to types `"@ + left + "` and `"@ + right + "`"@,
        ErrV::InvalidUnaryOp { op, operand, .. } => "cannot apply operator `"@ + op + "` to type `"@ + operand + "`"@,
        ErrV::NotIterable { ty, .. } => "cannot iterate over type `"@ + ty + "`"@,
        ErrV::AwaitNonAgent { ty, .. } => "cannot await non-agent type `"@ + ty + "`"@,
        ErrV::SendNonAgent { ty, .. } => "cannot send to non-agent type `"@ + ty + "`"@,
        ErrV::WrongArgCount { expected, found, name, .. } => "function `"@ + name + "` expects "@ + decimal(expected) + " arguments, found "@ + decimal(found),
        ErrV::MissingBeliefInit { name, .. } => "missing belief initialization: `"@ + name + "`"@,
        ErrV::UnknownField { name, .. } => "unknown field `"@ + name + "` in agent initialization"@,
        ErrV::NoMessageHandler { name, .. } => "agent `"@ + name + "` has no message handler"@,
        ErrV::EntryAgentHasBeliefs { name, .. } => "entry agent `"@ + name + "` must have no beliefs"@,
        ErrV::EntryAgentNoStart { name, .. } => "entry agent `"@ + name + "` must have an `on start` handler"@,
        ErrV::ModuleNotFound { path, .. } => "module `"@ + path + "` not found"@,
        ErrV::PrivateItem { module, name, .. } => "item `"@ + name + "` in module `"@ + module + "` is private"@,
        ErrV::ItemNotFound { module, name, .. } => "item `"@ + name + "` not found in module `"@ + module + "`"@,
        ErrV::UndefinedType { name, .. } => "undefined type `"@ + name + "`"@,
        ErrV::MissingField { field, record, .. } => "missing field `"@ + field + "` in record `"@ + record + "`"@,
        ErrV::FieldAccessOnNonRecord { ty, .. } => "cannot access field on type `"@ + ty + "`"@,
        ErrV::UndefinedRecordField { field, record, .. } => "undefined field `"@ + field + "` in record `"@ + record + "`"@,
        ErrV::UndefinedEnumVariant { enum_name, variant, .. } => "undefined variant `"@ + variant + "` in enum `"@ + enum_name + "`"@,
        ErrV::NonExhaustiveMatch { .. } => "non-exhaustive match: missing patterns"@,
        ErrV::NotCallable { ty, .. } => "cannot call value of type `"@ + ty + "`"@,
        ErrV::UnusedBelief { name, .. } => "unused belief `"@ + name + "`"@,
        ErrV::ReturnOutsideFunction { .. } => "return statement outside of function"@,
        ErrV::NonBoolCondition { found, .. } => "condition must be Bool, found `"@ + found + "`"@,
        ErrV::BreakOutsideLoop { .. } => "`break` outside of loop"@,
        ErrV::ReceiveWithoutReceives { name, .. } => "`receive()` called in agent `"@ + name + "` which has no `receives` declaration"@,
        ErrV::ReceiveOutsideAgent { .. } => "`receive()` called outside of agent"@,
        ErrV::UnhandledError { name, .. } => "unhandled error: calling fallible function `"@ + name + "` without `try` or `catch`"@,
        ErrV::TryInNonFallible { .. } => "`try` used in non-fallible context"@,
        ErrV::CatchTypeMismatch { expected, found, .. } => "catch recovery type mismatch: expected `"@ + expected + "`, found `"@ + found + "`"@,
        ErrV::MissingErrorHandler { .. } => "unhandled propagated error in agent without `on error` handler"@,
        ErrV::EmitInStopHandler { .. } => "`yield` cannot be called in `on stop` handler"@,
        ErrV::ClosureParamNeedsType { name, .. } => "closure parameter `"@ + name + "` requires type annotation"@,
        ErrV::TupleArityMismatch { expected, found, .. } => "tuple arity mismatch: expected "@ + decimal(expected) + " elements, found "@ + decimal(found),
        ErrV::TupleIndexOutOfBounds { index, len, .. } => "tuple index "@ + decimal(index) + " out of bounds for tuple with "@ + decimal(len) + " elements"@,
        ErrV::TupleIndexOnNonTuple { ty, .. } => "cannot use tuple index on non-tuple type `"@ + ty + "`"@,
        ErrV::EmptyMapLiteral { .. } => "empty map literal requires type annotation"@,
        ErrV::UndefinedToolFunction { function, tool, .. } => "tool `"@ + tool + "` has no function `"@ + function + "`"@,
        ErrV::UndeclaredToolUse { tool, .. } => "agent uses tool `"@ + tool + "` without declaring `use "@ + tool + "`"@,
        ErrV::ToolCallArity { expected, found, function, tool, .. } => "tool function `"@ + tool + "."@ + function + "` expects "@ + decimal(expected) + " arguments, found "@ + decimal(found),
        ErrV::TestOutsideTestFile { .. } => "test constructs are only available in `_test.sg` files"@,
        ErrV::RunInTestFile { .. } => "`run` statement not allowed in test files"@,
        ErrV::DuplicateTestName { name, .. } => "duplicate test name `"@ + name + "`"@,
        ErrV::MockInferOutsideTest { .. } => "`mock divine` is only valid inside a `test` block"@,
        ErrV::MockToolOutsideTest { .. } => "`mock tool` is only valid inside a `test` block"@,
        ErrV::MockFailNotString { .. } => "`fail` argument must be a String"@,
        ErrV::PersistentFieldNotSerializable { name, ty, .. } => "`@persistent` field `"@ + name + "` has non-serializable type `"@ + ty + "`"@,
        ErrV::CheckpointOutsideAgent { .. } => "`checkpoint()` called outside of agent handler"@,
        ErrV::WakingWithoutPersistentFields { .. } => "`on waking` handler in agent with no `@persistent` fields"@,
        ErrV::GenericError { message, .. } => message,
        ErrV::SupervisorNoChildren { name, .. } => "supervisor `"@ + name + "` has no children"@,
        ErrV::SupervisorChildNotFound { child, .. } => "child agent `"@ + child + "` does not exist"@,
        ErrV::SupervisorChildMissingBelief { belief, child, .. } => "child `"@ + child + "` is missing required belief `"@ + belief + "`"@,
        ErrV::SupervisorNestingTooDeep { depth, max, .. } => "supervisor nesting depth exceeds maximum ("@ + decimal(depth) + " > "@ + decimal(max) + ")"@,
        ErrV::PermanentWithoutPersistence { child, .. } => "child `"@ + child + "` has Permanent restart but no @persistent fields"@,
        ErrV::UnknownProtocol { name, .. } => "unknown protocol `"@ + name + "`"@,
        ErrV::UnknownProtocolRole { protocol, role, .. } => "unknown role `"@ + role + "` in protocol `"@ + protocol + "`"@,
        ErrV::UnknownEffectHandler { name, .. } => "unknown effect handler `"@ + name + "`"@,
        ErrV::ReplyOutsideMessageHandler { .. } => "`reply` used outside of message handler"@,
        ErrV::ProtocolMessageMismatch { msg_type, protocol, receiver, sender, .. } => "message type `"@ + msg_type + "` not allowed in protocol `"@ + protocol + "` from `"@ + sender + "` to `"@ + receiver + "`"@,
        ErrV::ProtocolMissingReply { protocol, .. } => "protocol `"@ + protocol + "` requires reply in message handler"@,
        ErrV::NoSharedProtocol { .. } => "agents do not share a protocol permitting this message"@,
    }
}

impl CheckError {
    /// The message this error is reported with.
    pub fn message(&self) -> (r: String)
        ensures
            r@ == message_v(self@),
    {
        match self {
            CheckError::UndefinedVariable { name, .. } => {
                let mut r = String::from_str("undefined variable `");
                r.append(name.as_str());
                r.append("`");
                r
            },
            CheckError::UndefinedAgent { name, .. } => {
                let mut r = String::from_str("undefined agent `");
                r.append(name.as_str());
                r.append("`");
                r
            },
            CheckError::UndefinedFunction { name, .. } => {
                let mut r = String::from_str("undefined function `");
                r.append(name.as_str());
                r.append("`");
                r
            },
            CheckError::UndefinedBelief { name, .. } => {
                let mut r = String::from_str("undefined belief `");
                r.append(name.as_str());
                r.append("`");
                r
            },
            CheckError::DuplicateDefinition { name, .. } => {
                let mut r = String::from_str("duplicate definition of `");
                r.append(name.as_str());
                r.append("`");
                r
            },
            CheckError::SelfOutsideAgent { .. } => {
                let mut r = String::from_str("`self` used outside of agent context");
                r
            },
            CheckError::TypeMismatch { expected, found, .. } => {
                let mut r = String::from_str("type mismatch: expected `");
                r.append(expected.as_str());
                r.append("`, found `");
                r.append(found.as_str());
                r.append("`");
                r
            },
            CheckError::InvalidBinaryOp { left, op, right, .. } => {
                let mut r = String::from_str("cannot apply operator `");
                r.append(op.as_str());
                r.append("` to types `");
                r.append(left.as_str());
                r.append("` and `");
                r.append(right.as_str());
                r.append("`");
                r
            },
            CheckError::InvalidUnaryOp { op, operand, .. } => {
                let mut r = String::from_str("cannot apply operator `");
                r.append(op.as_str());
                r.append("` to type `");
                r.append(operand.as_str());
                r.append("`");
                r
            },
            CheckError::NotIterable { ty, .. } => {
                let mut r = String::from_str("cannot iterate over type `");
                r.append(ty.as_str());
                r.append("`");
                r
            },
            CheckError::AwaitNonAgent { ty, .. } => {
                let mut r = String::from_str("cannot await non-agent type `");
                r.append(ty.as_str());
                r.append("`");
                r
            },
            CheckError::SendNonAgent { ty, .. } => {
                let mut r = String::from_str("cannot send to non-agent type `");
                r.append(ty.as_str());
                r.append("`");
                r
            },
            CheckError::WrongArgCount { expected, found, name, .. } => {
                let mut r = String::from_str("function `");
                r.append(name.as_str());
                r.append("` expects ");
                r.append(decimal_string(*expected).as_str());
                r.append(" arguments, found ");
                r.append(decimal_string(*found).as_str());
                r
            },
            CheckError::MissingBeliefInit { name, .. } => {
                let mut r = String::from_str("missing belief initialization: `");
                r.append(name.as_str());
                r.append("`");
                r
            },
            CheckError::UnknownField { name, .. } => {
                let mut r = String::from_str("unknown field `");
                r.append(name.as_str());
                r.append("` in agent initialization");
                r
            },
            CheckError::NoMessageHandler { name, .. } => {
                let mut r = String::from_str("agent `");
                r.append(name.as_str());
                r.append("` has no message handler");
                r
            },
            CheckError::EntryAgentHasBeliefs { name, .. } => {
                let mut r = String::from_str("entry agent `");
                r.append(name.as_str());
                r.append("` must have no beliefs");
                r
            },
            CheckError::EntryAgentNoStart { name, .. } => {
                let mut r = String::from_str("entry agent `");
                r.append(name.as_str());
                r.append("` must have an `on start` handler");
                r
            },
            CheckError::ModuleNotFound { path, .. } => {
                let mut r = String::from_str("module `");
                r.append(path.as_str());
                r.append("` not found");
                r
            },
            CheckError::PrivateItem { module, name, .. } => {
                let mut r = String::from_str("item `");
                r.append(name.as_str());
                r.append("` in module `");
                r.append(module.as_str());
                r.append("` is private");
                r
            },
            CheckError::ItemNotFound { module, name, .. } => {
                let mut r = String::from_str("item `");
                r.append(name.as_str());
                r.append("` not found in module `");
                r.append(module.as_str());
                r.append("`");
                r
            },
            CheckError::UndefinedType { name, .. } => {
                let mut r = String::from_str("undefined type `");
                r.append(name.as_str());
                r.append("`");
                r
            },
            CheckError::MissingField { field, record, .. } => {
                let mut r = String::from_str("missing field `");
                r.append(field.as_str());
                r.append("` in record `");
                r.append(record.as_str());
                r.append("`");
                r
            },
            CheckError::FieldAccessOnNonRecord { ty, .. } => {
                let mut r = String::from_str("cannot access field on type `");
                r.append(ty.as_str());
                r.append("`");
                r
            },
            CheckError::UndefinedRecordField { field, record, .. } => {
                let mut r = String::from_str("undefined field `");
                r.append(field.as_str());
                r.append("` in record `");
                r.append(record.as_str());
                r.append("`");
                r
            },
            CheckError::UndefinedEnumVariant { enum_name, variant, .. } => {
                let mut r = String::from_str("undefined variant `");
                r.append(variant.as_str());
                r.append("` in enum `");
                r.append(enum_name.as_str());
                r.append("`");
                r
            },
            CheckError::NonExhaustiveMatch { .. } => {
                let mut r = String::from_str("non-exhaustive match: missing patterns");
                r
            },
            CheckError::NotCallable { ty, .. } => {
                let mut r = String::from_str("cannot call value of type `");
                r.append(ty.as_str());
                r.append("`");
                r
            },
            CheckError::UnusedBelief { name, .. } => {
                let mut r = String::from_str("unused belief `");
                r.append(name.as_str());
                r.append("`");
                r
            },
            CheckError::ReturnOutsideFunction { .. } => {
                let mut r = String::from_str("return statement outside of function");
                r
            },
            CheckError::NonBoolCondition { found, .. } => {
                let mut r = String::from_str("condition must be Bool, found `");
                r.append(found.as_str());
                r.append("`");
                r
            },
            CheckError::BreakOutsideLoop { .. } => {
                let mut r = String::from_str("`break` outside of loop");
                r
            },
            CheckError::ReceiveWithoutReceives { name, .. } => {
                let mut r = String::from_str("`receive()` called in agent `");
                r.append(name.as_str());
                r.append("` which has no `receives` declaration");
                r
            },
            CheckError::ReceiveOutsideAgent { .. } => {
                let mut r = String::from_str("`receive()` called outside of agent");
                r
            },
            CheckError::UnhandledError { name, .. } => {
                let mut r = String::from_str("unhandled error: calling fallible function `");
                r.append(name.as_str());
                r.append("` without `try` or `catch`");
                r
            },
            CheckError::TryInNonFallible { .. } => {
                let mut r = String::from_str("`try` used in non-fallible context");
                r
            },
            CheckError::CatchTypeMismatch { expected, found, .. } => {
                let mut r = String::from_str("catch recovery type mismatch: expected `");
                r.append(expected.as_str());
                r.append("`, found `");
                r.append(found.as_str());
                r.append("`");
                r
            },
            CheckError::MissingErrorHandler { .. } => {
                let mut r = String::from_str("unhandled propagated error in agent without `on error` handler");
                r
            },
            CheckError::EmitInStopHandler { .. } => {
                let mut r = String::from_str("`yield` cannot be called in `on stop` handler");
                r
            },
            CheckError::ClosureParamNeedsType { name, .. } => {
                let mut r = String::from_str("closure parameter `");
                r.append(name.as_str());
                r.append("` requires type annotation");
                r
            },
            CheckError::TupleArityMismatch { expected, found, .. } => {
                let mut r = String::from_str("tuple arity mismatch: expected ");
                r.append(decimal_string(*expected).as_str());
                r.append(" elements, found ");
                r.append(decimal_string(*found).as_str());
                r
            },
            CheckError::TupleIndexOutOfBounds { index, len, .. } => {
                let mut r = String::from_str("tuple index ");
                r.append(decimal_string(*index).as_str());
                r.append(" out of bounds for tuple with ");
                r.append(decimal_string(*len).as_str());
                r.append(" elements");
                r
            },
            CheckError::TupleIndexOnNonTuple { ty, .. } => {
                let mut r = String::from_str("cannot use tuple index on non-tuple type `");
                r.append(ty.as_str());
                r.append("`");
                r
            },
            CheckError::EmptyMapLiteral { .. } => {
                let mut r = String::from_str("empty map literal requires type annotation");
                r
            },
            CheckError::UndefinedToolFunction { function, tool, .. } => {
                let mut r = String::from_str("tool `");
                r.append(tool.as_str());
                r.append("` has no function `");
                r.append(function.as_str());
                r.append("`");
                r
            },
            CheckError::UndeclaredToolUse { tool, .. } => {
                let mut r = String::from_str("agent uses tool `");
                r.append(tool.as_str());
                r.append("` without declaring `use ");
                r.append(tool.as_str());
                r.append("`");
                r
            },
            CheckError::ToolCallArity { expected, found, function, tool, .. } => {
                let mut r = String::from_str("tool function `");
                r.append(tool.as_str());
                r.append(".");
                r.append(function.as_str());
                r.append("` expects ");
                r.append(decimal_string(*expected).as_str());
                r.append(" arguments, found ");
                r.append(decimal_string(*found).as_str());
                r
            },
            CheckError::TestOutsideTestFile { .. } => {
                let mut r = String::from_str("test constructs are only available in `_test.sg` files");
                r
            },
            CheckError::RunInTestFile { .. } => {
                let mut r = String::from_str("`run` statement not allowed in test files");
                r
            },
            CheckError::DuplicateTestName { name, .. } => {
                let mut r = String::from_str("duplicate test name `");
                r.append(name.as_str());
                r.append("`");
                r
            },
            CheckError::MockInferOutsideTest { .. } => {
                let mut r = String::from_str("`mock divine` is only valid inside a `test` block");
                r
            },
            CheckError::MockToolOutsideTest { .. } => {
                let mut r = String::from_str("`mock tool` is only valid inside a `test` block");
                r
            },
            CheckError::MockFailNotString { .. } => {
                let mut r = String::from_str("`fail` argument must be a String");
                r
            },
            CheckError::PersistentFieldNotSerializable { name, ty, .. } => {
                let mut r = String::from_str("`@persistent` field `");
                r.append(name.as_str());
                r.append("` has non-serializable type `");
                r.append(ty.as_str());
                r.append("`");
                r
            },
            CheckError::CheckpointOutsideAgent { .. } => {
                let mut r = String::from_str("`checkpoint()` called outside of agent handler");
                r
            },
            CheckError::WakingWithoutPersistentFields { .. } => {
                let mut r = String::from_str("`on waking` handler in agent with no `@persistent` fields");
                r
            },
            CheckError::GenericError { message, .. } => {
                let mut r = String::from_str(message.as_str());
                r
            },
            CheckError::SupervisorNoChildren { name, .. } => {
                let mut r = String::from_str("supervisor `");
                r.append(name.as_str());
                r.append("` has no children");
                r
            },
            CheckError::SupervisorChildNotFound { child, .. } => {
                let mut r = String::from_str("child agent `");
                r.append(child.as_str());
                r.append("` does not exist");
                r
            },
            CheckError::SupervisorChildMissingBelief { belief, child, .. } => {
                let mut r = String::from_str("child `");
                r.append(child.as_str());
                r.append("` is missing required belief `");
                r.append(belief.as_str());
                r.append("`");
                r
            },
            CheckError::SupervisorNestingTooDeep { depth, max, .. } => {
                let mut r = String::from_str("supervisor nesting depth exceeds maximum (");
                r.append(decimal_string(*depth).as_str());
                r.append(" > ");
                r.append(decimal_string(*max).as_str());
                r.append(")");
                r
            },
            CheckError::PermanentWithoutPersistence { child, .. } => {
                let mut r = String::from_str("child `");
                r.append(child.as_str());
                r.append("` has Permanent restart but no @persistent fields");
                r
            },
            CheckError::UnknownProtocol { name, .. } => {
                let mut r = String::from_str("unknown protocol `");
                r.append(name.as_str());
                r.append("`");
                r
            },
            CheckError::UnknownProtocolRole { protocol, role, .. } => {
                let mut r = String::from_str("unknown role `");
                r.append(role.as_str());
                r.append("` in protocol `");
                r.append(protocol.as_str());
                r.append("`");
                r
            },
            CheckError::UnknownEffectHandler { name, .. } => {
                let mut r = String::from_str("unknown effect handler `");
                r.append(name.as_str());
                r.append("`");
                r
            },
            CheckError::ReplyOutsideMessageHandler { .. } => {
                let mut r = String::from_str("`reply` used outside of message handler");
                r
            },
            CheckError::ProtocolMessageMismatch { msg_type, protocol, receiver, sender, .. } => {
                let mut r = String::from_str("message type `");
                r.append(msg_type.as_str());
                r.append("` not allowed in protocol `");
                r.append(protocol.as_str());
                r.append("` from `");
                r.append(sender.as_str());
                r.append("` to `");
                r.append(receiver.as_str());
                r.append("`");
                r
            },
            CheckError::ProtocolMissingReply { protocol, .. } => {
                let mut r = String::from_str("protocol `");
                r.append(protocol.as_str());
                r.append("` requires reply in message handler");
                r
            },
            CheckError::NoSharedProtocol { .. } => {
                let mut r = String::from_str("agents do not share a protocol permitting this message");
                r
            },
        }
    }
}

} // verus!
