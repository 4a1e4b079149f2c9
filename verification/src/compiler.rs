//! The compiler: from syntax trees to typed programs.
//!
//! Compiling checks the types. Every operator and every call is resolved by
//! the types of its operands to one constructor of the typed program, and a
//! real is turned into a sound only where the other operand is one.

use vstd::prelude::*;
use crate::error::Error;
use crate::function::{Body, Function};
use crate::list::{counted, same_length, List};
use crate::pos::Range;
use crate::program::{
    Argument, BooleanExpression, Expression, RealExpression, SoundExpression, Statement,
    StringExpression, VoidExpression,
};
use crate::store::{Memory, Store};
use crate::syntax;
use crate::syntax::Node;
use crate::types::Type;
use crate::value::Value;

verus! {

/// The variables in scope, the newest last. A name stands for the last
/// entry that has it.
pub type Variables = Vec<(String, Value)>;

/// The functions in scope, the newest last.
pub type Functions = Vec<(String, Function)>;

/// The variables in scope as a sequence: the mathematical value of
/// [`Variables`].
pub type Scope = Seq<(String, Value)>;

/// The functions in scope as a sequence: the mathematical value of
/// [`Functions`].
pub type Table = Seq<(String, Function)>;

/// What compiling an expression gives: the typed expression and the place of
/// its source, or the first error.
pub type Compiled = Result<(Expression, Range), Error>;

/// The operators of one operand.
#[derive(Debug, Clone, Copy, PartialEq, Eq, Structural)]
pub enum Unary {
    Print,
    Minus,
    Reciprocal,
    Not,
}

/// The operators `+ - * / % ^`.
#[derive(Debug, Clone, Copy, PartialEq, Eq, Structural)]
pub enum Arithmetic {
    Add,
    Sub,
    Mul,
    Div,
    Rem,
    Pow,
}

/// The operators of two operands.
#[derive(Debug, Clone, Copy, PartialEq, Eq, Structural)]
pub enum Binary {
    Arithmetic(Arithmetic),
    LeftShift,
    RightShift,
    Less,
    Greater,
    Equal,
    NotEqual,
    And,
    Or,
}

/// How an argument of a call is handed over: written to its cell once, or,
/// for a sound given where a real is taken, sample by sample.
pub enum Bound {
    Plain(Argument),
    Lifted(usize, SoundExpression),
}

/// The arguments of a call, by how they are handed over.
pub struct Bindings {
    pub plain: List<Argument>,
    pub lifted: List<(usize, SoundExpression)>,
}

/// What a name stands for among the variables.
pub open spec fn variable(variables: Scope, name: Seq<char>) -> Option<Value>
    decreases variables.len(),
{
    if variables.len() == 0 {
        None
    } else if variables.last().0@ == name {
        Some(variables.last().1)
    } else {
        variable(variables.drop_last(), name)
    }
}

/// What a name stands for among the functions.
pub open spec fn function(functions: Table, name: Seq<char>) -> Option<Function>
    decreases functions.len(),
{
    if functions.len() == 0 {
        None
    } else if functions.last().0@ == name {
        Some(functions.last().1)
    } else {
        function(functions.drop_last(), name)
    }
}

/// The named argument of a function that has the given name.
pub open spec fn slot(declared: List<(String, Argument)>, name: Seq<char>) -> Option<Argument>
    decreases declared,
{
    match declared {
        List::Nil => None,
        List::Cons(head, tail) => if head.0@ == name {
            Some(head.1)
        } else {
            slot(*tail, name)
        },
    }
}

/// Whether a call gives a named argument of the given name.
pub open spec fn mentions(named: List<(String, syntax::Expression)>, name: Seq<char>) -> bool
    decreases named,
{
    match named {
        List::Nil => false,
        List::Cons(head, tail) => head.0@ == name || mentions(*tail, name),
    }
}

/// Looks a variable up.
pub fn find_variable(variables: &Variables, name: &String) -> (found: Option<Value>)
    ensures
        found == variable(variables@, name@),
{
    let mut i: usize = variables.len();
    assert(variables@.take(i as int) =~= variables@);
    while i > 0
        invariant
            i <= variables@.len(),
            variable(variables@, name@) == variable(variables@.take(i as int), name@),
        decreases i,
    {
        i -= 1;
        assert(variables@.take(i + 1).last() == variables@[i as int]);
        assert(variables@.take(i + 1).drop_last() =~= variables@.take(i as int));
        if variables[i].0 == *name {
            return Some(variables[i].1);
        }
    }
    None
}

/// Looks a function up.
pub fn find_function<'a>(functions: &'a Functions, name: &String) -> (found: Option<&'a Function>)
    ensures
        match found {
            Some(f) => function(functions@, name@) == Some(*f),
            None => function(functions@, name@) is None,
        },
{
    let mut i: usize = functions.len();
    assert(functions@.take(i as int) =~= functions@);
    while i > 0
        invariant
            i <= functions@.len(),
            function(functions@, name@) == function(functions@.take(i as int), name@),
        decreases i,
    {
        i -= 1;
        assert(functions@.take(i + 1).last() == functions@[i as int]);
        assert(functions@.take(i + 1).drop_last() =~= functions@.take(i as int));
        if functions[i].0 == *name {
            return Some(&functions[i].1);
        }
    }
    None
}

/// Looks a named argument of a function up.
pub fn find_slot<'a>(declared: &'a List<(String, Argument)>, name: &String) -> (found: Option<
    &'a Argument,
>)
    ensures
        match found {
            Some(a) => slot(*declared, name@) == Some(*a),
            None => slot(*declared, name@) is None,
        },
    decreases declared,
{
    match declared {
        List::Nil => None,
        List::Cons(head, tail) => if head.0 == *name {
            Some(&head.1)
        } else {
            find_slot(tail, name)
        },
    }
}

/// Tells whether a call gives a named argument of the given name.
pub fn is_mentioned(named: &List<(String, syntax::Expression)>, name: &String) -> (yes: bool)
    ensures
        yes == mentions(*named, name@),
    decreases named,
{
    match named {
        List::Nil => false,
        List::Cons(head, tail) => head.0 == *name || is_mentioned(tail, name),
    }
}

/// The expression that reads the cell of a variable.
pub open spec fn reference(value: Value) -> Expression {
    match value {
        Value::Real(cell) => Expression::Real(RealExpression::Reference(cell)),
        Value::Boolean(cell) => Expression::Boolean(BooleanExpression::Reference(cell)),
        Value::Sound(cell) => Expression::Sound(SoundExpression::Reference(cell)),
        Value::String(cell) => Expression::String(StringExpression::Reference(cell)),
    }
}

/// An operator of one operand on a typed operand.
#[verifier::opaque]
pub open spec fn unary(op: Unary, operand: Expression, range: Range) -> Result<Expression, Error> {
    match (op, operand) {
        (Unary::Print, Expression::Real(a)) => Ok(
            Expression::Real(RealExpression::Print(Box::new(a))),
        ),
        (Unary::Print, Expression::Boolean(a)) => Ok(
            Expression::Boolean(BooleanExpression::Print(Box::new(a))),
        ),
        (Unary::Print, Expression::Sound(a)) => Ok(
            Expression::Sound(SoundExpression::Play(Box::new(a))),
        ),
        (Unary::Print, Expression::String(a)) => Ok(
            Expression::String(StringExpression::Print(Box::new(a))),
        ),
        (Unary::Minus, Expression::Real(a)) => Ok(
            Expression::Real(RealExpression::Minus(Box::new(a))),
        ),
        (Unary::Minus, Expression::Sound(a)) => Ok(
            Expression::Sound(SoundExpression::Minus(Box::new(a))),
        ),
        (Unary::Reciprocal, Expression::Real(a)) => Ok(
            Expression::Real(RealExpression::Reciprocal(Box::new(a))),
        ),
        (Unary::Reciprocal, Expression::Sound(a)) => Ok(
            Expression::Sound(SoundExpression::Reciprocal(Box::new(a))),
        ),
        (Unary::Not, Expression::Boolean(a)) => Ok(
            Expression::Boolean(BooleanExpression::Not(Box::new(a))),
        ),
        (_, other) => Err(Error::TypeMismatchUnary(range, other.spec_ty())),
    }
}

/// An arithmetic operator on two reals.
pub open spec fn real_arithmetic(op: Arithmetic, a: RealExpression, b: RealExpression)
    -> RealExpression {
    match op {
        Arithmetic::Add => RealExpression::Add(Box::new(a), Box::new(b)),
        Arithmetic::Sub => RealExpression::Sub(Box::new(a), Box::new(b)),
        Arithmetic::Mul => RealExpression::Mul(Box::new(a), Box::new(b)),
        Arithmetic::Div => RealExpression::Div(Box::new(a), Box::new(b)),
        Arithmetic::Rem => RealExpression::Rem(Box::new(a), Box::new(b)),
        Arithmetic::Pow => RealExpression::Pow(Box::new(a), Box::new(b)),
    }
}

/// An arithmetic operator on two sounds.
pub open spec fn sound_arithmetic(op: Arithmetic, a: SoundExpression, b: SoundExpression)
    -> SoundExpression {
    match op {
        Arithmetic::Add => SoundExpression::Add(Box::new(a), Box::new(b)),
        Arithmetic::Sub => SoundExpression::Sub(Box::new(a), Box::new(b)),
        Arithmetic::Mul => SoundExpression::Mul(Box::new(a), Box::new(b)),
        Arithmetic::Div => SoundExpression::Div(Box::new(a), Box::new(b)),
        Arithmetic::Rem => SoundExpression::Rem(Box::new(a), Box::new(b)),
        Arithmetic::Pow => SoundExpression::Pow(Box::new(a), Box::new(b)),
    }
}

/// An operator of two operands on typed operands, each with the place of its
/// source. Where one operand of an arithmetic operator is a sound and the
/// other a real, the real becomes a sound.
#[verifier::opaque]
pub open spec fn binary(op: Binary, left: (Expression, Range), right: (Expression, Range))
    -> Result<Expression, Error> {
    match (op, left.0, right.0) {
        (Binary::Arithmetic(op), Expression::Real(a), Expression::Real(b)) => Ok(
            Expression::Real(real_arithmetic(op, a, b)),
        ),
        (Binary::Arithmetic(op), Expression::Sound(a), Expression::Sound(b)) => Ok(
            Expression::Sound(sound_arithmetic(op, a, b)),
        ),
        (Binary::Arithmetic(op), Expression::Sound(a), Expression::Real(b)) => Ok(
            Expression::Sound(sound_arithmetic(op, a, SoundExpression::Real(b))),
        ),
        (Binary::Arithmetic(op), Expression::Real(a), Expression::Sound(b)) => Ok(
            Expression::Sound(sound_arithmetic(op, SoundExpression::Real(a), b)),
        ),
        (Binary::Arithmetic(Arithmetic::Add), Expression::String(a), Expression::String(b)) => Ok(
            Expression::String(StringExpression::Add(Box::new(a), Box::new(b))),
        ),
        (Binary::LeftShift, Expression::Sound(a), Expression::Real(b)) => Ok(
            Expression::Sound(SoundExpression::LeftShift(Box::new(a), Box::new(b))),
        ),
        (Binary::RightShift, Expression::Sound(a), Expression::Real(b)) => Ok(
            Expression::Sound(SoundExpression::RightShift(Box::new(a), Box::new(b))),
        ),
        (Binary::Less, Expression::Real(a), Expression::Real(b)) => Ok(
            Expression::Boolean(BooleanExpression::RealLess(Box::new(a), Box::new(b))),
        ),
        (Binary::Greater, Expression::Real(a), Expression::Real(b)) => Ok(
            Expression::Boolean(BooleanExpression::RealGreater(Box::new(a), Box::new(b))),
        ),
        (Binary::Equal, Expression::Real(a), Expression::Real(b)) => Ok(
            Expression::Boolean(BooleanExpression::RealEqual(Box::new(a), Box::new(b))),
        ),
        (Binary::Equal, Expression::String(a), Expression::String(b)) => Ok(
            Expression::Boolean(BooleanExpression::StringEqual(Box::new(a), Box::new(b))),
        ),
        (Binary::NotEqual, Expression::Real(a), Expression::Real(b)) => Ok(
            Expression::Boolean(BooleanExpression::RealNotEqual(Box::new(a), Box::new(b))),
        ),
        (Binary::NotEqual, Expression::String(a), Expression::String(b)) => Ok(
            Expression::Boolean(BooleanExpression::StringNotEqual(Box::new(a), Box::new(b))),
        ),
        (Binary::And, Expression::Boolean(a), Expression::Boolean(b)) => Ok(
            Expression::Boolean(BooleanExpression::And(Box::new(a), Box::new(b))),
        ),
        (Binary::Or, Expression::Boolean(a), Expression::Boolean(b)) => Ok(
            Expression::Boolean(BooleanExpression::Or(Box::new(a), Box::new(b))),
        ),
        (_, x, y) => Err(Error::TypeMismatchBinary(left.1, x.spec_ty(), right.1, y.spec_ty())),
    }
}

/// The result for an operator of one operand, from the result for the
/// operand; it has the place of the whole expression.
pub open spec fn one(op: Unary, operand: Compiled, range: Range) -> Compiled {
    match operand {
        Err(error) => Err(error),
        Ok(operand) => match unary(op, operand.0, operand.1) {
            Err(error) => Err(error),
            Ok(expression) => Ok((expression, range)),
        },
    }
}

/// The result for an operator of two operands, from the results for the
/// operands. An error in the left operand comes before one in the right.
pub open spec fn two(op: Binary, left: Compiled, right: Compiled, range: Range) -> Compiled {
    match left {
        Err(error) => Err(error),
        Ok(left) => match right {
            Err(error) => Err(error),
            Ok(right) => match binary(op, left, right) {
                Err(error) => Err(error),
                Ok(expression) => Ok((expression, range)),
            },
        },
    }
}

/// How a positional argument is handed to the cell that takes it, or the
/// type of the argument where it does not fit. A sound fits a real cell of a
/// function that gives a real: the call is then applied sample by sample.
pub open spec fn bound(slot: Value, body: Body, argument: Expression) -> Result<Bound, Type> {
    match (slot, argument) {
        (Value::Real(cell), Expression::Real(a)) => Ok(Bound::Plain(Argument::Real(cell, a))),
        (Value::Boolean(cell), Expression::Boolean(a)) => Ok(
            Bound::Plain(Argument::Boolean(cell, a)),
        ),
        (Value::Sound(cell), Expression::Sound(a)) => Ok(Bound::Plain(Argument::Sound(cell, a))),
        (Value::String(cell), Expression::String(a)) => Ok(
            Bound::Plain(Argument::String(cell, a)),
        ),
        (Value::Real(cell), Expression::Sound(a)) => if body is Real {
            Ok(Bound::Lifted(cell, a))
        } else {
            Err(Type::Sound)
        },
        (_, other) => Err(other.spec_ty()),
    }
}

/// How a named argument is handed to the cell that takes it, or the type of
/// the argument where it does not fit.
pub open spec fn named_bound(slot: Argument, argument: Expression) -> Result<Argument, Type> {
    match (slot, argument) {
        (Argument::Real(cell, _), Expression::Real(a)) => Ok(Argument::Real(cell, a)),
        (Argument::Boolean(cell, _), Expression::Boolean(a)) => Ok(Argument::Boolean(cell, a)),
        (Argument::Sound(cell, _), Expression::Sound(a)) => Ok(Argument::Sound(cell, a)),
        (Argument::String(cell, _), Expression::String(a)) => Ok(Argument::String(cell, a)),
        (_, other) => Err(other.spec_ty()),
    }
}

/// The named arguments that a call leaves out, each with its default.
pub open spec fn defaults(
    declared: List<(String, Argument)>,
    named: List<(String, syntax::Expression)>,
) -> List<Argument>
    decreases declared,
{
    match declared {
        List::Nil => List::Nil,
        List::Cons(head, tail) => if mentions(named, head.0@) {
            defaults(*tail, named)
        } else {
            List::Cons(Box::new(head.1), Box::new(defaults(*tail, named)))
        },
    }
}

/// The call of a function with its arguments bound.
pub open spec fn invocation(body: Body, bindings: Bindings) -> Expression {
    match body {
        Body::Real(function) => if bindings.lifted is Nil {
            Expression::Real(RealExpression::Invocation(function, bindings.plain))
        } else {
            Expression::Sound(SoundExpression::Apply(function, bindings.plain, bindings.lifted))
        },
        Body::Sound(function) => Expression::Sound(
            SoundExpression::Invocation(function, bindings.plain),
        ),
        Body::Void(function) => Expression::Void(
            VoidExpression::Invocation(function, bindings.plain),
        ),
    }
}

/// The typed expression that a syntax tree compiles to, with the place of
/// its source, or the first error met when the tree is walked operand by
/// operand from left to right.
pub open spec fn lowered(expression: syntax::Expression, variables: Scope, functions: Table)
    -> Compiled
    decreases expression,
{
    let range = expression.range;
    match expression.node {
        Node::Identifier(name) => match variable(variables, name@) {
            Some(value) => Ok((reference(value), range)),
            None => Err(Error::UndefinedVariable(name, range)),
        },
        Node::Invocation(name, arguments, named) => match function(functions, name@) {
            None => Err(Error::UndefinedFunction(name, range)),
            Some(f) => if arguments.length() != f.arguments.length() {
                Err(
                    Error::WrongNumberOfArguments(
                        range,
                        counted(f.arguments.length()),
                        counted(arguments.length()),
                    ),
                )
            } else {
                match lowered_arguments(arguments, f.arguments, f.body, variables, functions) {
                    Err(error) => Err(error),
                    Ok(bindings) => match lowered_named(
                        named,
                        f.named_arguments,
                        variables,
                        functions,
                    ) {
                        Err(error) => Err(error),
                        Ok(given) => Ok(
                            (
                                invocation(
                                    f.body,
                                    Bindings {
                                        plain: bindings.plain.followed_by(given).followed_by(
                                            defaults(f.named_arguments, named),
                                        ),
                                        lifted: bindings.lifted,
                                    },
                                ),
                                range,
                            ),
                        ),
                    },
                }
            },
        },
        Node::Number(value) => Ok((Expression::Real(RealExpression::Const(value)), range)),
        Node::String(text) => Ok((Expression::String(StringExpression::Const(text)), range)),
        Node::Print(a) => one(Unary::Print, lowered(*a, variables, functions), range),
        Node::Minus(a) => one(Unary::Minus, lowered(*a, variables, functions), range),
        Node::Reciprocal(a) => one(Unary::Reciprocal, lowered(*a, variables, functions), range),
        Node::Not(a) => one(Unary::Not, lowered(*a, variables, functions), range),
        Node::Add(a, b) => two(
            Binary::Arithmetic(Arithmetic::Add),
            lowered(*a, variables, functions),
            lowered(*b, variables, functions),
            range,
        ),
        Node::Sub(a, b) => two(
            Binary::Arithmetic(Arithmetic::Sub),
            lowered(*a, variables, functions),
            lowered(*b, variables, functions),
            range,
        ),
        Node::Mul(a, b) => two(
            Binary::Arithmetic(Arithmetic::Mul),
            lowered(*a, variables, functions),
            lowered(*b, variables, functions),
            range,
        ),
        Node::Div(a, b) => two(
            Binary::Arithmetic(Arithmetic::Div),
            lowered(*a, variables, functions),
            lowered(*b, variables, functions),
            range,
        ),
        Node::Rem(a, b) => two(
            Binary::Arithmetic(Arithmetic::Rem),
            lowered(*a, variables, functions),
            lowered(*b, variables, functions),
            range,
        ),
        Node::Pow(a, b) => two(
            Binary::Arithmetic(Arithmetic::Pow),
            lowered(*a, variables, functions),
            lowered(*b, variables, functions),
            range,
        ),
        Node::LeftShift(a, b) => two(
            Binary::LeftShift,
            lowered(*a, variables, functions),
            lowered(*b, variables, functions),
            range,
        ),
        Node::RightShift(a, b) => two(
            Binary::RightShift,
            lowered(*a, variables, functions),
            lowered(*b, variables, functions),
            range,
        ),
        Node::Less(a, b) => two(
            Binary::Less,
            lowered(*a, variables, functions),
            lowered(*b, variables, functions),
            range,
        ),
        Node::Greater(a, b) => two(
            Binary::Greater,
            lowered(*a, variables, functions),
            lowered(*b, variables, functions),
            range,
        ),
        Node::Equal(a, b) => two(
            Binary::Equal,
            lowered(*a, variables, functions),
            lowered(*b, variables, functions),
            range,
        ),
        Node::NotEqual(a, b) => two(
            Binary::NotEqual,
            lowered(*a, variables, functions),
            lowered(*b, variables, functions),
            range,
        ),
        Node::And(a, b) => two(
            Binary::And,
            lowered(*a, variables, functions),
            lowered(*b, variables, functions),
            range,
        ),
        Node::Or(a, b) => two(
            Binary::Or,
            lowered(*a, variables, functions),
            lowered(*b, variables, functions),
            range,
        ),
        Node::Group(a) => match lowered(*a, variables, functions) {
            Err(error) => Err(error),
            Ok(inner) => Ok((inner.0, range)),
        },
    }
}

/// The positional arguments of a call, each bound to the cell that takes
/// it, or the first error.
pub open spec fn lowered_arguments(
    arguments: List<syntax::Expression>,
    slots: List<Value>,
    body: Body,
    variables: Scope,
    functions: Table,
) -> Result<Bindings, Error>
    decreases arguments,
{
    match (arguments, slots) {
        (List::Cons(argument, rest), List::Cons(slot, slots)) => match lowered(
            *argument,
            variables,
            functions,
        ) {
            Err(error) => Err(error),
            Ok(compiled) => match bound(*slot, body, compiled.0) {
                Err(ty) => Err(Error::TypeMismatchArgument(compiled.1, ty)),
                Ok(first) => match lowered_arguments(*rest, *slots, body, variables, functions) {
                    Err(error) => Err(error),
                    Ok(bindings) => Ok(
                        match first {
                            Bound::Plain(argument) => Bindings {
                                plain: List::Cons(Box::new(argument), Box::new(bindings.plain)),
                                lifted: bindings.lifted,
                            },
                            Bound::Lifted(cell, sound) => Bindings {
                                plain: bindings.plain,
                                lifted: List::Cons(
                                    Box::new((cell, sound)),
                                    Box::new(bindings.lifted),
                                ),
                            },
                        },
                    ),
                },
            },
        },
        _ => Ok(Bindings { plain: List::Nil, lifted: List::Nil }),
    }
}

/// The named arguments that a call gives, each bound to the cell that takes
/// it, or the first error.
pub open spec fn lowered_named(
    named: List<(String, syntax::Expression)>,
    declared: List<(String, Argument)>,
    variables: Scope,
    functions: Table,
) -> Result<List<Argument>, Error>
    decreases named,
{
    match named {
        List::Nil => Ok(List::Nil),
        List::Cons(head, rest) => match slot(declared, head.0@) {
            None => Err(Error::UnusedNamedArgument(head.0, head.1.range)),
            Some(taker) => match lowered(head.1, variables, functions) {
                Err(error) => Err(error),
                Ok(compiled) => match named_bound(taker, compiled.0) {
                    Err(ty) => Err(Error::TypeMismatchArgument(compiled.1, ty)),
                    Ok(first) => match lowered_named(*rest, declared, variables, functions) {
                        Err(error) => Err(error),
                        Ok(others) => Ok(List::Cons(Box::new(first), Box::new(others))),
                    },
                },
            },
        },
    }
}

/// What compiling a statement gives: the typed statement or the first error,
/// the variables in scope behind the statement, and the cells that exist
/// then.
pub struct Outcome {
    pub result: Result<Statement, Error>,
    pub variables: Scope,
    pub memory: Memory,
}

/// The assignment of a typed expression to the cell of a variable, or both
/// types where they differ. Nothing is converted for an assignment.
pub open spec fn assignment(target: Value, source: Expression) -> Result<Statement, (Type, Type)> {
    match (target, source) {
        (Value::Real(cell), Expression::Real(a)) => Ok(Statement::RealSubstitution(cell, a)),
        (Value::Boolean(cell), Expression::Boolean(a)) => Ok(
            Statement::BooleanSubstitution(cell, a),
        ),
        (Value::Sound(cell), Expression::Sound(a)) => Ok(Statement::SoundSubstitution(cell, a)),
        (Value::String(cell), Expression::String(a)) => Ok(Statement::StringSubstitution(cell, a)),
        (_, other) => Err((target.spec_ty(), other.spec_ty())),
    }
}

/// The typed statement that a statement compiles to, the variables in scope
/// behind it, and the cells that exist then.
///
/// A declaration makes a cell of the type of its right-hand side and puts
/// its name in scope. What a block, a loop or a branch declares is in scope
/// up to its end; the cells stay.
pub open spec fn compiled(
    statement: syntax::Statement,
    variables: Scope,
    functions: Table,
    memory: Memory,
) -> Outcome
    decreases statement,
{
    match statement {
        syntax::Statement::Expression(None) => Outcome {
            result: Ok(Statement::Expression(None)),
            variables,
            memory,
        },
        syntax::Statement::Expression(Some(expression)) => Outcome {
            result: match lowered(expression, variables, functions) {
                Err(error) => Err(error),
                Ok(inner) => Ok(Statement::Expression(Some(inner.0))),
            },
            variables,
            memory,
        },
        syntax::Statement::Substitution(range, name, expression) => Outcome {
            result: match variable(variables, name@) {
                None => Err(Error::UndefinedVariable(name, range)),
                Some(target) => match lowered(expression, variables, functions) {
                    Err(error) => Err(error),
                    Ok(source) => match assignment(target, source.0) {
                        Ok(statement) => Ok(statement),
                        Err(types) => Err(
                            Error::TypeMismatchBinary(range, types.0, source.1, types.1),
                        ),
                    },
                },
            },
            variables,
            memory,
        },
        syntax::Statement::Declaration(range, name, expression) => match lowered(
            expression,
            variables,
            functions,
        ) {
            Err(error) => Outcome { result: Err(error), variables, memory },
            Ok(source) => match source.0 {
                Expression::Real(a) => Outcome {
                    result: Ok(Statement::RealSubstitution(memory.reals.len() as usize, a)),
                    variables: variables.push((name, Value::Real(memory.reals.len() as usize))),
                    memory: memory.with_new_real(),
                },
                Expression::Boolean(a) => Outcome {
                    result: Ok(Statement::BooleanSubstitution(memory.booleans.len() as usize, a)),
                    variables: variables.push((name, Value::Boolean(memory.booleans.len() as usize))),
                    memory: memory.with_new_boolean(),
                },
                Expression::Sound(a) => Outcome {
                    result: Ok(Statement::SoundSubstitution(memory.sounds.len() as usize, a)),
                    variables: variables.push((name, Value::Sound(memory.sounds.len() as usize))),
                    memory: memory.with_new_sound(),
                },
                Expression::String(a) => Outcome {
                    result: Ok(Statement::StringSubstitution(memory.strings.len() as usize, a)),
                    variables: variables.push((name, Value::String(memory.strings.len() as usize))),
                    memory: memory.with_new_string(),
                },
                Expression::Void(_) => Outcome { result: Err(Error::VoidRHS(range)), variables, memory },
            },
        },
        syntax::Statement::Block(statements) => {
            let inner = compiled_block(statements, variables, functions, memory);
            Outcome {
                result: match inner.0 {
                    Err(error) => Err(error),
                    Ok(statements) => Ok(Statement::Block(statements)),
                },
                variables,
                memory: inner.1,
            }
        },
        syntax::Statement::While(condition, body) => match condition_of(
            lowered(condition, variables, functions),
        ) {
            Err(error) => Outcome { result: Err(error), variables, memory },
            Ok(condition) => {
                let inner = compiled(*body, variables, functions, memory);
                Outcome {
                    result: match inner.result {
                        Err(error) => Err(error),
                        Ok(body) => Ok(Statement::While(condition, Box::new(body))),
                    },
                    variables,
                    memory: inner.memory,
                }
            },
        },
        syntax::Statement::If(condition, then, otherwise) => match condition_of(
            lowered(condition, variables, functions),
        ) {
            Err(error) => Outcome { result: Err(error), variables, memory },
            Ok(condition) => {
                let first = compiled(*then, variables, functions, memory);
                match first.result {
                    Err(error) => Outcome { result: Err(error), variables, memory: first.memory },
                    Ok(then) => match otherwise {
                        None => Outcome {
                            result: Ok(Statement::If(condition, Box::new(then), None)),
                            variables,
                            memory: first.memory,
                        },
                        Some(otherwise) => {
                            let second = compiled(*otherwise, variables, functions, first.memory);
                            Outcome {
                                result: match second.result {
                                    Err(error) => Err(error),
                                    Ok(otherwise) => Ok(
                                        Statement::If(
                                            condition,
                                            Box::new(then),
                                            Some(Box::new(otherwise)),
                                        ),
                                    ),
                                },
                                variables,
                                memory: second.memory,
                            }
                        },
                    },
                }
            },
        },
        syntax::Statement::Break => Outcome { result: Ok(Statement::Break), variables, memory },
        syntax::Statement::Continue => Outcome { result: Ok(Statement::Continue), variables, memory },
        syntax::Statement::Return(range, _) => Outcome {
            result: Err(Error::ReturnOutsideFunction(range)),
            variables,
            memory,
        },
    }
}

/// The condition of a loop or a branch: the compiled expression where it
/// gives a truth value.
pub open spec fn condition_of(condition: Compiled) -> Result<BooleanExpression, Error> {
    match condition {
        Err(error) => Err(error),
        Ok(condition) => match condition.0 {
            Expression::Boolean(a) => Ok(a),
            other => Err(Error::TypeMismatchCond(condition.1, other.spec_ty())),
        },
    }
}

/// The typed statements that the statements of a block compile to, in
/// order, and the cells that exist then. Each statement is compiled in the
/// scope that the one before it left.
pub open spec fn compiled_block(
    statements: List<syntax::Statement>,
    variables: Scope,
    functions: Table,
    memory: Memory,
) -> (Result<List<Statement>, Error>, Memory)
    decreases statements,
{
    match statements {
        List::Nil => (Ok(List::Nil), memory),
        List::Cons(head, rest) => {
            let first = compiled(*head, variables, functions, memory);
            match first.result {
                Err(error) => (Err(error), first.memory),
                Ok(statement) => {
                    let others = compiled_block(*rest, first.variables, functions, first.memory);
                    match others.0 {
                        Err(error) => (Err(error), others.1),
                        Ok(statements) => (
                            Ok(List::Cons(Box::new(statement), Box::new(statements))),
                            others.1,
                        ),
                    }
                },
            }
        },
    }
}

/// Applies an operator of one operand to a typed operand.
pub fn apply_unary(op: Unary, operand: Expression, range: Range) -> (result: Result<
    Expression,
    Error,
>)
    ensures
        result == unary(op, operand, range),
{
    reveal(unary);
    let ty = operand.ty();
    match (op, operand) {
        (Unary::Print, Expression::Real(a)) => Ok(
            Expression::Real(RealExpression::Print(Box::new(a))),
        ),
        (Unary::Print, Expression::Boolean(a)) => Ok(
            Expression::Boolean(BooleanExpression::Print(Box::new(a))),
        ),
        (Unary::Print, Expression::Sound(a)) => Ok(
            Expression::Sound(SoundExpression::Play(Box::new(a))),
        ),
        (Unary::Print, Expression::String(a)) => Ok(
            Expression::String(StringExpression::Print(Box::new(a))),
        ),
        (Unary::Minus, Expression::Real(a)) => Ok(
            Expression::Real(RealExpression::Minus(Box::new(a))),
        ),
        (Unary::Minus, Expression::Sound(a)) => Ok(
            Expression::Sound(SoundExpression::Minus(Box::new(a))),
        ),
        (Unary::Reciprocal, Expression::Real(a)) => Ok(
            Expression::Real(RealExpression::Reciprocal(Box::new(a))),
        ),
        (Unary::Reciprocal, Expression::Sound(a)) => Ok(
            Expression::Sound(SoundExpression::Reciprocal(Box::new(a))),
        ),
        (Unary::Not, Expression::Boolean(a)) => Ok(
            Expression::Boolean(BooleanExpression::Not(Box::new(a))),
        ),
        _ => Err(Error::TypeMismatchUnary(range, ty)),
    }
}

/// Applies an arithmetic operator to two reals.
pub fn apply_real_arithmetic(op: Arithmetic, a: RealExpression, b: RealExpression) -> (result:
    RealExpression)
    ensures
        result == real_arithmetic(op, a, b),
{
    match op {
        Arithmetic::Add => RealExpression::Add(Box::new(a), Box::new(b)),
        Arithmetic::Sub => RealExpression::Sub(Box::new(a), Box::new(b)),
        Arithmetic::Mul => RealExpression::Mul(Box::new(a), Box::new(b)),
        Arithmetic::Div => RealExpression::Div(Box::new(a), Box::new(b)),
        Arithmetic::Rem => RealExpression::Rem(Box::new(a), Box::new(b)),
        Arithmetic::Pow => RealExpression::Pow(Box::new(a), Box::new(b)),
    }
}

/// Applies an arithmetic operator to two sounds.
pub fn apply_sound_arithmetic(op: Arithmetic, a: SoundExpression, b: SoundExpression) -> (result:
    SoundExpression)
    ensures
        result == sound_arithmetic(op, a, b),
{
    match op {
        Arithmetic::Add => SoundExpression::Add(Box::new(a), Box::new(b)),
        Arithmetic::Sub => SoundExpression::Sub(Box::new(a), Box::new(b)),
        Arithmetic::Mul => SoundExpression::Mul(Box::new(a), Box::new(b)),
        Arithmetic::Div => SoundExpression::Div(Box::new(a), Box::new(b)),
        Arithmetic::Rem => SoundExpression::Rem(Box::new(a), Box::new(b)),
        Arithmetic::Pow => SoundExpression::Pow(Box::new(a), Box::new(b)),
    }
}

/// Applies an operator of two operands to typed operands.
pub fn apply_binary(op: Binary, left: (Expression, Range), right: (Expression, Range)) -> (result:
    Result<Expression, Error>)
    ensures
        result == binary(op, left, right),
{
    reveal(binary);
    let left_ty = left.0.ty();
    let right_ty = right.0.ty();
    let left_range = left.1;
    let right_range = right.1;
    match (op, left.0, right.0) {
        (Binary::Arithmetic(op), Expression::Real(a), Expression::Real(b)) => Ok(
            Expression::Real(apply_real_arithmetic(op, a, b)),
        ),
        (Binary::Arithmetic(op), Expression::Sound(a), Expression::Sound(b)) => Ok(
            Expression::Sound(apply_sound_arithmetic(op, a, b)),
        ),
        (Binary::Arithmetic(op), Expression::Sound(a), Expression::Real(b)) => Ok(
            Expression::Sound(apply_sound_arithmetic(op, a, SoundExpression::Real(b))),
        ),
        (Binary::Arithmetic(op), Expression::Real(a), Expression::Sound(b)) => Ok(
            Expression::Sound(apply_sound_arithmetic(op, SoundExpression::Real(a), b)),
        ),
        (Binary::Arithmetic(Arithmetic::Add), Expression::String(a), Expression::String(b)) => Ok(
            Expression::String(StringExpression::Add(Box::new(a), Box::new(b))),
        ),
        (Binary::LeftShift, Expression::Sound(a), Expression::Real(b)) => Ok(
            Expression::Sound(SoundExpression::LeftShift(Box::new(a), Box::new(b))),
        ),
        (Binary::RightShift, Expression::Sound(a), Expression::Real(b)) => Ok(
            Expression::Sound(SoundExpression::RightShift(Box::new(a), Box::new(b))),
        ),
        (Binary::Less, Expression::Real(a), Expression::Real(b)) => Ok(
            Expression::Boolean(BooleanExpression::RealLess(Box::new(a), Box::new(b))),
        ),
        (Binary::Greater, Expression::Real(a), Expression::Real(b)) => Ok(
            Expression::Boolean(BooleanExpression::RealGreater(Box::new(a), Box::new(b))),
        ),
        (Binary::Equal, Expression::Real(a), Expression::Real(b)) => Ok(
            Expression::Boolean(BooleanExpression::RealEqual(Box::new(a), Box::new(b))),
        ),
        (Binary::Equal, Expression::String(a), Expression::String(b)) => Ok(
            Expression::Boolean(BooleanExpression::StringEqual(Box::new(a), Box::new(b))),
        ),
        (Binary::NotEqual, Expression::Real(a), Expression::Real(b)) => Ok(
            Expression::Boolean(BooleanExpression::RealNotEqual(Box::new(a), Box::new(b))),
        ),
        (Binary::NotEqual, Expression::String(a), Expression::String(b)) => Ok(
            Expression::Boolean(BooleanExpression::StringNotEqual(Box::new(a), Box::new(b))),
        ),
        (Binary::And, Expression::Boolean(a), Expression::Boolean(b)) => Ok(
            Expression::Boolean(BooleanExpression::And(Box::new(a), Box::new(b))),
        ),
        (Binary::Or, Expression::Boolean(a), Expression::Boolean(b)) => Ok(
            Expression::Boolean(BooleanExpression::Or(Box::new(a), Box::new(b))),
        ),
        _ => Err(Error::TypeMismatchBinary(left_range, left_ty, right_range, right_ty)),
    }
}

/// Finishes an operator of one operand.
pub fn finish_one(op: Unary, operand: Compiled, range: Range) -> (result: Compiled)
    ensures
        result == one(op, operand, range),
{
    match operand {
        Err(error) => Err(error),
        Ok(operand) => match apply_unary(op, operand.0, operand.1) {
            Err(error) => Err(error),
            Ok(expression) => Ok((expression, range)),
        },
    }
}

/// Finishes an operator of two operands.
pub fn finish_two(op: Binary, left: Compiled, right: Compiled, range: Range) -> (result: Compiled)
    ensures
        result == two(op, left, right, range),
{
    match left {
        Err(error) => Err(error),
        Ok(left) => match right {
            Err(error) => Err(error),
            Ok(right) => match apply_binary(op, left, right) {
                Err(error) => Err(error),
                Ok(expression) => Ok((expression, range)),
            },
        },
    }
}

/// Binds a positional argument to the cell that takes it.
pub fn bind(slot: Value, body: &Body, argument: Expression) -> (result: Result<Bound, Type>)
    ensures
        result == bound(slot, *body, argument),
{
    let ty = argument.ty();
    match (slot, argument) {
        (Value::Real(cell), Expression::Real(a)) => Ok(Bound::Plain(Argument::Real(cell, a))),
        (Value::Boolean(cell), Expression::Boolean(a)) => Ok(
            Bound::Plain(Argument::Boolean(cell, a)),
        ),
        (Value::Sound(cell), Expression::Sound(a)) => Ok(Bound::Plain(Argument::Sound(cell, a))),
        (Value::String(cell), Expression::String(a)) => Ok(
            Bound::Plain(Argument::String(cell, a)),
        ),
        (Value::Real(cell), Expression::Sound(a)) => if matches!(body, Body::Real(_)) {
            Ok(Bound::Lifted(cell, a))
        } else {
            Err(Type::Sound)
        },
        _ => Err(ty),
    }
}

/// Binds a named argument to the cell that takes it.
pub fn bind_named(slot: &Argument, argument: Expression) -> (result: Result<Argument, Type>)
    ensures
        result == named_bound(*slot, argument),
{
    let ty = argument.ty();
    match (slot, argument) {
        (Argument::Real(cell, _), Expression::Real(a)) => Ok(Argument::Real(*cell, a)),
        (Argument::Boolean(cell, _), Expression::Boolean(a)) => Ok(Argument::Boolean(*cell, a)),
        (Argument::Sound(cell, _), Expression::Sound(a)) => Ok(Argument::Sound(*cell, a)),
        (Argument::String(cell, _), Expression::String(a)) => Ok(Argument::String(*cell, a)),
        _ => Err(ty),
    }
}

/// Collects the defaults of the named arguments that a call leaves out.
pub fn default_arguments(
    declared: &List<(String, Argument)>,
    named: &List<(String, syntax::Expression)>,
) -> (result: List<Argument>)
    ensures
        result == defaults(*declared, *named),
    decreases declared,
{
    match declared {
        List::Nil => List::Nil,
        List::Cons(head, tail) => if is_mentioned(named, &head.0) {
            default_arguments(tail, named)
        } else {
            List::Cons(Box::new(head.1.duplicate()), Box::new(default_arguments(tail, named)))
        },
    }
}

/// Makes the call of a function with its arguments bound.
pub fn invoke(body: &Body, bindings: Bindings) -> (result: Expression)
    ensures
        result == invocation(*body, bindings),
{
    match body {
        Body::Real(function) => if bindings.lifted.is_empty() {
            Expression::Real(RealExpression::Invocation(*function, bindings.plain))
        } else {
            Expression::Sound(SoundExpression::Apply(*function, bindings.plain, bindings.lifted))
        },
        Body::Sound(function) => Expression::Sound(
            SoundExpression::Invocation(*function, bindings.plain),
        ),
        Body::Void(function) => Expression::Void(
            VoidExpression::Invocation(*function, bindings.plain),
        ),
    }
}

/// Compiles an expression in a scope: checks its types and resolves every
/// name, operator and call.
///
/// The result is a typed expression with the place of the whole source
/// expression, or the first error in the order of the source.
pub fn compile_expression(
    expression: syntax::Expression,
    variables: &Variables,
    functions: &Functions,
) -> (result: Compiled)
    ensures
        result == lowered(expression, variables@, functions@),
    decreases expression,
{
    let range = expression.range;
    match expression.node {
        Node::Identifier(name) => match find_variable(variables, &name) {
            Some(Value::Real(cell)) => Ok((Expression::Real(RealExpression::Reference(cell)), range)),
            Some(Value::Boolean(cell)) => Ok(
                (Expression::Boolean(BooleanExpression::Reference(cell)), range),
            ),
            Some(Value::Sound(cell)) => Ok(
                (Expression::Sound(SoundExpression::Reference(cell)), range),
            ),
            Some(Value::String(cell)) => Ok(
                (Expression::String(StringExpression::Reference(cell)), range),
            ),
            None => Err(Error::UndefinedVariable(name, range)),
        },
        Node::Invocation(name, arguments, named) => {
            let function = match find_function(functions, &name) {
                Some(function) => function,
                None => {
                    return Err(Error::UndefinedFunction(name, range));
                },
            };
            if !same_length(&arguments, &function.arguments) {
                return Err(
                    Error::WrongNumberOfArguments(
                        range,
                        function.arguments.len(),
                        arguments.len(),
                    ),
                );
            }
            let bindings = match compile_arguments(
                arguments,
                &function.arguments,
                &function.body,
                variables,
                functions,
            ) {
                Ok(bindings) => bindings,
                Err(error) => {
                    return Err(error);
                },
            };
            let omitted = default_arguments(&function.named_arguments, &named);
            let given = match compile_named(named, &function.named_arguments, variables, functions) {
                Ok(given) => given,
                Err(error) => {
                    return Err(error);
                },
            };
            let plain = bindings.plain.append(given).append(omitted);
            Ok((invoke(&function.body, Bindings { plain, lifted: bindings.lifted }), range))
        },
        Node::Number(value) => Ok((Expression::Real(RealExpression::Const(value)), range)),
        Node::String(text) => Ok((Expression::String(StringExpression::Const(text)), range)),
        Node::Print(a) => finish_one(
            Unary::Print,
            compile_expression(*a, variables, functions),
            range,
        ),
        Node::Minus(a) => finish_one(
            Unary::Minus,
            compile_expression(*a, variables, functions),
            range,
        ),
        Node::Reciprocal(a) => finish_one(
            Unary::Reciprocal,
            compile_expression(*a, variables, functions),
            range,
        ),
        Node::Not(a) => finish_one(Unary::Not, compile_expression(*a, variables, functions), range),
        Node::Add(a, b) => finish_two(
            Binary::Arithmetic(Arithmetic::Add),
            compile_expression(*a, variables, functions),
            compile_expression(*b, variables, functions),
            range,
        ),
        Node::Sub(a, b) => finish_two(
            Binary::Arithmetic(Arithmetic::Sub),
            compile_expression(*a, variables, functions),
            compile_expression(*b, variables, functions),
            range,
        ),
        Node::Mul(a, b) => finish_two(
            Binary::Arithmetic(Arithmetic::Mul),
            compile_expression(*a, variables, functions),
            compile_expression(*b, variables, functions),
            range,
        ),
        Node::Div(a, b) => finish_two(
            Binary::Arithmetic(Arithmetic::Div),
            compile_expression(*a, variables, functions),
            compile_expression(*b, variables, functions),
            range,
        ),
        Node::Rem(a, b) => finish_two(
            Binary::Arithmetic(Arithmetic::Rem),
            compile_expression(*a, variables, functions),
            compile_expression(*b, variables, functions),
            range,
        ),
        Node::Pow(a, b) => finish_two(
            Binary::Arithmetic(Arithmetic::Pow),
            compile_expression(*a, variables, functions),
            compile_expression(*b, variables, functions),
            range,
        ),
        Node::LeftShift(a, b) => finish_two(
            Binary::LeftShift,
            compile_expression(*a, variables, functions),
            compile_expression(*b, variables, functions),
            range,
        ),
        Node::RightShift(a, b) => finish_two(
            Binary::RightShift,
            compile_expression(*a, variables, functions),
            compile_expression(*b, variables, functions),
            range,
        ),
        Node::Less(a, b) => finish_two(
            Binary::Less,
            compile_expression(*a, variables, functions),
            compile_expression(*b, variables, functions),
            range,
        ),
        Node::Greater(a, b) => finish_two(
            Binary::Greater,
            compile_expression(*a, variables, functions),
            compile_expression(*b, variables, functions),
            range,
        ),
        Node::Equal(a, b) => finish_two(
            Binary::Equal,
            compile_expression(*a, variables, functions),
            compile_expression(*b, variables, functions),
            range,
        ),
        Node::NotEqual(a, b) => finish_two(
            Binary::NotEqual,
            compile_expression(*a, variables, functions),
            compile_expression(*b, variables, functions),
            range,
        ),
        Node::And(a, b) => finish_two(
            Binary::And,
            compile_expression(*a, variables, functions),
            compile_expression(*b, variables, functions),
            range,
        ),
        Node::Or(a, b) => finish_two(
            Binary::Or,
            compile_expression(*a, variables, functions),
            compile_expression(*b, variables, functions),
            range,
        ),
        Node::Group(a) => match compile_expression(*a, variables, functions) {
            Err(error) => Err(error),
            Ok(inner) => Ok((inner.0, range)),
        },
    }
}

/// Compiles the positional arguments of a call and binds each to the cell
/// that takes it.
pub fn compile_arguments(
    arguments: List<syntax::Expression>,
    slots: &List<Value>,
    body: &Body,
    variables: &Variables,
    functions: &Functions,
) -> (result: Result<Bindings, Error>)
    ensures
        result == lowered_arguments(arguments, *slots, *body, variables@, functions@),
    decreases arguments,
{
    match arguments {
        List::Nil => Ok(Bindings { plain: List::Nil, lifted: List::Nil }),
        List::Cons(argument, rest) => match slots {
            List::Nil => Ok(Bindings { plain: List::Nil, lifted: List::Nil }),
            List::Cons(slot, slots) => {
                let compiled = match compile_expression(*argument, variables, functions) {
                    Ok(compiled) => compiled,
                    Err(error) => {
                        return Err(error);
                    },
                };
                let first = match bind(**slot, body, compiled.0) {
                    Ok(first) => first,
                    Err(ty) => {
                        return Err(Error::TypeMismatchArgument(compiled.1, ty));
                    },
                };
                let bindings = match compile_arguments(*rest, slots, body, variables, functions) {
                    Ok(bindings) => bindings,
                    Err(error) => {
                        return Err(error);
                    },
                };
                Ok(
                    match first {
                        Bound::Plain(argument) => Bindings {
                            plain: List::Cons(Box::new(argument), Box::new(bindings.plain)),
                            lifted: bindings.lifted,
                        },
                        Bound::Lifted(cell, sound) => Bindings {
                            plain: bindings.plain,
                            lifted: List::Cons(Box::new((cell, sound)), Box::new(bindings.lifted)),
                        },
                    },
                )
            },
        },
    }
}

/// Compiles the named arguments that a call gives and binds each to the
/// cell that takes it.
pub fn compile_named(
    named: List<(String, syntax::Expression)>,
    declared: &List<(String, Argument)>,
    variables: &Variables,
    functions: &Functions,
) -> (result: Result<List<Argument>, Error>)
    ensures
        result == lowered_named(named, *declared, variables@, functions@),
    decreases named,
{
    match named {
        List::Nil => Ok(List::Nil),
        List::Cons(head, rest) => {
            let (name, expression) = *head;
            let taker = match find_slot(declared, &name) {
                Some(taker) => taker,
                None => {
                    return Err(Error::UnusedNamedArgument(name, expression.range));
                },
            };
            let compiled = match compile_expression(expression, variables, functions) {
                Ok(compiled) => compiled,
                Err(error) => {
                    return Err(error);
                },
            };
            let first = match bind_named(taker, compiled.0) {
                Ok(first) => first,
                Err(ty) => {
                    return Err(Error::TypeMismatchArgument(compiled.1, ty));
                },
            };
            match compile_named(*rest, declared, variables, functions) {
                Err(error) => Err(error),
                Ok(others) => Ok(List::Cons(Box::new(first), Box::new(others))),
            }
        },
    }
}

/// A copy of the variables in scope.
pub fn duplicate_variables(variables: &Variables) -> (copy: Variables)
    ensures
        copy@ == variables@,
{
    let mut copy: Variables = Vec::new();
    let mut i: usize = 0;
    while i < variables.len()
        invariant
            i <= variables@.len(),
            copy@ == variables@.take(i as int),
        decreases variables@.len() - i,
    {
        copy.push((variables[i].0.clone(), variables[i].1));
        assert(copy@ =~= variables@.take(i + 1));
        i += 1;
    }
    assert(variables@.take(variables@.len() as int) =~= variables@);
    copy
}

/// Puts a variable in scope, behind those that are there.
pub fn declare(variables: &mut Variables, name: String, value: Value)
    ensures
        final(variables)@ == old(variables)@.push((name, value)),
{
    variables.push((name, value));
}

/// Assigns a typed expression to the cell of a variable.
pub fn assign(target: Value, source: Expression) -> (result: Result<Statement, (Type, Type)>)
    ensures
        result == assignment(target, source),
{
    let ty = source.ty();
    match (target, source) {
        (Value::Real(cell), Expression::Real(a)) => Ok(Statement::RealSubstitution(cell, a)),
        (Value::Boolean(cell), Expression::Boolean(a)) => Ok(
            Statement::BooleanSubstitution(cell, a),
        ),
        (Value::Sound(cell), Expression::Sound(a)) => Ok(Statement::SoundSubstitution(cell, a)),
        (Value::String(cell), Expression::String(a)) => Ok(Statement::StringSubstitution(cell, a)),
        _ => Err((target.ty(), ty)),
    }
}

/// Takes a compiled expression as the condition of a loop or a branch.
pub fn as_condition(condition: Compiled) -> (result: Result<BooleanExpression, Error>)
    ensures
        result == condition_of(condition),
{
    match condition {
        Err(error) => Err(error),
        Ok(condition) => {
            let ty = condition.0.ty();
            match condition.0 {
                Expression::Boolean(a) => Ok(a),
                _ => Err(Error::TypeMismatchCond(condition.1, ty)),
            }
        },
    }
}

/// Compiles a statement in a scope.
///
/// A declaration makes its cell in `store` and puts its name in
/// `variables`; nothing else changes either. On an error the scope is as it
/// was before the statement.
pub fn compile_statement(
    statement: syntax::Statement,
    variables: &mut Variables,
    functions: &Functions,
    store: &mut Store,
) -> (result: Result<Statement, Error>)
    ensures
        result == compiled(statement, old(variables)@, functions@, old(store)@).result,
        final(variables)@ == compiled(statement, old(variables)@, functions@, old(store)@).variables,
        final(store)@ == compiled(statement, old(variables)@, functions@, old(store)@).memory,
    decreases statement,
{
    match statement {
        syntax::Statement::Expression(None) => Ok(Statement::Expression(None)),
        syntax::Statement::Expression(Some(expression)) => match compile_expression(
            expression,
            variables,
            functions,
        ) {
            Err(error) => Err(error),
            Ok(inner) => Ok(Statement::Expression(Some(inner.0))),
        },
        syntax::Statement::Substitution(range, name, expression) => {
            let target = match find_variable(variables, &name) {
                Some(target) => target,
                None => {
                    return Err(Error::UndefinedVariable(name, range));
                },
            };
            match compile_expression(expression, variables, functions) {
                Err(error) => Err(error),
                Ok(source) => match assign(target, source.0) {
                    Ok(statement) => Ok(statement),
                    Err(types) => Err(Error::TypeMismatchBinary(range, types.0, source.1, types.1)),
                },
            }
        },
        syntax::Statement::Declaration(range, name, expression) => {
            let source = match compile_expression(expression, variables, functions) {
                Ok(source) => source,
                Err(error) => {
                    return Err(error);
                },
            };
            match source.0 {
                Expression::Real(a) => {
                    let cell = store.new_real();
                    declare(variables, name, Value::Real(cell));
                    Ok(Statement::RealSubstitution(cell, a))
                },
                Expression::Boolean(a) => {
                    let cell = store.new_boolean();
                    declare(variables, name, Value::Boolean(cell));
                    Ok(Statement::BooleanSubstitution(cell, a))
                },
                Expression::Sound(a) => {
                    let cell = store.new_sound();
                    declare(variables, name, Value::Sound(cell));
                    Ok(Statement::SoundSubstitution(cell, a))
                },
                Expression::String(a) => {
                    let cell = store.new_string();
                    declare(variables, name, Value::String(cell));
                    Ok(Statement::StringSubstitution(cell, a))
                },
                Expression::Void(_) => Err(Error::VoidRHS(range)),
            }
        },
        syntax::Statement::Block(statements) => {
            let mut inner = duplicate_variables(variables);
            match compile_block(statements, &mut inner, functions, store) {
                Err(error) => Err(error),
                Ok(statements) => Ok(Statement::Block(statements)),
            }
        },
        syntax::Statement::While(condition, body) => {
            let condition = match as_condition(compile_expression(condition, variables, functions)) {
                Ok(condition) => condition,
                Err(error) => {
                    return Err(error);
                },
            };
            let mut inner = duplicate_variables(variables);
            match compile_statement(*body, &mut inner, functions, store) {
                Err(error) => Err(error),
                Ok(body) => Ok(Statement::While(condition, Box::new(body))),
            }
        },
        syntax::Statement::If(condition, then, otherwise) => {
            let condition = match as_condition(compile_expression(condition, variables, functions)) {
                Ok(condition) => condition,
                Err(error) => {
                    return Err(error);
                },
            };
            let mut inner = duplicate_variables(variables);
            let then = match compile_statement(*then, &mut inner, functions, store) {
                Ok(then) => then,
                Err(error) => {
                    return Err(error);
                },
            };
            match otherwise {
                None => Ok(Statement::If(condition, Box::new(then), None)),
                Some(otherwise) => {
                    let mut inner = duplicate_variables(variables);
                    match compile_statement(*otherwise, &mut inner, functions, store) {
                        Err(error) => Err(error),
                        Ok(otherwise) => Ok(
                            Statement::If(condition, Box::new(then), Some(Box::new(otherwise))),
                        ),
                    }
                },
            }
        },
        syntax::Statement::Break => Ok(Statement::Break),
        syntax::Statement::Continue => Ok(Statement::Continue),
        syntax::Statement::Return(range, _) => Err(Error::ReturnOutsideFunction(range)),
    }
}

/// Compiles the statements of a block in order, each in the scope that the
/// one before it left.
pub fn compile_block(
    statements: List<syntax::Statement>,
    variables: &mut Variables,
    functions: &Functions,
    store: &mut Store,
) -> (result: Result<List<Statement>, Error>)
    ensures
        result == compiled_block(statements, old(variables)@, functions@, old(store)@).0,
        final(store)@ == compiled_block(statements, old(variables)@, functions@, old(store)@).1,
    decreases statements,
{
    match statements {
        List::Nil => Ok(List::Nil),
        List::Cons(head, rest) => {
            let statement = match compile_statement(*head, variables, functions, store) {
                Ok(statement) => statement,
                Err(error) => {
                    return Err(error);
                },
            };
            match compile_block(*rest, variables, functions, store) {
                Err(error) => Err(error),
                Ok(statements) => Ok(List::Cons(Box::new(statement), Box::new(statements))),
            }
        },
    }
}

} // verus!
