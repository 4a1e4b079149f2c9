//! The typing rules, and the proof that the compiler follows them.
//!
//! The rules say which type an expression has, if it has one, without
//! saying how it is compiled. The compiler gives a typed expression exactly
//! where the rules give a type, and it is an expression of that type.

use vstd::prelude::*;
use crate::error::Error;
use crate::compiler::{
    binary, bound, function, lowered, lowered_arguments, lowered_named, named_bound, one, slot,
    two, unary, variable, Arithmetic, Binary, Bound, Compiled, Scope, Table, Unary,
};
use crate::function::Body;
use crate::list::List;
use crate::pos::Range;
use crate::program::{Argument, Expression};
use crate::syntax;
use crate::syntax::Node;
use crate::types::Type;
use crate::value::Value;

verus! {

/// The type of an operator of one operand on an operand of a given type,
/// where the operator takes that type.
///
/// | operator | operand | result |
/// |---|---|---|
/// | `?` | real, boolean, sound, string | the same |
/// | `-` `/` | real, sound | the same |
/// | `!` | boolean | boolean |
pub open spec fn unary_type(op: Unary, operand: Type) -> Option<Type> {
    match (op, operand) {
        (Unary::Print, Type::Void) => None,
        (Unary::Print, ty) => Some(ty),
        (Unary::Minus, Type::Real) => Some(Type::Real),
        (Unary::Minus, Type::Sound) => Some(Type::Sound),
        (Unary::Reciprocal, Type::Real) => Some(Type::Real),
        (Unary::Reciprocal, Type::Sound) => Some(Type::Sound),
        (Unary::Not, Type::Boolean) => Some(Type::Boolean),
        _ => None,
    }
}

/// The type of an operator of two operands on operands of given types,
/// where the operator takes that pair of types.
///
/// | operator | operands | result |
/// |---|---|---|
/// | `+ - * / % ^` | real and real | real |
/// | | sound and sound, sound and real, real and sound | sound |
/// | `+` | string and string | string |
/// | `<<` `>>` | sound and real | sound |
/// | `<` `>` | real and real | boolean |
/// | `==` `!=` | real and real, string and string | boolean |
/// | `&&` `||` | boolean and boolean | boolean |
pub open spec fn binary_type(op: Binary, left: Type, right: Type) -> Option<Type> {
    match (op, left, right) {
        (Binary::Arithmetic(_), Type::Real, Type::Real) => Some(Type::Real),
        (Binary::Arithmetic(_), Type::Sound, Type::Sound) => Some(Type::Sound),
        (Binary::Arithmetic(_), Type::Sound, Type::Real) => Some(Type::Sound),
        (Binary::Arithmetic(_), Type::Real, Type::Sound) => Some(Type::Sound),
        (Binary::Arithmetic(Arithmetic::Add), Type::String, Type::String) => Some(Type::String),
        (Binary::LeftShift, Type::Sound, Type::Real) => Some(Type::Sound),
        (Binary::RightShift, Type::Sound, Type::Real) => Some(Type::Sound),
        (Binary::Less, Type::Real, Type::Real) => Some(Type::Boolean),
        (Binary::Greater, Type::Real, Type::Real) => Some(Type::Boolean),
        (Binary::Equal, Type::Real, Type::Real) => Some(Type::Boolean),
        (Binary::Equal, Type::String, Type::String) => Some(Type::Boolean),
        (Binary::NotEqual, Type::Real, Type::Real) => Some(Type::Boolean),
        (Binary::NotEqual, Type::String, Type::String) => Some(Type::Boolean),
        (Binary::And, Type::Boolean, Type::Boolean) => Some(Type::Boolean),
        (Binary::Or, Type::Boolean, Type::Boolean) => Some(Type::Boolean),
        _ => None,
    }
}

/// The type of an operator of one operand, from the type of the operand.
pub open spec fn one_type(op: Unary, operand: Option<Type>) -> Option<Type> {
    match operand {
        None => None,
        Some(operand) => unary_type(op, operand),
    }
}

/// The type of an operator of two operands, from the types of the operands.
pub open spec fn two_type(op: Binary, left: Option<Type>, right: Option<Type>) -> Option<Type> {
    match (left, right) {
        (Some(left), Some(right)) => binary_type(op, left, right),
        _ => None,
    }
}

/// Whether an argument of a given type fits the cell of a positional
/// argument; a sound fits a real cell of a function that gives a real.
pub open spec fn fits(slot: Value, body: Body, argument: Type) -> bool {
    argument == slot.spec_ty() || (slot is Real && argument == Type::Sound && body is Real)
}

/// Whether a sound is given where the cell takes a real.
pub open spec fn lifts(slot: Value, argument: Type) -> bool {
    slot is Real && argument == Type::Sound
}

/// The type of the cell of an argument.
pub open spec fn argument_type(argument: Argument) -> Type {
    match argument {
        Argument::Real(_, _) => Type::Real,
        Argument::Boolean(_, _) => Type::Boolean,
        Argument::Sound(_, _) => Type::Sound,
        Argument::String(_, _) => Type::String,
    }
}

/// Whether every positional argument has a type that fits its cell, and if
/// so, whether any of them is a sound given for a real.
pub open spec fn arguments_fit(
    arguments: List<syntax::Expression>,
    slots: List<Value>,
    body: Body,
    variables: Scope,
    functions: Table,
) -> Option<bool>
    decreases arguments,
{
    match (arguments, slots) {
        (List::Cons(argument, rest), List::Cons(slot, slots)) => match type_of(
            *argument,
            variables,
            functions,
        ) {
            None => None,
            Some(ty) => if fits(*slot, body, ty) {
                match arguments_fit(*rest, *slots, body, variables, functions) {
                    None => None,
                    Some(lifted) => Some(lifted || lifts(*slot, ty)),
                }
            } else {
                None
            },
        },
        _ => Some(false),
    }
}

/// Whether every named argument that a call gives is one that the function
/// has, and has the type of its cell.
pub open spec fn named_fit(
    named: List<(String, syntax::Expression)>,
    declared: List<(String, Argument)>,
    variables: Scope,
    functions: Table,
) -> bool
    decreases named,
{
    match named {
        List::Nil => true,
        List::Cons(head, rest) => match slot(declared, head.0@) {
            None => false,
            Some(taker) => type_of(head.1, variables, functions) == Some(argument_type(taker))
                && named_fit(*rest, declared, variables, functions),
        },
    }
}

/// The type of an expression in a scope, where it has one.
///
/// A name has the type of its variable. A call has the type that the
/// function gives, but it is a sound where a function that gives a real is
/// given a sound for a real.
pub open spec fn type_of(expression: syntax::Expression, variables: Scope, functions: Table)
    -> Option<Type>
    decreases expression,
{
    match expression.node {
        Node::Identifier(name) => match variable(variables, name@) {
            Some(value) => Some(value.spec_ty()),
            None => None,
        },
        Node::Invocation(name, arguments, named) => match function(functions, name@) {
            None => None,
            Some(f) => if arguments.length() != f.arguments.length() {
                None
            } else {
                match arguments_fit(arguments, f.arguments, f.body, variables, functions) {
                    None => None,
                    Some(lifted) => if named_fit(named, f.named_arguments, variables, functions) {
                        if lifted {
                            Some(Type::Sound)
                        } else {
                            Some(f.body.spec_ty())
                        }
                    } else {
                        None
                    },
                }
            },
        },
        Node::Number(_) => Some(Type::Real),
        Node::String(_) => Some(Type::String),
        Node::Print(a) => one_type(Unary::Print, type_of(*a, variables, functions)),
        Node::Minus(a) => one_type(Unary::Minus, type_of(*a, variables, functions)),
        Node::Reciprocal(a) => one_type(Unary::Reciprocal, type_of(*a, variables, functions)),
        Node::Not(a) => one_type(Unary::Not, type_of(*a, variables, functions)),
        Node::Add(a, b) => two_type(
            Binary::Arithmetic(Arithmetic::Add),
            type_of(*a, variables, functions),
            type_of(*b, variables, functions),
        ),
        Node::Sub(a, b) => two_type(
            Binary::Arithmetic(Arithmetic::Sub),
            type_of(*a, variables, functions),
            type_of(*b, variables, functions),
        ),
        Node::Mul(a, b) => two_type(
            Binary::Arithmetic(Arithmetic::Mul),
            type_of(*a, variables, functions),
            type_of(*b, variables, functions),
        ),
        Node::Div(a, b) => two_type(
            Binary::Arithmetic(Arithmetic::Div),
            type_of(*a, variables, functions),
            type_of(*b, variables, functions),
        ),
        Node::Rem(a, b) => two_type(
            Binary::Arithmetic(Arithmetic::Rem),
            type_of(*a, variables, functions),
            type_of(*b, variables, functions),
        ),
        Node::Pow(a, b) => two_type(
            Binary::Arithmetic(Arithmetic::Pow),
            type_of(*a, variables, functions),
            type_of(*b, variables, functions),
        ),
        Node::LeftShift(a, b) => two_type(
            Binary::LeftShift,
            type_of(*a, variables, functions),
            type_of(*b, variables, functions),
        ),
        Node::RightShift(a, b) => two_type(
            Binary::RightShift,
            type_of(*a, variables, functions),
            type_of(*b, variables, functions),
        ),
        Node::Less(a, b) => two_type(
            Binary::Less,
            type_of(*a, variables, functions),
            type_of(*b, variables, functions),
        ),
        Node::Greater(a, b) => two_type(
            Binary::Greater,
            type_of(*a, variables, functions),
            type_of(*b, variables, functions),
        ),
        Node::Equal(a, b) => two_type(
            Binary::Equal,
            type_of(*a, variables, functions),
            type_of(*b, variables, functions),
        ),
        Node::NotEqual(a, b) => two_type(
            Binary::NotEqual,
            type_of(*a, variables, functions),
            type_of(*b, variables, functions),
        ),
        Node::And(a, b) => two_type(
            Binary::And,
            type_of(*a, variables, functions),
            type_of(*b, variables, functions),
        ),
        Node::Or(a, b) => two_type(
            Binary::Or,
            type_of(*a, variables, functions),
            type_of(*b, variables, functions),
        ),
        Node::Group(a) => type_of(*a, variables, functions),
    }
}

/// Whether a result of the compiler goes with a type that the rules give:
/// a typed expression of that type, or an error where there is no type.
pub open spec fn agrees(compiled: Compiled, ty: Option<Type>) -> bool {
    match compiled {
        Ok(typed) => ty == Some(typed.0.spec_ty()),
        Err(_) => ty is None,
    }
}

/// An operator of one operand is resolved exactly where the table has a row
/// for the type of its operand, and to an expression of the type in that
/// row.
pub proof fn unary_follows_table(op: Unary, operand: Expression, range: Range)
    ensures
        match unary(op, operand, range) {
            Ok(typed) => unary_type(op, operand.spec_ty()) == Some(typed.spec_ty()),
            Err(error) => unary_type(op, operand.spec_ty()) is None && error
                == Error::TypeMismatchUnary(range, operand.spec_ty()),
        },
{
    reveal(unary);
}

/// An operator of two operands is resolved exactly where the table has a
/// row for the types of its operands, and to an expression of the type in
/// that row.
pub proof fn binary_follows_table(op: Binary, left: (Expression, Range), right: (Expression, Range))
    ensures
        match binary(op, left, right) {
            Ok(typed) => binary_type(op, left.0.spec_ty(), right.0.spec_ty()) == Some(
                typed.spec_ty(),
            ),
            Err(error) => binary_type(op, left.0.spec_ty(), right.0.spec_ty()) is None && error
                == Error::TypeMismatchBinary(left.1, left.0.spec_ty(), right.1, right.0.spec_ty()),
        },
{
    reveal(binary);
}

proof fn one_agrees(op: Unary, operand: Compiled, ty: Option<Type>, range: Range)
    requires
        agrees(operand, ty),
    ensures
        agrees(one(op, operand, range), one_type(op, ty)),
{
    if let Ok(typed) = operand {
        unary_follows_table(op, typed.0, typed.1);
    }
}

proof fn two_agrees(
    op: Binary,
    left: Compiled,
    left_ty: Option<Type>,
    right: Compiled,
    right_ty: Option<Type>,
    range: Range,
)
    requires
        agrees(left, left_ty),
        agrees(right, right_ty),
    ensures
        agrees(two(op, left, right, range), two_type(op, left_ty, right_ty)),
{
    if let Ok(l) = left {
        if let Ok(r) = right {
            binary_follows_table(op, l, r);
        }
    }
}

/// The compiler gives a typed expression exactly for the expressions that
/// have a type, and the typed expression has that type and the place of the
/// source expression. For an expression without a type it gives an error
/// and no typed expression.
pub proof fn compiler_follows_typing(
    expression: syntax::Expression,
    variables: Scope,
    functions: Table,
)
    ensures
        agrees(lowered(expression, variables, functions), type_of(expression, variables, functions)),
        lowered(expression, variables, functions) matches Ok(typed) ==> typed.1
            == expression.range,
    decreases expression,
{
    let range = expression.range;
    match expression.node {
        Node::Identifier(name) => {},
        Node::Invocation(name, arguments, named) => {
            match function(functions, name@) {
                None => {},
                Some(f) => {
                    if arguments.length() == f.arguments.length() {
                        arguments_follow_typing(arguments, f.arguments, f.body, variables, functions);
                        named_follow_typing(named, f.named_arguments, variables, functions);
                    }
                },
            }
        },
        Node::Number(_) => {},
        Node::String(_) => {},
        Node::Print(a) => {
            compiler_follows_typing(*a, variables, functions);
            one_agrees(
                Unary::Print,
                lowered(*a, variables, functions),
                type_of(*a, variables, functions),
                range,
            );
        },
        Node::Minus(a) => {
            compiler_follows_typing(*a, variables, functions);
            one_agrees(
                Unary::Minus,
                lowered(*a, variables, functions),
                type_of(*a, variables, functions),
                range,
            );
        },
        Node::Reciprocal(a) => {
            compiler_follows_typing(*a, variables, functions);
            one_agrees(
                Unary::Reciprocal,
                lowered(*a, variables, functions),
                type_of(*a, variables, functions),
                range,
            );
        },
        Node::Not(a) => {
            compiler_follows_typing(*a, variables, functions);
            one_agrees(
                Unary::Not,
                lowered(*a, variables, functions),
                type_of(*a, variables, functions),
                range,
            );
        },
        Node::Add(a, b) => {
            compiler_follows_typing(*a, variables, functions);
            compiler_follows_typing(*b, variables, functions);
            operands_follow_typing(Binary::Arithmetic(Arithmetic::Add), *a, *b, variables, functions, range);
        },
        Node::Sub(a, b) => {
            compiler_follows_typing(*a, variables, functions);
            compiler_follows_typing(*b, variables, functions);
            operands_follow_typing(Binary::Arithmetic(Arithmetic::Sub), *a, *b, variables, functions, range);
        },
        Node::Mul(a, b) => {
            compiler_follows_typing(*a, variables, functions);
            compiler_follows_typing(*b, variables, functions);
            operands_follow_typing(Binary::Arithmetic(Arithmetic::Mul), *a, *b, variables, functions, range);
        },
        Node::Div(a, b) => {
            compiler_follows_typing(*a, variables, functions);
            compiler_follows_typing(*b, variables, functions);
            operands_follow_typing(Binary::Arithmetic(Arithmetic::Div), *a, *b, variables, functions, range);
        },
        Node::Rem(a, b) => {
            compiler_follows_typing(*a, variables, functions);
            compiler_follows_typing(*b, variables, functions);
            operands_follow_typing(Binary::Arithmetic(Arithmetic::Rem), *a, *b, variables, functions, range);
        },
        Node::Pow(a, b) => {
            compiler_follows_typing(*a, variables, functions);
            compiler_follows_typing(*b, variables, functions);
            operands_follow_typing(Binary::Arithmetic(Arithmetic::Pow), *a, *b, variables, functions, range);
        },
        Node::LeftShift(a, b) => {
            compiler_follows_typing(*a, variables, functions);
            compiler_follows_typing(*b, variables, functions);
            operands_follow_typing(Binary::LeftShift, *a, *b, variables, functions, range);
        },
        Node::RightShift(a, b) => {
            compiler_follows_typing(*a, variables, functions);
            compiler_follows_typing(*b, variables, functions);
            operands_follow_typing(Binary::RightShift, *a, *b, variables, functions, range);
        },
        Node::Less(a, b) => {
            compiler_follows_typing(*a, variables, functions);
            compiler_follows_typing(*b, variables, functions);
            operands_follow_typing(Binary::Less, *a, *b, variables, functions, range);
        },
        Node::Greater(a, b) => {
            compiler_follows_typing(*a, variables, functions);
            compiler_follows_typing(*b, variables, functions);
            operands_follow_typing(Binary::Greater, *a, *b, variables, functions, range);
        },
        Node::Equal(a, b) => {
            compiler_follows_typing(*a, variables, functions);
            compiler_follows_typing(*b, variables, functions);
            operands_follow_typing(Binary::Equal, *a, *b, variables, functions, range);
        },
        Node::NotEqual(a, b) => {
            compiler_follows_typing(*a, variables, functions);
            compiler_follows_typing(*b, variables, functions);
            operands_follow_typing(Binary::NotEqual, *a, *b, variables, functions, range);
        },
        Node::And(a, b) => {
            compiler_follows_typing(*a, variables, functions);
            compiler_follows_typing(*b, variables, functions);
            operands_follow_typing(Binary::And, *a, *b, variables, functions, range);
        },
        Node::Or(a, b) => {
            compiler_follows_typing(*a, variables, functions);
            compiler_follows_typing(*b, variables, functions);
            operands_follow_typing(Binary::Or, *a, *b, variables, functions, range);
        },
        Node::Group(a) => {
            compiler_follows_typing(*a, variables, functions);
        },
    }
}

proof fn operands_follow_typing(
    op: Binary,
    left: syntax::Expression,
    right: syntax::Expression,
    variables: Scope,
    functions: Table,
    range: Range,
)
    requires
        agrees(lowered(left, variables, functions), type_of(left, variables, functions)),
        agrees(lowered(right, variables, functions), type_of(right, variables, functions)),
    ensures
        agrees(
            two(
                op,
                lowered(left, variables, functions),
                lowered(right, variables, functions),
                range,
            ),
            two_type(op, type_of(left, variables, functions), type_of(right, variables, functions)),
        ),
{
    two_agrees(
        op,
        lowered(left, variables, functions),
        type_of(left, variables, functions),
        lowered(right, variables, functions),
        type_of(right, variables, functions),
        range,
    );
}

/// The positional arguments of a call are bound exactly where each has a
/// type that fits its cell, and some are bound sample by sample exactly
/// where a sound is given for a real.
pub proof fn arguments_follow_typing(
    arguments: List<syntax::Expression>,
    slots: List<Value>,
    body: Body,
    variables: Scope,
    functions: Table,
)
    ensures
        match lowered_arguments(arguments, slots, body, variables, functions) {
            Ok(bindings) => arguments_fit(arguments, slots, body, variables, functions) == Some(
                !(bindings.lifted is Nil),
            ) && (!(bindings.lifted is Nil) ==> body is Real),
            Err(_) => arguments_fit(arguments, slots, body, variables, functions) is None,
        },
    decreases arguments,
{
    match (arguments, slots) {
        (List::Cons(argument, rest), List::Cons(slot, others)) => {
            compiler_follows_typing(*argument, variables, functions);
            arguments_follow_typing(*rest, *others, body, variables, functions);
        },
        _ => {},
    }
}

/// The named arguments of a call are bound exactly where each is one that
/// the function has, and has the type of its cell.
pub proof fn named_follow_typing(
    named: List<(String, syntax::Expression)>,
    declared: List<(String, Argument)>,
    variables: Scope,
    functions: Table,
)
    ensures
        lowered_named(named, declared, variables, functions) is Ok == named_fit(
            named,
            declared,
            variables,
            functions,
        ),
    decreases named,
{
    match named {
        List::Nil => {},
        List::Cons(head, rest) => {
            compiler_follows_typing(head.1, variables, functions);
            named_follow_typing(*rest, declared, variables, functions);
        },
    }
}

} // verus!
