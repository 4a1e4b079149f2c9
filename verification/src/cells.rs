//! Programs and the cells that they name.
//!
//! A typed program names cells by their places. Here it is shown that the
//! compiler only ever names cells that exist: those of the variables in
//! scope, those of the functions, and those that declarations make. A
//! compiled program therefore never reads a cell that is not there, and no
//! write of it is lost.

use vstd::prelude::*;
use crate::compiler::{
    binary, bound, compiled, compiled_block, condition_of, defaults, function, invocation,
    lowered, lowered_arguments, lowered_named, named_bound, one, real_arithmetic, slot,
    sound_arithmetic, two, unary, variable, Arithmetic, Binary, Bindings, Bound, Compiled,
    Scope, Table, Unary,
};
use crate::function::{Body, Function, RealFunction, SoundFunction, VoidFunction};
use crate::list::List;
use crate::pos::Range;
use crate::program::{
    Argument, BooleanExpression, Expression, RealExpression, SoundExpression, Statement,
    StringExpression, VoidExpression,
};
use crate::store::Memory;
use crate::syntax;
use crate::syntax::Node;
use crate::value::Value;

verus! {

/// Whether the cells of a function that gives a real exist.
pub open spec fn real_function_within(function: RealFunction, memory: Memory) -> bool {
    match function {
        RealFunction::Primitive1(_, x) => x < memory.reals.len(),
        RealFunction::Primitive2(_, x, y) => x < memory.reals.len() && y < memory.reals.len(),
    }
}

/// Whether the cells of a function that gives a sound exist.
pub open spec fn sound_function_within(function: SoundFunction, memory: Memory) -> bool {
    match function {
        SoundFunction::Sin(x) => x < memory.reals.len(),
        SoundFunction::Linear(x, t) => x < memory.reals.len() && t < memory.reals.len(),
        SoundFunction::Exp(x) => x < memory.reals.len(),
    }
}

/// Whether the cells of a function that gives nothing exist.
pub open spec fn void_function_within(function: VoidFunction, memory: Memory) -> bool {
    match function {
        VoidFunction::Write(sound, seconds, path) => sound < memory.sounds.len() && seconds
            < memory.reals.len() && path < memory.strings.len(),
    }
}

/// Whether every cell that a real expression names exists.
pub open spec fn real_within(expression: RealExpression, memory: Memory) -> bool
    decreases expression,
{
    match expression {
        RealExpression::Const(_) => true,
        RealExpression::Reference(cell) => cell < memory.reals.len(),
        RealExpression::Print(a) => real_within(*a, memory),
        RealExpression::Minus(a) => real_within(*a, memory),
        RealExpression::Reciprocal(a) => real_within(*a, memory),
        RealExpression::Add(a, b) => real_within(*a, memory) && real_within(*b, memory),
        RealExpression::Sub(a, b) => real_within(*a, memory) && real_within(*b, memory),
        RealExpression::Mul(a, b) => real_within(*a, memory) && real_within(*b, memory),
        RealExpression::Div(a, b) => real_within(*a, memory) && real_within(*b, memory),
        RealExpression::Rem(a, b) => real_within(*a, memory) && real_within(*b, memory),
        RealExpression::Pow(a, b) => real_within(*a, memory) && real_within(*b, memory),
        RealExpression::Invocation(function, arguments) => real_function_within(function, memory)
            && arguments_within(arguments, memory),
    }
}

/// Whether every cell that a boolean expression names exists.
pub open spec fn boolean_within(expression: BooleanExpression, memory: Memory) -> bool
    decreases expression,
{
    match expression {
        BooleanExpression::Reference(cell) => cell < memory.booleans.len(),
        BooleanExpression::Print(a) => boolean_within(*a, memory),
        BooleanExpression::Not(a) => boolean_within(*a, memory),
        BooleanExpression::RealLess(a, b) => real_within(*a, memory) && real_within(*b, memory),
        BooleanExpression::RealGreater(a, b) => real_within(*a, memory) && real_within(*b, memory),
        BooleanExpression::RealEqual(a, b) => real_within(*a, memory) && real_within(*b, memory),
        BooleanExpression::RealNotEqual(a, b) => real_within(*a, memory) && real_within(*b, memory),
        BooleanExpression::StringEqual(a, b) => string_within(*a, memory) && string_within(
            *b,
            memory,
        ),
        BooleanExpression::StringNotEqual(a, b) => string_within(*a, memory) && string_within(
            *b,
            memory,
        ),
        BooleanExpression::And(a, b) => boolean_within(*a, memory) && boolean_within(*b, memory),
        BooleanExpression::Or(a, b) => boolean_within(*a, memory) && boolean_within(*b, memory),
    }
}

/// Whether every cell that a string expression names exists.
pub open spec fn string_within(expression: StringExpression, memory: Memory) -> bool
    decreases expression,
{
    match expression {
        StringExpression::Const(_) => true,
        StringExpression::Reference(cell) => cell < memory.strings.len(),
        StringExpression::Print(a) => string_within(*a, memory),
        StringExpression::Add(a, b) => string_within(*a, memory) && string_within(*b, memory),
    }
}

/// Whether every cell that a sound expression names exists.
pub open spec fn sound_within(expression: SoundExpression, memory: Memory) -> bool
    decreases expression,
{
    match expression {
        SoundExpression::Reference(cell) => cell < memory.sounds.len(),
        SoundExpression::Play(a) => sound_within(*a, memory),
        SoundExpression::Real(a) => real_within(a, memory),
        SoundExpression::Minus(a) => sound_within(*a, memory),
        SoundExpression::Reciprocal(a) => sound_within(*a, memory),
        SoundExpression::Add(a, b) => sound_within(*a, memory) && sound_within(*b, memory),
        SoundExpression::Sub(a, b) => sound_within(*a, memory) && sound_within(*b, memory),
        SoundExpression::Mul(a, b) => sound_within(*a, memory) && sound_within(*b, memory),
        SoundExpression::Div(a, b) => sound_within(*a, memory) && sound_within(*b, memory),
        SoundExpression::Rem(a, b) => sound_within(*a, memory) && sound_within(*b, memory),
        SoundExpression::Pow(a, b) => sound_within(*a, memory) && sound_within(*b, memory),
        SoundExpression::LeftShift(a, b) => sound_within(*a, memory) && real_within(*b, memory),
        SoundExpression::RightShift(a, b) => sound_within(*a, memory) && real_within(*b, memory),
        SoundExpression::Invocation(function, arguments) => sound_function_within(function, memory)
            && arguments_within(arguments, memory),
        SoundExpression::Apply(function, arguments, sounds) => real_function_within(
            function,
            memory,
        ) && arguments_within(arguments, memory) && sounds_within(sounds, memory),
    }
}

/// Whether the cell of an argument and every cell that its expression
/// names exist.
pub open spec fn argument_within(argument: Argument, memory: Memory) -> bool
    decreases argument,
{
    match argument {
        Argument::Real(cell, a) => cell < memory.reals.len() && real_within(a, memory),
        Argument::Boolean(cell, a) => cell < memory.booleans.len() && boolean_within(a, memory),
        Argument::Sound(cell, a) => cell < memory.sounds.len() && sound_within(a, memory),
        Argument::String(cell, a) => cell < memory.strings.len() && string_within(a, memory),
    }
}

/// Whether the cells of the arguments of a list exist.
pub open spec fn arguments_within(arguments: List<Argument>, memory: Memory) -> bool
    decreases arguments,
{
    match arguments {
        List::Nil => true,
        List::Cons(head, tail) => argument_within(*head, memory) && arguments_within(
            *tail,
            memory,
        ),
    }
}

/// Whether the cells of the sounds of a list, and those that take their
/// samples, exist.
pub open spec fn sounds_within(sounds: List<(usize, SoundExpression)>, memory: Memory) -> bool
    decreases sounds,
{
    match sounds {
        List::Nil => true,
        List::Cons(head, tail) => head.0 < memory.reals.len() && sound_within(head.1, memory)
            && sounds_within(*tail, memory),
    }
}

/// Whether every cell that an expression names exists.
#[verifier::opaque]
pub open spec fn expression_within(expression: Expression, memory: Memory) -> bool {
    match expression {
        Expression::Real(a) => real_within(a, memory),
        Expression::Boolean(a) => boolean_within(a, memory),
        Expression::Sound(a) => sound_within(a, memory),
        Expression::String(a) => string_within(a, memory),
        Expression::Void(VoidExpression::Const) => true,
        Expression::Void(VoidExpression::Invocation(function, arguments)) => void_function_within(
            function,
            memory,
        ) && arguments_within(arguments, memory),
    }
}

/// Whether every cell that a statement names exists.
pub open spec fn statement_within(statement: Statement, memory: Memory) -> bool
    decreases statement,
{
    match statement {
        Statement::Expression(None) => true,
        Statement::Expression(Some(a)) => expression_within(a, memory),
        Statement::RealSubstitution(cell, a) => cell < memory.reals.len() && real_within(a, memory),
        Statement::BooleanSubstitution(cell, a) => cell < memory.booleans.len() && boolean_within(
            a,
            memory,
        ),
        Statement::SoundSubstitution(cell, a) => cell < memory.sounds.len() && sound_within(
            a,
            memory,
        ),
        Statement::StringSubstitution(cell, a) => cell < memory.strings.len() && string_within(
            a,
            memory,
        ),
        Statement::While(condition, body) => boolean_within(condition, memory) && statement_within(
            *body,
            memory,
        ),
        Statement::If(condition, then, otherwise) => boolean_within(condition, memory)
            && statement_within(*then, memory) && match otherwise {
            Some(otherwise) => statement_within(*otherwise, memory),
            None => true,
        },
        Statement::Block(statements) => statements_within(statements, memory),
        Statement::Break => true,
        Statement::Continue => true,
        Statement::Return(a) => expression_within(a, memory),
    }
}

/// Whether every cell that the statements of a list name exists.
pub open spec fn statements_within(statements: List<Statement>, memory: Memory) -> bool
    decreases statements,
{
    match statements {
        List::Nil => true,
        List::Cons(head, tail) => statement_within(*head, memory) && statements_within(
            *tail,
            memory,
        ),
    }
}

/// Whether the cells of all the variables of a scope exist.
pub open spec fn variables_within(variables: Scope, memory: Memory) -> bool {
    forall|i: int| 0 <= i < variables.len() ==> memory.has((#[trigger] variables[i]).1)
}

/// Whether the cells of positional arguments exist.
pub open spec fn values_within(values: List<Value>, memory: Memory) -> bool
    decreases values,
{
    match values {
        List::Nil => true,
        List::Cons(head, tail) => memory.has(*head) && values_within(*tail, memory),
    }
}

/// Whether the cells of named arguments, and those that their defaults
/// name, exist.
pub open spec fn named_within(named: List<(String, Argument)>, memory: Memory) -> bool
    decreases named,
{
    match named {
        List::Nil => true,
        List::Cons(head, tail) => argument_within(head.1, memory) && named_within(*tail, memory),
    }
}

/// Whether the cells of a function exist.
pub open spec fn function_within(function: Function, memory: Memory) -> bool {
    &&& match function.body {
        Body::Real(f) => real_function_within(f, memory),
        Body::Sound(f) => sound_function_within(f, memory),
        Body::Void(f) => void_function_within(f, memory),
    }
    &&& values_within(function.arguments, memory)
    &&& named_within(function.named_arguments, memory)
}

/// Whether the cells of all the functions of a scope exist.
pub open spec fn functions_within(functions: Table, memory: Memory) -> bool {
    forall|i: int| 0 <= i < functions.len() ==> function_within((#[trigger] functions[i]).1, memory)
}

/// A variable that a name stands for is one of the variables of the scope.
pub proof fn found_variable_is_within(variables: Scope, name: Seq<char>, memory: Memory)
    requires
        variables_within(variables, memory),
    ensures
        variable(variables, name) matches Some(value) ==> memory.has(value),
    decreases variables.len(),
{
    if variables.len() > 0 {
        assert(memory.has(variables[variables.len() - 1].1));
        assert forall|i: int| 0 <= i < variables.drop_last().len() implies memory.has(
            (#[trigger] variables.drop_last()[i]).1,
        ) by {
            assert(variables.drop_last()[i] == variables[i]);
        }
        found_variable_is_within(variables.drop_last(), name, memory);
    }
}

/// A function that a name stands for is one of the functions of the scope.
pub proof fn found_function_is_within(functions: Table, name: Seq<char>, memory: Memory)
    requires
        functions_within(functions, memory),
    ensures
        function(functions, name) matches Some(f) ==> function_within(f, memory),
    decreases functions.len(),
{
    if functions.len() > 0 {
        assert(function_within(functions[functions.len() - 1].1, memory));
        assert forall|i: int| 0 <= i < functions.drop_last().len() implies function_within(
            (#[trigger] functions.drop_last()[i]).1,
            memory,
        ) by {
            assert(functions.drop_last()[i] == functions[i]);
        }
        found_function_is_within(functions.drop_last(), name, memory);
    }
}

/// A scope whose newest variable has its cell, as all the others have,
/// is a scope of variables that have their cells.
pub proof fn newest_variable_is_within(variables: Scope, memory: Memory)
    requires
        variables.len() > 0,
        variables_within(variables.drop_last(), memory),
        memory.has(variables.last().1),
    ensures
        variables_within(variables, memory),
{
    assert forall|i: int| 0 <= i < variables.len() implies memory.has(
        (#[trigger] variables[i]).1,
    ) by {
        if i < variables.len() - 1 {
            assert(variables.drop_last()[i] == variables[i]);
        }
    }
}

/// A scope whose newest function has its cells, as all the others have,
/// is a scope of functions that have their cells.
pub proof fn newest_function_is_within(functions: Table, memory: Memory)
    requires
        functions.len() > 0,
        functions_within(functions.drop_last(), memory),
        function_within(functions.last().1, memory),
    ensures
        functions_within(functions, memory),
{
    assert forall|i: int| 0 <= i < functions.len() implies function_within(
        (#[trigger] functions[i]).1,
        memory,
    ) by {
        if i < functions.len() - 1 {
            assert(functions.drop_last()[i] == functions[i]);
        }
    }
}

/// A named argument that a name stands for is one of those of the
/// function.
pub proof fn found_slot_is_within(
    declared: List<(String, Argument)>,
    name: Seq<char>,
    memory: Memory,
)
    requires
        named_within(declared, memory),
    ensures
        slot(declared, name) matches Some(argument) ==> argument_within(argument, memory),
    decreases declared,
{
    if let List::Cons(head, tail) = declared {
        found_slot_is_within(*tail, name, memory);
    }
}

/// Arguments put one list behind the other name the cells of both lists.
pub proof fn joined_arguments_are_within(
    first: List<Argument>,
    second: List<Argument>,
    memory: Memory,
)
    requires
        arguments_within(first, memory),
        arguments_within(second, memory),
    ensures
        arguments_within(first.followed_by(second), memory),
    decreases first,
{
    if let List::Cons(head, tail) = first {
        joined_arguments_are_within(*tail, second, memory);
    }
}

/// The defaults of the named arguments that a call leaves out name only
/// cells of the function.
pub proof fn defaults_are_within(
    declared: List<(String, Argument)>,
    named: List<(String, syntax::Expression)>,
    memory: Memory,
)
    requires
        named_within(declared, memory),
    ensures
        arguments_within(defaults(declared, named), memory),
    decreases declared,
{
    if let List::Cons(head, tail) = declared {
        defaults_are_within(*tail, named, memory);
    }
}

/// An operator names no cells but those of its operand.
pub proof fn unary_is_within(op: Unary, operand: Expression, range: Range, memory: Memory)
    requires
        expression_within(operand, memory),
    ensures
        unary(op, operand, range) matches Ok(typed) ==> expression_within(typed, memory),
{
    reveal(unary);
    reveal(expression_within);
}

/// An operator names no cells but those of its operands.
pub proof fn binary_is_within(
    op: Binary,
    left: (Expression, Range),
    right: (Expression, Range),
    memory: Memory,
)
    requires
        expression_within(left.0, memory),
        expression_within(right.0, memory),
    ensures
        binary(op, left, right) matches Ok(typed) ==> expression_within(typed, memory),
{
    reveal(binary);
    reveal(expression_within);
    reveal_with_fuel(real_within, 2);
    reveal_with_fuel(sound_within, 2);
    reveal_with_fuel(string_within, 2);
    reveal_with_fuel(boolean_within, 2);
    if let Binary::Arithmetic(arithmetic) = op {
        match (left.0, right.0) {
            (Expression::Real(a), Expression::Real(b)) => {
                assert(real_within(real_arithmetic(arithmetic, a, b), memory));
            },
            (Expression::Sound(a), Expression::Sound(b)) => {
                assert(sound_within(sound_arithmetic(arithmetic, a, b), memory));
            },
            (Expression::Sound(a), Expression::Real(b)) => {
                assert(sound_within(SoundExpression::Real(b), memory));
                assert(sound_within(
                    sound_arithmetic(arithmetic, a, SoundExpression::Real(b)),
                    memory,
                ));
            },
            (Expression::Real(a), Expression::Sound(b)) => {
                assert(sound_within(SoundExpression::Real(a), memory));
                assert(sound_within(
                    sound_arithmetic(arithmetic, SoundExpression::Real(a), b),
                    memory,
                ));
            },
            _ => {},
        }
    }
}

/// Whether the cells of the arguments of a call, bound either way, exist.
pub open spec fn bindings_within(bindings: Bindings, memory: Memory) -> bool {
    arguments_within(bindings.plain, memory) && sounds_within(bindings.lifted, memory)
}

/// An operator finished on a compiled operand names only cells that
/// exist, where the operand does.
pub proof fn one_is_within(op: Unary, operand: Compiled, range: Range, memory: Memory)
    requires
        operand matches Ok(typed) ==> expression_within(typed.0, memory),
    ensures
        one(op, operand, range) matches Ok(whole) ==> expression_within(whole.0, memory),
{
    if let Ok(typed) = operand {
        unary_is_within(op, typed.0, typed.1, memory);
    }
}

/// An operator finished on compiled operands names only cells that exist,
/// where the operands do.
pub proof fn two_are_within(op: Binary, left: Compiled, right: Compiled, range: Range, memory: Memory)
    requires
        left matches Ok(typed) ==> expression_within(typed.0, memory),
        right matches Ok(typed) ==> expression_within(typed.0, memory),
    ensures
        two(op, left, right, range) matches Ok(whole) ==> expression_within(whole.0, memory),
{
    if let Ok(l) = left {
        if let Ok(r) = right {
            binary_is_within(op, l, r, memory);
        }
    }
}

/// A compiled name or literal names only cells that exist.
pub proof fn leaf_is_within(
    expression: syntax::Expression,
    variables: Scope,
    functions: Table,
    memory: Memory,
)
    requires
        expression.node is Identifier || expression.node is Number || expression.node is String,
        variables_within(variables, memory),
    ensures
        lowered(expression, variables, functions) matches Ok(typed) ==> expression_within(
            typed.0,
            memory,
        ),
{
    reveal(expression_within);
    if let Node::Identifier(name) = expression.node {
        found_variable_is_within(variables, name@, memory);
    }
}

/// A compiled call names only cells that exist.
pub proof fn call_is_within(
    expression: syntax::Expression,
    variables: Scope,
    functions: Table,
    memory: Memory,
)
    requires
        expression.node is Invocation,
        variables_within(variables, memory),
        functions_within(functions, memory),
    ensures
        lowered(expression, variables, functions) matches Ok(typed) ==> expression_within(
            typed.0,
            memory,
        ),
    decreases expression, 0nat,
{
    reveal(expression_within);
    if let Node::Invocation(name, arguments, named) = expression.node {
        found_function_is_within(functions, name@, memory);
        if let Some(f) = function(functions, name@) {
            if arguments.length() == f.arguments.length() {
                lowered_arguments_are_within(
                    arguments,
                    f.arguments,
                    f.body,
                    variables,
                    functions,
                    memory,
                );
                lowered_named_are_within(named, f.named_arguments, variables, functions, memory);
                defaults_are_within(f.named_arguments, named, memory);
                if let Ok(bindings) = lowered_arguments(
                    arguments,
                    f.arguments,
                    f.body,
                    variables,
                    functions,
                ) {
                    if let Ok(given) = lowered_named(named, f.named_arguments, variables, functions) {
                        joined_arguments_are_within(bindings.plain, given, memory);
                        joined_arguments_are_within(
                            bindings.plain.followed_by(given),
                            defaults(f.named_arguments, named),
                            memory,
                        );
                        let all = Bindings {
                            plain: bindings.plain.followed_by(given).followed_by(
                                defaults(f.named_arguments, named),
                            ),
                            lifted: bindings.lifted,
                        };
                        assert(lifted_needs_real(arguments, f.arguments, f.body, variables, functions));
                        assert(expression_within(invocation(f.body, all), memory));
                    }
                }
            }
        }
    }
}

/// Whether the arguments of a call are bound sample by sample only for a
/// function that gives a real.
pub open spec fn lifted_needs_real(
    arguments: List<syntax::Expression>,
    slots: List<Value>,
    body: Body,
    variables: Scope,
    functions: Table,
) -> bool {
    lowered_arguments(arguments, slots, body, variables, functions) matches Ok(bindings) ==> (
    bindings.lifted is Nil || body is Real)
}

/// A compiled arithmetic operator names only cells that exist.
pub proof fn arithmetic_is_within(
    expression: syntax::Expression,
    variables: Scope,
    functions: Table,
    memory: Memory,
)
    requires
        expression.node is Add || expression.node is Sub || expression.node is Mul || expression.node is Div || expression.node is Rem || expression.node is Pow,
        variables_within(variables, memory),
        functions_within(functions, memory),
    ensures
        lowered(expression, variables, functions) matches Ok(typed) ==> expression_within(
            typed.0,
            memory,
        ),
    decreases expression, 0nat,
{
    let range = expression.range;
    match expression.node {
        Node::Add(a, b) => {
            lowered_is_within(*a, variables, functions, memory);
            lowered_is_within(*b, variables, functions, memory);
            two_are_within(
                Binary::Arithmetic(Arithmetic::Add),
                lowered(*a, variables, functions),
                lowered(*b, variables, functions),
                range,
                memory,
            );
        },
        Node::Sub(a, b) => {
            lowered_is_within(*a, variables, functions, memory);
            lowered_is_within(*b, variables, functions, memory);
            two_are_within(
                Binary::Arithmetic(Arithmetic::Sub),
                lowered(*a, variables, functions),
                lowered(*b, variables, functions),
                range,
                memory,
            );
        },
        Node::Mul(a, b) => {
            lowered_is_within(*a, variables, functions, memory);
            lowered_is_within(*b, variables, functions, memory);
            two_are_within(
                Binary::Arithmetic(Arithmetic::Mul),
                lowered(*a, variables, functions),
                lowered(*b, variables, functions),
                range,
                memory,
            );
        },
        Node::Div(a, b) => {
            lowered_is_within(*a, variables, functions, memory);
            lowered_is_within(*b, variables, functions, memory);
            two_are_within(
                Binary::Arithmetic(Arithmetic::Div),
                lowered(*a, variables, functions),
                lowered(*b, variables, functions),
                range,
                memory,
            );
        },
        Node::Rem(a, b) => {
            lowered_is_within(*a, variables, functions, memory);
            lowered_is_within(*b, variables, functions, memory);
            two_are_within(
                Binary::Arithmetic(Arithmetic::Rem),
                lowered(*a, variables, functions),
                lowered(*b, variables, functions),
                range,
                memory,
            );
        },
        Node::Pow(a, b) => {
            lowered_is_within(*a, variables, functions, memory);
            lowered_is_within(*b, variables, functions, memory);
            two_are_within(
                Binary::Arithmetic(Arithmetic::Pow),
                lowered(*a, variables, functions),
                lowered(*b, variables, functions),
                range,
                memory,
            );
        },
        _ => {},
    }
}

/// A compiled shift, comparison or logical operator names only cells that
/// exist.
pub proof fn comparison_is_within(
    expression: syntax::Expression,
    variables: Scope,
    functions: Table,
    memory: Memory,
)
    requires
        expression.node is LeftShift || expression.node is RightShift || expression.node is Less || expression.node is Greater || expression.node is Equal || expression.node is NotEqual || expression.node is And || expression.node is Or,
        variables_within(variables, memory),
        functions_within(functions, memory),
    ensures
        lowered(expression, variables, functions) matches Ok(typed) ==> expression_within(
            typed.0,
            memory,
        ),
    decreases expression, 0nat,
{
    let range = expression.range;
    match expression.node {
        Node::LeftShift(a, b) => {
            lowered_is_within(*a, variables, functions, memory);
            lowered_is_within(*b, variables, functions, memory);
            two_are_within(
                Binary::LeftShift,
                lowered(*a, variables, functions),
                lowered(*b, variables, functions),
                range,
                memory,
            );
        },
        Node::RightShift(a, b) => {
            lowered_is_within(*a, variables, functions, memory);
            lowered_is_within(*b, variables, functions, memory);
            two_are_within(
                Binary::RightShift,
                lowered(*a, variables, functions),
                lowered(*b, variables, functions),
                range,
                memory,
            );
        },
        Node::Less(a, b) => {
            lowered_is_within(*a, variables, functions, memory);
            lowered_is_within(*b, variables, functions, memory);
            two_are_within(
                Binary::Less,
                lowered(*a, variables, functions),
                lowered(*b, variables, functions),
                range,
                memory,
            );
        },
        Node::Greater(a, b) => {
            lowered_is_within(*a, variables, functions, memory);
            lowered_is_within(*b, variables, functions, memory);
            two_are_within(
                Binary::Greater,
                lowered(*a, variables, functions),
                lowered(*b, variables, functions),
                range,
                memory,
            );
        },
        Node::Equal(a, b) => {
            lowered_is_within(*a, variables, functions, memory);
            lowered_is_within(*b, variables, functions, memory);
            two_are_within(
                Binary::Equal,
                lowered(*a, variables, functions),
                lowered(*b, variables, functions),
                range,
                memory,
            );
        },
        Node::NotEqual(a, b) => {
            lowered_is_within(*a, variables, functions, memory);
            lowered_is_within(*b, variables, functions, memory);
            two_are_within(
                Binary::NotEqual,
                lowered(*a, variables, functions),
                lowered(*b, variables, functions),
                range,
                memory,
            );
        },
        Node::And(a, b) => {
            lowered_is_within(*a, variables, functions, memory);
            lowered_is_within(*b, variables, functions, memory);
            two_are_within(
                Binary::And,
                lowered(*a, variables, functions),
                lowered(*b, variables, functions),
                range,
                memory,
            );
        },
        Node::Or(a, b) => {
            lowered_is_within(*a, variables, functions, memory);
            lowered_is_within(*b, variables, functions, memory);
            two_are_within(
                Binary::Or,
                lowered(*a, variables, functions),
                lowered(*b, variables, functions),
                range,
                memory,
            );
        },
        _ => {},
    }
}

/// A compiled operator of one operand names only cells that exist.
pub proof fn prefix_is_within(
    expression: syntax::Expression,
    variables: Scope,
    functions: Table,
    memory: Memory,
)
    requires
        expression.node is Print || expression.node is Minus || expression.node is Reciprocal
            || expression.node is Not || expression.node is Group,
        variables_within(variables, memory),
        functions_within(functions, memory),
    ensures
        lowered(expression, variables, functions) matches Ok(typed) ==> expression_within(
            typed.0,
            memory,
        ),
    decreases expression, 0nat,
{
    let range = expression.range;
    match expression.node {
        Node::Print(a) => {
            lowered_is_within(*a, variables, functions, memory);
            one_is_within(Unary::Print, lowered(*a, variables, functions), range, memory);
        },
        Node::Minus(a) => {
            lowered_is_within(*a, variables, functions, memory);
            one_is_within(Unary::Minus, lowered(*a, variables, functions), range, memory);
        },
        Node::Reciprocal(a) => {
            lowered_is_within(*a, variables, functions, memory);
            one_is_within(Unary::Reciprocal, lowered(*a, variables, functions), range, memory);
        },
        Node::Not(a) => {
            lowered_is_within(*a, variables, functions, memory);
            one_is_within(Unary::Not, lowered(*a, variables, functions), range, memory);
        },
        Node::Group(a) => {
            lowered_is_within(*a, variables, functions, memory);
        },
        _ => {},
    }
}

/// A compiled expression names only cells that exist, where the cells of
/// the variables and of the functions in scope exist.
pub proof fn lowered_is_within(
    expression: syntax::Expression,
    variables: Scope,
    functions: Table,
    memory: Memory,
)
    requires
        variables_within(variables, memory),
        functions_within(functions, memory),
    ensures
        lowered(expression, variables, functions) matches Ok(typed) ==> expression_within(
            typed.0,
            memory,
        ),
    decreases expression, 1nat,
{
    match expression.node {
        Node::Identifier(_) => leaf_is_within(expression, variables, functions, memory),
        Node::Number(_) => leaf_is_within(expression, variables, functions, memory),
        Node::String(_) => leaf_is_within(expression, variables, functions, memory),
        Node::Invocation(_, _, _) => call_is_within(expression, variables, functions, memory),
        Node::Print(_) => prefix_is_within(expression, variables, functions, memory),
        Node::Minus(_) => prefix_is_within(expression, variables, functions, memory),
        Node::Reciprocal(_) => prefix_is_within(expression, variables, functions, memory),
        Node::Not(_) => prefix_is_within(expression, variables, functions, memory),
        Node::Group(_) => prefix_is_within(expression, variables, functions, memory),
        Node::Add(_, _) => arithmetic_is_within(expression, variables, functions, memory),
        Node::Sub(_, _) => arithmetic_is_within(expression, variables, functions, memory),
        Node::Mul(_, _) => arithmetic_is_within(expression, variables, functions, memory),
        Node::Div(_, _) => arithmetic_is_within(expression, variables, functions, memory),
        Node::Rem(_, _) => arithmetic_is_within(expression, variables, functions, memory),
        Node::Pow(_, _) => arithmetic_is_within(expression, variables, functions, memory),
        Node::LeftShift(_, _) => comparison_is_within(expression, variables, functions, memory),
        Node::RightShift(_, _) => comparison_is_within(expression, variables, functions, memory),
        Node::Less(_, _) => comparison_is_within(expression, variables, functions, memory),
        Node::Greater(_, _) => comparison_is_within(expression, variables, functions, memory),
        Node::Equal(_, _) => comparison_is_within(expression, variables, functions, memory),
        Node::NotEqual(_, _) => comparison_is_within(expression, variables, functions, memory),
        Node::And(_, _) => comparison_is_within(expression, variables, functions, memory),
        Node::Or(_, _) => comparison_is_within(expression, variables, functions, memory),
    }
}

/// The positional arguments of a compiled call name only cells that exist.
pub proof fn lowered_arguments_are_within(
    arguments: List<syntax::Expression>,
    slots: List<Value>,
    body: Body,
    variables: Scope,
    functions: Table,
    memory: Memory,
)
    requires
        variables_within(variables, memory),
        functions_within(functions, memory),
        values_within(slots, memory),
    ensures
        lowered_arguments(arguments, slots, body, variables, functions) matches Ok(bindings)
            ==> bindings_within(bindings, memory),
        lifted_needs_real(arguments, slots, body, variables, functions),
    decreases arguments, 0nat,
{
    reveal(expression_within);
    match (arguments, slots) {
        (List::Cons(argument, rest), List::Cons(slot, others)) => {
            lowered_is_within(*argument, variables, functions, memory);
            lowered_arguments_are_within(*rest, *others, body, variables, functions, memory);
            if let Ok(typed) = lowered(*argument, variables, functions) {
                if let Ok(first) = bound(*slot, body, typed.0) {
                    if let Ok(others) = lowered_arguments(
                        *rest,
                        *others,
                        body,
                        variables,
                        functions,
                    ) {
                        assert(memory.has(*slot));
                        match first {
                            Bound::Plain(plain) => {
                                assert(argument_within(plain, memory));
                            },
                            Bound::Lifted(cell, sound) => {
                                assert(cell < memory.reals.len());
                                assert(sound_within(sound, memory));
                            },
                        }
                    }
                }
            }
        },
        _ => {},
    }
}

/// The named arguments of a compiled call name only cells that exist.
pub proof fn lowered_named_are_within(
    named: List<(String, syntax::Expression)>,
    declared: List<(String, Argument)>,
    variables: Scope,
    functions: Table,
    memory: Memory,
)
    requires
        variables_within(variables, memory),
        functions_within(functions, memory),
        named_within(declared, memory),
    ensures
        lowered_named(named, declared, variables, functions) matches Ok(given)
            ==> arguments_within(given, memory),
    decreases named, 0nat,
{
    reveal(expression_within);
    if let List::Cons(head, rest) = named {
        found_slot_is_within(declared, head.0@, memory);
        lowered_is_within(head.1, variables, functions, memory);
        lowered_named_are_within(*rest, declared, variables, functions, memory);
        if let Some(taker) = slot(declared, head.0@) {
            if let Ok(typed) = lowered(head.1, variables, functions) {
                if let Ok(first) = named_bound(taker, typed.0) {
                    assert(argument_within(first, memory));
                }
            }
        }
    }
}

/// A real expression that names only cells that exist goes on doing so
/// when cells are made.
pub proof fn real_stays_within(expression: RealExpression, before: Memory, after: Memory)
    requires
        real_within(expression, before),
        before.within(after),
    ensures
        real_within(expression, after),
    decreases expression,
{
    match expression {
        RealExpression::Const(_) => {},
        RealExpression::Reference(_) => {},
        RealExpression::Print(a) => real_stays_within(*a, before, after),
        RealExpression::Minus(a) => real_stays_within(*a, before, after),
        RealExpression::Reciprocal(a) => real_stays_within(*a, before, after),
        RealExpression::Add(a, b) => {
            real_stays_within(*a, before, after);
            real_stays_within(*b, before, after);
        },
        RealExpression::Sub(a, b) => {
            real_stays_within(*a, before, after);
            real_stays_within(*b, before, after);
        },
        RealExpression::Mul(a, b) => {
            real_stays_within(*a, before, after);
            real_stays_within(*b, before, after);
        },
        RealExpression::Div(a, b) => {
            real_stays_within(*a, before, after);
            real_stays_within(*b, before, after);
        },
        RealExpression::Rem(a, b) => {
            real_stays_within(*a, before, after);
            real_stays_within(*b, before, after);
        },
        RealExpression::Pow(a, b) => {
            real_stays_within(*a, before, after);
            real_stays_within(*b, before, after);
        },
        RealExpression::Invocation(_, arguments) => arguments_stay_within(arguments, before, after),
    }
}

/// A boolean expression that names only cells that exist goes on doing so
/// when cells are made.
pub proof fn boolean_stays_within(expression: BooleanExpression, before: Memory, after: Memory)
    requires
        boolean_within(expression, before),
        before.within(after),
    ensures
        boolean_within(expression, after),
    decreases expression,
{
    match expression {
        BooleanExpression::Reference(_) => {},
        BooleanExpression::Print(a) => boolean_stays_within(*a, before, after),
        BooleanExpression::Not(a) => boolean_stays_within(*a, before, after),
        BooleanExpression::RealLess(a, b) => {
            real_stays_within(*a, before, after);
            real_stays_within(*b, before, after);
        },
        BooleanExpression::RealGreater(a, b) => {
            real_stays_within(*a, before, after);
            real_stays_within(*b, before, after);
        },
        BooleanExpression::RealEqual(a, b) => {
            real_stays_within(*a, before, after);
            real_stays_within(*b, before, after);
        },
        BooleanExpression::RealNotEqual(a, b) => {
            real_stays_within(*a, before, after);
            real_stays_within(*b, before, after);
        },
        BooleanExpression::StringEqual(a, b) => {
            string_stays_within(*a, before, after);
            string_stays_within(*b, before, after);
        },
        BooleanExpression::StringNotEqual(a, b) => {
            string_stays_within(*a, before, after);
            string_stays_within(*b, before, after);
        },
        BooleanExpression::And(a, b) => {
            boolean_stays_within(*a, before, after);
            boolean_stays_within(*b, before, after);
        },
        BooleanExpression::Or(a, b) => {
            boolean_stays_within(*a, before, after);
            boolean_stays_within(*b, before, after);
        },
    }
}

/// A string expression that names only cells that exist goes on doing so
/// when cells are made.
pub proof fn string_stays_within(expression: StringExpression, before: Memory, after: Memory)
    requires
        string_within(expression, before),
        before.within(after),
    ensures
        string_within(expression, after),
    decreases expression,
{
    match expression {
        StringExpression::Const(_) => {},
        StringExpression::Reference(_) => {},
        StringExpression::Print(a) => string_stays_within(*a, before, after),
        StringExpression::Add(a, b) => {
            string_stays_within(*a, before, after);
            string_stays_within(*b, before, after);
        },
    }
}

/// A sound expression that names only cells that exist goes on doing so
/// when cells are made.
pub proof fn sound_stays_within(expression: SoundExpression, before: Memory, after: Memory)
    requires
        sound_within(expression, before),
        before.within(after),
    ensures
        sound_within(expression, after),
    decreases expression,
{
    match expression {
        SoundExpression::Reference(_) => {},
        SoundExpression::Play(a) => sound_stays_within(*a, before, after),
        SoundExpression::Real(a) => real_stays_within(a, before, after),
        SoundExpression::Minus(a) => sound_stays_within(*a, before, after),
        SoundExpression::Reciprocal(a) => sound_stays_within(*a, before, after),
        SoundExpression::Add(a, b) => {
            sound_stays_within(*a, before, after);
            sound_stays_within(*b, before, after);
        },
        SoundExpression::Sub(a, b) => {
            sound_stays_within(*a, before, after);
            sound_stays_within(*b, before, after);
        },
        SoundExpression::Mul(a, b) => {
            sound_stays_within(*a, before, after);
            sound_stays_within(*b, before, after);
        },
        SoundExpression::Div(a, b) => {
            sound_stays_within(*a, before, after);
            sound_stays_within(*b, before, after);
        },
        SoundExpression::Rem(a, b) => {
            sound_stays_within(*a, before, after);
            sound_stays_within(*b, before, after);
        },
        SoundExpression::Pow(a, b) => {
            sound_stays_within(*a, before, after);
            sound_stays_within(*b, before, after);
        },
        SoundExpression::LeftShift(a, b) => {
            sound_stays_within(*a, before, after);
            real_stays_within(*b, before, after);
        },
        SoundExpression::RightShift(a, b) => {
            sound_stays_within(*a, before, after);
            real_stays_within(*b, before, after);
        },
        SoundExpression::Invocation(_, arguments) => arguments_stay_within(
            arguments,
            before,
            after,
        ),
        SoundExpression::Apply(_, arguments, sounds) => {
            arguments_stay_within(arguments, before, after);
            sounds_stay_within(sounds, before, after);
        },
    }
}

/// Arguments that name only cells that exist go on doing so when cells are
/// made.
pub proof fn arguments_stay_within(arguments: List<Argument>, before: Memory, after: Memory)
    requires
        arguments_within(arguments, before),
        before.within(after),
    ensures
        arguments_within(arguments, after),
    decreases arguments,
{
    if let List::Cons(head, tail) = arguments {
        argument_stays_within(*head, before, after);
        arguments_stay_within(*tail, before, after);
    }
}

/// An argument that names only cells that exist goes on doing so when
/// cells are made.
pub proof fn argument_stays_within(argument: Argument, before: Memory, after: Memory)
    requires
        argument_within(argument, before),
        before.within(after),
    ensures
        argument_within(argument, after),
    decreases argument,
{
    match argument {
        Argument::Real(_, a) => real_stays_within(a, before, after),
        Argument::Boolean(_, a) => boolean_stays_within(a, before, after),
        Argument::Sound(_, a) => sound_stays_within(a, before, after),
        Argument::String(_, a) => string_stays_within(a, before, after),
    }
}

/// Sounds that name only cells that exist go on doing so when cells are
/// made.
pub proof fn sounds_stay_within(
    sounds: List<(usize, SoundExpression)>,
    before: Memory,
    after: Memory,
)
    requires
        sounds_within(sounds, before),
        before.within(after),
    ensures
        sounds_within(sounds, after),
    decreases sounds,
{
    if let List::Cons(head, tail) = sounds {
        sound_stays_within(head.1, before, after);
        sounds_stay_within(*tail, before, after);
    }
}

/// An expression that names only cells that exist goes on doing so when
/// cells are made.
pub proof fn expression_stays_within(expression: Expression, before: Memory, after: Memory)
    requires
        expression_within(expression, before),
        before.within(after),
    ensures
        expression_within(expression, after),
{
    reveal(expression_within);
    match expression {
        Expression::Real(a) => real_stays_within(a, before, after),
        Expression::Boolean(a) => boolean_stays_within(a, before, after),
        Expression::Sound(a) => sound_stays_within(a, before, after),
        Expression::String(a) => string_stays_within(a, before, after),
        Expression::Void(VoidExpression::Const) => {},
        Expression::Void(VoidExpression::Invocation(_, arguments)) => arguments_stay_within(
            arguments,
            before,
            after,
        ),
    }
}

/// A statement that names only cells that exist goes on doing so when
/// cells are made.
pub proof fn statement_stays_within(statement: Statement, before: Memory, after: Memory)
    requires
        statement_within(statement, before),
        before.within(after),
    ensures
        statement_within(statement, after),
    decreases statement,
{
    match statement {
        Statement::Expression(None) => {},
        Statement::Expression(Some(a)) => expression_stays_within(a, before, after),
        Statement::RealSubstitution(_, a) => real_stays_within(a, before, after),
        Statement::BooleanSubstitution(_, a) => boolean_stays_within(a, before, after),
        Statement::SoundSubstitution(_, a) => sound_stays_within(a, before, after),
        Statement::StringSubstitution(_, a) => string_stays_within(a, before, after),
        Statement::While(condition, body) => {
            boolean_stays_within(condition, before, after);
            statement_stays_within(*body, before, after);
        },
        Statement::If(condition, then, otherwise) => {
            boolean_stays_within(condition, before, after);
            statement_stays_within(*then, before, after);
            if let Some(otherwise) = otherwise {
                statement_stays_within(*otherwise, before, after);
            }
        },
        Statement::Block(statements) => statements_stay_within(statements, before, after),
        Statement::Break => {},
        Statement::Continue => {},
        Statement::Return(a) => expression_stays_within(a, before, after),
    }
}

/// Statements that name only cells that exist go on doing so when cells
/// are made.
pub proof fn statements_stay_within(statements: List<Statement>, before: Memory, after: Memory)
    requires
        statements_within(statements, before),
        before.within(after),
    ensures
        statements_within(statements, after),
    decreases statements,
{
    if let List::Cons(head, tail) = statements {
        statement_stays_within(*head, before, after);
        statements_stay_within(*tail, before, after);
    }
}

/// The variables of a scope go on having their cells when cells are made.
pub proof fn variables_stay_within(variables: Scope, before: Memory, after: Memory)
    requires
        variables_within(variables, before),
        before.within(after),
    ensures
        variables_within(variables, after),
{
}

/// Positional arguments go on having their cells when cells are made.
pub proof fn values_stay_within(values: List<Value>, before: Memory, after: Memory)
    requires
        values_within(values, before),
        before.within(after),
    ensures
        values_within(values, after),
    decreases values,
{
    if let List::Cons(head, tail) = values {
        values_stay_within(*tail, before, after);
    }
}

/// Named arguments go on having their cells when cells are made.
pub proof fn named_stay_within(named: List<(String, Argument)>, before: Memory, after: Memory)
    requires
        named_within(named, before),
        before.within(after),
    ensures
        named_within(named, after),
    decreases named,
{
    if let List::Cons(head, tail) = named {
        argument_stays_within(head.1, before, after);
        named_stay_within(*tail, before, after);
    }
}

/// A function goes on having its cells when cells are made.
pub proof fn function_stays_within(function: Function, before: Memory, after: Memory)
    requires
        function_within(function, before),
        before.within(after),
    ensures
        function_within(function, after),
{
    values_stay_within(function.arguments, before, after);
    named_stay_within(function.named_arguments, before, after);
}

/// The functions of a scope go on having their cells when cells are made.
pub proof fn functions_stay_within(functions: Table, before: Memory, after: Memory)
    requires
        functions_within(functions, before),
        before.within(after),
    ensures
        functions_within(functions, after),
{
    assert forall|i: int| 0 <= i < functions.len() implies function_within(
        (#[trigger] functions[i]).1,
        after,
    ) by {
        function_stays_within(functions[i].1, before, after);
    }
}

/// Whether a scope and a memory go together: the cells of all the
/// variables and functions exist.
pub open spec fn scope_within(variables: Scope, functions: Table, memory: Memory) -> bool {
    variables_within(variables, memory) && functions_within(functions, memory)
}

/// Compiling a statement keeps scope and memory together: it makes cells
/// and removes none, the variables that it leaves in scope have their
/// cells, and the compiled statement names only cells that exist.
pub proof fn compiled_is_within(
    statement: syntax::Statement,
    variables: Scope,
    functions: Table,
    memory: Memory,
)
    requires
        scope_within(variables, functions, memory),
    ensures
        memory.within(compiled(statement, variables, functions, memory).memory),
        scope_within(
            compiled(statement, variables, functions, memory).variables,
            functions,
            compiled(statement, variables, functions, memory).memory,
        ),
        compiled(statement, variables, functions, memory).result matches Ok(program)
            ==> statement_within(program, compiled(statement, variables, functions, memory).memory),
    decreases statement,
{
    reveal(expression_within);
    let outcome = compiled(statement, variables, functions, memory);
    match statement {
        syntax::Statement::Expression(None) => {},
        syntax::Statement::Expression(Some(expression)) => {
            lowered_is_within(expression, variables, functions, memory);
        },
        syntax::Statement::Substitution(_, name, expression) => {
            found_variable_is_within(variables, name@, memory);
            lowered_is_within(expression, variables, functions, memory);
        },
        syntax::Statement::Declaration(_, _, expression) => {
            lowered_is_within(expression, variables, functions, memory);
            variables_stay_within(variables, memory, outcome.memory);
            functions_stay_within(functions, memory, outcome.memory);
            if let Ok(source) = lowered(expression, variables, functions) {
                expression_stays_within(source.0, memory, outcome.memory);
                if !(source.0 is Void) {
                    assert(outcome.variables.drop_last() =~= variables);
                    newest_variable_is_within(outcome.variables, outcome.memory);
                }
            }
        },
        syntax::Statement::Block(statements) => {
            compiled_block_is_within(statements, variables, functions, memory);
            variables_stay_within(variables, memory, outcome.memory);
        },
        syntax::Statement::While(condition, body) => {
            lowered_is_within(condition, variables, functions, memory);
            if let Ok(test) = condition_of(lowered(condition, variables, functions)) {
                compiled_is_within(*body, variables, functions, memory);
                variables_stay_within(variables, memory, outcome.memory);
                boolean_stays_within(test, memory, outcome.memory);
            }
        },
        syntax::Statement::If(condition, then, otherwise) => {
            lowered_is_within(condition, variables, functions, memory);
            if let Ok(test) = condition_of(lowered(condition, variables, functions)) {
                compiled_is_within(*then, variables, functions, memory);
                let first = compiled(*then, variables, functions, memory);
                variables_stay_within(variables, memory, first.memory);
                functions_stay_within(functions, memory, first.memory);
                boolean_stays_within(test, memory, first.memory);
                if let Ok(program) = first.result {
                    if let Some(otherwise) = otherwise {
                        compiled_is_within(*otherwise, variables, functions, first.memory);
                        let second = compiled(*otherwise, variables, functions, first.memory);
                        variables_stay_within(variables, first.memory, second.memory);
                        boolean_stays_within(test, first.memory, second.memory);
                        statement_stays_within(program, first.memory, second.memory);
                    }
                }
            }
        },
        syntax::Statement::Break => {},
        syntax::Statement::Continue => {},
        syntax::Statement::Return(_, _) => {},
    }
}

/// Compiling the statements of a block keeps scope and memory together.
pub proof fn compiled_block_is_within(
    statements: List<syntax::Statement>,
    variables: Scope,
    functions: Table,
    memory: Memory,
)
    requires
        scope_within(variables, functions, memory),
    ensures
        memory.within(compiled_block(statements, variables, functions, memory).1),
        functions_within(functions, compiled_block(statements, variables, functions, memory).1),
        compiled_block(statements, variables, functions, memory).0 matches Ok(programs)
            ==> statements_within(
            programs,
            compiled_block(statements, variables, functions, memory).1,
        ),
    decreases statements,
{
    if let List::Cons(head, rest) = statements {
        compiled_is_within(*head, variables, functions, memory);
        let first = compiled(*head, variables, functions, memory);
        if let Ok(program) = first.result {
            compiled_block_is_within(*rest, first.variables, functions, first.memory);
            let others = compiled_block(*rest, first.variables, functions, first.memory);
            statement_stays_within(program, first.memory, others.1);
        }
    }
}

} // verus!

