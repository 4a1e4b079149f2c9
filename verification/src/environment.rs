//! The environment: the variables, functions and cells of a session, and
//! what they hold at its start.

use vstd::prelude::*;
use crate::cells::{
    compiled_is_within, functions_stay_within, named_within, newest_function_is_within,
    newest_variable_is_within, scope_within, values_within, variables_stay_within,
};
use crate::compiler::{
    compile_statement, compiled, declare, function, variable, Functions, Scope, Table,
    Variables,
};
use crate::error::Error;
use crate::evaluator::{ran, running_keeps_cells, Signal};
use crate::function::{Body, Function, RealFunction, SoundFunction, VoidFunction};
use crate::list::List;
use crate::number::{lawful, Operation, Real, E, ONE, PI};
use crate::output::{Event, Output, State};
use crate::program::{Argument, RealExpression};
use crate::sound::Sound;
use crate::store::{Memory, Store};
use crate::syntax;
use crate::value::Value;

verus! {

/// A session: the variables and functions of the outermost scope, the cells,
/// and the effects that the statements run so far have left.
pub struct Environment {
    pub variables: Variables,
    pub functions: Functions,
    pub store: Store,
    pub output: Output,
}

/// Puts a variable in scope behind those that are there: from then on its
/// name stands for it, and every other name for what it stood for before.
pub fn install_variable(variables: &mut Variables, name: &str, value: Value)
    ensures
        final(variables)@.len() == old(variables)@.len() + 1,
        final(variables)@.drop_last() == old(variables)@,
        final(variables)@.last().0@ == name@,
        final(variables)@.last().1 == value,
        variable(final(variables)@, name@) == Some(value),
        forall|other: Seq<char>|
            other != name@ ==> #[trigger] variable(final(variables)@, other) == variable(
                old(variables)@,
                other,
            ),
{
    declare(variables, String::from_str(name), value);
    assert(variables@.drop_last() =~= old(variables)@);
}

/// Puts a function in scope behind those that are there: from then on its
/// name stands for it, and every other name for what it stood for before.
pub fn install_function(functions: &mut Functions, name: &str, definition: Function)
    ensures
        final(functions)@.len() == old(functions)@.len() + 1,
        final(functions)@.drop_last() == old(functions)@,
        final(functions)@.last().0@ == name@,
        final(functions)@.last().1 == definition,
        function(final(functions)@, name@) == Some(definition),
        forall|other: Seq<char>|
            other != name@ ==> #[trigger] function(final(functions)@, other) == function(
                old(functions)@,
                other,
            ),
{
    functions.push((String::from_str(name), definition));
    assert(functions@.drop_last() =~= old(functions)@);
}

/// Whether a name stands for a real variable that holds the real of the
/// given bits.
pub open spec fn holds_real(variables: Scope, memory: Memory, name: Seq<char>, bits: u64)
    -> bool {
    match variable(variables, name) {
        Some(Value::Real(cell)) => cell < memory.reals.len() && memory.read_real(cell).bits
            == bits,
        _ => false,
    }
}

/// Whether a name stands for a boolean variable that holds the given truth
/// value.
pub open spec fn holds_boolean(variables: Scope, memory: Memory, name: Seq<char>, value: bool)
    -> bool {
    match variable(variables, name) {
        Some(Value::Boolean(cell)) => cell < memory.booleans.len() && memory.read_boolean(cell)
            == value,
        _ => false,
    }
}

/// Whether a name stands for a sound variable that holds the given sound.
pub open spec fn holds_sound(variables: Scope, memory: Memory, name: Seq<char>, value: Sound)
    -> bool {
    match variable(variables, name) {
        Some(Value::Sound(cell)) => cell < memory.sounds.len() && memory.read_sound(cell)
            == value,
        _ => false,
    }
}

/// The positional arguments of a function of one argument.
pub open spec fn one_argument(first: Value) -> List<Value> {
    List::Cons(Box::new(first), Box::new(List::Nil))
}

/// The positional arguments of a function of two arguments.
pub open spec fn two_arguments(first: Value, second: Value) -> List<Value> {
    List::Cons(Box::new(first), Box::new(one_argument(second)))
}

/// Whether a name stands for a function of one real that computes the given
/// operation on a cell of its own.
pub open spec fn is_primitive_1(functions: Table, memory: Memory, name: Seq<char>, op: Operation)
    -> bool {
    match function(functions, name) {
        Some(f) => match f.body {
            Body::Real(RealFunction::Primitive1(o, x)) => o == op && x < memory.reals.len()
                && f.arguments == one_argument(Value::Real(x)) && f.named_arguments is Nil,
            _ => false,
        },
        None => false,
    }
}

/// Whether a name stands for a function of two reals that computes the
/// given operation on two cells of its own.
pub open spec fn is_primitive_2(functions: Table, memory: Memory, name: Seq<char>, op: Operation)
    -> bool {
    match function(functions, name) {
        Some(f) => match f.body {
            Body::Real(RealFunction::Primitive2(o, x, y)) => o == op && x < memory.reals.len() && y
                < memory.reals.len() && x != y && f.arguments == two_arguments(
                Value::Real(x),
                Value::Real(y),
            ) && f.named_arguments is Nil,
            _ => false,
        },
        None => false,
    }
}

/// Whether a name stands for the given generator of sounds: a function of
/// one real in a cell of its own, and for a ramp the named argument `t`,
/// which is 1 where a call leaves it out.
pub open spec fn is_generator(functions: Table, memory: Memory, name: Seq<char>, kind: int)
    -> bool {
    match function(functions, name) {
        Some(f) => match f.body {
            Body::Sound(SoundFunction::Sin(x)) => kind == 0 && x < memory.reals.len()
                && f.arguments == one_argument(Value::Real(x)) && f.named_arguments is Nil,
            Body::Sound(SoundFunction::Exp(x)) => kind == 1 && x < memory.reals.len()
                && f.arguments == one_argument(Value::Real(x)) && f.named_arguments is Nil,
            Body::Sound(SoundFunction::Linear(x, t)) => kind == 2 && x < memory.reals.len() && t
                < memory.reals.len() && x != t && f.arguments == one_argument(Value::Real(x))
                && match f.named_arguments {
                List::Cons(named, rest) => named.0@ == "t"@ && named.1 == Argument::Real(
                    t,
                    RealExpression::Const(Real { bits: ONE }),
                ) && *rest is Nil,
                List::Nil => false,
            },
            _ => false,
        },
        None => false,
    }
}

/// Whether a name stands for the function that renders a sound: it takes a
/// sound, a duration in seconds and a path, each in a cell of its own.
pub open spec fn is_writer(functions: Table, memory: Memory, name: Seq<char>) -> bool {
    match function(functions, name) {
        Some(f) => match f.body {
            Body::Void(VoidFunction::Write(sound, seconds, path)) => f.arguments == List::Cons(
                Box::new(Value::Sound(sound)),
                Box::new(two_arguments(Value::Real(seconds), Value::String(path))),
            ) && sound < memory.sounds.len() && seconds < memory.reals.len() && path
                < memory.strings.len() && f.named_arguments is Nil,
            _ => false,
        },
        None => false,
    }
}

/// What the names of a session stand for at its start.
///
/// The variables `true` and `false`, `PI` and `E`, and the sounds `Begin`
/// and `End`, which step at time zero, and `Rand`. The functions `sqrt`,
/// `sin`, `cos`, `tan`, `exp` and `log` of one real, `max` and `min` of two;
/// the generators `Sin`, `Linear` and `Exp`; and `write`.
pub open spec fn at_start(variables: Scope, functions: Table, memory: Memory) -> bool {
    &&& holds_boolean(variables, memory, "true"@, true)
    &&& holds_boolean(variables, memory, "false"@, false)
    &&& holds_real(variables, memory, "PI"@, PI)
    &&& holds_real(variables, memory, "E"@, E)
    &&& holds_sound(variables, memory, "Begin"@, Sound::Begin(Real { bits: 0 }))
    &&& holds_sound(variables, memory, "End"@, Sound::End(Real { bits: 0 }))
    &&& holds_sound(variables, memory, "Rand"@, Sound::Rand)
    &&& is_primitive_1(functions, memory, "sqrt"@, Operation::Sqrt)
    &&& is_primitive_1(functions, memory, "sin"@, Operation::Sin)
    &&& is_primitive_1(functions, memory, "cos"@, Operation::Cos)
    &&& is_primitive_1(functions, memory, "tan"@, Operation::Tan)
    &&& is_primitive_1(functions, memory, "exp"@, Operation::Exp)
    &&& is_primitive_1(functions, memory, "log"@, Operation::Log)
    &&& is_primitive_2(functions, memory, "max"@, Operation::Max)
    &&& is_primitive_2(functions, memory, "min"@, Operation::Min)
    &&& is_generator(functions, memory, "Sin"@, 0)
    &&& is_generator(functions, memory, "Exp"@, 1)
    &&& is_generator(functions, memory, "Linear"@, 2)
    &&& is_writer(functions, memory, "write"@)
}

/// Whether everything that holds of the names other than `name` before a
/// step still holds after it.
pub open spec fn keeping(before: Environment, after: Environment, name: Seq<char>) -> bool {
    &&& forall|n: Seq<char>, bits: u64|
        n != name && #[trigger] holds_real(before.variables@, before.store@, n, bits) ==> holds_real(
            after.variables@,
            after.store@,
            n,
            bits,
        )
    &&& forall|n: Seq<char>, value: bool|
        n != name && #[trigger] holds_boolean(before.variables@, before.store@, n, value) ==> holds_boolean(
            after.variables@,
            after.store@,
            n,
            value,
        )
    &&& forall|n: Seq<char>, value: Sound|
        n != name && #[trigger] holds_sound(before.variables@, before.store@, n, value) ==> holds_sound(
            after.variables@,
            after.store@,
            n,
            value,
        )
    &&& forall|n: Seq<char>, op: Operation|
        n != name && #[trigger] is_primitive_1(before.functions@, before.store@, n, op) ==> is_primitive_1(
            after.functions@,
            after.store@,
            n,
            op,
        )
    &&& forall|n: Seq<char>, op: Operation|
        n != name && #[trigger] is_primitive_2(before.functions@, before.store@, n, op) ==> is_primitive_2(
            after.functions@,
            after.store@,
            n,
            op,
        )
    &&& forall|n: Seq<char>, kind: int|
        n != name && #[trigger] is_generator(before.functions@, before.store@, n, kind) ==> is_generator(
            after.functions@,
            after.store@,
            n,
            kind,
        )
    &&& forall|n: Seq<char>|
        n != name && #[trigger] is_writer(before.functions@, before.store@, n) ==> is_writer(
            after.functions@,
            after.store@,
            n,
        )
}

/// Whether a step binds one name more among the variables and nothing
/// else: every other name stands for what it stood for, and the functions
/// are as they were.
pub open spec fn binds_variable(before: Environment, after: Environment, name: Seq<char>) -> bool {
    &&& after.functions@ == before.functions@
    &&& after.variables@.len() == before.variables@.len() + 1
    &&& variable(after.variables@, name) is Some
    &&& forall|n: Seq<char>|
        n != name ==> #[trigger] variable(after.variables@, n) == variable(before.variables@, n)
}

/// Whether a step binds one name more among the functions and nothing
/// else: every other name stands for what it stood for, and the variables
/// are as they were.
pub open spec fn binds_function(before: Environment, after: Environment, name: Seq<char>) -> bool {
    &&& after.variables@ == before.variables@
    &&& after.functions@.len() == before.functions@.len() + 1
    &&& function(after.functions@, name) is Some
    &&& forall|n: Seq<char>|
        n != name ==> #[trigger] function(after.functions@, n) == function(before.functions@, n)
}

/// Whether a name is one of the variables that a session starts with.
pub open spec fn is_prelude_variable(name: Seq<char>) -> bool {
    name == "true"@ || name == "false"@ || name == "PI"@ || name == "E"@ || name == "Begin"@
        || name == "End"@ || name == "Rand"@
}

/// Whether a name is one of the functions that a session starts with.
pub open spec fn is_prelude_function(name: Seq<char>) -> bool {
    name == "sqrt"@ || name == "sin"@ || name == "cos"@ || name == "tan"@ || name == "exp"@
        || name == "log"@ || name == "max"@ || name == "min"@ || name == "Sin"@ || name
        == "Linear"@ || name == "Exp"@ || name == "write"@
}

/// Whether the variables and functions are those that a session starts
/// with and no others: seven variables and twelve functions, and no other
/// name stands for anything.
pub open spec fn only_prelude(variables: Scope, functions: Table) -> bool {
    &&& variables.len() == 7
    &&& functions.len() == 12
    &&& forall|n: Seq<char>| #[trigger] variable(variables, n) is Some <==> is_prelude_variable(n)
    &&& forall|n: Seq<char>| #[trigger] function(functions, n) is Some <==> is_prelude_function(n)
}

impl Environment {
    /// Whether the cells of all the variables and functions exist.
    pub open spec fn consistent(self) -> bool {
        scope_within(self.variables@, self.functions@, self.store@)
    }

    /// Makes a real variable with a value.
    pub fn define_real(&mut self, name: &str, value: Real)
        ensures
            holds_real(final(self).variables@, final(self).store@, name@, value.bits),
            keeping(*old(self), *final(self), name@),
            binds_variable(*old(self), *final(self), name@),
            final(self).output == old(self).output,
            old(self).consistent() ==> final(self).consistent(),
    {
        let ghost before = self.store@;
        let cell = self.store.new_real();
        self.store.write_real(cell, value);
        install_variable(&mut self.variables, name, Value::Real(cell));
        proof {
            reveal_with_fuel(values_within, 4);
            reveal_with_fuel(named_within, 2);
            if old(self).consistent() {
                variables_stay_within(old(self).variables@, before, self.store@);
                functions_stay_within(old(self).functions@, before, self.store@);
                newest_variable_is_within(self.variables@, self.store@);
            }
        }
    }

    /// Makes a boolean variable with a value.
    pub fn define_boolean(&mut self, name: &str, value: bool)
        ensures
            holds_boolean(final(self).variables@, final(self).store@, name@, value),
            keeping(*old(self), *final(self), name@),
            binds_variable(*old(self), *final(self), name@),
            final(self).output == old(self).output,
            old(self).consistent() ==> final(self).consistent(),
    {
        let ghost before = self.store@;
        let cell = self.store.new_boolean();
        self.store.write_boolean(cell, value);
        install_variable(&mut self.variables, name, Value::Boolean(cell));
        proof {
            reveal_with_fuel(values_within, 4);
            reveal_with_fuel(named_within, 2);
            if old(self).consistent() {
                variables_stay_within(old(self).variables@, before, self.store@);
                functions_stay_within(old(self).functions@, before, self.store@);
                newest_variable_is_within(self.variables@, self.store@);
            }
        }
    }

    /// Makes a sound variable with a value.
    pub fn define_sound(&mut self, name: &str, value: Sound)
        ensures
            holds_sound(final(self).variables@, final(self).store@, name@, value),
            keeping(*old(self), *final(self), name@),
            binds_variable(*old(self), *final(self), name@),
            final(self).output == old(self).output,
            old(self).consistent() ==> final(self).consistent(),
    {
        let ghost before = self.store@;
        let cell = self.store.new_sound();
        self.store.write_sound(cell, value);
        install_variable(&mut self.variables, name, Value::Sound(cell));
        proof {
            reveal_with_fuel(values_within, 4);
            reveal_with_fuel(named_within, 2);
            if old(self).consistent() {
                variables_stay_within(old(self).variables@, before, self.store@);
                functions_stay_within(old(self).functions@, before, self.store@);
                newest_variable_is_within(self.variables@, self.store@);
            }
        }
    }

    /// Makes a function of one real that computes an operation.
    pub fn define_primitive_1(&mut self, name: &str, op: Operation)
        ensures
            is_primitive_1(final(self).functions@, final(self).store@, name@, op),
            keeping(*old(self), *final(self), name@),
            binds_function(*old(self), *final(self), name@),
            final(self).output == old(self).output,
            old(self).consistent() ==> final(self).consistent(),
    {
        let ghost before = self.store@;
        let f = Function::primitive_real_1(op, &mut self.store);
        install_function(&mut self.functions, name, f);
        proof {
            reveal_with_fuel(values_within, 4);
            reveal_with_fuel(named_within, 2);
            if old(self).consistent() {
                variables_stay_within(old(self).variables@, before, self.store@);
                functions_stay_within(old(self).functions@, before, self.store@);
                newest_function_is_within(self.functions@, self.store@);
            }
        }
    }

    /// Makes a function of two reals that computes an operation.
    pub fn define_primitive_2(&mut self, name: &str, op: Operation)
        ensures
            is_primitive_2(final(self).functions@, final(self).store@, name@, op),
            keeping(*old(self), *final(self), name@),
            binds_function(*old(self), *final(self), name@),
            final(self).output == old(self).output,
            old(self).consistent() ==> final(self).consistent(),
    {
        let ghost before = self.store@;
        let f = Function::primitive_real_2(op, &mut self.store);
        install_function(&mut self.functions, name, f);
        proof {
            reveal_with_fuel(values_within, 4);
            reveal_with_fuel(named_within, 2);
            if old(self).consistent() {
                variables_stay_within(old(self).variables@, before, self.store@);
                functions_stay_within(old(self).functions@, before, self.store@);
                newest_function_is_within(self.functions@, self.store@);
            }
        }
    }

    /// Makes the generator of sine waves.
    pub fn define_sin(&mut self, name: &str)
        ensures
            is_generator(final(self).functions@, final(self).store@, name@, 0),
            keeping(*old(self), *final(self), name@),
            binds_function(*old(self), *final(self), name@),
            final(self).output == old(self).output,
            old(self).consistent() ==> final(self).consistent(),
    {
        let ghost before = self.store@;
        let f = Function::sin(&mut self.store);
        install_function(&mut self.functions, name, f);
        proof {
            reveal_with_fuel(values_within, 4);
            reveal_with_fuel(named_within, 2);
            if old(self).consistent() {
                variables_stay_within(old(self).variables@, before, self.store@);
                functions_stay_within(old(self).functions@, before, self.store@);
                newest_function_is_within(self.functions@, self.store@);
            }
        }
    }

    /// Makes the generator of exponentials.
    pub fn define_exp(&mut self, name: &str)
        ensures
            is_generator(final(self).functions@, final(self).store@, name@, 1),
            keeping(*old(self), *final(self), name@),
            binds_function(*old(self), *final(self), name@),
            final(self).output == old(self).output,
            old(self).consistent() ==> final(self).consistent(),
    {
        let ghost before = self.store@;
        let f = Function::exp(&mut self.store);
        install_function(&mut self.functions, name, f);
        proof {
            reveal_with_fuel(values_within, 4);
            reveal_with_fuel(named_within, 2);
            if old(self).consistent() {
                variables_stay_within(old(self).variables@, before, self.store@);
                functions_stay_within(old(self).functions@, before, self.store@);
                newest_function_is_within(self.functions@, self.store@);
            }
        }
    }

    /// Makes the generator of ramps.
    pub fn define_linear(&mut self, name: &str)
        ensures
            is_generator(final(self).functions@, final(self).store@, name@, 2),
            keeping(*old(self), *final(self), name@),
            binds_function(*old(self), *final(self), name@),
            final(self).output == old(self).output,
            old(self).consistent() ==> final(self).consistent(),
    {
        let ghost before = self.store@;
        let f = Function::linear(&mut self.store);
        install_function(&mut self.functions, name, f);
        proof {
            reveal_with_fuel(values_within, 4);
            reveal_with_fuel(named_within, 2);
            if old(self).consistent() {
                variables_stay_within(old(self).variables@, before, self.store@);
                functions_stay_within(old(self).functions@, before, self.store@);
                newest_function_is_within(self.functions@, self.store@);
            }
        }
    }

    /// Makes the function that renders a sound.
    pub fn define_write(&mut self, name: &str)
        ensures
            is_writer(final(self).functions@, final(self).store@, name@),
            keeping(*old(self), *final(self), name@),
            binds_function(*old(self), *final(self), name@),
            final(self).output == old(self).output,
            old(self).consistent() ==> final(self).consistent(),
    {
        let ghost before = self.store@;
        let f = Function::write(&mut self.store);
        install_function(&mut self.functions, name, f);
        proof {
            reveal_with_fuel(values_within, 4);
            reveal_with_fuel(named_within, 2);
            if old(self).consistent() {
                variables_stay_within(old(self).variables@, before, self.store@);
                functions_stay_within(old(self).functions@, before, self.store@);
                newest_function_is_within(self.functions@, self.store@);
            }
        }
    }

    /// A new session.
    pub fn new() -> (environment: Environment)
        ensures
            at_start(environment.variables@, environment.functions@, environment.store@),
            only_prelude(environment.variables@, environment.functions@),
            environment.output@ == Seq::<Event>::empty(),
            environment.consistent(),
    {
        let mut environment = Environment {
            variables: Vec::new(),
            functions: Vec::new(),
            store: Store::new(),
            output: Output::new(),
        };
        proof {
            reveal_strlit("true");
            reveal_strlit("false");
            reveal_strlit("PI");
            reveal_strlit("E");
            reveal_strlit("Begin");
            reveal_strlit("End");
            reveal_strlit("Rand");
            reveal_strlit("sqrt");
            reveal_strlit("sin");
            reveal_strlit("cos");
            reveal_strlit("tan");
            reveal_strlit("exp");
            reveal_strlit("log");
            reveal_strlit("max");
            reveal_strlit("min");
            reveal_strlit("Sin");
            reveal_strlit("Linear");
            reveal_strlit("Exp");
            reveal_strlit("write");
            assert("true"@.len() == 4 && "true"@[0] == 't');
            assert("false"@.len() == 5 && "false"@[0] == 'f');
            assert("PI"@.len() == 2 && "PI"@[0] == 'P');
            assert("E"@.len() == 1 && "E"@[0] == 'E');
            assert("Begin"@.len() == 5 && "Begin"@[0] == 'B');
            assert("End"@.len() == 3 && "End"@[0] == 'E');
            assert("Rand"@.len() == 4 && "Rand"@[0] == 'R');
            assert("sqrt"@.len() == 4 && "sqrt"@[0] == 's');
            assert("sin"@.len() == 3 && "sin"@[0] == 's');
            assert("cos"@.len() == 3 && "cos"@[0] == 'c');
            assert("tan"@.len() == 3 && "tan"@[0] == 't');
            assert("exp"@.len() == 3 && "exp"@[0] == 'e');
            assert("log"@.len() == 3 && "log"@[0] == 'l');
            assert("max"@.len() == 3 && "max"@[0] == 'm');
            assert("min"@.len() == 3 && "min"@[0] == 'm');
            assert("Sin"@.len() == 3 && "Sin"@[0] == 'S');
            assert("Linear"@.len() == 6 && "Linear"@[0] == 'L');
            assert("Exp"@.len() == 3 && "Exp"@[0] == 'E');
            assert("write"@.len() == 5 && "write"@[0] == 'w');
            assert("max"@[1] == 'a' && "min"@[1] == 'i');
            assert("End"@[1] == 'n' && "Exp"@[1] == 'x');
        }
        environment.define_boolean("true", true);
        environment.define_boolean("false", false);
        environment.define_real("PI", Real { bits: PI });
        environment.define_real("E", Real { bits: E });
        environment.define_sound("Begin", Sound::Begin(Real { bits: 0 }));
        environment.define_sound("End", Sound::End(Real { bits: 0 }));
        environment.define_sound("Rand", Sound::Rand);
        environment.define_primitive_1("sqrt", Operation::Sqrt);
        environment.define_primitive_1("sin", Operation::Sin);
        environment.define_primitive_1("cos", Operation::Cos);
        environment.define_primitive_1("tan", Operation::Tan);
        environment.define_primitive_1("exp", Operation::Exp);
        environment.define_primitive_1("log", Operation::Log);
        environment.define_primitive_2("max", Operation::Max);
        environment.define_primitive_2("min", Operation::Min);
        environment.define_sin("Sin");
        environment.define_linear("Linear");
        environment.define_exp("Exp");
        environment.define_write("write");
        environment
    }

    /// Compiles a statement in the outermost scope and runs it. No loop
    /// runs more than `fuel` rounds in one go.
    ///
    /// A statement that does not compile is not run: the variables stay as
    /// they were, though cells made for it may stay too.
    pub fn run<F: Fn(Operation, Real, Real) -> Real>(
        &mut self,
        statement: syntax::Statement,
        calc: &F,
        fuel: u64,
    ) -> (result: Result<Signal, Error>)
        requires
            lawful(*calc),
        ensures
            old(self).consistent() ==> final(self).consistent(),
            final(self).functions@ == old(self).functions@,
            final(self).variables@ == compiled(
                statement,
                old(self).variables@,
                old(self).functions@,
                old(self).store@,
            ).variables,
            match compiled(statement, old(self).variables@, old(self).functions@, old(self).store@).result {
                Err(error) => result == Err::<Signal, Error>(error) && final(self).output@ == old(
                    self,
                ).output@ && final(self).store@ == compiled(
                    statement,
                    old(self).variables@,
                    old(self).functions@,
                    old(self).store@,
                ).memory,
                Ok(program) => {
                    let end = ran(
                        program,
                        *calc,
                        State {
                            memory: compiled(
                                statement,
                                old(self).variables@,
                                old(self).functions@,
                                old(self).store@,
                            ).memory,
                            output: old(self).output@,
                        },
                        fuel as nat,
                    );
                    result is Ok && result->Ok_0@ == end.0 && final(self).store@ == end.1.memory
                        && final(self).output@ == end.1.output
                },
            },
    {
        proof {
            if self.consistent() {
                compiled_is_within(statement, self.variables@, self.functions@, self.store@);
            }
        }
        match compile_statement(statement, &mut self.variables, &self.functions, &mut self.store) {
            Err(error) => Err(error),
            Ok(program) => {
                let ghost compiled = self.store@;
                proof {
                    running_keeps_cells(
                        program,
                        *calc,
                        State { memory: compiled, output: self.output@ },
                        fuel as nat,
                    );
                }
                let signal = program.run(calc, &mut self.store, &mut self.output, fuel);
                proof {
                    if old(self).consistent() {
                        variables_stay_within(self.variables@, compiled, self.store@);
                        functions_stay_within(self.functions@, compiled, self.store@);
                    }
                }
                Ok(signal)
            },
        }
    }
}

} // verus!
