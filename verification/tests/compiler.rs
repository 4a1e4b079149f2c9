use soundlang::compiler::{
    apply_binary, apply_unary, compile_expression, compile_statement, find_function,
    find_variable, Arithmetic, Binary, Functions, Unary, Variables,
};
use soundlang::environment::Environment;
use soundlang::error::Error;
use soundlang::function::{Body, Function, RealFunction, SoundFunction, VoidFunction};
use soundlang::list::List;
use soundlang::number::{Operation, Real};
use soundlang::pos::Range;
use soundlang::program::{
    Argument, BooleanExpression, Expression, RealExpression, SoundExpression, Statement,
    StringExpression, VoidExpression,
};
use soundlang::store::Store;
use soundlang::syntax;
use soundlang::syntax::Node;
use soundlang::types::Type;
use soundlang::value::Value;

fn place(n: usize) -> Range {
    Range::new_single_line(0, n, Some(n + 1))
}

fn node(n: usize, node: Node) -> syntax::Expression {
    syntax::Expression::new(place(n), node)
}

fn var(n: usize, name: &str) -> syntax::Expression {
    node(n, Node::Identifier(name.to_string()))
}

fn num(n: usize, value: f64) -> syntax::Expression {
    node(n, Node::Number(Real::from_bits(value.to_bits())))
}

fn text(n: usize, value: &str) -> syntax::Expression {
    node(n, Node::String(value.to_string()))
}

fn call(n: usize, name: &str, arguments: Vec<syntax::Expression>) -> syntax::Expression {
    node(n, Node::Invocation(name.to_string(), List::from_vec(arguments), List::new()))
}

fn call_named(
    n: usize,
    name: &str,
    arguments: Vec<syntax::Expression>,
    named: Vec<(&str, syntax::Expression)>,
) -> syntax::Expression {
    node(
        n,
        Node::Invocation(
            name.to_string(),
            List::from_vec(arguments),
            List::from_vec(named.into_iter().map(|(name, value)| (name.to_string(), value)).collect()),
        ),
    )
}

fn boxed(expression: syntax::Expression) -> Box<syntax::Expression> {
    Box::new(expression)
}

fn constant(value: f64) -> RealExpression {
    RealExpression::Const(Real::from_bits(value.to_bits()))
}

/// A scope with one variable of each type and the functions of a new
/// session.
struct Scope {
    variables: Variables,
    functions: Functions,
    store: Store,
    r: usize,
    b: usize,
    s: usize,
    t: usize,
}

fn scope() -> Scope {
    let environment = Environment::new();
    let mut store = environment.store;
    let r = store.new_real();
    let b = store.new_boolean();
    let s = store.new_sound();
    let t = store.new_string();
    let mut variables = environment.variables;
    for (name, value) in [
        ("r", Value::Real(r)),
        ("b", Value::Boolean(b)),
        ("s", Value::Sound(s)),
        ("t", Value::String(t)),
    ] {
        variables.push((name.to_string(), value));
    }
    Scope { variables, functions: environment.functions, store, r, b, s, t }
}

fn compile(expression: syntax::Expression) -> Result<Expression, Error> {
    let scope = scope();
    compile_expression(expression, &scope.variables, &scope.functions).map(|compiled| compiled.0)
}

fn type_of(expression: syntax::Expression) -> Result<Type, Error> {
    compile(expression).map(|compiled| compiled.ty())
}

fn cell_of(functions: &Functions, name: &str, n: usize) -> usize {
    let function = find_function(functions, &name.to_string()).unwrap();
    let mut arguments = &function.arguments;
    for _ in 0..n {
        match arguments {
            List::Cons(_, rest) => arguments = rest,
            List::Nil => panic!("no such argument"),
        }
    }
    match arguments {
        List::Cons(value, _) => match **value {
            Value::Real(cell) | Value::Boolean(cell) | Value::Sound(cell) | Value::String(cell) => {
                cell
            }
        },
        List::Nil => panic!("no such argument"),
    }
}

#[test]
fn a_name_compiles_to_a_reference_to_its_cell() {
    let scope = scope();
    assert_eq!(compile(var(0, "r")), Ok(Expression::Real(RealExpression::Reference(scope.r))));
    assert_eq!(
        compile(var(0, "b")),
        Ok(Expression::Boolean(BooleanExpression::Reference(scope.b)))
    );
    assert_eq!(compile(var(0, "s")), Ok(Expression::Sound(SoundExpression::Reference(scope.s))));
    assert_eq!(
        compile(var(0, "t")),
        Ok(Expression::String(StringExpression::Reference(scope.t)))
    );
    assert_eq!(compile(var(3, "q")), Err(Error::UndefinedVariable("q".to_string(), place(3))));
    assert_eq!(find_variable(&scope.variables, &"r".to_string()), Some(Value::Real(scope.r)));
    assert_eq!(find_variable(&scope.variables, &"q".to_string()), None);
}

#[test]
fn the_result_carries_the_place_of_the_expression() {
    let scope = scope();
    let sum = node(7, Node::Add(boxed(num(1, 1.0)), boxed(num(2, 2.0))));
    assert_eq!(
        compile_expression(sum, &scope.variables, &scope.functions),
        Ok((
            Expression::Real(RealExpression::Add(Box::new(constant(1.0)), Box::new(constant(2.0)))),
            place(7)
        ))
    );
    let group = node(9, Node::Group(boxed(var(1, "t"))));
    assert_eq!(
        compile_expression(group, &scope.variables, &scope.functions),
        Ok((Expression::String(StringExpression::Reference(scope.t)), place(9)))
    );
}

#[test]
fn literals_compile_to_constants() {
    assert_eq!(compile(num(0, 2.5)), Ok(Expression::Real(constant(2.5))));
    assert_eq!(
        compile(text(0, "abc")),
        Ok(Expression::String(StringExpression::Const("abc".to_string())))
    );
}

#[test]
fn operators_of_one_operand_are_resolved_by_type() {
    let print = |name: &str| type_of(node(1, Node::Print(boxed(var(0, name)))));
    let minus = |name: &str| type_of(node(1, Node::Minus(boxed(var(0, name)))));
    let inverse = |name: &str| type_of(node(1, Node::Reciprocal(boxed(var(0, name)))));
    let not = |name: &str| type_of(node(1, Node::Not(boxed(var(0, name)))));
    assert_eq!(print("r"), Ok(Type::Real));
    assert_eq!(print("b"), Ok(Type::Boolean));
    assert_eq!(print("s"), Ok(Type::Sound));
    assert_eq!(print("t"), Ok(Type::String));
    assert_eq!(minus("r"), Ok(Type::Real));
    assert_eq!(minus("s"), Ok(Type::Sound));
    assert_eq!(minus("b"), Err(Error::TypeMismatchUnary(place(0), Type::Boolean)));
    assert_eq!(minus("t"), Err(Error::TypeMismatchUnary(place(0), Type::String)));
    assert_eq!(inverse("r"), Ok(Type::Real));
    assert_eq!(inverse("s"), Ok(Type::Sound));
    assert_eq!(inverse("b"), Err(Error::TypeMismatchUnary(place(0), Type::Boolean)));
    assert_eq!(not("b"), Ok(Type::Boolean));
    assert_eq!(not("r"), Err(Error::TypeMismatchUnary(place(0), Type::Real)));
    assert_eq!(not("s"), Err(Error::TypeMismatchUnary(place(0), Type::Sound)));
    assert_eq!(
        type_of(node(2, Node::Print(boxed(call(1, "write", vec![var(0, "s"), var(0, "r"), var(0, "t")]))))),
        Err(Error::TypeMismatchUnary(place(1), Type::Void))
    );
    assert_eq!(
        compile(node(1, Node::Print(boxed(var(0, "s"))))),
        Ok(Expression::Sound(SoundExpression::Play(Box::new(SoundExpression::Reference(scope().s)))))
    );
    assert_eq!(
        apply_unary(Unary::Minus, Expression::Real(constant(1.0)), place(0)),
        Ok(Expression::Real(RealExpression::Minus(Box::new(constant(1.0)))))
    );
}

fn binary(make: fn(Box<syntax::Expression>, Box<syntax::Expression>) -> Node, left: &str, right: &str) -> Result<Type, Error> {
    type_of(node(2, make(boxed(var(0, left)), boxed(var(1, right)))))
}

fn mismatch(left: Type, right: Type) -> Result<Type, Error> {
    Err(Error::TypeMismatchBinary(place(0), left, place(1), right))
}

#[test]
fn arithmetic_takes_reals_and_sounds() {
    let operators: [fn(Box<syntax::Expression>, Box<syntax::Expression>) -> Node; 6] =
        [Node::Add, Node::Sub, Node::Mul, Node::Div, Node::Rem, Node::Pow];
    for (i, make) in operators.into_iter().enumerate() {
        assert_eq!(binary(make, "r", "r"), Ok(Type::Real));
        assert_eq!(binary(make, "s", "s"), Ok(Type::Sound));
        assert_eq!(binary(make, "s", "r"), Ok(Type::Sound));
        assert_eq!(binary(make, "r", "s"), Ok(Type::Sound));
        assert_eq!(binary(make, "b", "b"), mismatch(Type::Boolean, Type::Boolean));
        assert_eq!(binary(make, "r", "b"), mismatch(Type::Real, Type::Boolean));
        assert_eq!(binary(make, "t", "r"), mismatch(Type::String, Type::Real));
        assert_eq!(binary(make, "s", "t"), mismatch(Type::Sound, Type::String));
        if i == 0 {
            assert_eq!(binary(make, "t", "t"), Ok(Type::String));
        } else {
            assert_eq!(binary(make, "t", "t"), mismatch(Type::String, Type::String));
        }
    }
}

#[test]
fn a_real_beside_a_sound_becomes_a_sound() {
    let scope = scope();
    let s = || Box::new(SoundExpression::Reference(scope.s));
    let r = || Box::new(SoundExpression::Real(RealExpression::Reference(scope.r)));
    assert_eq!(
        compile(node(2, Node::Add(boxed(var(0, "s")), boxed(var(1, "r"))))),
        Ok(Expression::Sound(SoundExpression::Add(s(), r())))
    );
    assert_eq!(
        compile(node(2, Node::Sub(boxed(var(0, "r")), boxed(var(1, "s"))))),
        Ok(Expression::Sound(SoundExpression::Sub(r(), s())))
    );
    assert_eq!(
        compile(node(2, Node::Mul(boxed(var(0, "s")), boxed(var(1, "s"))))),
        Ok(Expression::Sound(SoundExpression::Mul(s(), s())))
    );
    assert_eq!(
        compile(node(2, Node::Div(boxed(var(0, "r")), boxed(var(1, "s"))))),
        Ok(Expression::Sound(SoundExpression::Div(r(), s())))
    );
    assert_eq!(
        compile(node(2, Node::Rem(boxed(var(0, "s")), boxed(var(1, "r"))))),
        Ok(Expression::Sound(SoundExpression::Rem(s(), r())))
    );
    assert_eq!(
        compile(node(2, Node::Pow(boxed(var(0, "s")), boxed(var(1, "r"))))),
        Ok(Expression::Sound(SoundExpression::Pow(s(), r())))
    );
    assert_eq!(
        apply_binary(
            Binary::Arithmetic(Arithmetic::Pow),
            (Expression::Real(constant(2.0)), place(0)),
            (Expression::Real(constant(3.0)), place(1))
        ),
        Ok(Expression::Real(RealExpression::Pow(Box::new(constant(2.0)), Box::new(constant(3.0)))))
    );
}

#[test]
fn the_other_operators_take_one_pair_of_types_each() {
    assert_eq!(binary(Node::LeftShift, "s", "r"), Ok(Type::Sound));
    assert_eq!(binary(Node::RightShift, "s", "r"), Ok(Type::Sound));
    assert_eq!(binary(Node::LeftShift, "r", "s"), mismatch(Type::Real, Type::Sound));
    assert_eq!(binary(Node::RightShift, "s", "s"), mismatch(Type::Sound, Type::Sound));
    assert_eq!(binary(Node::LeftShift, "r", "r"), mismatch(Type::Real, Type::Real));
    assert_eq!(binary(Node::Less, "r", "r"), Ok(Type::Boolean));
    assert_eq!(binary(Node::Greater, "r", "r"), Ok(Type::Boolean));
    assert_eq!(binary(Node::Less, "t", "t"), mismatch(Type::String, Type::String));
    assert_eq!(binary(Node::Greater, "s", "r"), mismatch(Type::Sound, Type::Real));
    assert_eq!(binary(Node::Equal, "r", "r"), Ok(Type::Boolean));
    assert_eq!(binary(Node::Equal, "t", "t"), Ok(Type::Boolean));
    assert_eq!(binary(Node::NotEqual, "r", "r"), Ok(Type::Boolean));
    assert_eq!(binary(Node::NotEqual, "t", "t"), Ok(Type::Boolean));
    assert_eq!(binary(Node::Equal, "b", "b"), mismatch(Type::Boolean, Type::Boolean));
    assert_eq!(binary(Node::NotEqual, "r", "t"), mismatch(Type::Real, Type::String));
    assert_eq!(binary(Node::Equal, "s", "s"), mismatch(Type::Sound, Type::Sound));
    assert_eq!(binary(Node::And, "b", "b"), Ok(Type::Boolean));
    assert_eq!(binary(Node::Or, "b", "b"), Ok(Type::Boolean));
    assert_eq!(binary(Node::And, "r", "b"), mismatch(Type::Real, Type::Boolean));
    assert_eq!(binary(Node::Or, "b", "r"), mismatch(Type::Boolean, Type::Real));
    let scope = scope();
    assert_eq!(
        compile(node(2, Node::Equal(boxed(var(0, "t")), boxed(text(1, "x"))))),
        Ok(Expression::Boolean(BooleanExpression::StringEqual(
            Box::new(StringExpression::Reference(scope.t)),
            Box::new(StringExpression::Const("x".to_string()))
        )))
    );
    assert_eq!(
        compile(node(2, Node::RightShift(boxed(var(0, "s")), boxed(num(1, 0.5))))),
        Ok(Expression::Sound(SoundExpression::RightShift(
            Box::new(SoundExpression::Reference(scope.s)),
            Box::new(constant(0.5))
        )))
    );
}

#[test]
fn the_error_of_the_left_operand_comes_first() {
    assert_eq!(
        compile(node(2, Node::Add(boxed(var(0, "x")), boxed(var(1, "y"))))),
        Err(Error::UndefinedVariable("x".to_string(), place(0)))
    );
    assert_eq!(
        compile(node(2, Node::Add(boxed(var(0, "r")), boxed(var(1, "y"))))),
        Err(Error::UndefinedVariable("y".to_string(), place(1)))
    );
    assert_eq!(
        compile(node(4, Node::And(
            boxed(node(2, Node::Not(boxed(var(0, "r"))))),
            boxed(var(3, "y"))
        ))),
        Err(Error::TypeMismatchUnary(place(0), Type::Real))
    );
}

#[test]
fn a_call_binds_its_arguments_to_the_cells_of_the_function() {
    let scope = scope();
    let x = cell_of(&scope.functions, "sqrt", 0);
    assert_eq!(
        compile(call(1, "sqrt", vec![num(0, 2.0)])),
        Ok(Expression::Real(RealExpression::Invocation(
            RealFunction::Primitive1(Operation::Sqrt, x),
            List::from_vec(vec![Argument::Real(x, constant(2.0))])
        )))
    );
    let a = cell_of(&scope.functions, "max", 0);
    let b = cell_of(&scope.functions, "max", 1);
    assert_ne!(a, b);
    assert_eq!(
        compile(call(2, "max", vec![var(0, "r"), num(1, 1.0)])),
        Ok(Expression::Real(RealExpression::Invocation(
            RealFunction::Primitive2(Operation::Max, a, b),
            List::from_vec(vec![
                Argument::Real(a, RealExpression::Reference(scope.r)),
                Argument::Real(b, constant(1.0))
            ])
        )))
    );
    let f = cell_of(&scope.functions, "Sin", 0);
    assert_eq!(
        compile(call(1, "Sin", vec![num(0, 440.0)])),
        Ok(Expression::Sound(SoundExpression::Invocation(
            SoundFunction::Sin(f),
            List::from_vec(vec![Argument::Real(f, constant(440.0))])
        )))
    );
    let (sound, seconds, path) = (
        cell_of(&scope.functions, "write", 0),
        cell_of(&scope.functions, "write", 1),
        cell_of(&scope.functions, "write", 2),
    );
    assert_eq!(
        compile(call(3, "write", vec![var(0, "s"), num(1, 1.0), text(2, "out.wav")])),
        Ok(Expression::Void(VoidExpression::Invocation(
            VoidFunction::Write(sound, seconds, path),
            List::from_vec(vec![
                Argument::Sound(sound, SoundExpression::Reference(scope.s)),
                Argument::Real(seconds, constant(1.0)),
                Argument::String(path, StringExpression::Const("out.wav".to_string())),
            ])
        )))
    );
}

#[test]
fn a_call_has_to_fit_the_function() {
    assert_eq!(
        compile(call(1, "nothing", vec![num(0, 2.0)])),
        Err(Error::UndefinedFunction("nothing".to_string(), place(1)))
    );
    assert_eq!(compile(call(1, "sqrt", vec![])), Err(Error::WrongNumberOfArguments(place(1), 1, 0)));
    assert_eq!(
        compile(call(2, "sqrt", vec![num(0, 2.0), num(1, 3.0)])),
        Err(Error::WrongNumberOfArguments(place(2), 1, 2))
    );
    assert_eq!(
        compile(call(1, "max", vec![num(0, 2.0)])),
        Err(Error::WrongNumberOfArguments(place(1), 2, 1))
    );
    assert_eq!(
        compile(call(1, "sqrt", vec![var(0, "b")])),
        Err(Error::TypeMismatchArgument(place(0), Type::Boolean))
    );
    assert_eq!(
        compile(call(1, "sqrt", vec![text(0, "x")])),
        Err(Error::TypeMismatchArgument(place(0), Type::String))
    );
    assert_eq!(
        compile(call(3, "write", vec![num(0, 1.0), num(1, 1.0), text(2, "x")])),
        Err(Error::TypeMismatchArgument(place(0), Type::Real))
    );
    assert_eq!(
        compile(call(3, "write", vec![var(0, "s"), var(1, "s"), text(2, "x")])),
        Err(Error::TypeMismatchArgument(place(1), Type::Sound))
    );
    assert_eq!(
        compile(call(1, "Sin", vec![var(0, "s")])),
        Err(Error::TypeMismatchArgument(place(0), Type::Sound))
    );
    assert_eq!(
        compile(call(2, "max", vec![var(0, "q"), var(1, "b")])),
        Err(Error::UndefinedVariable("q".to_string(), place(0)))
    );
    assert_eq!(
        compile(call(1, "sqrt", vec![call(0, "write", vec![var(0, "s"), num(0, 1.0), text(0, "x")])])),
        Err(Error::TypeMismatchArgument(place(0), Type::Void))
    );
}

#[test]
fn a_sound_for_a_real_makes_the_call_a_sound() {
    let scope = scope();
    let x = cell_of(&scope.functions, "sqrt", 0);
    assert_eq!(
        compile(call(1, "sqrt", vec![var(0, "s")])),
        Ok(Expression::Sound(SoundExpression::Apply(
            RealFunction::Primitive1(Operation::Sqrt, x),
            List::new(),
            List::from_vec(vec![(x, SoundExpression::Reference(scope.s))])
        )))
    );
    let a = cell_of(&scope.functions, "min", 0);
    let b = cell_of(&scope.functions, "min", 1);
    assert_eq!(
        compile(call(2, "min", vec![var(0, "s"), num(1, 0.5)])),
        Ok(Expression::Sound(SoundExpression::Apply(
            RealFunction::Primitive2(Operation::Min, a, b),
            List::from_vec(vec![Argument::Real(b, constant(0.5))]),
            List::from_vec(vec![(a, SoundExpression::Reference(scope.s))])
        )))
    );
    assert_eq!(
        compile(call(2, "min", vec![var(0, "r"), var(1, "s")])),
        Ok(Expression::Sound(SoundExpression::Apply(
            RealFunction::Primitive2(Operation::Min, a, b),
            List::from_vec(vec![Argument::Real(a, RealExpression::Reference(scope.r))]),
            List::from_vec(vec![(b, SoundExpression::Reference(scope.s))])
        )))
    );
    assert_eq!(type_of(call(2, "max", vec![var(0, "s"), var(1, "s")])), Ok(Type::Sound));
    assert_eq!(
        type_of(call(2, "sqrt", vec![node(1, Node::Add(boxed(var(0, "s")), boxed(num(0, 1.0))))])),
        Ok(Type::Sound)
    );
}

#[test]
fn named_arguments_are_bound_or_take_their_default() {
    let scope = scope();
    let function = find_function(&scope.functions, &"Linear".to_string()).unwrap();
    let (height, time) = match function.body {
        Body::Sound(SoundFunction::Linear(height, time)) => (height, time),
        _ => panic!("not the generator of ramps"),
    };
    assert_eq!(function.body.ty(), Type::Sound);
    assert_eq!(
        compile(call(1, "Linear", vec![num(0, 3.0)])),
        Ok(Expression::Sound(SoundExpression::Invocation(
            SoundFunction::Linear(height, time),
            List::from_vec(vec![
                Argument::Real(height, constant(3.0)),
                Argument::Real(time, constant(1.0))
            ])
        )))
    );
    assert_eq!(
        compile(call_named(2, "Linear", vec![num(0, 3.0)], vec![("t", var(1, "r"))])),
        Ok(Expression::Sound(SoundExpression::Invocation(
            SoundFunction::Linear(height, time),
            List::from_vec(vec![
                Argument::Real(height, constant(3.0)),
                Argument::Real(time, RealExpression::Reference(scope.r))
            ])
        )))
    );
    assert_eq!(
        compile(call_named(2, "Linear", vec![num(0, 3.0)], vec![("u", num(1, 2.0))])),
        Err(Error::UnusedNamedArgument("u".to_string(), place(1)))
    );
    assert_eq!(
        compile(call_named(2, "sqrt", vec![num(0, 3.0)], vec![("t", num(1, 2.0))])),
        Err(Error::UnusedNamedArgument("t".to_string(), place(1)))
    );
    assert_eq!(
        compile(call_named(2, "Linear", vec![num(0, 3.0)], vec![("t", var(1, "s"))])),
        Err(Error::TypeMismatchArgument(place(1), Type::Sound))
    );
    assert_eq!(
        compile(call_named(2, "Linear", vec![num(0, 3.0)], vec![("t", var(1, "q"))])),
        Err(Error::UndefinedVariable("q".to_string(), place(1)))
    );
    assert_eq!(
        compile(call_named(2, "Linear", vec![var(0, "b")], vec![("u", num(1, 2.0))])),
        Err(Error::TypeMismatchArgument(place(0), Type::Boolean))
    );
}

fn compile_in(scope: &mut Scope, statement: syntax::Statement) -> Result<Statement, Error> {
    compile_statement(statement, &mut scope.variables, &scope.functions, &mut scope.store)
}

#[test]
fn an_assignment_takes_the_type_of_its_variable() {
    let mut scope = scope();
    let (r, b, s, t) = (scope.r, scope.b, scope.s, scope.t);
    let assign = |name: &str, value: syntax::Expression| {
        syntax::Statement::Substitution(place(8), name.to_string(), value)
    };
    assert_eq!(
        compile_in(&mut scope, assign("r", num(0, 1.0))),
        Ok(Statement::RealSubstitution(r, constant(1.0)))
    );
    assert_eq!(
        compile_in(&mut scope, assign("b", var(0, "true"))),
        Ok(Statement::BooleanSubstitution(
            b,
            BooleanExpression::Reference(match find_variable(&scope.variables, &"true".to_string()) {
                Some(Value::Boolean(cell)) => cell,
                other => panic!("{other:?}"),
            })
        ))
    );
    assert_eq!(
        compile_in(&mut scope, assign("s", var(0, "s"))),
        Ok(Statement::SoundSubstitution(s, SoundExpression::Reference(s)))
    );
    assert_eq!(
        compile_in(&mut scope, assign("t", text(0, "x"))),
        Ok(Statement::StringSubstitution(t, StringExpression::Const("x".to_string())))
    );
    assert_eq!(
        compile_in(&mut scope, assign("q", num(0, 1.0))),
        Err(Error::UndefinedVariable("q".to_string(), place(8)))
    );
    assert_eq!(
        compile_in(&mut scope, assign("q", var(0, "p"))),
        Err(Error::UndefinedVariable("q".to_string(), place(8)))
    );
    assert_eq!(
        compile_in(&mut scope, assign("r", var(0, "p"))),
        Err(Error::UndefinedVariable("p".to_string(), place(0)))
    );
    assert_eq!(
        compile_in(&mut scope, assign("s", num(0, 1.0))),
        Err(Error::TypeMismatchBinary(place(8), Type::Sound, place(0), Type::Real))
    );
    assert_eq!(
        compile_in(&mut scope, assign("r", var(0, "s"))),
        Err(Error::TypeMismatchBinary(place(8), Type::Real, place(0), Type::Sound))
    );
    assert_eq!(
        compile_in(&mut scope, assign("t", call(1, "write", vec![var(0, "s"), num(0, 1.0), text(0, "x")]))),
        Err(Error::TypeMismatchBinary(place(8), Type::String, place(1), Type::Void))
    );
}

#[test]
fn a_declaration_makes_a_cell_and_a_variable() {
    let mut scope = scope();
    let before = scope.store.new_real();
    let declare = |name: &str, value: syntax::Expression| {
        syntax::Statement::Declaration(place(8), name.to_string(), value)
    };
    assert_eq!(
        compile_in(&mut scope, declare("x", num(0, 1.0))),
        Ok(Statement::RealSubstitution(before + 1, constant(1.0)))
    );
    assert_eq!(find_variable(&scope.variables, &"x".to_string()), Some(Value::Real(before + 1)));
    assert!(scope.store.has(Value::Real(before + 1)));
    assert!(!scope.store.has(Value::Real(before + 2)));
    assert_eq!(
        compile_in(&mut scope, declare("x", text(0, "again"))),
        Ok(Statement::StringSubstitution(scope.t + 1, StringExpression::Const("again".to_string())))
    );
    assert_eq!(find_variable(&scope.variables, &"x".to_string()), Some(Value::String(scope.t + 1)));
    assert_eq!(
        compile_in(&mut scope, declare("y", var(0, "b"))),
        Ok(Statement::BooleanSubstitution(scope.b + 1, BooleanExpression::Reference(scope.b)))
    );
    assert_eq!(
        compile_in(&mut scope, declare("z", var(0, "s"))),
        Ok(Statement::SoundSubstitution(scope.s + 1, SoundExpression::Reference(scope.s)))
    );
    assert_eq!(
        compile_in(&mut scope, declare("v", call(1, "write", vec![var(0, "s"), num(0, 1.0), text(0, "x")]))),
        Err(Error::VoidRHS(place(8)))
    );
    assert_eq!(find_variable(&scope.variables, &"v".to_string()), None);
    assert_eq!(
        compile_in(&mut scope, declare("w", var(0, "w"))),
        Err(Error::UndefinedVariable("w".to_string(), place(0)))
    );
    assert_eq!(find_variable(&scope.variables, &"w".to_string()), None);
}

#[test]
fn what_a_block_declares_stays_inside_it() {
    let mut scope = scope();
    let before = scope.store.new_real();
    let block = syntax::Statement::Block(List::from_vec(vec![
        syntax::Statement::Declaration(place(8), "x".to_string(), num(0, 1.0)),
        syntax::Statement::Substitution(place(8), "x".to_string(), var(1, "r")),
        syntax::Statement::Substitution(place(8), "r".to_string(), var(2, "x")),
    ]));
    assert_eq!(
        compile_in(&mut scope, block),
        Ok(Statement::Block(List::from_vec(vec![
            Statement::RealSubstitution(before + 1, constant(1.0)),
            Statement::RealSubstitution(before + 1, RealExpression::Reference(scope.r)),
            Statement::RealSubstitution(scope.r, RealExpression::Reference(before + 1)),
        ])))
    );
    assert_eq!(find_variable(&scope.variables, &"x".to_string()), None);
    assert!(scope.store.has(Value::Real(before + 1)));
    let shadow = syntax::Statement::Block(List::from_vec(vec![
        syntax::Statement::Declaration(place(8), "r".to_string(), text(0, "inner")),
        syntax::Statement::Expression(Some(var(1, "r"))),
    ]));
    assert_eq!(
        compile_in(&mut scope, shadow),
        Ok(Statement::Block(List::from_vec(vec![
            Statement::StringSubstitution(scope.t + 1, StringExpression::Const("inner".to_string())),
            Statement::Expression(Some(Expression::String(StringExpression::Reference(scope.t + 1)))),
        ])))
    );
    assert_eq!(find_variable(&scope.variables, &"r".to_string()), Some(Value::Real(scope.r)));
    let failing = syntax::Statement::Block(List::from_vec(vec![
        syntax::Statement::Declaration(place(8), "x".to_string(), num(0, 1.0)),
        syntax::Statement::Expression(Some(var(1, "nowhere"))),
        syntax::Statement::Expression(Some(var(2, "never"))),
    ]));
    assert_eq!(
        compile_in(&mut scope, failing),
        Err(Error::UndefinedVariable("nowhere".to_string(), place(1)))
    );
    assert_eq!(find_variable(&scope.variables, &"x".to_string()), None);
}

#[test]
fn loops_and_branches_take_a_boolean_condition() {
    let mut scope = scope();
    let r = scope.r;
    let body = || Box::new(syntax::Statement::Substitution(place(8), "r".to_string(), num(0, 1.0)));
    let compiled_body = move || Box::new(Statement::RealSubstitution(r, constant(1.0)));
    assert_eq!(
        compile_in(&mut scope, syntax::Statement::While(var(0, "b"), body())),
        Ok(Statement::While(BooleanExpression::Reference(scope.b), compiled_body()))
    );
    assert_eq!(
        compile_in(&mut scope, syntax::Statement::If(var(0, "b"), body(), None)),
        Ok(Statement::If(BooleanExpression::Reference(scope.b), compiled_body(), None))
    );
    assert_eq!(
        compile_in(
            &mut scope,
            syntax::Statement::If(var(0, "b"), body(), Some(Box::new(syntax::Statement::Break)))
        ),
        Ok(Statement::If(
            BooleanExpression::Reference(scope.b),
            compiled_body(),
            Some(Box::new(Statement::Break))
        ))
    );
    assert_eq!(
        compile_in(&mut scope, syntax::Statement::While(var(0, "r"), body())),
        Err(Error::TypeMismatchCond(place(0), Type::Real))
    );
    assert_eq!(
        compile_in(&mut scope, syntax::Statement::If(var(0, "t"), body(), None)),
        Err(Error::TypeMismatchCond(place(0), Type::String))
    );
    assert_eq!(
        compile_in(&mut scope, syntax::Statement::If(var(0, "s"), body(), None)),
        Err(Error::TypeMismatchCond(place(0), Type::Sound))
    );
    assert_eq!(
        compile_in(&mut scope, syntax::Statement::While(var(0, "q"), body())),
        Err(Error::UndefinedVariable("q".to_string(), place(0)))
    );
    let declaring = |name: &str| {
        Box::new(syntax::Statement::Declaration(place(8), name.to_string(), num(0, 1.0)))
    };
    assert!(compile_in(&mut scope, syntax::Statement::While(var(0, "b"), declaring("inner"))).is_ok());
    assert_eq!(find_variable(&scope.variables, &"inner".to_string()), None);
    let uses_then = Box::new(syntax::Statement::Expression(Some(var(1, "then"))));
    assert_eq!(
        compile_in(&mut scope, syntax::Statement::If(var(0, "b"), declaring("then"), Some(uses_then))),
        Err(Error::UndefinedVariable("then".to_string(), place(1)))
    );
}

#[test]
fn the_other_statements_compile_as_they_are() {
    let mut scope = scope();
    assert_eq!(
        compile_in(&mut scope, syntax::Statement::Expression(None)),
        Ok(Statement::Expression(None))
    );
    assert_eq!(
        compile_in(&mut scope, syntax::Statement::Expression(Some(num(0, 1.0)))),
        Ok(Statement::Expression(Some(Expression::Real(constant(1.0)))))
    );
    assert_eq!(compile_in(&mut scope, syntax::Statement::Break), Ok(Statement::Break));
    assert_eq!(compile_in(&mut scope, syntax::Statement::Continue), Ok(Statement::Continue));
    assert_eq!(
        compile_in(&mut scope, syntax::Statement::Return(place(3), Some(num(0, 1.0)))),
        Err(Error::ReturnOutsideFunction(place(3)))
    );
    assert_eq!(
        compile_in(&mut scope, syntax::Statement::Return(place(4), None)),
        Err(Error::ReturnOutsideFunction(place(4)))
    );
}

#[test]
fn functions_are_made_with_cells_of_their_own() {
    let mut store = Store::new();
    let one = Function::primitive_real_1(Operation::Cos, &mut store);
    let two = Function::primitive_real_2(Operation::Min, &mut store);
    let sine = Function::sin(&mut store);
    let ramp = Function::linear(&mut store);
    let grow = Function::exp(&mut store);
    let write = Function::write(&mut store);
    assert_eq!(one.body, Body::Real(RealFunction::Primitive1(Operation::Cos, 0)));
    assert_eq!(one.arguments, List::from_vec(vec![Value::Real(0)]));
    assert_eq!(two.body, Body::Real(RealFunction::Primitive2(Operation::Min, 1, 2)));
    assert_eq!(two.arguments, List::from_vec(vec![Value::Real(1), Value::Real(2)]));
    assert_eq!(sine.body, Body::Sound(SoundFunction::Sin(3)));
    assert_eq!(ramp.body, Body::Sound(SoundFunction::Linear(4, 5)));
    assert_eq!(ramp.arguments, List::from_vec(vec![Value::Real(4)]));
    assert_eq!(
        ramp.named_arguments,
        List::from_vec(vec![("t".to_string(), Argument::Real(5, constant(1.0)))])
    );
    assert_eq!(grow.body, Body::Sound(SoundFunction::Exp(6)));
    assert_eq!(write.body, Body::Void(VoidFunction::Write(0, 7, 0)));
    assert_eq!(
        write.arguments,
        List::from_vec(vec![Value::Sound(0), Value::Real(7), Value::String(0)])
    );
    assert_eq!(one.body.ty(), Type::Real);
    assert_eq!(write.body.ty(), Type::Void);
    for value in [Value::Real(7), Value::Sound(0), Value::String(0)] {
        assert!(store.has(value));
    }
    assert!(!store.has(Value::Real(8)));
    assert!(!store.has(Value::Boolean(0)));
}

#[test]
fn typed_expressions_can_be_copied() {
    let scope = scope();
    let sources = vec![
        call_named(2, "Linear", vec![var(0, "r")], vec![("t", num(1, 2.0))]),
        call(2, "min", vec![var(0, "s"), node(1, Node::Minus(boxed(var(0, "r"))))]),
        node(2, Node::Add(boxed(text(0, "a")), boxed(node(1, Node::Print(boxed(var(0, "t"))))))),
        node(3, Node::Or(
            boxed(node(2, Node::Less(boxed(var(0, "r")), boxed(num(1, 1.0))))),
            boxed(node(2, Node::NotEqual(boxed(var(0, "t")), boxed(text(1, "x"))))),
        )),
        node(2, Node::LeftShift(boxed(var(0, "s")), boxed(node(1, Node::Reciprocal(boxed(num(0, 2.0))))))),
    ];
    for source in sources {
        match compile_expression(source, &scope.variables, &scope.functions).unwrap().0 {
            Expression::Real(a) => assert_eq!(a.duplicate(), a),
            Expression::Boolean(a) => assert_eq!(a.duplicate(), a),
            Expression::Sound(a) => assert_eq!(a.duplicate(), a),
            Expression::String(a) => assert_eq!(a.duplicate(), a),
            Expression::Void(_) => panic!("void"),
        }
    }
}

#[test]
fn a_compiled_expression_is_taken_by_its_type() {
    let placed = |expression: Expression| Some((expression, place(0)));
    let real = || Expression::Real(constant(1.0));
    let boolean = || Expression::Boolean(BooleanExpression::Reference(0));
    let sound = || Expression::Sound(SoundExpression::Reference(0));
    let string = || Expression::String(StringExpression::Reference(0));
    assert_eq!(RealExpression::from(placed(real())), Ok(constant(1.0)));
    assert_eq!(RealExpression::from(placed(sound())), Err(placed(sound())));
    assert_eq!(RealExpression::from(None), Err(None));
    assert_eq!(BooleanExpression::from(placed(boolean())), Ok(BooleanExpression::Reference(0)));
    assert_eq!(BooleanExpression::from(placed(real())), Err(placed(real())));
    assert_eq!(SoundExpression::from(placed(sound())), Ok(SoundExpression::Reference(0)));
    assert_eq!(SoundExpression::from(placed(real())), Ok(SoundExpression::Real(constant(1.0))));
    assert_eq!(SoundExpression::from(placed(string())), Err(placed(string())));
    assert_eq!(StringExpression::from(placed(string())), Ok(StringExpression::Reference(0)));
    assert_eq!(StringExpression::from(placed(boolean())), Err(placed(boolean())));
    assert_eq!(VoidExpression::from(None), Ok(VoidExpression::Const));
    assert_eq!(VoidExpression::from(placed(real())), Err(placed(real())));
}

#[test]
fn a_session_starts_with_its_names_and_no_others() {
    let environment = Environment::new();
    assert_eq!(environment.variables.len(), 7);
    assert_eq!(environment.functions.len(), 12);
    for name in ["true", "false", "PI", "E", "Begin", "End", "Rand"] {
        assert!(find_variable(&environment.variables, &name.to_string()).is_some(), "{name}");
        assert!(find_function(&environment.functions, &name.to_string()).is_none(), "{name}");
    }
    for name in
        ["sqrt", "sin", "cos", "tan", "exp", "log", "max", "min", "Sin", "Linear", "Exp", "write"]
    {
        assert!(find_function(&environment.functions, &name.to_string()).is_some(), "{name}");
        assert!(find_variable(&environment.variables, &name.to_string()).is_none(), "{name}");
    }
    for name in ["", "pi", "e", "True", "begin", "rand", "Write", "abs", "x", "surplus"] {
        assert!(find_variable(&environment.variables, &name.to_string()).is_none(), "{name}");
        assert!(find_function(&environment.functions, &name.to_string()).is_none(), "{name}");
    }
    assert_eq!(environment.output.len(), 0);
}
