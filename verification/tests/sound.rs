use soundlang::environment::Environment;
use soundlang::function::RealFunction;
use soundlang::list::List;
use soundlang::number::{Operation, Real};
use soundlang::output::Effect;
use soundlang::pos::Range;
use soundlang::sound::{Argument, Phasor, Sound, SoundIter};
use soundlang::store::Store;
use soundlang::syntax;
use soundlang::syntax::Node;
use std::f64::consts::TAU;

const RATE: f64 = 44100.0;

fn bits(value: f64) -> Real {
    Real::from_bits(value.to_bits())
}

fn float(value: Real) -> f64 {
    f64::from_bits(value.to_bits())
}

fn sound_arithmetic(op: Operation, a: Real, b: Real) -> Real {
    let x = float(a);
    let y = float(b);
    bits(match op {
        Operation::FromInteger => (a.bits as i64) as f64,
        Operation::Reciprocal => x.recip(),
        Operation::Add => x + y,
        Operation::Subtract => x - y,
        Operation::Multiply => x * y,
        Operation::Divide => x / y,
        Operation::Remainder => x % y,
        Operation::Power => x.powf(y),
        Operation::Sqrt => x.sqrt(),
        Operation::Sin => x.sin(),
        Operation::Cos => x.cos(),
        Operation::Tan => x.tan(),
        Operation::Exp => x.exp(),
        Operation::Log => x.ln(),
        Operation::Max => x.max(y),
        Operation::Min => x.min(y),
    })
}

fn e(node: Node) -> syntax::Expression {
    syntax::Expression::new(Range::new_single_line(0, 0, None), node)
}

fn b(node: Node) -> Box<syntax::Expression> {
    Box::new(e(node))
}

fn num(value: f64) -> Node {
    Node::Number(bits(value))
}

fn var(name: &str) -> Node {
    Node::Identifier(name.to_string())
}

fn call(name: &str, arguments: Vec<Node>) -> Node {
    Node::Invocation(
        name.to_string(),
        List::from_vec(arguments.into_iter().map(e).collect()),
        List::new(),
    )
}

fn call_named(name: &str, arguments: Vec<Node>, named: Vec<(&str, Node)>) -> Node {
    Node::Invocation(
        name.to_string(),
        List::from_vec(arguments.into_iter().map(e).collect()),
        List::from_vec(named.into_iter().map(|(name, value)| (name.to_string(), e(value))).collect()),
    )
}

/// The sound that an expression gives in a new session, and the cells of
/// that session.
fn sound_of(node: Node) -> (Sound, Store) {
    let mut environment = Environment::new();
    let write = call("write", vec![node, num(1.0), Node::String("out.wav".to_string())]);
    environment
        .run(syntax::Statement::Expression(Some(e(write))), &sound_arithmetic, 0)
        .unwrap();
    let mut effects = environment.output.take();
    assert_eq!(effects.len(), 1);
    match effects.remove(0) {
        Effect::Write { sound, seconds, path } => {
            assert_eq!(float(seconds), 1.0);
            assert_eq!(path, "out.wav");
            (sound, environment.store)
        }
        other => panic!("{other:?}"),
    }
}

fn samples_with(sound: Sound, store: &mut Store, count: usize, draws: &Vec<Real>) -> Vec<f64> {
    let mut iter = sound.iter(bits(RATE), &sound_arithmetic);
    (0..count).map(|_| float(iter.next(&sound_arithmetic, store, draws))).collect()
}

fn samples(sound: Sound, count: usize) -> Vec<f64> {
    samples_with(sound, &mut Store::new(), count, &Vec::new())
}

fn linear(slope: f64, intercept: f64) -> Sound {
    Sound::Linear { slope: bits(slope), intercept: bits(intercept) }
}

fn sine(frequency: f64, phase: f64) -> Sound {
    Sound::Sin { frequency: bits(frequency), phase: bits(phase) }
}

fn exponential(slope: f64, intercept: f64) -> Sound {
    Sound::Exp { slope: bits(slope), intercept: bits(intercept) }
}

fn shift(sound: Sound, t: f64) -> Sound {
    sound.shift(bits(t), &sound_arithmetic)
}

#[test]
fn sine_generator_render() {
    let (sound, mut store) = sound_of(call("Sin", vec![num(440.0)]));
    assert_eq!(sound, sine(440.0, 0.0));
    let count = (1.0 * RATE) as usize;
    assert_eq!(count, 44100);
    let rendered = samples_with(sound, &mut store, count, &Vec::new());
    assert_eq!(rendered.len(), 44100);
    let full_scale = i32::MAX as f64;
    for (n, sample) in rendered.iter().enumerate() {
        let expected = (TAU * 440.0 * n as f64 / RATE).sin();
        assert!((sample - expected).abs() <= 1e-6, "sample {n}: {sample} for {expected}");
        let written = (full_scale * sample) as i32;
        assert!(
            (written as f64 - full_scale * expected).abs() <= 1e-6 * full_scale,
            "sample {n}: {written}"
        );
    }
}

#[test]
fn scalar_to_signal_lifting() {
    let inside = Node::Add(b(call("Sin", vec![num(1.0)])), b(num(1.0001)));
    let (sound, mut store) = sound_of(call("sqrt", vec![inside]));
    let rendered = samples_with(sound, &mut store, 44100, &Vec::new());
    for (n, sample) in rendered.iter().enumerate() {
        let expected = ((TAU * n as f64 / RATE).sin() + 1.0001).sqrt();
        assert!((sample - expected).abs() <= 1e-9, "sample {n}: {sample} for {expected}");
    }
}

#[test]
fn generators_give_their_value_at_each_sample_time() {
    assert_eq!(samples(Sound::Const(bits(0.25)), 3), vec![0.25, 0.25, 0.25]);
    for (n, sample) in samples(linear(2.0, -1.0), 1000).into_iter().enumerate() {
        assert_eq!(sample, -1.0 + 2.0 / RATE * n as f64);
    }
    for (n, sample) in samples(exponential(-3.0, 0.5), 1000).into_iter().enumerate() {
        assert_eq!(sample, (0.5 + -3.0 / RATE * n as f64).exp());
    }
    for (n, sample) in samples(sine(1000.0, 0.5), 1000).into_iter().enumerate() {
        let expected = (TAU * 1000.0 * n as f64 / RATE + 0.5).sin();
        assert!((sample - expected).abs() <= 1e-9, "sample {n}");
    }
    let begin = samples(Sound::Begin(bits(3.5 / RATE)), 6);
    assert_eq!(begin, vec![0.0, 0.0, 0.0, 1.0, 1.0, 1.0]);
    let end = samples(Sound::End(bits(2.0 / RATE)), 5);
    assert_eq!(end, vec![1.0, 1.0, 0.0, 0.0, 0.0]);
    assert_eq!(samples(Sound::Begin(bits(0.0)), 2), vec![1.0, 1.0]);
    assert_eq!(samples(Sound::End(bits(0.0)), 2), vec![0.0, 0.0]);
    assert_eq!(samples(Sound::Begin(bits(-1.0)), 2), vec![1.0, 1.0]);
    assert_eq!(samples(Sound::End(bits(-1.0)), 2), vec![0.0, 0.0]);
}

#[test]
fn the_stream_of_a_generator_starts_at_time_zero() {
    let calc = sound_arithmetic;
    assert_eq!(Sound::Const(bits(2.0)).iter(bits(RATE), &calc), SoundIter::Const(bits(2.0)));
    assert_eq!(
        linear(441.0, 7.0).iter(bits(RATE), &calc),
        SoundIter::Linear { first: bits(7.0), difference: bits(0.01), counter: 0 }
    );
    assert_eq!(
        exponential(441.0, 7.0).iter(bits(RATE), &calc),
        SoundIter::Exp { first: bits(7.0), difference: bits(0.01), counter: 0 }
    );
    assert_eq!(
        sine(0.0, 0.0).iter(bits(RATE), &calc),
        SoundIter::Sin {
            next: Phasor { re: bits(1.0), im: bits(0.0) },
            ratio: Phasor { re: bits(1.0), im: bits(0.0) }
        }
    );
    assert_eq!(Sound::Begin(bits(1.0)).iter(bits(RATE), &calc), SoundIter::Begin(44100));
    assert_eq!(Sound::End(bits(0.5)).iter(bits(RATE), &calc), SoundIter::End(22050));
    assert_eq!(Sound::Begin(bits(-0.5)).iter(bits(RATE), &calc), SoundIter::Begin(-22050));
    assert_eq!(Sound::Rand.iter(bits(RATE), &calc), SoundIter::Rand);
    assert_eq!(
        Sound::Minus(Box::new(Sound::Rand)).iter(bits(RATE), &calc),
        SoundIter::Minus(Box::new(SoundIter::Rand))
    );
}

#[test]
fn combinators_work_sample_by_sample() {
    let a = || Box::new(linear(RATE, 1.0));
    let c = || Box::new(Sound::Const(bits(4.0)));
    assert_eq!(samples(Sound::Add(a(), c()), 3), vec![5.0, 6.0, 7.0]);
    assert_eq!(samples(Sound::Sub(a(), c()), 3), vec![-3.0, -2.0, -1.0]);
    assert_eq!(samples(Sound::Mul(a(), c()), 3), vec![4.0, 8.0, 12.0]);
    assert_eq!(samples(Sound::Div(a(), c()), 3), vec![0.25, 0.5, 0.75]);
    assert_eq!(samples(Sound::Rem(c(), a()), 4), vec![0.0, 0.0, 1.0, 0.0]);
    assert_eq!(samples(Sound::Pow(a(), c()), 3), vec![1.0, 16.0, 81.0]);
    assert_eq!(samples(Sound::Minus(a()), 3), vec![-1.0, -2.0, -3.0]);
    assert_eq!(samples(Sound::Reciprocal(a()), 3), vec![1.0, 0.5, 1.0 / 3.0]);
}

#[test]
fn every_sample_is_clamped_to_the_finite_range() {
    let ramp = || Box::new(linear(RATE, 0.0));
    assert_eq!(samples(Sound::Reciprocal(ramp()), 2), vec![f64::MAX, 1.0]);
    assert_eq!(samples(Sound::Minus(Box::new(Sound::Reciprocal(ramp()))), 2), vec![f64::MIN, -1.0]);
    assert_eq!(samples(Sound::Const(bits(f64::INFINITY)), 1), vec![f64::MAX]);
    assert_eq!(samples(exponential(0.0, 1e6), 1), vec![f64::MAX]);
    let huge = || Box::new(Sound::Const(bits(f64::MAX)));
    assert_eq!(samples(Sound::Add(huge(), huge()), 1), vec![f64::MAX]);
    assert!(samples(Sound::Div(ramp(), ramp()), 1)[0].is_nan());
}

#[test]
fn a_shifted_sound_has_the_value_of_the_sound_later() {
    let sounds = || {
        vec![
            Sound::Const(bits(0.5)),
            linear(3.0, -1.0),
            sine(440.0, 0.25),
            sine(0.5, 0.0),
            exponential(-2.0, 0.0),
            Sound::Begin(bits(0.01)),
            Sound::End(bits(0.02)),
            Sound::Add(Box::new(linear(1.0, 0.0)), Box::new(sine(100.0, 0.0))),
            Sound::Mul(
                Box::new(Sound::Minus(Box::new(exponential(-1.0, 0.0)))),
                Box::new(Sound::Reciprocal(Box::new(linear(1.0, 1.0)))),
            ),
            Sound::Pow(
                Box::new(Sound::Sub(Box::new(Sound::Const(bits(2.0))), Box::new(Sound::End(bits(0.005))))),
                Box::new(Sound::Div(Box::new(linear(1.0, 1.0)), Box::new(Sound::Const(bits(2.0))))),
            ),
            Sound::Rem(Box::new(linear(100.0, 0.0)), Box::new(Sound::Const(bits(1.5)))),
        ]
    };
    for ahead in [0usize, 1, 64, 441] {
        let delta = ahead as f64 / RATE;
        for (k, sound) in sounds().into_iter().enumerate() {
            let plain = samples(sound, 1500);
            let shifted = samples(shift(sounds().remove(k), delta), 1000);
            for n in 0..1000 {
                assert!(
                    (shifted[n] - plain[n + ahead]).abs() <= 1e-9,
                    "sound {k} shifted by {ahead} samples, sample {n}: {} for {}",
                    shifted[n],
                    plain[n + ahead]
                );
            }
        }
    }
    for (k, sound) in sounds().into_iter().enumerate() {
        let plain = samples(sound, 1000);
        let shifted = samples(shift(sounds().remove(k), -64.0 / RATE), 1064);
        for n in 0..1000 {
            assert!((shifted[n + 64] - plain[n]).abs() <= 1e-9, "sound {k}, sample {n}");
        }
    }
}

#[test]
fn a_shift_goes_into_the_parameters_of_the_generators() {
    assert_eq!(shift(Sound::Const(bits(2.0)), 3.0), Sound::Const(bits(2.0)));
    assert_eq!(shift(linear(2.0, 1.0), 3.0), linear(2.0, 7.0));
    assert_eq!(shift(exponential(2.0, 1.0), -3.0), exponential(2.0, -5.0));
    assert_eq!(shift(sine(2.0, 1.0), 3.0), sine(2.0, TAU * 2.0 * 3.0 + 1.0));
    assert_eq!(shift(Sound::Begin(bits(5.0)), 3.0), Sound::Begin(bits(2.0)));
    assert_eq!(shift(Sound::End(bits(5.0)), -3.0), Sound::End(bits(8.0)));
    assert_eq!(shift(Sound::Rand, 3.0), Sound::Rand);
    let function = RealFunction::Primitive1(Operation::Sqrt, 0);
    let applied = |sound: Sound| {
        Sound::Apply(
            function,
            List::from_vec(vec![Argument::Real(1, bits(9.0)), Argument::Sound(0, linear(1.0, 0.0))]),
            List::from_vec(vec![(0, sound), (2, Sound::Rand)]),
        )
    };
    assert_eq!(shift(applied(linear(2.0, 1.0)), 3.0), applied(linear(2.0, 7.0)));
}

#[test]
fn two_shifts_are_one_shift_by_the_sum() {
    let sound = || {
        Sound::Add(
            Box::new(Sound::Mul(Box::new(linear(0.5, 4.0)), Box::new(exponential(-2.0, 0.25)))),
            Box::new(Sound::Sub(
                Box::new(Sound::Begin(bits(1.5))),
                Box::new(Sound::Apply(
                    RealFunction::Primitive2(Operation::Max, 0, 1),
                    List::from_vec(vec![Argument::Real(1, bits(0.0))]),
                    List::from_vec(vec![(0, Sound::End(bits(8.0))), (0, Sound::Rand)]),
                )),
            )),
        )
    };
    for (first, second) in [(0.5, 0.25), (-2.0, 0.75), (1024.0, -1024.0), (0.0, 3.0)] {
        assert_eq!(shift(shift(sound(), first), second), shift(sound(), first + second));
    }
    let once = samples(shift(sine(440.0, 0.0), 0.3), 500);
    let twice = samples(shift(shift(sine(440.0, 0.0), 0.1), 0.2), 500);
    for n in 0..500 {
        assert!((once[n] - twice[n]).abs() <= 1e-9, "sample {n}");
    }
}

#[test]
fn shift_operators_move_a_sound_earlier_and_later() {
    let ramp = || call("Linear", vec![num(2.0)]);
    assert_eq!(sound_of(ramp()).0, linear(2.0, 0.0));
    assert_eq!(sound_of(Node::LeftShift(b(ramp()), b(num(0.5)))).0, linear(2.0, 1.0));
    assert_eq!(sound_of(Node::RightShift(b(ramp()), b(num(0.5)))).0, linear(2.0, -1.0));
    assert_eq!(
        sound_of(Node::LeftShift(b(ramp()), b(num(0.5)))).0,
        shift(linear(2.0, 0.0), 0.5)
    );
    assert_eq!(
        sound_of(Node::RightShift(b(ramp()), b(num(0.5)))).0,
        shift(linear(2.0, 0.0), -0.5)
    );
    assert_eq!(sound_of(Node::RightShift(b(var("Begin")), b(num(2.0)))).0, Sound::Begin(bits(2.0)));
    assert_eq!(sound_of(Node::LeftShift(b(var("End")), b(num(2.0)))).0, Sound::End(bits(-2.0)));
    let delayed = samples(sound_of(Node::RightShift(b(var("Begin")), b(num(2.0 / RATE)))).0, 4);
    assert_eq!(delayed, vec![0.0, 0.0, 1.0, 1.0]);
}

#[test]
fn a_real_beside_a_sound_is_a_constant_sound() {
    let sum = sound_of(Node::Add(b(call("Sin", vec![num(100.0)])), b(num(0.5)))).0;
    assert_eq!(
        sum,
        Sound::Add(Box::new(sine(100.0, 0.0)), Box::new(Sound::Const(bits(0.5))))
    );
    let plain = samples(sine(100.0, 0.0), 300);
    for (n, sample) in samples(sum, 300).into_iter().enumerate() {
        assert_eq!(sample, plain[n] + 0.5);
    }
    let product = sound_of(Node::Mul(b(num(2.0)), b(var("Rand")))).0;
    assert_eq!(product, Sound::Mul(Box::new(Sound::Const(bits(2.0))), Box::new(Sound::Rand)));
    let power = sound_of(Node::Pow(b(var("Begin")), b(Node::Add(b(num(1.0)), b(num(1.0)))))).0;
    assert_eq!(
        power,
        Sound::Pow(Box::new(Sound::Begin(bits(0.0))), Box::new(Sound::Const(bits(2.0))))
    );
}

#[test]
fn the_generators_of_the_prelude_take_their_parameters() {
    assert_eq!(sound_of(call("Sin", vec![num(440.0)])).0, sine(440.0, 0.0));
    assert_eq!(sound_of(call("Exp", vec![num(0.5)])).0, exponential(2.0, 0.0));
    assert_eq!(sound_of(call("Linear", vec![num(3.0)])).0, linear(3.0, 0.0));
    assert_eq!(
        sound_of(call_named("Linear", vec![num(3.0)], vec![("t", num(2.0))])).0,
        linear(1.5, 0.0)
    );
    assert_eq!(
        sound_of(call_named("Linear", vec![num(3.0)], vec![("t", num(2.0)), ("t", num(4.0))])).0,
        linear(0.75, 0.0)
    );
    assert_eq!(sound_of(call("Linear", vec![num(5.0)])).0, linear(5.0, 0.0));
    assert_eq!(sound_of(var("Begin")).0, Sound::Begin(bits(0.0)));
    assert_eq!(sound_of(var("End")).0, Sound::End(bits(0.0)));
    assert_eq!(sound_of(var("Rand")).0, Sound::Rand);
    assert_eq!(sound_of(Node::Print(b(var("Rand")))).0, Sound::Rand);
    assert_eq!(
        sound_of(Node::Minus(b(Node::Reciprocal(b(var("Rand")))))).0,
        Sound::Minus(Box::new(Sound::Reciprocal(Box::new(Sound::Rand))))
    );
}

#[test]
fn the_random_sound_takes_the_numbers_handed_in() {
    let draws = vec![bits(0.25), bits(0.5), bits(0.75)];
    let sum = Sound::Add(
        Box::new(Sound::Rand),
        Box::new(Sound::Mul(Box::new(Sound::Const(bits(10.0))), Box::new(Sound::Rand))),
    );
    let mut iter = sum.iter(bits(RATE), &sound_arithmetic);
    assert_eq!(iter.randoms(), 2);
    let mut store = Store::new();
    assert_eq!(float(iter.next(&sound_arithmetic, &mut store, &draws)), 0.25 + 10.0 * 0.5);
    let later = vec![bits(0.125)];
    assert_eq!(float(iter.next(&sound_arithmetic, &mut store, &later)), 0.125);
    assert_eq!(float(iter.next(&sound_arithmetic, &mut store, &Vec::new())), 0.0);
    assert_eq!(samples(Sound::Rand, 2), vec![0.0, 0.0]);
    assert_eq!(Sound::Const(bits(1.0)).iter(bits(RATE), &sound_arithmetic).randoms(), 0);
    let applied = Sound::Apply(
        RealFunction::Primitive1(Operation::Sqrt, 0),
        List::new(),
        List::from_vec(vec![(0, Sound::Rand), (0, Sound::Minus(Box::new(Sound::Rand)))]),
    );
    assert_eq!(applied.iter(bits(RATE), &sound_arithmetic).randoms(), 2);
    let (advanced, rest, used) =
        Sound::Rand.iter(bits(RATE), &sound_arithmetic).advance(&sound_arithmetic, &mut store, &draws, 2);
    assert_eq!((float(advanced), rest, used), (0.75, SoundIter::Rand, 3));
}

#[test]
fn an_applied_function_takes_one_sample_of_each_sound() {
    let mut store = Store::new();
    let x = store.new_real();
    let y = store.new_real();
    let applied = Sound::Apply(
        RealFunction::Primitive2(Operation::Max, x, y),
        List::new(),
        List::from_vec(vec![(x, linear(RATE, 0.0)), (y, Sound::Const(bits(1.5)))]),
    );
    let mut iter = applied.iter(bits(RATE), &sound_arithmetic);
    let mut taken = Vec::new();
    for _ in 0..4 {
        taken.push(float(iter.next(&sound_arithmetic, &mut store, &Vec::new())));
    }
    assert_eq!(taken, vec![1.5, 1.5, 2.0, 3.0]);
    assert_eq!(float(store.read_real(x)), 3.0);
    assert_eq!(float(store.read_real(y)), 1.5);
    match iter {
        SoundIter::Apply(_, _, List::Cons(first, _)) => assert_eq!(
            first.1,
            SoundIter::Linear { first: bits(0.0), difference: bits(1.0), counter: 4 }
        ),
        other => panic!("{other:?}"),
    }
    let fixed = Sound::Apply(
        RealFunction::Primitive2(Operation::Min, x, y),
        List::from_vec(vec![Argument::Real(y, bits(2.0))]),
        List::from_vec(vec![(x, linear(RATE, 0.0))]),
    );
    store.write_real(y, bits(-100.0));
    assert_eq!(samples_with(fixed, &mut store, 4, &Vec::new()), vec![0.0, 1.0, 2.0, 2.0]);
    let (lifted, mut cells) = sound_of(call("max", vec![call("Linear", vec![num(RATE)]), num(1.5)]));
    assert_eq!(samples_with(lifted, &mut cells, 4, &Vec::new()), vec![1.5, 1.5, 2.0, 3.0]);
    let (both, mut cells) =
        sound_of(call("min", vec![call("Linear", vec![num(RATE)]), var("Begin")]));
    assert_eq!(samples_with(both, &mut cells, 3, &Vec::new()), vec![0.0, 1.0, 1.0]);
}

#[test]
fn two_streams_of_one_sound_give_the_same_samples() {
    let sound = || Sound::Mul(Box::new(sine(330.0, 0.1)), Box::new(exponential(-4.0, 0.0)));
    assert_eq!(samples(sound(), 2000), samples(sound(), 2000));
    assert_eq!(sound().duplicate(), sound());
}
