use soundlang::list::{same_length, List};
use soundlang::number::Real;
use soundlang::output::{Effect, Output};
use soundlang::sound::Sound;
use soundlang::store::Store;
use soundlang::types::Type;
use soundlang::value::Value;

#[test]
fn a_new_cell_holds_the_empty_value() {
    let mut store = Store::new();
    assert_eq!(store.new_real(), 0);
    assert_eq!(store.new_real(), 1);
    assert_eq!(store.new_boolean(), 0);
    assert_eq!(store.new_sound(), 0);
    assert_eq!(store.new_string(), 0);
    assert_eq!(store.read_real(1), Real::zero());
    assert!(!store.read_boolean(0));
    assert_eq!(store.read_sound(0), Sound::Const(Real::zero()));
    assert_eq!(store.read_string(0), "");
}

#[test]
fn a_read_gives_what_was_last_written() {
    let mut store = Store::new();
    let a = store.new_real();
    let b = store.new_real();
    store.write_real(a, Real::from_bits(7));
    store.write_real(b, Real::from_bits(8));
    store.write_real(a, Real::from_bits(9));
    assert_eq!(store.read_real(a), Real::from_bits(9));
    assert_eq!(store.read_real(b), Real::from_bits(8));
    let flag = store.new_boolean();
    store.write_boolean(flag, true);
    assert!(store.read_boolean(flag));
    let text = store.new_string();
    store.write_string(text, "abc".to_string());
    assert_eq!(store.read_string(text), "abc");
    let sound = store.new_sound();
    store.write_sound(sound, Sound::Rand);
    assert_eq!(store.read_sound(sound), Sound::Rand);
}

#[test]
fn a_cell_that_does_not_exist_reads_empty_and_takes_no_write() {
    let mut store = Store::new();
    store.write_real(3, Real::one());
    store.write_boolean(3, true);
    store.write_string(3, "x".to_string());
    store.write_sound(3, Sound::Rand);
    assert_eq!(store, Store::new());
    assert_eq!(store.read_real(3), Real::zero());
    assert!(!store.read_boolean(3));
    assert_eq!(store.read_string(3), "");
    assert_eq!(store.read_sound(3), Sound::Const(Real::zero()));
    assert!(!store.has(Value::Real(0)));
    let cell = store.new_real();
    assert!(store.has(Value::Real(cell)));
    assert!(!store.has(Value::Boolean(cell)));
}

#[test]
fn a_handle_has_the_type_of_its_cell() {
    assert_eq!(Value::Real(0).ty(), Type::Real);
    assert_eq!(Value::Boolean(0).ty(), Type::Boolean);
    assert_eq!(Value::Sound(0).ty(), Type::Sound);
    assert_eq!(Value::String(0).ty(), Type::String);
    assert_eq!(Type::Real.name(), "real");
    assert_eq!(Type::Boolean.name(), "boolean");
    assert_eq!(Type::Sound.name(), "Sound");
    assert_eq!(Type::String.name(), "string");
    assert_eq!(Type::Void.name(), "void");
}

#[test]
fn output_keeps_the_effects_in_order() {
    let mut output = Output::new();
    assert_eq!(output.len(), 0);
    output.push(Effect::Boolean(true));
    output.push(Effect::Text("a".to_string()));
    assert_eq!(output.len(), 2);
    assert_eq!(output.take(), vec![Effect::Boolean(true), Effect::Text("a".to_string())]);
    assert_eq!(output.len(), 0);
    assert_eq!(output.take(), Vec::<Effect>::new());
}

#[test]
fn lists_keep_the_order_of_their_items() {
    let list = List::from_vec(vec![1, 2, 3]);
    assert_eq!(
        list,
        List::cons(1, List::cons(2, List::cons(3, List::new())))
    );
    assert_eq!(list.len(), 3);
    assert!(!list.is_empty());
    assert!(List::<u8>::new().is_empty());
    assert_eq!(List::<u8>::new().len(), 0);
    let longer = list.push(4);
    assert_eq!(longer, List::from_vec(vec![1, 2, 3, 4]));
    let joined = longer.append(List::from_vec(vec![5, 6]));
    assert_eq!(joined, List::from_vec(vec![1, 2, 3, 4, 5, 6]));
    assert!(same_length(&joined, &List::from_vec(vec!['a', 'b', 'c', 'd', 'e', 'f'])));
    assert!(!same_length(&joined, &List::from_vec(vec!['a'])));
    assert!(!same_length(&List::<u8>::new(), &joined));
    assert_eq!(List::<u8>::new().append(List::from_vec(vec![1])), List::from_vec(vec![1]));
}
