use theme_env::env::{Env, EnvError, Key};
use theme_env::value::{Color, Fixed, Value, ValueKind};

fn text(s: &str) -> Value {
    Value::Text(s.to_string())
}

#[test]
fn empty_environment_misses_every_key() {
    let env = Env::new();
    let key = Key::new("label_color", ValueKind::Color);
    assert_eq!(env.get(&key), Err(EnvError::MissingKey));
}

#[test]
fn added_value_is_found() {
    let key = Key::new("font_name", ValueKind::Text);
    let env = Env::new().adding(&key, text("Arial"));
    assert_eq!(env.get(&key), Ok(text("Arial")));
}

#[test]
fn every_added_pair_is_found() {
    let a = Key::new("a", ValueKind::Count);
    let b = Key::new("b", ValueKind::Number);
    let c = Key::new("c", ValueKind::Color);
    let env = Env::new()
        .adding(&a, Value::Count(7))
        .adding(&b, Value::Number(Fixed::from_thousandths(-250)))
        .adding(&c, Value::Color(Color::rgba8(1, 2, 3, 4)));
    assert_eq!(env.get(&a), Ok(Value::Count(7)));
    assert_eq!(env.get(&b), Ok(Value::Number(Fixed { thousandths: -250 })));
    assert_eq!(env.get(&c), Ok(Value::Color(Color { r: 1, g: 2, b: 3, a: 4 })));
}

#[test]
fn later_adding_wins() {
    let key = Key::new("scrollbar_fade_time", ValueKind::Count);
    let env = Env::new()
        .adding(&key, Value::Count(1500))
        .adding(&key, Value::Count(300));
    assert_eq!(env.get(&key), Ok(Value::Count(300)));
}

#[test]
fn never_inserted_key_is_missing() {
    let present = Key::new("border", ValueKind::Color);
    let absent = Key::new("border_light", ValueKind::Color);
    let env = Env::new().adding(&present, Value::Color(Color::black()));
    assert_eq!(env.get(&absent), Err(EnvError::MissingKey));
}

#[test]
fn shared_name_with_other_type_is_a_mismatch() {
    let as_number = Key::new("shared", ValueKind::Number);
    let as_color = Key::new("shared", ValueKind::Color);
    assert!(as_number.same_entry(&as_color));
    let env = Env::new().adding(&as_number, Value::Number(Fixed::from_units(2)));
    assert_eq!(env.get(&as_color), Err(EnvError::TypeMismatch));
    assert_eq!(env.get(&as_number), Ok(Value::Number(Fixed { thousandths: 2000 })));
}

#[test]
fn extending_leaves_earlier_environment_unchanged() {
    let key = Key::new("text_size_normal", ValueKind::Number);
    let other = Key::new("text_size_large", ValueKind::Number);
    let earlier = Env::new().adding(&key, Value::Number(Fixed::from_units(15)));
    let later = earlier
        .adding(&key, Value::Number(Fixed::from_units(20)))
        .adding(&other, Value::Number(Fixed::from_units(24)));
    assert_eq!(earlier.get(&key), Ok(Value::Number(Fixed::from_units(15))));
    assert_eq!(earlier.get(&other), Err(EnvError::MissingKey));
    assert_eq!(later.get(&key), Ok(Value::Number(Fixed::from_units(20))));
}

#[test]
fn keys_with_different_names_are_different_entries() {
    let a = Key::new("primary_light", ValueKind::Color);
    let b = Key::new("primary_dark", ValueKind::Color);
    assert!(!a.same_entry(&b));
}

#[test]
fn colors_and_numbers_hold_exact_values() {
    assert_eq!(Color::rgb8(0x5c, 0xc4, 0xff), Color { r: 0x5c, g: 0xc4, b: 0xff, a: 255 });
    assert_eq!(Color::black(), Color { r: 0, g: 0, b: 0, a: 255 });
    assert_eq!(Color::white(), Color { r: 255, g: 255, b: 255, a: 255 });
    assert_eq!(Fixed::from_units(24).thousandths, 24000);
    assert_eq!(Fixed::from_units(-3).thousandths, -3000);
}

#[test]
fn value_kinds_and_copies() {
    let v = text("Segoe UI");
    assert_eq!(v.kind(), ValueKind::Text);
    assert_eq!(v.duplicate(), text("Segoe UI"));
    assert_eq!(Value::Count(1).kind(), ValueKind::Count);
    assert_eq!(Value::Color(Color::white()).kind(), ValueKind::Color);
    assert_eq!(Value::Number(Fixed::from_units(1)).kind(), ValueKind::Number);
}
