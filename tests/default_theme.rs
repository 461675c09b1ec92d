use theme_env::env::{EnvError, Key};
use theme_env::theme::{font_name, init, Platform, ThemeKey, THEME_KEY_COUNT};
use theme_env::value::{Color, Fixed, Value, ValueKind};

fn all_keys() -> Vec<ThemeKey> {
    (0..THEME_KEY_COUNT).map(ThemeKey::at).collect()
}

#[test]
fn other_platform_defaults() {
    let env = init(Platform::Other);
    assert_eq!(env.get(&ThemeKey::FontName.key()), Ok(Value::Text("sans-serif".to_string())));
    assert_eq!(env.get(&ThemeKey::ScrollbarFadeDelay.key()), Ok(Value::Count(1500)));
    assert_eq!(
        env.get(&ThemeKey::ButtonBorderRadius.key()),
        Ok(Value::Number(Fixed::from_thousandths(4000)))
    );
}

#[test]
fn font_name_follows_platform() {
    let font = Key::new("font_name", ValueKind::Text);
    assert_eq!(init(Platform::Windows).get(&font), Ok(Value::Text("Segoe UI".to_string())));
    assert_eq!(init(Platform::MacOs).get(&font), Ok(Value::Text("Arial".to_string())));
    assert_eq!(init(Platform::Other).get(&font), Ok(Value::Text("sans-serif".to_string())));
    assert_eq!(font_name(Platform::MacOs), "Arial");
}

#[test]
fn every_key_resolves_on_every_platform() {
    for p in [Platform::Windows, Platform::MacOs, Platform::Other] {
        let env = init(p);
        for k in all_keys() {
            let found = env.get(&k.key());
            assert_eq!(found, Ok(k.default_value(p)), "{:?}", k);
            assert_eq!(found.unwrap().kind(), k.value_kind());
        }
    }
}

#[test]
fn only_font_name_depends_on_platform() {
    let windows = init(Platform::Windows);
    let macos = init(Platform::MacOs);
    for k in all_keys() {
        if k != ThemeKey::FontName {
            assert_eq!(windows.get(&k.key()), macos.get(&k.key()), "{:?}", k);
        }
    }
}

#[test]
fn key_names_are_distinct() {
    let keys = all_keys();
    assert_eq!(keys.len(), 33);
    for (i, a) in keys.iter().enumerate() {
        for b in keys.iter().skip(i + 1) {
            assert_ne!(a, b);
            assert_ne!(a.name_str(), b.name_str());
        }
    }
}

#[test]
fn selected_default_values() {
    let env = init(Platform::Windows);
    assert_eq!(
        env.get(&ThemeKey::WindowBackgroundColor.key()),
        Ok(Value::Color(Color::rgb8(0x29, 0x29, 0x29)))
    );
    assert_eq!(env.get(&ThemeKey::ButtonDark.key()), Ok(Value::Color(Color::black())));
    assert_eq!(env.get(&ThemeKey::CursorColor.key()), Ok(Value::Color(Color::white())));
    assert_eq!(
        env.get(&ThemeKey::SelectionColor.key()),
        Ok(Value::Color(Color::rgb8(0xf3, 0x00, 0x21)))
    );
    assert_eq!(
        env.get(&ThemeKey::ScrollbarMaxOpacity.key()),
        Ok(Value::Number(Fixed::from_thousandths(700)))
    );
    assert_eq!(
        env.get(&ThemeKey::WideWidgetWidth.key()),
        Ok(Value::Number(Fixed::from_units(100)))
    );
    assert_eq!(ThemeKey::WideWidgetWidth.name_str(), "druid.widgets.long-widget-width");
    assert_eq!(ThemeKey::BorderDark.name_str(), "border");
}

#[test]
fn theme_key_with_wrong_type_is_a_mismatch() {
    let env = init(Platform::Other);
    let wrong = Key::new("scrollbar_fade_time", ValueKind::Number);
    assert_eq!(env.get(&wrong), Err(EnvError::TypeMismatch));
    let missing = Key::new("no_such_key", ValueKind::Number);
    assert_eq!(env.get(&missing), Err(EnvError::MissingKey));
}
