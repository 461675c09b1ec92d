use vstd::prelude::*;

use crate::env::{lookup, Env, EnvError, Key};
use crate::value::{Color, Fixed, Value, ValueKind, ValueView};

verus! {

/// The platform a theme is built for.
#[derive(Clone, Copy, Debug, PartialEq, Eq, Structural)]
pub enum Platform {
    Windows,
    MacOs,
    Other,
}

/// The default font name on each platform.
pub open spec fn font_for(p: Platform) -> Seq<char> {
    match p {
        Platform::Windows => "Segoe UI"@,
        Platform::MacOs => "Arial"@,
        Platform::Other => "sans-serif"@,
    }
}

/// An opaque colour as a stored value.
pub open spec fn opaque(r: u8, g: u8, b: u8) -> ValueView {
    ValueView::Color(Color { r, g, b, a: 255 })
}

/// A quantity in thousandths as a stored value.
pub open spec fn thousandths(t: i64) -> ValueView {
    ValueView::Number(Fixed { thousandths: t })
}

/// The number of keys in the default theme.
pub const THEME_KEY_COUNT: usize = 33;

/// The style keys of the default theme.
#[derive(Clone, Copy, Debug, PartialEq, Eq, Structural)]
pub enum ThemeKey {
    WindowBackgroundColor,
    LabelColor,
    PlaceholderColor,
    PrimaryLight,
    PrimaryDark,
    ProgressBarRadius,
    BackgroundLight,
    BackgroundDark,
    ForegroundLight,
    ForegroundDark,
    ButtonDark,
    ButtonLight,
    ButtonBorderRadius,
    ButtonBorderWidth,
    BorderDark,
    BorderLight,
    SelectionColor,
    CursorColor,
    TextSizeNormal,
    TextSizeLarge,
    BasicWidgetHeight,
    WideWidgetWidth,
    BorderedWidgetHeight,
    TextboxBorderRadius,
    ScrollbarColor,
    ScrollbarBorderColor,
    ScrollbarMaxOpacity,
    ScrollbarFadeDelay,
    ScrollbarWidth,
    ScrollbarPad,
    ScrollbarRadius,
    ScrollbarEdgeWidth,
    FontName,
}


impl ThemeKey {
    /// The name under which this key is stored.
    pub open spec fn name(self) -> Seq<char> {
        match self {
            ThemeKey::WindowBackgroundColor => "window_background_color"@,
            ThemeKey::LabelColor => "label_color"@,
            ThemeKey::PlaceholderColor => "placeholder_color"@,
            ThemeKey::PrimaryLight => "primary_light"@,
            ThemeKey::PrimaryDark => "primary_dark"@,
            ThemeKey::ProgressBarRadius => "progress_bar_radius"@,
            ThemeKey::BackgroundLight => "background_light"@,
            ThemeKey::BackgroundDark => "background_dark"@,
            ThemeKey::ForegroundLight => "foreground_light"@,
            ThemeKey::ForegroundDark => "foreground_dark"@,
            ThemeKey::ButtonDark => "button_dark"@,
            ThemeKey::ButtonLight => "button_light"@,
            ThemeKey::ButtonBorderRadius => "button_radius"@,
            ThemeKey::ButtonBorderWidth => "button_border_width"@,
            ThemeKey::BorderDark => "border"@,
            ThemeKey::BorderLight => "border_light"@,
            ThemeKey::SelectionColor => "selection_color"@,
            ThemeKey::CursorColor => "cursor_color"@,
            ThemeKey::TextSizeNormal => "text_size_normal"@,
            ThemeKey::TextSizeLarge => "text_size_large"@,
            ThemeKey::BasicWidgetHeight => "basic_widget_height"@,
            ThemeKey::WideWidgetWidth => "druid.widgets.long-widget-width"@,
            ThemeKey::BorderedWidgetHeight => "bordered_widget_height"@,
            ThemeKey::TextboxBorderRadius => "textbox_radius"@,
            ThemeKey::ScrollbarColor => "scrollbar_color"@,
            ThemeKey::ScrollbarBorderColor => "scrollbar_border_color"@,
            ThemeKey::ScrollbarMaxOpacity => "scrollbar_max_opacity"@,
            ThemeKey::ScrollbarFadeDelay => "scrollbar_fade_time"@,
            ThemeKey::ScrollbarWidth => "scrollbar_width"@,
            ThemeKey::ScrollbarPad => "scrollbar_pad"@,
            ThemeKey::ScrollbarRadius => "scrollbar_radius"@,
            ThemeKey::ScrollbarEdgeWidth => "scrollbar_edge_width"@,
            ThemeKey::FontName => "font_name"@,
        }
    }

    /// The type of value this key addresses.
    pub open spec fn kind(self) -> ValueKind {
        match self {
            ThemeKey::WindowBackgroundColor => ValueKind::Color,
            ThemeKey::LabelColor => ValueKind::Color,
            ThemeKey::PlaceholderColor => ValueKind::Color,
            ThemeKey::PrimaryLight => ValueKind::Color,
            ThemeKey::PrimaryDark => ValueKind::Color,
            ThemeKey::ProgressBarRadius => ValueKind::Number,
            ThemeKey::BackgroundLight => ValueKind::Color,
            ThemeKey::BackgroundDark => ValueKind::Color,
            ThemeKey::ForegroundLight => ValueKind::Color,
            ThemeKey::ForegroundDark => ValueKind::Color,
            ThemeKey::ButtonDark => ValueKind::Color,
            ThemeKey::ButtonLight => ValueKind::Color,
            ThemeKey::ButtonBorderRadius => ValueKind::Number,
            ThemeKey::ButtonBorderWidth => ValueKind::Number,
            ThemeKey::BorderDark => ValueKind::Color,
            ThemeKey::BorderLight => ValueKind::Color,
            ThemeKey::SelectionColor => ValueKind::Color,
            ThemeKey::CursorColor => ValueKind::Color,
            ThemeKey::TextSizeNormal => ValueKind::Number,
            ThemeKey::TextSizeLarge => ValueKind::Number,
            ThemeKey::BasicWidgetHeight => ValueKind::Number,
            ThemeKey::WideWidgetWidth => ValueKind::Number,
            ThemeKey::BorderedWidgetHeight => ValueKind::Number,
            ThemeKey::TextboxBorderRadius => ValueKind::Number,
            ThemeKey::ScrollbarColor => ValueKind::Color,
            ThemeKey::ScrollbarBorderColor => ValueKind::Color,
            ThemeKey::ScrollbarMaxOpacity => ValueKind::Number,
            ThemeKey::ScrollbarFadeDelay => ValueKind::Count,
            ThemeKey::ScrollbarWidth => ValueKind::Number,
            ThemeKey::ScrollbarPad => ValueKind::Number,
            ThemeKey::ScrollbarRadius => ValueKind::Number,
            ThemeKey::ScrollbarEdgeWidth => ValueKind::Number,
            ThemeKey::FontName => ValueKind::Text,
        }
    }

    /// This key's place in the order in which the default theme is filled.
    pub open spec fn index(self) -> int {
        match self {
            ThemeKey::WindowBackgroundColor => 0,
            ThemeKey::LabelColor => 1,
            ThemeKey::PlaceholderColor => 2,
            ThemeKey::PrimaryLight => 3,
            ThemeKey::PrimaryDark => 4,
            ThemeKey::ProgressBarRadius => 5,
            ThemeKey::BackgroundLight => 6,
            ThemeKey::BackgroundDark => 7,
            ThemeKey::ForegroundLight => 8,
            ThemeKey::ForegroundDark => 9,
            ThemeKey::ButtonDark => 10,
            ThemeKey::ButtonLight => 11,
            ThemeKey::ButtonBorderRadius => 12,
            ThemeKey::ButtonBorderWidth => 13,
            ThemeKey::BorderDark => 14,
            ThemeKey::BorderLight => 15,
            ThemeKey::SelectionColor => 16,
            ThemeKey::CursorColor => 17,
            ThemeKey::TextSizeNormal => 18,
            ThemeKey::TextSizeLarge => 19,
            ThemeKey::BasicWidgetHeight => 20,
            ThemeKey::WideWidgetWidth => 21,
            ThemeKey::BorderedWidgetHeight => 22,
            ThemeKey::TextboxBorderRadius => 23,
            ThemeKey::ScrollbarColor => 24,
            ThemeKey::ScrollbarBorderColor => 25,
            ThemeKey::ScrollbarMaxOpacity => 26,
            ThemeKey::ScrollbarFadeDelay => 27,
            ThemeKey::ScrollbarWidth => 28,
            ThemeKey::ScrollbarPad => 29,
            ThemeKey::ScrollbarRadius => 30,
            ThemeKey::ScrollbarEdgeWidth => 31,
            ThemeKey::FontName => 32,
        }
    }

    /// The key at place `i` of the order in which the default theme is filled.
    pub open spec fn at_spec(i: int) -> ThemeKey {
        if i == 0 {
            ThemeKey::WindowBackgroundColor
        } else if i == 1 {
            ThemeKey::LabelColor
        } else if i == 2 {
            ThemeKey::PlaceholderColor
        } else if i == 3 {
            ThemeKey::PrimaryLight
        } else if i == 4 {
            ThemeKey::PrimaryDark
        } else if i == 5 {
            ThemeKey::ProgressBarRadius
        } else if i == 6 {
            ThemeKey::BackgroundLight
        } else if i == 7 {
            ThemeKey::BackgroundDark
        } else if i == 8 {
            ThemeKey::ForegroundLight
        } else if i == 9 {
            ThemeKey::ForegroundDark
        } else if i == 10 {
            ThemeKey::ButtonDark
        } else if i == 11 {
            ThemeKey::ButtonLight
        } else if i == 12 {
            ThemeKey::ButtonBorderRadius
        } else if i == 13 {
            ThemeKey::ButtonBorderWidth
        } else if i == 14 {
            ThemeKey::BorderDark
        } else if i == 15 {
            ThemeKey::BorderLight
        } else if i == 16 {
            ThemeKey::SelectionColor
        } else if i == 17 {
            ThemeKey::CursorColor
        } else if i == 18 {
            ThemeKey::TextSizeNormal
        } else if i == 19 {
            ThemeKey::TextSizeLarge
        } else if i == 20 {
            ThemeKey::BasicWidgetHeight
        } else if i == 21 {
            ThemeKey::WideWidgetWidth
        } else if i == 22 {
            ThemeKey::BorderedWidgetHeight
        } else if i == 23 {
            ThemeKey::TextboxBorderRadius
        } else if i == 24 {
            ThemeKey::ScrollbarColor
        } else if i == 25 {
            ThemeKey::ScrollbarBorderColor
        } else if i == 26 {
            ThemeKey::ScrollbarMaxOpacity
        } else if i == 27 {
            ThemeKey::ScrollbarFadeDelay
        } else if i == 28 {
            ThemeKey::ScrollbarWidth
        } else if i == 29 {
            ThemeKey::ScrollbarPad
        } else if i == 30 {
            ThemeKey::ScrollbarRadius
        } else if i == 31 {
            ThemeKey::ScrollbarEdgeWidth
        } else {
            ThemeKey::FontName
        }
    }

    /// The value the default theme holds under this key on platform `p`.
    pub open spec fn default_view(self, p: Platform) -> ValueView {
        match self {
            ThemeKey::WindowBackgroundColor => opaque(0x29, 0x29, 0x29),
            ThemeKey::LabelColor => opaque(0xf0, 0xf0, 0xea),
            ThemeKey::PlaceholderColor => opaque(0x80, 0x80, 0x80),
            ThemeKey::PrimaryLight => opaque(0x5c, 0xc4, 0xff),
            ThemeKey::PrimaryDark => opaque(0x00, 0x8d, 0xdd),
            ThemeKey::ProgressBarRadius => thousandths(4000),
            ThemeKey::BackgroundLight => opaque(0x3a, 0x3a, 0x3a),
            ThemeKey::BackgroundDark => opaque(0x31, 0x31, 0x31),
            ThemeKey::ForegroundLight => opaque(0xf9, 0xf9, 0xf9),
            ThemeKey::ForegroundDark => opaque(0xbf, 0xbf, 0xbf),
            ThemeKey::ButtonDark => opaque(0, 0, 0),
            ThemeKey::ButtonLight => opaque(0x21, 0x21, 0x21),
            ThemeKey::ButtonBorderRadius => thousandths(4000),
            ThemeKey::ButtonBorderWidth => thousandths(2000),
            ThemeKey::BorderDark => opaque(0x3a, 0x3a, 0x3a),
            ThemeKey::BorderLight => opaque(0xa1, 0xa1, 0xa1),
            ThemeKey::SelectionColor => opaque(0xf3, 0x00, 0x21),
            ThemeKey::CursorColor => opaque(0xff, 0xff, 0xff),
            ThemeKey::TextSizeNormal => thousandths(15000),
            ThemeKey::TextSizeLarge => thousandths(24000),
            ThemeKey::BasicWidgetHeight => thousandths(18000),
            ThemeKey::WideWidgetWidth => thousandths(100000),
            ThemeKey::BorderedWidgetHeight => thousandths(24000),
            ThemeKey::TextboxBorderRadius => thousandths(2000),
            ThemeKey::ScrollbarColor => opaque(0xff, 0xff, 0xff),
            ThemeKey::ScrollbarBorderColor => opaque(0x77, 0x77, 0x77),
            ThemeKey::ScrollbarMaxOpacity => thousandths(700),
            ThemeKey::ScrollbarFadeDelay => ValueView::Count(1500),
            ThemeKey::ScrollbarWidth => thousandths(8000),
            ThemeKey::ScrollbarPad => thousandths(2000),
            ThemeKey::ScrollbarRadius => thousandths(5000),
            ThemeKey::ScrollbarEdgeWidth => thousandths(1000),
            ThemeKey::FontName => ValueView::Text(font_for(p)),
        }
    }

    /// The key at place `i` of the order in which the default theme is filled.
    pub fn at(i: usize) -> (k: ThemeKey)
        requires
            i < THEME_KEY_COUNT,
        ensures
            k == ThemeKey::at_spec(i as int),
    {
        if i == 0 {
            ThemeKey::WindowBackgroundColor
        } else if i == 1 {
            ThemeKey::LabelColor
        } else if i == 2 {
            ThemeKey::PlaceholderColor
        } else if i == 3 {
            ThemeKey::PrimaryLight
        } else if i == 4 {
            ThemeKey::PrimaryDark
        } else if i == 5 {
            ThemeKey::ProgressBarRadius
        } else if i == 6 {
            ThemeKey::BackgroundLight
        } else if i == 7 {
            ThemeKey::BackgroundDark
        } else if i == 8 {
            ThemeKey::ForegroundLight
        } else if i == 9 {
            ThemeKey::ForegroundDark
        } else if i == 10 {
            ThemeKey::ButtonDark
        } else if i == 11 {
            ThemeKey::ButtonLight
        } else if i == 12 {
            ThemeKey::ButtonBorderRadius
        } else if i == 13 {
            ThemeKey::ButtonBorderWidth
        } else if i == 14 {
            ThemeKey::BorderDark
        } else if i == 15 {
            ThemeKey::BorderLight
        } else if i == 16 {
            ThemeKey::SelectionColor
        } else if i == 17 {
            ThemeKey::CursorColor
        } else if i == 18 {
            ThemeKey::TextSizeNormal
        } else if i == 19 {
            ThemeKey::TextSizeLarge
        } else if i == 20 {
            ThemeKey::BasicWidgetHeight
        } else if i == 21 {
            ThemeKey::WideWidgetWidth
        } else if i == 22 {
            ThemeKey::BorderedWidgetHeight
        } else if i == 23 {
            ThemeKey::TextboxBorderRadius
        } else if i == 24 {
            ThemeKey::ScrollbarColor
        } else if i == 25 {
            ThemeKey::ScrollbarBorderColor
        } else if i == 26 {
            ThemeKey::ScrollbarMaxOpacity
        } else if i == 27 {
            ThemeKey::ScrollbarFadeDelay
        } else if i == 28 {
            ThemeKey::ScrollbarWidth
        } else if i == 29 {
            ThemeKey::ScrollbarPad
        } else if i == 30 {
            ThemeKey::ScrollbarRadius
        } else if i == 31 {
            ThemeKey::ScrollbarEdgeWidth
        } else {
            ThemeKey::FontName
        }
    }

    /// The name under which this key is stored.
    pub fn name_str(self) -> (s: &'static str)
        ensures
            s@ == self.name(),
    {
        match self {
            ThemeKey::WindowBackgroundColor => "window_background_color",
            ThemeKey::LabelColor => "label_color",
            ThemeKey::PlaceholderColor => "placeholder_color",
            ThemeKey::PrimaryLight => "primary_light",
            ThemeKey::PrimaryDark => "primary_dark",
            ThemeKey::ProgressBarRadius => "progress_bar_radius",
            ThemeKey::BackgroundLight => "background_light",
            ThemeKey::BackgroundDark => "background_dark",
            ThemeKey::ForegroundLight => "foreground_light",
            ThemeKey::ForegroundDark => "foreground_dark",
            ThemeKey::ButtonDark => "button_dark",
            ThemeKey::ButtonLight => "button_light",
            ThemeKey::ButtonBorderRadius => "button_radius",
            ThemeKey::ButtonBorderWidth => "button_border_width",
            ThemeKey::BorderDark => "border",
            ThemeKey::BorderLight => "border_light",
            ThemeKey::SelectionColor => "selection_color",
            ThemeKey::CursorColor => "cursor_color",
            ThemeKey::TextSizeNormal => "text_size_normal",
            ThemeKey::TextSizeLarge => "text_size_large",
            ThemeKey::BasicWidgetHeight => "basic_widget_height",
            ThemeKey::WideWidgetWidth => "druid.widgets.long-widget-width",
            ThemeKey::BorderedWidgetHeight => "bordered_widget_height",
            ThemeKey::TextboxBorderRadius => "textbox_radius",
            ThemeKey::ScrollbarColor => "scrollbar_color",
            ThemeKey::ScrollbarBorderColor => "scrollbar_border_color",
            ThemeKey::ScrollbarMaxOpacity => "scrollbar_max_opacity",
            ThemeKey::ScrollbarFadeDelay => "scrollbar_fade_time",
            ThemeKey::ScrollbarWidth => "scrollbar_width",
            ThemeKey::ScrollbarPad => "scrollbar_pad",
            ThemeKey::ScrollbarRadius => "scrollbar_radius",
            ThemeKey::ScrollbarEdgeWidth => "scrollbar_edge_width",
            ThemeKey::FontName => "font_name",
        }
    }

    /// The type of value this key addresses.
    pub fn value_kind(self) -> (t: ValueKind)
        ensures
            t == self.kind(),
    {
        match self {
            ThemeKey::WindowBackgroundColor => ValueKind::Color,
            ThemeKey::LabelColor => ValueKind::Color,
            ThemeKey::PlaceholderColor => ValueKind::Color,
            ThemeKey::PrimaryLight => ValueKind::Color,
            ThemeKey::PrimaryDark => ValueKind::Color,
            ThemeKey::ProgressBarRadius => ValueKind::Number,
            ThemeKey::BackgroundLight => ValueKind::Color,
            ThemeKey::BackgroundDark => ValueKind::Color,
            ThemeKey::ForegroundLight => ValueKind::Color,
            ThemeKey::ForegroundDark => ValueKind::Color,
            ThemeKey::ButtonDark => ValueKind::Color,
            ThemeKey::ButtonLight => ValueKind::Color,
            ThemeKey::ButtonBorderRadius => ValueKind::Number,
            ThemeKey::ButtonBorderWidth => ValueKind::Number,
            ThemeKey::BorderDark => ValueKind::Color,
            ThemeKey::BorderLight => ValueKind::Color,
            ThemeKey::SelectionColor => ValueKind::Color,
            ThemeKey::CursorColor => ValueKind::Color,
            ThemeKey::TextSizeNormal => ValueKind::Number,
            ThemeKey::TextSizeLarge => ValueKind::Number,
            ThemeKey::BasicWidgetHeight => ValueKind::Number,
            ThemeKey::WideWidgetWidth => ValueKind::Number,
            ThemeKey::BorderedWidgetHeight => ValueKind::Number,
            ThemeKey::TextboxBorderRadius => ValueKind::Number,
            ThemeKey::ScrollbarColor => ValueKind::Color,
            ThemeKey::ScrollbarBorderColor => ValueKind::Color,
            ThemeKey::ScrollbarMaxOpacity => ValueKind::Number,
            ThemeKey::ScrollbarFadeDelay => ValueKind::Count,
            ThemeKey::ScrollbarWidth => ValueKind::Number,
            ThemeKey::ScrollbarPad => ValueKind::Number,
            ThemeKey::ScrollbarRadius => ValueKind::Number,
            ThemeKey::ScrollbarEdgeWidth => ValueKind::Number,
            ThemeKey::FontName => ValueKind::Text,
        }
    }

    /// The key under which this style value is stored.
    pub fn key(self) -> (k: Key)
        ensures
            k.name@ == self.name(),
            k.kind == self.kind(),
    {
        Key::new(self.name_str(), self.value_kind())
    }

    /// The value the default theme holds under this key on `platform`.
    pub fn default_value(self, platform: Platform) -> (v: Value)
        ensures
            v@ == self.default_view(platform),
    {
        match self {
            ThemeKey::WindowBackgroundColor => Value::Color(Color::rgb8(0x29, 0x29, 0x29)),
            ThemeKey::LabelColor => Value::Color(Color::rgb8(0xf0, 0xf0, 0xea)),
            ThemeKey::PlaceholderColor => Value::Color(Color::rgb8(0x80, 0x80, 0x80)),
            ThemeKey::PrimaryLight => Value::Color(Color::rgb8(0x5c, 0xc4, 0xff)),
            ThemeKey::PrimaryDark => Value::Color(Color::rgb8(0x00, 0x8d, 0xdd)),
            ThemeKey::ProgressBarRadius => Value::Number(Fixed::from_thousandths(4000)),
            ThemeKey::BackgroundLight => Value::Color(Color::rgb8(0x3a, 0x3a, 0x3a)),
            ThemeKey::BackgroundDark => Value::Color(Color::rgb8(0x31, 0x31, 0x31)),
            ThemeKey::ForegroundLight => Value::Color(Color::rgb8(0xf9, 0xf9, 0xf9)),
            ThemeKey::ForegroundDark => Value::Color(Color::rgb8(0xbf, 0xbf, 0xbf)),
            ThemeKey::ButtonDark => Value::Color(Color::black()),
            ThemeKey::ButtonLight => Value::Color(Color::rgb8(0x21, 0x21, 0x21)),
            ThemeKey::ButtonBorderRadius => Value::Number(Fixed::from_thousandths(4000)),
            ThemeKey::ButtonBorderWidth => Value::Number(Fixed::from_thousandths(2000)),
            ThemeKey::BorderDark => Value::Color(Color::rgb8(0x3a, 0x3a, 0x3a)),
            ThemeKey::BorderLight => Value::Color(Color::rgb8(0xa1, 0xa1, 0xa1)),
            ThemeKey::SelectionColor => Value::Color(Color::rgb8(0xf3, 0x00, 0x21)),
            ThemeKey::CursorColor => Value::Color(Color::white()),
            ThemeKey::TextSizeNormal => Value::Number(Fixed::from_thousandths(15000)),
            ThemeKey::TextSizeLarge => Value::Number(Fixed::from_thousandths(24000)),
            ThemeKey::BasicWidgetHeight => Value::Number(Fixed::from_thousandths(18000)),
            ThemeKey::WideWidgetWidth => Value::Number(Fixed::from_thousandths(100000)),
            ThemeKey::BorderedWidgetHeight => Value::Number(Fixed::from_thousandths(24000)),
            ThemeKey::TextboxBorderRadius => Value::Number(Fixed::from_thousandths(2000)),
            ThemeKey::ScrollbarColor => Value::Color(Color::rgb8(0xff, 0xff, 0xff)),
            ThemeKey::ScrollbarBorderColor => Value::Color(Color::rgb8(0x77, 0x77, 0x77)),
            ThemeKey::ScrollbarMaxOpacity => Value::Number(Fixed::from_thousandths(700)),
            ThemeKey::ScrollbarFadeDelay => Value::Count(1500),
            ThemeKey::ScrollbarWidth => Value::Number(Fixed::from_thousandths(8000)),
            ThemeKey::ScrollbarPad => Value::Number(Fixed::from_thousandths(2000)),
            ThemeKey::ScrollbarRadius => Value::Number(Fixed::from_thousandths(5000)),
            ThemeKey::ScrollbarEdgeWidth => Value::Number(Fixed::from_thousandths(1000)),
            ThemeKey::FontName => Value::Text(font_name(platform)),
        }
    }
}

/// The default font name on `platform`.
pub fn font_name(platform: Platform) -> (s: String)
    ensures
        s@ == font_for(platform),
{
    match platform {
        Platform::Windows => "Segoe UI".to_string(),
        Platform::MacOs => "Arial".to_string(),
        Platform::Other => "sans-serif".to_string(),
    }
}

/// The mapping built by adding, in order, the defaults of the first `n` keys.
pub open spec fn fill(n: int, p: Platform) -> Map<Seq<char>, ValueView>
    decreases n,
{
    if n <= 0 {
        Map::empty()
    } else {
        let k = ThemeKey::at_spec(n - 1);
        fill(n - 1, p).insert(k.name(), k.default_view(p))
    }
}

/// The default theme on platform `p`.
pub open spec fn theme(p: Platform) -> Map<Seq<char>, ValueView> {
    fill(THEME_KEY_COUNT as int, p)
}

/// The default theme for `platform`: every style key bound to its default
/// value, the font name chosen by platform.
pub fn init(platform: Platform) -> (env: Env)
    ensures
        env@ == theme(platform),
{
    let mut env = Env::new();
    let mut i: usize = 0;
    while i < THEME_KEY_COUNT
        invariant
            i <= THEME_KEY_COUNT,
            env@ == fill(i as int, platform),
        decreases THEME_KEY_COUNT - i,
    {
        let k = ThemeKey::at(i);
        env = env.adding(&k.key(), k.default_value(platform));
        i = i + 1;
    }
    env
}

/// Distinct keys have distinct names.
proof fn names_distinct(a: ThemeKey, b: ThemeKey)
    ensures
        a.name() == b.name() ==> a == b,
{
    reveal_strlit("window_background_color");
    reveal_strlit("label_color");
    reveal_strlit("placeholder_color");
    reveal_strlit("primary_light");
    reveal_strlit("primary_dark");
    reveal_strlit("progress_bar_radius");
    reveal_strlit("background_light");
    reveal_strlit("background_dark");
    reveal_strlit("foreground_light");
    reveal_strlit("foreground_dark");
    reveal_strlit("button_dark");
    reveal_strlit("button_light");
    reveal_strlit("button_radius");
    reveal_strlit("button_border_width");
    reveal_strlit("border");
    reveal_strlit("border_light");
    reveal_strlit("selection_color");
    reveal_strlit("cursor_color");
    reveal_strlit("text_size_normal");
    reveal_strlit("text_size_large");
    reveal_strlit("basic_widget_height");
    reveal_strlit("druid.widgets.long-widget-width");
    reveal_strlit("bordered_widget_height");
    reveal_strlit("textbox_radius");
    reveal_strlit("scrollbar_color");
    reveal_strlit("scrollbar_border_color");
    reveal_strlit("scrollbar_max_opacity");
    reveal_strlit("scrollbar_fade_time");
    reveal_strlit("scrollbar_width");
    reveal_strlit("scrollbar_pad");
    reveal_strlit("scrollbar_radius");
    reveal_strlit("scrollbar_edge_width");
    reveal_strlit("font_name");
    if a.name() == b.name() {
        assert(a.name().len() == b.name().len());
        assert(a.name()[3] == b.name()[3]);
        assert(a.name()[10] == b.name()[10]);
    }
}

/// Each key stands at its own place in the fill order, and its default value
/// has the type it declares.
proof fn lemma_index(k: ThemeKey)
    ensures
        0 <= k.index() < THEME_KEY_COUNT,
        ThemeKey::at_spec(k.index()) == k,
        k.default_view(Platform::Windows).kind() == k.kind(),
        k.default_view(Platform::MacOs).kind() == k.kind(),
        k.default_view(Platform::Other).kind() == k.kind(),
{
}

/// Once a key has been added, the rest of the fill leaves its value alone.
proof fn lemma_fill_holds(n: int, k: ThemeKey, p: Platform)
    requires
        0 <= k.index() < n <= THEME_KEY_COUNT,
    ensures
        fill(n, p).contains_key(k.name()),
        fill(n, p)[k.name()] == k.default_view(p),
    decreases n,
{
    lemma_index(k);
    let last = ThemeKey::at_spec(n - 1);
    if last != k {
        names_distinct(last, k);
        lemma_fill_holds(n - 1, k, p);
    }
}

/// The keys filled before the font name get the same values on every platform.
proof fn lemma_prefix_same(n: int, p1: Platform, p2: Platform)
    requires
        0 <= n < THEME_KEY_COUNT,
    ensures
        fill(n, p1) == fill(n, p2),
    decreases n,
{
    if n > 0 {
        lemma_prefix_same(n - 1, p1, p2);
    }
}

/// In the default theme, on every platform, each style key resolves to its
/// default value, which has the type the key declares.
pub proof fn law_theme_resolves_every_key(k: ThemeKey, p: Platform)
    ensures
        lookup(theme(p), k.name(), k.kind()) == Ok::<ValueView, EnvError>(k.default_view(p)),
{
    lemma_index(k);
    lemma_fill_holds(THEME_KEY_COUNT as int, k, p);
}

/// In the default theme the font name resolves to "Segoe UI" on Windows, to
/// "Arial" on macOS and to "sans-serif" elsewhere.
pub proof fn law_font_name_by_platform(p: Platform)
    ensures
        lookup(theme(p), "font_name"@, ValueKind::Text) == Ok::<ValueView, EnvError>(ValueView::Text(font_for(p))),
        p == Platform::Windows ==> font_for(p) == "Segoe UI"@,
        p == Platform::MacOs ==> font_for(p) == "Arial"@,
        p == Platform::Other ==> font_for(p) == "sans-serif"@,
{
    law_theme_resolves_every_key(ThemeKey::FontName, p);
}

/// The default themes of two platforms differ at most in the font name.
pub proof fn law_only_font_name_depends_on_platform(p1: Platform, p2: Platform)
    ensures
        theme(p1).remove("font_name"@) == theme(p2).remove("font_name"@),
{
    let n = THEME_KEY_COUNT as int;
    lemma_prefix_same(n - 1, p1, p2);
    assert(ThemeKey::at_spec(n - 1) == ThemeKey::FontName);
    assert(theme(p1).remove("font_name"@) =~= fill(n - 1, p1).remove("font_name"@));
    assert(theme(p2).remove("font_name"@) =~= fill(n - 1, p2).remove("font_name"@));
}

} // verus!
