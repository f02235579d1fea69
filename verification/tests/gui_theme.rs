use altre::ui::gui_theme::{GuiThemeConfig, GuiThemeKey};

#[test]
fn keys_round_trip_through_names() {
    for key in [GuiThemeKey::AppBackground, GuiThemeKey::MinibufferError, GuiThemeKey::StatuslineForeground] {
        assert_eq!(GuiThemeKey::from_str(key.as_str()), Some(key));
    }
    assert_eq!(GuiThemeKey::from_str("cursor-background"), Some(GuiThemeKey::CursorBackground));
    assert_eq!(GuiThemeKey::from_str("nope"), None);
}

#[test]
fn set_color_trims_and_validates() {
    let mut theme = GuiThemeConfig::new();
    assert_eq!(theme.color(GuiThemeKey::CursorForeground), "#111");
    theme.set_color(GuiThemeKey::CursorForeground, "  #abcdef  ").unwrap();
    assert_eq!(theme.color(GuiThemeKey::CursorForeground), "#abcdef");
    assert_eq!(theme.color(GuiThemeKey::AppBackground), "#1c1c1c");
    assert_eq!(theme.set_color(GuiThemeKey::AppBackground, "   "), Err("カラーコードが空です".to_string()));
    assert_eq!(
        theme.set_color(GuiThemeKey::AppBackground, &"a".repeat(33)),
        Err("カラーコードが長すぎます (32 文字以内)".to_string())
    );
    assert_eq!(
        theme.set_color(GuiThemeKey::AppBackground, "赤"),
        Err("カラーコードにASCII以外の文字が含まれています".to_string())
    );
    assert_eq!(theme.color(GuiThemeKey::AppBackground), "#1c1c1c");
    assert_eq!(theme, {
        let mut t = GuiThemeConfig::default();
        t.cursor_foreground = "#abcdef".to_string();
        t
    });
}
