use mcp_oauth::terminal::animation_frame;
use mcp_oauth::terminal::get_theme;
use mcp_oauth::terminal::hide_thinking;
use mcp_oauth::terminal::set_theme;
use mcp_oauth::terminal::set_thinking_message;
use mcp_oauth::terminal::show_thinking;
use mcp_oauth::terminal::IndicatorAction;
use mcp_oauth::terminal::Theme;
use mcp_oauth::terminal::ThemeSetting;
use mcp_oauth::terminal::ThinkingIndicator;
use mcp_oauth::terminal::ANIMATION_INTERVAL_MS;

#[test]
fn theme_from_configuration_values() {
    assert_eq!(Theme::from_config_str("light"), Theme::Light);
    assert_eq!(Theme::from_config_str("LIGHT"), Theme::Light);
    assert_eq!(Theme::from_config_str("Light"), Theme::Light);
    assert_eq!(Theme::from_config_str("ansi"), Theme::Ansi);
    assert_eq!(Theme::from_config_str("ANSI"), Theme::Ansi);
    assert_eq!(Theme::from_config_str("dark"), Theme::Dark);
    assert_eq!(Theme::from_config_str(""), Theme::Dark);
    assert_eq!(Theme::from_config_str("lights"), Theme::Dark);
    assert_eq!(Theme::from_config_str(" light"), Theme::Dark);
    assert_eq!(Theme::from_config_str("solarized"), Theme::Dark);
}

#[test]
fn theme_names() {
    assert_eq!(Theme::Light.as_str(), "GitHub");
    assert_eq!(Theme::Dark.as_str(), "zenburn");
    assert_eq!(Theme::Ansi.as_str(), "base16");
    assert_eq!(Theme::Light.as_config_string(), "light");
    assert_eq!(Theme::Dark.as_config_string(), "dark");
    assert_eq!(Theme::Ansi.as_config_string(), "ansi");
}

#[test]
fn stored_theme_is_read_back() {
    for theme in [Theme::Light, Theme::Dark, Theme::Ansi] {
        assert_eq!(Theme::from_config_str(&theme.as_config_string()), theme);
    }
}

#[test]
fn theme_at_startup() {
    assert_eq!(get_theme(&ThemeSetting::at_startup(None, None)), Theme::Dark);
    assert_eq!(get_theme(&ThemeSetting::at_startup(Some("light"), None)), Theme::Light);
    assert_eq!(get_theme(&ThemeSetting::at_startup(None, Some("ansi"))), Theme::Ansi);
    assert_eq!(get_theme(&ThemeSetting::at_startup(Some("ansi"), Some("light"))), Theme::Ansi);
    assert_eq!(get_theme(&ThemeSetting::at_startup(Some("unknown"), Some("light"))), Theme::Dark);
}

#[test]
fn theme_that_is_set_is_in_effect() {
    let mut setting = ThemeSetting::at_startup(None, None);
    assert_eq!(set_theme(&mut setting, Theme::Light), "light");
    assert_eq!(get_theme(&setting), Theme::Light);
    assert_eq!(set_theme(&mut setting, Theme::Ansi), "ansi");
    assert_eq!(get_theme(&setting), Theme::Ansi);
}

#[test]
fn indicator_shows_and_hides() {
    let mut indicator = ThinkingIndicator::new();
    assert!(!indicator.is_animating());
    assert_eq!(hide_thinking(&mut indicator), IndicatorAction::Nothing);
    assert_eq!(show_thinking(&mut indicator), IndicatorAction::StartAnimation);
    assert!(indicator.is_animating());
    assert_eq!(hide_thinking(&mut indicator), IndicatorAction::StopAnimation);
    assert!(!indicator.is_animating());
    assert_eq!(hide_thinking(&mut indicator), IndicatorAction::Nothing);
}

#[test]
fn message_without_spinner_is_dropped() {
    let mut indicator = ThinkingIndicator::new();
    assert!(!set_thinking_message(&mut indicator, &"working".to_string()));
    assert_eq!(indicator.spinner_message(), None);
}

#[test]
fn message_goes_to_the_spinner() {
    let mut indicator = ThinkingIndicator::with_spinner("starting".to_string());
    assert_eq!(indicator.spinner_message(), Some("starting"));
    assert!(set_thinking_message(&mut indicator, &"working".to_string()));
    assert_eq!(indicator.spinner_message(), Some("working"));
    show_thinking(&mut indicator);
    assert_eq!(indicator.spinner_message(), Some("working"));
    hide_thinking(&mut indicator);
    assert_eq!(indicator.spinner_message(), None);
    assert!(!set_thinking_message(&mut indicator, &"again".to_string()));
}

#[test]
fn animation_shows_four_pictures_in_turn() {
    let pictures = ["\u{1F41B}", "\u{1FAB1}", "\u{1F40D}", "\u{1FAB1}"];
    for frame in 0..12 {
        assert_eq!(animation_frame(frame), pictures[frame % pictures.len()]);
    }
    assert_eq!(animation_frame(usize::MAX), pictures[usize::MAX % 4]);
    assert_eq!(ANIMATION_INTERVAL_MS, 300);
}
