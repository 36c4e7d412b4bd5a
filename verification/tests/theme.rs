use zeterm::ui::app_theme::{
    linux_dark_mode_from, macos_dark_mode_from, windows_dark_mode_from, AppThemeManager,
    BuiltinTheme, ThemeConfig, ThemeEvent, ThemeMode, FULL_OPACITY,
};

#[test]
fn test_theme_mode_display() {
    assert_eq!(ThemeMode::Dark.display_name(), "Dark");
    assert_eq!(ThemeMode::Light.display_name(), "Light");
    assert_eq!(ThemeMode::System.display_name(), "System");
}

#[test]
fn test_theme_mode_is_dark() {
    assert!(ThemeMode::Dark.is_dark(false));
    assert!(!ThemeMode::Light.is_dark(true));
}

#[test]
fn theme_mode_system_follows_the_system() {
    assert!(ThemeMode::System.is_dark(true));
    assert!(!ThemeMode::System.is_dark(false));
}

#[test]
fn test_builtin_theme_display() {
    assert_eq!(BuiltinTheme::Dark.display_name(), "Dark");
    assert_eq!(BuiltinTheme::Dracula.display_name(), "Dracula");
    assert_eq!(BuiltinTheme::OneDark.display_name(), "One Dark");
    assert_eq!(BuiltinTheme::TokyoNight.display_name(), "Tokyo Night");
}

#[test]
fn test_builtin_theme_is_dark() {
    assert!(BuiltinTheme::Dark.is_dark());
    assert!(BuiltinTheme::Dracula.is_dark());
    assert!(BuiltinTheme::Nord.is_dark());
    assert!(!BuiltinTheme::Light.is_dark());
    assert!(!BuiltinTheme::SolarizedLight.is_dark());
}

#[test]
fn test_builtin_theme_all() {
    let all = BuiltinTheme::all();
    assert!(!all.is_empty());
    assert!(all.contains(&BuiltinTheme::Dark));
    assert!(all.contains(&BuiltinTheme::Light));
    assert!(all.contains(&BuiltinTheme::Dracula));
}

#[test]
fn builtin_theme_all_has_ten_distinct_themes() {
    let all = BuiltinTheme::all();
    assert_eq!(all.len(), 10);
    for i in 0..all.len() {
        for j in (i + 1)..all.len() {
            assert_ne!(all[i], all[j]);
        }
    }
    assert_eq!(all[0], BuiltinTheme::Dark);
    assert_eq!(all[9], BuiltinTheme::TokyoNight);
}

#[test]
fn test_builtin_theme_to_terminal_theme() {
    let dark = BuiltinTheme::Dark.to_terminal_theme();
    assert!(dark.is_dark);
    assert_eq!(dark.name, "Dark");

    let light = BuiltinTheme::Light.to_terminal_theme();
    assert!(!light.is_dark);

    let dracula = BuiltinTheme::Dracula.to_terminal_theme();
    assert_eq!(dracula.name, "Dracula");

    let tokyo = BuiltinTheme::TokyoNight.to_terminal_theme();
    assert_eq!(tokyo.name, "Tokyo Night");
}

#[test]
fn terminal_theme_darkness_matches_builtin() {
    for t in BuiltinTheme::all() {
        let tt = t.to_terminal_theme();
        assert_eq!(tt.is_dark, t.is_dark());
        assert_eq!(tt.name, t.display_name());
    }
}

#[test]
fn test_theme_config_default() {
    let config = ThemeConfig::default();
    assert_eq!(config.mode, ThemeMode::Dark);
    assert_eq!(config.theme, BuiltinTheme::Dark);
    assert_eq!(config.terminal_opacity, FULL_OPACITY);
}

#[test]
fn test_app_theme_manager_new() {
    let manager = AppThemeManager::new();
    assert_eq!(manager.current_theme(), BuiltinTheme::Dark);
    assert!(manager.is_dark_mode());
}

#[test]
fn test_app_theme_manager_set_theme() {
    let mut manager = AppThemeManager::new();

    manager.set_theme(BuiltinTheme::Dracula);
    assert_eq!(manager.current_theme(), BuiltinTheme::Dracula);
    assert_eq!(manager.terminal_theme().name, "Dracula");

    manager.set_theme(BuiltinTheme::Light);
    assert_eq!(manager.current_theme(), BuiltinTheme::Light);
    assert!(!manager.is_dark_mode());
}

#[test]
fn test_app_theme_manager_toggle() {
    let mut manager = AppThemeManager::new();
    assert!(manager.is_dark_mode());

    manager.toggle_dark_light();
    assert!(!manager.is_dark_mode());

    manager.toggle_dark_light();
    assert!(manager.is_dark_mode());
}

#[test]
fn test_app_theme_manager_next_prev() {
    let mut manager = AppThemeManager::new();
    let initial = manager.current_theme();

    manager.next_theme();
    assert_ne!(manager.current_theme(), initial);

    manager.prev_theme();
    assert_eq!(manager.current_theme(), initial);
}

#[test]
fn theme_cycle_wraps_around() {
    let mut manager = AppThemeManager::new();
    for _ in 0..10 {
        manager.next_theme();
    }
    assert_eq!(manager.current_theme(), BuiltinTheme::Dark);
    manager.prev_theme();
    assert_eq!(manager.current_theme(), BuiltinTheme::TokyoNight);
}

#[test]
fn test_app_theme_manager_opacity() {
    let mut manager = AppThemeManager::new();
    assert_eq!(manager.terminal_opacity(), 1000);

    manager.set_terminal_opacity(800);
    assert_eq!(manager.terminal_opacity(), 800);

    // clamping
    manager.set_terminal_opacity(1500);
    assert_eq!(manager.terminal_opacity(), 1000);

    manager.set_terminal_opacity(-500);
    assert_eq!(manager.terminal_opacity(), 0);
}

#[test]
fn theme_events_record_changes_only() {
    let mut manager = AppThemeManager::new();
    manager.set_theme(BuiltinTheme::Dark);
    assert!(manager.take_events().is_empty());
    manager.set_theme(BuiltinTheme::Nord);
    manager.set_terminal_opacity(500);
    let events = manager.take_events();
    assert_eq!(
        events,
        vec![
            ThemeEvent::ThemeChanged {
                old_theme: BuiltinTheme::Dark,
                new_theme: BuiltinTheme::Nord
            },
            ThemeEvent::OpacityChanged { opacity: 500 },
        ]
    );
    assert!(manager.take_events().is_empty());
}

#[test]
fn set_mode_replaces_a_theme_of_the_wrong_darkness() {
    let mut manager = AppThemeManager::new();
    manager.set_theme(BuiltinTheme::Dracula);
    manager.set_mode(ThemeMode::Light, false);
    assert_eq!(manager.mode(), ThemeMode::Light);
    assert_eq!(manager.current_theme(), BuiltinTheme::Light);
    manager.set_mode(ThemeMode::System, true);
    assert_eq!(manager.current_theme(), BuiltinTheme::Dark);
    manager.set_theme(BuiltinTheme::SolarizedLight);
    manager.set_mode(ThemeMode::Light, false);
    assert_eq!(manager.current_theme(), BuiltinTheme::SolarizedLight);
}

#[test]
fn test_dark_light_theme_lists() {
    let dark = BuiltinTheme::dark_themes();
    let light = BuiltinTheme::light_themes();

    assert!(dark.iter().all(|t| t.is_dark()));
    assert!(light.iter().all(|t| !t.is_dark()));
    assert!(!dark.is_empty());
    assert!(!light.is_empty());
}

#[test]
fn dark_mode_detection_windows() {
    assert!(windows_dark_mode_from(Some("    AppsUseLightTheme    REG_DWORD    0x0")));
    assert!(!windows_dark_mode_from(Some("    AppsUseLightTheme    REG_DWORD    0x1")));
    assert!(windows_dark_mode_from(Some("nothing useful")));
    assert!(windows_dark_mode_from(None));
}

#[test]
fn dark_mode_detection_macos() {
    assert!(macos_dark_mode_from(Some("Dark\n")));
    assert!(macos_dark_mode_from(Some("  dark ")));
    assert!(!macos_dark_mode_from(Some("Light")));
    assert!(macos_dark_mode_from(None));
    assert!(!macos_dark_mode_from(Some("")));
}

#[test]
fn dark_mode_detection_linux() {
    assert!(linux_dark_mode_from(Some("(<<uint32 1>>,)"), None, None));
    assert!(!linux_dark_mode_from(Some("(<<uint32 2>>,)"), Some("Adwaita-dark"), None));
    assert!(linux_dark_mode_from(Some("(<<uint32 0>>,)"), Some("Adwaita:DARK"), None));
    assert!(!linux_dark_mode_from(None, Some("Adwaita"), Some("'prefer-dark'")));
    assert!(linux_dark_mode_from(None, None, Some("'prefer-dark'")));
    assert!(!linux_dark_mode_from(None, None, Some("'prefer-light'")));
    assert!(!linux_dark_mode_from(None, None, Some("'default'")));
    assert!(linux_dark_mode_from(None, None, Some("something")));
    assert!(linux_dark_mode_from(None, None, None));
}

#[test]
fn toggle_flips_darkness_when_the_mode_already_matches() {
    let mut manager = AppThemeManager::new();
    manager.set_mode(ThemeMode::Light, false);
    manager.set_theme(BuiltinTheme::Dracula);
    assert_eq!(manager.mode(), ThemeMode::Light);
    assert!(manager.is_dark_mode());
    manager.toggle_dark_light();
    assert!(!manager.is_dark_mode());
    assert_eq!(manager.current_theme(), BuiltinTheme::Light);
    assert_eq!(manager.mode(), ThemeMode::Light);
    manager.toggle_dark_light();
    assert_eq!(manager.current_theme(), BuiltinTheme::Dark);
    assert_eq!(manager.mode(), ThemeMode::Dark);
}
