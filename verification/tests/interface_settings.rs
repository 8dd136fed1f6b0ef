use hummingbird::ui::settings::interface::{
    build_theme_dropdown_options, data_dir_for_settings, get_available_languages,
    selected_language_index, startup_library_view_options, theme_dropdown_step, theme_selected_index,
    ThemeDropdownEvent, theme_setting_for_choice, LibraryLayoutFlags, ThemeOption, DEFAULT_THEME_ID,
};

#[test]
fn languages_are_listed_with_native_names() {
    let languages = get_available_languages("System Default");
    let codes: Vec<&str> = languages.iter().map(|l| l.code).collect();
    assert_eq!(codes, vec!["", "cs", "el", "es", "en", "sk", "vi"]);
    let names: Vec<&str> = languages.iter().map(|l| l.display_name.as_str()).collect();
    assert_eq!(
        names,
        vec!["System Default", "Čeština", "Ελληνικά", "Español", "English", "Slovenčina", "Tiếng Việt"]
    );
}

#[test]
fn configured_language_is_preselected() {
    let languages = get_available_languages("System Default");
    assert_eq!(selected_language_index(&languages, "es"), 3);
    assert_eq!(selected_language_index(&languages, "vi"), 6);
    assert_eq!(selected_language_index(&languages, ""), 0);
    assert_eq!(selected_language_index(&languages, "de"), 0);
}

#[test]
fn startup_views_are_listed_in_order() {
    let options = startup_library_view_options("Albums", "Artists", "Tracks", "Liked Songs");
    let pairs: Vec<(&str, &str)> = options.iter().map(|c| (c.id.as_str(), c.label.as_str())).collect();
    assert_eq!(
        pairs,
        vec![("albums", "Albums"), ("artists", "Artists"), ("tracks", "Tracks"), ("liked_songs", "Liked Songs")]
    );
}

fn themes() -> Vec<ThemeOption> {
    vec![
        ThemeOption { id: None, label: "ignored".to_string() },
        ThemeOption { id: Some("themes/dark.json".to_string()), label: "Dark".to_string() },
        ThemeOption { id: Some("themes/light.json".to_string()), label: "Light".to_string() },
    ]
}

#[test]
fn theme_dropdown_names_the_default_theme() {
    let choices = build_theme_dropdown_options(&themes(), "Default");
    let pairs: Vec<(&str, &str)> = choices.iter().map(|c| (c.id.as_str(), c.label.as_str())).collect();
    assert_eq!(
        pairs,
        vec![(DEFAULT_THEME_ID, "Default"), ("themes/dark.json", "Dark"), ("themes/light.json", "Light")]
    );
}

#[test]
fn selected_theme_is_preselected() {
    assert_eq!(theme_selected_index(&themes(), &Some("themes/light.json".to_string())), 2);
    assert_eq!(theme_selected_index(&themes(), &None), 0);
    assert_eq!(theme_selected_index(&themes(), &Some("themes/gone.json".to_string())), 0);
    assert_eq!(theme_selected_index(&Vec::new(), &None), 0);
}

#[test]
fn choosing_a_theme_sets_its_id_back() {
    let choices = build_theme_dropdown_options(&themes(), "Default");
    let settings: Vec<Option<String>> = choices.iter().map(|c| theme_setting_for_choice(&c.id)).collect();
    let ids: Vec<Option<String>> = themes().into_iter().map(|t| t.id).collect();
    assert_eq!(settings, ids);
    assert_eq!(theme_setting_for_choice(""), None);
    assert_eq!(theme_setting_for_choice("themes/mytheme.json"), Some("themes/mytheme.json".to_string()));
}

#[test]
fn data_dir_is_the_settings_file_directory() {
    assert_eq!(
        data_dir_for_settings("/home/me/.local/share/hummingbird/settings.json"),
        "/home/me/.local/share/hummingbird"
    );
    assert_eq!(data_dir_for_settings("settings.json"), "");
    assert_eq!(data_dir_for_settings(""), ".");
    assert_eq!(data_dir_for_settings("/"), ".");
}

#[test]
fn layout_switches_toggle_and_two_column_takes_over() {
    let mut flags = LibraryLayoutFlags {
        full_width_library: false,
        two_column_library: false,
        always_show_scrollbars: false,
    };
    assert!(!flags.full_width_checked());
    assert!(flags.full_width_enabled());
    flags.click_full_width();
    assert!(flags.full_width_library);
    flags.click_full_width();
    assert!(!flags.full_width_library);

    flags.click_two_column();
    assert!(flags.two_column_library);
    assert!(flags.full_width_checked());
    assert!(!flags.full_width_enabled());
    let before = flags;
    flags.click_full_width();
    assert_eq!(flags, before);
    flags.click_two_column();
    assert!(!flags.two_column_library);
    assert!(!flags.full_width_checked());

    flags.click_always_show_scrollbars();
    assert!(flags.always_show_scrollbars);
    flags.click_always_show_scrollbars();
    assert!(!flags.always_show_scrollbars);
}

#[test]
fn theme_dropdown_is_rebuilt_only_when_the_theme_changes() {
    let dark = Some("themes/dark.json".to_string());
    let light = Some("themes/light.json".to_string());

    let same = theme_dropdown_step(dark.clone(), &dark, ThemeDropdownEvent::SettingsChanged);
    assert!(!same.rebuild);
    assert_eq!(same.shown, dark);

    let changed = theme_dropdown_step(dark.clone(), &light, ThemeDropdownEvent::SettingsChanged);
    assert!(changed.rebuild);
    assert_eq!(changed.shown, light);

    let to_default = theme_dropdown_step(dark.clone(), &None, ThemeDropdownEvent::SettingsChanged);
    assert!(to_default.rebuild);
    assert_eq!(to_default.shown, None);

    let relisted = theme_dropdown_step(dark.clone(), &dark, ThemeDropdownEvent::ThemeOptionsChanged);
    assert!(relisted.rebuild);
    assert_eq!(relisted.shown, dark);
}
