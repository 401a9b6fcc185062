use jolly::cli::{parse_args, CliRequest};
use jolly::markdown::desc_to_paragraphs;
use jolly::display;
use jolly::log::LogSettings;
use jolly::search_results::{KeyPress, SearchResults};
use jolly::theme::{ButtonStyle, ContainerStyle, DefaultTheme, Theme};
use jolly::ui::{Color, InheritedSettings, UISettings};

#[test]
fn missing_inherited_use_parent() {
    let mut child = InheritedSettings::default();
    let parent = InheritedSettings::new(Some(99));

    assert_ne!(child.text_size(), parent.text_size());

    child.propagate(&parent);

    assert_eq!(child.text_size(), parent.text_size());
}

#[test]
fn propagate_keeps_explicit_sizes() {
    let mut child = InheritedSettings::new(Some(11));
    let parent = InheritedSettings::new(Some(99));
    child.propagate(&parent);
    assert_eq!(child.text_size(), 11);

    let mut ui = UISettings::default();
    assert_eq!(ui.search.starting_height(), 20 + 2 * 10);
    ui.common = InheritedSettings::new(Some(30));
    ui.propagate();
    assert_eq!(ui.search.starting_height(), 30 + 2 * 10);
    assert_eq!(ui.entry.common.text_size(), 30);
}

#[test]
fn entry_settings_default_description_size() {
    let settings = jolly::entry::EntrySettings::default();
    assert_eq!(settings.description_size, 16);
    assert_eq!(settings.common.text_size(), 20);

    let mut row = display::EntrySettings::default();
    assert_eq!(row.height(), 30);
    row.propagate(&InheritedSettings::new(Some(40)));
    assert_eq!(row.height(), 50);
}

#[test]
fn themes_have_fixed_palettes() {
    assert_eq!(
        DefaultTheme::from_dark_flag(false),
        DefaultTheme::Light
    );
    assert_eq!(DefaultTheme::from_dark_flag(true), DefaultTheme::Dark);

    let light = DefaultTheme::Light.theme();
    assert_eq!(
        light.background_color,
        Color { r: 255, g: 255, b: 255, a: 255 }
    );
    assert_eq!(light.text_color, Color { r: 0, g: 0, b: 0, a: 255 });
    assert_eq!(
        light.accent_color,
        Color { r: 0x5E, g: 0x7C, b: 0xE2, a: 255 }
    );

    let dark = DefaultTheme::Dark.theme();
    assert_eq!(
        dark.background_color,
        Color { r: 0x20, g: 0x22, b: 0x25, a: 255 }
    );
    assert_eq!(
        dark.text_color,
        Color { r: 0xB3, g: 0xB3, b: 0xB3, a: 255 }
    );
    assert_eq!(dark.selected_text_color, Color { r: 0, g: 0, b: 0, a: 255 });

    assert!(matches!(ButtonStyle::default(), ButtonStyle::Transparent));
    assert!(matches!(ContainerStyle::Error, ContainerStyle::Error));
}

#[test]
fn theme_overrides_replace_single_colors() {
    let over = Color { r: 1, g: 2, b: 3, a: 4 };
    let theme = Theme::with_overrides(DefaultTheme::Dark, Some(over), None, None, None);
    assert_eq!(theme.background_color, over);
    assert_eq!(theme.text_color, DefaultTheme::Dark.theme().text_color);
    assert_eq!(theme.accent_color, DefaultTheme::Dark.theme().accent_color);

    let theme = Theme::with_overrides(DefaultTheme::Light, None, None, None, None);
    assert_eq!(theme, DefaultTheme::Light.theme());
}

#[test]
fn cli_flags() {
    let args = |v: &[&str]| -> Vec<String> { v.iter().map(|s| s.to_string()).collect() };

    assert!(matches!(
        parse_args(&args(&["jolly", "-V"])),
        Err(CliRequest::ShowVersion)
    ));
    assert!(matches!(
        parse_args(&args(&["jolly", "-v"])),
        Err(CliRequest::ShowVersion)
    ));
    assert!(matches!(
        parse_args(&args(&["jolly", "--version"])),
        Err(CliRequest::ShowVersion)
    ));
    assert!(matches!(
        parse_args(&args(&["jolly", "-h"])),
        Err(CliRequest::ShowHelp)
    ));
    assert!(matches!(
        parse_args(&args(&["jolly", "--help"])),
        Err(CliRequest::ShowHelp)
    ));
    assert!(matches!(
        parse_args(&args(&["jolly", "--frobnicate"])),
        Err(CliRequest::InvalidOption(_))
    ));

    let parsed = parse_args(&args(&["jolly"])).unwrap();
    assert_eq!(parsed.config, None);

    let parsed = parse_args(&args(&["jolly", "my.toml"])).unwrap();
    assert_eq!(parsed.config, Some("my.toml".to_string()));

    assert!(matches!(
        parse_args(&args(&["jolly", "a.toml", "b.toml"])),
        Err(CliRequest::ExtraConfig)
    ));
}

#[test]
fn log_filters_join_with_commas() {
    let settings = LogSettings {
        file: Some("stderr".to_string()),
        filters: vec!["trace".to_string(), "jolly=debug".to_string()],
    };
    assert_eq!(settings.filter_string(), "trace,jolly=debug");

    let empty = LogSettings::default();
    assert_eq!(empty.filter_string(), "");

    let one = LogSettings {
        file: None,
        filters: vec!["info".to_string()],
    };
    assert_eq!(one.filter_string(), "info");
}

#[test]
fn search_results_selection() {
    let mut ui = UISettings::default();
    ui.max_results = 3;

    let mut results = SearchResults::new(vec![7, 5, 3, 1], &ui);
    // only the first three results are kept
    assert_eq!(results.entries(), &[7, 5, 3]);
    assert_eq!(results.selected(), Some(7));

    // arrow-down from the top row stays put
    results.handle_kb(KeyPress::ArrowDown);
    assert_eq!(results.selected(), Some(7));

    results.set_selection(1);
    assert_eq!(results.selected(), Some(5));
    results.handle_kb(KeyPress::ArrowDown);
    assert_eq!(results.selected(), Some(3));
    // no row beneath the last one
    results.handle_kb(KeyPress::ArrowDown);
    assert_eq!(results.selected(), Some(3));

    results.handle_kb(KeyPress::ArrowUp);
    assert_eq!(results.selected(), Some(5));
    results.handle_kb(KeyPress::Other);
    assert_eq!(results.selected(), Some(5));

    // out-of-range selections are ignored
    results.set_selection(9);
    assert_eq!(results.selected(), Some(5));

    let empty = SearchResults::new(Vec::new(), &ui);
    assert_eq!(empty.selected(), None);
}

#[test]
fn display_entry_rows() {
    let value: toml::Value = toml::from_str(
        r#"['name:%s']
               location = "file/%s"
               keyword = "n""#,
    )
    .unwrap();
    let entry = if let toml::Value::Table(table) = value {
        let (k, v) = table.into_iter().next().unwrap();
        let fields = if let toml::Value::Table(t) = v {
            t.into_iter()
                .map(|(fk, fv)| {
                    (
                        fk,
                        match fv {
                            toml::Value::String(s) => jolly::entry::FieldValue::Str(s),
                            _ => jolly::entry::FieldValue::Other,
                        },
                    )
                })
                .collect()
        } else {
            panic!("entry is not a table")
        };
        jolly::entry::StoreEntry::from_value(k, jolly::entry::ConfigValue::Table(fields)).unwrap()
    } else {
        panic!("Toml is not a Table")
    };

    let settings = display::EntrySettings::default();
    let row = display::Entry::new("n hello", &entry, &settings);
    assert_eq!(row.title(), "name:hello");
    assert!(!row.is_selected());

    let row = row.selected();
    assert!(row.is_selected());
    assert_eq!(row.title(), "name:hello");
    assert_eq!(row.settings(), &settings);
}

#[test]
fn markdown_paragraph_contents() {
    assert_eq!(
        desc_to_paragraphs("hello world"),
        Some(vec!["hello world".to_string()])
    );
    assert_eq!(
        desc_to_paragraphs("one\n\ntwo"),
        Some(vec!["one".to_string(), "two".to_string()])
    );
    // a soft line break becomes one space
    assert_eq!(
        desc_to_paragraphs("a\nb"),
        Some(vec!["a b".to_string()])
    );
    // anything but flat paragraphs and indented code is rejected
    assert_eq!(desc_to_paragraphs("# heading"), None);
    assert_eq!(desc_to_paragraphs("* list"), None);
    assert_eq!(desc_to_paragraphs("> quote"), None);
}
