use std::path::Path;
use wintag::model::settings::{
    corner_from_word, default_true, global_settings, load, parse_cli_config_dir, parse_or_default,
    parse_str, pick_config_root, replace_global_settings, set_global_settings, should_read_through,
    theme_from_word, ConfigDirArg, ConfigError, CornerPreference, Settings, SharedSettings,
    ThemeMode,
};

fn arg(s: &str) -> Option<String> {
    Some(s.to_string())
}

/// The directory that a command line names.
fn dir_of(args: &[Option<String>]) -> Option<String> {
    match parse_cli_config_dir(args) {
        Some(ConfigDirArg::At(i)) => args[i].clone(),
        Some(ConfigDirArg::Inline(s)) => Some(s),
        None => None,
    }
}

#[test]
fn test_serde_roundtrip() {
    for theme in [ThemeMode::System, ThemeMode::Light, ThemeMode::Dark] {
        let cfg = Settings {
            theme,
            corner: CornerPreference::Default,
            show_badge_title: true,
            badge_always_top: true,
            show_balloon: true,
        };
        let s = cfg.to_toml().unwrap();
        let back: Settings = parse_str(&s).unwrap();
        assert_eq!(back, cfg);
    }
    for corner in [
        CornerPreference::Default,
        CornerPreference::Round,
        CornerPreference::SmallRound,
    ] {
        let cfg = Settings {
            theme: ThemeMode::System,
            corner,
            show_badge_title: false,
            badge_always_top: false,
            show_balloon: false,
        };
        let s = cfg.to_toml().unwrap();
        let back: Settings = parse_str(&s).unwrap();
        assert_eq!(back, cfg);
    }
    let cfg = Settings {
        theme: ThemeMode::Dark,
        corner: CornerPreference::Round,
        show_badge_title: false,
        badge_always_top: false,
        show_balloon: true,
    };
    let s = cfg.to_toml().unwrap();
    let back: Settings = parse_str(&s).unwrap();
    assert_eq!(back, cfg);
}

#[test]
fn test_default_values() {
    let d = Settings::default();
    assert_eq!(d.theme, ThemeMode::System);
    assert_eq!(d.corner, CornerPreference::Default);
    assert!(d.show_badge_title);
    assert!(d.badge_always_top);
    assert!(d.show_balloon);
}

#[test]
fn test_parse_corrupt_fallback() {
    assert!(parse_str("this is not toml {{{").is_err());
    assert!(parse_str("theme = \"Dark\"").is_err());
    assert!(parse_str("").is_err());
}

#[test]
fn test_parse_legacy_config_missing_show_badge_title() {
    let legacy = "theme = \"Dark\"\ncorner = \"Round\"\n";
    let parsed: Settings = parse_str(legacy).unwrap();
    assert_eq!(parsed.theme, ThemeMode::Dark);
    assert_eq!(parsed.corner, CornerPreference::Round);
    assert!(parsed.show_badge_title, "a missing switch is on");
}

#[test]
fn test_parse_legacy_config_missing_badge_always_top() {
    let legacy = "theme = \"Dark\"\ncorner = \"Round\"\nshow_badge_title = false\n";
    let parsed: Settings = parse_str(legacy).unwrap();
    assert_eq!(parsed.theme, ThemeMode::Dark);
    assert!(!parsed.show_badge_title);
    assert!(parsed.badge_always_top, "a missing switch is on");
}

#[test]
fn test_save_load_roundtrip() {
    let cfg = Settings {
        theme: ThemeMode::Dark,
        corner: CornerPreference::SmallRound,
        show_badge_title: true,
        badge_always_top: false,
        show_balloon: true,
    };
    let content = cfg.to_toml().unwrap();
    assert!(content.contains("theme = \"Dark\""), "{content}");
    assert!(content.contains("corner = \"SmallRound\""), "{content}");

    let back: Settings = parse_str(&content).unwrap();
    assert_eq!(back, cfg);
    assert_eq!(load(Some(&content), false, None), cfg);
}

#[test]
fn test_label_cn() {
    assert_eq!(ThemeMode::System.label_cn(), "跟随系统");
    assert_eq!(ThemeMode::Light.label_cn(), "浅色");
    assert_eq!(ThemeMode::Dark.label_cn(), "深色");
    assert_eq!(CornerPreference::Default.label_cn(), "默认");
    assert_eq!(CornerPreference::Round.label_cn(), "圆角");
    assert_eq!(CornerPreference::SmallRound.label_cn(), "小圆角");
}

#[test]
fn test_pick_config_root_all_none() {
    assert_eq!(pick_config_root::<Path>(None, None, None, None), None);
}

#[test]
fn test_pick_config_root_priority() {
    let cli = Path::new("C:/cli");
    let env = Path::new("C:/env");
    let exe = Path::new("C:/exe");
    let app = Path::new("C:/appdata");
    assert_eq!(
        pick_config_root(Some(cli), Some(env), Some(exe), Some(app)),
        Some(Path::new("C:/cli"))
    );
    assert_eq!(
        pick_config_root(None, Some(env), Some(exe), Some(app)),
        Some(Path::new("C:/env"))
    );
    assert_eq!(
        pick_config_root(None, None, Some(exe), Some(app)),
        Some(Path::new("C:/exe"))
    );
    assert_eq!(
        pick_config_root(None, None, None, Some(app)),
        Some(Path::new("C:/appdata"))
    );
}

#[test]
fn test_parse_cli_config_dir_forms() {
    let args = [arg("prog"), arg("--config-dir"), arg("D:\\cfg")];
    assert_eq!(dir_of(&args), arg("D:\\cfg"));
    let args = [arg("prog"), arg("--config-dir=D:\\cfg2")];
    assert_eq!(dir_of(&args), arg("D:\\cfg2"));
    let args = [arg("prog"), arg("--help")];
    assert!(parse_cli_config_dir(&args).is_none());
    let args = [arg("prog"), arg("--config-dir")];
    assert!(parse_cli_config_dir(&args).is_none());
}

#[test]
fn test_parse_cli_config_dir_non_utf8_no_panic() {
    let args = [arg("prog"), None, arg("--config-dir"), arg("E:\\cfg")];
    assert_eq!(dir_of(&args), arg("E:\\cfg"));
    // A directory that is no text is still named, by its place.
    let args2 = [arg("--config-dir"), None];
    assert!(matches!(
        parse_cli_config_dir(&args2),
        Some(ConfigDirArg::At(1))
    ));
}

#[test]
fn test_should_read_through() {
    assert!(should_read_through(false, false));
    assert!(!should_read_through(false, true));
    assert!(!should_read_through(true, false));
}

#[test]
fn every_error_has_its_cause() {
    assert_eq!(parse_str("theme = = 1"), Err(ConfigError::Syntax));
    assert_eq!(parse_str("corner = \"Round\"\n"), Err(ConfigError::Theme));
    assert_eq!(
        parse_str("theme = \"Pink\"\ncorner = \"Round\"\n"),
        Err(ConfigError::Theme)
    );
    assert_eq!(
        parse_str("theme = \"Dark\"\ncorner = 3\n"),
        Err(ConfigError::Corner)
    );
    let good = "theme = \"Dark\"\ncorner = \"Round\"\n";
    assert_eq!(
        parse_str(&format!("{good}show_badge_title = 1\n")),
        Err(ConfigError::ShowBadgeTitle)
    );
    assert_eq!(
        parse_str(&format!("{good}badge_always_top = \"yes\"\n")),
        Err(ConfigError::BadgeAlwaysTop)
    );
    assert_eq!(
        parse_str(&format!("{good}show_balloon = []\n")),
        Err(ConfigError::ShowBalloon)
    );
}

#[test]
fn numbers_and_dates_are_no_choices() {
    for value in ["3", "1.5", "1979-05-27"] {
        assert_eq!(
            parse_str(&format!("theme = {value}\ncorner = \"Round\"\n")),
            Err(ConfigError::Theme)
        );
        assert_eq!(
            parse_str(&format!(
                "theme = \"Dark\"\ncorner = \"Round\"\nshow_balloon = {value}\n"
            )),
            Err(ConfigError::ShowBalloon)
        );
        let parsed = parse_str(&format!(
            "other = {value}\ntheme = \"Dark\"\ncorner = \"Round\"\n"
        ));
        assert_eq!(parsed.unwrap().theme, ThemeMode::Dark);
    }
}

#[test]
fn other_entries_are_ignored() {
    let good = "theme = \"Dark\"\ncorner = \"Round\"\n";
    for other in [
        "[other]\n\"$__toml_private_datetime\" = \"no date\"\n",
        "[other]\n\"$__toml_private_datetime\" = 1\nmore = 2\n",
        "[[other]]\na = 1\n[[other]]\nb = [1, [2.5, { c = 1979-05-27 }]]\n",
        "other = 18446744073709551616\n",
        "other = 340282366920938463463374607431768211455\n",
        "other = nan\n",
    ] {
        let parsed = parse_str(&format!("{good}{other}")).unwrap();
        assert_eq!(parsed.theme, ThemeMode::Dark);
        assert_eq!(parsed.corner, CornerPreference::Round);
    }
    for other in [
        "other = 340282366920938463463374607431768211456\n",
        "[other]\na = [1e999]\n",
        "[other]\n[other]\n",
    ] {
        assert_eq!(
            parse_str(&format!("{good}{other}")),
            Err(ConfigError::Syntax)
        );
    }
}

#[test]
fn a_choice_can_be_a_table() {
    let content = "theme = { Dark = {} }\ncorner = { Round = [] }\n";
    let parsed = parse_str(content).unwrap();
    assert_eq!(parsed.theme, ThemeMode::Dark);
    assert_eq!(parsed.corner, CornerPreference::Round);
    assert_eq!(
        parse_str("theme = { Dark = 1 }\ncorner = \"Round\"\n"),
        Err(ConfigError::Theme)
    );
}

#[test]
fn unknown_entries_are_ignored() {
    let content = "language = \"en\"\ntheme = \"Light\"\ncorner = \"Default\"\n[more]\nx = 1\n";
    assert_eq!(
        parse_str(content),
        Ok(Settings {
            theme: ThemeMode::Light,
            ..Settings::default()
        })
    );
}

#[test]
fn the_file_is_written_as_expected() {
    assert_eq!(
        Settings::default().to_toml().unwrap(),
        "theme = \"System\"\ncorner = \"Default\"\nshow_badge_title = true\nbadge_always_top = true\nshow_balloon = true\n"
    );
    let own = Settings {
        theme: ThemeMode::Dark,
        corner: CornerPreference::SmallRound,
        show_badge_title: false,
        badge_always_top: true,
        show_balloon: false,
    };
    assert_eq!(
        own.to_toml().unwrap(),
        "theme = \"Dark\"\ncorner = \"SmallRound\"\nshow_badge_title = false\nbadge_always_top = true\nshow_balloon = false\n"
    );
}

#[test]
fn reading_falls_back_to_the_defaults() {
    let dark = "theme = \"Dark\"\ncorner = \"Round\"\n";
    let expected = Settings {
        theme: ThemeMode::Dark,
        corner: CornerPreference::Round,
        ..Settings::default()
    };
    assert_eq!(parse_or_default("{{"), Settings::default());
    assert_eq!(parse_or_default(dark), expected);
    assert_eq!(load(None, true, Some(dark)), expected);
    assert_eq!(load(None, false, Some(dark)), Settings::default());
    assert_eq!(load(None, true, None), Settings::default());
}

#[test]
fn words_stand_for_choices() {
    assert_eq!(theme_from_word("System"), Some(ThemeMode::System));
    assert_eq!(theme_from_word("system"), None);
    assert_eq!(
        corner_from_word("SmallRound"),
        Some(CornerPreference::SmallRound)
    );
    assert_eq!(corner_from_word(""), None);
    assert!(default_true());
}

#[test]
fn only_the_first_start_counts() {
    let mut shared = SharedSettings { value: None };
    assert_eq!(global_settings(&shared), None);
    let dark = Settings {
        theme: ThemeMode::Dark,
        ..Settings::default()
    };
    replace_global_settings(&mut shared, dark);
    assert_eq!(global_settings(&shared), None);
    set_global_settings(&mut shared, Settings::default());
    set_global_settings(&mut shared, dark);
    assert_eq!(global_settings(&shared), Some(Settings::default()));
    replace_global_settings(&mut shared, dark);
    assert_eq!(global_settings(&shared), Some(dark));
}

#[test]
fn the_first_directory_counts() {
    let args = [
        arg("prog"),
        arg("--config-dir=a"),
        arg("--config-dir"),
        arg("b"),
    ];
    assert_eq!(dir_of(&args), arg("a"));
}
