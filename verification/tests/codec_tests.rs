use rpomodoro::config::{Config, ThemeName};

#[test]
fn default_config_serializes_to_expected_json() {
    let c = Config::default();
    let bytes = c.to_json_bytes();
    let expected = "{\n  \"theme\": \"blue\",\n  \"work_duration\": 25,\n  \"short_break\": 5,\n  \"long_break\": 15,\n  \"cycles_before_long\": 4\n}";
    assert_eq!(String::from_utf8(bytes).unwrap(), expected);
}

#[test]
fn round_trip_default() {
    let c = Config::default();
    assert_eq!(Config::parse_json_bytes(&c.to_json_bytes()), Some(c));
}

#[test]
fn round_trip_every_theme_and_odd_values() {
    for theme in [ThemeName::Blue, ThemeName::Purple, ThemeName::Green, ThemeName::Red,
        ThemeName::Orange, ThemeName::Cyan] {
        let c = Config {
            theme,
            work_duration: 120,
            short_break: 1,
            long_break: 99,
            cycles_before_long: 10,
        };
        assert_eq!(Config::parse_json_bytes(&c.to_json_bytes()), Some(c));
    }
    let c = Config {
        theme: ThemeName::Green,
        work_duration: u32::MAX,
        short_break: 0,
        long_break: 1_000_000,
        cycles_before_long: 7,
    };
    assert_eq!(Config::parse_json_bytes(&c.to_json_bytes()), Some(c));
}

#[test]
fn parse_accepts_a_compact_file() {
    let text =
        r#"{"theme":"purple","work_duration":50,"short_break":10,"long_break":30,"cycles_before_long":2}"#;
    let parsed = Config::parse_json_bytes(&text.as_bytes().to_vec());
    assert_eq!(
        parsed,
        Some(Config {
            theme: ThemeName::Purple,
            work_duration: 50,
            short_break: 10,
            long_break: 30,
            cycles_before_long: 2,
        })
    );
}

#[test]
fn parse_ignores_whitespace_layout() {
    let text = "  {\r\n\t\"theme\" : \"green\",\n\n  \"work_duration\":  40,\n  \"short_break\": 5  ,\n  \"long_break\"\t: 15,\n  \"cycles_before_long\": 4\n}\n";
    let parsed = Config::parse_json_bytes(&text.as_bytes().to_vec());
    assert_eq!(
        parsed,
        Some(Config {
            theme: ThemeName::Green,
            work_duration: 40,
            short_break: 5,
            long_break: 15,
            cycles_before_long: 4,
        })
    );
}

#[test]
fn parse_requires_the_persisted_field_order() {
    // reordered fields are treated as corrupt and fall back to defaults
    let text =
        r#"{"work_duration":50,"theme":"purple","short_break":10,"long_break":30,"cycles_before_long":2}"#;
    assert_eq!(Config::parse_json_bytes(&text.as_bytes().to_vec()), None);
}

#[test]
fn corrupt_files_parse_to_none() {
    for text in [
        "",
        "{}",
        "not json at all",
        r#"{"theme":"blue"}"#,
        r#"{"theme":"mauve","work_duration":25,"short_break":5,"long_break":15,"cycles_before_long":4}"#,
        r#"{"theme":"blue","work_duration":-3,"short_break":5,"long_break":15,"cycles_before_long":4}"#,
        r#"{"theme":"blue","work_duration":4294967296,"short_break":5,"long_break":15,"cycles_before_long":4}"#,
        r#"{"theme":"blue","work_duration":25,"short_break":5,"long_break":15,"cycles_before_long":4}trailing"#,
        r#"{"theme":"blue","work_duration":25,"short_break":5,"long_break":15,"cycles_before_long":}"#,
    ] {
        assert_eq!(Config::parse_json_bytes(&text.as_bytes().to_vec()), None, "{text}");
    }
}

#[test]
fn corrupt_file_falls_back_to_defaults() {
    let loaded = Config::from_json_bytes_or_default(&b"garbage".to_vec());
    assert_eq!(loaded, Config::default());
}

#[test]
fn intact_file_loads_as_written() {
    let c = Config { theme: ThemeName::Orange, ..Config::default() };
    let loaded = Config::from_json_bytes_or_default(&c.to_json_bytes());
    assert_eq!(loaded, c);
}

#[test]
fn output_is_json_a_generic_parser_agrees_with() {
    let c = Config {
        theme: ThemeName::Cyan,
        work_duration: 45,
        short_break: 8,
        long_break: 20,
        cycles_before_long: 3,
    };
    let text = String::from_utf8(c.to_json_bytes()).unwrap();
    let v: serde_json::Value = serde_json::from_str(&text).unwrap();
    assert_eq!(v["theme"].as_str(), Some("cyan"));
    assert_eq!(v["work_duration"].as_u64(), Some(45));
    assert_eq!(v["short_break"].as_u64(), Some(8));
    assert_eq!(v["long_break"].as_u64(), Some(20));
    assert_eq!(v["cycles_before_long"].as_u64(), Some(3));
    assert_eq!(v.as_object().unwrap().len(), 5);
}
