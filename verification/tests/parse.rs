use d2_config::config::{Config, Fonts};
use d2_config::document::Item;
use d2_config::error::ConfigError;
use d2_config::parse::{parse, read_document};
use d2_config::schema::{Field, Kind};

const CUSTOM: &str = r#"
path = "/custom/bin/d2"
layout = "elk"
output-dir = "d2-img"
theme = "1"
dark-theme = "200"
"#;

fn custom() -> Config {
    Config {
        path: String::from("/custom/bin/d2"),
        layout: Some(String::from("elk")),
        inline: true,
        output_dir: String::from("d2-img"),
        fonts: None,
        theme: Some(String::from("1")),
        dark_theme: Some(String::from("200")),
    }
}

#[test]
fn compatible_empty() {
    let _config: Config = parse("").expect("config is not compatible");
}

#[test]
fn compatible_defaults() {
    let input = r#"
path = "d2"
layout = "dagre"
output-dir = "d2"
"#;
    let _config: Config = parse(input).expect("config is not compatible");
}

#[test]
fn parse_default() {
    assert_eq!(parse("").unwrap(), Config::default());
}

#[test]
fn parse_custom() {
    assert_eq!(parse(CUSTOM).unwrap(), custom());
}

#[test]
fn parse_custom_without_surrounding_lines() {
    let input = "path = \"/custom/bin/d2\"\nlayout = \"elk\"\noutput-dir = \"d2-img\"\ntheme = \"1\"\ndark-theme = \"200\"";
    assert_eq!(parse(input).unwrap(), custom());
}

#[test]
fn parse_is_independent_of_field_order() {
    let input = r#"
dark-theme = "200"
theme = "1"
output-dir = "d2-img"
layout = "elk"
path = "/custom/bin/d2"
"#;
    assert_eq!(parse(input).unwrap(), custom());
}

#[test]
fn parse_whitespace_and_comments_only() {
    assert_eq!(parse("  \n# nothing here\n\n").unwrap(), Config::default());
}

#[test]
fn parse_fills_in_what_is_left_out() {
    let config = parse("inline = false").unwrap();
    assert_eq!(config.path, "d2");
    assert_eq!(config.output_dir, "d2");
    assert!(!config.inline);
    assert_eq!(config.layout, None);
    assert_eq!(config.fonts, None);
    assert_eq!(config.theme, None);
    assert_eq!(config.dark_theme, None);

    let config = parse("output-dir = \"img\"").unwrap();
    assert_eq!(config.path, "d2");
    assert_eq!(config.output_dir, "img");
    assert!(config.inline);

    let config = parse("path = \"/opt/d2\"\ninline = true").unwrap();
    assert_eq!(config.path, "/opt/d2");
    assert_eq!(config.output_dir, "d2");
    assert!(config.inline);
}

#[test]
fn parse_whole_fonts() {
    let input = r#"
[fonts]
regular = "a.ttf"
italic = "b.ttf"
bold = "c.ttf"
"#;
    let config = parse(input).unwrap();
    assert_eq!(
        config.fonts,
        Some(Fonts {
            regular: String::from("a.ttf"),
            italic: String::from("b.ttf"),
            bold: String::from("c.ttf"),
        })
    );
    assert_eq!(config.path, "d2");
}

#[test]
fn parse_inline_fonts_table() {
    let input = "fonts = { bold = \"c\", regular = \"a\", italic = \"b\" }";
    let fonts = parse(input).unwrap().fonts.unwrap();
    assert_eq!(fonts.regular, "a");
    assert_eq!(fonts.italic, "b");
    assert_eq!(fonts.bold, "c");
}

#[test]
fn parse_partial_fonts() {
    assert_eq!(
        parse("[fonts]\nregular = \"a\"\nitalic = \"b\""),
        Err(ConfigError::MissingField { field: Field::Bold })
    );
    assert_eq!(
        parse("[fonts]\nregular = \"a\"\nbold = \"c\""),
        Err(ConfigError::MissingField { field: Field::Italic })
    );
    assert_eq!(
        parse("[fonts]\nitalic = \"b\"\nbold = \"c\""),
        Err(ConfigError::MissingField { field: Field::Regular })
    );
    assert_eq!(
        parse("[fonts]\nbold = \"c\""),
        Err(ConfigError::MissingField { field: Field::Regular })
    );
    assert_eq!(parse("[fonts]"), Err(ConfigError::MissingField { field: Field::Regular }));
}

#[test]
fn parse_missing_face_counts_before_wrong_face() {
    assert_eq!(
        parse("[fonts]\nregular = 1\nitalic = \"b\""),
        Err(ConfigError::MissingField { field: Field::Bold })
    );
}

#[test]
fn parse_wrong_kind_of_face() {
    assert_eq!(
        parse("[fonts]\nregular = \"a\"\nitalic = 2\nbold = false"),
        Err(ConfigError::TypeMismatch { field: Field::Italic, expected: Kind::String })
    );
}

#[test]
fn parse_fonts_that_is_no_table() {
    assert_eq!(
        parse("fonts = \"a.ttf\""),
        Err(ConfigError::TypeMismatch { field: Field::Fonts, expected: Kind::Table })
    );
    assert_eq!(
        parse("fonts = [\"a\", \"b\", \"c\"]"),
        Err(ConfigError::TypeMismatch { field: Field::Fonts, expected: Kind::Table })
    );
}

#[test]
fn parse_wrong_kind_of_inline() {
    assert_eq!(
        parse("inline = \"yes\""),
        Err(ConfigError::TypeMismatch { field: Field::Inline, expected: Kind::Boolean })
    );
}

#[test]
fn parse_wrong_kind_of_each_string() {
    let mismatch = |field| Err(ConfigError::TypeMismatch { field, expected: Kind::String });
    assert_eq!(parse("path = 5"), mismatch(Field::Path));
    assert_eq!(parse("output-dir = true"), mismatch(Field::OutputDir));
    assert_eq!(parse("layout = 1.5"), mismatch(Field::Layout));
    assert_eq!(parse("theme = 1"), mismatch(Field::Theme));
    assert_eq!(parse("dark-theme = [\"200\"]"), mismatch(Field::DarkTheme));
    assert_eq!(parse("layout = 1979-05-27"), mismatch(Field::Layout));
    assert_eq!(parse("[path]\nto = \"d2\""), mismatch(Field::Path));
}

#[test]
fn parse_names_the_first_wrong_setting() {
    assert_eq!(
        parse("theme = 1\ninline = \"yes\"\noutput-dir = 2"),
        Err(ConfigError::TypeMismatch { field: Field::OutputDir, expected: Kind::String })
    );
    assert_eq!(
        parse("inline = \"yes\"\n[fonts]\nregular = \"a\""),
        Err(ConfigError::TypeMismatch { field: Field::Inline, expected: Kind::Boolean })
    );
}

#[test]
fn parse_does_not_fall_back_for_a_wrong_value() {
    assert!(parse("path = false").is_err());
    assert!(parse("inline = 1").is_err());
}

#[test]
fn parse_malformed_text() {
    assert_eq!(parse("path = "), Err(ConfigError::Syntax));
    assert_eq!(parse("path \"d2\""), Err(ConfigError::Syntax));
    assert_eq!(parse("path = \"d2"), Err(ConfigError::Syntax));
    assert_eq!(parse("[fonts"), Err(ConfigError::Syntax));
    assert_eq!(parse("path = \"a\"\npath = \"b\""), Err(ConfigError::Syntax));
}

#[test]
fn parse_passes_over_unknown_keys() {
    let input = r#"
path = "/custom/bin/d2"
layout = "elk"
renderer = "fast"
output-dir = "d2-img"
theme = "1"
dark-theme = "200"
retries = 3

[extra]
regular = "x"
"#;
    assert_eq!(parse(input).unwrap(), custom());
    let fonts = parse("[fonts]\nregular = \"a\"\nitalic = \"b\"\nbold = \"c\"\nmono = 4")
        .unwrap()
        .fonts
        .unwrap();
    assert_eq!(fonts.bold, "c");
}

#[test]
fn parse_keys_are_hyphenated() {
    let config = parse("output_dir = \"img\"\ndark_theme = \"200\"").unwrap();
    assert_eq!(config, Config::default());
}

#[test]
fn parse_keeps_the_text_of_strings() {
    let config = parse("layout = 'el\\k'\ntheme = \"t\\u00e9 \\\"x\\\"\"\npath = \"\"").unwrap();
    assert_eq!(config.layout.as_deref(), Some("el\\k"));
    assert_eq!(config.theme.as_deref(), Some("t\u{e9} \"x\""));
    assert_eq!(config.path, "");
}

#[test]
fn read_document_binds_each_key() {
    let table = read_document("a = \"x\"\nb = true\nc = 3\n[d]\ne = false\n[d.f]\ng = \"deep\"")
        .unwrap();
    assert!(matches!(table.get("a"), Some(Item::String(text)) if text == "x"));
    assert!(matches!(table.get("b"), Some(Item::Boolean(true))));
    assert!(matches!(table.get("c"), Some(Item::Other)));
    assert!(table.get("e").is_none());
    let Some(Item::Table(d)) = table.get("d") else {
        panic!("d is no table");
    };
    assert!(matches!(d.get("e"), Some(Item::Boolean(false))));
    assert!(d.get("a").is_none());
    let Some(Item::Table(f)) = d.get("f") else {
        panic!("f is no table");
    };
    assert!(matches!(f.get("g"), Some(Item::String(text)) if text == "deep"));
}

#[test]
fn read_document_other_kinds() {
    let table = read_document("i = 1\nf = 1.5\nd = 1979-05-27\na = [1, 2]\nt = [{ x = 1 }]")
        .unwrap();
    for key in ["i", "f", "d", "a", "t"] {
        assert!(matches!(table.get(key), Some(Item::Other)));
    }
}

#[test]
fn read_document_empty() {
    let table = read_document("").unwrap();
    assert!(table.get("path").is_none());
    assert!(table.get("").is_none());
}

#[test]
fn read_document_malformed() {
    assert!(matches!(read_document("= 1"), Err(ConfigError::Syntax)));
    assert!(matches!(read_document("a = 1\na = 2"), Err(ConfigError::Syntax)));
}

#[test]
fn round_trip_through_toml_text() {
    let mut fonts = toml::Table::new();
    fonts.insert(String::from("regular"), toml::Value::String(String::from("r.ttf")));
    fonts.insert(String::from("italic"), toml::Value::String(String::from("i.ttf")));
    fonts.insert(String::from("bold"), toml::Value::String(String::from("b.ttf")));
    let mut document = toml::Table::new();
    document.insert(String::from("path"), toml::Value::String(String::from("/bin/d2")));
    document.insert(String::from("output-dir"), toml::Value::String(String::from("out")));
    document.insert(String::from("inline"), toml::Value::Boolean(false));
    document.insert(String::from("layout"), toml::Value::String(String::from("elk")));
    document.insert(String::from("fonts"), toml::Value::Table(fonts));
    let text = toml::to_string(&document).unwrap();
    let config = parse(&text).unwrap();
    assert_eq!(
        config,
        Config {
            path: String::from("/bin/d2"),
            output_dir: String::from("out"),
            layout: Some(String::from("elk")),
            inline: false,
            fonts: Some(Fonts {
                regular: String::from("r.ttf"),
                italic: String::from("i.ttf"),
                bold: String::from("b.ttf"),
            }),
            theme: None,
            dark_theme: None,
        }
    );
}
