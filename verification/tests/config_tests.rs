use ru_fetch::conf::{Config, MemType, Time};
use ru_fetch::parse::{parse_config, resolve, ConfigKey, ConfigSource, ParseError};

fn default_doc() -> String {
    String::from(
        "
        show_os = true
        show_hostname = true
        show_uptime = true
        show_kernel_version = true
        show_memory = true
        show_swap = true
        show_de = true
        show_colors = true
        show_cpu = true
        show_cores = true
        show_disks = true
        show_temperature = false
        colors_height = 3
        colors_width = 3
        uptime_type = \"Minute\"
        memory_type = \"GB\"
    ",
    )
}

#[test]
fn default_document_parses_to_default_config() {
    let doc = default_doc();
    assert_eq!(parse_config(doc.as_bytes()), Ok(Config::default()));
}

#[test]
fn default_config_fields() {
    let c = Config::default();
    assert!(c.show_os);
    assert!(c.show_hostname);
    assert!(c.show_uptime);
    assert!(c.show_kernel_version);
    assert!(c.show_memory);
    assert!(c.show_swap);
    assert!(c.show_de);
    assert!(c.show_colors);
    assert!(c.show_cpu);
    assert!(c.show_cores);
    assert!(c.show_disks);
    assert!(!c.show_temperature);
    assert_eq!(c.colors_height, 3);
    assert_eq!(c.colors_width, 3);
    assert_eq!(c.uptime_type, Time::Minute);
    assert_eq!(c.memory_type, MemType::GB);
}

#[test]
fn missing_file_falls_back_to_default() {
    let r = resolve(&ConfigSource::Missing);
    assert_eq!(r.config, Config::default());
    assert!(r.warning.is_none());
}

#[test]
fn unreadable_file_falls_back_silently() {
    let r = resolve(&ConfigSource::Unreadable);
    assert_eq!(r.config, Config::default());
    assert!(r.warning.is_none());
}

#[test]
fn partial_document_is_rejected() {
    let r = parse_config(b"show_os = true");
    assert_eq!(
        r,
        Err(ParseError::MissingField {
            key: ConfigKey::ShowHostname
        })
    );
}

#[test]
fn partial_document_falls_back_with_warning() {
    let src = ConfigSource::Contents(b"show_os = true".to_vec());
    let r = resolve(&src);
    assert_eq!(r.config, Config::default());
    assert!(r.warning.is_some());
}

#[test]
fn empty_document_misses_first_field() {
    let r = parse_config(b"");
    assert_eq!(
        r,
        Err(ParseError::MissingField {
            key: ConfigKey::ShowOs
        })
    );
}

#[test]
fn line_without_equals_is_a_syntax_error() {
    let r = parse_config(b"show_os\n");
    assert_eq!(r, Err(ParseError::Syntax { line: 1 }));
}

#[test]
fn wrong_type_for_boolean_field() {
    let doc = default_doc().replace("show_os = true", "show_os = 3");
    let r = parse_config(doc.as_bytes());
    assert!(matches!(
        r,
        Err(ParseError::WrongType {
            key: ConfigKey::ShowOs,
            ..
        })
    ));
}

#[test]
fn unknown_unit_name_is_wrong_type() {
    let doc = default_doc().replace("memory_type = \"GB\"", "memory_type = \"TB\"");
    let r = parse_config(doc.as_bytes());
    assert!(matches!(
        r,
        Err(ParseError::WrongType {
            key: ConfigKey::MemoryType,
            ..
        })
    ));
}

#[test]
fn oversized_integer_is_wrong_type() {
    let doc = default_doc().replace("colors_height = 3", "colors_height = 99999999999");
    let r = parse_config(doc.as_bytes());
    assert!(matches!(
        r,
        Err(ParseError::WrongType {
            key: ConfigKey::ColorsHeight,
            ..
        })
    ));
}

#[test]
fn duplicate_key_is_rejected() {
    let mut doc = default_doc();
    doc.push_str("\nshow_os = false\n");
    let r = parse_config(doc.as_bytes());
    assert!(matches!(
        r,
        Err(ParseError::DuplicateKey {
            key: ConfigKey::ShowOs,
            ..
        })
    ));
}

#[test]
fn unknown_keys_are_ignored() {
    let mut doc = default_doc();
    doc.push_str("\nextra_field = 42\n");
    assert_eq!(parse_config(doc.as_bytes()), Ok(Config::default()));
}

#[test]
fn comments_and_blank_lines_are_skipped() {
    let mut doc = String::from("# leading comment\n\n");
    doc.push_str(&default_doc());
    doc.push_str("\n   # trailing comment\n");
    assert_eq!(parse_config(doc.as_bytes()), Ok(Config::default()));
}

#[test]
fn values_parse_from_the_document() {
    let doc = default_doc()
        .replace("show_cores = true", "show_cores = false")
        .replace("colors_height = 3", "colors_height = 5")
        .replace("uptime_type = \"Minute\"", "uptime_type = \"Hour\"")
        .replace("memory_type = \"GB\"", "memory_type = \"KB\"");
    let c = parse_config(doc.as_bytes()).unwrap();
    assert!(!c.show_cores);
    assert_eq!(c.colors_height, 5);
    assert_eq!(c.uptime_type, Time::Hour);
    assert_eq!(c.memory_type, MemType::KB);
}

#[test]
fn resolving_twice_yields_identical_configs() {
    let src = ConfigSource::Contents(default_doc().into_bytes());
    let a = resolve(&src);
    let b = resolve(&src);
    assert_eq!(a.config, b.config);
    assert_eq!(a, b);
}

#[test]
fn missing_field_message_names_the_field() {
    let e = ParseError::MissingField {
        key: ConfigKey::ShowOs,
    };
    assert_eq!(e.message(), "missing field `show_os`");
}

#[test]
fn syntax_error_message_names_the_line() {
    let e = ParseError::Syntax { line: 7 };
    assert_eq!(e.message(), "syntax error at line 7");
}
