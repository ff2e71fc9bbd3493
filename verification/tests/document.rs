use servercore::document::{
    infer_format_from_path, read_config_document, write_config_document, ConfigDocument, ConfigFormat,
    ConfigIoError, PropertiesDocument, TextDocument, YamlDocument,
};

#[test]
fn properties_document_preserves_comments_and_updates_existing_keys() {
    let input = "# comment\nmotd=Hello\n\nview-distance=10\n";
    let mut document = match read_config_document(ConfigFormat::Properties, input).expect("properties should parse") {
        ConfigDocument::Properties(document) => document,
        other => panic!("unexpected document: {other:?}"),
    };

    document.set("motd", "Welcome");
    document.set("spawn-protection", "16");

    let output = write_config_document(&ConfigDocument::Properties(document)).expect("properties should write");

    assert!(output.contains("# comment\n"));
    assert!(output.contains("motd=Welcome\n"));
    assert!(output.contains("view-distance=10\n"));
    assert!(output.contains("spawn-protection=16\n"));
}

#[test]
fn toml_document_round_trips_with_toml_edit() {
    let input = "title = \"hello\"\n";
    let document = read_config_document(ConfigFormat::Toml, input).expect("toml should parse");
    let output = write_config_document(&document).expect("toml should write");

    assert_eq!(output, input);
}

#[test]
fn yaml_document_keeps_raw_text_for_high_fidelity_path() {
    let input = "# top\nkey: value\n";
    let document = read_config_document(ConfigFormat::Yaml, input).expect("yaml should read");
    let output = write_config_document(&document).expect("yaml should write");

    assert_eq!(output, input);
}

#[test]
fn properties_get_reads_back_what_set_wrote() {
    let mut document = PropertiesDocument::parse("# note\nname=before\nname=shadow\nlevel : 3\n!bang\nraw line\n");
    assert_eq!(document.get("name"), Some("before"));
    assert_eq!(document.get("level"), Some(" 3"));
    assert_eq!(document.get("missing"), None);
    document.set("name", "after");
    document.set("extra", "1");
    assert_eq!(document.get("name"), Some("after"));
    assert_eq!(document.get("extra"), Some("1"));
    assert_eq!(document.get("level"), Some(" 3"));
    assert_eq!(
        document.render(),
        "# note\nname=after\nname=shadow\nlevel: 3\n!bang\nraw line\nextra=1\n"
    );
}

#[test]
fn properties_blank_lines_render_empty() {
    let document = PropertiesDocument::parse("a=1\n   \r\nb:2");
    assert_eq!(document.render(), "a=1\n\nb:2\n");
}

#[test]
fn formats_follow_extensions() {
    assert_eq!(ConfigFormat::from_extension(" YML "), Some(ConfigFormat::Yaml));
    assert_eq!(ConfigFormat::from_extension("yaml"), Some(ConfigFormat::Yaml));
    assert_eq!(ConfigFormat::from_extension("Properties"), Some(ConfigFormat::Properties));
    assert_eq!(ConfigFormat::from_extension("txt"), Some(ConfigFormat::Text));
    assert_eq!(ConfigFormat::from_extension("ini"), None);
    assert_eq!(infer_format_from_path("/srv/server.properties"), Ok(ConfigFormat::Properties));
    assert_eq!(
        infer_format_from_path("/srv/README"),
        Err(ConfigIoError::UnsupportedFormat("/srv/README".to_string()))
    );
}

#[test]
fn invalid_json_and_toml_are_parse_failures() {
    assert!(matches!(read_config_document(ConfigFormat::Json, "{not json"), Err(ConfigIoError::ParseFailed(_))));
    assert!(matches!(read_config_document(ConfigFormat::Toml, "= broken"), Err(ConfigIoError::ParseFailed(_))));
    let json = read_config_document(ConfigFormat::Json, "{\"a\": 1}").expect("json should parse");
    let text = write_config_document(&json).expect("json should write");
    assert_eq!(text, "{\n  \"a\": 1\n}");
}

#[test]
fn raw_documents_replace_their_text() {
    let mut yaml = YamlDocument::new("a: 1\n");
    yaml.replace_raw("b: 2\n");
    assert_eq!(yaml.raw(), "b: 2\n");
    let mut text = TextDocument::new("x");
    text.replace_raw("y");
    assert_eq!(write_config_document(&ConfigDocument::Text(text)).unwrap(), "y");
}

#[test]
fn properties_written_then_read_give_the_same_document() {
    let input = "# comment\r\n  motd = Hello world \n\n   \nraw line without separator\n:leading\nkey:value:more\n! bang";
    let first = PropertiesDocument::parse(input);
    let written = first.render();
    assert_eq!(
        written,
        "# comment\nmotd= Hello world \n\n\nraw line without separator\n:leading\nkey:value:more\n! bang\n"
    );
    let second = PropertiesDocument::parse(&written);
    assert_eq!(second, first);
    assert_eq!(second.render(), written);
    assert_eq!(second.get("motd"), Some(" Hello world "));
    assert_eq!(second.get(""), Some("leading"));
    assert_eq!(second.get("key"), Some("value:more"));
}

#[test]
fn json_document_writes_pretty_text() {
    let document = read_config_document(ConfigFormat::Json, "{\"a\":1}").expect("json should parse");
    let output = write_config_document(&document).expect("json should write");
    assert_eq!(output, "{\n  \"a\": 1\n}");
}
