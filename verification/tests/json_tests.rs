use project_store::json::metadata_json;

fn field<'a>(value: &'a serde_json::Value, key: &str) -> &'a str {
    value.get(key).unwrap().as_str().unwrap()
}

#[test]
fn metadata_json_plain_fields() {
    let out = metadata_json("MyDiagram", "/tmp/proj1", "flowchart");
    assert_eq!(
        out,
        "{\n  \"name\": \"MyDiagram\",\n  \"path\": \"/tmp/proj1\",\n  \"diagram_type\": \"flowchart\"\n}"
    );
}

#[test]
fn metadata_json_parses_with_serde() {
    let out = metadata_json("MyDiagram", "/tmp/proj1", "flowchart");
    let value: serde_json::Value = serde_json::from_str(&out).unwrap();
    assert_eq!(field(&value, "name"), "MyDiagram");
    assert_eq!(field(&value, "path"), "/tmp/proj1");
    assert_eq!(field(&value, "diagram_type"), "flowchart");
}

#[test]
fn metadata_json_escapes_quote_and_backslash() {
    let out = metadata_json("a\"b", "c\\d", "e");
    assert_eq!(
        out,
        "{\n  \"name\": \"a\\\"b\",\n  \"path\": \"c\\\\d\",\n  \"diagram_type\": \"e\"\n}"
    );
}

#[test]
fn metadata_json_escapes_short_controls() {
    let out = metadata_json("a\nb", "c\td", "e\re\u{08}\u{0c}");
    assert_eq!(
        out,
        "{\n  \"name\": \"a\\nb\",\n  \"path\": \"c\\td\",\n  \"diagram_type\": \"e\\re\\b\\f\"\n}"
    );
}

#[test]
fn metadata_json_escapes_other_controls_as_hex() {
    let out = metadata_json("\u{00}", "\u{01}x", "\u{1f}\u{10}");
    assert_eq!(
        out,
        "{\n  \"name\": \"\\u0000\",\n  \"path\": \"\\u0001x\",\n  \"diagram_type\": \"\\u001f\\u0010\"\n}"
    );
}

#[test]
fn metadata_json_control_fields_parse_back() {
    let name = "a\"b\\c\nd\u{01}e";
    let path = "/p\u{1f}/q\t";
    let diagram_type = "\u{0b}\u{0e}flow";
    let out = metadata_json(name, path, diagram_type);
    let value: serde_json::Value = serde_json::from_str(&out).unwrap();
    assert_eq!(field(&value, "name"), name);
    assert_eq!(field(&value, "path"), path);
    assert_eq!(field(&value, "diagram_type"), diagram_type);
}

#[test]
fn metadata_json_keeps_unicode_verbatim() {
    let out = metadata_json("Ñandú", "/tmp/árbol", "диаграмма 漢字");
    assert_eq!(
        out,
        "{\n  \"name\": \"Ñandú\",\n  \"path\": \"/tmp/árbol\",\n  \"diagram_type\": \"диаграмма 漢字\"\n}"
    );
    let value: serde_json::Value = serde_json::from_str(&out).unwrap();
    assert_eq!(field(&value, "name"), "Ñandú");
    assert_eq!(field(&value, "path"), "/tmp/árbol");
    assert_eq!(field(&value, "diagram_type"), "диаграмма 漢字");
}

#[test]
fn metadata_json_empty_fields() {
    let out = metadata_json("", "", "");
    assert_eq!(
        out,
        "{\n  \"name\": \"\",\n  \"path\": \"\",\n  \"diagram_type\": \"\"\n}"
    );
    let value: serde_json::Value = serde_json::from_str(&out).unwrap();
    assert_eq!(field(&value, "name"), "");
    assert_eq!(field(&value, "path"), "");
    assert_eq!(field(&value, "diagram_type"), "");
}

#[test]
fn metadata_json_member_order_is_fixed() {
    let out = metadata_json("n", "p", "d");
    let name_at = out.find("\"name\"").unwrap();
    let path_at = out.find("\"path\"").unwrap();
    let diagram_at = out.find("\"diagram_type\"").unwrap();
    assert!(name_at < path_at);
    assert!(path_at < diagram_at);
}
