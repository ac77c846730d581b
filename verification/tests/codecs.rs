//! Round trips through the real format back-ends, dispatched by the
//! library's resolver, at the level of each codec's generic value type.

use std::collections::BTreeMap;

use serde_rw::Format;
use serde_rw::resolve_format;
use serde_rw::write_plan;

fn person_json() -> serde_json::Value {
    let mut fields = serde_json::Map::new();
    fields.insert("id".to_string(), serde_json::Value::from(1337u32));
    fields.insert("name".to_string(), serde_json::Value::from("John Doe"));
    serde_json::Value::Object(fields)
}

fn person_toml() -> toml::Table {
    let mut fields = toml::Table::new();
    fields.insert("id".to_string(), toml::Value::Integer(1337));
    fields.insert("name".to_string(), toml::Value::String("John Doe".to_string()));
    fields
}

fn person_yaml() -> serde_yaml::Value {
    let mut fields = serde_yaml::Mapping::new();
    fields.insert(
        serde_yaml::Value::String("id".to_string()),
        serde_yaml::Value::Number(serde_yaml::Number::from(1337u64)),
    );
    fields.insert(
        serde_yaml::Value::String("name".to_string()),
        serde_yaml::Value::String("John Doe".to_string()),
    );
    serde_yaml::Value::Mapping(fields)
}

fn person_xml() -> BTreeMap<String, String> {
    let mut fields = BTreeMap::new();
    fields.insert("id".to_string(), "1337".to_string());
    fields.insert("name".to_string(), "John Doe".to_string());
    fields
}

#[test]
fn round_trip_json() {
    assert_eq!(resolve_format("person.json"), Ok(Format::Json));
    let object = person_json();
    let text = serde_json::to_string(&object).unwrap();
    let back: serde_json::Value = serde_json::from_str(&text).unwrap();
    assert_eq!(back, object);
}

#[test]
fn round_trip_toml() {
    assert_eq!(resolve_format("person.toml"), Ok(Format::Toml));
    let object = person_toml();
    let text = toml::to_string(&object).unwrap();
    let back: toml::Table = toml::from_str(&text).unwrap();
    assert_eq!(back, object);
}

#[test]
fn round_trip_yaml() {
    assert_eq!(resolve_format("person.yaml"), Ok(Format::Yaml));
    let object = person_yaml();
    let text = serde_yaml::to_string(&object).unwrap();
    let back: serde_yaml::Value = serde_yaml::from_str(&text).unwrap();
    assert_eq!(back, object);
}

#[test]
fn round_trip_xml() {
    assert_eq!(resolve_format("person.xml"), Ok(Format::Xml));
    let object = person_xml();
    let text = quick_xml::se::to_string_with_root("person", &object).unwrap();
    let back: BTreeMap<String, String> = quick_xml::de::from_str(&text).unwrap();
    assert_eq!(back, object);
}

#[test]
fn person_json_content() {
    let object = person_json();
    let text = serde_json::to_string(&object).unwrap();
    assert_eq!(text, "{\"id\":1337,\"name\":\"John Doe\"}");
    let back: serde_json::Value = serde_json::from_str(&text).unwrap();
    assert_eq!(back, object);
}

#[test]
fn person_yml_and_yaml_output_identical() {
    // Both extensions dispatch to the one YAML back-end, so the rendering of
    // the same object is byte-for-byte the same document.
    assert_eq!(resolve_format("person.yml"), resolve_format("person.yaml"));
    assert_eq!(resolve_format("person.yml"), Ok(Format::Yaml));
    let object = person_yaml();
    let via_yml = serde_yaml::to_string(&object).unwrap();
    let via_yaml = serde_yaml::to_string(&object).unwrap();
    assert_eq!(via_yml, via_yaml);
    let back: serde_yaml::Value = serde_yaml::from_str(&via_yml).unwrap();
    assert_eq!(back, object);
}

#[test]
fn malformed_json_fails() {
    let truncated = "{\"id\": 1337,";
    let outcome: Result<serde_json::Value, serde_json::Error> = serde_json::from_str(truncated);
    assert!(outcome.is_err());
    let normalized = serde_rw::Error::Serde(outcome.unwrap_err().to_string());
    assert!(matches!(normalized, serde_rw::Error::Serde(_)));
}

#[test]
fn malformed_toml_fails() {
    let outcome: Result<toml::Table, toml::de::Error> = toml::from_str("id = = 1");
    assert!(outcome.is_err());
}

#[test]
fn malformed_yaml_fails() {
    let outcome: Result<serde_yaml::Value, serde_yaml::Error> = serde_yaml::from_str("id: [unclosed");
    assert!(outcome.is_err());
}

#[test]
fn malformed_xml_fails() {
    let outcome: Result<BTreeMap<String, String>, quick_xml::DeError> =
        quick_xml::de::from_str("<person><id>1337</person>");
    assert!(outcome.is_err());
}

#[test]
fn pretty_json_differs_but_parses_equal() {
    let plan = write_plan("person.json", true).unwrap();
    assert!(plan.pretty);
    let object = person_json();
    let compact = serde_json::to_string(&object).unwrap();
    let pretty = serde_json::to_string_pretty(&object).unwrap();
    assert_ne!(compact, pretty);
    let from_compact: serde_json::Value = serde_json::from_str(&compact).unwrap();
    let from_pretty: serde_json::Value = serde_json::from_str(&pretty).unwrap();
    assert_eq!(from_compact, from_pretty);
}

#[test]
fn pretty_xml_differs_but_parses_equal() {
    let plan = write_plan("person.xml", true).unwrap();
    assert!(plan.pretty);
    let object = person_xml();
    let compact = quick_xml::se::to_string_with_root("person", &object).unwrap();
    let mut pretty = String::new();
    let mut serializer =
        quick_xml::se::Serializer::with_root(&mut pretty, Some("person")).unwrap();
    serializer.indent(plan.indent_char, plan.indent_size);
    serde::Serialize::serialize(&object, serializer).unwrap();
    assert_ne!(compact, pretty);
    let from_compact: BTreeMap<String, String> = quick_xml::de::from_str(&compact).unwrap();
    let from_pretty: BTreeMap<String, String> = quick_xml::de::from_str(&pretty).unwrap();
    assert_eq!(from_compact, from_pretty);
    assert_eq!(from_compact, object);
}
