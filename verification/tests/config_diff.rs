use nacos_client::error::ErrorKind;
use nacos_client::listeners::config::{
    filter_change_data, parse_change_data, ConfigChangeHandler, ConfigChangeItem,
    ConfigChangeParser, PropertiesConfigChangeParser, PropertyChangeType, YamlConfigChangeParser,
};
use nacos_client::strmap::StrMap;

fn item(key: &str, old_value: &str, new_value: &str, ty: PropertyChangeType) -> ConfigChangeItem {
    ConfigChangeItem {
        key: key.to_string(),
        old_value: old_value.to_string(),
        new_value: new_value.to_string(),
        ty,
    }
}

#[test]
fn diff_of_two_mappings_names_deleted_modified_and_added_keys() {
    let mut old_map = StrMap::new();
    old_map.insert("a".to_string(), "1".to_string());
    old_map.insert("b".to_string(), "2".to_string());
    let mut new_map = StrMap::new();
    new_map.insert("b".to_string(), "3".to_string());
    new_map.insert("c".to_string(), "4".to_string());
    let diff = filter_change_data(&old_map, &new_map);
    assert_eq!(diff.len(), 3);
    assert_eq!(diff.get("a"), Some(&item("a", "1", "", PropertyChangeType::DELETED)));
    assert_eq!(diff.get("b"), Some(&item("b", "2", "3", PropertyChangeType::MODIFIED)));
    assert_eq!(diff.get("c"), Some(&item("c", "", "4", PropertyChangeType::ADDED)));
}

#[test]
fn diff_of_two_texts_in_the_properties_format() {
    let diff = parse_change_data("a=1\nb=2", "b=3\nc=4", "properties").unwrap();
    assert_eq!(diff.len(), 3);
    assert_eq!(diff.get("a"), Some(&item("a", "1", "", PropertyChangeType::DELETED)));
    assert_eq!(diff.get("b"), Some(&item("b", "2", "3", PropertyChangeType::MODIFIED)));
    assert_eq!(diff.get("c"), Some(&item("c", "", "4", PropertyChangeType::ADDED)));
}

#[test]
fn identical_texts_have_an_empty_diff() {
    let text = "a=1\n# comment\nb=2\n";
    let diff = parse_change_data(text, text, "PROPERTIES").unwrap();
    assert_eq!(diff.len(), 0);
    assert!(diff.is_empty());
}

#[test]
fn unknown_config_type_is_unsupported() {
    let err = parse_change_data("a=1", "a=2", "toml").unwrap_err();
    assert_eq!(err.kind, ErrorKind::UnsupportedFormat);
    assert_eq!(err.message, "Unsupported config type parser.");
    let handler = ConfigChangeHandler::new();
    let err = handler.parse_change_data("a=1", "a=2", "").unwrap_err();
    assert_eq!(err.kind, ErrorKind::UnsupportedFormat);
}

#[test]
fn yaml_is_claimed_but_not_supported() {
    assert!(YamlConfigChangeParser.is_responsible_for("yaml".to_string()));
    assert!(YamlConfigChangeParser.is_responsible_for("YAML".to_string()));
    assert!(!YamlConfigChangeParser.is_responsible_for("properties".to_string()));
    let err = parse_change_data("a: 1", "a: 2", "Yaml").unwrap_err();
    assert_eq!(err.kind, ErrorKind::UnsupportedFormat);
}

#[test]
fn properties_parser_answers_to_its_name_in_any_case() {
    let parser = PropertiesConfigChangeParser;
    assert!(parser.is_responsible_for("properties".to_string()));
    assert!(parser.is_responsible_for("Properties".to_string()));
    assert!(!parser.is_responsible_for("propertie".to_string()));
    assert!(!parser.is_responsible_for("yaml".to_string()));
}

#[test]
fn properties_are_split_at_the_first_equals_sign() {
    let parser = PropertiesConfigChangeParser;
    let map = parser.parse_properties("# head\nurl=http://h/?a=b\r\nname=\nname=last\nk = v").unwrap();
    assert_eq!(map.len(), 3);
    assert_eq!(map.get("url"), Some(&"http://h/?a=b".to_string()));
    assert_eq!(map.get("name"), Some(&"last".to_string()));
    assert_eq!(map.get("k "), Some(&" v".to_string()));
    assert_eq!(map.get("missing"), None);
}

#[test]
fn empty_text_has_no_properties() {
    let parser = PropertiesConfigChangeParser;
    assert_eq!(parser.parse_properties("").unwrap().len(), 0);
}

#[test]
fn line_without_equals_sign_is_a_parse_error() {
    let parser = PropertiesConfigChangeParser;
    let err = parser.parse_properties("a=1\nnovalue\nb=2").unwrap_err();
    assert_eq!(err.kind, ErrorKind::Parse);
    assert_eq!(err.message, "properties parse error");
    assert!(parser.parse_properties("a=1\n\nb=2").is_err());
    let err = parse_change_data("a=1", "broken", "properties").unwrap_err();
    assert_eq!(err.kind, ErrorKind::Parse);
}

#[test]
fn unchanged_keys_are_left_out_of_the_diff() {
    let diff = parse_change_data("a=1\nb=2", "b=2\na=1", "properties").unwrap();
    assert!(diff.is_empty());
    let diff = parse_change_data("a=1\nb=2", "a=1\nb=5", "properties").unwrap();
    assert_eq!(diff.len(), 1);
    assert!(diff.contains_key("b"));
    assert!(!diff.contains_key("a"));
}
