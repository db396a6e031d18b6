use re_set_lib::utils::config::{
    allow_list, allow_list_of, configured_plugin_path, get_config_value, parse_config,
    plugins_entry, PluginsEntry,
};
use re_set_lib::utils::plugin_dir::AllowList;
use std::cell::RefCell;

fn names(list: AllowList) -> Vec<String> {
    match list {
        AllowList::Names(names) => names,
        _ => panic!("the configuration lists names"),
    }
}

#[test]
fn allow_list_from_configuration() {
    let config = parse_config("plugins = [\"libwifi.so\", \"libaudio.so\"]").unwrap();
    assert_eq!(names(allow_list(&config)), vec!["libwifi.so", "libaudio.so"]);
    let config = parse_config("plugins = []").unwrap();
    assert!(names(allow_list(&config)).is_empty());
}

#[test]
fn items_that_are_no_texts_permit_nothing() {
    let config = parse_config("plugins = [\"a.so\", [\"b.so\"], \"c.so\"]").unwrap();
    match plugins_entry(&config) {
        PluginsEntry::List(items) => {
            assert_eq!(items, vec![Some("a.so".to_string()), None, Some("c.so".to_string())])
        }
        _ => panic!("the entry is an array"),
    }
    assert_eq!(names(allow_list(&config)), vec!["a.so", "c.so"]);
}

#[test]
fn missing_and_malformed_allow_list() {
    let config = parse_config("other = 1").unwrap();
    assert!(matches!(plugins_entry(&config), PluginsEntry::Absent));
    assert!(matches!(allow_list(&config), AllowList::Absent));
    let config = parse_config("plugins = \"libwifi.so\"").unwrap();
    assert!(matches!(plugins_entry(&config), PluginsEntry::NotAList));
    assert!(matches!(allow_list(&config), AllowList::Malformed));
    let config = parse_config("").unwrap();
    assert!(matches!(allow_list(&config), AllowList::Absent));
}

#[test]
fn allow_list_of_plain_entries() {
    assert!(matches!(allow_list_of(PluginsEntry::Absent), AllowList::Absent));
    assert!(matches!(allow_list_of(PluginsEntry::NotAList), AllowList::Malformed));
    let items = vec![None, Some("x".to_string()), None, Some("y".to_string())];
    assert_eq!(names(allow_list_of(PluginsEntry::List(items))), vec!["x", "y"]);
}

#[test]
fn plugin_path_from_configuration() {
    let config = parse_config("plugin_path = \"/opt/reset/plugins\"").unwrap();
    assert_eq!(configured_plugin_path(&config), Some("/opt/reset/plugins".to_string()));
    let config = parse_config("plugin_path = 4").unwrap();
    assert_eq!(configured_plugin_path(&config), None);
    let config = parse_config("plugins = []").unwrap();
    assert_eq!(configured_plugin_path(&config), None);
}

#[test]
fn text_that_is_no_configuration() {
    assert!(parse_config("plugins = [").is_none());
    assert!(parse_config("= 3").is_none());
    assert!(parse_config("a = 1\na = 2").is_none());
}

#[test]
fn config_value_is_handed_to_the_callback() {
    let config = parse_config("[monitor]\nsave = true\nname = \"left\"\n").unwrap();
    let seen = RefCell::new(Vec::new());
    let note = |value: &toml::Value| seen.borrow_mut().push(value.clone());
    assert!(get_config_value(&config, "monitor", "name", note));
    assert_eq!(seen.borrow().as_slice(), &[toml::Value::String("left".to_string())]);
    let never = |_: &toml::Value| panic!("there is no such entry");
    assert!(!get_config_value(&config, "monitor", "missing", never));
    assert!(!get_config_value(&config, "audio", "name", never));
    let flat = parse_config("monitor = 3").unwrap();
    assert!(!get_config_value(&flat, "monitor", "name", never));
}
