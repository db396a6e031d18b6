use re_set_lib::utils::macros::{plug_assert, plug_assert_eq};
use re_set_lib::utils::plugin::{
    copy_names, plugin_data, plugin_test_report, Plugin, PluginCapabilities, PluginData,
    PluginImplementation, PluginTestError, PluginTestFunc, TestOutcome, TestResult,
};
use re_set_lib::utils::text::decimal;
use re_set_lib::utils::variant::{TVariant, Variant};
use std::collections::HashMap;

#[test]
fn test_plug_assert_macros() {
    let test = || plug_assert(true);
    assert!(test().is_ok());
    let test = || plug_assert(false);
    assert!(test().is_err());
    let test = || plug_assert_eq(1, 1);
    assert!(test().is_ok());
    let test = || plug_assert_eq(1, 10);
    assert!(test().is_err());
}

#[test]
fn plug_assert_messages() {
    assert_eq!(plug_assert(false).unwrap_err().message(), "false is not true");
    assert_eq!(plug_assert_eq(1, 10).unwrap_err().message(), "1 is not equal to 10");
    assert_eq!(
        plug_assert_eq("left", "right").unwrap_err().message(),
        "left is not equal to right"
    );
}

#[test]
fn test_custom_tests() {
    let func1 = || -> Result<(), PluginTestError> { Ok(()) };
    let func2 = || -> Result<(), PluginTestError> { Err(PluginTestError::new("fail")) };
    let func1 = PluginTestFunc::new(func1, "henlo");
    let func2 = PluginTestFunc::new(func2, "fail");
    assert_eq!(func1.name(), "henlo");
    assert_eq!(func2.name(), "fail");
    let results = vec![
        TestResult { name: func1.name().to_string(), outcome: TestOutcome::from_join(Some(func1.run())) },
        TestResult { name: func2.name().to_string(), outcome: TestOutcome::from_join(Some(func2.run())) },
    ];
    let report = plugin_test_report("libtest", &results);
    assert_eq!(
        report,
        "\n----------- Plugin Tests for libtest -----------\n\n\
         running 2 tests:\nrunning test henlo\nrunning test fail\n\
         \n0 test crashed:\n\
         \n1 tests failed:\nTest fail failed with error: fail\n\
         \n1 tests successful:\nSuccess: henlo\n\
         \n----------- Plugin Tests end -----------\n\n"
    );
}

#[test]
fn crashed_test_is_reported_not_raised() {
    let results = vec![
        TestResult { name: "first".to_string(), outcome: TestOutcome::from_join(None) },
        TestResult { name: "second".to_string(), outcome: TestOutcome::from_join(Some(Ok(()))) },
        TestResult { name: "third".to_string(), outcome: TestOutcome::from_join(None) },
    ];
    let report = plugin_test_report("crashy", &results);
    assert_eq!(
        report,
        "\n----------- Plugin Tests for crashy -----------\n\n\
         running 3 tests:\nrunning test first\nrunning test second\nrunning test third\n\
         \n2 test crashed:\nThread of test first crashed!\nThread of test third crashed!\n\
         \n0 tests failed:\n\
         \n1 tests successful:\nSuccess: second\n\
         \n----------- Plugin Tests end -----------\n\n"
    );
}

#[test]
fn empty_report() {
    let report = plugin_test_report("none", &Vec::new());
    assert_eq!(
        report,
        "\n----------- Plugin Tests for none -----------\n\n\
         running 0 tests:\n\n0 test crashed:\n\n0 tests failed:\n\n0 tests successful:\n\
         \n----------- Plugin Tests end -----------\n\n"
    );
}

#[test]
fn decimal_writes_numbers() {
    assert_eq!(decimal(0), "0");
    assert_eq!(decimal(7), "7");
    assert_eq!(decimal(10), "10");
    assert_eq!(decimal(409), "409");
    assert_eq!(decimal(1234567890), "1234567890");
    assert_eq!(decimal(usize::MAX), usize::MAX.to_string());
}

#[test]
fn capabilities_keep_order_and_duplicates() {
    let capabilities =
        PluginCapabilities::new(vec!["wifi", "audio", "wifi"], PluginImplementation::Both);
    assert_eq!(capabilities.get_capabilities(), vec!["wifi", "audio", "wifi"]);
    assert_eq!(capabilities.get_implementation(), PluginImplementation::Both);
}

#[test]
fn plugin_data_carries_values() {
    assert!(plugin_data().get_data().is_empty());
    let mut map = HashMap::new();
    map.insert("volume".to_string(), 78.into_variant());
    map.insert("nothing".to_string(), Variant::empty());
    let data = PluginData::new(map);
    assert_eq!(data.get_data_ref().len(), 2);
    let copy = data.get_data();
    assert_eq!(copy["volume"].to_value::<i32>().unwrap(), 78);
    let moved = data.move_data();
    assert_eq!(moved["volume"].to_value::<i32>().unwrap(), 78);
    assert!(moved["nothing"].to_value::<i32>().is_err());
}

#[test]
fn outcome_of_a_joined_test() {
    assert!(matches!(TestOutcome::from_join(None), TestOutcome::Crashed));
    assert!(matches!(TestOutcome::from_join(Some(Ok(()))), TestOutcome::Successful));
    match TestOutcome::from_join(Some(Err(PluginTestError::new("broken")))) {
        TestOutcome::Failed(error) => assert_eq!(error.message(), "broken"),
        _ => panic!("the test reported a failure"),
    }
}

#[test]
fn plugin_holds_what_it_attaches() {
    let mut map = HashMap::new();
    map.insert("key".to_string(), true.into_variant());
    let plugin = Plugin::new("/org/Xebito/ReSet/Plugins".to_string(), vec![1u8, 2], PluginData::new(map));
    assert_eq!(plugin.path, "/org/Xebito/ReSet/Plugins");
    assert_eq!(plugin.interfaces, vec![1, 2]);
    assert_eq!(plugin.data.get_data_ref().len(), 1);
    assert_eq!(copy_names(&vec!["a", "b"]), vec!["a", "b"]);
}

#[test]
fn test_error_as_text() {
    assert_eq!(PluginTestError::new("fail").to_string(), "fail");
    assert_eq!(PluginTestError::new("").to_string(), "");
}
