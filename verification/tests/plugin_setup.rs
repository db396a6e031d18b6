use re_set_lib::utils::macros::ErrorLevel;
use re_set_lib::utils::plugin::{PluginCapabilities, PluginImplementation};
use re_set_lib::utils::plugin_dir::{
    choose_plugin_dir, created_plugin_dir, default_plugin_dir, directory_problem, join_path,
    plan_plugin_dir, plugin_object_path, resolve_plugin_dir, AllowList, ConfigurationError,
    CreateOutcome, DirectoryPlan,
};
use re_set_lib::utils::plugin_setup::{
    attempts, bind_backend, bind_frontend, capabilities_symbol, on_access, on_built, symbol_name,
    AccessAction, BindFailure, ContractSymbols, EntryPoint, LoadAttempt, LoadError, Lookup,
    PluginRegistry, PluginRole, RegistryState,
};

fn all_found(tag: &'static str) -> ContractSymbols<String> {
    ContractSymbols {
        name: Some(format!("{tag}:name")),
        startup: Some(format!("{tag}:startup")),
        shutdown: Some(format!("{tag}:shutdown")),
        data: Some(format!("{tag}:data")),
        tests: Some(format!("{tag}:tests")),
    }
}

fn loading_registry(paths: &[&str]) -> PluginRegistry<u32, String> {
    let mut registry = PluginRegistry::new();
    assert_eq!(registry.access(), AccessAction::Build);
    let mut handle = 0;
    for path in paths {
        assert_eq!(registry.add_library(handle, path.to_string()), Some(handle as usize));
        handle += 1;
    }
    registry
}

#[test]
fn symbol_names_of_both_contracts() {
    assert_eq!(capabilities_symbol(), "capabilities");
    assert_eq!(symbol_name(PluginRole::Backend, EntryPoint::Name), "name");
    assert_eq!(symbol_name(PluginRole::Backend, EntryPoint::Startup), "backend_startup");
    assert_eq!(symbol_name(PluginRole::Backend, EntryPoint::Shutdown), "backend_shutdown");
    assert_eq!(symbol_name(PluginRole::Backend, EntryPoint::Data), "dbus_interface");
    assert_eq!(symbol_name(PluginRole::Backend, EntryPoint::Tests), "backend_tests");
    assert_eq!(symbol_name(PluginRole::Frontend, EntryPoint::Name), "frontend_name");
    assert_eq!(symbol_name(PluginRole::Frontend, EntryPoint::Startup), "frontend_startup");
    assert_eq!(symbol_name(PluginRole::Frontend, EntryPoint::Shutdown), "frontend_shutdown");
    assert_eq!(symbol_name(PluginRole::Frontend, EntryPoint::Data), "frontend_data");
    assert_eq!(symbol_name(PluginRole::Frontend, EntryPoint::Tests), "frontend_tests");
}

#[test]
fn declared_roles_select_contracts() {
    assert!(attempts(PluginImplementation::Both, PluginRole::Backend));
    assert!(attempts(PluginImplementation::Both, PluginRole::Frontend));
    assert!(attempts(PluginImplementation::Backend, PluginRole::Backend));
    assert!(!attempts(PluginImplementation::Backend, PluginRole::Frontend));
    assert!(!attempts(PluginImplementation::Frontend, PluginRole::Backend));
    assert!(attempts(PluginImplementation::Frontend, PluginRole::Frontend));
}

#[test]
fn binding_is_all_or_nothing() {
    let capabilities = PluginCapabilities::new(vec!["wifi"], PluginImplementation::Both);
    let table = bind_backend(3, &capabilities, all_found("b")).ok().unwrap();
    assert_eq!(table.library, 3);
    assert_eq!(table.capabilities, vec!["wifi"]);
    assert_eq!(table.name, "b:name");
    assert_eq!(table.startup, "b:startup");
    assert_eq!(table.shutdown, "b:shutdown");
    assert_eq!(table.data, "b:data");
    assert_eq!(table.tests, "b:tests");
    let table = bind_frontend(4, &capabilities, all_found("f")).ok().unwrap();
    assert_eq!(table.library, 4);
    assert_eq!(table.frontend_name, "f:name");
    assert_eq!(table.frontend_startup, "f:startup");
    assert_eq!(table.frontend_shutdown, "f:shutdown");
    assert_eq!(table.frontend_data, "f:data");
    assert_eq!(table.frontend_tests, "f:tests");

    let mut partial = all_found("b");
    partial.data = None;
    partial.tests = None;
    assert_eq!(
        bind_backend(3, &capabilities, partial).err().unwrap(),
        BindFailure { library: 3, role: PluginRole::Backend, missing: EntryPoint::Data }
    );
    let mut partial = all_found("f");
    partial.shutdown = None;
    assert_eq!(
        bind_frontend(1, &capabilities, partial).err().unwrap(),
        BindFailure { library: 1, role: PluginRole::Frontend, missing: EntryPoint::Shutdown }
    );
    assert_eq!(
        bind_frontend(1, &capabilities, ContractSymbols::<String>::none()).err().unwrap(),
        BindFailure { library: 1, role: PluginRole::Frontend, missing: EntryPoint::Name }
    );
}

#[test]
fn both_declared_backend_only_satisfied() {
    let mut registry = loading_registry(&["libboth.so"]);
    let capabilities = PluginCapabilities::new(vec!["audio"], PluginImplementation::Both);
    assert!(registry.bind(0, Some(capabilities), all_found("b"), ContractSymbols::none()));
    registry.finish();
    assert_eq!(registry.backend_plugins().unwrap().len(), 1);
    assert_eq!(registry.frontend_plugins().unwrap().len(), 0);
    assert_eq!(
        registry.failures(),
        &vec![BindFailure { library: 0, role: PluginRole::Frontend, missing: EntryPoint::Name }]
    );
}

#[test]
fn one_backend_plugin_with_wifi() {
    let mut registry = PluginRegistry::<u32, String>::new();
    assert_eq!(registry.state(), RegistryState::Uninitialized);
    assert!(registry.backend_plugins().is_none());
    assert_eq!(registry.access(), AccessAction::Build);
    registry.load_all(vec![LoadAttempt { path: "plugins/libwifi.so".to_string(), opened: Some(7) }]);
    let capabilities = PluginCapabilities::new(vec!["wifi"], PluginImplementation::Backend);
    assert!(registry.bind(0, Some(capabilities), all_found("wifi"), ContractSymbols::none()));
    registry.finish();
    assert_eq!(registry.state(), RegistryState::Loaded);
    let backend = registry.backend_plugins().unwrap();
    assert_eq!(backend.len(), 1);
    assert_eq!(backend[0].capabilities, vec!["wifi"]);
    assert_eq!(backend[0].library, 0);
    assert_eq!(registry.libraries()[backend[0].library].path, "plugins/libwifi.so");
    assert_eq!(registry.libraries()[backend[0].library].handle, 7);
    assert!(registry.frontend_plugins().unwrap().is_empty());
    assert!(registry.failures().is_empty());
    assert!(registry.load_errors().is_empty());
}

#[test]
fn empty_plugin_directory() {
    let mut registry = PluginRegistry::<u32, String>::new();
    assert_eq!(registry.access(), AccessAction::Build);
    registry.load_all(Vec::new());
    registry.finish();
    assert!(registry.backend_plugins().unwrap().is_empty());
    assert!(registry.frontend_plugins().unwrap().is_empty());
    assert!(registry.libraries().is_empty());
    assert!(registry.failures().is_empty());
    assert!(registry.load_errors().is_empty());
}

#[test]
fn bad_file_does_not_stop_the_scan() {
    let mut registry = PluginRegistry::<u32, String>::new();
    assert_eq!(registry.access(), AccessAction::Build);
    registry.load_all(vec![
        LoadAttempt { path: "liba.so".to_string(), opened: Some(1) },
        LoadAttempt { path: "notes.txt".to_string(), opened: None },
        LoadAttempt { path: "libb.so".to_string(), opened: Some(2) },
    ]);
    let paths: Vec<&str> = registry.libraries().iter().map(|l| l.path.as_str()).collect();
    assert_eq!(paths, vec!["liba.so", "libb.so"]);
    let handles: Vec<u32> = registry.libraries().iter().map(|l| l.handle).collect();
    assert_eq!(handles, vec![1, 2]);
    assert_eq!(registry.load_errors(), &vec![LoadError { path: "notes.txt".to_string() }]);
    assert_eq!(registry.load_errors()[0].level(), ErrorLevel::Recoverable);
    assert_eq!(
        registry.load_errors()[0].message(),
        "File was not a library! Please delete the faulty file: notes.txt"
    );
}

#[test]
fn library_without_capabilities_is_passed_over() {
    let mut registry = loading_registry(&["libc.so.6"]);
    assert!(registry.bind(0, None, all_found("b"), all_found("f")));
    registry.finish();
    assert!(registry.backend_plugins().unwrap().is_empty());
    assert!(registry.frontend_plugins().unwrap().is_empty());
    assert!(registry.failures().is_empty());
}

#[test]
fn role_that_is_not_declared_is_not_bound() {
    let mut registry = loading_registry(&["libfront.so"]);
    let capabilities = PluginCapabilities::new(vec!["ui"], PluginImplementation::Frontend);
    assert!(registry.bind(0, Some(capabilities), all_found("b"), all_found("f")));
    registry.finish();
    assert!(registry.backend_plugins().unwrap().is_empty());
    assert_eq!(registry.frontend_plugins().unwrap().len(), 1);
    assert!(registry.failures().is_empty());
}

#[test]
fn only_the_first_access_builds() {
    let mut registry = PluginRegistry::<u32, String>::new();
    let mut builds = 0;
    for _ in 0..8 {
        match registry.access() {
            AccessAction::Build => builds += 1,
            AccessAction::Wait => assert_eq!(registry.state(), RegistryState::Loading),
            AccessAction::Read => panic!("nothing was built yet"),
        }
    }
    assert_eq!(builds, 1);
    registry.finish();
    for _ in 0..8 {
        assert_eq!(registry.access(), AccessAction::Read);
    }
    assert_eq!(registry.state(), RegistryState::Loaded);
    assert_eq!(on_access(RegistryState::Uninitialized), (RegistryState::Loading, AccessAction::Build));
    assert_eq!(on_access(RegistryState::Loading), (RegistryState::Loading, AccessAction::Wait));
    assert_eq!(on_access(RegistryState::Loaded), (RegistryState::Loaded, AccessAction::Read));
    assert_eq!(on_built(RegistryState::Uninitialized), RegistryState::Uninitialized);
    assert_eq!(on_built(RegistryState::Loading), RegistryState::Loaded);
    assert_eq!(on_built(RegistryState::Loaded), RegistryState::Loaded);
}

#[test]
fn loaded_registry_is_read_only() {
    let mut registry = loading_registry(&["liba.so"]);
    registry.finish();
    assert_eq!(registry.add_library(9, "late.so".to_string()), None);
    assert!(!registry.record_load_error("late.txt".to_string()));
    let capabilities = PluginCapabilities::new(vec!["late"], PluginImplementation::Both);
    assert!(!registry.bind(0, Some(capabilities), all_found("b"), all_found("f")));
    registry.load_all(vec![LoadAttempt { path: "later.so".to_string(), opened: Some(3) }]);
    assert_eq!(registry.libraries().len(), 1);
    assert!(registry.load_errors().is_empty());
    assert!(registry.backend_plugins().unwrap().is_empty());
    assert!(registry.frontend_plugins().unwrap().is_empty());
}

#[test]
fn binding_needs_a_known_library() {
    let mut registry = loading_registry(&["liba.so"]);
    let capabilities = PluginCapabilities::new(vec!["x"], PluginImplementation::Both);
    assert!(!registry.bind(1, Some(capabilities), all_found("b"), all_found("f")));
    registry.finish();
    assert!(registry.backend_plugins().unwrap().is_empty());
    let mut fresh = PluginRegistry::<u32, String>::new();
    assert_eq!(fresh.add_library(1, "early.so".to_string()), None);
    assert!(fresh.libraries().is_empty());
}

#[test]
fn allow_list_filters_the_listing() {
    let entries = vec![
        "libaudio.so".to_string(),
        "notes.txt".to_string(),
        "libwifi.so".to_string(),
        "libaudio.so".to_string(),
    ];
    let listed = AllowList::Names(vec!["libwifi.so".to_string(), "libaudio.so".to_string()]);
    assert_eq!(
        listed.allowed_entries(&entries),
        vec!["libaudio.so".to_string(), "libwifi.so".to_string(), "libaudio.so".to_string()]
    );
    assert!(listed.is_allowed(&"libwifi.so".to_string()));
    assert!(!listed.is_allowed(&"libwifi".to_string()));
    assert!(!listed.is_malformed());
    assert_eq!(AllowList::Absent.allowed_entries(&entries), entries);
    assert!(AllowList::Malformed.allowed_entries(&entries).is_empty());
    assert!(AllowList::Malformed.is_malformed());
    assert!(AllowList::Names(Vec::new()).allowed_entries(&entries).is_empty());
}

#[test]
fn plugin_directory_is_resolved() {
    match plan_plugin_dir(Some("/opt/plugins"), true) {
        DirectoryPlan::Configured(path) => assert_eq!(path, "/opt/plugins"),
        DirectoryPlan::Default => panic!("the configured directory exists"),
    }
    assert!(matches!(plan_plugin_dir(Some("/opt/plugins"), false), DirectoryPlan::Default));
    assert!(matches!(plan_plugin_dir(None, true), DirectoryPlan::Default));
    assert_eq!(default_plugin_dir("/home/me/.config/reset"), "/home/me/.config/reset/plugins");
    assert_eq!(join_path("/home/me/", "plugins"), "/home/me/plugins");
    assert_eq!(join_path("", "plugins"), "plugins");
    assert_eq!(join_path("/", "plugins"), "/plugins");
    assert_eq!(created_plugin_dir("p".to_string(), CreateOutcome::Created), Some("p".to_string()));
    assert_eq!(
        created_plugin_dir("p".to_string(), CreateOutcome::AlreadyExists),
        Some("p".to_string())
    );
    assert_eq!(created_plugin_dir("p".to_string(), CreateOutcome::Failed), None);
    assert_eq!(
        resolve_plugin_dir(Some("/opt/plugins"), true, "/cfg", CreateOutcome::Failed),
        Some("/opt/plugins".to_string())
    );
    assert_eq!(
        resolve_plugin_dir(Some("/opt/plugins"), false, "/cfg", CreateOutcome::AlreadyExists),
        Some("/cfg/plugins".to_string())
    );
    assert_eq!(resolve_plugin_dir(None, false, "/cfg", CreateOutcome::Failed), None);
}

#[test]
fn plugin_objects_live_at_one_path() {
    assert_eq!(plugin_object_path(), "/org/Xebito/ReSet/Plugins");
    assert_eq!(plugin_object_path(), plugin_object_path());
}

fn lookup(
    capabilities: Option<(Vec<&'static str>, PluginImplementation)>,
    backend: ContractSymbols<String>,
    frontend: ContractSymbols<String>,
) -> Lookup<String> {
    Lookup {
        capabilities: capabilities.map(|(names, role)| PluginCapabilities::new(names, role)),
        backend,
        frontend,
    }
}

#[test]
fn bind_failures_are_critical_and_name_the_symbol() {
    let mut registry = loading_registry(&["libboth.so"]);
    let capabilities = PluginCapabilities::new(vec!["audio"], PluginImplementation::Both);
    assert!(registry.bind(0, Some(capabilities), all_found("b"), ContractSymbols::none()));
    assert_eq!(registry.failures().len(), 1);
    let failure = registry.failures()[0];
    assert_eq!(failure.level(), ErrorLevel::Critical);
    assert_eq!(failure.message(), "Failed to load plugin function: frontend_name");
    let backend = BindFailure { library: 2, role: PluginRole::Backend, missing: EntryPoint::Data };
    assert_eq!(backend.level(), ErrorLevel::Critical);
    assert_eq!(backend.message(), "Failed to load plugin function: dbus_interface");
}

#[test]
fn configuration_errors_are_critical() {
    assert_eq!(directory_problem(CreateOutcome::Created), None);
    assert_eq!(directory_problem(CreateOutcome::AlreadyExists), None);
    let problem = directory_problem(CreateOutcome::Failed).unwrap();
    assert_eq!(problem, ConfigurationError::PluginDirectory);
    assert_eq!(problem.level(), ErrorLevel::Critical);
    assert_eq!(problem.message(), "Failed to read plugin directory");
    assert_eq!(AllowList::Absent.problem(), None);
    assert_eq!(AllowList::Names(Vec::new()).problem(), None);
    let problem = AllowList::Malformed.problem().unwrap();
    assert_eq!(problem, ConfigurationError::AllowList);
    assert_eq!(problem.level(), ErrorLevel::Critical);
    assert_eq!(
        problem.message(),
        "Wrong config, please write plugins entry as array of strings: e.g [\"libyourplugin.so\"]"
    );
}

#[test]
fn flagged_directory_comes_before_the_resolved_one() {
    let resolved = || Some("/cfg/plugins".to_string());
    assert_eq!(choose_plugin_dir(Some("/flag"), true, resolved()), Some("/flag".to_string()));
    assert_eq!(choose_plugin_dir(Some("/flag"), false, resolved()), resolved());
    assert_eq!(choose_plugin_dir(None, true, resolved()), resolved());
    assert_eq!(choose_plugin_dir(None, false, None), None);
    assert_eq!(choose_plugin_dir(Some("/flag"), false, None), None);
    assert_eq!(choose_plugin_dir(Some("/flag"), true, None), Some("/flag".to_string()));
}

#[test]
fn tables_come_in_the_order_of_the_libraries() {
    let mut registry =
        loading_registry(&["liba.so", "libc.so.6", "libb.so", "libfront.so", "libbroken.so"]);
    let mut partial = all_found("a");
    partial.shutdown = None;
    let mut broken = all_found("e");
    broken.tests = None;
    let looked = registry.bind_all(vec![
        lookup(Some((vec!["a"], PluginImplementation::Backend)), partial, ContractSymbols::none()),
        lookup(None, all_found("c"), all_found("c")),
        lookup(Some((vec!["wifi"], PluginImplementation::Backend)), all_found("b"), ContractSymbols::none()),
        lookup(Some((vec!["ui"], PluginImplementation::Both)), all_found("d"), all_found("d")),
        lookup(Some((vec!["x"], PluginImplementation::Both)), ContractSymbols::none(), broken),
    ]);
    assert_eq!(looked, 5);
    registry.finish();
    let backend = registry.backend_plugins().unwrap();
    let places: Vec<usize> = backend.iter().map(|table| table.library).collect();
    assert_eq!(places, vec![2, 3]);
    assert_eq!(backend[0].capabilities, vec!["wifi"]);
    assert_eq!(backend[0].name, "b:name");
    assert_eq!(backend[1].capabilities, vec!["ui"]);
    let frontend = registry.frontend_plugins().unwrap();
    assert_eq!(frontend.len(), 1);
    assert_eq!(frontend[0].library, 3);
    assert_eq!(
        registry.failures(),
        &vec![
            BindFailure { library: 0, role: PluginRole::Backend, missing: EntryPoint::Shutdown },
            BindFailure { library: 4, role: PluginRole::Backend, missing: EntryPoint::Name },
            BindFailure { library: 4, role: PluginRole::Frontend, missing: EntryPoint::Tests },
        ]
    );
    assert!(registry.failures().iter().all(|failure| failure.level() == ErrorLevel::Critical));
}

#[test]
fn one_broken_and_one_whole_backend_plugin() {
    let mut partial = all_found("a");
    partial.data = None;
    let mut registry = loading_registry(&["liba.so", "libb.so"]);
    registry.bind_all(vec![
        lookup(Some((vec!["a"], PluginImplementation::Backend)), partial, ContractSymbols::none()),
        lookup(Some((vec!["b"], PluginImplementation::Backend)), all_found("b"), ContractSymbols::none()),
    ]);
    registry.finish();
    let backend = registry.backend_plugins().unwrap();
    assert_eq!(backend.len(), 1);
    assert_eq!(backend[0].library, 1);
    assert_eq!(backend[0].capabilities, vec!["b"]);
    assert_eq!(
        registry.failures(),
        &vec![BindFailure { library: 0, role: PluginRole::Backend, missing: EntryPoint::Data }]
    );
    assert_eq!(registry.failures()[0].level(), ErrorLevel::Critical);
}

#[test]
fn bad_file_and_good_plugin_in_either_order() {
    for bad_first in [true, false] {
        let bad = LoadAttempt { path: "junk".to_string(), opened: None };
        let good = LoadAttempt { path: "libg.so".to_string(), opened: Some(1) };
        let attempts = if bad_first { vec![bad, good] } else { vec![good, bad] };
        let mut registry = PluginRegistry::<u32, String>::new();
        assert_eq!(registry.access(), AccessAction::Build);
        registry.load_all(attempts);
        let looked = registry.bind_all(vec![lookup(
            Some((vec!["g"], PluginImplementation::Backend)),
            all_found("g"),
            ContractSymbols::none(),
        )]);
        assert_eq!(looked, 1);
        registry.finish();
        assert_eq!(registry.backend_plugins().unwrap().len(), 1);
        assert_eq!(registry.backend_plugins().unwrap()[0].capabilities, vec!["g"]);
        assert_eq!(registry.load_errors(), &vec![LoadError { path: "junk".to_string() }]);
        assert_eq!(registry.load_errors()[0].level(), ErrorLevel::Recoverable);
        assert!(registry.failures().is_empty());
    }
}

#[test]
fn lookups_without_a_library_are_passed_over() {
    let mut registry = loading_registry(&["liba.so"]);
    let looked = registry.bind_all(vec![
        lookup(Some((vec!["a"], PluginImplementation::Backend)), all_found("a"), ContractSymbols::none()),
        lookup(Some((vec!["b"], PluginImplementation::Backend)), all_found("b"), ContractSymbols::none()),
    ]);
    assert_eq!(looked, 1);
    registry.finish();
    assert_eq!(registry.backend_plugins().unwrap().len(), 1);
    let looked = registry.bind_all(vec![lookup(
        Some((vec!["late"], PluginImplementation::Backend)),
        all_found("late"),
        ContractSymbols::none(),
    )]);
    assert_eq!(looked, 0);
    assert_eq!(registry.backend_plugins().unwrap().len(), 1);
}
