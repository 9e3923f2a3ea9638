use dns_hooks::action::Stage;
use dns_hooks::hooks::Hooks;
use dns_hooks::loader::ModuleFile;
use dns_hooks::loader::MISSING_STEM;
use dns_hooks::loader::UNABLE_TO_REGISTER;
use dns_hooks::loader::UNSUPPORTED_PATH;
use dns_hooks::service::ModuleLoad;
use dns_hooks::service::Service;
use dns_hooks::service::ServiceHooks;
use dns_hooks::service::UNABLE_TO_LOAD;

type Registry = Hooks<&'static str, u32>;

fn master_id() -> Vec<u8> {
    Vec::new()
}

fn file(stem: Option<&[u8]>, path: &[u8]) -> ModuleFile {
    ModuleFile { stem: stem.map(|s| s.to_vec()), path: path.to_vec() }
}

fn master_file() -> ModuleFile {
    file(Some(b"master"), b"/opt/hooks/master.so")
}

fn module(library: &'static str, recv: Option<u32>, deliver: Option<u32>) -> ModuleLoad<&'static str, u32> {
    ModuleLoad::Loaded(ServiceHooks::new(library, recv, deliver))
}

#[test]
fn service_hooks_keep_what_they_were_built_with() {
    let hooks = ServiceHooks::new("lib", Some(10u32), Some(20u32));
    assert_eq!(*hooks.handle(), "lib");
    assert_eq!(hooks.hook(Stage::Recv), Some(&10));
    assert_eq!(hooks.hook(Stage::Deliver), Some(&20));
}

#[test]
fn service_hooks_may_lack_either_entry_point() {
    let recv_only = ServiceHooks::new("lib", Some(1u32), None);
    assert_eq!(recv_only.hook(Stage::Recv), Some(&1));
    assert_eq!(recv_only.hook(Stage::Deliver), None);
    let deliver_only = ServiceHooks::new("lib", None, Some(2u32));
    assert_eq!(deliver_only.hook(Stage::Recv), None);
    assert_eq!(deliver_only.hook(Stage::Deliver), Some(&2));
    let neither: ServiceHooks<&str, u32> = ServiceHooks::new("lib", None, None);
    assert_eq!(neither.hook(Stage::Recv), None);
    assert_eq!(neither.hook(Stage::Deliver), None);
}

#[test]
fn service_without_a_module_is_a_placeholder() {
    let service: Service<&str, u32> = Service::new(ModuleLoad::NotRequested).unwrap();
    assert!(service.service_hooks.is_none());
    assert_eq!(service.hook(Stage::Recv), None);
    assert_eq!(service.hook(Stage::Deliver), None);
}

#[test]
fn service_of_a_failed_load_is_an_error() {
    let made: Result<Service<&str, u32>, &'static str> = Service::new(ModuleLoad::Failed);
    match made {
        Err(e) => assert_eq!(e, UNABLE_TO_LOAD),
        Ok(_) => panic!("a failed load made a service"),
    }
    assert_eq!(UNABLE_TO_LOAD, "Unable to load the dynamic library");
}

#[test]
fn service_of_a_loaded_module_has_its_hooks() {
    let service = Service::new(module("lib", Some(5), None)).unwrap();
    assert!(service.service_hooks.is_some());
    assert_eq!(service.hook(Stage::Recv), Some(&5));
    assert_eq!(service.hook(Stage::Deliver), None);
}

#[test]
fn new_registry_is_empty_and_disabled() {
    let hooks = Registry::new(Some("/opt/hooks"));
    assert!(!hooks.enabled(Stage::Recv));
    assert!(!hooks.enabled(Stage::Deliver));
    assert!(hooks.get(&master_id()).is_none());
    assert!(hooks.get(&b"geoip".to_vec()).is_none());
}

#[test]
fn registry_without_a_directory_has_no_pattern() {
    let hooks = Registry::new(None);
    assert_eq!(hooks.pattern("so"), None);
    assert!(!hooks.enabled(Stage::Recv));
    assert!(!hooks.enabled(Stage::Deliver));
}

#[test]
fn registry_pattern_is_that_of_its_directory() {
    let hooks = Registry::new(Some("/opt/hooks"));
    assert_eq!(hooks.pattern("so"), Some("/opt/hooks/*.so".to_string()));
    assert_eq!(hooks.pattern("dylib"), Some("/opt/hooks/*.dylib".to_string()));
}

#[test]
fn loaded_master_enables_both_stages() {
    let mut hooks = Registry::new(Some("/opt/hooks"));
    assert_eq!(hooks.load_library(&master_file(), module("lib", Some(1), None)), Ok(()));
    assert!(hooks.enabled(Stage::Recv));
    assert!(hooks.enabled(Stage::Deliver));
    let service = hooks.get(&master_id()).expect("the master service is registered");
    assert_eq!(service.hook(Stage::Recv), Some(&1));
    assert_eq!(service.hook(Stage::Deliver), None);
}

#[test]
fn master_without_entry_points_still_enables() {
    let mut hooks = Registry::new(Some("/opt/hooks"));
    assert_eq!(hooks.load_library(&master_file(), module("lib", None, None)), Ok(()));
    assert!(hooks.enabled(Stage::Recv));
    assert!(hooks.enabled(Stage::Deliver));
}

#[test]
fn master_is_registered_under_the_master_identifier_only() {
    let mut hooks = Registry::new(Some("/opt/hooks"));
    hooks.load_library(&master_file(), module("lib", Some(1), Some(2))).unwrap();
    assert!(hooks.get(&master_id()).is_some());
    assert!(hooks.get(&b"master".to_vec()).is_none());
    assert!(hooks.get(&b"m".to_vec()).is_none());
    assert!(hooks.get(&vec![0u8]).is_none());
}

#[test]
fn failed_master_is_not_registered() {
    let mut hooks = Registry::new(Some("/opt/hooks"));
    assert_eq!(hooks.load_library(&master_file(), ModuleLoad::Failed), Err(UNABLE_TO_REGISTER));
    assert_eq!(UNABLE_TO_REGISTER, "Unable to register the service");
    assert!(!hooks.enabled(Stage::Recv));
    assert!(hooks.get(&master_id()).is_none());
}

#[test]
fn failed_master_leaves_an_earlier_one_in_place() {
    let mut hooks = Registry::new(Some("/opt/hooks"));
    hooks.load_library(&master_file(), module("first", Some(1), None)).unwrap();
    assert_eq!(hooks.load_library(&master_file(), ModuleLoad::Failed), Err(UNABLE_TO_REGISTER));
    assert!(hooks.enabled(Stage::Recv));
    assert_eq!(hooks.get(&master_id()).unwrap().hook(Stage::Recv), Some(&1));
}

#[test]
fn master_without_a_load_is_an_empty_entry() {
    let mut hooks = Registry::new(Some("/opt/hooks"));
    assert_eq!(hooks.load_library(&master_file(), ModuleLoad::NotRequested), Ok(()));
    let service = hooks.get(&master_id()).expect("a placeholder is registered");
    assert!(service.service_hooks.is_none());
    assert!(!hooks.enabled(Stage::Recv));
    assert!(!hooks.enabled(Stage::Deliver));
}

#[test]
fn later_master_replaces_the_earlier_one() {
    let mut hooks = Registry::new(Some("/opt/hooks"));
    hooks.load_library(&master_file(), module("first", Some(1), Some(2))).unwrap();
    hooks.load_library(&master_file(), module("second", None, Some(3))).unwrap();
    let service = hooks.get(&master_id()).unwrap();
    assert_eq!(service.hook(Stage::Recv), None);
    assert_eq!(service.hook(Stage::Deliver), Some(&3));
    assert_eq!(*service.service_hooks.as_ref().unwrap().handle(), "second");
}

#[test]
fn other_module_is_loaded_and_not_retained() {
    let mut hooks = Registry::new(Some("/opt/hooks"));
    let geoip = file(Some(b"geoip"), b"/opt/hooks/geoip.so");
    assert_eq!(hooks.load_library(&geoip, module("geoip", Some(1), Some(2))), Ok(()));
    assert!(!hooks.enabled(Stage::Recv));
    assert!(hooks.get(&b"geoip".to_vec()).is_none());
    assert!(hooks.get(&master_id()).is_none());
}

#[test]
fn other_module_that_fails_to_load_is_an_error() {
    let mut hooks = Registry::new(Some("/opt/hooks"));
    let geoip = file(Some(b"geoip"), b"/opt/hooks/geoip.so");
    assert_eq!(hooks.load_library(&geoip, ModuleLoad::Failed), Err(UNABLE_TO_REGISTER));
    assert!(!hooks.enabled(Stage::Recv));
    assert!(hooks.get(&b"geoip".to_vec()).is_none());
    assert!(hooks.get(&master_id()).is_none());
}

#[test]
fn other_module_that_fails_to_load_leaves_the_master_in_place() {
    let mut hooks = Registry::new(Some("/opt/hooks"));
    hooks.load_library(&master_file(), module("lib", Some(1), None)).unwrap();
    let geoip = file(Some(b"geoip"), b"/opt/hooks/geoip.so");
    assert_eq!(hooks.load_library(&geoip, ModuleLoad::Failed), Err(UNABLE_TO_REGISTER));
    assert_eq!(hooks.load_library(&geoip, module("geoip", Some(8), Some(9))), Ok(()));
    assert!(hooks.enabled(Stage::Recv));
    assert_eq!(hooks.get(&master_id()).unwrap().hook(Stage::Recv), Some(&1));
    assert_eq!(hooks.get(&master_id()).unwrap().hook(Stage::Deliver), None);
}

#[test]
fn other_module_at_an_undecodable_path_is_turned_down() {
    let mut hooks = Registry::new(Some("/opt/hooks"));
    let odd = file(Some(b"geoip"), b"/opt/\xff/geoip.so");
    assert_eq!(hooks.load_library(&odd, ModuleLoad::NotRequested), Err(UNSUPPORTED_PATH));
    assert!(!hooks.enabled(Stage::Recv));
}

#[test]
fn file_without_stem_is_turned_down() {
    let mut hooks = Registry::new(Some("/opt/hooks"));
    let odd = file(None, b"/opt/hooks/..");
    assert_eq!(hooks.load_library(&odd, module("lib", Some(1), None)), Err(MISSING_STEM));
    assert!(!hooks.enabled(Stage::Recv));
}

#[test]
fn master_at_an_undecodable_path_is_turned_down() {
    let mut hooks = Registry::new(Some("/opt/hooks"));
    let odd = file(Some(b"master"), b"/opt/\xff/master.so");
    assert_eq!(hooks.load_library(&odd, module("lib", Some(1), None)), Err(UNSUPPORTED_PATH));
    assert!(!hooks.enabled(Stage::Recv));
    assert!(hooks.get(&master_id()).is_none());
}

#[test]
fn empty_directory_leaves_the_framework_disabled() {
    let mut hooks = Registry::new(Some("/opt/hooks"));
    let warnings = hooks.load_libraries(Vec::new());
    assert!(warnings.is_empty());
    assert!(!hooks.enabled(Stage::Recv));
    assert!(!hooks.enabled(Stage::Deliver));
    assert!(hooks.get(&master_id()).is_none());
}

#[test]
fn directory_without_master_leaves_the_registry_empty() {
    let mut hooks = Registry::new(Some("/opt/hooks"));
    let found = vec![
        (file(Some(b"geoip"), b"/opt/hooks/geoip.so"), module("geoip", Some(1), Some(2))),
        (file(Some(b"filter"), b"/opt/hooks/filter.so"), module("filter", None, Some(3))),
    ];
    let warnings = hooks.load_libraries(found);
    assert!(warnings.is_empty());
    assert!(!hooks.enabled(Stage::Recv));
    assert!(!hooks.enabled(Stage::Deliver));
    assert!(hooks.get(&master_id()).is_none());
    assert!(hooks.get(&b"geoip".to_vec()).is_none());
    assert!(hooks.get(&b"filter".to_vec()).is_none());
}

#[test]
fn failed_load_of_any_module_is_a_warning() {
    let mut hooks = Registry::new(Some("/opt/hooks"));
    let found = vec![
        (file(Some(b"geoip"), b"/opt/hooks/geoip.so"), ModuleLoad::Failed),
        (master_file(), module("lib", Some(4), None)),
        (file(Some(b"filter"), b"/opt/hooks/filter.so"), ModuleLoad::Failed),
    ];
    let warnings = hooks.load_libraries(found);
    assert_eq!(warnings, vec![(0usize, UNABLE_TO_REGISTER), (2usize, UNABLE_TO_REGISTER)]);
    assert!(hooks.enabled(Stage::Recv));
    assert_eq!(hooks.get(&master_id()).unwrap().hook(Stage::Recv), Some(&4));
    assert!(hooks.get(&b"geoip".to_vec()).is_none());
    assert!(hooks.get(&b"filter".to_vec()).is_none());
}

#[test]
fn registry_without_a_directory_takes_nothing() {
    let mut hooks = Registry::new(None);
    let found = vec![
        (master_file(), module("lib", Some(1), Some(2))),
        (file(None, b"/"), ModuleLoad::NotRequested),
        (file(Some(b"geoip"), b"/opt/hooks/geoip.so"), ModuleLoad::Failed),
    ];
    let warnings = hooks.load_libraries(found);
    assert!(warnings.is_empty());
    assert!(!hooks.enabled(Stage::Recv));
    assert!(!hooks.enabled(Stage::Deliver));
    assert!(hooks.get(&master_id()).is_none());
    assert_eq!(hooks.pattern("so"), None);
}

#[test]
fn registry_without_a_directory_keeps_what_it_holds() {
    let mut hooks = Registry::new(None);
    hooks.load_library(&master_file(), module("first", Some(1), None)).unwrap();
    let warnings = hooks.load_libraries(vec![(master_file(), module("second", Some(2), None))]);
    assert!(warnings.is_empty());
    assert_eq!(hooks.get(&master_id()).unwrap().hook(Stage::Recv), Some(&1));
}

#[test]
fn undecodable_stem_is_skipped_and_loading_goes_on() {
    let mut hooks = Registry::new(Some("/opt/hooks"));
    let found = vec![
        (file(Some(b"bad\xffname"), b"/opt/hooks/bad\xffname.so"), ModuleLoad::NotRequested),
        (master_file(), module("lib", Some(7), None)),
    ];
    let warnings = hooks.load_libraries(found);
    assert_eq!(warnings, vec![(0usize, UNSUPPORTED_PATH)]);
    assert!(hooks.enabled(Stage::Recv));
    assert_eq!(hooks.get(&master_id()).unwrap().hook(Stage::Recv), Some(&7));
}

#[test]
fn every_skipped_file_gives_a_warning_in_order() {
    let mut hooks = Registry::new(Some("/opt/hooks"));
    let found = vec![
        (file(None, b"/"), ModuleLoad::NotRequested),
        (file(Some(b"geoip"), b"/opt/hooks/geoip.so"), ModuleLoad::NotRequested),
        (file(Some(b"\xc0"), b"/opt/hooks/\xc0.so"), ModuleLoad::NotRequested),
        (master_file(), ModuleLoad::Failed),
        (file(Some(b"master"), b"/opt/\xfe/master.so"), ModuleLoad::NotRequested),
        (file(Some(b"filter"), b"/opt/hooks/filter.so"), ModuleLoad::Failed),
        (file(Some(b"cache"), b"/opt/\xfe/cache.so"), ModuleLoad::NotRequested),
    ];
    let warnings = hooks.load_libraries(found);
    assert_eq!(
        warnings,
        vec![
            (0usize, MISSING_STEM),
            (2usize, UNSUPPORTED_PATH),
            (3usize, UNABLE_TO_REGISTER),
            (4usize, UNSUPPORTED_PATH),
            (5usize, UNABLE_TO_REGISTER),
            (6usize, UNSUPPORTED_PATH),
        ]
    );
    assert!(!hooks.enabled(Stage::Recv));
    assert!(hooks.get(&master_id()).is_none());
}

#[test]
fn master_in_the_middle_of_a_directory_is_registered() {
    let mut hooks = Registry::new(Some("/opt/hooks"));
    let found = vec![
        (file(Some(b"a"), b"/opt/hooks/a.so"), ModuleLoad::NotRequested),
        (master_file(), module("lib", None, Some(9))),
        (file(Some(b"z"), b"/opt/hooks/z.so"), ModuleLoad::NotRequested),
        (file(None, b""), ModuleLoad::NotRequested),
    ];
    let warnings = hooks.load_libraries(found);
    assert_eq!(warnings, vec![(3usize, MISSING_STEM)]);
    assert!(hooks.enabled(Stage::Deliver));
    assert_eq!(hooks.get(&master_id()).unwrap().hook(Stage::Deliver), Some(&9));
    assert!(hooks.get(&b"a".to_vec()).is_none());
    assert!(hooks.get(&b"z".to_vec()).is_none());
}

#[test]
fn loading_in_two_rounds_is_loading_in_one() {
    let mut once = Registry::new(Some("/opt/hooks"));
    once.load_libraries(vec![
        (master_file(), module("first", Some(1), None)),
        (master_file(), module("second", Some(2), None)),
    ]);
    let mut twice = Registry::new(Some("/opt/hooks"));
    twice.load_libraries(vec![(master_file(), module("first", Some(1), None))]);
    twice.load_libraries(vec![(master_file(), module("second", Some(2), None))]);
    assert_eq!(once.get(&master_id()).unwrap().hook(Stage::Recv), Some(&2));
    assert_eq!(twice.get(&master_id()).unwrap().hook(Stage::Recv), Some(&2));
}
