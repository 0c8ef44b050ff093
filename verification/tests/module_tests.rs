use engine_bridge::modules::{ModuleError, ModuleInfo, ModuleRegistry, ResolveError};

fn module(id: u64, name: &str, main: bool, handle: u64, requests: &[&str]) -> ModuleInfo {
    ModuleInfo {
        id,
        name: name.to_owned(),
        main,
        handle,
        requests: requests.iter().map(|r| (*r).to_owned()).collect(),
    }
}

fn registry_with_referrer() -> ModuleRegistry {
    let mut registry = ModuleRegistry::new();
    registry
        .register(module(1, "main.mod", true, 100, &["a.mod", "b.mod"]))
        .unwrap();
    registry.register(module(2, "a.mod", false, 200, &[])).unwrap();
    registry.register(module(3, "b.mod", false, 300, &[])).unwrap();
    registry
}

#[test]
fn resolving_a_requested_specifier_returns_the_target_handle() {
    let registry = registry_with_referrer();
    // The host resolution callback maps ("b.mod", referrer 1) to module 3.
    assert_eq!(registry.resolve(&"b.mod".to_owned(), 1, 3), Ok(300));
}

#[test]
fn resolving_a_specifier_the_referrer_never_requested_fails() {
    let registry = registry_with_referrer();
    assert_eq!(
        registry.resolve(&"c.mod".to_owned(), 1, 3),
        Err(ResolveError::SpecifierNotRequested)
    );
}

#[test]
fn resolving_with_an_unknown_referrer_fails() {
    let registry = registry_with_referrer();
    assert_eq!(
        registry.resolve(&"a.mod".to_owned(), 9, 2),
        Err(ResolveError::UnknownReferrer)
    );
}

#[test]
fn resolving_to_an_unregistered_target_fails() {
    let registry = registry_with_referrer();
    assert_eq!(
        registry.resolve(&"a.mod".to_owned(), 1, 42),
        Err(ResolveError::TargetNotRegistered)
    );
}

#[test]
fn duplicate_module_identity_is_refused() {
    let mut registry = ModuleRegistry::new();
    registry.register(module(1, "main.mod", true, 100, &[])).unwrap();
    assert_eq!(
        registry.register(module(1, "other.mod", false, 101, &[])),
        Err(ModuleError::DuplicateModule)
    );
    assert_eq!(registry.get_info(1).unwrap().name, "main.mod");
}

#[test]
fn import_meta_reports_url_and_main_flag() {
    let registry = registry_with_referrer();
    let meta = registry.import_meta(1).unwrap();
    assert_eq!(meta.url, "main.mod");
    assert!(meta.main);
    let meta = registry.import_meta(2).unwrap();
    assert_eq!(meta.url, "a.mod");
    assert!(!meta.main);
    assert!(registry.import_meta(9).is_none());
}

#[test]
fn get_info_finds_modules_by_identity() {
    let registry = registry_with_referrer();
    assert_eq!(registry.get_info(3).unwrap().handle, 300);
    assert!(registry.get_info(4).is_none());
    assert!(registry.contains_id(2));
    assert!(!registry.contains_id(17));
}

#[test]
fn referrer_with_no_requests_resolves_nothing() {
    let registry = registry_with_referrer();
    assert_eq!(
        registry.resolve(&"a.mod".to_owned(), 2, 2),
        Err(ResolveError::SpecifierNotRequested)
    );
}
