use flowrs_build::package::{Constructor, Crate, Module, Package, Type};
use flowrs_build::package_manager::PackageManager;

fn s(x: &str) -> String {
    x.to_owned()
}

fn leaf_type() -> Type {
    Type {
        inputs: None,
        outputs: None,
        type_parameters: None,
        constructors: vec![(s("New"), Constructor::New { function_name: None })],
    }
}

fn sample_package(package_name: &str) -> Package {
    let inner = Module { types: vec![(s("Leaf"), leaf_type())], modules: vec![] };
    let outer = Module { types: vec![], modules: vec![(s("inner"), inner)] };
    Package {
        name: s(package_name),
        version: s("0.1.0"),
        crates: vec![(
            s("sample"),
            Crate { types: vec![(s("Top"), leaf_type())], modules: vec![(s("outer"), outer)] },
        )],
    }
}

#[test]
fn prelude_lookup() {
    let pm = PackageManager::new();
    let t = pm.get_type("i32").expect("prelude type missing");
    let default_ctor =
        flowrs_build::package::find_constructor(&t.constructors, "Default").expect("Default");
    assert!(matches!(default_ctor, Constructor::FromDefault));
    let json_ctor =
        flowrs_build::package::find_constructor(&t.constructors, "Json").expect("Json");
    assert!(matches!(json_ctor, Constructor::FromJson));
    assert!(pm.get_type("nonexistent").is_none());
}

#[test]
fn every_prelude_type_has_default_and_json() {
    let pm = PackageManager::new();
    let names = [
        "i8", "i16", "i32", "i64", "i128", "u8", "u16", "u32", "u64", "u128", "isize", "usize",
        "f32", "f64", "bool", "char",
    ];
    for name in names {
        let t = pm.get_type(name).expect("prelude type missing");
        assert!(flowrs_build::package::find_constructor(&t.constructors, "Default").is_some());
        assert!(flowrs_build::package::find_constructor(&t.constructors, "Json").is_some());
    }
}

#[test]
fn added_package_is_found_and_listed() {
    let mut pm = PackageManager::new();
    let p = sample_package("sample-pkg");
    pm.add_package(p.clone());
    let found = pm.get_package("sample-pkg").expect("package missing");
    assert_eq!(&p, found);
    let all = pm.get_all_packages();
    assert!(all.iter().any(|q| q == &p));
}

#[test]
fn adding_a_name_twice_keeps_the_first() {
    let mut pm = PackageManager::new();
    let mut first = sample_package("twin");
    first.version = s("1.0.0");
    let mut second = sample_package("twin");
    second.version = s("2.0.0");
    pm.add_package(first);
    pm.add_package(second);
    assert_eq!("1.0.0", pm.get_package("twin").expect("twin").version);
}

#[test]
fn qualified_paths_resolve_through_modules() {
    let mut pm = PackageManager::new();
    pm.add_package(sample_package("sample-pkg"));
    assert!(pm.get_type("sample::Top").is_some());
    assert!(pm.get_type("sample::outer::inner::Leaf").is_some());
    assert!(pm.get_type("sample::outer::Leaf").is_none());
    assert!(pm.get_type("sample::outer::inner::Missing").is_none());
    assert!(pm.get_type("other::outer::inner::Leaf").is_none());
}

#[test]
fn get_type_from_package_needs_two_segments() {
    let pm = PackageManager::new();
    let p = sample_package("sample-pkg");
    let ids = vec![s("sample")];
    assert!(pm.get_type_from_package(&ids, &p).is_none());
    let ids2 = vec![s("sample"), s("Top")];
    assert!(pm.get_type_from_package(&ids2, &p).is_some());
}
