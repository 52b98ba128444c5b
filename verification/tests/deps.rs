use pkger::deps::Dependencies;
use pkger::value::Value;

fn strings(items: &[&str]) -> Vec<String> {
    items.iter().map(|s| s.to_string()).collect()
}

fn list(items: &[&str]) -> Value {
    Value::Array(items.iter().map(|s| Value::String(s.to_string())).collect())
}

fn sorted(mut v: Vec<String>) -> Vec<String> {
    v.sort();
    v
}

fn sample() -> Dependencies {
    Dependencies {
        default: strings(&["gcc", "make", "gcc"]),
        per_image: vec![
            ("centos".to_string(), strings(&["rpm-build", "make"])),
            ("debian".to_string(), strings(&["dpkg-dev"])),
            ("centos".to_string(), strings(&["cmake", "rpm-build"])),
        ],
    }
}

#[test]
fn resolved_names_are_the_union_of_both_buckets() {
    let deps = sample();
    assert_eq!(
        sorted(deps.resolve_names("centos")),
        strings(&["cmake", "gcc", "make", "rpm-build"])
    );
    assert_eq!(sorted(deps.resolve_names("debian")), strings(&["dpkg-dev", "gcc", "make"]));
    assert_eq!(sorted(deps.resolve_names("fedora")), strings(&["gcc", "make"]));
}

#[test]
fn resolved_names_keep_the_order_of_the_declaration() {
    let deps = sample();
    assert_eq!(deps.resolve_names("centos"), strings(&["gcc", "make", "rpm-build", "cmake"]));
}

#[test]
fn resolved_names_hold_no_name_twice() {
    let deps = sample();
    let names = deps.resolve_names("centos");
    let mut unique = names.clone();
    unique.sort();
    unique.dedup();
    assert_eq!(unique.len(), names.len());
}

#[test]
fn empty_declaration_resolves_to_nothing() {
    assert_eq!(Dependencies::new().resolve_names("centos"), Vec::<String>::new());
}

#[test]
fn a_list_is_the_unfiltered_bucket() {
    let deps = Dependencies::from_value(&list(&["gcc", "make"])).unwrap();
    assert_eq!(deps.default, strings(&["gcc", "make"]));
    assert!(deps.per_image.is_empty());
}

#[test]
fn a_table_maps_images_to_lists() {
    let table = Value::Table(vec![
        ("all".to_string(), list(&["gcc"])),
        ("centos".to_string(), list(&["rpm-build"])),
        ("all".to_string(), list(&["make"])),
    ]);
    let deps = Dependencies::from_value(&table).unwrap();
    assert_eq!(deps.default, strings(&["gcc", "make"]));
    assert_eq!(deps.per_image, vec![("centos".to_string(), strings(&["rpm-build"]))]);
    assert_eq!(deps.resolve_names("centos"), strings(&["gcc", "make", "rpm-build"]));
}

#[test]
fn other_values_are_no_declaration() {
    assert_eq!(Dependencies::from_value(&Value::String("gcc".to_string())), None);
    assert_eq!(Dependencies::from_value(&Value::Integer(1)), None);
    assert_eq!(
        Dependencies::from_value(&Value::Array(vec![
            Value::String("gcc".to_string()),
            Value::Boolean(true)
        ])),
        None
    );
    assert_eq!(
        Dependencies::from_value(&Value::Table(vec![(
            "centos".to_string(),
            Value::String("gcc".to_string())
        )])),
        None
    );
}

#[test]
fn empty_list_and_empty_table_declare_nothing() {
    assert_eq!(Dependencies::from_value(&list(&[])), Some(Dependencies::new()));
    assert_eq!(Dependencies::from_value(&Value::Table(vec![])), Some(Dependencies::new()));
}
