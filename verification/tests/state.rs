use pkger::codec::{from_row, same_row, same_rows, same_text, same_texts, to_row, ImageRow};
use pkger::error::PkgerError;
use pkger::state::{image_tag, same_names, ImageState, ImagesState, Timestamp};
use pkger::target::{BuildTarget, ImageTarget, Os, RecipeTarget};

fn strings(items: &[&str]) -> Vec<String> {
    items.iter().map(|s| s.to_string()).collect()
}

fn key(recipe: &str, image: &str, target: BuildTarget) -> RecipeTarget {
    RecipeTarget::new(recipe, &ImageTarget::new(image, target, None))
}

fn state(id: &str, image: &str, secs: u64, deps: &[&str]) -> ImageState {
    let at = Timestamp { secs, nanos: 5 };
    ImageState::new(
        id,
        &key("hello", image, BuildTarget::Rpm),
        &image_tag(image, &at),
        &at,
        Some(&Os::new("centos", Some("8"))),
        None,
        "{\"Id\":\"sha256:1\"}",
        &strings(deps),
        true,
    )
    .unwrap()
}

fn store() -> ImagesState {
    let mut s = ImagesState::new("/tmp/state");
    s.update(&key("hello", "centos", BuildTarget::Rpm), &state("id-1", "centos", 100, &["gcc", "make"]));
    s.update(&key("hello", "ubuntu", BuildTarget::Deb), &state("id-2", "ubuntu", 200, &[]));
    s.update(&key("other", "centos", BuildTarget::Rpm), &state("id-3", "centos", 300, &["cmake"]));
    s
}

#[test]
fn tag_is_image_and_seconds() {
    assert_eq!(image_tag("centos", &Timestamp { secs: 1609459200, nanos: 999 }), "centos-1609459200");
    assert_eq!(image_tag("centos", &Timestamp { secs: 0, nanos: 0 }), "centos-0");
}

#[test]
fn new_state_takes_what_it_is_given() {
    let s = state("id-1", "centos", 100, &["gcc", "make", "gcc"]);
    assert_eq!(s.id, "id-1");
    assert_eq!(s.image, "centos");
    assert_eq!(s.tag, "centos-100");
    assert_eq!(s.os, Os::new("centos", Some("8")));
    assert_eq!(s.timestamp, Timestamp { secs: 100, nanos: 5 });
    assert_eq!(s.details, "{\"Id\":\"sha256:1\"}");
    assert_eq!(s.deps, strings(&["gcc", "make"]));
    assert!(s.simple);
}

#[test]
fn declared_os_wins_over_detected() {
    let at = Timestamp { secs: 1, nanos: 0 };
    let target = key("hello", "centos", BuildTarget::Rpm);
    let declared = Os::new("centos", None);
    let detected = Os::new("rocky", Some("9"));
    let s = ImageState::new("id", &target, "t", &at, Some(&declared), Some(detected.clone()), "", &vec![], false)
        .unwrap();
    assert_eq!(s.os, declared);
    let s = ImageState::new("id", &target, "t", &at, None, Some(detected.clone()), "", &vec![], false)
        .unwrap();
    assert_eq!(s.os, detected);
    assert!(!s.simple);
}

#[test]
fn unknown_os_is_a_detection_failure() {
    let at = Timestamp { secs: 1, nanos: 0 };
    let target = key("hello", "centos", BuildTarget::Rpm);
    assert_eq!(
        ImageState::new("id", &target, "t", &at, None, None, "", &vec![], false),
        Err(PkgerError::OsDetectionFailed { image: "centos".to_string() })
    );
}

#[test]
fn names_are_compared_as_sets() {
    assert!(same_names(&strings(&["a", "b"]), &strings(&["b", "a", "a"])));
    assert!(same_names(&strings(&[]), &strings(&[])));
    assert!(!same_names(&strings(&["a"]), &strings(&["a", "b"])));
    assert!(!same_names(&strings(&["a", "c"]), &strings(&["a", "b"])));
}

#[test]
fn image_is_reused_only_when_nothing_changed() {
    let s = state("id-1", "centos", 100, &["gcc", "make"]);
    assert!(s.is_reusable(true, &strings(&["make", "gcc"]), true));
    assert!(!s.is_reusable(false, &strings(&["make", "gcc"]), true));
    assert!(!s.is_reusable(true, &strings(&["make", "gcc", "cmake"]), true));
    assert!(!s.is_reusable(true, &strings(&["make"]), true));
    assert!(!s.is_reusable(true, &strings(&["make", "gcc"]), false));
}

#[test]
fn cache_hit_needs_all_four() {
    let s = store();
    let k = key("hello", "centos", BuildTarget::Rpm);
    let deps = strings(&["gcc", "make"]);
    for present in [true, false] {
        for exists in [true, false] {
            for same_deps in [true, false] {
                for same_mode in [true, false] {
                    let target = if present { k.clone() } else { key("hello", "fedora", BuildTarget::Rpm) };
                    let required = if same_deps { deps.clone() } else { strings(&["gcc"]) };
                    let hit = s.cached(&target, exists, &required, same_mode).is_some();
                    assert_eq!(hit, present && exists && same_deps && same_mode);
                }
            }
        }
    }
    assert_eq!(s.cached(&k, true, &deps, true).unwrap().id, "id-1");
}

#[test]
fn keys_differ_by_each_component() {
    let s = store();
    assert_eq!(s.find(&key("hello", "centos", BuildTarget::Rpm)).unwrap().id, "id-1");
    assert_eq!(s.find(&key("hello", "ubuntu", BuildTarget::Deb)).unwrap().id, "id-2");
    assert_eq!(s.find(&key("other", "centos", BuildTarget::Rpm)).unwrap().id, "id-3");
    assert_eq!(s.find(&key("hello", "centos", BuildTarget::Deb)), None);
    assert_eq!(s.find(&key("hello", "debian", BuildTarget::Rpm)), None);
    assert_eq!(s.find(&key("hell", "centos", BuildTarget::Rpm)), None);
    let a = key("hello", "centos", BuildTarget::Rpm);
    assert!(a.same_as(&key("hello", "centos", BuildTarget::Rpm)));
    assert!(!a.same_as(&key("hello", "centos", BuildTarget::Gzip)));
    assert_eq!(a, RecipeTarget::new("hello", &ImageTarget::new("centos", BuildTarget::Rpm, Some(Os::new("x", None)))));
}

#[test]
fn update_is_last_writer_wins() {
    let mut s = store();
    let k = key("hello", "centos", BuildTarget::Rpm);
    assert_eq!(s.len(), 3);
    s.update(&k, &state("id-9", "centos", 900, &["gcc"]));
    assert_eq!(s.len(), 3);
    assert_eq!(s.find(&k).unwrap().id, "id-9");
    assert_eq!(s.find(&key("hello", "ubuntu", BuildTarget::Deb)).unwrap().id, "id-2");
    s.update(&k, &state("id-10", "centos", 1000, &["gcc"]));
    assert_eq!(s.find(&k).unwrap().id, "id-10");
    assert_eq!(s.entry(0).unwrap().1.id, "id-10");
    assert_eq!(s.entry(3), None);
    assert_eq!(s.len(), 3);
}

#[test]
fn empty_and_default_store() {
    let s = ImagesState::new("/x");
    assert_eq!(s.len(), 0);
    assert_eq!(s.state_file(), "/x");
    assert_eq!(ImagesState::default().state_file(), ".pkger.state");
    assert_eq!(ImagesState::default().len(), 0);
}

#[test]
fn second_run_reuses_and_changed_dependencies_rebuild() {
    let mut s = ImagesState::new(".pkger.state");
    let k = key("hello", "centos", BuildTarget::Rpm);
    let build_depends = strings(&["gcc", "make"]);
    assert!(s.cached(&k, false, &build_depends, true).is_none());
    let at = Timestamp { secs: 1609459200, nanos: 0 };
    let first = ImageState::new(
        "sha256:aaa",
        &k,
        &image_tag("centos", &at),
        &at,
        None,
        Some(Os::new("centos", Some("8"))),
        "",
        &build_depends,
        true,
    )
    .unwrap();
    assert_eq!(first.tag, "centos-1609459200");
    s.update(&k, &first);

    let reused = s.cached(&k, true, &build_depends, true).unwrap();
    assert_eq!(reused.id, "sha256:aaa");

    let more = strings(&["gcc", "make", "cmake"]);
    assert!(s.cached(&k, true, &more, true).is_none());
    let later = Timestamp { secs: 1609459300, nanos: 0 };
    let second = ImageState::new(
        "sha256:bbb",
        &k,
        &image_tag("centos", &later),
        &later,
        None,
        Some(Os::new("centos", Some("8"))),
        "",
        &more,
        true,
    )
    .unwrap();
    s.update(&k, &second);
    let rebuilt = s.cached(&k, true, &more, true).unwrap();
    assert_eq!(rebuilt.id, "sha256:bbb");
    assert_eq!(rebuilt.tag, "centos-1609459300");
}

#[test]
fn row_round_trip() {
    let k = key("hello", "centos", BuildTarget::Gzip);
    let s = state("id-1", "centos", 100, &["gcc", "make"]);
    let row = to_row(&k, &s);
    assert_eq!(
        row,
        (
            strings(&["hello", "centos", "gzip", "id-1", "centos", "centos-100", "centos", "{\"Id\":\"sha256:1\"}"]),
            Some("8".to_string()),
            100,
            5,
            strings(&["gcc", "make"]),
            true
        )
    );
    assert_eq!(from_row(&row), Some((k, s)));
}

#[test]
fn malformed_rows_stand_for_nothing() {
    let short: ImageRow = (strings(&["hello", "centos", "rpm"]), None, 0, 0, vec![], false);
    assert_eq!(from_row(&short), None);
    let bad_target: ImageRow =
        (strings(&["hello", "centos", "exe", "id", "centos", "tag", "centos", ""]), None, 0, 0, vec![], false);
    assert_eq!(from_row(&bad_target), None);
    let long: ImageRow = (
        strings(&["hello", "centos", "rpm", "id", "centos", "tag", "centos", "", "extra"]),
        None,
        0,
        0,
        vec![],
        false,
    );
    assert_eq!(from_row(&long), None);
}

#[test]
fn rows_of_a_store_are_read_back() {
    let s = store();
    let rows = s.rows();
    assert_eq!(rows.len(), 3);
    assert_eq!(ImagesState::from_rows(&rows, "/tmp/state"), Ok(store()));
}

#[test]
fn later_rows_replace_earlier_ones() {
    let k = key("hello", "centos", BuildTarget::Rpm);
    let rows = vec![
        to_row(&k, &state("id-1", "centos", 1, &[])),
        to_row(&key("hello", "ubuntu", BuildTarget::Deb), &state("id-2", "ubuntu", 2, &[])),
        to_row(&k, &state("id-3", "centos", 3, &[])),
    ];
    let s = ImagesState::from_rows(&rows, "f").unwrap();
    assert_eq!(s.len(), 2);
    assert_eq!(s.find(&k).unwrap().id, "id-3");
}

#[test]
fn bad_row_makes_the_file_corrupt() {
    let mut rows = store().rows();
    rows[1].0.pop();
    assert_eq!(ImagesState::from_rows(&rows, "f"), Err(PkgerError::StateFileCorrupt));
}

#[test]
fn decode_inverts_encode() {
    let s = store();
    let bytes = s.encode().unwrap();
    assert!(!bytes.is_empty());
    let back = ImagesState::decode(&bytes).unwrap();
    assert_eq!(back, s);
    assert_eq!(back.state_file(), "/tmp/state");
    assert_eq!(back.encode().unwrap(), bytes);

    let empty = ImagesState::new(".pkger.state");
    assert_eq!(ImagesState::decode(&empty.encode().unwrap()), Ok(ImagesState::new(".pkger.state")));
}

#[test]
fn reloaded_file_yields_the_same_map() {
    let s = store();
    let bytes = s.save(true).unwrap();
    let back = ImagesState::try_from_path("/elsewhere", Some(&bytes)).unwrap();
    for i in 0..s.len() {
        let (k, v) = s.entry(i).unwrap();
        assert_eq!(back.find(k), Some(v));
    }
    assert_eq!(back.len(), s.len());
}

#[test]
fn encoding_is_cbor() {
    let s = ImagesState::new("f");
    assert_eq!(s.encode().unwrap(), vec![0x82, 0x80, 0x61, b'f']);
    let value: serde_cbor::Value = serde_cbor::from_slice(&store().encode().unwrap()).unwrap();
    match value {
        serde_cbor::Value::Array(parts) => {
            assert_eq!(parts.len(), 2);
            assert_eq!(parts[1], serde_cbor::Value::Text("/tmp/state".to_string()));
            match &parts[0] {
                serde_cbor::Value::Array(rows) => assert_eq!(rows.len(), 3),
                other => panic!("unexpected {other:?}"),
            }
        }
        other => panic!("unexpected {other:?}"),
    }
}

#[test]
fn corrupt_file_is_reported() {
    for bytes in [&b""[..], &b"not cbor at all"[..], &[0x82, 0x80][..], &[0x82, 0x80, 0x61, b'f', 0x00][..], &[0xa0][..]] {
        assert_eq!(ImagesState::decode(bytes), Err(PkgerError::StateFileCorrupt));
        assert_eq!(ImagesState::try_from_path("f", Some(bytes)), Err(PkgerError::StateFileCorrupt));
    }
    let mut bytes = store().encode().unwrap();
    bytes.truncate(bytes.len() - 3);
    assert_eq!(ImagesState::decode(&bytes), Err(PkgerError::StateFileCorrupt));
}

#[test]
fn missing_file_is_an_empty_store() {
    assert_eq!(ImagesState::try_from_path("/new/state", None), Ok(ImagesState::new("/new/state")));
}

#[test]
fn first_save_leaves_a_placeholder() {
    let s = store();
    assert_eq!(s.save(false), Ok(vec![]));
    assert_eq!(s.save(true), s.encode());
}

#[test]
fn encoder_outcome_is_passed_on() {
    let s = store();
    assert_eq!(s.encoded(Ok(vec![1, 2, 3])), Ok(vec![1, 2, 3]));
    let failure: serde_cbor::Error = serde_cbor::from_slice::<u8>(&[]).unwrap_err();
    assert_eq!(
        s.encoded(Err(failure)),
        Err(PkgerError::IoFailed {
            path: "/tmp/state".to_string(),
            cause: "failed to serialize image state".to_string()
        })
    );
    let failure: serde_cbor::Error = serde_cbor::from_slice::<u8>(&[]).unwrap_err();
    assert_eq!(ImagesState::from_decoded(Err(failure)), Err(PkgerError::StateFileCorrupt));
    assert_eq!(ImagesState::from_decoded(Ok((s.rows(), "/tmp/state".to_string()))), Ok(store()));
}

#[test]
fn saving_to_an_existing_file_yields_the_encoding() {
    for s in [store(), ImagesState::new("f"), ImagesState::default()] {
        let bytes = s.save(true).unwrap();
        assert_eq!(Ok(bytes.clone()), s.encode());
        assert!(!bytes.is_empty());
        assert_eq!(ImagesState::decode(&bytes), Ok(s));
    }
}

#[test]
fn checked_encoding_reads_back_as_the_store() {
    for s in [store(), ImagesState::new("f")] {
        let bytes = s.encode_checked().unwrap();
        assert_eq!(Ok(bytes.clone()), s.encode());
        assert_eq!(ImagesState::try_from_path("elsewhere", Some(&bytes)), Ok(s));
    }
}

#[test]
fn store_keeps_each_package_once() {
    let k = key("hello", "centos", BuildTarget::Rpm);
    let mut repeated = state("id-1", "centos", 100, &["gcc"]);
    repeated.deps = strings(&["gcc", "make", "gcc", "make", "tar"]);
    assert_eq!(repeated.normalized().deps, strings(&["gcc", "make", "tar"]));
    assert_eq!(repeated.normalized().id, "id-1");
    let mut s = ImagesState::new("f");
    s.update(&k, &repeated);
    assert_eq!(s.find(&k).unwrap().deps, strings(&["gcc", "make", "tar"]));
    assert!(s.cached(&k, true, &strings(&["tar", "make", "gcc"]), true).is_some());
    assert_eq!(ImagesState::decode(&s.encode().unwrap()), Ok(s));
}

#[test]
fn rows_are_read_with_each_package_once() {
    let k = key("hello", "centos", BuildTarget::Rpm);
    let mut row = to_row(&k, &state("id-1", "centos", 100, &["gcc", "make"]));
    row.4 = strings(&["gcc", "make", "gcc"]);
    let (_, read) = from_row(&row).unwrap();
    assert_eq!(read.deps, strings(&["gcc", "make"]));
    let s = ImagesState::from_rows(&vec![row], "f").unwrap();
    assert_eq!(s.find(&k).unwrap().deps, strings(&["gcc", "make"]));
}

#[test]
fn rows_are_compared_value_by_value() {
    let a = store().rows();
    let mut b = store().rows();
    assert!(same_rows(&a, &b));
    assert!(same_row(&a[0], &b[0]));
    assert!(!same_row(&a[0], &b[1]));
    b[2].4.push("extra".to_string());
    assert!(!same_rows(&a, &b));
    b.pop();
    assert!(!same_rows(&a, &b));
    let mut c = store().rows();
    c[1].1 = None;
    assert!(!same_rows(&a, &c));
    let mut d = store().rows();
    d[0].5 = !d[0].5;
    assert!(!same_rows(&a, &d));
    assert!(same_texts(&strings(&["a", "b"]), &strings(&["a", "b"])));
    assert!(!same_texts(&strings(&["a", "b"]), &strings(&["b", "a"])));
    assert!(!same_texts(&strings(&["a"]), &strings(&["a", "a"])));
    assert!(same_text(&None, &None));
    assert!(same_text(&Some("x".to_string()), &Some("x".to_string())));
    assert!(!same_text(&Some("x".to_string()), &None));
}
