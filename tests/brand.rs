use bty::{Brand, Tag};
use std::cmp::Ordering;
use std::collections::{HashMap, HashSet};

#[derive(Clone, Copy)]
struct BrandedTestIdTag;

impl Tag for BrandedTestIdTag {
    const TAG_NAME: &'static str = "TestId";
}

type TestId = Brand<BrandedTestIdTag, i32>;

#[derive(Clone, Copy)]
struct BrandedLabelTag;

impl Tag for BrandedLabelTag {
    const TAG_NAME: &'static str = "Label";
}

type Label = Brand<BrandedLabelTag, String>;

#[test]
fn test_debug() {
    let id = TestId::unchecked_from_raw(10);
    let s = id.debug_string();
    assert_eq!(s, "TestId(10)");
}

#[test]
fn debug_wraps_raw_debug_text() {
    let label = Label::unchecked_from_raw("olá".to_string());
    assert_eq!(label.debug_string(), "Label(\"olá\")");
    let neg = TestId::unchecked_from_raw(-7);
    assert_eq!(neg.debug_string(), format!("TestId({:?})", -7));
}

#[test]
fn debug_with_frames_given_text() {
    assert_eq!(TestId::debug_with("10"), "TestId(10)");
    assert_eq!(TestId::debug_with(""), "TestId()");
}

#[test]
fn raw_round_trip() {
    for x in [i32::MIN, -1, 0, 1, 123, i32::MAX] {
        assert_eq!(TestId::unchecked_from_raw(x).into_raw(), x);
        assert_eq!(*TestId::unchecked_from_raw(x).as_raw(), x);
    }
    let label = Label::unchecked_from_raw("abc".to_string());
    assert_eq!(label.as_raw(), "abc");
    assert_eq!(label.into_raw(), "abc".to_string());
}

#[test]
fn equality_follows_raw() {
    assert!(TestId::unchecked_from_raw(5) == TestId::unchecked_from_raw(5));
    assert!(TestId::unchecked_from_raw(5) != TestId::unchecked_from_raw(6));
    assert!(Label::unchecked_from_raw("a".to_string()) == Label::unchecked_from_raw("a".to_string()));
    assert!(Label::unchecked_from_raw("a".to_string()) != Label::unchecked_from_raw("b".to_string()));
}

#[test]
fn ordering_follows_raw() {
    let a = TestId::unchecked_from_raw(-3);
    let b = TestId::unchecked_from_raw(8);
    assert!(a < b);
    assert_eq!(a.cmp(&b), Ordering::Less);
    assert_eq!(b.cmp(&a), Ordering::Greater);
    assert_eq!(a.cmp(&a), Ordering::Equal);
    assert_eq!(a.partial_cmp(&b), Some(Ordering::Less));
    let mut ids = vec![
        TestId::unchecked_from_raw(3),
        TestId::unchecked_from_raw(1),
        TestId::unchecked_from_raw(2),
    ];
    ids.sort();
    let raws: Vec<i32> = ids.into_iter().map(|i| i.into_raw()).collect();
    assert_eq!(raws, vec![1, 2, 3]);
}

#[test]
fn default_is_raw_default() {
    assert!(TestId::default() == TestId::unchecked_from_raw(0));
    assert_eq!(Label::default().into_raw(), String::new());
}

#[test]
fn clone_and_copy_keep_raw() {
    let a = TestId::unchecked_from_raw(42);
    let b = a;
    assert_eq!(a.into_raw(), 42);
    assert_eq!(b.into_raw(), 42);
    let label = Label::unchecked_from_raw("x".to_string());
    let copy = label.clone();
    assert!(copy == label);
}

#[test]
fn equal_brands_hash_alike() {
    let mut set = HashSet::new();
    assert!(set.insert(TestId::unchecked_from_raw(7)));
    assert!(!set.insert(TestId::unchecked_from_raw(7)));
    assert!(set.insert(TestId::unchecked_from_raw(8)));
    assert_eq!(set.len(), 2);

    let mut names = HashMap::new();
    names.insert(Label::unchecked_from_raw("k".to_string()), 1);
    names.insert(Label::unchecked_from_raw("k".to_string()), 2);
    assert_eq!(names.len(), 1);
    assert_eq!(names.get(&Label::unchecked_from_raw("k".to_string())), Some(&2));
}

#[test]
fn raw_result_wraps_value_and_keeps_error() {
    let ok: Result<i32, String> = Ok(9);
    assert!(TestId::from_raw_result(ok) == Ok(TestId::unchecked_from_raw(9)));
    let err: Result<i32, String> = Err("bad column".to_string());
    match TestId::from_raw_result(err) {
        Ok(_) => panic!("an error must stay an error"),
        Err(e) => assert_eq!(e, "bad column"),
    }
}

struct BrandedUserIdTag;

type UserId = Brand<BrandedUserIdTag, uuid::Uuid>;

#[test]
fn new_v4_gives_random_v4_ids() {
    let a = UserId::new_v4();
    let b = UserId::new_v4();
    assert!(a != b);
    assert_eq!(a.as_raw().get_version_num(), 4);
    assert_eq!(b.as_raw().get_version_num(), 4);
    assert_eq!(a.as_raw().get_variant(), uuid::Variant::RFC4122);
    assert_eq!(b.into_raw().get_variant(), uuid::Variant::RFC4122);
}
