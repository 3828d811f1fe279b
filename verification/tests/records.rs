//! The worked records and their builders.

use builder_pattern::demo::MyEnum;
use builder_pattern::demo::PublicTest;
use builder_pattern::demo::Test;

#[test]
fn builds_with_required_fields_only() {
    let t = Test::new().a(3).d(Some(String::from("foo"))).build();
    assert_eq!(t.a, 3);
    assert_eq!(t.b.as_str(), "");
    assert_eq!(t.c, None);
    assert_eq!(t.d, Some(String::from("foo")));
}

#[test]
fn optional_defaults_are_substituted() {
    let t = PublicTest::new().a(5).d(MyEnum::B(3)).build();
    assert_eq!(t.a, 5);
    assert_eq!(t.b.as_str(), "");
    assert_eq!(t.c, Some(3));
    assert!(t.d == MyEnum::B(3));
}

#[test]
fn setter_order_is_immaterial() {
    let t1 = Test::new().a(7).c(Some(1)).d(None).build();
    let t2 = Test::new().d(None).c(Some(1)).a(7).build();
    assert_eq!(t1.a, t2.a);
    assert_eq!(t1.b, t2.b);
    assert_eq!(t1.c, t2.c);
    assert_eq!(t1.d, t2.d);
}

#[test]
fn optional_setter_overrides_default() {
    let t = PublicTest::new()
        .a(1)
        .b(String::from("hi"))
        .c(None)
        .d(MyEnum::A)
        .build();
    assert_eq!(t.b.as_str(), "hi");
    assert_eq!(t.c, None);
}

#[test]
fn sample_constructions_run() {
    builder_pattern::demo::test();
}
