use delfi::datapoint::join_fields;
use delfi::text::i64_to_text;
use delfi::text::u64_to_text;
use delfi::Datapoint;

#[test]
fn renders_unsigned() {
    assert_eq!(u64_to_text(0), "0");
    assert_eq!(u64_to_text(7), "7");
    assert_eq!(u64_to_text(10), "10");
    assert_eq!(u64_to_text(42), "42");
    assert_eq!(u64_to_text(1000000), "1000000");
    assert_eq!(u64_to_text(u64::MAX), u64::MAX.to_string());
}

#[test]
fn renders_signed() {
    assert_eq!(i64_to_text(0), "0");
    assert_eq!(i64_to_text(-1), "-1");
    assert_eq!(i64_to_text(-10), "-10");
    assert_eq!(i64_to_text(123), "123");
    assert_eq!(i64_to_text(i64::MIN), i64::MIN.to_string());
    assert_eq!(i64_to_text(i64::MAX), i64::MAX.to_string());
}

#[test]
fn renders_other_element_types() {
    let data = (true, 'x', String::from("s"));
    let record = data.record();
    assert_eq!(record, [String::from("true"), String::from("x"), String::from("s")]);
}

#[test]
fn joins_fields() {
    assert_eq!(join_fields(&Vec::new(), ','), "");
    assert_eq!(join_fields(&vec![String::from("a")], ','), "a");
    assert_eq!(join_fields(&vec![String::from("a"), String::from("b")], ';'), "a;b");
}
