use person_record::decimal::u32_to_dec;
use person_record::escape::u32_to_hex;
use person_record::person::make_person;
use person_record::person::make_person_with_report;

#[test]
fn construction_carries_name_and_age() {
    let p = make_person("Ada", 30);
    assert_eq!(p.name(), "Ada");
    assert_eq!(p.age, 30);
}

#[test]
fn set_name_last_write_wins() {
    let mut p = make_person("Ada", 30);
    p.set_name(String::from("Grace"));
    assert_eq!(p.name(), "Grace");
    assert_eq!(p.age, 30);
    p.set_name(String::from("Barbara"));
    assert_eq!(p.name(), "Barbara");
    assert_eq!(p.age, 30);
}

#[test]
fn age_mutates_directly() {
    let mut p = make_person("Ada", 30);
    p.age = 41;
    assert_eq!(p.age, 41);
    assert_eq!(p.name(), "Ada");
}

#[test]
fn age_accessor_pair() {
    let mut p = make_person("Ada", 30);
    assert_eq!(p.age(), 30);
    p.set_age(41);
    assert_eq!(p.age(), 41);
    assert_eq!(p.age, 41);
    assert_eq!(p.name(), "Ada");
    p.age = 7;
    assert_eq!(p.age(), 7);
}

#[test]
fn empty_name_is_permitted() {
    let mut p = make_person("", 7);
    assert_eq!(p.name(), "");
    p.set_name(String::from("X"));
    assert_eq!(p.name(), "X");
    p.set_name(String::new());
    assert_eq!(p.name(), "");
    assert_eq!(p.age, 7);
}

#[test]
fn report_line_exact() {
    let (p, line) = make_person_with_report("Ada", 30);
    assert_eq!(line, "PERSON: Person { name: \"Ada\", age: 30 }");
    assert_eq!(p.name(), "Ada");
    assert_eq!(p.age, 30);
}

#[test]
fn report_line_empty_name_and_zero_age() {
    let (_, line) = make_person_with_report("", 0);
    assert_eq!(line, "PERSON: Person { name: \"\", age: 0 }");
}

#[test]
fn report_line_escapes_quotes_and_backslashes() {
    let (_, line) = make_person_with_report("a\"b", 1);
    assert_eq!(line, "PERSON: Person { name: \"a\\\"b\", age: 1 }");
    let (_, line) = make_person_with_report("back\\slash", 2);
    assert_eq!(line, "PERSON: Person { name: \"back\\\\slash\", age: 2 }");
}

#[test]
fn report_line_escapes_control_characters() {
    let (_, line) = make_person_with_report("x\u{1}\ny", 3);
    assert_eq!(line, "PERSON: Person { name: \"x\\u{1}\\ny\", age: 3 }");
    let (_, line) = make_person_with_report("\0\t\r\u{7f}\u{9b}", 4);
    assert_eq!(line, "PERSON: Person { name: \"\\0\\t\\r\\u{7f}\\u{9b}\", age: 4 }");
}

#[test]
fn report_line_matches_derived_debug_formatting() {
    let cases: Vec<(&str, u32)> = vec![
        ("Ada", 30),
        ("a\"b", 1),
        ("back\\slash", 2),
        ("line\nbreak", 3),
        ("tab\there", 4),
        ("\u{1}\u{1f}\u{7f}\u{9b}", 5),
        ("", 0),
    ];
    for (name, age) in cases {
        let (p, line) = make_person_with_report(name, age);
        assert_eq!(line, format!("PERSON: {p:?}"));
    }
}

#[test]
fn hex_rendering() {
    assert_eq!(u32_to_hex(0), "0");
    assert_eq!(u32_to_hex(10), "a");
    assert_eq!(u32_to_hex(31), "1f");
    assert_eq!(u32_to_hex(127), "7f");
    assert_eq!(u32_to_hex(155), "9b");
    assert_eq!(u32_to_hex(4294967295), "ffffffff");
}

#[test]
fn decimal_rendering() {
    assert_eq!(u32_to_dec(0), "0");
    assert_eq!(u32_to_dec(7), "7");
    assert_eq!(u32_to_dec(10), "10");
    assert_eq!(u32_to_dec(30), "30");
    assert_eq!(u32_to_dec(100), "100");
    assert_eq!(u32_to_dec(4294967295), "4294967295");
}
