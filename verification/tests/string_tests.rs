use minirt::string::Append;
use minirt::string::String;
use minirt::text::ToDisplayText;

#[test]
fn testConversion() {
    {
        let u: u32 = 12345;
        if String::from("12345") != u.toDisplayText() {
            let t = u.toDisplayText();
            panic!("fail {}", t.toStr());
        }
    }

    {
        let i: i32 = -12345;
        if String::from("-12345") != i.toDisplayText() {
            let t = i.toDisplayText();
            panic!("fail {}", t.toStr());
        }
    }
}

#[test]
fn testEquality() {
    assert!(String::from("abc") == String::from("abc"));
    assert!(String::from("abc") != String::from("abd"));
    assert!(String::from("") == String::from(""));
    assert!(String::from("abc") != String::from("abcd"));
}

#[test]
fn testEqualityStr() {
    assert!(String::from("abc") == "abc");
    assert!(String::from("abc") != "abd");
    assert!(String::from("abc") != "ab");
}

#[test]
fn testAppendAndAdd() {
    let mut s = String::new();
    s.append("he");
    s.add(b'l');
    s.add(b'l');
    let tail = String::from("o");
    s.append(&tail);
    assert!(s == String::from("hello"));
    assert_eq!(s.asArray(), "hello".as_bytes());
    assert_eq!(s.toStr(), "hello");
}

#[test]
fn testFromRoundTrip() {
    let s = String::from("grüß");
    assert_eq!(s.asArray(), "grüß".as_bytes());
    assert_eq!(s.toStr(), "grüß");
}

#[test]
fn testConversionEdges() {
    assert!(0u64.toDisplayText() == String::from("0"));
    assert!(7u8.toDisplayText() == String::from("7"));
    assert!(65535u16.toDisplayText() == String::from("65535"));
    assert!(18446744073709551615u64.toDisplayText() == String::from("18446744073709551615"));
    assert!((-1i8).toDisplayText() == String::from("-1"));
    assert!(i64::MIN.toDisplayText() == String::from("-9223372036854775808"));
    assert!(i32::MIN.toDisplayText() == String::from("-2147483648"));
    assert!(100usize.toDisplayText() == String::from("100"));
    assert!((-300isize).toDisplayText() == String::from("-300"));
    assert!((-32768i16).toDisplayText() == String::from("-32768"));
}

#[test]
fn testBoolText() {
    assert!(true.toDisplayText() == String::from("true"));
    assert!(false.toDisplayText() == String::from("false"));
}
