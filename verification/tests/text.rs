use swww_proto::object::{ObjectId, ObjectManager, WlDynObj};
use swww_proto::path::{ascii_bytes, join, push_all, starts_at_root, SEPARATOR};
use swww_proto::text::{push_decimal, push_hex_byte, push_signed_decimal};

#[test]
fn decimal_is_appended() {
    let mut out = String::from("n=");
    push_decimal(&mut out, 0);
    assert_eq!(out, "n=0");
    push_decimal(&mut out, 7);
    push_decimal(&mut out, 10);
    push_decimal(&mut out, 4294967295);
    assert_eq!(out, "n=07104294967295");
    let mut out = String::new();
    push_decimal(&mut out, u64::MAX);
    assert_eq!(out, "18446744073709551615");
}

#[test]
fn decimal_agrees_with_the_standard_library() {
    for n in [0u64, 1, 9, 10, 11, 99, 100, 101, 999, 1000, 65535, 65536, 1 << 32, u64::MAX - 1] {
        let mut out = String::new();
        push_decimal(&mut out, n);
        assert_eq!(out, n.to_string());
    }
}

#[test]
fn signed_decimal_is_appended() {
    for n in [0i32, 1, -1, 9, -9, 10, -10, 12345, -12345, i32::MAX, i32::MIN, i32::MIN + 1] {
        let mut out = String::from("<");
        push_signed_decimal(&mut out, n);
        assert_eq!(out, format!("<{}", n));
    }
}

#[test]
fn hex_byte_is_appended() {
    let mut out = String::from("#");
    push_hex_byte(&mut out, 0);
    push_hex_byte(&mut out, 0x0f);
    push_hex_byte(&mut out, 0xa0);
    push_hex_byte(&mut out, 0xff);
    assert_eq!(out, "#000FA0FF");
}

#[test]
fn bytes_are_appended() {
    let mut out = vec![1u8, 2];
    push_all(&mut out, &[]);
    assert_eq!(out, [1, 2]);
    push_all(&mut out, &[3, 4, 5]);
    assert_eq!(out, [1, 2, 3, 4, 5]);
}

#[test]
fn root_is_told_by_the_first_byte() {
    assert_eq!(SEPARATOR, b'/');
    assert!(starts_at_root(b"/"));
    assert!(starts_at_root(b"/run"));
    assert!(starts_at_root(b"//"));
    assert!(!starts_at_root(b""));
    assert!(!starts_at_root(b"run/"));
    assert!(!starts_at_root(b" /"));
    assert!(!starts_at_root(b"./"));
}

#[test]
fn join_puts_one_separator_between() {
    assert_eq!(join(b"/run", b"x"), b"/run/x");
    assert_eq!(join(b"/run/", b"x"), b"/run/x");
    assert_eq!(join(b"", b"x"), b"x");
    assert_eq!(join(b"/run", b""), b"/run/");
    assert_eq!(join(b"/run", b"/x"), b"/x");
    assert_eq!(join(b"run//", b"x/y"), b"run//x/y");
}

#[test]
fn ascii_text_gives_its_bytes() {
    assert_eq!(ascii_bytes("swww.socket"), b"swww.socket");
    assert_eq!(ascii_bytes(""), b"");
    assert_eq!(ascii_bytes("/tmp/swww"), [47, 116, 109, 112, 47, 115, 119, 119, 119]);
}

#[test]
fn copy_of_a_registry_is_its_own() {
    let mut objects = ObjectManager::new();
    let output = objects.create(WlDynObj::Output);
    let mut copy = objects.clone();
    assert_eq!(copy.get(output), WlDynObj::Output);
    assert_eq!(copy.get(ObjectId::new(1).unwrap()), WlDynObj::Display);
    copy.remove(output);
    assert!(objects.contains(output));
    assert!(!copy.contains(output));
    assert_eq!(copy.create(WlDynObj::Callback).get(), 9);
    assert_eq!(objects.create(WlDynObj::Callback).get(), 10);
}
