use vscode_ssh::text::{push_decimal, push_escaped};

fn decimal(n: i32) -> String {
    let mut out = String::new();
    push_decimal(&mut out, n);
    out
}

fn escaped(bytes: &[u8]) -> String {
    let mut out = String::new();
    push_escaped(&mut out, bytes);
    out
}

#[test]
fn decimal_of_small_numbers() {
    assert_eq!(decimal(0), "0");
    assert_eq!(decimal(7), "7");
    assert_eq!(decimal(9), "9");
    assert_eq!(decimal(10), "10");
    assert_eq!(decimal(127), "127");
    assert_eq!(decimal(1000), "1000");
    assert_eq!(decimal(-1), "-1");
    assert_eq!(decimal(-10), "-10");
    assert_eq!(decimal(-905), "-905");
}

#[test]
fn decimal_at_the_limits() {
    assert_eq!(decimal(i32::MAX), "2147483647");
    assert_eq!(decimal(i32::MIN), "-2147483648");
}

#[test]
fn decimal_agrees_with_the_standard_library() {
    let mut n: i32 = -100_000;
    while n <= 100_000 {
        assert_eq!(decimal(n), n.to_string());
        n += 37;
    }
}

#[test]
fn decimal_is_appended() {
    let mut out = String::from("code ");
    push_decimal(&mut out, 42);
    push_decimal(&mut out, -3);
    assert_eq!(out, "code 42-3");
}

#[test]
fn printable_bytes_stand_for_themselves() {
    assert_eq!(escaped(b"hello world"), "hello world");
    assert_eq!(escaped(b" ~!#$%&()*+,-./:;<=>?@[]^_`{|}"), " ~!#$%&()*+,-./:;<=>?@[]^_`{|}");
    assert_eq!(escaped(b""), "");
}

#[test]
fn special_bytes_take_a_backslash() {
    assert_eq!(escaped(b"\t"), "\\t");
    assert_eq!(escaped(b"\n"), "\\n");
    assert_eq!(escaped(b"\r"), "\\r");
    assert_eq!(escaped(b"\""), "\\\"");
    assert_eq!(escaped(b"'"), "\\'");
    assert_eq!(escaped(b"\\"), "\\\\");
}

#[test]
fn other_bytes_become_hex() {
    assert_eq!(escaped(&[0x00]), "\\x00");
    assert_eq!(escaped(&[0x1f]), "\\x1f");
    assert_eq!(escaped(&[0x7f]), "\\x7f");
    assert_eq!(escaped(&[0x80]), "\\x80");
    assert_eq!(escaped(&[0xab]), "\\xab");
    assert_eq!(escaped(&[0xff]), "\\xff");
    assert_eq!(escaped(&[0xc3, 0xa9]), "\\xc3\\xa9");
}

#[test]
fn escaping_agrees_with_the_standard_library() {
    let all: Vec<u8> = (0u8..=255).collect();
    assert_eq!(escaped(&all), all.escape_ascii().to_string());
    for b in 0u8..=255 {
        assert_eq!(escaped(&[b]), b.escape_ascii().to_string());
    }
}

#[test]
fn escaped_bytes_are_appended_in_order() {
    let mut out = String::from(">");
    push_escaped(&mut out, b"a\n");
    push_escaped(&mut out, b"b");
    assert_eq!(out, ">a\\nb");
}

#[test]
fn different_numbers_have_different_decimal_forms() {
    let numbers = [i32::MIN, -100, -11, -10, -1, 0, 1, 10, 11, 100, 101, 110, i32::MAX];
    for (i, m) in numbers.iter().enumerate() {
        for (j, n) in numbers.iter().enumerate() {
            assert_eq!(decimal(*m) == decimal(*n), i == j);
        }
    }
}

#[test]
fn different_bytes_have_different_escaped_forms() {
    let samples: [&[u8]; 9] =
        [b"", b"t", b"\t", b"\\t", b"\\", b"\\\\", b"x41", b"\\x41", b"A"];
    for (i, a) in samples.iter().enumerate() {
        for (j, b) in samples.iter().enumerate() {
            assert_eq!(escaped(a) == escaped(b), i == j);
        }
    }
}
