use devcheck::text::{
    chars_of, contains_chars, push_decimal, push_padded, same_text, split_lines, string_of, trimmed,
};

fn lines_of(s: &str) -> Vec<String> {
    let v = chars_of(s);
    split_lines(&v).iter().map(|l| string_of(l)).collect()
}

#[test]
fn lines_like_str_lines() {
    for s in ["a\r\nb\n\nc\n", "", "\n", "x", "x\r", "a\n\r\nb", "tail\r\n", "\n\n"] {
        let want: Vec<String> = s.lines().map(|l| l.to_string()).collect();
        assert_eq!(lines_of(s), want, "input {:?}", s);
    }
}

#[test]
fn trimming() {
    assert_eq!(string_of(&trimmed(&chars_of("  a b \t\r\n"))), "a b");
    assert_eq!(string_of(&trimmed(&chars_of("\u{3000}x\u{a0}"))), "x");
    assert_eq!(string_of(&trimmed(&chars_of("   "))), "");
    assert_eq!(string_of(&trimmed(&chars_of("q"))), "q");
}

#[test]
fn searching() {
    let hay = chars_of("test foo ... FAILED");
    assert!(contains_chars(&hay, &chars_of("FAILED")));
    assert!(contains_chars(&hay, &chars_of("test ")));
    assert!(contains_chars(&hay, &chars_of("")));
    assert!(!contains_chars(&hay, &chars_of("failed")));
    assert!(!contains_chars(&chars_of("ab"), &chars_of("abc")));
}

#[test]
fn decimals() {
    for n in [0u64, 7, 10, 99, 100, 12345, u64::MAX] {
        let mut s = String::from("n=");
        push_decimal(&mut s, n);
        assert_eq!(s, format!("n={}", n));
    }
}

#[test]
fn padding() {
    let mut s = String::new();
    push_padded(&mut s, "fmt", 8);
    assert_eq!(s, "fmt     ");
    let mut s = String::new();
    push_padded(&mut s, "clippy-long", 8);
    assert_eq!(s, "clippy-long");
    let mut s = String::new();
    push_padded(&mut s, "ü", 3);
    assert_eq!(s, format!("{:<3}", "ü"));
}

#[test]
fn comparing() {
    assert!(same_text("json", "json"));
    assert!(!same_text("json", "jso"));
    assert!(!same_text("Json", "json"));
}
