use harness_desktop::text::{contains, is_white_space, push_decimal, tail, trim};

fn decimal(n: u32) -> String {
    let mut out = String::from("n=");
    push_decimal(&mut out, n);
    out
}

#[test]
fn decimal_matches_display() {
    for n in [0u32, 7, 9, 10, 11, 99, 100, 3080, 65535, 1_000_000, u32::MAX] {
        assert_eq!(decimal(n), format!("n={}", n));
    }
}

#[test]
fn contains_agrees_with_std() {
    let haystacks = ["", "a", "aab", "abc", "xxDeepSeek Harnessyy", "深度求索 Harness"];
    let needles = ["", "a", "ab", "aab", "abcd", "DeepSeek Harness", "求索"];
    for h in haystacks {
        for n in needles {
            assert_eq!(contains(h, n), h.contains(n));
        }
    }
}

#[test]
fn white_space_agrees_with_std() {
    for code in 0u32..0x3100 {
        if let Some(c) = char::from_u32(code) {
            assert_eq!(is_white_space(c), c.is_whitespace());
        }
    }
    for code in (0u32..0x11_0000).step_by(37) {
        if let Some(c) = char::from_u32(code) {
            assert_eq!(is_white_space(c), c.is_whitespace());
        }
    }
}

#[test]
fn trim_agrees_with_std() {
    let cases = [
        "",
        " ",
        " \r\n\t",
        "C:\\npm\r\n",
        "  a b  ",
        "\u{3000}日志\u{a0}",
        "x",
        "\u{200b}kept\u{200b}",
    ];
    for s in cases {
        assert_eq!(trim(s), s.trim());
    }
}

fn std_tail(content: &str, max: usize) -> String {
    let mut rows: Vec<&str> = content.lines().rev().take(max).collect();
    rows.reverse();
    rows.join("\n")
}

#[test]
fn tail_agrees_with_std() {
    let cases = [
        "",
        "\n",
        "\n\n",
        "one",
        "one\n",
        "one\ntwo",
        "one\r\ntwo\r\n",
        "one\r\r\ntwo\r",
        "\r\n",
        "a\n\nb\n\n",
        "第一行\n第二行\n第三行",
        "a\rb\nc",
    ];
    for s in cases {
        for max in 0usize..6 {
            assert_eq!(tail(s, max), std_tail(s, max));
        }
    }
}

#[test]
fn tail_shows_the_last_lines() {
    assert_eq!(tail("one\ntwo\nthree\n", 2), "two\nthree");
    assert_eq!(tail("one\ntwo\nthree\n", 0), "");
    assert_eq!(tail("one\ntwo\nthree\n", 10), "one\ntwo\nthree");
}

#[test]
fn tail_of_fewer_lines_is_a_suffix() {
    let log = "one\ntwo\r\n\nfour\nfive";
    for fewer in 0usize..6 {
        for more in fewer..7 {
            assert!(tail(log, more).ends_with(tail(log, fewer).as_str()));
        }
    }
}

#[test]
fn tail_has_no_more_lines_than_asked_for() {
    let log = "one\ntwo\r\n\nfour\nfive\n\n";
    for max in 0usize..8 {
        assert!(tail(log, max).lines().count() <= max);
    }
}
