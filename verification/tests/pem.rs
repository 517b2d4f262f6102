use coralgate::gate::pem::{push_pem_block, push_wrapped, PEM_LINE_WIDTH};

fn wrapped(body: &str) -> String {
    let mut out = String::new();
    push_wrapped(&mut out, body);
    out
}

#[test]
fn test_pem_block_short_body() {
    let mut out = String::new();
    push_pem_block(&mut out, "QUJD");
    assert_eq!(out, "-----BEGIN CERTIFICATE-----\nQUJD\n-----END CERTIFICATE-----\n");
}

#[test]
fn test_pem_block_appends_to_what_is_there() {
    let mut out = String::from("head\n");
    push_pem_block(&mut out, "QQ==");
    assert_eq!(out, "head\n-----BEGIN CERTIFICATE-----\nQQ==\n-----END CERTIFICATE-----\n");
}

#[test]
fn test_pem_block_empty_body_has_no_line() {
    let mut out = String::new();
    push_pem_block(&mut out, "");
    assert_eq!(out, "-----BEGIN CERTIFICATE-----\n-----END CERTIFICATE-----\n");
}

#[test]
fn test_line_width_is_64() {
    assert_eq!(PEM_LINE_WIDTH, 64);
}

#[test]
fn test_wrap_exactly_one_full_line() {
    let body = "a".repeat(64);
    assert_eq!(wrapped(&body), format!("{}\n", body));
}

#[test]
fn test_wrap_one_over_the_line() {
    let body = format!("{}b", "a".repeat(64));
    assert_eq!(wrapped(&body), format!("{}\nb\n", "a".repeat(64)));
}

#[test]
fn test_wrap_two_full_lines() {
    let body = format!("{}{}", "a".repeat(64), "b".repeat(64));
    assert_eq!(wrapped(&body), format!("{}\n{}\n", "a".repeat(64), "b".repeat(64)));
}

#[test]
fn test_wrap_lines_are_at_most_64_long_and_cover_the_body() {
    for n in [0usize, 1, 63, 64, 65, 127, 128, 129, 1000] {
        let body: String = (0..n).map(|i| char::from(b'A' + (i % 26) as u8)).collect();
        let text = wrapped(&body);
        assert_eq!(text.len(), n + (n + 63) / 64);
        let mut joined = String::new();
        for line in text.lines() {
            assert!(line.len() >= 1 && line.len() <= 64);
            joined.push_str(line);
        }
        assert_eq!(joined, body);
        assert!(n == 0 || text.ends_with('\n'));
    }
}

#[test]
fn test_wrap_counts_characters_not_bytes() {
    let body = "é".repeat(65);
    assert_eq!(wrapped(&body), format!("{}\né\n", "é".repeat(64)));
}
