use regex::Regex;
use rsendmail::anonymizer::EmailAnonymizer;

#[test]
fn test_anonymize_text() {
    let mut anonymizer = EmailAnonymizer::new("example.com");

    let text = "联系我: user@domain.com 或者 another.user@example.org";
    let anonymized = anonymizer.anonymize_text(text);

    assert!(!anonymized.contains("user@domain.com"));
    assert!(!anonymized.contains("another.user@example.org"));

    let regex = Regex::new(r"[a-zA-Z0-9]+@example\.com").unwrap();
    assert!(regex.find_iter(&anonymized).count() == 2);

    let text2 = "再次联系: user@domain.com";
    let anonymized2 = anonymizer.anonymize_text(text2);

    let first_replacement = anonymized
        .split_whitespace()
        .find(|s| s.contains("@example.com"))
        .unwrap();

    assert!(anonymized2.contains(first_replacement));
}

#[test]
fn test_anonymize_stability_within_one_text() {
    // Two occurrences of one address map to one and the same replacement.
    let mut anonymizer = EmailAnonymizer::new("example.com");
    let out = anonymizer.anonymize_text("a@b.com x a@b.com");
    let re = Regex::new(r"[A-Za-z0-9]{8}@example\.com").unwrap();
    let hits: Vec<&str> = re.find_iter(&out).map(|m| m.as_str()).collect();
    assert_eq!(hits.len(), 2);
    assert_eq!(hits[0], hits[1]);
}

#[test]
fn test_anonymize_binary_invalid_utf8_unchanged() {
    let mut anonymizer = EmailAnonymizer::new("example.com");
    let bytes = vec![0x61, 0x40, 0x62, 0xFF, 0xFE, 0x2E, 0x63, 0x6F];
    let out = anonymizer.anonymize_binary(&bytes);
    assert_eq!(out, bytes);
    // And therefore a second pass changes nothing either.
    let out2 = anonymizer.anonymize_binary(&out);
    assert_eq!(out2, bytes);
}

#[test]
fn test_anonymize_idempotent_without_addresses() {
    let mut anonymizer = EmailAnonymizer::new("example.com");
    let text = "no addresses here, just an @ sign and a dot . apart";
    let once = anonymizer.anonymize_text(text);
    assert_eq!(once, text);
    let twice = anonymizer.anonymize_text(&once);
    assert_eq!(twice, once);
}

#[test]
fn test_anonymize_replaces_span_exactly() {
    let mut anonymizer = EmailAnonymizer::new("d.net");
    let out = anonymizer.anonymize_text("pre user.name+x@sub.domain.co.uk post");
    assert!(out.starts_with("pre "));
    assert!(out.ends_with(" post"));
    assert!(!out.contains("sub.domain.co.uk"));
    let re = Regex::new(r"^pre [A-Za-z0-9]{8}@d\.net post$").unwrap();
    assert!(re.is_match(&out));
}

#[test]
fn test_anonymize_binary_rewrites_utf8() {
    let mut anonymizer = EmailAnonymizer::new("example.com");
    let out = anonymizer.anonymize_binary("mail: p@q.org".as_bytes());
    let s = String::from_utf8(out).unwrap();
    assert!(s.starts_with("mail: "));
    assert!(!s.contains("p@q.org"));
    assert!(s.contains("@example.com"));
}
