use oxicloud::clock::UtcTime;
use oxicloud::errors::{DomainError, ErrorKind};
use oxicloud::identifier::Uuid;
use oxicloud::text::{
    chars_of, decimal_text, escape_html, same_text, signed_decimal_text, starts_with,
    tail_after_last, text_between, trim_end,
};

#[test]
fn numbers_are_written_in_decimal() {
    assert_eq!(decimal_text(0), "0");
    assert_eq!(decimal_text(7), "7");
    assert_eq!(decimal_text(120_450), "120450");
    assert_eq!(decimal_text(u128::MAX), u128::MAX.to_string());
    assert_eq!(signed_decimal_text(-42), "-42");
    assert_eq!(signed_decimal_text(42), "42");
    assert_eq!(signed_decimal_text(i64::MIN), i64::MIN.to_string());
}

#[test]
fn markup_characters_are_escaped() {
    assert_eq!(escape_html("plain.odt"), "plain.odt");
    assert_eq!(
        escape_html("<b title=\"x\">a & b</b>"),
        "&lt;b title=&quot;x&quot;&gt;a &amp; b&lt;/b&gt;"
    );
    assert_eq!(escape_html("&lt;"), "&amp;lt;");
    let escaped = escape_html("\"><script>alert('x')</script>");
    assert!(!escaped.contains('<') && !escaped.contains('>') && !escaped.contains('"'));
}

#[test]
fn texts_are_cut_and_compared() {
    assert!(same_text("abc", "abc"));
    assert!(!same_text("abc", "abd"));
    assert!(starts_with("audio/mpeg", "audio/"));
    assert!(!starts_with("audi", "audio/"));
    assert_eq!(trim_end("https://cloud.example//", '/'), "https://cloud.example");
    assert_eq!(trim_end("///", '/'), "");
    assert_eq!(tail_after_last("report.final.DOCX", '.'), "DOCX");
    assert_eq!(tail_after_last("README", '.'), "README");
    assert_eq!(tail_after_last("archive.", '.'), "");
    let chars = chars_of("añb");
    assert_eq!(chars, vec!['a', 'ñ', 'b']);
    assert_eq!(text_between(&chars, 1, 3), "ñb");
}

#[test]
fn identifiers_are_written_and_read_back() {
    let id = Uuid { value: 0x0123_4567_89ab_cdef_0123_4567_89ab_cdef };
    assert_eq!(id.to_text(), "01234567-89ab-cdef-0123-456789abcdef");
    assert_eq!(Uuid::parse(&id.to_text()), Some(id));
    assert_eq!(Uuid::parse("0123456789ABCDEF0123456789ABCDEF"), Some(id));
    assert_eq!(Uuid::parse("not an identifier"), None);
    assert_eq!(Uuid { value: 0 }.to_text(), "00000000-0000-0000-0000-000000000000");
}

#[test]
fn times_are_written() {
    assert_eq!(UtcTime { secs: 0, nanos: 0 }.to_rfc3339(), "1970-01-01T00:00:00+00:00");
    assert_eq!(
        UtcTime { secs: 1_700_000_000, nanos: 500_000_000 }.to_rfc3339(),
        "2023-11-14T22:13:20.500+00:00"
    );
    assert_eq!(UtcTime { secs: i64::MAX, nanos: 0 }.to_rfc3339(), "");
}

#[test]
fn domain_errors_carry_their_parts() {
    let e = DomainError::new(ErrorKind::NotFound, "File", "gone".to_string());
    assert!(e.kind == ErrorKind::NotFound);
    assert_eq!(e.entity, "File");
    assert_eq!(e.message, "gone");
    let e = DomainError::internal_error("Service", "broken".to_string());
    assert!(e.kind == ErrorKind::InternalError && e.entity == "Service");
    let e = DomainError::database_error("down".to_string());
    assert!(e.kind == ErrorKind::DatabaseError && e.message == "down");
}
