use resource_harvest::fetcher::{
    conclude, default_filename, destination_filename, disposition_filename, is_success_status,
    judge_response, looks_like_markup, resource_url, Verdict, DEFAULT_ENDPOINT, RESOURCE_EXTENSION,
};
use resource_harvest::outcome::{FetchOutcome, ResourceMetadata};
use resource_harvest::text::{append_decimal, chars_of, find_from, stands_at, trim_quotes_within};

#[test]
fn url_holds_the_identifier() {
    assert_eq!(
        resource_url(DEFAULT_ENDPOINT, 1234567),
        "https://redacted-recipes.com/download.php?id=1234567"
    );
    assert_eq!(resource_url("example.org", 1), "https://example.org/download.php?id=1");
    assert_eq!(
        resource_url("example.org", u32::MAX),
        "https://example.org/download.php?id=4294967295"
    );
}

#[test]
fn decimal_numerals() {
    for n in [0u64, 7, 10, 99, 100, 4_000_000, u64::MAX] {
        let mut out = String::from("n=");
        append_decimal(&mut out, n);
        assert_eq!(out, format!("n={}", n));
    }
}

#[test]
fn success_is_the_two_hundreds() {
    assert!(!is_success_status(199));
    assert!(is_success_status(200));
    assert!(is_success_status(204));
    assert!(is_success_status(299));
    assert!(!is_success_status(300));
    assert!(!is_success_status(404));
    assert!(!is_success_status(500));
}

#[test]
fn markup_begins_with_an_angle_bracket() {
    assert!(looks_like_markup(b"<Recipes></Recipes>"));
    assert!(looks_like_markup(b"<"));
    assert!(!looks_like_markup(b""));
    assert!(!looks_like_markup(b" <Recipes>"));
    assert!(!looks_like_markup(b"Not found"));
}

#[test]
fn filename_is_read_from_the_header() {
    assert_eq!(
        disposition_filename("attachment; filename=\"Pale Ale.bsmx\""),
        Some(String::from("Pale Ale.bsmx"))
    );
    assert_eq!(
        disposition_filename("attachment; filename=plain.bsmx"),
        Some(String::from("plain.bsmx"))
    );
    assert_eq!(disposition_filename("filename="), Some(String::new()));
    assert_eq!(disposition_filename("filename=\"\"\""), Some(String::new()));
    assert_eq!(
        disposition_filename("filename=\"\"a\"b\"\""),
        Some(String::from("a\"b"))
    );
    assert_eq!(disposition_filename("attachment"), None);
    assert_eq!(disposition_filename(""), None);
    assert_eq!(disposition_filename("file name=x"), None);
}

#[test]
fn filename_ends_at_the_next_marker() {
    assert_eq!(
        disposition_filename("attachment; filename=a.bsmx; filename=b.bsmx"),
        Some(String::from("a.bsmx; "))
    );
    assert_eq!(
        disposition_filename("filename=filename=x"),
        Some(String::new())
    );
}

#[test]
fn filename_reading_agrees_with_split_and_trim() {
    let headers = [
        "attachment; filename=\"x.bsmx\"",
        "inline; filename=\"\"\"quoted\"\"; size=3",
        "filename=one filename=two filename=three",
        "FILENAME=upper",
        "attachment; filename=\u{e9}t\u{e9}.bsmx",
        "\"filename=\"",
        "filenam=filename",
    ];
    for header in headers {
        let expected = header.split("filename=").nth(1).map(|f| f.trim_matches('"').to_string());
        assert_eq!(disposition_filename(header), expected, "header {:?}", header);
    }
}

#[test]
fn default_filename_is_identifier_and_extension() {
    assert_eq!(default_filename(42, RESOURCE_EXTENSION), "42.bsmx");
    assert_eq!(default_filename(4_000_000, "xml"), "4000000.xml");
}

#[test]
fn destination_prefers_the_header() {
    assert_eq!(
        destination_filename(Some("attachment; filename=\"stout.bsmx\""), 9, "bsmx"),
        "stout.bsmx"
    );
    assert_eq!(destination_filename(Some("attachment"), 9, "bsmx"), "9.bsmx");
    assert_eq!(destination_filename(None, 9, "bsmx"), "9.bsmx");
}

#[test]
fn accepted_response_is_stored() {
    let verdict = judge_response(17, 200, Some("attachment; filename=\"ipa.bsmx\""), b"<Recipes/>", "bsmx");
    assert_eq!(
        verdict,
        Verdict::Store(ResourceMetadata { id: 17, filename: String::from("ipa.bsmx") })
    );
    let verdict = judge_response(17, 200, None, b"<Recipes/>", "bsmx");
    assert_eq!(
        verdict,
        Verdict::Store(ResourceMetadata { id: 17, filename: String::from("17.bsmx") })
    );
}

#[test]
fn not_found_is_rejected() {
    assert_eq!(judge_response(17, 404, None, b"<html>gone</html>", "bsmx"), Verdict::Reject);
    assert_eq!(judge_response(17, 404, None, b"", "bsmx"), Verdict::Reject);
}

#[test]
fn body_without_markup_is_rejected() {
    let verdict = judge_response(17, 200, Some("attachment; filename=\"x.bsmx\""), b"Recipe not found", "bsmx");
    assert_eq!(verdict, Verdict::Reject);
    assert_eq!(conclude(verdict, Ok(())), FetchOutcome::Rejected);
    assert_eq!(judge_response(17, 200, None, b"", "bsmx"), Verdict::Reject);
}

#[test]
fn outcome_follows_verdict_and_write() {
    let meta = ResourceMetadata { id: 3, filename: String::from("3.bsmx") };
    assert_eq!(
        conclude(Verdict::Store(meta.clone()), Ok(())),
        FetchOutcome::Acquired(meta.clone())
    );
    assert_eq!(
        conclude(Verdict::Store(meta), Err(String::from("disk full"))),
        FetchOutcome::TransportError(String::from("disk full"))
    );
    assert_eq!(
        conclude(Verdict::Reject, Err(String::from("disk full"))),
        FetchOutcome::Rejected
    );
}

#[test]
fn search_finds_the_first_place() {
    let hay = chars_of("abcabcab");
    let needle = chars_of("cab");
    assert_eq!(find_from(&hay, &needle, 0), Some(2));
    assert_eq!(find_from(&hay, &needle, 2), Some(2));
    assert_eq!(find_from(&hay, &needle, 3), Some(5));
    assert_eq!(find_from(&hay, &needle, 6), None);
    assert_eq!(find_from(&hay, &needle, 100), None);
    assert_eq!(find_from(&hay, &chars_of(""), 8), Some(8));
    assert_eq!(find_from(&hay, &chars_of(""), 9), None);
    assert_eq!(find_from(&chars_of("ab"), &chars_of("abc"), 0), None);
    assert!(stands_at(&hay, &needle, 5));
    assert!(!stands_at(&hay, &needle, 6));
    assert!(!stands_at(&hay, &needle, 4));
}

#[test]
fn characters_are_taken_one_by_one() {
    assert_eq!(chars_of("a\u{e9}\u{4e2d}z"), vec!['a', '\u{e9}', '\u{4e2d}', 'z']);
    assert_eq!(chars_of(""), Vec::<char>::new());
}

#[test]
fn quotes_are_trimmed_at_both_ends() {
    let chars = chars_of("x\"\"ab\"c\"\"y");
    assert_eq!(trim_quotes_within(&chars, 1, 9), (3, 7));
    assert_eq!(trim_quotes_within(&chars, 0, 10), (0, 10));
    assert_eq!(trim_quotes_within(&chars, 1, 3), (3, 3));
    assert_eq!(trim_quotes_within(&chars, 4, 4), (4, 4));
}
