use xkcd_bot::comic::{record_to_comic, reference_from_option, reference_from_text, request_url, resolve, Comic, ComicReference, RawRecord, XkcdError};
use xkcd_bot::date::{parse_date, CalendarDate};
use xkcd_bot::render::{render_plain, render_rich, EntryPoint, Payload};
use xkcd_bot::text::{parse_i32, parse_u32, push_decimal};

fn record(num: u32, link: &str, day: &str, month: &str, year: &str) -> RawRecord {
    RawRecord {
        title: "Barrel - Part 1".to_string(),
        safe_title: "Barrel - Part 1".to_string(),
        num,
        img: "https://imgs.xkcd.com/comics/barrel_cropped_(1).jpg".to_string(),
        alt: "Don't we all.".to_string(),
        transcript: "[[A boy sits in a barrel which is floating in an ocean.]]".to_string(),
        news: String::new(),
        link: link.to_string(),
        day: day.to_string(),
        month: month.to_string(),
        year: year.to_string(),
    }
}

fn text_of(p: Payload) -> String {
    match p {
        Payload::Text(t) => t,
        Payload::Rich(_) => panic!("expected a text reply"),
    }
}

#[test]
fn scenario_first_comic_gets_fallback_link_and_date() {
    let rec = record(1, "", "1", "1", "2006");
    let c = resolve(&ComicReference::ByNumber(1), Some(200), Some(rec)).unwrap();
    assert_eq!(c.num, 1);
    assert_eq!(c.link, "https://xkcd.com/1/");
    assert_eq!(c.date, CalendarDate { year: 2006, month: 1, day: 1 });
    assert_eq!(c.title, "Barrel - Part 1");
    assert_eq!(c.alt, "Don't we all.");
    assert_eq!(c.img_url, "https://imgs.xkcd.com/comics/barrel_cropped_(1).jpg");
}

#[test]
fn scenario_server_error_renders_not_found() {
    let r = resolve(&ComicReference::Latest, Some(500), None);
    assert!(matches!(r, Err(XkcdError::DownloadError)));
    let comic = r.ok();
    assert_eq!(text_of(render_rich(comic.as_ref(), EntryPoint::Prefix)), "Comic not found.");
    assert_eq!(text_of(render_plain(comic.as_ref())), "Comic not found.");
}

#[test]
fn scenario_far_ordinal_not_found() {
    let r = resolve(&ComicReference::ByNumber(999999999), Some(404), None);
    assert!(matches!(r, Err(XkcdError::DownloadError)));
    let comic = r.ok();
    assert_eq!(text_of(render_rich(comic.as_ref(), EntryPoint::Prefix)), "Comic not found.");
}

#[test]
fn requested_number_is_kept() {
    let rec = record(614, "", "23", "7", "2009");
    let c = resolve(&ComicReference::ByNumber(614), Some(200), Some(rec)).unwrap();
    assert_eq!(c.num, 614);
    let other = record(615, "", "24", "7", "2009");
    let r = resolve(&ComicReference::ByNumber(614), Some(200), Some(other));
    assert!(matches!(r, Err(XkcdError::JsonError)));
}

#[test]
fn record_link_is_kept_verbatim() {
    let rec = record(1000, "https://example.org/page", "6", "1", "2012");
    let c = resolve(&ComicReference::Latest, Some(200), Some(rec)).unwrap();
    assert_eq!(c.link, "https://example.org/page");
}

#[test]
fn fallback_link_for_latest() {
    let rec = record(2950, "", "1", "7", "2024");
    let c = resolve(&ComicReference::Latest, Some(200), Some(rec)).unwrap();
    assert_eq!(c.link, "https://xkcd.com/2950/");
}

#[test]
fn ordinal_zero_never_resolves() {
    let rec = record(0, "", "1", "1", "2006");
    assert!(resolve(&ComicReference::ByNumber(0), Some(200), Some(rec.clone())).is_err());
    assert!(resolve(&ComicReference::Latest, Some(200), Some(rec)).is_err());
    assert!(resolve(&ComicReference::ByNumber(0), Some(404), None).is_err());
}

#[test]
fn no_answer_is_download_error() {
    let rec = record(1, "", "1", "1", "2006");
    let r = resolve(&ComicReference::ByNumber(1), None, Some(rec));
    assert!(matches!(r, Err(XkcdError::DownloadError)));
}

#[test]
fn undecodable_body_is_json_error() {
    let r = resolve(&ComicReference::Latest, Some(200), None);
    assert!(matches!(r, Err(XkcdError::JsonError)));
}

#[test]
fn bad_date_fields_are_json_error() {
    let bad = [("x", "1", "2006"), ("1", "13", "2006"), ("29", "2", "2023"), ("", "1", "2006")];
    for (d, m, y) in bad {
        let r = resolve(&ComicReference::Latest, Some(200), Some(record(5, "", d, m, y)));
        assert!(matches!(r, Err(XkcdError::JsonError)));
    }
}

#[test]
fn success_statuses_are_the_2xx_range() {
    let rec = record(7, "", "1", "1", "2006");
    assert!(resolve(&ComicReference::ByNumber(7), Some(204), Some(rec.clone())).is_ok());
    assert!(resolve(&ComicReference::ByNumber(7), Some(299), Some(rec.clone())).is_ok());
    assert!(resolve(&ComicReference::ByNumber(7), Some(300), Some(rec.clone())).is_err());
    assert!(resolve(&ComicReference::ByNumber(7), Some(199), Some(rec)).is_err());
}

#[test]
fn from_num_and_current() {
    let c = Comic::from_num(1, Some(200), Some(record(1, "", "1", "1", "2006"))).unwrap();
    assert_eq!(c.num, 1);
    assert!(Comic::from_num(2, Some(200), Some(record(1, "", "1", "1", "2006"))).is_none());
    assert!(Comic::from_num(1, Some(404), None).is_none());
    let c = Comic::current(Some(200), Some(record(3000, "", "1", "1", "2025"))).unwrap();
    assert_eq!(c.num, 3000);
    assert!(Comic::current(None, None).is_none());
}

#[test]
fn urls_for_latest_and_number() {
    assert_eq!(request_url(&ComicReference::Latest), "https://xkcd.com/info.0.json");
    assert_eq!(request_url(&ComicReference::ByNumber(1)), "https://xkcd.com/1/info.0.json");
    assert_eq!(
        request_url(&ComicReference::ByNumber(999999999)),
        "https://xkcd.com/999999999/info.0.json"
    );
}

#[test]
fn error_messages() {
    assert_eq!(
        XkcdError::DownloadError.message(),
        "Error downloading comic, maybe the id is invalid?"
    );
    assert_eq!(XkcdError::JsonError.message(), "Error decoding JSON response");
}

#[test]
fn decimal_parsing() {
    assert_eq!(parse_u32("0"), Some(0));
    assert_eq!(parse_u32("2006"), Some(2006));
    assert_eq!(parse_u32("007"), Some(7));
    assert_eq!(parse_u32("4294967295"), Some(u32::MAX));
    assert_eq!(parse_u32("4294967296"), None);
    assert_eq!(parse_u32(""), None);
    assert_eq!(parse_u32("12a"), None);
    assert_eq!(parse_u32("-1"), None);
    assert_eq!(parse_u32("+5"), Some(5));
    assert_eq!(parse_u32("+"), None);
    assert_eq!(parse_u32("++5"), None);
    assert_eq!(parse_u32("-0"), None);
    assert_eq!(parse_i32("-4"), Some(-4));
    assert_eq!(parse_i32("+4"), Some(4));
    assert_eq!(parse_i32("2147483647"), Some(i32::MAX));
    assert_eq!(parse_i32("2147483648"), None);
    assert_eq!(parse_i32("-2147483648"), Some(i32::MIN));
    assert_eq!(parse_i32("-2147483649"), None);
    assert_eq!(parse_i32("-"), None);
    assert_eq!(parse_i32("--4"), None);
    assert_eq!(parse_u32(" 1"), None);
}

#[test]
fn decimal_writing() {
    let mut s = String::from("n=");
    push_decimal(&mut s, 0);
    assert_eq!(s, "n=0");
    let mut s = String::new();
    push_decimal(&mut s, u32::MAX);
    assert_eq!(s, "4294967295");
}

#[test]
fn calendar_dates() {
    assert_eq!(parse_date("29", "2", "2000"), Some(CalendarDate { year: 2000, month: 2, day: 29 }));
    assert_eq!(parse_date("29", "2", "1900"), None);
    assert_eq!(parse_date("31", "4", "2020"), None);
    assert_eq!(parse_date("31", "12", "262142"), Some(CalendarDate { year: 262142, month: 12, day: 31 }));
    assert_eq!(parse_date("1", "1", "262143"), None);
    assert_eq!(parse_date("0", "1", "2006"), None);
    assert_eq!(parse_date("29", "2", "-4"), Some(CalendarDate { year: -4, month: 2, day: 29 }));
    assert_eq!(parse_date("+1", "+1", "+2006"), Some(CalendarDate { year: 2006, month: 1, day: 1 }));
    assert_eq!(parse_date("1", "1", "-262143"), Some(CalendarDate { year: -262143, month: 1, day: 1 }));
    assert_eq!(parse_date("1", "1", "-262144"), None);
    assert_eq!(parse_date("-1", "1", "2006"), None);
    assert_eq!(CalendarDate::new(2023, 2, 29), None);
    assert_eq!(CalendarDate::new(-4, 2, 29), Some(CalendarDate { year: -4, month: 2, day: 29 }));
}

#[test]
fn date_formatting() {
    assert_eq!(CalendarDate { year: 2006, month: 1, day: 1 }.format_dmy(), "01/01/2006");
    assert_eq!(CalendarDate { year: 2023, month: 11, day: 30 }.format_dmy(), "30/11/2023");
    assert_eq!(CalendarDate { year: 33, month: 3, day: 5 }.format_dmy(), "05/03/0033");
    assert_eq!(CalendarDate { year: 12345, month: 3, day: 5 }.format_dmy(), "05/03/+12345");
    assert_eq!(CalendarDate { year: -4, month: 2, day: 29 }.format_dmy(), "29/02/-0004");
}

#[test]
fn reference_from_command_text() {
    assert_eq!(reference_from_text(Some("42")), ComicReference::ByNumber(42));
    assert_eq!(reference_from_text(Some("0")), ComicReference::ByNumber(0));
    assert_eq!(reference_from_text(Some("+5")), ComicReference::ByNumber(5));
    assert_eq!(reference_from_text(Some("-3")), ComicReference::Latest);
    assert_eq!(reference_from_text(Some("+")), ComicReference::Latest);
    assert_eq!(reference_from_text(Some("abc")), ComicReference::Latest);
    assert_eq!(reference_from_text(Some("4294967296")), ComicReference::Latest);
    assert_eq!(reference_from_text(None), ComicReference::Latest);
}

#[test]
fn reference_from_command_option() {
    assert_eq!(reference_from_option(Some(353)), ComicReference::ByNumber(353));
    assert_eq!(reference_from_option(Some(4294967295)), ComicReference::ByNumber(u32::MAX));
    assert_eq!(reference_from_option(Some(-1)), ComicReference::ByNumber(0));
    assert_eq!(reference_from_option(Some(4294967297)), ComicReference::ByNumber(0));
    assert_eq!(reference_from_option(None), ComicReference::Latest);
}

#[test]
fn record_conversion_applies_link_rule_for_any_number() {
    let c = record_to_comic(record(0, "", "1", "1", "2006")).unwrap();
    assert_eq!(c.link, "https://xkcd.com/0/");
    let c = record_to_comic(record(42, "https://example.org/x", "1", "1", "2006")).unwrap();
    assert_eq!(c.link, "https://example.org/x");
    assert!(record_to_comic(record(42, "", "31", "2", "2006")).is_none());
}

#[test]
fn negative_year_resolves() {
    let c = resolve(&ComicReference::Latest, Some(200), Some(record(9, "", "29", "2", "-4"))).unwrap();
    assert_eq!(c.date, CalendarDate { year: -4, month: 2, day: 29 });
}
