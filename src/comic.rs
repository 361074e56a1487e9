//! The comic resolver: from a reference and what the archive answered to a
//! `Comic`, or to the reason there is none.
use vstd::prelude::*;
use crate::date::{CalendarDate, date_from_fields, parse_date};
use crate::text::{decimal_text, parse_u32, push_decimal, unsigned_value};

verus! {

/// The archive that comics are fetched from.
pub const BASE_URL: &'static str = "https://xkcd.com";

/// Why a comic could not be resolved.
#[derive(Clone, Copy, Debug, PartialEq, Eq, Structural)]
pub enum XkcdError {
    /// The request failed, or the archive answered with a non-success status.
    DownloadError,
    /// The answer did not decode into a valid record.
    JsonError,
}

impl XkcdError {
    /// The diagnostic text of the error.
    pub fn message(&self) -> (r: String)
        ensures
            *self == XkcdError::DownloadError ==> r@
                == "Error downloading comic, maybe the id is invalid?"@,
            *self == XkcdError::JsonError ==> r@ == "Error decoding JSON response"@,
    {
        match self {
            XkcdError::DownloadError => String::from_str(
                "Error downloading comic, maybe the id is invalid?",
            ),
            XkcdError::JsonError => String::from_str("Error decoding JSON response"),
        }
    }
}

/// Which comic is asked for.
#[derive(Clone, Copy, Debug, PartialEq, Eq, Structural)]
pub enum ComicReference {
    /// The most recently published comic.
    Latest,
    /// The comic of the given ordinal.
    ByNumber(u32),
}

/// The metadata record of one comic, as the archive's JSON answer holds it.
#[derive(Clone, Debug)]
pub struct RawRecord {
    pub title: String,
    pub safe_title: String,
    pub num: u32,
    pub img: String,
    pub alt: String,
    pub transcript: String,
    pub news: String,
    pub link: String,
    pub day: String,
    pub month: String,
    pub year: String,
}

/// A resolved comic, ready to be shown.
#[derive(Clone, Debug)]
pub struct Comic {
    pub title: String,
    pub safe_title: String,
    pub num: u32,
    pub date: CalendarDate,
    pub img_url: String,
    pub alt: String,
    pub transcript: String,
    pub news: String,
    pub link: String,
}

/// The address of the metadata of the comic that `r` names.
pub open spec fn url_of(r: ComicReference) -> Seq<char> {
    match r {
        ComicReference::Latest => BASE_URL@ + "/info.0.json"@,
        ComicReference::ByNumber(n) => BASE_URL@ + "/"@ + decimal_text(n as nat)
            + "/info.0.json"@,
    }
}

/// The page of comic `num` on the archive, used where a record has no link.
pub open spec fn fallback_link(num: nat) -> Seq<char> {
    BASE_URL@ + "/"@ + decimal_text(num) + "/"@
}

/// The link that a comic built from a record carries.
pub open spec fn link_of(rec: RawRecord) -> Seq<char> {
    if rec.link@.len() == 0 {
        fallback_link(rec.num as nat)
    } else {
        rec.link@
    }
}

/// Whether an HTTP exchange succeeded: an answer came, with a 2xx status.
pub open spec fn transport_ok(status: Option<u16>) -> bool {
    status matches Some(s) && 200 <= s <= 299
}

/// Whether a decoded record is a valid answer for reference `r`: a positive
/// ordinal, the one asked for if one was, and date fields naming a day.
pub open spec fn record_fits(r: ComicReference, rec: RawRecord) -> bool {
    &&& rec.num > 0
    &&& (r matches ComicReference::ByNumber(n) ==> rec.num == n)
    &&& date_from_fields(rec.day@, rec.month@, rec.year@) is Some
}

/// `c` is the comic that record `rec` describes.
pub open spec fn comic_from(rec: RawRecord, c: Comic) -> bool {
    &&& c.title@ == rec.title@
    &&& c.safe_title@ == rec.safe_title@
    &&& c.num == rec.num
    &&& c.date.wf()
    &&& Some(c.date.ymd()) == date_from_fields(rec.day@, rec.month@, rec.year@)
    &&& c.img_url@ == rec.img@
    &&& c.alt@ == rec.alt@
    &&& c.transcript@ == rec.transcript@
    &&& c.news@ == rec.news@
    &&& c.link@ == link_of(rec)
}

/// What resolving `r` gives, when the transport answered with `status`
/// (`None`: no answer) and the body decoded to `record` (`None`: it did not).
pub open spec fn resolves_to(
    r: ComicReference,
    status: Option<u16>,
    record: Option<RawRecord>,
    out: Result<Comic, XkcdError>,
) -> bool {
    if !transport_ok(status) {
        out == Err::<Comic, XkcdError>(XkcdError::DownloadError)
    } else {
        match record {
            None => out == Err::<Comic, XkcdError>(XkcdError::JsonError),
            Some(rec) => if record_fits(r, rec) {
                out matches Ok(c) && comic_from(rec, c)
            } else {
                out == Err::<Comic, XkcdError>(XkcdError::JsonError)
            },
        }
    }
}

/// The reference that a text command argument asks for: the comic of that
/// number when the argument is a base-10 `u32` (an optional `+`, then
/// digits), else the latest one.
pub fn reference_from_text(arg: Option<&str>) -> (r: ComicReference)
    ensures
        r == (match arg {
            Some(a) => match unsigned_value(a@) {
                Some(n) => if n <= u32::MAX {
                    ComicReference::ByNumber(n as u32)
                } else {
                    ComicReference::Latest
                },
                None => ComicReference::Latest,
            },
            None => ComicReference::Latest,
        }),
{
    match arg {
        Some(a) => match parse_u32(a) {
            Some(n) => ComicReference::ByNumber(n),
            None => ComicReference::Latest,
        },
        None => ComicReference::Latest,
    }
}

/// The reference that a slash command's integer option asks for: the comic
/// of that number, or the latest one when it is absent. A value that no
/// comic can carry (negative, or beyond `u32`) asks for ordinal 0, which
/// never resolves.
pub fn reference_from_option(value: Option<i64>) -> (r: ComicReference)
    ensures
        value is None ==> r == ComicReference::Latest,
        value is Some && 0 <= value->Some_0 <= u32::MAX ==> r == ComicReference::ByNumber(
            value->Some_0 as u32,
        ),
        value is Some && !(0 <= value->Some_0 <= u32::MAX) ==> r == ComicReference::ByNumber(0),
{
    match value {
        Some(n) => if 0 <= n && n <= 4294967295 {
            ComicReference::ByNumber(n as u32)
        } else {
            ComicReference::ByNumber(0)
        },
        None => ComicReference::Latest,
    }
}

/// The address to fetch for reference `r`.
pub fn request_url(r: &ComicReference) -> (u: String)
    ensures
        u@ == url_of(*r),
{
    let mut u = String::from_str(BASE_URL);
    match r {
        ComicReference::Latest => {},
        ComicReference::ByNumber(n) => {
            u.append("/");
            push_decimal(&mut u, *n);
        },
    }
    u.append("/info.0.json");
    u
}

/// Whether `status` is an HTTP success code.
pub fn is_success(status: u16) -> (r: bool)
    ensures
        r == (200 <= status <= 299),
{
    200 <= status && status <= 299
}

/// The comic that `rec` describes, dated `date`.
fn build_comic(rec: RawRecord, date: CalendarDate) -> (c: Comic)
    requires
        date.wf(),
        Some(date.ymd()) == date_from_fields(rec.day@, rec.month@, rec.year@),
    ensures
        comic_from(rec, c),
{
    let link = if rec.link.as_str().unicode_len() == 0 {
        let mut l = String::from_str(BASE_URL);
        l.append("/");
        push_decimal(&mut l, rec.num);
        l.append("/");
        l
    } else {
        rec.link
    };
    Comic {
        title: rec.title,
        safe_title: rec.safe_title,
        num: rec.num,
        date,
        img_url: rec.img,
        alt: rec.alt,
        transcript: rec.transcript,
        news: rec.news,
        link,
    }
}

/// The comic that record `rec` describes, when its date fields name a day of
/// the calendar. Neither its ordinal nor the request it answers is looked at.
pub fn record_to_comic(rec: RawRecord) -> (r: Option<Comic>)
    ensures
        r is Some <==> date_from_fields(rec.day@, rec.month@, rec.year@) is Some,
        r is Some ==> comic_from(rec, r->Some_0),
{
    let date = match parse_date(rec.day.as_str(), rec.month.as_str(), rec.year.as_str()) {
        Some(d) => d,
        None => return None,
    };
    Some(build_comic(rec, date))
}

/// Resolves reference `r` from what the archive answered: the HTTP status
/// (`None` when no answer came) and the decoded body (`None` when it did not
/// decode into a record).
pub fn resolve(r: &ComicReference, status: Option<u16>, record: Option<RawRecord>) -> (out:
    Result<Comic, XkcdError>)
    ensures
        resolves_to(*r, status, record, out),
{
    let ok = match status {
        Some(s) => is_success(s),
        None => false,
    };
    if !ok {
        return Err(XkcdError::DownloadError);
    }
    let rec = match record {
        Some(rec) => rec,
        None => return Err(XkcdError::JsonError),
    };
    if rec.num == 0 {
        return Err(XkcdError::JsonError);
    }
    match r {
        ComicReference::ByNumber(n) => {
            if rec.num != *n {
                return Err(XkcdError::JsonError);
            }
        },
        ComicReference::Latest => {},
    }
    match record_to_comic(rec) {
        Some(c) => Ok(c),
        None => Err(XkcdError::JsonError),
    }
}

/// A comic resolved for a given ordinal carries that ordinal: the resolver
/// never substitutes another comic.
pub proof fn lemma_number_kept(
    n: u32,
    status: Option<u16>,
    record: Option<RawRecord>,
    out: Result<Comic, XkcdError>,
)
    requires
        resolves_to(ComicReference::ByNumber(n), status, record, out),
        out is Ok,
    ensures
        out->Ok_0.num == n,
{
}

/// A comic built from a record links to the record's link when it has one,
/// and to the archive page `{base}/{num}/` when the record's link is empty.
pub proof fn lemma_link_rule(rec: RawRecord, c: Comic)
    requires
        comic_from(rec, c),
    ensures
        rec.link@.len() == 0 ==> c.link@ == BASE_URL@ + "/"@ + decimal_text(rec.num as nat) + "/"@,
        rec.link@.len() != 0 ==> c.link@ == rec.link@,
{
}

/// Ordinal 0 never resolves to a comic, whatever the archive answers.
pub proof fn lemma_zero_never_resolves(
    status: Option<u16>,
    record: Option<RawRecord>,
    out: Result<Comic, XkcdError>,
)
    requires
        resolves_to(ComicReference::ByNumber(0), status, record, out),
    ensures
        out is Err,
{
}

/// An ordinal that the archive has no entry for, which it answers with a
/// non-success status such as 404, gives a download error and no comic.
pub proof fn lemma_missing_entry_fails(
    n: u32,
    status: u16,
    record: Option<RawRecord>,
    out: Result<Comic, XkcdError>,
)
    requires
        resolves_to(ComicReference::ByNumber(n), Some(status), record, out),
        !(200 <= status <= 299),
    ensures
        out == Err::<Comic, XkcdError>(XkcdError::DownloadError),
{
}

impl Comic {
    /// A comic whose date is a day of the calendar.
    pub open spec fn wf(&self) -> bool {
        self.date.wf()
    }

    /// The comic of number `num`, from the archive's answer to the request
    /// for it; `None` when that answer gives no valid comic of that number.
    pub fn from_num(num: u32, status: Option<u16>, record: Option<RawRecord>) -> (r: Option<Comic>)
        ensures
            r is Some <==> (transport_ok(status) && record is Some && record_fits(
                ComicReference::ByNumber(num),
                record->Some_0,
            )),
            r is Some ==> comic_from(record->Some_0, r->Some_0) && r->Some_0.num == num,
    {
        match resolve(&ComicReference::ByNumber(num), status, record) {
            Ok(c) => Some(c),
            Err(_) => None,
        }
    }

    /// The latest comic, from the archive's answer to the request for it;
    /// `None` when that answer gives no valid comic.
    pub fn current(status: Option<u16>, record: Option<RawRecord>) -> (r: Option<Comic>)
        ensures
            r is Some <==> (transport_ok(status) && record is Some && record_fits(
                ComicReference::Latest,
                record->Some_0,
            )),
            r is Some ==> comic_from(record->Some_0, r->Some_0),
    {
        match resolve(&ComicReference::Latest, status, record) {
            Ok(c) => Some(c),
            Err(_) => None,
        }
    }
}

} // verus!
