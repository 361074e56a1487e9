//! Presentation: a resolved comic, or its absence, as a chat reply.
use vstd::prelude::*;
use crate::comic::{Comic, ComicReference, RawRecord, XkcdError, resolves_to};
use crate::date::dmy_text;
use crate::text::{decimal_text, push_decimal};

verus! {

/// Which command surface a reply answers.
#[derive(Clone, Copy, Debug, PartialEq, Eq, Structural)]
pub enum EntryPoint {
    /// A text command with a prefix, answered in the channel.
    Prefix,
    /// A slash command, answered as an interaction response.
    Slash,
}

/// One labelled field of a rich reply.
#[derive(Clone, Debug)]
pub struct EmbedField {
    pub name: String,
    pub value: String,
    pub inline: bool,
}

/// A rich reply: an image, a linked title, fields and a footer.
#[derive(Clone, Debug)]
pub struct Embed {
    pub image: String,
    pub title: String,
    pub url: String,
    pub fields: Vec<EmbedField>,
    pub footer: String,
}

/// What is sent back to the chat platform.
#[derive(Clone, Debug)]
pub enum Payload {
    Text(String),
    Rich(Embed),
}

/// The reply text when no comic was found. The two surfaces have always
/// differed by the final period, and still do.
pub open spec fn not_found_text(entry: EntryPoint) -> Seq<char> {
    match entry {
        EntryPoint::Prefix => "Comic not found."@,
        EntryPoint::Slash => "Comic not found"@,
    }
}

/// The title of the rich reply for comic `num`.
pub open spec fn comic_title(num: nat) -> Seq<char> {
    "xkcd n\u{b0}"@ + decimal_text(num)
}

/// The footer of the rich reply for a comic of that date.
pub open spec fn footer_of(c: Comic) -> Seq<char> {
    "From "@ + dmy_text(c.date.year as int, c.date.month as int, c.date.day as int)
}

pub open spec fn field_is(f: EmbedField, name: Seq<char>, value: Seq<char>, inline: bool) -> bool {
    f.name@ == name && f.value@ == value && f.inline == inline
}

/// `e` is the rich reply for comic `c` on surface `entry`: the image, the
/// numbered title linking to the comic, a "Title" and an "Alt" field (side by
/// side on the prefix surface) and the date in the footer.
pub open spec fn embed_of(c: Comic, entry: EntryPoint, e: Embed) -> bool {
    let inline = entry == EntryPoint::Prefix;
    &&& e.image@ == c.img_url@
    &&& e.title@ == comic_title(c.num as nat)
    &&& e.url@ == c.link@
    &&& e.fields@.len() == 2
    &&& field_is(e.fields@[0], "Title"@, c.title@, inline)
    &&& field_is(e.fields@[1], "Alt"@, c.alt@, inline)
    &&& e.footer@ == footer_of(c)
}

/// Every comic that resolution yields can be rendered: its date is a day of
/// the calendar, so the rich reply with its footer exists.
pub proof fn lemma_resolved_comic_renders(
    r: ComicReference,
    status: Option<u16>,
    record: Option<RawRecord>,
    out: Result<Comic, XkcdError>,
)
    requires
        resolves_to(r, status, record, out),
        out is Ok,
    ensures
        out->Ok_0.wf(),
{
}

/// The not-found reply of `entry`.
fn not_found(entry: EntryPoint) -> (p: Payload)
    ensures
        p matches Payload::Text(t) && t@ == not_found_text(entry),
{
    match entry {
        EntryPoint::Prefix => Payload::Text(String::from_str("Comic not found.")),
        EntryPoint::Slash => Payload::Text(String::from_str("Comic not found")),
    }
}

/// The plain reply: the comic's image address, or the not-found text.
pub fn render_plain(comic: Option<&Comic>) -> (p: Payload)
    ensures
        comic is Some ==> (p matches Payload::Text(t) && t@ == comic->Some_0.img_url@),
        comic is None ==> (p matches Payload::Text(t) && t@ == not_found_text(
            EntryPoint::Prefix,
        )),
{
    match comic {
        Some(c) => Payload::Text(c.img_url.clone()),
        None => not_found(EntryPoint::Prefix),
    }
}

/// The rich reply of surface `entry` for a comic, or the not-found text
/// when there is none.
pub fn render_rich(comic: Option<&Comic>, entry: EntryPoint) -> (p: Payload)
    requires
        comic is Some ==> comic->Some_0.wf(),
    ensures
        comic is Some ==> (p matches Payload::Rich(e) && embed_of(*comic->Some_0, entry, e)),
        comic is None ==> (p matches Payload::Text(t) && t@ == not_found_text(entry)),
{
    let c = match comic {
        Some(c) => c,
        None => return not_found(entry),
    };
    let inline = match entry {
        EntryPoint::Prefix => true,
        EntryPoint::Slash => false,
    };
    let mut title = String::from_str("xkcd n\u{b0}");
    push_decimal(&mut title, c.num);
    let mut fields: Vec<EmbedField> = Vec::new();
    fields.push(
        EmbedField { name: String::from_str("Title"), value: c.title.clone(), inline },
    );
    fields.push(EmbedField { name: String::from_str("Alt"), value: c.alt.clone(), inline });
    let mut footer = String::from_str("From ");
    let date = c.date.format_dmy();
    footer.append(date.as_str());
    Payload::Rich(
        Embed { image: c.img_url.clone(), title, url: c.link.clone(), fields, footer },
    )
}

} // verus!
