//! The boundary to the `ics` crate: the calendar and event types are opaque
//! to the verifier and are reasoned about through abstract models, and each
//! method the generator calls is wrapped with a contract stating what the
//! crate's code does to those models.

use vstd::prelude::*;

verus! {

/// Text escaping for calendar TEXT values: a comma, semicolon or backslash
/// gets a backslash prefix, and each newline (`\n`, a lone `\r`, or `\r\n`)
/// becomes the two characters `\n`.
pub open spec fn escape_spec(s: Seq<char>) -> Seq<char>
    decreases s.len(),
{
    if s.len() == 0 {
        Seq::empty()
    } else if s[0] == '\r' {
        if s.len() >= 2 && s[1] == '\n' {
            seq!['\\', 'n'] + escape_spec(s.skip(2))
        } else {
            seq!['\\', 'n'] + escape_spec(s.skip(1))
        }
    } else if s[0] == '\n' {
        seq!['\\', 'n'] + escape_spec(s.skip(1))
    } else if s[0] == ',' || s[0] == ';' || s[0] == '\\' {
        seq!['\\', s[0]] + escape_spec(s.skip(1))
    } else {
        seq![s[0]] + escape_spec(s.skip(1))
    }
}

/// Abstract contents of a `VEVENT`: its UID, its DTSTAMP, and the properties
/// pushed after construction, in order, as name/value pairs.
pub ghost struct EventModel {
    pub uid: Seq<char>,
    pub dtstamp: Seq<char>,
    pub props: Seq<(Seq<char>, Seq<char>)>,
}

/// Abstract contents of a calendar object: its version and product
/// identifier, and its events in insertion order.
pub ghost struct CalModel {
    pub version: Seq<char>,
    pub prodid: Seq<char>,
    pub events: Seq<EventModel>,
}

#[verifier::external_type_specification]
#[verifier::external_body]
pub struct ExICalendar<'a>(ics::ICalendar<'a>);

#[verifier::external_type_specification]
#[verifier::external_body]
pub struct ExEvent<'a>(ics::Event<'a>);

/// The abstract contents of an event value.
pub uninterp spec fn event_model(e: ics::Event<'static>) -> EventModel;

/// The abstract contents of a calendar value.
pub uninterp spec fn cal_model(c: ics::ICalendar<'static>) -> CalModel;

/// The serialized text of a calendar with the given abstract contents.
pub uninterp spec fn ical_text(m: CalModel) -> Seq<char>;

/// Relies on ics::escape_text: commas, semicolons and backslashes get a
/// backslash prefix, and newlines are normalized to a literal `\n`.
#[verifier::external_body]
pub(crate) fn escape_text(s: &str) -> (r: String)
    ensures
        r@ == escape_spec(s@),
{
    ics::escape_text(s).into_owned()
}

/// Relies on ics::Event::new: a fresh `VEVENT` holding exactly the given
/// UID and DTSTAMP and no further properties.
#[verifier::external_body]
pub(crate) fn event_new(uid: String, dtstamp: String) -> (e: ics::Event<'static>)
    ensures
        event_model(e) == (EventModel { uid: uid@, dtstamp: dtstamp@, props: Seq::empty() }),
{
    ics::Event::new(uid, dtstamp)
}

/// Relies on ics::Event::push with ics::properties::DtStart: appends a
/// `DTSTART` property with the given value.
#[verifier::external_body]
pub(crate) fn event_push_dtstart(e: &mut ics::Event<'static>, value: String)
    ensures
        event_model(*final(e)) == (EventModel {
            uid: event_model(*old(e)).uid,
            dtstamp: event_model(*old(e)).dtstamp,
            props: event_model(*old(e)).props.push(("DTSTART"@, value@)),
        }),
{
    e.push(ics::properties::DtStart::new(value));
}

/// Relies on ics::Event::push with ics::properties::Summary: appends a
/// `SUMMARY` property with the given value.
#[verifier::external_body]
pub(crate) fn event_push_summary(e: &mut ics::Event<'static>, value: String)
    ensures
        event_model(*final(e)) == (EventModel {
            uid: event_model(*old(e)).uid,
            dtstamp: event_model(*old(e)).dtstamp,
            props: event_model(*old(e)).props.push(("SUMMARY"@, value@)),
        }),
{
    e.push(ics::properties::Summary::new(value));
}

/// Relies on ics::Event::push with ics::properties::Description: appends a
/// `DESCRIPTION` property with the given value.
#[verifier::external_body]
pub(crate) fn event_push_description(e: &mut ics::Event<'static>, value: String)
    ensures
        event_model(*final(e)) == (EventModel {
            uid: event_model(*old(e)).uid,
            dtstamp: event_model(*old(e)).dtstamp,
            props: event_model(*old(e)).props.push(("DESCRIPTION"@, value@)),
        }),
{
    e.push(ics::properties::Description::new(value));
}

/// Relies on ics::ICalendar::new: a fresh calendar with exactly the given
/// `VERSION` and `PRODID` and no components.
#[verifier::external_body]
pub(crate) fn calendar_new(version: String, prodid: String) -> (c: ics::ICalendar<'static>)
    ensures
        cal_model(c) == (CalModel { version: version@, prodid: prodid@, events: Seq::empty() }),
{
    ics::ICalendar::new(version, prodid)
}

/// Relies on ics::ICalendar::add_event: appends the event to the calendar's
/// components and changes nothing else.
#[verifier::external_body]
pub(crate) fn calendar_add_event(c: &mut ics::ICalendar<'static>, e: ics::Event<'static>)
    ensures
        cal_model(*final(c)) == (CalModel {
            version: cal_model(*old(c)).version,
            prodid: cal_model(*old(c)).prodid,
            events: cal_model(*old(c)).events.push(event_model(e)),
        }),
{
    c.add_event(e);
}

/// Relies on ics::ICalendar's Display implementation: the serialized
/// RFC-5545 text is a function of the calendar's contents alone.
#[verifier::external_body]
pub fn calendar_to_string(c: &ics::ICalendar<'static>) -> (r: String)
    ensures
        r@ == ical_text(cal_model(*c)),
{
    c.to_string()
}

} // verus!
