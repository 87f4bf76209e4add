//! Calendar generation: each schedule record with a valid next pickup date
//! becomes an event with a stable identity derived from the record's
//! identity tuple, a localized summary with a product-group icon, and a
//! description carrying the name, the gross cost and the recurrence
//! interval. Records that fail are dropped without aborting the batch.

use vstd::prelude::*;
use crate::dates::{compact_spec, valid_iso_date};
use crate::ical::{
    cal_model, calendar_add_event, calendar_new, escape_spec, escape_text, event_model, event_new,
    event_push_description, event_push_dtstart, event_push_summary, EventModel,
};
use crate::models::TrashService;
use crate::money::{gross_cents, money_str};
use crate::text::{int_str, str_eq};

verus! {

/// Per-record faults; such a record is dropped and the batch continues.
#[derive(Debug, Clone, Copy, PartialEq, Eq, Structural)]
pub enum EventError {
    /// The record has no next pickup date.
    NoDate,
    /// The next pickup date is not an ISO `YYYY-MM-DD` calendar date.
    BadDate,
}

/// One generated event, as plain values.
pub struct EventData {
    /// Stable identifier derived from the identity tuple.
    pub uid: String,
    /// Creation timestamp, captured fresh for every event.
    pub dtstamp: String,
    /// All-day start date, `YYYYMMDD`.
    pub dtstart: String,
    /// Localized summary line.
    pub summary: String,
    /// Description lines carrying name, cost and interval.
    pub description: String,
}

/// The identity-relevant part of an event: everything but the timestamp.
pub ghost struct EventCore {
    pub uid: Seq<char>,
    pub dtstart: Seq<char>,
    pub summary: Seq<char>,
    pub description: Seq<char>,
}

/// The identity-relevant part of generated event data.
pub open spec fn core_of(e: EventData) -> EventCore {
    EventCore { uid: e.uid@, dtstart: e.dtstart@, summary: e.summary@, description: e.description@ }
}

/// The record's service type id, 0 when absent.
pub open spec fn type_id_of(svc: TrashService) -> int {
    if svc.ASTTyyppi is Some {
        svc.ASTTyyppi->0 as int
    } else {
        0
    }
}

/// The stable event identifier:
/// `pjhoy_{customerNumber}_{serviceTypeId}_{position}_{rawDateString}`,
/// with the raw, unparsed date string used verbatim.
pub open spec fn uid_spec(svc: TrashService) -> Seq<char>
    recommends
        svc.ASTNextDate is Some,
{
    "pjhoy_"@ + svc.ASTAsnro@ + "_"@ + int_str(type_id_of(svc)) + "_"@ + int_str(
        svc.ASTPos as int,
    ) + "_"@ + (svc.ASTNextDate->0)@
}

/// The fixed product-group table: icon and localized label per known code.
pub open spec fn group_title(code: Seq<char>) -> Option<Seq<char>> {
    if code == "SEK"@ {
        Some("🗑️ Sekajäte"@)
    } else if code == "BIO"@ {
        Some("🍃 Biojäte"@)
    } else if code == "KK"@ {
        Some("📦 Kartonki"@)
    } else if code == "MU"@ {
        Some("🔄 Muovi"@)
    } else if code == "PP"@ {
        Some("📄 Paperi"@)
    } else if code == "ME"@ {
        Some("🔧 Metalli"@)
    } else if code == "LA"@ {
        Some("🥃 Lasi"@)
    } else if code == "VU"@ {
        Some("☣️ Vaarallinen jäte"@)
    } else {
        None
    }
}

/// The unescaped product-group title of a record: the table entry for a
/// known code, the generic-box icon with the code passed through verbatim
/// for an unrecognized one, and nothing when the record carries no
/// product group.
pub open spec fn raw_title(svc: TrashService) -> Option<Seq<char>> {
    if svc.tariff is Some && svc.tariff->0.productgroup is Some {
        let code = (svc.tariff->0.productgroup->0)@;
        match group_title(code) {
            Some(t) => Some(t),
            None => Some("📦 "@ + code),
        }
    } else {
        None
    }
}

/// The escaped summary: the product-group title when the record has one,
/// and the localized `Jäte:` fallback with the service name otherwise.
pub open spec fn summary_spec(svc: TrashService) -> Seq<char> {
    match raw_title(svc) {
        Some(t) => escape_spec(t),
        None => escape_spec("Jäte: "@ + svc.ASTNimi@),
    }
}

/// The description: the escaped service name; when a cost is present, the
/// gross cost to two decimals with the tax-inclusive annotation; and the
/// recurrence interval verbatim — each on a line of its own.
pub open spec fn desc_spec(svc: TrashService) -> Seq<char> {
    "\r\n "@ + escape_spec(svc.ASTNimi@) + (if svc.ASTHinta is Some {
        "\r\n "@ + escape_spec(
            "Maksu: "@ + money_str(gross_cents(svc.ASTHinta->0 as int)) + " € (sis. ALV)"@,
        )
    } else {
        Seq::empty()
    }) + "\r\n "@ + escape_spec(svc.ASTVali@)
}

/// The all-day start value: the compact form of the date string.
pub open spec fn dtstart_spec(svc: TrashService) -> Seq<char>
    recommends
        svc.ASTNextDate is Some,
{
    compact_spec((svc.ASTNextDate->0)@)
}

/// Whether a record yields an event: it has a next pickup date and the date
/// parses as an ISO calendar date.
pub open spec fn event_ok(svc: TrashService) -> bool {
    svc.ASTNextDate is Some && valid_iso_date((svc.ASTNextDate->0)@)
}

/// The identity-relevant event of a record that yields one.
pub open spec fn core_spec(svc: TrashService) -> EventCore
    recommends
        event_ok(svc),
{
    EventCore {
        uid: uid_spec(svc),
        dtstart: dtstart_spec(svc),
        summary: summary_spec(svc),
        description: desc_spec(svc),
    }
}

/// One left-to-right pass over the records: each record that yields an
/// event appends it, the others are dropped.
pub open spec fn events_pass(svcs: Seq<TrashService>, acc: Seq<EventCore>) -> Seq<EventCore>
    decreases svcs.len(),
{
    if svcs.len() == 0 {
        acc
    } else if event_ok(svcs[0]) {
        events_pass(svcs.skip(1), acc.push(core_spec(svcs[0])))
    } else {
        events_pass(svcs.skip(1), acc)
    }
}

/// The events generated from a record list, in the records' order.
pub open spec fn events_spec(svcs: Seq<TrashService>) -> Seq<EventCore> {
    events_pass(svcs, Seq::empty())
}

/// The number of records without a next pickup date.
pub open spec fn count_dateless(svcs: Seq<TrashService>) -> int
    decreases svcs.len(),
{
    if svcs.len() == 0 {
        0
    } else {
        (if svcs[0].ASTNextDate is None {
            1int
        } else {
            0int
        }) + count_dateless(svcs.skip(1))
    }
}

/// The product-group title of a record: `{icon} {localizedName}` for a
/// known code, `📦 {code}` for an unrecognized one, nothing without a
/// product group.
pub fn get_product_group_title(service: &TrashService) -> (r: Option<String>)
    ensures
        r is Some <==> raw_title(*service) is Some,
        r matches Some(t) ==> raw_title(*service) matches Some(rt) && t@ == rt,
{
    let tariff = match &service.tariff {
        None => {
            return None;
        },
        Some(t) => t,
    };
    let code: &String = match &tariff.productgroup {
        None => {
            return None;
        },
        Some(c) => c,
    };
    if str_eq(code.as_str(), "SEK") {
        Some(String::from_str("🗑️ Sekajäte"))
    } else if str_eq(code.as_str(), "BIO") {
        Some(String::from_str("🍃 Biojäte"))
    } else if str_eq(code.as_str(), "KK") {
        Some(String::from_str("📦 Kartonki"))
    } else if str_eq(code.as_str(), "MU") {
        Some(String::from_str("🔄 Muovi"))
    } else if str_eq(code.as_str(), "PP") {
        Some(String::from_str("📄 Paperi"))
    } else if str_eq(code.as_str(), "ME") {
        Some(String::from_str("🔧 Metalli"))
    } else if str_eq(code.as_str(), "LA") {
        Some(String::from_str("🥃 Lasi"))
    } else if str_eq(code.as_str(), "VU") {
        Some(String::from_str("☣️ Vaarallinen jäte"))
    } else {
        let mut t = String::from_str("📦 ");
        t.append(code.as_str());
        Some(t)
    }
}

/// Generates the event of one schedule record: fails with `NoDate` when the
/// record has no next pickup date and with `BadDate` when the date does not
/// parse; otherwise the event carries the stable identifier, the compact
/// start date, the localized summary and the description, with a fresh
/// creation timestamp.
pub fn generate_calendar_event(service: &TrashService) -> (r: Result<EventData, EventError>)
    ensures
        r is Ok <==> event_ok(*service),
        service.ASTNextDate is None ==> r == Err::<EventData, EventError>(EventError::NoDate),
        service.ASTNextDate is Some && !valid_iso_date((service.ASTNextDate->0)@) ==> r == Err::<
            EventData,
            EventError,
        >(EventError::BadDate),
        r matches Ok(e) ==> core_of(e) == core_spec(*service) && e.dtstamp@.len() >= 16
            && e.dtstamp@.contains('T'),
{
    let next_date: &String = match &service.ASTNextDate {
        None => {
            return Err(EventError::NoDate);
        },
        Some(d) => d,
    };
    match crate::dates::parse_iso_date(next_date.as_str()) {
        None => {
            return Err(EventError::BadDate);
        },
        Some(_) => {},
    };
    let mut uid = String::from_str("pjhoy_");
    uid.append(service.ASTAsnro.as_str());
    uid.append("_");
    let type_id: i32 = match &service.ASTTyyppi {
        Some(t) => *t,
        None => 0,
    };
    uid.append(crate::text::i32_to_string(type_id).as_str());
    uid.append("_");
    uid.append(crate::text::i32_to_string(service.ASTPos).as_str());
    uid.append("_");
    uid.append(next_date.as_str());
    let dtstart = crate::dates::compact_date(next_date.as_str());
    let summary = match get_product_group_title(service) {
        Some(title) => escape_text(title.as_str()),
        None => {
            let mut t = String::from_str("Jäte: ");
            t.append(service.ASTNimi.as_str());
            escape_text(t.as_str())
        },
    };
    let mut description = String::from_str("\r\n ");
    description.append(escape_text(service.ASTNimi.as_str()).as_str());
    match &service.ASTHinta {
        Some(cost) => {
            let mut line = String::from_str("Maksu: ");
            line.append(crate::money::render_gross(*cost).as_str());
            line.append(" € (sis. ALV)");
            description.append("\r\n ");
            description.append(escape_text(line.as_str()).as_str());
        },
        None => {},
    }
    description.append("\r\n ");
    description.append(escape_text(service.ASTVali.as_str()).as_str());
    let dtstamp = crate::clock::now_dtstamp();
    let e = EventData { uid, dtstamp, dtstart, summary, description };
    proof {
        assert(e.uid@ == uid_spec(*service));
        assert(e.dtstart@ == dtstart_spec(*service));
        assert(e.summary@ == summary_spec(*service));
        assert(e.description@ =~= desc_spec(*service));
        assert(core_of(e) == core_spec(*service));
    }
    Ok(e)
}

/// The generated events together with the number of records dropped.
pub struct CalendarDocument {
    /// The events of the records that yielded one, in input order.
    pub events: Vec<EventData>,
    /// How many records were dropped for want of a usable date.
    pub dropped: usize,
}

/// Generates events for a whole record list: records that fail are dropped
/// silently and counted, never aborting the batch; the events keep the
/// records' relative order.
pub fn generate_events(services: &Vec<TrashService>) -> (doc: CalendarDocument)
    ensures
        doc.events@.map_values(|e: EventData| core_of(e)) == events_spec(services@),
        doc.events@.len() + doc.dropped == services@.len(),
        forall|i: int|
            0 <= i < doc.events@.len() ==> (#[trigger] doc.events@[i]).dtstamp@.len() >= 16
                && doc.events@[i].dtstamp@.contains('T'),
{
    let mut events: Vec<EventData> = Vec::new();
    let mut dropped: usize = 0;
    let mut i: usize = 0;
    let ghost all = services@;
    proof {
        assert(all.skip(0) =~= all);
        assert(events@.map_values(|e: EventData| core_of(e)) =~= Seq::<EventCore>::empty());
    }
    while i < services.len()
        invariant
            i <= all.len(),
            all == services@,
            events@.len() + dropped == i,
            events_pass(all, Seq::empty()) == events_pass(
                all.skip(i as int),
                events@.map_values(|e: EventData| core_of(e)),
            ),
            forall|k: int|
                0 <= k < events@.len() ==> (#[trigger] events@[k]).dtstamp@.len() >= 16
                    && events@[k].dtstamp@.contains('T'),
        decreases all.len() - i,
    {
        let ghost before = all.skip(i as int);
        let ghost old_cores = events@.map_values(|e: EventData| core_of(e));
        proof {
            assert(before[0] == all[i as int]);
            assert(before.skip(1) =~= all.skip(i + 1));
        }
        match generate_calendar_event(&services[i]) {
            Ok(e) => {
                events.push(e);
                proof {
                    assert(events@.map_values(|e: EventData| core_of(e)) =~= old_cores.push(
                        core_spec(all[i as int]),
                    ));
                }
            },
            Err(_) => {
                dropped += 1;
            },
        }
        i += 1;
    }
    proof {
        assert(all.skip(all.len() as int) =~= Seq::<TrashService>::empty());
    }
    CalendarDocument { events, dropped }
}

/// Whether an event value in the calendar carries exactly one generated
/// event: its UID, and `DTSTART`, `SUMMARY` and `DESCRIPTION` properties in
/// that order, with a timestamp of the expected shape.
pub open spec fn model_matches(m: EventModel, c: EventCore) -> bool {
    &&& m.uid == c.uid
    &&& m.dtstamp.len() >= 16
    &&& m.dtstamp.contains('T')
    &&& m.props == seq![("DTSTART"@, c.dtstart), ("SUMMARY"@, c.summary), ("DESCRIPTION"@, c.description)]
}

/// Whether the calendar's events are exactly the generated ones, in order.
pub open spec fn models_match(ms: Seq<EventModel>, cs: Seq<EventCore>) -> bool {
    ms.len() == cs.len() && forall|i: int| 0 <= i < ms.len() ==> model_matches(ms[i], cs[i])
}

/// Generates the calendar document for a record list: version `2.0`,
/// product identifier `-//pjhoy//trash calendar//EN`, and one event per
/// record that yields one, in input order.
pub fn generate_calendar(services: &Vec<TrashService>) -> (cal: ics::ICalendar<'static>)
    ensures
        cal_model(cal).version == "2.0"@,
        cal_model(cal).prodid == "-//pjhoy//trash calendar//EN"@,
        models_match(cal_model(cal).events, events_spec(services@)),
{
    let doc = generate_events(services);
    let ghost cores = events_spec(services@);
    let mut cal = calendar_new(
        String::from_str("2.0"),
        String::from_str("-//pjhoy//trash calendar//EN"),
    );
    let mut i: usize = 0;
    proof {
        assert(cores.take(0) =~= Seq::<EventCore>::empty());
    }
    while i < doc.events.len()
        invariant
            i <= doc.events@.len(),
            doc.events@.map_values(|e: EventData| core_of(e)) == cores,
            doc.events@.len() == cores.len(),
            forall|k: int|
                0 <= k < doc.events@.len() ==> (#[trigger] doc.events@[k]).dtstamp@.len() >= 16
                    && doc.events@[k].dtstamp@.contains('T'),
            cal_model(cal).version == "2.0"@,
            cal_model(cal).prodid == "-//pjhoy//trash calendar//EN"@,
            models_match(cal_model(cal).events, cores.take(i as int)),
        decreases doc.events@.len() - i,
    {
        let ghost old_models = cal_model(cal).events;
        let entry = &doc.events[i];
        let mut ev = event_new(entry.uid.clone(), entry.dtstamp.clone());
        event_push_dtstart(&mut ev, entry.dtstart.clone());
        event_push_summary(&mut ev, entry.summary.clone());
        event_push_description(&mut ev, entry.description.clone());
        proof {
            assert(doc.events@.map_values(|e: EventData| core_of(e))[i as int] == core_of(
                doc.events@[i as int],
            ));
            assert(event_model(ev).props =~= seq![
                ("DTSTART"@, cores[i as int].dtstart),
                ("SUMMARY"@, cores[i as int].summary),
                ("DESCRIPTION"@, cores[i as int].description),
            ]);
            assert(model_matches(event_model(ev), cores[i as int]));
        }
        calendar_add_event(&mut cal, ev);
        proof {
            assert(cal_model(cal).events =~= old_models.push(event_model(ev)));
            assert(cores.take(i + 1) =~= cores.take(i as int).push(cores[i as int]));
        }
        i += 1;
    }
    proof {
        assert(cores.take(cores.len() as int) =~= cores);
    }
    cal
}

/// The event identifier is a function of the identity tuple alone — the
/// customer number, the service type id (0 when absent), the position and
/// the raw date string — independent of name, cost, tariff and interval.
pub proof fn lemma_identifier_identity_tuple(a: TrashService, b: TrashService)
    requires
        a.ASTNextDate is Some,
        b.ASTNextDate is Some,
        (a.ASTNextDate->0)@ == (b.ASTNextDate->0)@,
        a.ASTAsnro@ == b.ASTAsnro@,
        type_id_of(a) == type_id_of(b),
        a.ASTPos == b.ASTPos,
    ensures
        uid_spec(a) == uid_spec(b),
{
}

proof fn lemma_events_pass_len(svcs: Seq<TrashService>, acc: Seq<EventCore>)
    requires
        forall|i: int|
            0 <= i < svcs.len() ==> ((#[trigger] svcs[i]).ASTNextDate is Some ==> valid_iso_date(
                (svcs[i].ASTNextDate->0)@,
            )),
    ensures
        events_pass(svcs, acc).len() == acc.len() + svcs.len() - count_dateless(svcs),
    decreases svcs.len(),
{
    if svcs.len() > 0 {
        assert forall|i: int|
            0 <= i < svcs.skip(1).len() implies ((#[trigger] svcs.skip(1)[i]).ASTNextDate is Some
            ==> valid_iso_date((svcs.skip(1)[i].ASTNextDate->0)@)) by {
            assert(svcs.skip(1)[i] == svcs[i + 1]);
        }
        if event_ok(svcs[0]) {
            lemma_events_pass_len(svcs.skip(1), acc.push(core_spec(svcs[0])));
        } else {
            lemma_events_pass_len(svcs.skip(1), acc);
        }
    }
}

/// Records without a next pickup date are excluded from the output: when
/// every dated record parses, a batch of N records among which M lack a
/// date yields exactly N − M events, none of them aborting the run.
pub proof fn lemma_dateless_records_skipped(svcs: Seq<TrashService>)
    requires
        forall|i: int|
            0 <= i < svcs.len() ==> ((#[trigger] svcs[i]).ASTNextDate is Some ==> valid_iso_date(
                (svcs[i].ASTNextDate->0)@,
            )),
    ensures
        events_spec(svcs).len() == svcs.len() - count_dateless(svcs),
{
    lemma_events_pass_len(svcs, Seq::empty());
}

/// Generating twice from the same unchanged record list yields identical
/// identifiers, start dates, summaries and descriptions; only the creation
/// timestamps may differ.
pub proof fn lemma_regeneration_stable(
    svcs: Seq<TrashService>,
    first: Seq<EventCore>,
    second: Seq<EventCore>,
)
    requires
        first == events_spec(svcs),
        second == events_spec(svcs),
    ensures
        first.len() == second.len(),
        forall|i: int|
            0 <= i < first.len() ==> first[i].uid == second[i].uid && first[i].dtstart
                == second[i].dtstart && first[i].summary == second[i].summary
                && first[i].description == second[i].description,
{
}

} // verus!
