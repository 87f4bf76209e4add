use pjhoy::calendar::{
    generate_calendar, generate_calendar_event, generate_events, get_product_group_title,
    EventError,
};
use pjhoy::ical::calendar_to_string;
use pjhoy::models::{Tariff, TrashService};

fn service(
    date: Option<&str>,
    name: &str,
    customer: &str,
    pos: i32,
    type_id: Option<i32>,
    cost_cents: Option<i64>,
    tariff: Option<Tariff>,
) -> TrashService {
    TrashService {
        ASTNextDate: date.map(|d| d.to_string()),
        ASTNimi: name.to_string(),
        ASTAsnro: customer.to_string(),
        ASTPos: pos,
        ASTTyyppi: type_id,
        tariff,
        ASTHinta: cost_cents,
        ASTVali: "10".to_string(),
    }
}

fn tariff(group: Option<&str>, name: Option<&str>) -> Tariff {
    Tariff {
        productgroup: group.map(|g| g.to_string()),
        name: name.map(|n| n.to_string()),
    }
}

fn event_text(svc: TrashService) -> String {
    let cal = generate_calendar(&vec![svc]);
    calendar_to_string(&cal)
}

#[test]
fn calendar_test_event_creation_with_timestamp() {
    // Create a sample trash service
    let svc = service(
        Some("2023-12-25"),
        "Test Trash Pickup",
        "12345",
        1,
        Some(1),
        Some(1050),
        None,
    );

    // Generate the event and render it
    let event_str = event_text(svc);

    // Parse to check properties
    let mut properties = std::collections::HashMap::new();
    for line in event_str.lines() {
        let line = line.trim_end();
        if line.starts_with("BEGIN:")
            || line.starts_with("END:")
            || line.is_empty()
            || line.starts_with(" ")
        {
            continue;
        }
        if let Some((name, value)) = line.split_once(':') {
            properties
                .entry(name.to_string())
                .or_insert_with(Vec::new)
                .push(value.to_string());
        }
    }

    assert_eq!(
        properties.get("UID"),
        Some(&vec!["pjhoy_12345_1_1_2023-12-25".to_string()])
    );
    assert_eq!(
        properties.get("DTSTART"),
        Some(&vec!["20231225".to_string()])
    );
    assert_eq!(
        properties.get("SUMMARY"),
        Some(&vec!["Jäte: Test Trash Pickup".to_string()])
    );
    assert_eq!(properties.get("DESCRIPTION"), Some(&vec!["".to_string()]));

    if let Some(dtstamps) = properties.get("DTSTAMP") {
        assert!(
            !dtstamps.is_empty(),
            "DTSTAMP should have at least one entry"
        );
        assert!(
            dtstamps.iter().all(|s| s.contains('T')),
            "DTSTAMP must have time component"
        );
    } else {
        panic!("DTSTAMP property not found in event");
    }
}

#[test]
fn test_product_group_titles() {
    // Test with SEK product group
    let sek = service(
        Some("2023-12-25"),
        "Sekajäte säiliö",
        "12345",
        1,
        Some(1),
        Some(1050),
        Some(tariff(Some("SEK"), Some("Sekajäte"))),
    );
    let event_str = event_text(sek);
    assert!(event_str.contains("SUMMARY:🗑️ Sekajäte"));
    assert!(event_str.contains("DESCRIPTION:\r\n Sekajäte säiliö\r\n Maksu: 13.18 € (sis. ALV)"));

    // Test with BIO product group
    let bio = service(
        Some("2023-12-25"),
        "Biojäte säiliö",
        "12345",
        2,
        Some(2),
        Some(1050),
        Some(tariff(Some("BIO"), Some("Biojäte"))),
    );
    let event_str = event_text(bio);
    assert!(event_str.contains("SUMMARY:🍃 Biojäte"));
    assert!(event_str.contains("DESCRIPTION:\r\n Biojäte säiliö\r\n Maksu: 13.18 € (sis. ALV)"));

    // Test with unknown product group
    let unknown = service(
        Some("2023-12-25"),
        "Unknown service",
        "12345",
        3,
        Some(3),
        Some(1050),
        Some(tariff(Some("UNKNOWN"), Some("Unknown"))),
    );
    let event_str = event_text(unknown);
    assert!(event_str.contains("SUMMARY:📦 UNKNOWN"));
    assert!(event_str.contains("DESCRIPTION:\r\n Unknown service\r\n Maksu: 13.18 € (sis. ALV)"));

    // Test with no tariff (fallback to old format)
    let no_tariff = service(
        Some("2023-12-25"),
        "No tariff service",
        "12345",
        4,
        Some(4),
        Some(1050),
        None,
    );
    let event_str = event_text(no_tariff);
    assert!(event_str.contains("SUMMARY:Jäte: No tariff service"));
    assert!(event_str.contains("DESCRIPTION:\r\n No tariff service\r\n Maksu: 13.18 € (sis. ALV)"));
}

#[test]
fn product_group_table_covers_all_known_codes() {
    let cases = [
        ("SEK", "🗑️ Sekajäte"),
        ("BIO", "🍃 Biojäte"),
        ("KK", "📦 Kartonki"),
        ("MU", "🔄 Muovi"),
        ("PP", "📄 Paperi"),
        ("ME", "🔧 Metalli"),
        ("LA", "🥃 Lasi"),
        ("VU", "☣️ Vaarallinen jäte"),
    ];
    for (code, expected) in cases {
        let svc = service(
            Some("2023-12-25"),
            "x",
            "1",
            1,
            None,
            None,
            Some(tariff(Some(code), None)),
        );
        assert_eq!(get_product_group_title(&svc).as_deref(), Some(expected));
    }
    let no_group = service(
        Some("2023-12-25"),
        "x",
        "1",
        1,
        None,
        None,
        Some(tariff(None, Some("name"))),
    );
    assert_eq!(get_product_group_title(&no_group), None);
}

#[test]
fn dateless_record_yields_no_date_error() {
    let svc = service(None, "Rental", "1", 1, None, None, None);
    assert!(matches!(
        generate_calendar_event(&svc),
        Err(EventError::NoDate)
    ));
}

#[test]
fn bad_dates_yield_bad_date_error() {
    for bad in [
        "2023-02-29",
        "2023-13-01",
        "2023-00-10",
        "2023-1-05",
        "20231205",
        "2023-12-00",
        "2023-04-31",
        "not a date",
    ] {
        let svc = service(Some(bad), "x", "1", 1, None, None, None);
        assert!(
            matches!(generate_calendar_event(&svc), Err(EventError::BadDate)),
            "expected BadDate for {bad}"
        );
    }
}

#[test]
fn leap_day_parses_in_leap_years_only() {
    let ok = service(Some("2024-02-29"), "x", "1", 1, None, None, None);
    let event = generate_calendar_event(&ok).unwrap();
    assert_eq!(event.dtstart, "20240229");
    let century = service(Some("2000-02-29"), "x", "1", 1, None, None, None);
    assert!(generate_calendar_event(&century).is_ok());
    let non_leap_century = service(Some("1900-02-29"), "x", "1", 1, None, None, None);
    assert!(matches!(
        generate_calendar_event(&non_leap_century),
        Err(EventError::BadDate)
    ));
}

#[test]
fn identifier_uses_identity_tuple_and_raw_date() {
    let svc = service(
        Some("2023-12-25"),
        "anything",
        "98765",
        7,
        Some(3),
        Some(12345),
        Some(tariff(Some("BIO"), None)),
    );
    let event = generate_calendar_event(&svc).unwrap();
    assert_eq!(event.uid, "pjhoy_98765_3_7_2023-12-25");

    // Absent type id defaults to 0; negative position is rendered signed.
    let svc2 = service(Some("2023-12-25"), "x", "9", -4, None, None, None);
    let event2 = generate_calendar_event(&svc2).unwrap();
    assert_eq!(event2.uid, "pjhoy_9_0_-4_2023-12-25");
}

#[test]
fn batch_drops_only_dateless_records() {
    let records = vec![
        service(Some("2023-12-25"), "a", "1", 1, None, None, None),
        service(None, "rental", "1", 2, None, None, None),
        service(Some("2024-01-08"), "b", "1", 3, None, None, None),
        service(None, "other rental", "1", 4, None, None, None),
        service(Some("2024-02-29"), "c", "1", 5, None, None, None),
    ];
    let doc = generate_events(&records);
    assert_eq!(doc.events.len(), 3);
    assert_eq!(doc.dropped, 2);
    assert_eq!(doc.events[0].dtstart, "20231225");
    assert_eq!(doc.events[1].dtstart, "20240108");
    assert_eq!(doc.events[2].dtstart, "20240229");

    let cal = generate_calendar(&records);
    let text = calendar_to_string(&cal);
    assert_eq!(text.matches("BEGIN:VEVENT").count(), 3);
}

#[test]
fn regeneration_keeps_identity_summary_and_description() {
    let records = vec![
        service(
            Some("2023-12-25"),
            "a",
            "11",
            1,
            Some(9),
            Some(1050),
            Some(tariff(Some("SEK"), None)),
        ),
        service(Some("2024-01-08"), "b", "22", 2, None, None, None),
    ];
    let first = generate_events(&records);
    let second = generate_events(&records);
    assert_eq!(first.events.len(), second.events.len());
    for (a, b) in first.events.iter().zip(second.events.iter()) {
        assert_eq!(a.uid, b.uid);
        assert_eq!(a.dtstart, b.dtstart);
        assert_eq!(a.summary, b.summary);
        assert_eq!(a.description, b.description);
    }
}

#[test]
fn summary_and_description_are_escaped() {
    let svc = service(
        Some("2023-12-25"),
        "a,b;c\\d",
        "1",
        1,
        None,
        None,
        None,
    );
    let event = generate_calendar_event(&svc).unwrap();
    assert_eq!(event.summary, "Jäte: a\\,b\\;c\\\\d");
    assert!(event.description.contains("\r\n a\\,b\\;c\\\\d"));

    let newline = service(Some("2023-12-25"), "x\ny", "1", 1, None, None, None);
    let event = generate_calendar_event(&newline).unwrap();
    assert_eq!(event.summary, "Jäte: x\\ny");
}

#[test]
fn calendar_document_head_is_fixed() {
    let cal = generate_calendar(&Vec::new());
    let text = calendar_to_string(&cal);
    assert!(text.contains("BEGIN:VCALENDAR"));
    assert!(text.contains("VERSION:2.0"));
    assert!(text.contains("PRODID:-//pjhoy//trash calendar//EN"));
    assert!(text.contains("END:VCALENDAR"));
    assert!(!text.contains("BEGIN:VEVENT"));
}

#[test]
fn description_ends_with_interval_line() {
    let svc = service(Some("2023-12-25"), "a", "1", 1, None, Some(1050), None);
    let event = generate_calendar_event(&svc).unwrap();
    assert_eq!(
        event.description,
        "\r\n a\r\n Maksu: 13.18 € (sis. ALV)\r\n 10"
    );
    let free = service(Some("2023-12-25"), "a", "1", 1, None, None, None);
    let event = generate_calendar_event(&free).unwrap();
    assert_eq!(event.description, "\r\n a\r\n 10");
}
