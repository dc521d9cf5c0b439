use widget_engine::clock::today_fields;
use widget_engine::clock::civil_from_unix;
use widget_engine::document::ForecastEntry;
use widget_engine::document::battery_label;
use widget_engine::document::build_widget_document;
use widget_engine::document::hourly_cards;
use widget_engine::kanji::MeaningEntry;
use widget_engine::kanji::SubjectData;
use widget_engine::kanji::extract_kanji;
use widget_engine::kanji::subject_ids_query;
use widget_engine::text::join_with_commas;
use widget_engine::text::replace_all;
use widget_engine::text::u64_to_string;
use widget_engine::weather::select_forecast_indices;
use widget_engine::weather::weather_description;

#[test]
fn replace_all_replaces_every_occurrence() {
    assert_eq!(replace_all("a{x}b{x}", "{x}", "1"), "a1b1");
}

#[test]
fn replace_all_is_leftmost_and_non_overlapping() {
    assert_eq!(replace_all("aaa", "aa", "b"), "ba");
}

#[test]
fn replace_all_does_not_rescan_replaced_text() {
    assert_eq!(replace_all("ab", "a", "aa"), "aab");
}

#[test]
fn replace_all_without_occurrence_is_identity() {
    assert_eq!(replace_all("hello", "{x}", "1"), "hello");
}

#[test]
fn decimal_rendering_exact() {
    assert_eq!(u64_to_string(0), "0");
    assert_eq!(u64_to_string(7), "7");
    assert_eq!(u64_to_string(12345), "12345");
    assert_eq!(u64_to_string(u64::MAX), "18446744073709551615");
}

#[test]
fn join_with_commas_exact() {
    assert_eq!(join_with_commas(&vec![]), "");
    assert_eq!(join_with_commas(&vec![5]), "5");
    assert_eq!(join_with_commas(&vec![1, 22, 333]), "1,22,333");
}

#[test]
fn weather_description_table() {
    assert_eq!(weather_description(&0), "Clear sky");
    assert_eq!(weather_description(&2), "Mostly clear");
    assert_eq!(weather_description(&55), "Drizzle");
    assert_eq!(weather_description(&99), "Thunderstorm with hail");
    assert_eq!(weather_description(&1000), "Unknown");
    assert_eq!(weather_description(&-1), "Unknown");
}

#[test]
fn forecast_selection_spacing_and_cap() {
    let times: Vec<i64> = vec![0, 3600, 7200, 10800, 14400, 21600, 28800];
    let picked = select_forecast_indices(&times, 0);
    assert_eq!(picked, vec![0, 2, 4, 5]);
}

#[test]
fn forecast_selection_skips_past_instants() {
    let times: Vec<i64> = vec![0, 3600, 7200, 10800];
    let picked = select_forecast_indices(&times, 5000);
    assert_eq!(picked, vec![2]);
}

#[test]
fn forecast_selection_empty() {
    let times: Vec<i64> = vec![];
    let picked = select_forecast_indices(&times, 0);
    assert!(picked.is_empty());
}

#[test]
fn civil_from_unix_epoch() {
    let c = civil_from_unix(0);
    assert_eq!(
        (c.year, c.month, c.day, c.hour, c.minute, c.second),
        (1970, 1, 1, 0, 0, 0)
    );
}

#[test]
fn civil_from_unix_leap_day() {
    let c = civil_from_unix(1709164800);
    assert_eq!(
        (c.year, c.month, c.day, c.hour, c.minute, c.second),
        (2024, 2, 29, 0, 0, 0)
    );
}

#[test]
fn civil_from_unix_before_epoch() {
    let c = civil_from_unix(-1);
    assert_eq!(
        (c.year, c.month, c.day, c.hour, c.minute, c.second),
        (1969, 12, 31, 23, 59, 59)
    );
}

#[test]
fn civil_from_unix_range_ends() {
    let lo = civil_from_unix(-62167219200);
    assert_eq!(
        (lo.year, lo.month, lo.day, lo.hour, lo.minute, lo.second),
        (0, 1, 1, 0, 0, 0)
    );
    let hi = civil_from_unix(253402300799);
    assert_eq!(
        (hi.year, hi.month, hi.day, hi.hour, hi.minute, hi.second),
        (9999, 12, 31, 23, 59, 59)
    );
}

#[test]
fn today_fields_applies_offset() {
    let c = today_fields(0, Some(7200)).unwrap();
    assert_eq!((c.year, c.month, c.day, c.hour), (1970, 1, 1, 2));
}

#[test]
fn today_fields_rejects_unrepresentable_shift() {
    assert!(today_fields(253402300799, Some(1)).is_none());
    assert!(today_fields(0, Some(i64::MAX)).is_none());
}

#[test]
fn battery_label_variants() {
    assert_eq!(battery_label(Some(42), Some(true)), "Battery 42% (charging)");
    assert_eq!(battery_label(Some(7), Some(false)), "Battery 7%");
    assert_eq!(battery_label(Some(7), None), "Battery 7%");
    assert_eq!(battery_label(None, Some(true)), "Battery status unavailable");
}

#[test]
fn hourly_cards_pads_to_four_lines() {
    let entries = vec![ForecastEntry {
        time_label: "09:00 AM".to_string(),
        temperature_label: "12\u{00b0}C".to_string(),
        precipitation_label: "40%".to_string(),
    }];
    let cards = hourly_cards(&entries);
    let expected = "    hour-card(\"09:00 AM\", \"12\u{00b0}C\", \"40%\"),\n    hour-card(\"--\", \"--\", \"--\"),\n    hour-card(\"--\", \"--\", \"--\"),\n    hour-card(\"--\", \"--\", \"--\"),\n";
    assert_eq!(cards, expected);
}

#[test]
fn build_widget_document_substitutes_values() {
    let template = "{width}x{height} | {condition} | {battery} | {day_label} {updated}";
    let doc = build_widget_document(
        template,
        100,
        50,
        None,
        None,
        0,
        "12C",
        "11C",
        "40%",
        Some(88),
        Some(false),
        &vec![],
    );
    assert_eq!(doc, "100x50 | Clear sky | Battery 88% | Today Updated --");
}

#[test]
fn extract_kanji_picks_primary_meaning() {
    let subjects = vec![SubjectData {
        characters: Some("\u{6728}".to_string()),
        meanings: vec![
            MeaningEntry { meaning: "Wood".to_string(), primary: false },
            MeaningEntry { meaning: "Tree".to_string(), primary: true },
        ],
    }];
    let kanji = extract_kanji(subjects, 10);
    assert_eq!(kanji.len(), 1);
    assert_eq!(kanji[0].character, "\u{6728}");
    assert_eq!(kanji[0].meaning, "Tree");
}

#[test]
fn extract_kanji_fallbacks() {
    let subjects = vec![
        SubjectData {
            characters: None,
            meanings: vec![MeaningEntry { meaning: "Water".to_string(), primary: false }],
        },
        SubjectData { characters: Some("x".to_string()), meanings: vec![] },
    ];
    let kanji = extract_kanji(subjects, 10);
    assert_eq!(kanji[0].character, "?");
    assert_eq!(kanji[0].meaning, "Water");
    assert_eq!(kanji[1].meaning, "(no meaning)");
}

#[test]
fn extract_kanji_respects_limit() {
    let subjects = vec![
        SubjectData { characters: Some("a".to_string()), meanings: vec![] },
        SubjectData { characters: Some("b".to_string()), meanings: vec![] },
        SubjectData { characters: Some("c".to_string()), meanings: vec![] },
    ];
    let kanji = extract_kanji(subjects, 2);
    assert_eq!(kanji.len(), 2);
    assert_eq!(kanji[1].character, "b");
}

#[test]
fn subject_ids_query_joins_and_truncates() {
    assert_eq!(subject_ids_query(&vec![1, 2, 3], 2).unwrap(), "1,2");
    assert_eq!(subject_ids_query(&vec![9], 5).unwrap(), "9");
    assert!(subject_ids_query(&vec![], 5).is_none());
    assert!(subject_ids_query(&vec![1, 2], 0).is_none());
}
