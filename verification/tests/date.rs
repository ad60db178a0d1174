use flight_lookup::date::is_date;

#[test]
fn accepts_a_calendar_date() {
    assert!(is_date("2024-01-01"));
}

#[test]
fn accepts_three_segments_that_are_no_date() {
    assert!(is_date("99-99-9999"));
    assert!(is_date("a-b-c"));
    assert!(is_date("yesterday-or-tomorrow"));
}

#[test]
fn accepts_empty_segments() {
    assert!(is_date("--"));
    assert!(is_date("2024--"));
    assert!(is_date("-01-"));
}

#[test]
fn accepts_segments_beyond_ascii() {
    assert!(is_date("ä-ö-ü"));
    assert!(!is_date("ä-ö"));
}

#[test]
fn rejects_fewer_than_three_segments() {
    assert!(!is_date(""));
    assert!(!is_date("20240101"));
    assert!(!is_date("2024-01"));
    assert!(!is_date("-"));
}

#[test]
fn rejects_more_than_three_segments() {
    assert!(!is_date("2024-01-01-01"));
    assert!(!is_date("---"));
    assert!(!is_date("1-2-3-4-5"));
}

#[test]
fn agrees_with_splitting_at_dashes() {
    let samples = [
        "", "-", "--", "---", "2024-01-01", "2024/01/01", "a-b", "a-b-c-d", "99-99-9999", " - - ",
        "2024-01-01T10:00", "−-−-−",
    ];
    for sample in samples {
        assert_eq!(is_date(sample), sample.split('-').count() == 3, "{:?}", sample);
    }
}
