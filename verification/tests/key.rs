use flight_lookup::key::cache_key;

#[test]
fn key_is_number_star_date() {
    assert_eq!(cache_key("BA123", "2024-01-01"), "BA123*2024-01-01");
    assert_eq!(cache_key("LH456", "2024-02-02"), "LH456*2024-02-02");
}

#[test]
fn key_of_empty_parts_is_the_delimiter() {
    assert_eq!(cache_key("", ""), "*");
    assert_eq!(cache_key("BA123", ""), "BA123*");
    assert_eq!(cache_key("", "2024-01-01"), "*2024-01-01");
}

#[test]
fn key_is_stable_across_calls() {
    let first = cache_key("BA123", "2024-01-01");
    for _ in 0..10 {
        assert_eq!(cache_key("BA123", "2024-01-01"), first);
    }
}

#[test]
fn keys_of_distinct_pairs_differ() {
    let pairs = [
        ("BA123", "2024-01-01"),
        ("BA123", "2024-01-02"),
        ("BA124", "2024-01-01"),
        ("BA12", "32024-01-01"),
        ("", "BA1232024-01-01"),
    ];
    for (i, a) in pairs.iter().enumerate() {
        for (j, b) in pairs.iter().enumerate() {
            assert_eq!(cache_key(a.0, a.1) == cache_key(b.0, b.1), i == j);
        }
    }
}

#[test]
fn a_delimiter_in_the_number_can_collide() {
    assert_eq!(cache_key("BA*1", "2"), cache_key("BA", "1*2"));
}
