use safe_gateway::models::commons::PageMetadata;

#[test]
fn to_url_string_formats_both_fields() {
    let m = PageMetadata {
        limit: 20,
        offset: 40,
    };
    assert_eq!(m.to_url_string(), "limit=20&offset=40");
}

#[test]
fn to_url_string_handles_zero_and_negative() {
    let m = PageMetadata {
        limit: 0,
        offset: -5,
    };
    assert_eq!(m.to_url_string(), "limit=0&offset=-5");
}

#[test]
fn from_url_string_reads_both_fields() {
    let m = PageMetadata::from_url_string("limit=20&offset=40").unwrap();
    assert_eq!(
        m,
        PageMetadata {
            limit: 20,
            offset: 40
        }
    );
}

#[test]
fn from_url_string_round_trips() {
    let m = PageMetadata {
        limit: 7,
        offset: 1234,
    };
    assert_eq!(PageMetadata::from_url_string(&m.to_url_string()).unwrap(), m);
}

#[test]
fn from_url_string_ignores_unknown_keys_and_defaults_missing() {
    let m = PageMetadata::from_url_string("queued=true&offset=15").unwrap();
    assert_eq!(
        m,
        PageMetadata {
            limit: 0,
            offset: 15
        }
    );
}

#[test]
fn from_url_string_unparsable_values_read_as_zero() {
    let m = PageMetadata::from_url_string("limit=abc&offset=99999999999999999999").unwrap();
    assert_eq!(m, PageMetadata { limit: 0, offset: 0 });
}

#[test]
fn from_url_string_missing_value_reads_as_zero() {
    let m = PageMetadata::from_url_string("limit&offset=3").unwrap();
    assert_eq!(m, PageMetadata { limit: 0, offset: 3 });
}

#[test]
fn from_url_string_last_occurrence_wins() {
    let m = PageMetadata::from_url_string("limit=1&limit=2").unwrap();
    assert_eq!(m, PageMetadata { limit: 2, offset: 0 });
}

#[test]
fn from_url_string_empty_input_is_all_defaults() {
    let m = PageMetadata::from_url_string("").unwrap();
    assert_eq!(m, PageMetadata { limit: 0, offset: 0 });
}
