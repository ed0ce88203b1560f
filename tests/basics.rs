use carbon_intensity::model::factors::Factors;
use carbon_intensity::model::national_intensity;
use carbon_intensity::model::national_mix;
use carbon_intensity::model::postcode::{self, Query};
use carbon_intensity::model::regional;
use carbon_intensity::capabilities::location::Coordinate;
use carbon_intensity::time::{is_stale, Instant, MAX_TIMESTAMP, MIN_TIMESTAMP};
use chrono::{DateTime, Utc};

#[test]
fn representable_range_matches_chrono() {
    assert_eq!(DateTime::<Utc>::MIN_UTC.timestamp(), MIN_TIMESTAMP);
    assert_eq!(DateTime::<Utc>::MAX_UTC.timestamp(), MAX_TIMESTAMP);
    assert!(Instant::new(MIN_TIMESTAMP, 0).is_some());
    assert!(Instant::new(MAX_TIMESTAMP, 1_999_999_999).is_some());
    assert!(Instant::new(MIN_TIMESTAMP - 1, 0).is_none());
    assert!(Instant::new(MAX_TIMESTAMP + 1, 0).is_none());
    assert!(Instant::new(0, 1_000_000_000).is_none());
    assert!(Instant::new(59, 1_000_000_000).is_some());
    assert!(Instant::new(-1, 1_500_000_000).is_some());
    assert!(Instant::new(-2, 1_500_000_000).is_none());
    assert!(Instant::new(59, 2_000_000_000).is_none());
    let max = Instant::new(MAX_TIMESTAMP, 0).unwrap();
    assert_eq!(max.to_rfc3339(), "+262142-12-31T23:59:59+00:00");
    assert_eq!(max.next_day(), None);
}

#[test]
fn instants_read_and_write_text() {
    let t = Instant::parse_rfc3339("2023-07-06T21:30:00.5+01:00").unwrap();
    assert_eq!(t.secs(), 1688675400);
    assert_eq!(t.nanos(), 500_000_000);
    assert_eq!(t.minute_text(), "2023-07-06T20:30");
    assert_eq!(t.to_rfc3339(), "2023-07-06T20:30:00.500+00:00");
    assert_eq!(Instant::parse_rfc3339("2023-07-06"), None);
    let leap = Instant::parse_rfc3339("2016-12-31T23:59:60Z").unwrap();
    assert_eq!(leap.nanos(), 1_000_000_000);
    let m = Instant::parse_minute_utc("2023-07-04T23:30Z").unwrap();
    assert_eq!(m.to_rfc3339(), "2023-07-04T23:30:00+00:00");
    assert_eq!(Instant::parse_minute_utc("2023-07-04 23:30"), None);
    assert_eq!(Instant::epoch().to_rfc3339(), "1970-01-01T00:00:00+00:00");
}

#[test]
fn staleness_window_is_thirty_minutes() {
    let last = Instant::parse_rfc3339("2023-07-06T20:30:00Z").unwrap();
    let at_edge = Instant::parse_rfc3339("2023-07-06T21:00:00Z").unwrap();
    let past_edge = Instant::parse_rfc3339("2023-07-06T21:00:01Z").unwrap();
    let earlier = Instant::parse_rfc3339("2023-07-06T19:00:00Z").unwrap();
    assert!(!is_stale(&at_edge, &last));
    assert!(is_stale(&past_edge, &last));
    assert!(!is_stale(&earlier, &last));
    assert!(!is_stale(&last, &last));
}

#[test]
fn request_addresses_are_exact() {
    let now = Instant::parse_rfc3339("2023-07-06T20:30:59Z").unwrap();
    assert_eq!(
        national_intensity::url(&now),
        "https://api.carbonintensity.org.uk/intensity/2023-07-06T20:30Z/fw24h"
    );
    assert_eq!(
        national_mix::url(&now).unwrap(),
        "https://api.carbonintensity.org.uk/generation/2023-07-06T20:30Z/2023-07-07T20:30Z"
    );
    assert_eq!(
        regional::url(&now, "KT1"),
        "https://api.carbonintensity.org.uk/regional/intensity/2023-07-06T20:30Z/fw24h/postcode/KT1"
    );
    assert_eq!(postcode::url(), "https://api.postcodes.io/postcodes");
}

#[test]
fn query_writes_decimal_degrees() {
    let q = Query::from(Coordinate { latitude: 51403366, longitude: -298302 });
    assert_eq!(q.to_query_string(), "lat=51.403366&lon=-0.298302");
    assert_eq!(
        q.lookup_url(),
        "https://api.postcodes.io/postcodes?lat=51.403366&lon=-0.298302"
    );
    let q = Query { lat: -90000000, lon: 180500000 };
    assert_eq!(q.to_query_string(), "lat=-90&lon=180.5");
    let q = Query { lat: 0, lon: 10 };
    assert_eq!(q.to_query_string(), "lat=0&lon=0.00001");
    let q = Query { lat: i64::MIN, lon: i64::MAX };
    assert_eq!(
        q.to_query_string(),
        "lat=-9223372036854.775808&lon=9223372036854.775807"
    );
}

#[test]
fn factors_hold_the_published_values() {
    let f = Factors::new();
    assert_eq!(f.biomass, 120);
    assert_eq!(f.coal, 937);
    assert_eq!(f.dutch_imports, 474);
    assert_eq!(f.french_imports, 53);
    assert_eq!(f.gas_combined_cycle, 394);
    assert_eq!(f.gas_open_cycle, 651);
    assert_eq!(f.hydro, 0);
    assert_eq!(f.irish_imports, 458);
    assert_eq!(f.nuclear, 0);
    assert_eq!(f.oil, 935);
    assert_eq!(f.other, 300);
    assert_eq!(f.pumped_storage, 0);
    assert_eq!(f.solar, 0);
    assert_eq!(f.wind, 0);
}
