use carbon_intensity::app::{App, Effect, Event, HttpError, HttpRequest, Reply};
use carbon_intensity::capabilities::location::{Coordinate, LocationResponse};
use carbon_intensity::capabilities::time::TimeResponse;
use carbon_intensity::model::intensity::{
    period_date_time_deserialize, GenerationMix, Intensity, Period,
};
use carbon_intensity::model::location::{Coordinate as PlaceCoordinate, Location};
use carbon_intensity::model::national_intensity::NationalResponse;
use carbon_intensity::model::national_mix::NationalMixResponse;
use carbon_intensity::model::postcode::{Codes, Postcode, PostcodeResponse};
use carbon_intensity::model::regional::{Region, RegionalResponse};
use carbon_intensity::model::{Mode, Model};
use carbon_intensity::time::{Instant, MAX_TIMESTAMP};
use chrono::{DateTime, TimeZone, Utc};

fn at(text: &str) -> Instant {
    Instant::parse_rfc3339(text).unwrap()
}

fn minute(text: &str) -> Instant {
    period_date_time_deserialize(text).unwrap()
}

fn time_event(mode: Mode, text: &str) -> Event {
    let t = TimeResponse(text.to_string());
    match mode {
        Mode::National => Event::SetTimeNational(t),
        Mode::Local => Event::SetTimeLocal(t),
    }
}

fn mix(fuel: &str, percentage: u32) -> GenerationMix {
    GenerationMix { fuel: fuel.to_string(), percentage }
}

fn period(from: &str, to: &str, intensity: Option<Intensity>, m: Option<Vec<GenerationMix>>) -> Period {
    Period { from: minute(from), to: minute(to), intensity, generation_mix: m }
}

fn reading(forecast: i32, actual: Option<i32>, index: &str) -> Option<Intensity> {
    Some(Intensity { forecast, actual, index: index.to_string() })
}

fn postcode_fixture() -> PostcodeResponse {
    PostcodeResponse {
        status: 200,
        result: vec![Postcode {
            postcode: "KT1 1AA".to_string(),
            quality: 1,
            eastings: 517960,
            northings: 169347,
            country: "England".to_string(),
            nhs_ha: "London".to_string(),
            longitude: -298333,
            latitude: 51403060,
            european_electoral_region: "London".to_string(),
            primary_care_trust: "Kingston".to_string(),
            region: "London".to_string(),
            lsoa: "Kingston upon Thames 008B".to_string(),
            msoa: "Kingston upon Thames 008".to_string(),
            incode: "1AA".to_string(),
            outcode: "KT1".to_string(),
            parliamentary_constituency: "Kingston and Surbiton".to_string(),
            admin_district: "Kingston upon Thames".to_string(),
            parish: "Kingston upon Thames, unparished area".to_string(),
            admin_county: None,
            date_of_introduction: "198001".to_string(),
            admin_ward: "Grove".to_string(),
            ced: None,
            ccg: "NHS South West London".to_string(),
            nuts: "Kingston upon Thames".to_string(),
            pfa: "Metropolitan Police".to_string(),
            codes: Codes::default(),
            distance: 38610,
        }],
    }
}

fn regional_periods() -> Vec<Period> {
    vec![
        period(
            "2023-07-04T23:30Z",
            "2023-07-05T00:00Z",
            reading(121, None, "moderate"),
            Some(vec![mix("solar", 0), mix("wind", 165), mix("other", 0)]),
        ),
        period(
            "2023-07-05T00:00Z",
            "2023-07-05T00:30Z",
            reading(116, None, "low"),
            Some(vec![mix("gas", 161), mix("nuclear", 0)]),
        ),
    ]
}

fn regional_fixture() -> RegionalResponse {
    RegionalResponse {
        data: Region {
            region_id: 13,
            dno_region: "UKPN London".to_string(),
            shortname: "London".to_string(),
            postcode: "KT1".to_string(),
            data: regional_periods(),
        },
    }
}

fn national_periods() -> Vec<Period> {
    vec![
        period("2023-07-04T23:30Z", "2023-07-05T00:00Z", reading(142, Some(129), "moderate"), None),
        period("2023-07-05T00:00Z", "2023-07-05T00:30Z", reading(136, Some(122), "moderate"), None),
    ]
}

fn national_mix_periods() -> Vec<Period> {
    vec![
        period(
            "2023-07-04T23:30Z",
            "2023-07-05T00:00Z",
            None,
            Some(vec![mix("solar", 0), mix("wind", 213), mix("other", 0)]),
        ),
        period(
            "2023-07-05T00:00Z",
            "2023-07-05T00:30Z",
            None,
            Some(vec![mix("gas", 411), mix("nuclear", 243)]),
        ),
    ]
}

fn http_requests(effects: &[Effect]) -> Vec<HttpRequest> {
    let mut r = Vec::new();
    for e in effects {
        if let Effect::Http(h) = e {
            r.push(h.clone());
        }
    }
    r
}

fn mix_rows(points: &[carbon_intensity::view_model::GenerationMixPoint]) -> Vec<(String, String, u32)> {
    points.iter().map(|p| (p.date.clone(), p.fuel.clone(), p.percentage)).collect()
}

fn intensity_rows(points: &[carbon_intensity::view_model::IntensityPoint]) -> Vec<(String, i32, Option<i32>)> {
    points.iter().map(|p| (p.date.clone(), p.forecast, p.actual)).collect()
}

#[test]
fn local_happy_path() {
    let app = App;
    let mut model = Model::default();

    let effects = app.update(Event::GetLocal, &mut model);
    assert_eq!(effects, vec![Effect::Time(Mode::Local)]);

    let effects = app.update(time_event(Mode::Local, "2023-07-06T20:30:00Z"), &mut model);
    let expected = DateTime::parse_from_rfc3339("2023-07-06T20:30:00Z").unwrap().with_timezone(&Utc);
    assert_eq!(model.time.secs(), expected.timestamp());
    assert_eq!(model.time.nanos(), expected.timestamp_subsec_nanos());
    assert_eq!(effects, vec![Effect::Location]);

    let location = LocationResponse {
        location: Some(Coordinate { latitude: 51403366, longitude: -298302 }),
    };
    let effects = app.update(Event::SetLocation(location), &mut model);
    let requests = http_requests(&effects);
    assert_eq!(requests.len(), 1);
    assert_eq!(requests[0].url, "https://api.postcodes.io/postcodes?lat=51.403366&lon=-0.298302");
    assert_eq!(requests[0].reply, Reply::Postcode);

    let effects = app.update(Event::SetPostcode(Ok(postcode_fixture())), &mut model);
    assert!(effects.contains(&Effect::Render));
    assert_eq!(
        model.local.scope.location.clone().unwrap(),
        Location {
            coordinate: PlaceCoordinate { latitude: 51403060, longitude: -298333 },
            outcode: "KT1".to_string(),
            admin_district: "Kingston upon Thames".to_string(),
        }
    );
    let requests = http_requests(&effects);
    assert_eq!(requests.len(), 1);
    assert_eq!(
        requests[0].url,
        "https://api.carbonintensity.org.uk/regional/intensity/2023-07-06T20:30Z/fw24h/postcode/KT1"
    );
    assert_eq!(requests[0].reply, Reply::Regional);

    let effects = app.update(Event::SetRegional(Ok(regional_fixture())), &mut model);
    assert_eq!(effects, vec![Effect::Render]);
    assert_eq!(model.local.periods, regional_periods());
    assert_eq!(model.local.last_updated, at("2023-07-06T20:30:00Z"));

    let view = app.view(&model);
    assert_eq!(view.national_name, "UK");
    assert!(view.national_intensity.is_empty());
    assert!(view.national_mix.is_empty());
    assert_eq!(view.local_name, "Kingston upon Thames, KT1");
    assert_eq!(
        intensity_rows(&view.local_intensity),
        vec![
            ("2023-07-04T23:30:00+00:00".to_string(), 121, None),
            ("2023-07-05T00:00:00+00:00".to_string(), 116, None),
        ]
    );
    assert_eq!(
        mix_rows(&view.local_mix),
        vec![
            ("2023-07-05T00:00:00+00:00".to_string(), "Gas".to_string(), 161),
            ("2023-07-05T00:00:00+00:00".to_string(), "Nuclear".to_string(), 0),
            ("2023-07-04T23:30:00+00:00".to_string(), "Wind".to_string(), 165),
            ("2023-07-04T23:30:00+00:00".to_string(), "Solar".to_string(), 0),
        ]
    );
}

#[test]
fn national_happy_path() {
    let app = App;
    let mut model = Model::default();

    let effects = app.update(Event::GetNational, &mut model);
    assert_eq!(effects, vec![Effect::Time(Mode::National)]);

    let effects = app.update(time_event(Mode::National, "2023-07-06T20:30:00Z"), &mut model);
    let expected = DateTime::parse_from_rfc3339("2023-07-06T20:30:00Z").unwrap().with_timezone(&Utc);
    assert_eq!(model.time.secs(), expected.timestamp());

    let requests = http_requests(&effects);
    assert_eq!(requests.len(), 2);
    assert_eq!(requests[0].url, "https://api.carbonintensity.org.uk/intensity/2023-07-06T20:30Z/fw24h");
    assert_eq!(requests[0].reply, Reply::National);

    let effects = app.update(
        Event::SetNational(Ok(NationalResponse { data: national_periods() })),
        &mut model,
    );
    assert_eq!(effects, vec![Effect::Render]);
    assert!(model.national.scope.generation_mix.is_empty());
    assert_eq!(model.national.periods, national_periods());
    assert_eq!(model.national.last_updated, at("2023-07-06T20:30:00Z"));

    assert_eq!(
        requests[1].url,
        "https://api.carbonintensity.org.uk/generation/2023-07-06T20:30Z/2023-07-07T20:30Z"
    );
    assert_eq!(requests[1].reply, Reply::NationalMix);

    let effects = app.update(
        Event::SetNationalMix(Ok(NationalMixResponse { data: national_mix_periods() })),
        &mut model,
    );
    assert_eq!(effects, vec![Effect::Render]);
    assert_eq!(model.national.scope.generation_mix, national_mix_periods());
    assert_eq!(model.national.periods, national_periods());
    assert_eq!(model.national.last_updated, at("2023-07-06T20:30:00Z"));

    let view = app.view(&model);
    assert_eq!(view.national_name, "UK");
    assert_eq!(
        intensity_rows(&view.national_intensity),
        vec![
            ("2023-07-04T23:30:00+00:00".to_string(), 142, Some(129)),
            ("2023-07-05T00:00:00+00:00".to_string(), 136, Some(122)),
        ]
    );
    assert_eq!(
        mix_rows(&view.national_mix),
        vec![
            ("2023-07-05T00:00:00+00:00".to_string(), "Gas".to_string(), 411),
            ("2023-07-05T00:00:00+00:00".to_string(), "Nuclear".to_string(), 243),
            ("2023-07-04T23:30:00+00:00".to_string(), "Wind".to_string(), 213),
            ("2023-07-04T23:30:00+00:00".to_string(), "Solar".to_string(), 0),
        ]
    );
    assert_eq!(view.local_name, "Local");
    assert!(view.local_intensity.is_empty());
    assert!(view.local_mix.is_empty());
}

#[test]
fn do_not_get_local_if_less_than_30_mins_has_elapsed() {
    let app = App;
    let mut model = Model::default();
    model.local.last_updated = at("2023-07-06T20:30:00Z");

    let effects = app.update(Event::GetLocal, &mut model);
    assert_eq!(effects, vec![Effect::Time(Mode::Local)]);

    let effects = app.update(time_event(Mode::Local, "2023-07-06T20:59:00Z"), &mut model);
    assert_eq!(effects, vec![Effect::Render]);
    assert_eq!(effects.len(), 1);
}

#[test]
fn get_national_if_more_than_30_mins_has_elapsed() {
    let app = App;
    let mut model = Model::default();
    model.national.last_updated = at("2023-07-06T20:30:00Z");

    let effects = app.update(Event::GetNational, &mut model);
    assert_eq!(effects, vec![Effect::Time(Mode::National)]);

    let effects = app.update(time_event(Mode::National, "2023-07-06T21:01:00Z"), &mut model);
    let requests = http_requests(&effects);
    assert_eq!(requests[0].url, "https://api.carbonintensity.org.uk/intensity/2023-07-06T21:01Z/fw24h");
}

#[test]
fn test_custom_date_time_deserialization() {
    let json_str = r#"
        {
          "from": "2023-07-04T23:00Z",
          "to": "2023-07-04T23:30Z",
          "intensity": {
            "forecast": 123,
            "actual": 456,
            "index": "moderate"
          }
        }
        "#;

    let data: serde_json::Value = serde_json::from_str(json_str).unwrap();
    let from = period_date_time_deserialize(data["from"].as_str().unwrap()).unwrap();
    let to = period_date_time_deserialize(data["to"].as_str().unwrap()).unwrap();
    assert_eq!(from.secs(), Utc.with_ymd_and_hms(2023, 7, 4, 23, 0, 0).unwrap().timestamp());
    assert_eq!(to.secs(), Utc.with_ymd_and_hms(2023, 7, 4, 23, 30, 0).unwrap().timestamp());
}

#[test]
fn staleness_boundary_is_strict() {
    for mode in [Mode::Local, Mode::National] {
        let app = App;
        let mut model = Model::default();
        model.local.last_updated = at("2023-07-06T20:30:00Z");
        model.national.last_updated = at("2023-07-06T20:30:00Z");
        let effects = app.update(time_event(mode, "2023-07-06T21:00:00Z"), &mut model);
        assert_eq!(effects, vec![Effect::Render]);
        assert_eq!(model.time, at("2023-07-06T21:00:00Z"));

        let effects = app.update(time_event(mode, "2023-07-06T21:00:01Z"), &mut model);
        match mode {
            Mode::Local => assert_eq!(effects, vec![Effect::Location]),
            Mode::National => assert_eq!(http_requests(&effects).len(), 2),
        }
    }
}

#[test]
fn staleness_counts_fractions_of_a_second() {
    let app = App;
    let mut model = Model::default();
    model.local.last_updated = at("2023-07-06T20:30:00Z");
    let effects = app.update(time_event(Mode::Local, "2023-07-06T21:00:00.000000001Z"), &mut model);
    assert_eq!(effects, vec![Effect::Location]);
}

#[test]
fn scopes_are_isolated() {
    let app = App;
    let mut model = Model::default();
    app.update(time_event(Mode::Local, "2023-07-06T20:30:00Z"), &mut model);
    app.update(Event::SetPostcode(Ok(postcode_fixture())), &mut model);
    app.update(Event::SetRegional(Ok(regional_fixture())), &mut model);
    let local = model.local.clone();

    app.update(time_event(Mode::National, "2023-07-06T22:30:00Z"), &mut model);
    app.update(Event::SetNational(Ok(NationalResponse { data: national_periods() })), &mut model);
    app.update(
        Event::SetNationalMix(Ok(NationalMixResponse { data: national_mix_periods() })),
        &mut model,
    );
    assert_eq!(model.local, local);
    assert_eq!(model.national.last_updated, at("2023-07-06T22:30:00Z"));

    let national = model.national.clone();
    app.update(time_event(Mode::Local, "2023-07-07T01:30:00Z"), &mut model);
    app.update(Event::SetRegional(Ok(regional_fixture())), &mut model);
    assert_eq!(model.national, national);
    assert_eq!(model.local.last_updated, at("2023-07-07T01:30:00Z"));
}

#[test]
fn national_answers_arrive_in_either_order() {
    let app = App;
    let mut model = Model::default();
    let effects = app.update(time_event(Mode::National, "2023-07-06T20:30:00Z"), &mut model);
    assert_eq!(effects.len(), 2);
    assert_eq!(http_requests(&effects).len(), 2);

    let effects = app.update(
        Event::SetNationalMix(Ok(NationalMixResponse { data: national_mix_periods() })),
        &mut model,
    );
    assert_eq!(effects, vec![Effect::Render]);
    assert!(model.national.periods.is_empty());
    assert_eq!(model.national.scope.generation_mix, national_mix_periods());

    let effects = app.update(
        Event::SetNational(Ok(NationalResponse { data: national_periods() })),
        &mut model,
    );
    assert_eq!(effects, vec![Effect::Render]);
    assert_eq!(model.national.periods, national_periods());
    assert_eq!(model.national.scope.generation_mix, national_mix_periods());
}

#[test]
fn failures_change_nothing() {
    let app = App;
    let mut model = Model::default();
    app.update(time_event(Mode::Local, "2023-07-06T20:30:00Z"), &mut model);
    app.update(Event::SetPostcode(Ok(postcode_fixture())), &mut model);
    app.update(Event::SetRegional(Ok(regional_fixture())), &mut model);
    let before = model.clone();
    let err = || HttpError { message: "503".to_string() };

    let events = vec![
        Event::SetLocation(LocationResponse { location: None }),
        Event::SetPostcode(Err(err())),
        Event::SetRegional(Err(err())),
        Event::SetNational(Err(err())),
        Event::SetNationalMix(Err(err())),
        Event::SetPostcode(Ok(PostcodeResponse { status: 200, result: vec![] })),
        time_event(Mode::Local, "not a time"),
        time_event(Mode::National, "2023-07-06 20:30"),
    ];
    for event in events {
        let effects = app.update(event, &mut model);
        assert!(effects.is_empty());
        assert_eq!(model, before);
    }
}

#[test]
fn national_refresh_at_the_end_of_time_changes_nothing() {
    let app = App;
    let mut model = Model::default();
    let before = model.clone();
    let late = Instant::new(MAX_TIMESTAMP - 3600, 0).unwrap();
    let effects = app.set_time(Mode::National, late, &mut model);
    assert!(effects.is_empty());
    assert_eq!(model, before);

    let effects = app.set_time(Mode::Local, late, &mut model);
    assert_eq!(effects, vec![Effect::Location]);
    assert_eq!(model.time, late);
}

#[test]
fn selecting_a_scope_records_it() {
    let app = App;
    let mut model = Model::default();
    assert_eq!(model.mode, Mode::National);
    app.update(Event::GetLocal, &mut model);
    assert_eq!(model.mode, Mode::Local);
    assert_eq!(app.view(&model).mode, Mode::Local);
    app.update(Event::GetNational, &mut model);
    assert_eq!(model.mode, Mode::National);
}

#[test]
fn location_answer_only_asks_for_the_postcode() {
    let app = App;
    let mut model = Model::default();
    let before = model.clone();
    let location = LocationResponse { location: Some(Coordinate { latitude: 51000000, longitude: -1 }) };
    let effects = app.update(Event::SetLocation(location), &mut model);
    assert_eq!(
        effects,
        vec![Effect::Http(HttpRequest {
            url: "https://api.postcodes.io/postcodes?lat=51&lon=-0.000001".to_string(),
            reply: Reply::Postcode,
        })]
    );
    assert_eq!(model, before);
}

#[test]
fn postcode_answer_uses_the_first_result() {
    let app = App;
    let mut model = Model::default();
    let mut answer = postcode_fixture();
    let mut second = answer.result[0].clone();
    second.outcode = "SW1A".to_string();
    second.admin_district = "Westminster".to_string();
    answer.result.push(second);
    let effects = app.update(Event::SetPostcode(Ok(answer)), &mut model);
    assert_eq!(effects.len(), 2);
    assert_eq!(effects[1], Effect::Render);
    assert_eq!(model.local.scope.location.unwrap().outcode, "KT1");
    assert_eq!(
        http_requests(&effects)[0].url,
        "https://api.carbonintensity.org.uk/regional/intensity/1970-01-01T00:00Z/fw24h/postcode/KT1"
    );
}
