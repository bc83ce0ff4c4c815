use gastropath::error::{ErrorKind, PipelineError};
use gastropath::google_places::{
    answer_from, can_normalize, conclude, first_candidate_of, get_details_by_ftid,
    get_details_by_place_id, get_details_by_query, get_place_details, look_up,
    process_place_details, PlaceDetails, PlaceQuery, Resolver,
};
use gastropath::http::{Exchange, Method, Payload, Reply, Request};
use gastropath::json::Json;
use gastropath::utils::{expand_short_url, expanded_url};

const FIELDS: &str =
    "&fields=name,formatted_address,website,price_level,address_component,photos,url&key=";

fn text(s: &str) -> Json {
    Json::Text(s.to_string())
}

fn object(entries: Vec<(&str, Json)>) -> Json {
    Json::Object(entries.into_iter().map(|(k, v)| (k.to_string(), v)).collect())
}

fn component(long_name: &str, types: &[&str]) -> Json {
    object(vec![
        ("long_name", text(long_name)),
        ("types", Json::List(types.iter().map(|t| text(t)).collect())),
    ])
}

fn answered(document: Json) -> Exchange {
    Exchange::Answered(Reply {
        status: 200,
        url: String::new(),
        text: String::new(),
        document: Ok(document),
    })
}

fn arrived_at(url: &str) -> Exchange {
    Exchange::Answered(Reply {
        status: 200,
        url: url.to_string(),
        text: "<html></html>".to_string(),
        document: Err("expected value at line 1 column 1".to_string()),
    })
}

fn get(url: &str) -> Request {
    Request {
        method: Method::Get,
        url: url.to_string(),
        query: Vec::new(),
        headers: Vec::new(),
        payload: Payload::Empty,
    }
}

fn failure(kind: ErrorKind, message: &str) -> PipelineError {
    PipelineError { kind, message: message.to_string() }
}

fn trattoria() -> Json {
    object(vec![
        ("name", text("Trattoria X")),
        ("website", text("https://trattoria.example")),
        ("price_level", Json::Integer(3)),
        ("formatted_address", text("Via Roma 1, 00100 Roma RM, Italy")),
        ("url", text("https://maps.google.com/?cid=42")),
        (
            "address_components",
            Json::List(vec![
                component("1", &["street_number"]),
                component("Roma", &["locality", "political"]),
                component("Italy", &["country", "political"]),
            ]),
        ),
        (
            "photos",
            Json::List(vec![
                object(vec![("photo_reference", text("photo-1"))]),
                object(vec![("photo_reference", text("photo-2"))]),
            ]),
        ),
    ])
}

#[test]
fn normalizes_a_full_record() {
    let record = process_place_details(&trattoria());
    assert_eq!(
        record,
        PlaceDetails {
            name: "Trattoria X".to_string(),
            website: "https://trattoria.example".to_string(),
            price_level: "💵💵💵".to_string(),
            city: "Roma".to_string(),
            country: "Italy".to_string(),
            google_maps_link: "https://maps.google.com/?cid=42".to_string(),
            address: "Via Roma 1, 00100 Roma RM, Italy".to_string(),
            photo_reference: Some("photo-1".to_string()),
        }
    );
}

#[test]
fn fills_every_missing_field_with_its_default() {
    let record = process_place_details(&object(Vec::new()));
    assert_eq!(
        record,
        PlaceDetails {
            name: "Unknown".to_string(),
            website: "No website available".to_string(),
            price_level: "❓".to_string(),
            city: "No city available".to_string(),
            country: "No country available".to_string(),
            google_maps_link: "No link available".to_string(),
            address: "No address available".to_string(),
            photo_reference: None,
        }
    );
    assert_eq!(process_place_details(&Json::Null), record);
}

#[test]
fn renders_price_tier_two_as_two_glyphs() {
    let record = process_place_details(&object(vec![("price_level", Json::Integer(2))]));
    assert_eq!(record.price_level, "💵💵");
    assert_eq!(record.price_level.chars().count(), 2);
}

#[test]
fn renders_an_absent_price_tier_as_unknown() {
    let absent = process_place_details(&object(vec![("name", text("X"))]));
    assert_eq!(absent.price_level, "❓");
    let two = process_place_details(&object(vec![("price_level", Json::Integer(2))]));
    assert_ne!(two.price_level, absent.price_level);
    let one = process_place_details(&object(vec![("price_level", Json::Integer(1))]));
    assert_ne!(one.price_level, absent.price_level);
}

#[test]
fn renders_price_tier_zero_as_empty() {
    let record = process_place_details(&object(vec![("price_level", Json::Integer(0))]));
    assert_eq!(record.price_level, "");
    assert_ne!(record.price_level, "❓");
}

#[test]
fn takes_a_price_tier_that_is_no_integer_as_absent() {
    let record = process_place_details(&object(vec![("price_level", text("3"))]));
    assert_eq!(record.price_level, "❓");
    let record =
        process_place_details(&object(vec![("price_level", Json::Decimal("2.5".to_string()))]));
    assert_eq!(record.price_level, "❓");
}

#[test]
fn lets_the_last_tagged_component_win() {
    let details = object(vec![(
        "address_components",
        Json::List(vec![
            component("Trastevere", &["locality"]),
            component("Italia", &["country"]),
            component("Roma", &["political", "locality"]),
            component("Lazio", &["administrative_area_level_1"]),
            component("Italy", &["country"]),
        ]),
    )]);
    let record = process_place_details(&details);
    assert_eq!(record.city, "Roma");
    assert_eq!(record.country, "Italy");
}

#[test]
fn passes_over_a_tagged_component_without_a_name() {
    let details = object(vec![(
        "address_components",
        Json::List(vec![
            component("Roma", &["locality"]),
            object(vec![("types", Json::List(vec![text("locality")]))]),
            object(vec![("long_name", text("Milano")), ("types", text("locality"))]),
            object(vec![("long_name", Json::Integer(5)), ("types", Json::List(vec![text("locality")]))]),
        ]),
    )]);
    assert_eq!(process_place_details(&details).city, "Roma");
}

#[test]
fn takes_one_component_for_city_and_country_alike() {
    let details = object(vec![(
        "address_components",
        Json::List(vec![component("Singapore", &["country", "locality"])]),
    )]);
    let record = process_place_details(&details);
    assert_eq!(record.city, "Singapore");
    assert_eq!(record.country, "Singapore");
}

#[test]
fn takes_the_photo_of_the_first_entry_only() {
    let details = object(vec![(
        "photos",
        Json::List(vec![object(vec![("height", Json::Integer(1))]), object(vec![(
            "photo_reference",
            text("second"),
        )])]),
    )]);
    assert_eq!(process_place_details(&details).photo_reference, None);
    let details = object(vec![("photos", Json::List(Vec::new()))]);
    assert_eq!(process_place_details(&details).photo_reference, None);
}

#[test]
fn tells_whether_details_can_be_normalized() {
    assert!(can_normalize(&trattoria()));
    assert!(can_normalize(&Json::Null));
    assert!(can_normalize(&object(vec![("price_level", Json::Integer(0))])));
    assert!(can_normalize(&object(vec![("price_level", text("-1"))])));
    assert!(!can_normalize(&object(vec![("price_level", Json::Integer(-1))])));
}

#[test]
fn refuses_details_with_the_sentinel_name() {
    let unnamed = object(vec![("price_level", Json::Integer(1)), ("website", text("w"))]);
    assert_eq!(
        conclude(&unnamed),
        Err(failure(ErrorKind::NotFound, "Place details not found: Unknown place"))
    );
    let named_unknown = object(vec![("name", text("Unknown"))]);
    assert_eq!(conclude(&named_unknown).unwrap_err().kind, ErrorKind::NotFound);
}

#[test]
fn refuses_details_with_a_negative_price_tier() {
    let details = object(vec![("name", text("X")), ("price_level", Json::Integer(-2))]);
    assert_eq!(
        conclude(&details),
        Err(failure(ErrorKind::UpstreamFailure, "Place details carry a negative price level"))
    );
}

#[test]
fn concludes_on_named_details() {
    let record = conclude(&trattoria()).unwrap();
    assert_eq!(record.name, "Trattoria X");
    assert_eq!(record.price_level, "💵💵💵");
}

#[test]
fn builds_the_requests_to_the_provider() {
    assert_eq!(
        get_details_by_ftid("KEY", "0x1:0x2"),
        get(&format!(
            "https://maps.googleapis.com/maps/api/place/details/json?ftid=0x1:0x2{}KEY",
            FIELDS
        ))
    );
    assert_eq!(
        get_details_by_place_id("KEY", "ChIJ"),
        get(&format!(
            "https://maps.googleapis.com/maps/api/place/details/json?place_id=ChIJ{}KEY",
            FIELDS
        ))
    );
    assert_eq!(
        get_details_by_query("KEY", "Trattoria X"),
        get(
            "https://maps.googleapis.com/maps/api/place/findplacefromtext/json?input=Trattoria X&inputtype=textquery&fields=place_id&key=KEY"
        )
    );
}

#[test]
fn follows_a_link_first() {
    let state = get_place_details("KEY", "https://maps.app.goo.gl/example?g_st=1");
    assert_eq!(
        state,
        Resolver::Expanding {
            request: get("https://maps.app.goo.gl/example?g_st=1"),
            api_key: "KEY".to_string(),
        }
    );
    assert_eq!(state.pending(), Some(&get("https://maps.app.goo.gl/example?g_st=1")));
}

#[test]
fn searches_for_what_is_no_link() {
    let state = get_place_details("KEY", "Trattoria X");
    assert_eq!(
        state,
        Resolver::FindingPlace {
            request: get_details_by_query("KEY", "Trattoria X"),
            api_key: "KEY".to_string(),
        }
    );
}

#[test]
fn puts_a_query_to_the_provider() {
    assert_eq!(
        look_up(PlaceQuery::ByIdentifier("0x1:0x2".to_string()), "KEY".to_string()),
        Resolver::FetchingDetails { request: get_details_by_ftid("KEY", "0x1:0x2") }
    );
    assert_eq!(
        look_up(PlaceQuery::ByText("pizza".to_string()), "KEY".to_string()),
        Resolver::FindingPlace {
            request: get_details_by_query("KEY", "pizza"),
            api_key: "KEY".to_string(),
        }
    );
}

#[test]
fn asks_for_a_short_link_with_a_plain_get() {
    assert_eq!(expand_short_url("https://maps.app.goo.gl/x"), get("https://maps.app.goo.gl/x"));
}

#[test]
fn reads_the_long_form_off_the_final_response() {
    assert_eq!(expanded_url(arrived_at("https://long.example/a?b=c")), Ok("https://long.example/a?b=c".to_string()));
    assert_eq!(
        expanded_url(Exchange::Failed("connection reset".to_string())),
        Err(failure(ErrorKind::NetworkFailure, "connection reset"))
    );
}

#[test]
fn fails_as_network_failure_when_the_link_cannot_be_followed() {
    let state = get_place_details("KEY", "https://maps.app.goo.gl/example");
    let next = state.advance(Exchange::Failed("dns error".to_string()));
    assert_eq!(next, Resolver::Done(Err(failure(ErrorKind::NetworkFailure, "dns error"))));
    assert_eq!(next.pending(), None);
}

#[test]
fn goes_from_the_long_form_to_the_details() {
    let state = get_place_details("KEY", "https://maps.app.goo.gl/example");
    let next = state.advance(arrived_at("https://www.google.com/maps/place/X?ftid=0x1:0x2"));
    assert_eq!(next, Resolver::FetchingDetails { request: get_details_by_ftid("KEY", "0x1:0x2") });
}

#[test]
fn goes_from_a_long_form_without_identifier_to_a_search() {
    let state = get_place_details("KEY", "https://maps.app.goo.gl/example");
    let next = state.advance(arrived_at("https://www.google.com/maps?q=Trattoria"));
    assert_eq!(
        next,
        Resolver::FindingPlace {
            request: get_details_by_query("KEY", "Trattoria"),
            api_key: "KEY".to_string(),
        }
    );
}

#[test]
fn fetches_the_first_candidate_of_a_search() {
    let state = get_place_details("KEY", "Trattoria X");
    let found = object(vec![(
        "candidates",
        Json::List(vec![object(vec![("place_id", text("first"))]), object(vec![(
            "place_id",
            text("second"),
        )])]),
    )]);
    let next = state.advance(answered(found));
    assert_eq!(next, Resolver::FetchingDetails { request: get_details_by_place_id("KEY", "first") });
}

#[test]
fn fails_as_not_found_without_a_candidate() {
    let state = get_place_details("KEY", "Trattoria X");
    let next = state.advance(answered(object(vec![("candidates", Json::List(Vec::new()))])));
    assert_eq!(next, Resolver::Done(Err(failure(ErrorKind::NotFound, "No place_id found"))));
    let state = get_place_details("KEY", "Trattoria X");
    let next = state.advance(answered(object(vec![("status", text("ZERO_RESULTS"))])));
    assert_eq!(next, Resolver::Done(Err(failure(ErrorKind::NotFound, "No place_id found"))));
}

#[test]
fn fails_as_upstream_failure_when_the_provider_reports_an_error() {
    let refused = || {
        answered(object(vec![
            ("error_message", text("The provided API key is invalid.")),
            ("candidates", Json::List(vec![object(vec![("place_id", text("first"))])])),
            ("result", trattoria()),
        ]))
    };
    let expected = Resolver::Done(Err(failure(
        ErrorKind::UpstreamFailure,
        "Google Places API error: The provided API key is invalid.",
    )));
    assert_eq!(get_place_details("KEY", "Trattoria X").advance(refused()), expected);
    let fetching = Resolver::FetchingDetails { request: get_details_by_ftid("KEY", "f") };
    assert_eq!(fetching.advance(refused()), expected);
}

#[test]
fn fails_as_upstream_failure_when_a_call_does_not_complete() {
    let expected = Resolver::Done(Err(failure(ErrorKind::UpstreamFailure, "timed out")));
    let searching = get_place_details("KEY", "Trattoria X");
    assert_eq!(searching.advance(Exchange::Failed("timed out".to_string())), expected);
    let fetching = Resolver::FetchingDetails { request: get_details_by_ftid("KEY", "f") };
    assert_eq!(fetching.advance(Exchange::Failed("timed out".to_string())), expected);
}

#[test]
fn fails_as_upstream_failure_when_the_answer_cannot_be_decoded() {
    let fetching = Resolver::FetchingDetails { request: get_details_by_ftid("KEY", "f") };
    assert_eq!(
        fetching.advance(arrived_at("https://maps.googleapis.com/")),
        Resolver::Done(Err(failure(
            ErrorKind::UpstreamFailure,
            "expected value at line 1 column 1"
        )))
    );
}

#[test]
fn resolves_the_details_that_arrive() {
    let fetching = Resolver::FetchingDetails { request: get_details_by_ftid("KEY", "f") };
    let next = fetching.advance(answered(object(vec![("result", trattoria())])));
    match next {
        Resolver::Done(Ok(record)) => {
            assert_eq!(record.name, "Trattoria X");
            assert_eq!(record.price_level, "💵💵💵");
            assert_eq!(record.city, "Roma");
        }
        other => panic!("not resolved: {:?}", other),
    }
}

#[test]
fn turns_a_nameless_answer_into_not_found() {
    let fetching = Resolver::FetchingDetails { request: get_details_by_ftid("KEY", "f") };
    let next = fetching.advance(answered(object(vec![("status", text("OK"))])));
    assert_eq!(
        next,
        Resolver::Done(Err(failure(ErrorKind::NotFound, "Place details not found: Unknown place")))
    );
    let fetching = Resolver::FetchingDetails { request: get_details_by_ftid("KEY", "f") };
    let nameless = object(vec![("result", object(vec![("website", text("https://w.example"))]))]);
    assert_eq!(
        fetching.advance(answered(nameless)),
        Resolver::Done(Err(failure(ErrorKind::NotFound, "Place details not found: Unknown place")))
    );
}

#[test]
fn stays_done() {
    let done = Resolver::Done(Err(failure(ErrorKind::NotFound, "No place_id found")));
    let next = done.advance(answered(object(vec![("result", trattoria())])));
    assert_eq!(next, Resolver::Done(Err(failure(ErrorKind::NotFound, "No place_id found"))));
}

#[test]
fn reads_an_answer_before_its_content() {
    assert_eq!(answer_from(answered(Json::Null)), Ok(Json::Null));
    assert_eq!(
        answer_from(answered(object(vec![("error_message", Json::Integer(5))]))),
        Ok(object(vec![("error_message", Json::Integer(5))]))
    );
    assert_eq!(
        answer_from(answered(object(vec![("error_message", text("quota"))]))),
        Err(failure(ErrorKind::UpstreamFailure, "Google Places API error: quota"))
    );
    assert_eq!(
        answer_from(Exchange::Failed("refused".to_string())),
        Err(failure(ErrorKind::UpstreamFailure, "refused"))
    );
}

#[test]
fn reads_the_first_candidate() {
    let found = object(vec![("candidates", Json::List(vec![object(vec![("place_id", text("a"))])]))]);
    assert_eq!(first_candidate_of(&found), Some("a".to_string()));
    let odd = object(vec![("candidates", Json::List(vec![object(vec![("place_id", Json::Integer(1))])]))]);
    assert_eq!(first_candidate_of(&odd), None);
    assert_eq!(first_candidate_of(&object(vec![("candidates", text("a"))])), None);
    assert_eq!(first_candidate_of(&Json::Null), None);
}
