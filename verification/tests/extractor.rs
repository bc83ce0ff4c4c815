use gastropath::google_places::{extract_place_info, place_query_from, PlaceQuery};

fn pairs(items: &[(&str, &str)]) -> Vec<(String, String)> {
    items.iter().map(|(k, v)| (k.to_string(), v.to_string())).collect()
}

#[test]
fn prefers_the_ftid_over_the_place_id() {
    let url = "https://www.google.com/maps/place/X?place_id=ChIJ123&ftid=0x1:0x2&q=Trattoria";
    assert_eq!(extract_place_info(url), PlaceQuery::ByIdentifier("0x1:0x2".to_string()));
}

#[test]
fn takes_the_place_id_when_there_is_no_ftid() {
    let url = "https://www.google.com/maps/place/X?q=Trattoria&place_id=ChIJ123";
    assert_eq!(extract_place_info(url), PlaceQuery::ByIdentifier("ChIJ123".to_string()));
}

#[test]
fn falls_back_to_the_text_parameter() {
    let url = "https://www.google.com/maps?q=Trattoria+X%2C+Roma&hl=en";
    assert_eq!(extract_place_info(url), PlaceQuery::ByText("Trattoria X, Roma".to_string()));
}

#[test]
fn falls_back_to_the_whole_url() {
    let url = "https://www.google.com/maps/place/Trattoria+X/@41.9,12.5,17z?hl=en";
    assert_eq!(extract_place_info(url), PlaceQuery::ByText(url.to_string()));
}

#[test]
fn takes_what_does_not_parse_as_a_text() {
    assert_eq!(extract_place_info("Trattoria X"), PlaceQuery::ByText("Trattoria X".to_string()));
    assert_eq!(extract_place_info(""), PlaceQuery::ByText(String::new()));
}

#[test]
fn takes_the_last_of_a_repeated_parameter() {
    let url = "https://www.google.com/maps?ftid=first&ftid=second";
    assert_eq!(extract_place_info(url), PlaceQuery::ByIdentifier("second".to_string()));
}

#[test]
fn takes_an_empty_identifier_as_it_is() {
    let url = "https://www.google.com/maps?ftid=&q=Trattoria";
    assert_eq!(extract_place_info(url), PlaceQuery::ByIdentifier(String::new()));
}

#[test]
fn chooses_among_given_parameters() {
    let whole = "whole";
    assert_eq!(
        place_query_from(&pairs(&[("q", "t"), ("place_id", "p"), ("ftid", "f")]), whole),
        PlaceQuery::ByIdentifier("f".to_string())
    );
    assert_eq!(
        place_query_from(&pairs(&[("q", "t"), ("place_id", "p")]), whole),
        PlaceQuery::ByIdentifier("p".to_string())
    );
    assert_eq!(
        place_query_from(&pairs(&[("q", "t"), ("x", "y")]), whole),
        PlaceQuery::ByText("t".to_string())
    );
    assert_eq!(
        place_query_from(&pairs(&[("x", "y")]), whole),
        PlaceQuery::ByText("whole".to_string())
    );
    assert_eq!(place_query_from(&Vec::new(), whole), PlaceQuery::ByText("whole".to_string()));
}
