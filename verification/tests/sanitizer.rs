use gastropath::error::ErrorKind;
use gastropath::utils::{
    assemble_url, keep_allowed, mask_api_key, sanitize_parts, validate_and_sanitize_url, UrlParts,
    MAX_URL_LENGTH,
};

fn pairs(items: &[(&str, &str)]) -> Vec<(String, String)> {
    items.iter().map(|(k, v)| (k.to_string(), v.to_string())).collect()
}

#[test]
fn drops_parameters_that_are_not_allowed() {
    let clean = validate_and_sanitize_url("https://maps.app.goo.gl/example?g_st=1&evil=x");
    assert_eq!(clean, Ok("https://maps.app.goo.gl/example?g_st=1".to_string()));
}

#[test]
fn writes_no_query_when_no_parameter_is_left() {
    let clean = validate_and_sanitize_url("https://maps.app.goo.gl/example?evil=x#top");
    assert_eq!(clean, Ok("https://maps.app.goo.gl/example".to_string()));
}

#[test]
fn keeps_every_occurrence_of_an_allowed_parameter() {
    let clean = validate_and_sanitize_url("https://maps.app.goo.gl/a/b?g_st=1&x=2&g_st=3");
    assert_eq!(clean, Ok("https://maps.app.goo.gl/a/b?g_st=1&g_st=3".to_string()));
}

#[test]
fn encodes_the_kept_values_again() {
    let clean = validate_and_sanitize_url("https://maps.app.goo.gl/x?g_st=a%20b%26c");
    assert_eq!(clean, Ok("https://maps.app.goo.gl/x?g_st=a+b%26c".to_string()));
}

#[test]
fn forces_the_scheme_and_drops_port_and_credentials() {
    let clean = validate_and_sanitize_url("http://user:pw@maps.app.goo.gl:8080/place?g_st=i");
    assert_eq!(clean, Ok("https://maps.app.goo.gl/place?g_st=i".to_string()));
}

#[test]
fn refuses_a_reference_that_is_too_long() {
    let mut long = String::from("https://maps.app.goo.gl/");
    while long.chars().count() <= MAX_URL_LENGTH {
        long.push('a');
    }
    let error = validate_and_sanitize_url(&long).unwrap_err();
    assert_eq!(error.kind, ErrorKind::TooLong);
    assert_eq!(error.message, "URL exceeds maximum length");
}

#[test]
fn accepts_a_reference_of_exactly_the_longest_length() {
    let mut url = String::from("https://maps.app.goo.gl/");
    while url.chars().count() < MAX_URL_LENGTH {
        url.push('a');
    }
    assert_eq!(validate_and_sanitize_url(&url), Ok(url.clone()));
}

#[test]
fn checks_the_length_before_the_form() {
    let long = "x".repeat(MAX_URL_LENGTH + 1);
    assert_eq!(validate_and_sanitize_url(&long).unwrap_err().kind, ErrorKind::TooLong);
}

#[test]
fn refuses_what_is_not_a_url() {
    let error = validate_and_sanitize_url("not a url").unwrap_err();
    assert_eq!(error.kind, ErrorKind::InvalidFormat);
    assert_eq!(error.message, "Invalid URL format");
}

#[test]
fn refuses_another_host() {
    let error = validate_and_sanitize_url("https://evil.example/example?g_st=1").unwrap_err();
    assert_eq!(error.kind, ErrorKind::UntrustedDomain);
    assert_eq!(error.message, "URL is not from a trusted domain");
}

#[test]
fn refuses_a_host_that_only_ends_like_the_trusted_one() {
    let error = validate_and_sanitize_url("https://x.maps.app.goo.gl/example").unwrap_err();
    assert_eq!(error.kind, ErrorKind::UntrustedDomain);
}

#[test]
fn refuses_a_url_without_a_host() {
    let error = validate_and_sanitize_url("mailto:someone@maps.app.goo.gl").unwrap_err();
    assert_eq!(error.kind, ErrorKind::UntrustedDomain);
}

#[test]
fn refuses_a_url_without_a_path() {
    let error = validate_and_sanitize_url("place://maps.app.goo.gl").unwrap_err();
    assert_eq!(error.kind, ErrorKind::InvalidPath);
    assert_eq!(error.message, "Invalid URL path");
}

#[test]
fn sanitizes_parsed_parts_by_the_same_rules() {
    assert_eq!(sanitize_parts(None).unwrap_err().kind, ErrorKind::InvalidFormat);
    let parts = UrlParts {
        host: Some("maps.app.goo.gl".to_string()),
        path: "relative".to_string(),
        query: Vec::new(),
    };
    assert_eq!(sanitize_parts(Some(parts)).unwrap_err().kind, ErrorKind::InvalidPath);
    let parts = UrlParts { host: None, path: "/x".to_string(), query: Vec::new() };
    assert_eq!(sanitize_parts(Some(parts)).unwrap_err().kind, ErrorKind::UntrustedDomain);
    let parts = UrlParts {
        host: Some("maps.app.goo.gl".to_string()),
        path: "/x".to_string(),
        query: pairs(&[("a", "1"), ("g_st", "2")]),
    };
    assert_eq!(sanitize_parts(Some(parts)), Ok("https://maps.app.goo.gl/x?g_st=2".to_string()));
}

#[test]
fn keeps_pairs_in_the_order_of_the_allow_list() {
    let input = pairs(&[("b", "1"), ("a", "2"), ("c", "3"), ("b", "4"), ("a", "5")]);
    let allowed = vec!["a".to_string(), "b".to_string()];
    let kept = keep_allowed(&input, &allowed);
    assert_eq!(kept, pairs(&[("a", "2"), ("a", "5"), ("b", "1"), ("b", "4")]));
}

#[test]
fn keeps_nothing_for_an_empty_allow_list() {
    let input = pairs(&[("b", "1")]);
    assert_eq!(keep_allowed(&input, &Vec::new()), Vec::new());
}

#[test]
fn assembles_the_trusted_url() {
    assert_eq!(assemble_url("/p", &None), "https://maps.app.goo.gl/p");
    assert_eq!(assemble_url("/p", &Some("g_st=1".to_string())), "https://maps.app.goo.gl/p?g_st=1");
}

#[test]
fn masks_all_but_the_first_five_bytes() {
    assert_eq!(mask_api_key("abcdefgh"), "abcde***");
    assert_eq!(mask_api_key("abcdef"), "abcde*");
}

#[test]
fn leaves_a_short_key_as_it_is() {
    assert_eq!(mask_api_key("abcde"), "abcde");
    assert_eq!(mask_api_key(""), "");
}

#[test]
fn masks_byte_by_byte() {
    assert_eq!(mask_api_key("abcdeé"), "abcde**");
    assert_eq!(mask_api_key("áb12xyz"), "áb12***");
}

#[test]
fn accepts_the_root_path() {
    let clean = validate_and_sanitize_url("https://maps.app.goo.gl");
    assert_eq!(clean, Ok("https://maps.app.goo.gl/".to_string()));
    let clean = validate_and_sanitize_url("https://maps.app.goo.gl/?g_st=ic");
    assert_eq!(clean, Ok("https://maps.app.goo.gl/?g_st=ic".to_string()));
}

#[test]
fn counts_the_length_in_characters() {
    let mut url = String::from("https://maps.app.goo.gl/");
    while url.chars().count() < MAX_URL_LENGTH {
        url.push('é');
    }
    assert!(url.len() > MAX_URL_LENGTH);
    assert!(validate_and_sanitize_url(&url).is_ok());
    url.push('é');
    assert_eq!(validate_and_sanitize_url(&url).unwrap_err().kind, ErrorKind::TooLong);
}

#[test]
fn compares_the_host_as_the_parser_gives_it() {
    let clean = validate_and_sanitize_url("https://MAPS.APP.GOO.GL/Example");
    assert_eq!(clean, Ok("https://maps.app.goo.gl/Example".to_string()));
}
