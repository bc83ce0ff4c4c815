use gastropath::cloudinary::{
    cover_url, signed_upload_request, upload_image, upload_image_at, upload_warning_of,
    CloudinaryConfig,
};
use gastropath::http::{Exchange, Method, Payload, Reply, Request};
use gastropath::json::Json;
use gastropath::yelp::{
    category_titles, cuisine_from, cuisine_from_answer, first_categories_of, get_cuisine_type,
    search_warning_of,
};

fn text(s: &str) -> Json {
    Json::Text(s.to_string())
}

fn object(entries: Vec<(&str, Json)>) -> Json {
    Json::Object(entries.into_iter().map(|(k, v)| (k.to_string(), v)).collect())
}

fn pairs(items: &[(&str, &str)]) -> Vec<(String, String)> {
    items.iter().map(|(k, v)| (k.to_string(), v.to_string())).collect()
}

fn answered(document: Json) -> Exchange {
    Exchange::Answered(Reply {
        status: 200,
        url: String::new(),
        text: String::new(),
        document: Ok(document),
    })
}

fn account() -> CloudinaryConfig {
    CloudinaryConfig {
        cloud_name: "demo".to_string(),
        api_key: "cl-key".to_string(),
        api_secret: "secret".to_string(),
    }
}

fn category(title: &str) -> Json {
    object(vec![("alias", text("x")), ("title", text(title))])
}

#[test]
fn signs_the_upload_with_the_digest_of_time_and_secret() {
    let request =
        upload_image_at(&account(), "G-KEY", &Some("photo-1".to_string()), 1700000000).unwrap();
    assert_eq!(
        request,
        Request {
            method: Method::Post,
            url: "https://api.cloudinary.com/v1_1/demo/image/upload".to_string(),
            query: Vec::new(),
            headers: Vec::new(),
            payload: Payload::Form(pairs(&[
                (
                    "file",
                    "https://maps.googleapis.com/maps/api/place/photo?maxwidth=800&photoreference=photo-1&key=G-KEY"
                ),
                ("api_key", "cl-key"),
                ("timestamp", "1700000000"),
                ("signature", "84af3c6077e429a8e7ff26d2ca13d5feb6bc7cb0"),
            ])),
        }
    );
}

#[test]
fn signs_an_upload_before_the_epoch() {
    let config = CloudinaryConfig {
        cloud_name: "c".to_string(),
        api_key: "k".to_string(),
        api_secret: "s3cr3t".to_string(),
    };
    let request = upload_image_at(&config, "G", &Some("r".to_string()), -5).unwrap();
    match request.payload {
        Payload::Form(fields) => {
            assert_eq!(fields[2], ("timestamp".to_string(), "-5".to_string()));
            assert_eq!(
                fields[3],
                ("signature".to_string(), "9b3f1a21eca6203ec62474c7d99153ca231c64ef".to_string())
            );
        }
        other => panic!("no form: {:?}", other),
    }
}

#[test]
fn makes_no_upload_for_a_place_without_photo() {
    assert_eq!(upload_image_at(&account(), "G-KEY", &None, 1700000000), None);
    assert_eq!(upload_image(&account(), "G-KEY", &None), None);
}

#[test]
fn makes_an_upload_for_the_present_time() {
    let request = upload_image(&account(), "G-KEY", &Some("photo-1".to_string())).unwrap();
    assert_eq!(request.url, "https://api.cloudinary.com/v1_1/demo/image/upload");
    match request.payload {
        Payload::Form(fields) => {
            assert_eq!(fields.len(), 4);
            assert_eq!(fields[1], ("api_key".to_string(), "cl-key".to_string()));
            assert_eq!(fields[2].0, "timestamp");
            let seconds: i64 = fields[2].1.parse().unwrap();
            let again = upload_image_at(&account(), "G-KEY", &Some("photo-1".to_string()), seconds);
            assert_eq!(again.unwrap().payload, Payload::Form(fields));
        }
        other => panic!("no form: {:?}", other),
    }
}

#[test]
fn builds_a_signed_upload_from_its_parts() {
    let request = signed_upload_request(&account(), "https://img.example/1".to_string(), 12, "abc".to_string());
    assert_eq!(
        request.payload,
        Payload::Form(pairs(&[
            ("file", "https://img.example/1"),
            ("api_key", "cl-key"),
            ("timestamp", "12"),
            ("signature", "abc"),
        ]))
    );
}

#[test]
fn reads_the_address_of_the_uploaded_image() {
    let answer = object(vec![
        ("public_id", text("p")),
        ("secure_url", text("https://res.cloudinary.com/demo/image/upload/p.jpg")),
    ]);
    assert_eq!(
        cover_url(answered(answer)),
        Some("https://res.cloudinary.com/demo/image/upload/p.jpg".to_string())
    );
}

#[test]
fn has_no_cover_when_the_upload_fails() {
    assert_eq!(cover_url(Exchange::Failed("network error".to_string())), None);
    let refused = object(vec![("error", object(vec![("message", text("Invalid Signature"))]))]);
    assert_eq!(cover_url(answered(refused)), None);
    assert_eq!(cover_url(answered(object(vec![("secure_url", Json::Null)]))), None);
    let undecoded = Exchange::Answered(Reply {
        status: 502,
        url: String::new(),
        text: "Bad Gateway".to_string(),
        document: Err("expected value".to_string()),
    });
    assert_eq!(cover_url(undecoded), None);
}

#[test]
fn asks_the_directory_for_the_best_match() {
    assert_eq!(
        get_cuisine_type("Y-KEY", "Trattoria X", "Roma"),
        Request {
            method: Method::Get,
            url: "https://api.yelp.com/v3/businesses/search".to_string(),
            query: pairs(&[("term", "Trattoria X"), ("location", "Roma"), ("limit", "1")]),
            headers: pairs(&[("Authorization", "Bearer Y-KEY")]),
            payload: Payload::Empty,
        }
    );
}

#[test]
fn joins_the_categories_of_the_first_business() {
    let answer = object(vec![(
        "businesses",
        Json::List(vec![
            object(vec![("categories", Json::List(vec![category("Italian"), category("Pizza")]))]),
            object(vec![("categories", Json::List(vec![category("Sushi Bars")]))]),
        ]),
    )]);
    assert_eq!(cuisine_from_answer(&answer), "Italian, Pizza");
}

#[test]
fn passes_over_categories_without_a_title() {
    let categories = vec![
        category("Italian"),
        object(vec![("alias", text("x"))]),
        object(vec![("title", Json::Integer(3))]),
        category("Wine Bars"),
    ];
    assert_eq!(category_titles(&categories), vec!["Italian".to_string(), "Wine Bars".to_string()]);
    assert_eq!(category_titles(&Vec::new()), Vec::<String>::new());
}

#[test]
fn gives_an_empty_cuisine_for_an_empty_list_of_categories() {
    let answer =
        object(vec![("businesses", Json::List(vec![object(vec![("categories", Json::List(Vec::new()))])]))]);
    assert_eq!(cuisine_from_answer(&answer), "");
}

#[test]
fn gives_the_unknown_marker_without_a_match() {
    assert_eq!(cuisine_from_answer(&object(vec![("businesses", Json::List(Vec::new()))])), "❓");
    assert_eq!(cuisine_from_answer(&object(vec![("total", Json::Integer(0))])), "❓");
    let without = object(vec![("businesses", Json::List(vec![object(vec![("name", text("X"))])]))]);
    assert_eq!(cuisine_from_answer(&without), "❓");
    assert_eq!(cuisine_from_answer(&Json::Null), "❓");
}

#[test]
fn gives_the_unknown_marker_when_the_directory_reports_an_error() {
    let answer = object(vec![
        ("error", object(vec![("code", text("TOKEN_INVALID")), ("description", text("Invalid"))])),
        ("businesses", Json::List(vec![object(vec![("categories", Json::List(vec![category("Italian")]))])])),
    ]);
    assert_eq!(cuisine_from_answer(&answer), "❓");
    assert_eq!(cuisine_from(answered(object(vec![("error", Json::Null)]))), "❓");
}

#[test]
fn gives_the_unknown_marker_when_the_search_fails() {
    assert_eq!(cuisine_from(Exchange::Failed("network error".to_string())), "❓");
    let undecoded = Exchange::Answered(Reply {
        status: 500,
        url: String::new(),
        text: "oops".to_string(),
        document: Err("expected value".to_string()),
    });
    assert_eq!(cuisine_from(undecoded), "❓");
}

#[test]
fn reads_the_cuisine_off_an_exchange() {
    let answer = object(vec![(
        "businesses",
        Json::List(vec![object(vec![("categories", Json::List(vec![category("Trattorie")]))])]),
    )]);
    assert_eq!(cuisine_from(answered(answer)), "Trattorie");
}

#[test]
fn warns_of_an_upload_that_gave_no_address() {
    assert_eq!(
        upload_warning_of(&Exchange::Failed("network error".to_string())),
        Some("Failed to upload image: network error".to_string())
    );
    assert_eq!(
        upload_warning_of(&answered(object(vec![("public_id", text("p"))]))),
        Some("Failed to upload image: Failed to upload image to Cloudinary".to_string())
    );
    assert_eq!(upload_warning_of(&answered(object(vec![("secure_url", text("u"))]))), None);
}

#[test]
fn warns_of_a_search_that_gave_no_cuisine() {
    assert_eq!(
        search_warning_of(&Exchange::Failed("refused".to_string()), "X", "Roma"),
        Some("Failed to get cuisine type: refused".to_string())
    );
    let reported = object(vec![("error", object(vec![("description", text("Bad token"))]))]);
    assert_eq!(
        search_warning_of(&answered(reported), "X", "Roma"),
        Some("Yelp API error: Bad token".to_string())
    );
    assert_eq!(
        search_warning_of(&answered(Json::Null), "X", "Roma"),
        Some("No cuisine type found for X in Roma".to_string())
    );
    let empty =
        object(vec![("businesses", Json::List(vec![object(vec![("categories", Json::List(Vec::new()))])]))]);
    assert_eq!(search_warning_of(&answered(empty), "X", "Roma"), None);
}

#[test]
fn reads_the_categories_of_the_first_business() {
    let answer = object(vec![(
        "businesses",
        Json::List(vec![object(vec![("categories", Json::List(vec![category("Italian")]))])]),
    )]);
    assert_eq!(first_categories_of(&answer), Some(&vec![category("Italian")]));
    assert_eq!(first_categories_of(&object(vec![("businesses", Json::List(Vec::new()))])), None);
}

#[test]
fn looks_at_the_document_of_an_exchange() {
    let exchange = answered(text("a"));
    assert_eq!(exchange.as_document(), Ok(&text("a")));
    assert_eq!(Exchange::Failed("refused".to_string()).as_document(), Err("refused"));
    let undecoded = Exchange::Answered(Reply {
        status: 200,
        url: String::new(),
        text: "<html>".to_string(),
        document: Err("expected value".to_string()),
    });
    assert_eq!(undecoded.as_document(), Err("expected value"));
    assert_eq!(undecoded.into_document(), Err("expected value".to_string()));
}
