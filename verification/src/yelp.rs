//! The cuisine of a place, as the business directory classifies it.

use crate::http::{
    pair, Exchange, ExchangeView, Method, Payload, PayloadView, Request, RequestView,
};
use crate::json::{items_view, Json, JsonView};
use crate::text::{join, joined};
use vstd::prelude::*;
use vstd::string::*;

verus! {

/// What stands for a cuisine that could not be found out.
pub open spec fn unknown_cuisine() -> Seq<char> {
    "❓"@
}

/// What separates the categories of a cuisine.
pub open spec fn category_separator() -> Seq<char> {
    ", "@
}

/// The request that searches the directory for the business called `name` in
/// `city`, asking for the best match only.
pub open spec fn search_request(
    api_key: Seq<char>,
    name: Seq<char>,
    city: Seq<char>,
) -> RequestView {
    RequestView {
        method: Method::Get,
        url: "https://api.yelp.com/v3/businesses/search"@,
        query: seq![("term"@, name), ("location"@, city), ("limit"@, "1"@)],
        headers: seq![("Authorization"@, "Bearer "@ + api_key)],
        payload: PayloadView::Empty,
    }
}

/// The titles of the categories that have a title in text, in their order.
pub open spec fn titles(categories: Seq<JsonView>) -> Seq<Seq<char>>
    decreases categories.len(),
{
    if categories.len() == 0 {
        Seq::empty()
    } else {
        let earlier = titles(categories.drop_last());
        match categories.last().member("title"@).as_text() {
            Some(title) => earlier.push(title),
            None => earlier,
        }
    }
}

/// The categories of the first business that an answer lists, where it lists
/// one and gives it a list of categories.
pub open spec fn first_categories(answer: JsonView) -> Option<Seq<JsonView>> {
    answer.member("businesses"@).item(0).member("categories"@).as_items()
}

/// The cuisine that an answer of the directory gives: the category titles of
/// its first business, joined. An answer that reports an error, lists no
/// business or gives the first one no list of categories yields the unknown
/// marker.
pub open spec fn cuisine_of(answer: JsonView) -> Seq<char> {
    if answer.has_member("error"@) {
        unknown_cuisine()
    } else {
        match first_categories(answer) {
            Some(categories) => joined(titles(categories), category_separator()),
            None => unknown_cuisine(),
        }
    }
}

/// The cuisine that an exchange with the directory gives. An exchange without
/// a decoded answer yields the unknown marker, like an answer without a
/// cuisine.
pub open spec fn classified(exchange: ExchangeView) -> Seq<char> {
    match exchange.document() {
        Ok(answer) => cuisine_of(answer),
        Err(_) => unknown_cuisine(),
    }
}

/// The warning that an exchange with the directory calls for: none where it
/// gave a cuisine, and otherwise what kept it from doing so: that the search
/// did not complete or could not be read, the error that the directory
/// reports, or that it knows no cuisine for the business.
pub open spec fn search_warning(
    exchange: ExchangeView,
    name: Seq<char>,
    city: Seq<char>,
) -> Option<Seq<char>> {
    match exchange.document() {
        Err(reason) => Some("Failed to get cuisine type: "@ + reason),
        Ok(answer) => if answer.has_member("error"@) {
            Some(
                "Yelp API error: "@ + match answer.member("error"@).member(
                    "description"@,
                ).as_text() {
                    Some(description) => description,
                    None => "Unknown error"@,
                },
            )
        } else if first_categories(answer) is None {
            Some("No cuisine type found for "@ + name + " in "@ + city)
        } else {
            None
        },
    }
}

/// The request that searches the directory for the business called
/// `restaurant_name` in `city`.
pub fn get_cuisine_type(api_key: &str, restaurant_name: &str, city: &str) -> (request: Request)
    ensures
        request@ == search_request(api_key@, restaurant_name@, city@),
{
    let mut query: Vec<(String, String)> = Vec::new();
    query.push(pair("term", restaurant_name));
    query.push(pair("location", city));
    query.push(pair("limit", "1"));
    assert(query.deep_view() =~= seq![
        ("term"@, restaurant_name@),
        ("location"@, city@),
        ("limit"@, "1"@),
    ]);
    let mut bearer = "Bearer ".to_owned();
    bearer.append(api_key);
    let mut headers: Vec<(String, String)> = Vec::new();
    headers.push(("Authorization".to_owned(), bearer));
    Request {
        method: Method::Get,
        url: "https://api.yelp.com/v3/businesses/search".to_owned(),
        query,
        headers,
        payload: Payload::Empty,
    }
}

/// The titles of the categories that have a title in text, in their order.
pub fn category_titles(categories: &Vec<Json>) -> (found: Vec<String>)
    ensures
        found.deep_view() == titles(items_view(categories@)),
{
    let mut found: Vec<String> = Vec::new();
    let mut i: usize = 0;
    while i < categories.len()
        invariant
            i <= categories.len(),
            found.deep_view() == titles(items_view(categories@).take(i as int)),
        decreases categories.len() - i,
    {
        assert(items_view(categories@).take(i + 1).drop_last() =~= items_view(categories@).take(
            i as int,
        ));
        match categories[i].member_text("title") {
            Some(title) => {
                found.push(title.to_owned());
            },
            None => {},
        }
        i += 1;
    }
    assert(items_view(categories@).take(categories.len() as int) =~= items_view(categories@));
    found
}

/// The categories of the first business that an answer lists.
pub fn first_categories_of(answer: &Json) -> (categories: Option<&Vec<Json>>)
    ensures
        match categories {
            Some(list) => first_categories(answer@) == Some(items_view(list@)),
            None => first_categories(answer@) is None,
        },
{
    let businesses = match answer.get("businesses") {
        Some(businesses) => businesses,
        None => {
            return None;
        },
    };
    let first = match businesses.at(0) {
        Some(first) => first,
        None => {
            return None;
        },
    };
    match first.get("categories") {
        Some(categories) => categories.as_array(),
        None => None,
    }
}

/// The cuisine that an answer of the directory gives.
pub fn cuisine_from_answer(answer: &Json) -> (cuisine: String)
    ensures
        cuisine@ == cuisine_of(answer@),
{
    if answer.get("error").is_some() {
        return "❓".to_owned();
    }
    match first_categories_of(answer) {
        Some(list) => {
            let found = category_titles(list);
            join(&found, ", ")
        },
        None => "❓".to_owned(),
    }
}

/// The warning that an exchange with the directory calls for, if it calls for
/// one.
pub fn search_warning_of(exchange: &Exchange, name: &str, city: &str) -> (warning: Option<String>)
    ensures
        warning.deep_view() == search_warning(exchange@, name@, city@),
{
    let answer = match exchange.as_document() {
        Err(reason) => {
            let mut warning = "Failed to get cuisine type: ".to_owned();
            warning.append(reason);
            return Some(warning);
        },
        Ok(answer) => answer,
    };
    if let Some(error) = answer.get("error") {
        let mut warning = "Yelp API error: ".to_owned();
        match error.member_text("description") {
            Some(description) => warning.append(description),
            None => warning.append("Unknown error"),
        }
        return Some(warning);
    }
    if first_categories_of(answer).is_none() {
        let mut warning = "No cuisine type found for ".to_owned();
        warning.append(name);
        warning.append(" in ");
        warning.append(city);
        return Some(warning);
    }
    None
}

/// The cuisine that an exchange with the directory gives: always a text, the
/// unknown marker where the exchange gives no cuisine.
pub fn cuisine_from(exchange: Exchange) -> (cuisine: String)
    ensures
        cuisine@ == classified(exchange@),
{
    match exchange.into_document() {
        Ok(answer) => cuisine_from_answer(&answer),
        Err(_) => "❓".to_owned(),
    }
}

} // verus!
