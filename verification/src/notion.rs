//! Writing a record to the store: create it unless one of that name is there.

use crate::error::{ErrorKind, PipelineError, PipelineErrorView};
use crate::http::{
    pair, two_pairs, Exchange, ExchangeView, Method, Payload, PayloadView, Request, RequestView,
};
use crate::json::{entries_view, items_view, Json, JsonView};
use crate::pipeline::{RestaurantDetails, RestaurantDetailsView};
use crate::text::{decimal, decimal_text};
use vstd::prelude::*;
use vstd::string::*;

verus! {

/// How a write to the store ended well.
#[derive(Clone, Copy, Debug, PartialEq, Eq, Structural)]
pub enum UpsertOutcome {
    /// A record of that name was there already; nothing was written.
    AlreadyPresent,
    /// A new record was created.
    Created,
}

/// The headers every call to the store carries.
pub open spec fn store_headers(api_key: Seq<char>) -> Seq<(Seq<char>, Seq<char>)> {
    seq![("Authorization"@, "Bearer "@ + api_key), ("Notion-Version"@, "2022-06-28"@)]
}

/// The filter that selects the records whose name is exactly `name`.
pub open spec fn name_filter(name: Seq<char>) -> JsonView {
    JsonView::Object(
        seq![
            (
                "filter"@,
                JsonView::Object(
                    seq![
                        ("property"@, JsonView::Text("Name"@)),
                        ("title"@, JsonView::Object(seq![("equals"@, JsonView::Text(name))])),
                    ],
                ),
            ),
        ],
    )
}

/// The request that asks the store for the records named `name`.
pub open spec fn query_request(
    api_key: Seq<char>,
    database_id: Seq<char>,
    name: Seq<char>,
) -> RequestView {
    RequestView {
        method: Method::Post,
        url: "https://api.notion.com/v1/databases/"@ + database_id + "/query"@,
        query: Seq::empty(),
        headers: store_headers(api_key),
        payload: PayloadView::Document(name_filter(name)),
    }
}

/// The identifier of the first record in a query's answer, where the answer
/// lists one and gives its identifier as text.
pub open spec fn existing_entry(answer: JsonView) -> Option<Seq<char>> {
    answer.member("results"@).item(0).member("id"@).as_text()
}

/// A block of plain text.
pub open spec fn text_block(content: Seq<char>) -> JsonView {
    JsonView::Object(
        seq![("text"@, JsonView::Object(seq![("content"@, JsonView::Text(content))]))],
    )
}

/// A rich-text property holding `content`.
pub open spec fn rich_text(content: Seq<char>) -> JsonView {
    JsonView::Object(seq![("rich_text"@, JsonView::List(seq![text_block(content)]))])
}

/// A title property holding `content`.
pub open spec fn title(content: Seq<char>) -> JsonView {
    JsonView::Object(seq![("title"@, JsonView::List(seq![text_block(content)]))])
}

/// A link property pointing to `url`.
pub open spec fn link(url: Seq<char>) -> JsonView {
    JsonView::Object(seq![("url"@, JsonView::Text(url))])
}

/// A select property with the option called `name`.
pub open spec fn select(name: Seq<char>) -> JsonView {
    JsonView::Object(
        seq![("select"@, JsonView::Object(seq![("name"@, JsonView::Text(name))]))],
    )
}

/// The properties of the page that stores `details`: one for every field of
/// the place's record and one for its cuisine.
pub open spec fn page_properties(details: RestaurantDetailsView) -> JsonView {
    JsonView::Object(
        seq![
            ("Address"@, rich_text(details.address)),
            ("City"@, rich_text(details.city)),
            ("Country"@, rich_text(details.country)),
            ("Cuisine Type"@, rich_text(details.cuisine_type)),
            ("Google Maps"@, link(details.google_maps_link)),
            ("Price range"@, select(details.price_level)),
            ("Website"@, link(details.website)),
            ("Name"@, title(details.name)),
        ],
    )
}

/// A property holds its content: two properties of one kind that are the
/// same were made from the same text.
pub proof fn lemma_property_holds_its_content(first: Seq<char>, second: Seq<char>)
    ensures
        text_block(first) == text_block(second) ==> first == second,
        rich_text(first) == rich_text(second) ==> first == second,
        title(first) == title(second) ==> first == second,
        link(first) == link(second) ==> first == second,
        select(first) == select(second) ==> first == second,
{
    assert(text_block(first)->Object_0[0].1->Object_0[0].1 == JsonView::Text(first));
    assert(text_block(second)->Object_0[0].1->Object_0[0].1 == JsonView::Text(second));
    assert(rich_text(first)->Object_0[0].1->List_0[0] == text_block(first));
    assert(rich_text(second)->Object_0[0].1->List_0[0] == text_block(second));
    assert(title(first)->Object_0[0].1->List_0[0] == text_block(first));
    assert(title(second)->Object_0[0].1->List_0[0] == text_block(second));
    assert(link(first)->Object_0[0].1 == JsonView::Text(first));
    assert(link(second)->Object_0[0].1 == JsonView::Text(second));
    assert(select(first)->Object_0[0].1->Object_0[0].1 == JsonView::Text(first));
    assert(select(second)->Object_0[0].1->Object_0[0].1 == JsonView::Text(second));
}

/// The page of a record holds every field that is written: two records
/// whose pages have the same properties are the same in name, website, price
/// level, city, country, map link, address and cuisine.
pub proof fn lemma_page_holds_every_field(first: RestaurantDetailsView, second: RestaurantDetailsView)
    requires
        page_properties(first) == page_properties(second),
    ensures
        first.name == second.name,
        first.website == second.website,
        first.price_level == second.price_level,
        first.city == second.city,
        first.country == second.country,
        first.google_maps_link == second.google_maps_link,
        first.address == second.address,
        first.cuisine_type == second.cuisine_type,
{
    let one = page_properties(first)->Object_0;
    let other = page_properties(second)->Object_0;
    assert forall|i: int| 0 <= i < 8 implies one[i].1 == other[i].1 by {}
    assert(one[0].1 == rich_text(first.address) && other[0].1 == rich_text(second.address));
    assert(one[1].1 == rich_text(first.city) && other[1].1 == rich_text(second.city));
    assert(one[2].1 == rich_text(first.country) && other[2].1 == rich_text(second.country));
    assert(one[3].1 == rich_text(first.cuisine_type) && other[3].1 == rich_text(
        second.cuisine_type,
    ));
    assert(one[4].1 == link(first.google_maps_link) && other[4].1 == link(
        second.google_maps_link,
    ));
    assert(one[5].1 == select(first.price_level) && other[5].1 == select(second.price_level));
    assert(one[6].1 == link(first.website) && other[6].1 == link(second.website));
    assert(one[7].1 == title(first.name) && other[7].1 == title(second.name));
    lemma_property_holds_its_content(first.address, second.address);
    lemma_property_holds_its_content(first.city, second.city);
    lemma_property_holds_its_content(first.country, second.country);
    lemma_property_holds_its_content(first.cuisine_type, second.cuisine_type);
    lemma_property_holds_its_content(first.google_maps_link, second.google_maps_link);
    lemma_property_holds_its_content(first.price_level, second.price_level);
    lemma_property_holds_its_content(first.website, second.website);
    lemma_property_holds_its_content(first.name, second.name);
}

/// The parent of a new page: the database it goes into.
pub open spec fn page_parent(database_id: Seq<char>) -> JsonView {
    JsonView::Object(seq![("database_id"@, JsonView::Text(database_id))])
}

/// The icon of a new page.
pub open spec fn page_icon() -> JsonView {
    JsonView::Object(
        seq![("type"@, JsonView::Text("emoji"@)), ("emoji"@, JsonView::Text("🍽️"@))],
    )
}

/// A page cover that shows the image at `url`.
pub open spec fn page_cover(url: Seq<char>) -> JsonView {
    JsonView::Object(
        seq![
            ("type"@, JsonView::Text("external"@)),
            ("external"@, JsonView::Object(seq![("url"@, JsonView::Text(url))])),
        ],
    )
}

/// The document that creates the page for `details`: its properties, parent
/// and icon, and a cover where there is an image for one.
pub open spec fn page_document(
    database_id: Seq<char>,
    details: RestaurantDetailsView,
    cover_url: Option<Seq<char>>,
) -> JsonView {
    let entries = seq![
        ("properties"@, page_properties(details)),
        ("parent"@, page_parent(database_id)),
        ("icon"@, page_icon()),
    ];
    JsonView::Object(
        match cover_url {
            Some(url) => entries.push(("cover"@, page_cover(url))),
            None => entries,
        },
    )
}

/// The request that creates the page for `details`.
pub open spec fn create_request(
    api_key: Seq<char>,
    database_id: Seq<char>,
    details: RestaurantDetailsView,
    cover_url: Option<Seq<char>>,
) -> RequestView {
    RequestView {
        method: Method::Post,
        url: "https://api.notion.com/v1/pages"@,
        query: Seq::empty(),
        headers: store_headers(api_key),
        payload: PayloadView::Document(page_document(database_id, details, cover_url)),
    }
}

/// The request that creates a record holds every field that is written: two
/// records that give the same request are the same in name, website, price
/// level, city, country, map link, address and cuisine.
pub proof fn lemma_create_request_holds_the_record(
    api_key: Seq<char>,
    database_id: Seq<char>,
    first: RestaurantDetailsView,
    second: RestaurantDetailsView,
    cover_url: Option<Seq<char>>,
)
    requires
        create_request(api_key, database_id, first, cover_url) == create_request(
            api_key,
            database_id,
            second,
            cover_url,
        ),
    ensures
        first.name == second.name,
        first.website == second.website,
        first.price_level == second.price_level,
        first.city == second.city,
        first.country == second.country,
        first.google_maps_link == second.google_maps_link,
        first.address == second.address,
        first.cuisine_type == second.cuisine_type,
{
    let one = page_document(database_id, first, cover_url);
    let other = page_document(database_id, second, cover_url);
    assert(one == other);
    assert(one->Object_0[0].1 == page_properties(first));
    assert(other->Object_0[0].1 == page_properties(second));
    lemma_page_holds_every_field(first, second);
}

/// A write to the store, as far as it has come. Each state that waits for an
/// answer holds the request it waits on.
#[derive(Debug, PartialEq, Eq)]
pub enum Upsert {
    /// Asking whether a record of that name exists, with the request that
    /// would create one kept ready.
    Querying { request: Request, create: Request },
    /// Creating the record.
    Creating { request: Request },
    /// Over.
    Done(Result<UpsertOutcome, PipelineError>),
}

/// The mathematical value of an [`Upsert`].
#[verifier::ext_equal]
pub ghost enum UpsertView {
    Querying { request: RequestView, create: RequestView },
    Creating { request: RequestView },
    Done(Result<UpsertOutcome, PipelineErrorView>),
}

/// The mathematical value of the end of a write.
pub open spec fn outcome_view(outcome: Result<UpsertOutcome, PipelineError>) -> Result<
    UpsertOutcome,
    PipelineErrorView,
> {
    match outcome {
        Ok(done) => Ok(done),
        Err(error) => Err(error@),
    }
}

impl View for Upsert {
    type V = UpsertView;

    open spec fn view(&self) -> UpsertView {
        match self {
            Upsert::Querying { request, create } => UpsertView::Querying {
                request: request@,
                create: create@,
            },
            Upsert::Creating { request } => UpsertView::Creating { request: request@ },
            Upsert::Done(outcome) => UpsertView::Done(outcome_view(*outcome)),
        }
    }
}

/// Whether a status code reports success.
pub open spec fn is_success(status: int) -> bool {
    200 <= status < 300
}

/// The failure reported for a call to the store that did not complete or whose
/// answer could not be read.
pub open spec fn persist_failure(reason: Seq<char>) -> PipelineErrorView {
    PipelineErrorView { kind: ErrorKind::PersistFailure, message: reason }
}

/// The failure reported for an answer of the store that does not report
/// success: what was attempted, the status and the body.
pub open spec fn rejected(attempt: Seq<char>, status: int, body: Seq<char>) -> PipelineErrorView {
    PipelineErrorView {
        kind: ErrorKind::PersistFailure,
        message: attempt + decimal(status as nat) + " - "@ + body,
    }
}

/// What a call to the store yields once the checks that every call gets are
/// through: the failure it ends in, or nothing where a response reporting
/// success arrived.
pub open spec fn call_failure(attempt: Seq<char>, exchange: ExchangeView) -> Option<
    PipelineErrorView,
> {
    match exchange {
        ExchangeView::Failed(reason) => Some(persist_failure(reason)),
        ExchangeView::Answered(reply) => if is_success(reply.status) {
            None
        } else {
            Some(rejected(attempt, reply.status, reply.text))
        },
    }
}

impl UpsertView {
    /// The request this state waits on.
    pub open spec fn pending(self) -> Option<RequestView> {
        match self {
            UpsertView::Querying { request, create } => Some(request),
            UpsertView::Creating { request } => Some(request),
            UpsertView::Done(_) => None,
        }
    }

    /// The state that follows once `exchange` has answered the pending
    /// request.
    ///
    /// A query that ends in a failure ends the write; one that finds a record
    /// ends it as a success with nothing written; only one that finds none
    /// goes on to create the record. A finished write stays as it is.
    pub open spec fn advance(self, exchange: ExchangeView) -> UpsertView {
        match self {
            UpsertView::Querying { request, create } => match call_failure(
                "Failed to query Notion database: "@,
                exchange,
            ) {
                Some(error) => UpsertView::Done(Err(error)),
                None => match exchange.document() {
                    Err(reason) => UpsertView::Done(Err(persist_failure(reason))),
                    Ok(answer) => if existing_entry(answer) is Some {
                        UpsertView::Done(Ok(UpsertOutcome::AlreadyPresent))
                    } else {
                        UpsertView::Creating { request: create }
                    },
                },
            },
            UpsertView::Creating { request } => match call_failure(
                "Failed to create Notion entry: "@,
                exchange,
            ) {
                Some(error) => UpsertView::Done(Err(error)),
                None => UpsertView::Done(Ok(UpsertOutcome::Created)),
            },
            UpsertView::Done(outcome) => UpsertView::Done(outcome),
        }
    }
}

/// A query that finds a record of the name ends the write as a success, and
/// no request to create a record is pending after it.
pub proof fn lemma_match_short_circuits(
    request: RequestView,
    create: RequestView,
    exchange: ExchangeView,
)
    requires
        call_failure("Failed to query Notion database: "@, exchange) is None,
        exchange.document() matches Ok(answer) && existing_entry(answer) is Some,
    ensures
        (UpsertView::Querying { request, create }).advance(exchange) == UpsertView::Done(
            Ok(UpsertOutcome::AlreadyPresent),
        ),
        (UpsertView::Querying { request, create }).advance(exchange).pending() is None,
{
}

/// A record is only ever created after a query that was answered well and
/// found no record of the name, and the request then pending is the one kept
/// ready since the start.
pub proof fn lemma_create_follows_a_miss(state: UpsertView, exchange: ExchangeView)
    requires
        state.advance(exchange) is Creating,
    ensures
        state matches UpsertView::Querying { request, create } && state.advance(exchange)
            == (UpsertView::Creating { request: create }),
        exchange matches ExchangeView::Answered(reply) && is_success(reply.status),
        exchange.document() matches Ok(answer) && existing_entry(answer) is None,
{
}

/// The headers every call to the store carries.
fn headers(api_key: &str) -> (list: Vec<(String, String)>)
    ensures
        list.deep_view() == store_headers(api_key@),
{
    let mut bearer = "Bearer ".to_owned();
    bearer.append(api_key);
    two_pairs(("Authorization".to_owned(), bearer), pair("Notion-Version", "2022-06-28"))
}

/// An entry of an object.
fn entry(key: &str, value: Json) -> (made: (String, Json))
    ensures
        made.0@ == key@,
        made.1 == value,
{
    (key.to_owned(), value)
}

/// A block of plain text.
fn text_block_of(content: &str) -> (block: Json)
    ensures
        block@ == text_block(content@),
{
    Json::object_of("text", Json::object_of("content", Json::text(content)))
}

/// A list with one block of plain text, stored under `key`.
fn text_property(key: &str, content: &str) -> (property: Json)
    ensures
        property@ == JsonView::Object(seq![(key@, JsonView::List(seq![text_block(content@)]))]),
{
    let mut blocks: Vec<Json> = Vec::new();
    blocks.push(text_block_of(content));
    assert(items_view(blocks@) =~= seq![text_block(content@)]);
    Json::object_of(key, Json::list(blocks))
}

/// The properties of the page that stores `details`.
fn properties_of(details: &RestaurantDetails) -> (properties: Json)
    ensures
        properties@ == page_properties(details@),
{
    let mut entries: Vec<(String, Json)> = Vec::new();
    entries.push(entry("Address", text_property("rich_text", details.address.as_str())));
    entries.push(entry("City", text_property("rich_text", details.city.as_str())));
    entries.push(entry("Country", text_property("rich_text", details.country.as_str())));
    entries.push(entry("Cuisine Type", text_property("rich_text", details.cuisine_type.as_str())));
    entries.push(
        entry("Google Maps", Json::object_of("url", Json::text(details.google_maps_link.as_str()))),
    );
    entries.push(
        entry(
            "Price range",
            Json::object_of("select", Json::object_of("name", Json::text(details.price_level.as_str()))),
        ),
    );
    entries.push(entry("Website", Json::object_of("url", Json::text(details.website.as_str()))));
    entries.push(entry("Name", text_property("title", details.name.as_str())));
    assert(entries_view(entries@) =~= page_properties(details@)->Object_0);
    Json::object(entries)
}

/// A two-entry object whose values are texts.
fn text_pair_object(first_key: &str, first: &str, second_key: &str, second: Json) -> (made: Json)
    ensures
        made@ == JsonView::Object(seq![(first_key@, JsonView::Text(first@)), (second_key@, second@)]),
{
    let mut entries: Vec<(String, Json)> = Vec::new();
    entries.push(entry(first_key, Json::text(first)));
    entries.push(entry(second_key, second));
    assert(entries_view(entries@) =~= seq![
        (first_key@, JsonView::Text(first@)),
        (second_key@, second@),
    ]);
    Json::object(entries)
}

/// The document that creates the page for `details`.
fn document_of(database_id: &str, details: &RestaurantDetails, cover_url: &Option<String>) -> (document:
    Json)
    ensures
        document@ == page_document(database_id@, details@, cover_url.deep_view()),
{
    let mut entries: Vec<(String, Json)> = Vec::new();
    entries.push(entry("properties", properties_of(details)));
    entries.push(entry("parent", Json::object_of("database_id", Json::text(database_id))));
    entries.push(entry("icon", text_pair_object("type", "emoji", "emoji", Json::text("🍽️"))));
    let ghost base = entries_view(entries@);
    assert(base =~= seq![
        ("properties"@, page_properties(details@)),
        ("parent"@, page_parent(database_id@)),
        ("icon"@, page_icon()),
    ]);
    match cover_url {
        Some(url) => {
            let external = Json::object_of("url", Json::text(url.as_str()));
            entries.push(entry("cover", text_pair_object("type", "external", "external", external)));
            assert(entries_view(entries@) =~= base.push(("cover"@, page_cover(url@))));
        },
        None => {},
    }
    Json::object(entries)
}

/// Begins the write of `details` to the store: the first request asks whether
/// a record of that name exists, and the request that would create one is
/// kept ready for the case that none does.
pub fn create_or_update_entry(
    api_key: &str,
    database_id: &str,
    details: &RestaurantDetails,
    cover_url: &Option<String>,
) -> (state: Upsert)
    ensures
        state@ == (UpsertView::Querying {
            request: query_request(api_key@, database_id@, details@.name),
            create: create_request(api_key@, database_id@, details@, cover_url.deep_view()),
        }),
{
    let mut query_url = "https://api.notion.com/v1/databases/".to_owned();
    query_url.append(database_id);
    query_url.append("/query");
    let filter = Json::object_of(
        "filter",
        text_pair_object(
            "property",
            "Name",
            "title",
            Json::object_of("equals", Json::text(details.name.as_str())),
        ),
    );
    let request = Request {
        method: Method::Post,
        url: query_url,
        query: Vec::new(),
        headers: headers(api_key),
        payload: Payload::Document(filter),
    };
    let create = Request {
        method: Method::Post,
        url: "https://api.notion.com/v1/pages".to_owned(),
        query: Vec::new(),
        headers: headers(api_key),
        payload: Payload::Document(document_of(database_id, details, cover_url)),
    };
    Upsert::Querying { request, create }
}

/// The identifier of the first record in a query's answer, where the answer
/// lists one and gives its identifier as text.
pub fn find_existing_entry(answer: &Json) -> (found: Option<String>)
    ensures
        found.deep_view() == existing_entry(answer@),
{
    let results = match answer.get("results") {
        Some(results) => results,
        None => {
            return None;
        },
    };
    let first = match results.at(0) {
        Some(first) => first,
        None => {
            return None;
        },
    };
    match first.member_text("id") {
        Some(id) => Some(id.to_owned()),
        None => None,
    }
}

/// The failure that the checks on every call to the store find in `exchange`,
/// or the exchange itself where they find none.
fn checked(attempt: &str, exchange: Exchange) -> (outcome: Result<Exchange, PipelineError>)
    ensures
        match outcome {
            Ok(passed) => call_failure(attempt@, exchange@) is None && passed == exchange,
            Err(error) => call_failure(attempt@, exchange@) == Some(error@),
        },
{
    match exchange {
        Exchange::Failed(reason) => Err(
            PipelineError { kind: ErrorKind::PersistFailure, message: reason },
        ),
        Exchange::Answered(reply) => {
            if 200 <= reply.status && reply.status < 300 {
                Ok(Exchange::Answered(reply))
            } else {
                let mut message = attempt.to_owned();
                let status = decimal_text(reply.status as u64);
                message.append(status.as_str());
                message.append(" - ");
                message.append(reply.text.as_str());
                Err(PipelineError { kind: ErrorKind::PersistFailure, message })
            }
        },
    }
}

impl Upsert {
    /// The request this state waits on, if it waits on one.
    pub fn pending(&self) -> (request: Option<&Request>)
        ensures
            match request {
                Some(request) => self@.pending() == Some(request@),
                None => self@.pending() is None,
            },
    {
        match self {
            Upsert::Querying { request, create } => Some(request),
            Upsert::Creating { request } => Some(request),
            Upsert::Done(_) => None,
        }
    }

    /// The state that follows once `exchange` has answered the pending
    /// request.
    pub fn advance(self, exchange: Exchange) -> (next: Upsert)
        ensures
            next@ == self@.advance(exchange@),
    {
        match self {
            Upsert::Querying { request, create } => {
                match checked("Failed to query Notion database: ", exchange) {
                    Err(error) => Upsert::Done(Err(error)),
                    Ok(exchange) => match exchange.into_document() {
                        Err(reason) => Upsert::Done(
                            Err(PipelineError { kind: ErrorKind::PersistFailure, message: reason }),
                        ),
                        Ok(answer) => match find_existing_entry(&answer) {
                            Some(_) => Upsert::Done(Ok(UpsertOutcome::AlreadyPresent)),
                            None => Upsert::Creating { request: create },
                        },
                    },
                }
            },
            Upsert::Creating { request } => {
                match checked("Failed to create Notion entry: ", exchange) {
                    Err(error) => Upsert::Done(Err(error)),
                    Ok(_) => Upsert::Done(Ok(UpsertOutcome::Created)),
                }
            },
            Upsert::Done(outcome) => Upsert::Done(outcome),
        }
    }
}

} // verus!
