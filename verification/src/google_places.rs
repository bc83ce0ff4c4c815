//! Resolving a location reference to the details of one place: reading the
//! place's identity out of a long-form URL, asking the places provider, and
//! normalizing what it answers.

use crate::error::{ErrorKind, PipelineError, PipelineErrorView};
use crate::http::{plain_get, Exchange, ExchangeView, Request, RequestView};
use crate::json::{items_view, Json, JsonView};
use crate::text::{
    find_last, keys_of, last_index_of, lemma_repeated_len, repeat, repeated, same_text, starts_with,
};
use crate::utils::{expand_short_url, expanded_url, expansion, parse_url, parsed_url};
use vstd::prelude::*;
use vstd::string::*;

verus! {

/// How a place is asked for: by the provider's identifier for it, or by a
/// text to search for.
#[derive(Clone, Debug, PartialEq, Eq)]
pub enum PlaceQuery {
    ByIdentifier(String),
    ByText(String),
}

/// The mathematical value of a [`PlaceQuery`].
pub ghost enum PlaceQueryView {
    ByIdentifier(Seq<char>),
    ByText(Seq<char>),
}

impl View for PlaceQuery {
    type V = PlaceQueryView;

    open spec fn view(&self) -> PlaceQueryView {
        match self {
            PlaceQuery::ByIdentifier(id) => PlaceQueryView::ByIdentifier(id@),
            PlaceQuery::ByText(text) => PlaceQueryView::ByText(text@),
        }
    }
}

/// The canonical record of a place.
#[derive(Clone, Debug, PartialEq, Eq)]
pub struct PlaceDetails {
    pub name: String,
    pub website: String,
    pub price_level: String,
    pub city: String,
    pub country: String,
    pub google_maps_link: String,
    pub address: String,
    pub photo_reference: Option<String>,
}

/// The mathematical value of a [`PlaceDetails`].
#[verifier::ext_equal]
pub ghost struct PlaceDetailsView {
    pub name: Seq<char>,
    pub website: Seq<char>,
    pub price_level: Seq<char>,
    pub city: Seq<char>,
    pub country: Seq<char>,
    pub google_maps_link: Seq<char>,
    pub address: Seq<char>,
    pub photo_reference: Option<Seq<char>>,
}

impl View for PlaceDetails {
    type V = PlaceDetailsView;

    open spec fn view(&self) -> PlaceDetailsView {
        PlaceDetailsView {
            name: self.name@,
            website: self.website@,
            price_level: self.price_level@,
            city: self.city@,
            country: self.country@,
            google_maps_link: self.google_maps_link@,
            address: self.address@,
            photo_reference: self.photo_reference.deep_view(),
        }
    }
}

/// The names of a list of query parameters.
pub open spec fn names_of(pairs: Seq<(Seq<char>, Seq<char>)>) -> Seq<Seq<char>> {
    Seq::new(pairs.len(), |i: int| pairs[i].0)
}

/// The value of the parameter called `name`: that of the last one, where
/// several are.
pub open spec fn value_of(pairs: Seq<(Seq<char>, Seq<char>)>, name: Seq<char>) -> Option<
    Seq<char>,
> {
    match last_index_of(names_of(pairs), name) {
        Some(i) => Some(pairs[i].1),
        None => None,
    }
}

/// The query that a long-form URL with the given parameters stands for: the
/// identifier under `ftid`, else the one under `place_id`, else the text
/// under `q`, else the whole URL as a text.
pub open spec fn query_from(pairs: Seq<(Seq<char>, Seq<char>)>, whole: Seq<char>) -> PlaceQueryView {
    match value_of(pairs, "ftid"@) {
        Some(id) => PlaceQueryView::ByIdentifier(id),
        None => match value_of(pairs, "place_id"@) {
            Some(id) => PlaceQueryView::ByIdentifier(id),
            None => match value_of(pairs, "q"@) {
                Some(text) => PlaceQueryView::ByText(text),
                None => PlaceQueryView::ByText(whole),
            },
        },
    }
}

/// The query that a long-form URL stands for. One that does not parse has no
/// parameters, and stands for itself as a text.
pub open spec fn extracted(url: Seq<char>) -> PlaceQueryView {
    match parsed_url(url) {
        Some(parts) => query_from(parts.query, url),
        None => PlaceQueryView::ByText(url),
    }
}

/// Where both identifier parameters are present the one under `ftid` is
/// chosen, and where neither they nor the text parameter are present the
/// whole URL is the text to search for.
pub proof fn lemma_identifier_priority(pairs: Seq<(Seq<char>, Seq<char>)>, whole: Seq<char>)
    ensures
        value_of(pairs, "ftid"@) matches Some(id) ==> query_from(pairs, whole)
            == PlaceQueryView::ByIdentifier(id),
        value_of(pairs, "ftid"@) is None && value_of(pairs, "place_id"@) is None && value_of(
            pairs,
            "q"@,
        ) is None ==> query_from(pairs, whole) == PlaceQueryView::ByText(whole),
{
}

/// The value of the parameter called `name`.
fn parameter(pairs: &Vec<(String, String)>, name: &str) -> (value: Option<String>)
    ensures
        value.deep_view() == value_of(pairs.deep_view(), name@),
{
    proof {
        assert(names_of(pairs.deep_view()) =~= keys_of(pairs@));
    }
    match find_last(pairs, name) {
        Some(i) => Some(pairs[i].1.clone()),
        None => None,
    }
}

/// The query that a long-form URL with the given parameters stands for.
pub fn place_query_from(pairs: &Vec<(String, String)>, whole: &str) -> (query: PlaceQuery)
    ensures
        query@ == query_from(pairs.deep_view(), whole@),
{
    if let Some(id) = parameter(pairs, "ftid") {
        return PlaceQuery::ByIdentifier(id);
    }
    if let Some(id) = parameter(pairs, "place_id") {
        return PlaceQuery::ByIdentifier(id);
    }
    if let Some(text) = parameter(pairs, "q") {
        return PlaceQuery::ByText(text);
    }
    PlaceQuery::ByText(whole.to_owned())
}

/// Reads the place's identity out of a long-form URL. This never fails: a
/// URL that gives less is answered with a less precise query.
pub fn extract_place_info(url: &str) -> (query: PlaceQuery)
    ensures
        query@ == extracted(url@),
{
    match parse_url(url) {
        Some(parts) => place_query_from(&parts.query, url),
        None => PlaceQuery::ByText(url.to_owned()),
    }
}

/// The name that stands for a place whose name could not be resolved.
pub open spec fn sentinel_name() -> Seq<char> {
    "Unknown"@
}

/// The glyph that a price tier is counted in.
pub open spec fn price_glyph() -> Seq<char> {
    "💵"@
}

/// What stands for a price tier that is not known.
pub open spec fn unknown_price() -> Seq<char> {
    "❓"@
}

/// The text of a value, or `fallback` where it is no text.
pub open spec fn text_or(value: JsonView, fallback: Seq<char>) -> Seq<char> {
    match value.as_text() {
        Some(text) => text,
        None => fallback,
    }
}

/// The price tier as it is shown: one glyph for each step of the level, or
/// the unknown marker where the level is not there.
pub open spec fn price_tier(level: Option<int>) -> Seq<char>
    recommends
        level matches Some(n) ==> n >= 0,
{
    match level {
        Some(n) => repeated(price_glyph(), n as nat),
        None => unknown_price(),
    }
}

/// Whether raw details can be normalized: a price level that is there as an
/// integer is not negative.
pub open spec fn renderable(details: JsonView) -> bool {
    match details.member("price_level"@).as_integer() {
        Some(n) => n >= 0,
        None => true,
    }
}

/// Whether an address component carries the tag.
pub open spec fn is_tagged(component: JsonView, tag: Seq<char>) -> bool {
    match component.member("types"@).as_items() {
        Some(types) => types.contains(JsonView::Text(tag)),
        None => false,
    }
}

/// The long name that a component gives under the tag: none where it does
/// not carry the tag or has no long name in text.
pub open spec fn name_under(component: JsonView, tag: Seq<char>) -> Option<Seq<char>> {
    if is_tagged(component, tag) {
        component.member("long_name"@).as_text()
    } else {
        None
    }
}

/// The long name of the last component that gives one under the tag, or
/// `fallback` where none does.
pub open spec fn tagged_name(
    components: Seq<JsonView>,
    tag: Seq<char>,
    fallback: Seq<char>,
) -> Seq<char>
    decreases components.len(),
{
    if components.len() == 0 {
        fallback
    } else {
        match name_under(components.last(), tag) {
            Some(name) => name,
            None => tagged_name(components.drop_last(), tag, fallback),
        }
    }
}

/// Among several components that give a name under the tag the last one
/// wins, and where none gives one the fallback stands.
pub proof fn lemma_last_tagged_wins(components: Seq<JsonView>, tag: Seq<char>, fallback: Seq<char>)
    ensures
        (forall|i: int| 0 <= i < components.len() ==> name_under(#[trigger] components[i], tag) is None)
            ==> tagged_name(components, tag, fallback) == fallback,
        forall|i: int|
            0 <= i < components.len() && name_under(#[trigger] components[i], tag) is Some && (forall|
                j: int,
            |
                i < j < components.len() ==> name_under(#[trigger] components[j], tag) is None)
                ==> Some(tagged_name(components, tag, fallback)) == name_under(components[i], tag),
    decreases components.len(),
{
    if components.len() > 0 {
        let earlier = components.drop_last();
        let last = components.len() - 1;
        lemma_last_tagged_wins(earlier, tag, fallback);
        assert forall|i: int| 0 <= i < earlier.len() implies earlier[i] == components[i] by {}
        assert forall|i: int|
            0 <= i < components.len() && name_under(#[trigger] components[i], tag) is Some && (forall|
                j: int,
            |
                i < j < components.len() ==> name_under(#[trigger] components[j], tag) is None)
            implies Some(tagged_name(components, tag, fallback)) == name_under(
            components[i],
            tag,
        ) by {
            if i < last {
                assert(name_under(components[last], tag) is None);
                assert(earlier[i] == components[i]);
                assert forall|j: int| i < j < earlier.len() implies name_under(
                    #[trigger] earlier[j],
                    tag,
                ) is None by {
                    assert(earlier[j] == components[j]);
                }
            }
        }
        if forall|i: int| 0 <= i < components.len() ==> name_under(#[trigger] components[i], tag) is None {
            assert(name_under(components[last], tag) is None);
            assert forall|i: int| 0 <= i < earlier.len() implies name_under(
                #[trigger] earlier[i],
                tag,
            ) is None by {
                assert(earlier[i] == components[i]);
            }
        }
    }
}

/// The address components of raw details: none where they are not listed.
pub open spec fn address_components(details: JsonView) -> Seq<JsonView> {
    match details.member("address_components"@).as_items() {
        Some(components) => components,
        None => Seq::empty(),
    }
}

/// The canonical record that raw details normalize to.
pub open spec fn normalized(details: JsonView) -> PlaceDetailsView
    recommends
        renderable(details),
{
    PlaceDetailsView {
        name: text_or(details.member("name"@), sentinel_name()),
        website: text_or(details.member("website"@), "No website available"@),
        price_level: price_tier(details.member("price_level"@).as_integer()),
        city: tagged_name(address_components(details), "locality"@, "No city available"@),
        country: tagged_name(address_components(details), "country"@, "No country available"@),
        google_maps_link: text_or(details.member("url"@), "No link available"@),
        address: text_or(details.member("formatted_address"@), "No address available"@),
        photo_reference: details.member("photos"@).item(0).member("photo_reference"@).as_text(),
    }
}

/// A price tier that is there never reads like one that is not.
pub proof fn lemma_known_price_is_distinct(level: int)
    requires
        level >= 0,
    ensures
        price_tier(Some(level)) != price_tier(None),
{
    reveal_strlit("💵");
    reveal_strlit("❓");
    lemma_repeated_len(price_glyph(), level as nat);
    if level == 1 {
        assert(price_glyph()[0] != unknown_price()[0]);
    } else {
        assert(price_tier(Some(level)).len() == level) by (nonlinear_arith)
            requires
                price_tier(Some(level)).len() == level * 1,
        ;
    }
}

/// The text stored under `key`, or `fallback` where there is none.
fn text_or_default(details: &Json, key: &str, fallback: &str) -> (text: String)
    ensures
        text@ == text_or(details@.member(key@), fallback@),
{
    match details.member_text(key) {
        Some(found) => found.to_owned(),
        None => fallback.to_owned(),
    }
}

/// Whether a list of values holds the tag as a text.
fn holds_tag(types: &Vec<Json>, tag: &str) -> (held: bool)
    ensures
        held == items_view(types@).contains(JsonView::Text(tag@)),
{
    let mut i: usize = 0;
    while i < types.len()
        invariant
            i <= types.len(),
            forall|k: int| 0 <= k < i ==> items_view(types@)[k] != JsonView::Text(tag@),
        decreases types.len() - i,
    {
        if let Some(text) = types[i].as_str() {
            if same_text(text, tag) {
                assert(items_view(types@)[i as int] == JsonView::Text(tag@));
                return true;
            }
        }
        i += 1;
    }
    false
}

/// Whether an address component carries the tag.
fn carries_tag(component: &Json, tag: &str) -> (tagged: bool)
    ensures
        tagged == is_tagged(component@, tag@),
{
    match component.get("types") {
        Some(types) => match types.as_array() {
            Some(list) => holds_tag(list, tag),
            None => false,
        },
        None => false,
    }
}

/// The long name of the last component that carries the tag and has a long
/// name, or `fallback`.
fn tagged_name_of(components: &Vec<Json>, tag: &str, fallback: &str) -> (name: String)
    ensures
        name@ == tagged_name(items_view(components@), tag@, fallback@),
{
    let mut name = fallback.to_owned();
    let mut i: usize = 0;
    while i < components.len()
        invariant
            i <= components.len(),
            name@ == tagged_name(items_view(components@).take(i as int), tag@, fallback@),
        decreases components.len() - i,
    {
        assert(items_view(components@).take(i + 1).drop_last() =~= items_view(components@).take(
            i as int,
        ));
        if carries_tag(&components[i], tag) {
            if let Some(long_name) = components[i].member_text("long_name") {
                name = long_name.to_owned();
            }
        }
        i += 1;
    }
    assert(items_view(components@).take(components.len() as int) =~= items_view(components@));
    name
}

/// The long name of the last address component of `details` that carries the
/// tag and has a long name, or `fallback`.
fn locality_of(details: &Json, tag: &str, fallback: &str) -> (name: String)
    ensures
        name@ == tagged_name(address_components(details@), tag@, fallback@),
{
    match details.get("address_components") {
        Some(listed) => match listed.as_array() {
            Some(components) => tagged_name_of(components, tag, fallback),
            None => fallback.to_owned(),
        },
        None => fallback.to_owned(),
    }
}

/// The reference of the first photo, where there is one.
fn first_photo(details: &Json) -> (reference: Option<String>)
    ensures
        reference.deep_view() == details@.member("photos"@).item(0).member(
            "photo_reference"@,
        ).as_text(),
{
    let photos = match details.get("photos") {
        Some(photos) => photos,
        None => {
            return None;
        },
    };
    let first = match photos.at(0) {
        Some(first) => first,
        None => {
            return None;
        },
    };
    match first.member_text("photo_reference") {
        Some(reference) => Some(reference.to_owned()),
        None => None,
    }
}

/// Whether raw details can be normalized: a price level that is there as an
/// integer is not negative.
pub fn can_normalize(details: &Json) -> (possible: bool)
    ensures
        possible == renderable(details@),
{
    match details.get("price_level") {
        Some(level) => match level.as_i64() {
            Some(n) => n >= 0,
            None => true,
        },
        None => true,
    }
}

/// Normalizes the raw details of a place into its canonical record.
///
/// A field that is missing gets its default; the city and the country are
/// the long names of the last address components tagged `locality` and
/// `country`; the price level is shown as that many glyphs, none for level
/// zero, and as the unknown marker where it is missing. A price level below
/// zero cannot be shown.
pub fn process_place_details(details: &Json) -> (record: PlaceDetails)
    requires
        renderable(details@),
    ensures
        record@ == normalized(details@),
{
    let level = match details.get("price_level") {
        Some(level) => level.as_i64(),
        None => None,
    };
    let price_level = match level {
        Some(n) => repeat("💵", n as u64),
        None => "❓".to_owned(),
    };
    PlaceDetails {
        name: text_or_default(details, "name", "Unknown"),
        website: text_or_default(details, "website", "No website available"),
        price_level,
        city: locality_of(details, "locality", "No city available"),
        country: locality_of(details, "country", "No country available"),
        google_maps_link: text_or_default(details, "url", "No link available"),
        address: text_or_default(details, "formatted_address", "No address available"),
        photo_reference: first_photo(details),
    }
}

/// The fields asked of the provider for a place, and the lead-in to the key.
pub open spec fn details_fields() -> Seq<char> {
    "&fields=name,formatted_address,website,price_level,address_component,photos,url&key="@
}

/// The request for the details of the place with the given identifier.
pub open spec fn details_by_ftid(api_key: Seq<char>, ftid: Seq<char>) -> RequestView {
    plain_get(
        "https://maps.googleapis.com/maps/api/place/details/json?ftid="@ + ftid + details_fields()
            + api_key,
    )
}

/// The request for the details of the place that a search has found.
pub open spec fn details_by_place_id(api_key: Seq<char>, place_id: Seq<char>) -> RequestView {
    plain_get(
        "https://maps.googleapis.com/maps/api/place/details/json?place_id="@ + place_id
            + details_fields() + api_key,
    )
}

/// The request that searches for a place by text.
pub open spec fn find_place(api_key: Seq<char>, text: Seq<char>) -> RequestView {
    plain_get(
        "https://maps.googleapis.com/maps/api/place/findplacefromtext/json?input="@ + text
            + "&inputtype=textquery&fields=place_id&key="@ + api_key,
    )
}

/// The resolution of one place, as far as it has come. Each state that waits
/// for an answer holds the request it waits on.
#[derive(Debug, PartialEq, Eq)]
pub enum Resolver {
    /// Following a short link to its long form.
    Expanding { request: Request, api_key: String },
    /// Searching for the place by text.
    FindingPlace { request: Request, api_key: String },
    /// Fetching the details of the place.
    FetchingDetails { request: Request },
    /// Over.
    Done(Result<PlaceDetails, PipelineError>),
}

/// The mathematical value of a [`Resolver`].
#[verifier::ext_equal]
pub ghost enum ResolverView {
    Expanding { request: RequestView, api_key: Seq<char> },
    FindingPlace { request: RequestView, api_key: Seq<char> },
    FetchingDetails { request: RequestView },
    Done(Result<PlaceDetailsView, PipelineErrorView>),
}

/// The mathematical value of the end of a resolution.
pub open spec fn resolution_view(outcome: Result<PlaceDetails, PipelineError>) -> Result<
    PlaceDetailsView,
    PipelineErrorView,
> {
    match outcome {
        Ok(details) => Ok(details@),
        Err(error) => Err(error@),
    }
}

impl View for Resolver {
    type V = ResolverView;

    open spec fn view(&self) -> ResolverView {
        match self {
            Resolver::Expanding { request, api_key } => ResolverView::Expanding {
                request: request@,
                api_key: api_key@,
            },
            Resolver::FindingPlace { request, api_key } => ResolverView::FindingPlace {
                request: request@,
                api_key: api_key@,
            },
            Resolver::FetchingDetails { request } => ResolverView::FetchingDetails {
                request: request@,
            },
            Resolver::Done(outcome) => ResolverView::Done(resolution_view(*outcome)),
        }
    }
}

/// A failure of the given kind with the given message.
pub open spec fn failure(kind: ErrorKind, message: Seq<char>) -> PipelineErrorView {
    PipelineErrorView { kind, message }
}

/// The state in which a query is put to the provider: an identifier goes
/// straight to the details, a text is searched for first.
pub open spec fn looked_up(query: PlaceQueryView, api_key: Seq<char>) -> ResolverView {
    match query {
        PlaceQueryView::ByIdentifier(id) => ResolverView::FetchingDetails {
            request: details_by_ftid(api_key, id),
        },
        PlaceQueryView::ByText(text) => ResolverView::FindingPlace {
            request: find_place(api_key, text),
            api_key,
        },
    }
}

/// The state in which the resolution of a reference begins: a link is
/// followed to its long form first, anything else is a text to search for.
pub open spec fn begun(api_key: Seq<char>, identifier: Seq<char>) -> ResolverView {
    if "http"@.is_prefix_of(identifier) {
        ResolverView::Expanding { request: plain_get(identifier), api_key }
    } else {
        looked_up(PlaceQueryView::ByText(identifier), api_key)
    }
}

/// The failure that an answer of the provider reports, where it reports one.
pub open spec fn reported_error(answer: JsonView) -> Option<PipelineErrorView> {
    match answer.member("error_message"@).as_text() {
        Some(message) => Some(
            failure(ErrorKind::UpstreamFailure, "Google Places API error: "@ + message),
        ),
        None => None,
    }
}

/// What an exchange with the provider yields before its content is looked
/// at: the answer, or the failure that the exchange or the answer reports.
pub open spec fn answer_of(exchange: ExchangeView) -> Result<JsonView, PipelineErrorView> {
    match exchange.document() {
        Err(reason) => Err(failure(ErrorKind::UpstreamFailure, reason)),
        Ok(answer) => match reported_error(answer) {
            Some(error) => Err(error),
            None => Ok(answer),
        },
    }
}

/// The identifier of the first candidate that a search has found.
pub open spec fn first_candidate(answer: JsonView) -> Option<Seq<char>> {
    answer.member("candidates"@).item(0).member("place_id"@).as_text()
}

/// How a resolution ends on the raw details of a place: details without a
/// name of their own are no place at all.
pub open spec fn concluded(details: JsonView) -> Result<PlaceDetailsView, PipelineErrorView> {
    if !renderable(details) {
        Err(failure(ErrorKind::UpstreamFailure, "Place details carry a negative price level"@))
    } else if normalized(details).name == sentinel_name() {
        Err(failure(ErrorKind::NotFound, "Place details not found: Unknown place"@))
    } else {
        Ok(normalized(details))
    }
}

impl ResolverView {
    /// The request this state waits on.
    pub open spec fn pending(self) -> Option<RequestView> {
        match self {
            ResolverView::Expanding { request, api_key } => Some(request),
            ResolverView::FindingPlace { request, api_key } => Some(request),
            ResolverView::FetchingDetails { request } => Some(request),
            ResolverView::Done(_) => None,
        }
    }

    /// The state that follows once `exchange` has answered the pending
    /// request.
    ///
    /// A link that cannot be followed ends the resolution as a network
    /// failure; one that can is read for the place's identity, which is put
    /// to the provider. A search that cannot be made or is refused ends it as
    /// an upstream failure, one without a candidate as not found; the first
    /// candidate's details are fetched. Details that cannot be fetched or are
    /// refused end it as an upstream failure; details that arrive are
    /// normalized. A finished resolution stays as it is.
    pub open spec fn advance(self, exchange: ExchangeView) -> ResolverView {
        match self {
            ResolverView::Expanding { request, api_key } => match expansion(exchange) {
                Err(error) => ResolverView::Done(Err(error)),
                Ok(url) => looked_up(extracted(url), api_key),
            },
            ResolverView::FindingPlace { request, api_key } => match answer_of(exchange) {
                Err(error) => ResolverView::Done(Err(error)),
                Ok(answer) => match first_candidate(answer) {
                    Some(place_id) => ResolverView::FetchingDetails {
                        request: details_by_place_id(api_key, place_id),
                    },
                    None => ResolverView::Done(
                        Err(failure(ErrorKind::NotFound, "No place_id found"@)),
                    ),
                },
            },
            ResolverView::FetchingDetails { request } => match answer_of(exchange) {
                Err(error) => ResolverView::Done(Err(error)),
                Ok(answer) => ResolverView::Done(concluded(answer.member("result"@))),
            },
            ResolverView::Done(outcome) => ResolverView::Done(outcome),
        }
    }
}

/// Details that normalize to the sentinel name end a resolution as not
/// found, and no resolution that ends well carries the sentinel name.
pub proof fn lemma_sentinel_is_not_found(details: JsonView)
    requires
        renderable(details),
    ensures
        normalized(details).name == sentinel_name() ==> concluded(details) == Err::<
            PlaceDetailsView,
            PipelineErrorView,
        >(failure(ErrorKind::NotFound, "Place details not found: Unknown place"@)),
        concluded(details) matches Ok(record) ==> record.name != sentinel_name(),
{
}

/// No step of a resolution arrives at a record that carries the sentinel
/// name.
pub proof fn lemma_resolved_place_is_named(state: ResolverView, exchange: ExchangeView)
    requires
        !(state is Done),
    ensures
        state.advance(exchange) matches ResolverView::Done(Ok(record)) ==> record.name
            != sentinel_name(),
{
}

/// The request for the details of the place with the given identifier.
pub fn get_details_by_ftid(api_key: &str, ftid: &str) -> (request: Request)
    ensures
        request@ == details_by_ftid(api_key@, ftid@),
{
    let mut url = "https://maps.googleapis.com/maps/api/place/details/json?ftid=".to_owned();
    url.append(ftid);
    url.append("&fields=name,formatted_address,website,price_level,address_component,photos,url&key=");
    url.append(api_key);
    Request::get(url)
}

/// The request for the details of the place that a search has found.
pub fn get_details_by_place_id(api_key: &str, place_id: &str) -> (request: Request)
    ensures
        request@ == details_by_place_id(api_key@, place_id@),
{
    let mut url = "https://maps.googleapis.com/maps/api/place/details/json?place_id=".to_owned();
    url.append(place_id);
    url.append("&fields=name,formatted_address,website,price_level,address_component,photos,url&key=");
    url.append(api_key);
    Request::get(url)
}

/// The request that searches for a place by text.
pub fn get_details_by_query(api_key: &str, query: &str) -> (request: Request)
    ensures
        request@ == find_place(api_key@, query@),
{
    let mut url =
        "https://maps.googleapis.com/maps/api/place/findplacefromtext/json?input=".to_owned();
    url.append(query);
    url.append("&inputtype=textquery&fields=place_id&key=");
    url.append(api_key);
    Request::get(url)
}

/// The state in which a query is put to the provider.
pub fn look_up(query: PlaceQuery, api_key: String) -> (state: Resolver)
    ensures
        state@ == looked_up(query@, api_key@),
{
    match query {
        PlaceQuery::ByIdentifier(id) => Resolver::FetchingDetails {
            request: get_details_by_ftid(api_key.as_str(), id.as_str()),
        },
        PlaceQuery::ByText(text) => Resolver::FindingPlace {
            request: get_details_by_query(api_key.as_str(), text.as_str()),
            api_key,
        },
    }
}

/// Begins the resolution of a reference: a link is followed to its long form
/// first, anything else is a text to search for.
pub fn get_place_details(api_key: &str, identifier: &str) -> (state: Resolver)
    ensures
        state@ == begun(api_key@, identifier@),
{
    if starts_with(identifier, "http") {
        Resolver::Expanding { request: expand_short_url(identifier), api_key: api_key.to_owned() }
    } else {
        look_up(PlaceQuery::ByText(identifier.to_owned()), api_key.to_owned())
    }
}

/// What an exchange with the provider yields before its content is looked
/// at.
pub fn answer_from(exchange: Exchange) -> (outcome: Result<Json, PipelineError>)
    ensures
        match outcome {
            Ok(answer) => answer_of(exchange@) == Ok::<JsonView, PipelineErrorView>(answer@),
            Err(error) => answer_of(exchange@) == Err::<JsonView, PipelineErrorView>(error@),
        },
{
    match exchange.into_document() {
        Err(reason) => Err(PipelineError { kind: ErrorKind::UpstreamFailure, message: reason }),
        Ok(answer) => {
            let reported = match answer.member_text("error_message") {
                Some(message) => Some(
                    PipelineError::with_detail(
                        ErrorKind::UpstreamFailure,
                        "Google Places API error: ",
                        message,
                    ),
                ),
                None => None,
            };
            match reported {
                Some(error) => Err(error),
                None => Ok(answer),
            }
        },
    }
}

/// The identifier of the first candidate that a search has found.
pub fn first_candidate_of(answer: &Json) -> (place_id: Option<String>)
    ensures
        place_id.deep_view() == first_candidate(answer@),
{
    let candidates = match answer.get("candidates") {
        Some(candidates) => candidates,
        None => {
            return None;
        },
    };
    let first = match candidates.at(0) {
        Some(first) => first,
        None => {
            return None;
        },
    };
    match first.member_text("place_id") {
        Some(place_id) => Some(place_id.to_owned()),
        None => None,
    }
}

/// Ends a resolution on the raw details of a place: normalizes them, and
/// refuses details that cannot be normalized or that carry no name of their
/// own.
pub fn conclude(details: &Json) -> (outcome: Result<PlaceDetails, PipelineError>)
    ensures
        resolution_view(outcome) == concluded(details@),
{
    if !can_normalize(details) {
        return Err(
            PipelineError::new(
                ErrorKind::UpstreamFailure,
                "Place details carry a negative price level",
            ),
        );
    }
    let record = process_place_details(details);
    if same_text(record.name.as_str(), "Unknown") {
        return Err(
            PipelineError::new(ErrorKind::NotFound, "Place details not found: Unknown place"),
        );
    }
    Ok(record)
}

/// Ends a resolution on the answer that holds the details of a place under
/// `result`.
fn conclude_on(answer: &Json) -> (outcome: Result<PlaceDetails, PipelineError>)
    ensures
        resolution_view(outcome) == concluded(answer@.member("result"@)),
{
    match answer.get("result") {
        Some(details) => conclude(details),
        None => conclude(&Json::Null),
    }
}

impl Resolver {
    /// The request this state waits on, if it waits on one.
    pub fn pending(&self) -> (request: Option<&Request>)
        ensures
            match request {
                Some(request) => self@.pending() == Some(request@),
                None => self@.pending() is None,
            },
    {
        match self {
            Resolver::Expanding { request, api_key } => Some(request),
            Resolver::FindingPlace { request, api_key } => Some(request),
            Resolver::FetchingDetails { request } => Some(request),
            Resolver::Done(_) => None,
        }
    }

    /// The state that follows once `exchange` has answered the pending
    /// request.
    pub fn advance(self, exchange: Exchange) -> (next: Resolver)
        ensures
            next@ == self@.advance(exchange@),
    {
        match self {
            Resolver::Expanding { request, api_key } => match expanded_url(exchange) {
                Err(error) => Resolver::Done(Err(error)),
                Ok(url) => look_up(extract_place_info(url.as_str()), api_key),
            },
            Resolver::FindingPlace { request, api_key } => match answer_from(exchange) {
                Err(error) => Resolver::Done(Err(error)),
                Ok(answer) => match first_candidate_of(&answer) {
                    Some(place_id) => Resolver::FetchingDetails {
                        request: get_details_by_place_id(api_key.as_str(), place_id.as_str()),
                    },
                    None => Resolver::Done(
                        Err(PipelineError::new(ErrorKind::NotFound, "No place_id found")),
                    ),
                },
            },
            Resolver::FetchingDetails { request } => match answer_from(exchange) {
                Err(error) => Resolver::Done(Err(error)),
                Ok(answer) => Resolver::Done(conclude_on(&answer)),
            },
            Resolver::Done(outcome) => Resolver::Done(outcome),
        }
    }
}

} // verus!
