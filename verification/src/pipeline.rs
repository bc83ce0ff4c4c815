//! The whole path of one request: from a location reference to a stored
//! record.

use crate::cloudinary::{
    cover_request, cover_url, current_timestamp, missing_photo_warning, upload_image_at,
    upload_warning, upload_warning_of, uploaded_url,
};
use crate::config::{Config, ConfigView};
use crate::error::{PipelineError, PipelineErrorView};
use crate::google_places::{
    begun, failure, get_place_details, lemma_resolved_place_is_named, sentinel_name, PlaceDetails,
    PlaceDetailsView, Resolver, ResolverView,
};
use crate::http::{Exchange, ExchangeView, Request, RequestView};
use crate::notion::{
    create_or_update_entry, create_request, existing_entry, is_success, outcome_view,
    query_request, Upsert, UpsertOutcome, UpsertView,
};
use crate::utils::{refusal_message, sanitized, validate_and_sanitize_url};
use crate::yelp::{
    classified, cuisine_from, get_cuisine_type, search_request, search_warning, search_warning_of,
    unknown_cuisine,
};
use vstd::prelude::*;
use vstd::string::*;

verus! {

/// A resolved place together with what enrichment added to it.
#[derive(Clone, Debug, PartialEq, Eq)]
pub struct RestaurantDetails {
    pub name: String,
    pub website: String,
    pub price_level: String,
    pub city: String,
    pub country: String,
    pub google_maps_link: String,
    pub address: String,
    pub cuisine_type: String,
    pub photo_reference: Option<String>,
}

/// The mathematical value of a [`RestaurantDetails`].
#[verifier::ext_equal]
pub ghost struct RestaurantDetailsView {
    pub name: Seq<char>,
    pub website: Seq<char>,
    pub price_level: Seq<char>,
    pub city: Seq<char>,
    pub country: Seq<char>,
    pub google_maps_link: Seq<char>,
    pub address: Seq<char>,
    pub cuisine_type: Seq<char>,
    pub photo_reference: Option<Seq<char>>,
}

impl View for RestaurantDetails {
    type V = RestaurantDetailsView;

    open spec fn view(&self) -> RestaurantDetailsView {
        RestaurantDetailsView {
            name: self.name@,
            website: self.website@,
            price_level: self.price_level@,
            city: self.city@,
            country: self.country@,
            google_maps_link: self.google_maps_link@,
            address: self.address@,
            cuisine_type: self.cuisine_type@,
            photo_reference: self.photo_reference.deep_view(),
        }
    }
}

/// Where one request stands. Each stage that waits for an answer holds the
/// request it waits on.
#[derive(Debug, PartialEq, Eq)]
pub enum Stage {
    /// Resolving the reference to a place.
    Resolving(Resolver),
    /// Handing the place's photo to the image host.
    UploadingCover { request: Request, details: PlaceDetails },
    /// Asking the business directory for the place's cuisine.
    ClassifyingCuisine { request: Request, details: PlaceDetails, cover_url: Option<String> },
    /// Writing the record to the store.
    Persisting(Upsert),
    /// Over.
    Done(Result<UpsertOutcome, PipelineError>),
}

/// The mathematical value of a [`Stage`].
#[verifier::ext_equal]
pub ghost enum StageView {
    Resolving(ResolverView),
    UploadingCover { request: RequestView, details: PlaceDetailsView },
    ClassifyingCuisine {
        request: RequestView,
        details: PlaceDetailsView,
        cover_url: Option<Seq<char>>,
    },
    Persisting(UpsertView),
    Done(Result<UpsertOutcome, PipelineErrorView>),
}

impl View for Stage {
    type V = StageView;

    open spec fn view(&self) -> StageView {
        match self {
            Stage::Resolving(resolver) => StageView::Resolving(resolver@),
            Stage::UploadingCover { request, details } => StageView::UploadingCover {
                request: request@,
                details: details@,
            },
            Stage::ClassifyingCuisine { request, details, cover_url } => {
                StageView::ClassifyingCuisine {
                    request: request@,
                    details: details@,
                    cover_url: cover_url.deep_view(),
                }
            },
            Stage::Persisting(upsert) => StageView::Persisting(upsert@),
            Stage::Done(outcome) => StageView::Done(outcome_view(*outcome)),
        }
    }
}

/// One request on its way: the credentials it works with, the stage it has
/// reached, and the warnings that enrichment has left behind so far, for the
/// driver to log.
#[derive(Debug, PartialEq, Eq)]
pub struct Pipeline {
    pub config: Config,
    pub stage: Stage,
    pub warnings: Vec<String>,
}

/// The mathematical value of a [`Pipeline`].
#[verifier::ext_equal]
pub ghost struct PipelineView {
    pub config: ConfigView,
    pub stage: StageView,
    pub warnings: Seq<Seq<char>>,
}

impl View for Pipeline {
    type V = PipelineView;

    open spec fn view(&self) -> PipelineView {
        PipelineView {
            config: self.config@,
            stage: self.stage@,
            warnings: self.warnings.deep_view(),
        }
    }
}

/// The record of a place with its cuisine added.
pub open spec fn enriched(details: PlaceDetailsView, cuisine: Seq<char>) -> RestaurantDetailsView {
    RestaurantDetailsView {
        name: details.name,
        website: details.website,
        price_level: details.price_level,
        city: details.city,
        country: details.country,
        google_maps_link: details.google_maps_link,
        address: details.address,
        cuisine_type: cuisine,
        photo_reference: details.photo_reference,
    }
}

/// The stage that asks for the cuisine of a place.
pub open spec fn classifying(
    config: ConfigView,
    details: PlaceDetailsView,
    cover_url: Option<Seq<char>>,
) -> StageView {
    StageView::ClassifyingCuisine {
        request: search_request(config.yelp_api_key, details.name, details.city),
        details,
        cover_url,
    }
}

/// The stage that begins the write of a record.
pub open spec fn persisting(
    config: ConfigView,
    record: RestaurantDetailsView,
    cover_url: Option<Seq<char>>,
) -> StageView {
    StageView::Persisting(
        UpsertView::Querying {
            request: query_request(config.notion_api_key, config.notion_database_id, record.name),
            create: create_request(
                config.notion_api_key,
                config.notion_database_id,
                record,
                cover_url,
            ),
        },
    )
}

/// The stage that a resolution leads to: the request ends with a resolution
/// that failed, and goes on to enrichment with one that found a place; the
/// cover upload is skipped for a place without a photo.
pub open spec fn after_resolution(config: ConfigView, resolver: ResolverView, now: int) -> StageView {
    match resolver {
        ResolverView::Done(Err(error)) => StageView::Done(Err(error)),
        ResolverView::Done(Ok(details)) => match cover_request(
            config.cloudinary,
            config.google_api_key,
            details.photo_reference,
            now,
        ) {
            Some(request) => StageView::UploadingCover { request, details },
            None => classifying(config, details, None),
        },
        _ => StageView::Resolving(resolver),
    }
}

/// The stage that a write leads to: the request ends when the write does.
pub open spec fn after_upsert(upsert: UpsertView) -> StageView {
    match upsert {
        UpsertView::Done(outcome) => StageView::Done(outcome),
        _ => StageView::Persisting(upsert),
    }
}

/// The stage in which a request for the given reference begins: over at once
/// where the reference is refused, and resolving the sanitized reference
/// otherwise.
pub open spec fn started(config: ConfigView, reference: Seq<char>) -> StageView {
    match sanitized(reference) {
        Err(kind) => StageView::Done(Err(failure(kind, refusal_message(kind)))),
        Ok(url) => StageView::Resolving(begun(config.google_api_key, url)),
    }
}

impl StageView {
    /// The request this stage waits on.
    pub open spec fn pending(self) -> Option<RequestView> {
        match self {
            StageView::Resolving(resolver) => resolver.pending(),
            StageView::UploadingCover { request, details } => Some(request),
            StageView::ClassifyingCuisine { request, details, cover_url } => Some(request),
            StageView::Persisting(upsert) => upsert.pending(),
            StageView::Done(_) => None,
        }
    }

    /// The stage that follows once `exchange` has answered the pending
    /// request, where the clock reads `now`.
    ///
    /// Resolving and persisting go by their own steps. In between, whatever
    /// comes back for the cover upload and for the cuisine search is taken
    /// for what it gives, and the request goes on. A finished request stays
    /// as it is.
    pub open spec fn advance(self, config: ConfigView, exchange: ExchangeView, now: int) -> StageView {
        match self {
            StageView::Resolving(resolver) => after_resolution(
                config,
                resolver.advance(exchange),
                now,
            ),
            StageView::UploadingCover { request, details } => classifying(
                config,
                details,
                uploaded_url(exchange),
            ),
            StageView::ClassifyingCuisine { request, details, cover_url } => persisting(
                config,
                enriched(details, classified(exchange)),
                cover_url,
            ),
            StageView::Persisting(upsert) => after_upsert(upsert.advance(exchange)),
            StageView::Done(outcome) => StageView::Done(outcome),
        }
    }
}

impl StageView {
    /// The warning that the step on `exchange` leaves behind: what kept
    /// enrichment from giving a cover or a cuisine, where something did. No
    /// other step leaves one.
    pub open spec fn warning(self, exchange: ExchangeView) -> Option<Seq<char>> {
        match self {
            StageView::Resolving(resolver) => match resolver.advance(exchange) {
                ResolverView::Done(Ok(details)) => if details.photo_reference is None {
                    Some(missing_photo_warning())
                } else {
                    None
                },
                _ => None,
            },
            StageView::UploadingCover { request, details } => upload_warning(exchange),
            StageView::ClassifyingCuisine { request, details, cover_url } => search_warning(
                exchange,
                details.name,
                details.city,
            ),
            _ => None,
        }
    }
}

impl PipelineView {
    /// The request that follows once `exchange` has answered the pending
    /// request, where the clock reads `now`: the stage that follows, and the
    /// warnings so far with the one of this step added.
    pub open spec fn advance(self, exchange: ExchangeView, now: int) -> PipelineView {
        PipelineView {
            config: self.config,
            stage: self.stage.advance(self.config, exchange, now),
            warnings: match self.stage.warning(exchange) {
                Some(warning) => self.warnings.push(warning),
                None => self.warnings,
            },
        }
    }
}

/// A resolution that fails ends the request with that failure, and a place
/// goes on to enrichment only under a name of its own: the sentinel name
/// never leaves the resolver.
pub proof fn lemma_only_named_places_go_on(
    resolver: ResolverView,
    config: ConfigView,
    exchange: ExchangeView,
    now: int,
)
    requires
        !(resolver is Done),
    ensures
        resolver.advance(exchange) matches ResolverView::Done(Err(error)) ==> StageView::Resolving(
            resolver,
        ).advance(config, exchange, now) == StageView::Done(Err(error)),
        StageView::Resolving(resolver).advance(config, exchange, now) matches StageView::UploadingCover {
            request,
            details,
        } ==> details.name != sentinel_name(),
        StageView::Resolving(resolver).advance(
            config,
            exchange,
            now,
        ) matches StageView::ClassifyingCuisine { request, details, cover_url } ==> details.name
            != sentinel_name(),
{
    lemma_resolved_place_is_named(resolver, exchange);
}

/// Nothing that comes back for the cover upload or for the cuisine search
/// ends the request: after the upload the cuisine is asked for, with the
/// cover that the exchange gave or none; after the search the record is
/// written, with the cuisine that the exchange gave or the unknown marker.
/// An upload that gave no cover and any exchange that failed leave a warning
/// behind.
pub proof fn lemma_enrichment_never_aborts(
    stage: StageView,
    config: ConfigView,
    exchange: ExchangeView,
    now: int,
)
    requires
        stage is UploadingCover || stage is ClassifyingCuisine,
    ensures
        !(stage.advance(config, exchange, now) is Done),
        stage.advance(config, exchange, now).pending() is Some,
        stage matches StageView::UploadingCover { request, details } ==> stage.advance(
            config,
            exchange,
            now,
        ) == classifying(config, details, uploaded_url(exchange)),
        stage matches StageView::ClassifyingCuisine { request, details, cover_url }
            ==> stage.advance(config, exchange, now) == persisting(
            config,
            enriched(details, classified(exchange)),
            cover_url,
        ),
        exchange is Failed ==> uploaded_url(exchange) is None && classified(exchange)
            == unknown_cuisine(),
        stage is UploadingCover && uploaded_url(exchange) is None ==> stage.warning(exchange)
            is Some,
        exchange is Failed ==> stage.warning(exchange) is Some,
{
}

/// Where the store answers that it holds a record of the name, the request
/// ends as a success with nothing written, and nothing is pending after it.
pub proof fn lemma_existing_record_is_kept(
    request: RequestView,
    create: RequestView,
    config: ConfigView,
    exchange: ExchangeView,
    now: int,
)
    requires
        exchange matches ExchangeView::Answered(reply) && is_success(reply.status),
        exchange.document() matches Ok(answer) && existing_entry(answer) is Some,
    ensures
        StageView::Persisting(UpsertView::Querying { request, create }).advance(
            config,
            exchange,
            now,
        ) == StageView::Done(Ok(UpsertOutcome::AlreadyPresent)),
        StageView::Persisting(UpsertView::Querying { request, create }).advance(
            config,
            exchange,
            now,
        ).pending() is None,
{
}

/// The request that creates a record becomes pending only on the answer to a
/// query that found no record of the name.
pub proof fn lemma_create_only_after_a_miss(
    stage: StageView,
    config: ConfigView,
    exchange: ExchangeView,
    now: int,
)
    requires
        stage.advance(config, exchange, now) matches StageView::Persisting(upsert)
            && upsert is Creating,
    ensures
        stage matches StageView::Persisting(UpsertView::Querying { request, create })
            && stage.advance(config, exchange, now) == StageView::Persisting(
            UpsertView::Creating { request: create },
        ),
        exchange.document() matches Ok(answer) && existing_entry(answer) is None,
{
}

/// The record of a place with its cuisine added.
pub fn enrich(details: PlaceDetails, cuisine_type: String) -> (record: RestaurantDetails)
    ensures
        record@ == enriched(details@, cuisine_type@),
{
    RestaurantDetails {
        name: details.name,
        website: details.website,
        price_level: details.price_level,
        city: details.city,
        country: details.country,
        google_maps_link: details.google_maps_link,
        address: details.address,
        cuisine_type,
        photo_reference: details.photo_reference,
    }
}

/// The stage that asks for the cuisine of a place.
fn classify(config: &Config, details: PlaceDetails, cover_url: Option<String>) -> (stage: Stage)
    ensures
        stage@ == classifying(config@, details@, cover_url.deep_view()),
{
    let request = get_cuisine_type(
        config.yelp_api_key.as_str(),
        details.name.as_str(),
        details.city.as_str(),
    );
    Stage::ClassifyingCuisine { request, details, cover_url }
}

/// The stage that a resolution leads to, and the warning that goes with a
/// place without a photo.
fn follow_resolution(config: &Config, resolver: Resolver, now: i64) -> (next: (
    Stage,
    Option<String>,
))
    ensures
        next.0@ == after_resolution(config@, resolver@, now as int),
        next.1.deep_view() == match resolver@ {
            ResolverView::Done(Ok(details)) => if details.photo_reference is None {
                Some(missing_photo_warning())
            } else {
                None
            },
            _ => None,
        },
{
    match resolver {
        Resolver::Done(Err(error)) => (Stage::Done(Err(error)), None),
        Resolver::Done(Ok(details)) => {
            match upload_image_at(
                &config.cloudinary,
                config.google_api_key.as_str(),
                &details.photo_reference,
                now,
            ) {
                Some(request) => (Stage::UploadingCover { request, details }, None),
                None => (
                    classify(config, details, None),
                    Some("Failed to upload image: No photo reference provided".to_owned()),
                ),
            }
        },
        other => (Stage::Resolving(other), None),
    }
}

/// The stage that a write leads to.
fn follow_upsert(upsert: Upsert) -> (stage: Stage)
    ensures
        stage@ == after_upsert(upsert@),
{
    match upsert {
        Upsert::Done(outcome) => Stage::Done(outcome),
        other => Stage::Persisting(other),
    }
}

/// Begins the request for a location reference: sanitizes the reference and,
/// unless it is refused, sets out to resolve it.
pub fn add_restaurant(config: Config, reference: &str) -> (pipeline: Pipeline)
    ensures
        pipeline@ == (PipelineView {
            config: config@,
            stage: started(config@, reference@),
            warnings: Seq::empty(),
        }),
{
    let stage = match validate_and_sanitize_url(reference) {
        Err(error) => Stage::Done(Err(error)),
        Ok(url) => Stage::Resolving(get_place_details(config.google_api_key.as_str(), url.as_str())),
    };
    Pipeline { config, stage, warnings: Vec::new() }
}

impl Pipeline {
    /// The request that the driver is to send next, if the pipeline waits on
    /// one.
    pub fn pending(&self) -> (request: Option<&Request>)
        ensures
            match request {
                Some(request) => self@.stage.pending() == Some(request@),
                None => self@.stage.pending() is None,
            },
    {
        match &self.stage {
            Stage::Resolving(resolver) => resolver.pending(),
            Stage::UploadingCover { request, details } => Some(request),
            Stage::ClassifyingCuisine { request, details, cover_url } => Some(request),
            Stage::Persisting(upsert) => upsert.pending(),
            Stage::Done(_) => None,
        }
    }

    /// How the request ended, once it is over.
    pub fn outcome(&self) -> (outcome: Option<&Result<UpsertOutcome, PipelineError>>)
        ensures
            match outcome {
                Some(end) => self@.stage == StageView::Done(outcome_view(*end)),
                None => !(self@.stage is Done),
            },
    {
        match &self.stage {
            Stage::Done(outcome) => Some(outcome),
            _ => None,
        }
    }

    /// The pipeline after `exchange` has answered the pending request, where
    /// the clock reads `now` seconds since the epoch.
    pub fn advance_at(self, exchange: Exchange, now: i64) -> (next: Pipeline)
        ensures
            next@ == self@.advance(exchange@, now as int),
    {
        let Pipeline { config, stage, warnings } = self;
        let mut warnings = warnings;
        let (stage, warning) = match stage {
            Stage::Resolving(resolver) => follow_resolution(&config, resolver.advance(exchange), now),
            Stage::UploadingCover { request, details } => {
                let warning = upload_warning_of(&exchange);
                let cover = cover_url(exchange);
                (classify(&config, details, cover), warning)
            },
            Stage::ClassifyingCuisine { request, details, cover_url } => {
                let warning = search_warning_of(
                    &exchange,
                    details.name.as_str(),
                    details.city.as_str(),
                );
                let record = enrich(details, cuisine_from(exchange));
                (
                    Stage::Persisting(
                        create_or_update_entry(
                            config.notion_api_key.as_str(),
                            config.notion_database_id.as_str(),
                            &record,
                            &cover_url,
                        ),
                    ),
                    warning,
                )
            },
            Stage::Persisting(upsert) => (follow_upsert(upsert.advance(exchange)), None),
            Stage::Done(outcome) => (Stage::Done(outcome), None),
        };
        if let Some(text) = warning {
            let ghost before = warnings.deep_view();
            warnings.push(text);
            assert(warnings.deep_view() =~= before.push(text@));
        }
        Pipeline { config, stage, warnings }
    }

    /// The pipeline after `exchange` has answered the pending request: the
    /// step that `advance_at` takes for some reading of the clock.
    pub fn advance(self, exchange: Exchange) -> (next: Pipeline)
        ensures
            exists|now: i64| next@ == self@.advance(exchange@, now as int),
    {
        let now = current_timestamp();
        self.advance_at(exchange, now)
    }
}

} // verus!
