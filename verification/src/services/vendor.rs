//! The work on one page of vendors: pacing, fetches and the assembly of the
//! records.

use crate::error::Error;
use crate::models::payload::{json_string_member, JsonText};
use crate::models::ratings::{decoded_ratings, Ratings, RatingsDistribution};
use crate::models::response::{
    decoded_details, decoded_reviews, is_malformed_body, ReviewsResponse, VendorDetailResponse,
};
use crate::models::vendor::Vendor;
use crate::services::api::{
    vendor_details_url, vendor_ratings_url, vendor_reviews_url, ApiService, Endpoint, Fetch,
};
use crate::utils::order::successor;
use vstd::prelude::*;

verus! {

/// Fixed part of the pause before each vendor, in milliseconds.
pub const ITEM_PAUSE_MS: u64 = 1500;

/// Bound of the random part of the pause before each vendor.
pub const ITEM_JITTER_MS: u64 = 1000;

/// Fixed part of the pause between the details of a vendor and its
/// enrichments, in milliseconds.
pub const FACET_PAUSE_MS: u64 = 800;

/// Bound of the random part of the pause before the enrichments.
pub const FACET_JITTER_MS: u64 = 400;

/// The name a vendor is shown under: the string that its details hold under
/// `name`, or `Unknown` where they hold none.
pub open spec fn display_name(details: Seq<char>) -> Seq<char> {
    match json_string_member(details, "name"@) {
        Some(name) => name,
        None => "Unknown"@,
    }
}

/// The reviews that the body of the reviews fetch gives: none where the
/// fetch failed or its body spells no reviews.
pub open spec fn reviews_from(body: Option<Vec<u8>>) -> Option<Seq<Seq<char>>> {
    match body {
        Some(bytes) => decoded_reviews(bytes@),
        None => None,
    }
}

/// The ratings that the body of the ratings fetch gives: none where the
/// fetch failed or its body spells no ratings distribution.
pub open spec fn ratings_from(body: Option<Vec<u8>>) -> Option<Ratings> {
    match body {
        Some(bytes) => decoded_ratings(bytes@),
        None => None,
    }
}

/// The later of the two moments.
pub open spec fn not_before(moment: i64, earliest: i64) -> i64 {
    if moment < earliest {
        earliest
    } else {
        moment
    }
}

/// Where the work on the current vendor of a batch stands.
#[derive(Debug)]
pub enum Phase {
    /// The pause before the vendor is running.
    Pacing,
    /// The details are being fetched.
    Detail { started_at: i64 },
    /// The details are here; reviews and ratings are being fetched.
    Facets { started_at: i64, details: JsonText },
    /// The record is being written to the sink.
    Writing,
    /// Every vendor of the batch has been written.
    Done,
    /// The batch was given up.
    Failed,
}

/// The state of the work on one page of vendors.
#[derive(Debug)]
pub struct BatchState {
    /// The keys of the page, in the order of the page.
    pub codes: Vec<String>,
    /// The number of the page, counted from one.
    pub batch_number: i32,
    /// The index of the vendor in work; the vendors before it are written.
    pub position: usize,
    pub phase: Phase,
}

impl BatchState {
    /// The vendor in work is one of the page, unless the batch has ended.
    pub open spec fn wf(self) -> bool {
        match self.phase {
            Phase::Done => self.position == self.codes@.len(),
            Phase::Failed => self.position <= self.codes@.len(),
            _ => self.position < self.codes@.len(),
        }
    }

    /// Tells whether the state is one that the batch can be in.
    pub fn is_valid(&self) -> (yes: bool)
        ensures
            yes == self.wf(),
    {
        match self.phase {
            Phase::Done => self.position == self.codes.len(),
            Phase::Failed => self.position <= self.codes.len(),
            _ => self.position < self.codes.len(),
        }
    }

    /// Whether `event` is the one that the batch waits for.
    pub open spec fn awaits(self, event: BatchEvent) -> bool {
        match self.phase {
            Phase::Pacing => event is Resumed,
            Phase::Detail { .. } => event is DetailFetched || event is DetailFailed,
            Phase::Facets { .. } => event is FacetsFetched,
            Phase::Writing => event is Written || event is WriteFailed,
            Phase::Done => false,
            Phase::Failed => false,
        }
    }

    /// Tells whether `event` is the one that the batch waits for.
    pub fn expects(&self, event: &BatchEvent) -> (yes: bool)
        ensures
            yes == self.awaits(*event),
    {
        match self.phase {
            Phase::Pacing => matches!(event, BatchEvent::Resumed { .. }),
            Phase::Detail { .. } => matches!(event, BatchEvent::DetailFetched { .. })
                || matches!(event, BatchEvent::DetailFailed(_)),
            Phase::Facets { .. } => matches!(event, BatchEvent::FacetsFetched { .. }),
            Phase::Writing => matches!(event, BatchEvent::Written) || matches!(
                event,
                BatchEvent::WriteFailed(_)
            ),
            Phase::Done => false,
            Phase::Failed => false,
        }
    }
}

/// What the surroundings report to the batch.
#[derive(Debug)]
pub enum BatchEvent {
    /// The pause is over; `now` is the time in seconds since the epoch.
    Resumed { now: i64 },
    /// The fetch of the details has ended without failure: with a body, or
    /// with nothing where the service has no data.
    DetailFetched { body: Option<Vec<u8>>, now: i64 },
    /// The fetch of the details has failed.
    DetailFailed(Error),
    /// Both enrichment fetches have ended, each with its body, or with
    /// nothing where it failed.
    FacetsFetched { reviews: Option<Vec<u8>>, ratings: Option<Vec<u8>>, now: i64 },
    /// The record has been handed to the sink.
    Written,
    /// The sink did not take the record, or what it handed back could not
    /// be written.
    WriteFailed(Error),
}

/// What the batch asks of the surroundings.
#[derive(Debug)]
pub enum BatchAction {
    /// Pause, then report `Resumed`.
    Pause { base_ms: u64, jitter_ms: u64 },
    /// Carry out the fetch, then report its result.
    FetchDetails(Fetch),
    /// Pause, carry out both fetches side by side and wait for both, then
    /// report `FacetsFetched`.
    FetchFacets { base_ms: u64, jitter_ms: u64, reviews: Fetch, ratings: Fetch },
    /// Append the record to the sink, then report `Written`.
    Write(Vendor),
    /// The batch is complete.
    Finish,
    /// The batch is given up with this failure.
    Abort(Error),
}

/// The sequencing of the requests for the vendors of a page, and the
/// assembly of their records.
pub struct VendorService {
    api_service: ApiService,
}

impl VendorService {
    /// The service that the requests are made through.
    pub closed spec fn api(self) -> ApiService {
        self.api_service
    }

    /// A service that makes its requests through `api_service`.
    pub fn new(api_service: ApiService) -> (service: VendorService)
        ensures
            service.api() == api_service,
    {
        VendorService { api_service }
    }

    /// The service that the requests are made through.
    pub fn api_service(&self) -> (api: &ApiService)
        ensures
            *api == self.api(),
    {
        &self.api_service
    }

    /// The record of a vendor that the service has no data for.
    pub fn soft_miss_record(code: String, batch_number: i32, started_at: i64, now: i64) -> (vendor:
        Vendor)
        ensures
            vendor.wf(),
            vendor.is_soft_miss(),
            vendor.code == code,
            vendor.batch_number == batch_number,
            vendor.extraction_started_at == started_at,
            vendor.extraction_completed_at == not_before(now, started_at),
    {
        Vendor {
            code,
            name: String::from_str("Unknown"),
            details: None,
            batch_number,
            reviews: None,
            ratings: None,
            extraction_started_at: started_at,
            extraction_completed_at: if now < started_at {
                started_at
            } else {
                now
            },
        }
    }

    /// The record of a vendor whose details are here. Its name is the one
    /// the details give, and an enrichment that could not be had is absent.
    pub fn full_record(
        code: String,
        details: JsonText,
        batch_number: i32,
        reviews: Option<Vec<JsonText>>,
        ratings: Option<RatingsDistribution>,
        started_at: i64,
        now: i64,
    ) -> (vendor: Vendor)
        ensures
            vendor.wf(),
            vendor.code == code,
            vendor.name@ == display_name(details@),
            vendor.details == Some(details),
            vendor.batch_number == batch_number,
            vendor.reviews == reviews,
            vendor.ratings == ratings,
            vendor.extraction_started_at == started_at,
            vendor.extraction_completed_at == not_before(now, started_at),
    {
        let name = match details.string_member("name") {
            Some(name) => name,
            None => String::from_str("Unknown"),
        };
        Vendor {
            code,
            name,
            details: Some(details),
            batch_number,
            reviews,
            ratings,
            extraction_started_at: started_at,
            extraction_completed_at: if now < started_at {
                started_at
            } else {
                now
            },
        }
    }

    /// Begins the work on a page of vendors: an empty page is complete at
    /// once, any other begins with the pause before its first vendor.
    pub fn begin_batch(&self, vendor_codes: Vec<String>, batch_number: i32) -> (started: (
        BatchState,
        BatchAction,
    ))
        ensures
            started.0.wf(),
            started.0.codes == vendor_codes,
            started.0.batch_number == batch_number,
            started.0.position == 0,
            vendor_codes@.len() == 0 ==> started.0.phase is Done && started.1 is Finish,
            vendor_codes@.len() > 0 ==> started.0.phase is Pacing && started.1 == (
            BatchAction::Pause { base_ms: ITEM_PAUSE_MS, jitter_ms: ITEM_JITTER_MS }),
    {
        if vendor_codes.len() == 0 {
            (
                BatchState { codes: vendor_codes, batch_number, position: 0, phase: Phase::Done },
                BatchAction::Finish,
            )
        } else {
            (
                BatchState { codes: vendor_codes, batch_number, position: 0, phase: Phase::Pacing },
                BatchAction::Pause { base_ms: ITEM_PAUSE_MS, jitter_ms: ITEM_JITTER_MS },
            )
        }
    }

    /// Takes the event that the batch waits for and says what to do next.
    ///
    /// The vendors are worked on one after the other, in the order of the
    /// page. For each: a pause; the fetch of the details, before which the
    /// start of the extraction is taken; then, where there are details, a
    /// shorter pause and the fetch of reviews and ratings side by side,
    /// after which the end of the extraction is taken and the full record is
    /// written; where the service has no data, the minimal record is written
    /// and no enrichment is fetched. A failed fetch of the details gives up
    /// the batch with that failure, and so does a body that spells no
    /// details. An enrichment whose fetch failed, or whose body cannot be
    /// read, is absent from the record. A record that the sink did not take
    /// gives up the batch with the failure of the sink, so that a batch that
    /// ends as complete has handed every one of its records to the sink.
    pub fn process_vendor_batch(&self, state: &mut BatchState, event: BatchEvent) -> (action:
        BatchAction)
        requires
            old(state).wf(),
            old(state).awaits(event),
        ensures
            final(state).wf(),
            final(state).codes == old(state).codes,
            final(state).batch_number == old(state).batch_number,
            match (old(state).phase, event) {
                (Phase::Pacing, BatchEvent::Resumed { now }) => {
                    &&& final(state).position == old(state).position
                    &&& final(state).phase == (Phase::Detail { started_at: now })
                    &&& action matches BatchAction::FetchDetails(fetch)
                    &&& fetch.endpoint == Endpoint::Details
                    &&& fetch.url@ == vendor_details_url(
                        old(state).codes@[old(state).position as int]@,
                    )
                    &&& fetch.attempt == 1
                    &&& self.api().admits(fetch)
                },
                (
                    Phase::Detail { started_at },
                    BatchEvent::DetailFetched { body: Some(body), now },
                ) => match decoded_details(body@) {
                    None => {
                        &&& final(state).position == old(state).position
                        &&& final(state).phase is Failed
                        &&& action matches BatchAction::Abort(failure)
                        &&& is_malformed_body(failure, body@)
                    },
                    Some(payload) => {
                        &&& final(state).position == old(state).position
                        &&& final(state).phase matches Phase::Facets { started_at: began, details }
                        &&& began == started_at
                        &&& details@ == payload
                        &&& action matches BatchAction::FetchFacets {
                            base_ms,
                            jitter_ms,
                            reviews,
                            ratings,
                        }
                        &&& base_ms == FACET_PAUSE_MS
                        &&& jitter_ms == FACET_JITTER_MS
                        &&& reviews.endpoint == Endpoint::Reviews
                        &&& reviews.url@ == vendor_reviews_url(
                            old(state).codes@[old(state).position as int]@,
                        )
                        &&& reviews.attempt == 1
                        &&& self.api().admits(reviews)
                        &&& ratings.endpoint == Endpoint::Ratings
                        &&& ratings.url@ == vendor_ratings_url(
                            old(state).codes@[old(state).position as int]@,
                        )
                        &&& ratings.attempt == 1
                        &&& self.api().admits(ratings)
                    },
                },
                (Phase::Detail { started_at }, BatchEvent::DetailFetched { body: None, now }) => {
                    &&& final(state).position == old(state).position
                    &&& final(state).phase is Writing
                    &&& action matches BatchAction::Write(vendor)
                    &&& vendor.wf()
                    &&& vendor.is_soft_miss()
                    &&& vendor.code == old(state).codes@[old(state).position as int]
                    &&& vendor.batch_number == old(state).batch_number
                    &&& vendor.extraction_started_at == started_at
                    &&& vendor.extraction_completed_at == not_before(now, started_at)
                },
                (Phase::Detail { .. }, BatchEvent::DetailFailed(failure)) => {
                    &&& final(state).position == old(state).position
                    &&& final(state).phase is Failed
                    &&& action == BatchAction::Abort(failure)
                },
                (
                    Phase::Facets { started_at, details },
                    BatchEvent::FacetsFetched { reviews, ratings, now },
                ) => {
                    &&& final(state).position == old(state).position
                    &&& final(state).phase is Writing
                    &&& action matches BatchAction::Write(vendor)
                    &&& vendor.wf()
                    &&& vendor.code == old(state).codes@[old(state).position as int]
                    &&& vendor.name@ == display_name(details@)
                    &&& vendor.details == Some(details)
                    &&& vendor.batch_number == old(state).batch_number
                    &&& vendor.record().reviews == reviews_from(reviews)
                    &&& vendor.record().ratings == ratings_from(ratings)
                    &&& vendor.extraction_started_at == started_at
                    &&& vendor.extraction_completed_at == not_before(now, started_at)
                },
                (Phase::Writing, BatchEvent::WriteFailed(failure)) => {
                    &&& final(state).position == old(state).position
                    &&& final(state).phase is Failed
                    &&& action == BatchAction::Abort(failure)
                },
                (Phase::Writing, BatchEvent::Written) => match successor(
                    old(state).position as int,
                    old(state).codes@.len() as int,
                ) {
                    Some(next) => {
                        &&& final(state).position == next
                        &&& final(state).phase is Pacing
                        &&& action == (BatchAction::Pause {
                            base_ms: ITEM_PAUSE_MS,
                            jitter_ms: ITEM_JITTER_MS,
                        })
                    },
                    None => {
                        &&& final(state).position == old(state).codes@.len()
                        &&& final(state).phase is Done
                        &&& action is Finish
                    },
                },
                _ => false,
            },
    {
        let mut phase = Phase::Failed;
        std::mem::swap(&mut state.phase, &mut phase);
        match (phase, event) {
            (Phase::Pacing, BatchEvent::Resumed { now }) => {
                let fetch = self.api_service.fetch_vendor_details(
                    state.codes[state.position].as_str(),
                );
                state.phase = Phase::Detail { started_at: now };
                BatchAction::FetchDetails(fetch)
            },
            (Phase::Detail { started_at }, BatchEvent::DetailFetched { body, now }) => {
                match body {
                    Some(body) => match VendorDetailResponse::decode(body.as_slice()) {
                        Ok(response) => {
                            let code = state.codes[state.position].as_str();
                            let reviews = self.api_service.fetch_vendor_reviews(code);
                            let ratings = self.api_service.fetch_vendor_ratings(code);
                            state.phase = Phase::Facets { started_at, details: response.data };
                            BatchAction::FetchFacets {
                                base_ms: FACET_PAUSE_MS,
                                jitter_ms: FACET_JITTER_MS,
                                reviews,
                                ratings,
                            }
                        },
                        Err(malformed) => BatchAction::Abort(malformed),
                    },
                    None => {
                        let code = state.codes[state.position].clone();
                        state.phase = Phase::Writing;
                        BatchAction::Write(
                            Self::soft_miss_record(code, state.batch_number, started_at, now),
                        )
                    },
                }
            },
            (Phase::Detail { .. }, BatchEvent::DetailFailed(failure)) => {
                BatchAction::Abort(failure)
            },
            (Phase::Facets { started_at, details }, BatchEvent::FacetsFetched { reviews, ratings, now }) => {
                let code = state.codes[state.position].clone();
                let reviews = match reviews {
                    Some(body) => match ReviewsResponse::decode(body.as_slice()) {
                        Ok(response) => Some(response.data),
                        Err(_) => None,
                    },
                    None => None,
                };
                let ratings = match ratings {
                    Some(body) => match RatingsDistribution::decode(body.as_slice()) {
                        Ok(distribution) => Some(distribution),
                        Err(_) => None,
                    },
                    None => None,
                };
                state.phase = Phase::Writing;
                BatchAction::Write(
                    Self::full_record(
                        code,
                        details,
                        state.batch_number,
                        reviews,
                        ratings,
                        started_at,
                        now,
                    ),
                )
            },
            (Phase::Writing, BatchEvent::WriteFailed(failure)) => BatchAction::Abort(failure),
            (Phase::Writing, BatchEvent::Written) => {
                let count: usize = state.codes.len();
                state.position = state.position + 1;
                if state.position < count {
                    state.phase = Phase::Pacing;
                    BatchAction::Pause { base_ms: ITEM_PAUSE_MS, jitter_ms: ITEM_JITTER_MS }
                } else {
                    state.phase = Phase::Done;
                    BatchAction::Finish
                }
            },
            _ => vstd::pervasive::unreached(),
        }
    }
}

} // verus!
