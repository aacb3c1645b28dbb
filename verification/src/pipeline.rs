//! The course of a run: from the first page of the listing to the delivery
//! of the artifact.

use crate::error::Error;
use crate::models::response::{decoded_page, is_malformed_body, malformed_body, VendorListResponse};
use crate::text::{push_underscored, underscored};
use crate::utils::math::{ceil_div, lemma_ceil_div_is_least};
use crate::utils::order::{lemma_visits_every_item_once, successor, visits_from};
use vstd::arithmetic::div_mod::lemma_div_is_ordered_by_denominator;
use vstd::prelude::*;

verus! {

/// The number of vendors asked for with the first page.
pub const FIRST_PAGE_LIMIT: i32 = 48;

/// Fixed part of the pause between two pages, in milliseconds.
pub const PAGE_PAUSE_MS: u64 = 2000;

/// Bound of the random part of the pause between two pages.
pub const PAGE_JITTER_MS: u64 = 1000;

/// The name of the log file of a run.
pub open spec fn log_filename(timestamp: Seq<char>, user_login: Seq<char>) -> Seq<char> {
    "logs/foodpanda_etl_"@ + underscored(timestamp) + "_"@ + user_login + "_.log"@
}

/// The name of the sink file of a run over one city.
pub open spec fn sink_filename(city_id: Seq<char>, timestamp: Seq<char>) -> Seq<char> {
    "vendors_city_"@ + city_id + "_"@ + underscored(timestamp) + "_.json"@
}

/// Names the log file of a run after the moment it began and the user who
/// began it. Spaces in the moment become underscores.
pub fn get_log_filename(timestamp: &str, user_login: &str) -> (name: String)
    ensures
        name@ == log_filename(timestamp@, user_login@),
{
    let mut name = String::from_str("logs/foodpanda_etl_");
    push_underscored(&mut name, timestamp);
    name.append("_");
    name.append(user_login);
    name.append("_.log");
    name
}

/// Names the sink file of a run over one city.
pub fn get_sink_filename(city_id: &str, timestamp: &str) -> (name: String)
    ensures
        name@ == sink_filename(city_id@, timestamp@),
{
    let mut name = String::from_str("vendors_city_");
    name.append(city_id);
    name.append("_");
    push_underscored(&mut name, timestamp);
    name.append("_.json");
    name
}

/// The number of pages of a listing that says it has `available` vendors
/// and returned `returned` of them with its first page: their quotient,
/// rounded up. An empty listing has no pages. Counts that no listing can
/// have give nothing.
pub open spec fn paging(available: int, returned: int) -> Option<nat> {
    if available == 0 && returned >= 0 {
        Some(0)
    } else if available > 0 && returned > 0 {
        Some(ceil_div(available as nat, returned as nat))
    } else {
        None
    }
}

/// Computes the number of pages of a listing.
pub fn total_pages(available_count: i32, returned_count: i32) -> (pages: Option<i32>)
    ensures
        pages is Some <==> paging(available_count as int, returned_count as int) is Some,
        pages matches Some(n) ==> n >= 0 && paging(available_count as int, returned_count as int)
            == Some(n as nat),
{
    if available_count == 0 && returned_count >= 0 {
        Some(0)
    } else if available_count > 0 && returned_count > 0 {
        let q: i32 = available_count / returned_count;
        if available_count % returned_count == 0 {
            Some(q)
        } else {
            proof {
                lemma_div_is_ordered_by_denominator(available_count as int, 2, returned_count as int);
            }
            Some(q + 1)
        }
    } else {
        None
    }
}

/// The page that follows page `page` of `total`, if there is one.
pub open spec fn page_after(page: int, total: int) -> Option<int> {
    successor(page, total)
}

/// A run that goes from each page to the page after it visits the pages
/// `0` to `total - 1` exactly once each, in ascending order.
pub proof fn lemma_visits_every_page_once(total: int)
    requires
        0 <= total,
    ensures
        visits_from(0, total) == Seq::new(total as nat, |i: int| i),
{
    lemma_visits_every_item_once(0, total);
}

fn offsets_fit(total_pages: i32, page_size: i32) -> (yes: bool)
    requires
        total_pages >= 1,
    ensures
        yes == (page_size > 0 && (total_pages - 1) * page_size <= i32::MAX),
{
    if page_size <= 0 {
        return false;
    }
    let pages: i64 = (total_pages - 1) as i64;
    let size: i64 = page_size as i64;
    assert(0 <= pages * size <= 0x7fff_ffff * 0x7fff_ffff) by (nonlinear_arith)
        requires
            0 <= pages <= 0x7fff_ffff,
            0 < size <= 0x7fff_ffff,
    ;
    pages * size <= 2147483647
}

/// Where a run stands.
#[derive(Debug, Clone, Copy, PartialEq, Eq, Structural)]
pub enum RunPhase {
    /// Nothing has happened yet.
    Init,
    /// The first page is being fetched; it tells how many pages there are.
    FetchFirstPage,
    /// The pause before page `page` is running.
    Pacing { page: i32, total_pages: i32, page_size: i32 },
    /// Page `page` is being fetched.
    FetchPage { page: i32, total_pages: i32, page_size: i32 },
    /// The vendors of page `page` are being processed.
    ProcessPage { page: i32, total_pages: i32, page_size: i32 },
    /// The sink is being closed.
    Finalize,
    /// The records are being encoded.
    Encode,
    /// The artifact is being delivered.
    Upload,
    /// The run is complete.
    Done,
    /// The run was given up.
    Failed,
}

impl RunPhase {
    /// A page in work is one of the listing, pages are counted from zero,
    /// and the offset of every page fits in 32 bits.
    pub open spec fn wf(self) -> bool {
        match self {
            RunPhase::Pacing { page, total_pages, page_size } => 1 <= page < total_pages
                && page_size > 0 && (total_pages - 1) * page_size <= i32::MAX,
            RunPhase::FetchPage { page, total_pages, page_size } => 1 <= page < total_pages
                && page_size > 0 && (total_pages - 1) * page_size <= i32::MAX,
            RunPhase::ProcessPage { page, total_pages, page_size } => 0 <= page < total_pages
                && page_size > 0 && (total_pages - 1) * page_size <= i32::MAX,
            _ => true,
        }
    }

    /// Tells whether the phase is one that a run can be in.
    pub fn is_valid(&self) -> (yes: bool)
        ensures
            yes == self.wf(),
    {
        match self {
            RunPhase::Pacing { page, total_pages, page_size } => 1 <= *page && *page
                < *total_pages && offsets_fit(*total_pages, *page_size),
            RunPhase::FetchPage { page, total_pages, page_size } => 1 <= *page && *page
                < *total_pages && offsets_fit(*total_pages, *page_size),
            RunPhase::ProcessPage { page, total_pages, page_size } => 0 <= *page && *page
                < *total_pages && offsets_fit(*total_pages, *page_size),
            _ => true,
        }
    }

    /// Whether `event` is one that the run waits for. A failure may come at
    /// any time before the run has ended.
    pub open spec fn awaits(self, event: RunEvent) -> bool {
        match self {
            RunPhase::Init => event is Started || event is Failed,
            RunPhase::FetchFirstPage => event is PageFetched || event is Failed,
            RunPhase::Pacing { .. } => event is Resumed || event is Failed,
            RunPhase::FetchPage { .. } => event is PageFetched || event is Failed,
            RunPhase::ProcessPage { .. } => event is BatchDone || event is Failed,
            RunPhase::Finalize => event is SinkFinished || event is Failed,
            RunPhase::Encode => event is Encoded || event is Failed,
            RunPhase::Upload => event is Uploaded || event is Failed,
            RunPhase::Done => false,
            RunPhase::Failed => false,
        }
    }

    /// Tells whether `event` is one that the run waits for.
    pub fn expects(&self, event: &RunEvent) -> (yes: bool)
        ensures
            yes == self.awaits(*event),
    {
        let failed = matches!(event, RunEvent::Failed(_));
        match self {
            RunPhase::Init => matches!(event, RunEvent::Started) || failed,
            RunPhase::FetchFirstPage => matches!(event, RunEvent::PageFetched(_)) || failed,
            RunPhase::Pacing { .. } => matches!(event, RunEvent::Resumed) || failed,
            RunPhase::FetchPage { .. } => matches!(event, RunEvent::PageFetched(_)) || failed,
            RunPhase::ProcessPage { .. } => matches!(event, RunEvent::BatchDone) || failed,
            RunPhase::Finalize => matches!(event, RunEvent::SinkFinished) || failed,
            RunPhase::Encode => matches!(event, RunEvent::Encoded) || failed,
            RunPhase::Upload => matches!(event, RunEvent::Uploaded) || failed,
            RunPhase::Done => false,
            RunPhase::Failed => false,
        }
    }
}

/// What the surroundings report to the run.
#[derive(Debug)]
pub enum RunEvent {
    /// The run is to begin.
    Started,
    /// The page asked for has arrived: this is its body.
    PageFetched(Vec<u8>),
    /// The pause is over.
    Resumed,
    /// Every vendor of the page has been written to the sink.
    BatchDone,
    /// The sink is closed.
    SinkFinished,
    /// The artifact is encoded.
    Encoded,
    /// The artifact is delivered.
    Uploaded,
    /// Something failed for good.
    Failed(Error),
}

/// What the run asks of the surroundings.
#[derive(Debug)]
pub enum RunAction {
    /// Fetch `limit` vendors of the listing from `offset` on, then report
    /// `PageFetched`.
    FetchPage { offset: i32, limit: i32 },
    /// Process the vendors of a page, then report `BatchDone`.
    ProcessBatch { vendor_codes: Vec<String>, batch_number: i32, total_batches: i32 },
    /// Pause, then report `Resumed`.
    Pause { base_ms: u64, jitter_ms: u64 },
    /// Close the sink, then report `SinkFinished`.
    FinishSink,
    /// Encode the records of the sink, then report `Encoded`.
    Encode,
    /// Deliver the artifact, then report `Uploaded`.
    Upload,
    /// The run is complete.
    Finish,
    /// The run is given up with this failure. What the sink holds stays
    /// where it is, and nothing is delivered.
    Abort(Error),
}

/// The phase in which the work on a listing of `total` pages goes on after
/// page `page` is done: the pause before the next page, or the closing of
/// the sink after the last.
pub open spec fn phase_after_page(page: i32, total: i32, page_size: i32) -> RunPhase {
    match page_after(page as int, total as int) {
        Some(next) => RunPhase::Pacing { page: next as i32, total_pages: total, page_size },
        None => RunPhase::Finalize,
    }
}

fn process_page(response: VendorListResponse, page: i32, total_pages: i32) -> (action: RunAction)
    requires
        0 <= page < total_pages,
    ensures
        batch_of(action, response.page().codes, page + 1, total_pages as int),
{
    RunAction::ProcessBatch {
        vendor_codes: response.into_codes(),
        batch_number: page + 1,
        total_batches: total_pages,
    }
}

/// Whether `action` asks for the processing of the vendors `codes` as batch
/// number `number` of `total`.
pub open spec fn batch_of(action: RunAction, codes: Seq<Seq<char>>, number: int, total: int) -> bool {
    &&& action matches RunAction::ProcessBatch { vendor_codes, batch_number, total_batches }
    &&& batch_number == number
    &&& total_batches == total
    &&& vendor_codes@.len() == codes.len()
    &&& forall|i: int| 0 <= i < codes.len() ==> (#[trigger] vendor_codes@[i])@ == codes[i]
}

/// Whether the run is given up because `body` spells no page, or a page
/// with counts that no listing can have: the failure holds the raw body.
pub open spec fn gives_up_on_page(next: (RunPhase, RunAction), body: Seq<u8>) -> bool {
    &&& next.0 == RunPhase::Failed
    &&& next.1 matches RunAction::Abort(failure)
    &&& is_malformed_body(failure, body)
}

/// Takes the event that the run waits for and says what to do next.
///
/// The first page of the listing tells how many pages there are, and its
/// vendors are the first batch. The pages are then visited in ascending
/// order, each after a pause, each asked for at the offset of its number
/// times the page size. When the batch of the last page is done the sink is
/// closed, the records are encoded and the artifact is delivered. A failure
/// at any point gives up the run, and so does a body that spells no page.
pub fn advance(phase: RunPhase, event: RunEvent) -> (next: (RunPhase, RunAction))
    requires
        phase.wf(),
        phase.awaits(event),
    ensures
        next.0.wf(),
        match (phase, event) {
            (_, RunEvent::Failed(failure)) => next.0 == RunPhase::Failed && next.1 == (
            RunAction::Abort(failure)),
            (RunPhase::Init, RunEvent::Started) => next.0 == RunPhase::FetchFirstPage && next.1
                == (RunAction::FetchPage { offset: 0, limit: FIRST_PAGE_LIMIT }),
            (RunPhase::FetchFirstPage, RunEvent::PageFetched(body)) => match decoded_page(body@) {
                None => gives_up_on_page(next, body@),
                Some(first) => match paging(
                    first.available_count as int,
                    first.returned_count as int,
                ) {
                    None => gives_up_on_page(next, body@),
                    Some(total) => if total == 0 {
                        next.0 == RunPhase::Finalize && next.1 is FinishSink
                    } else {
                        &&& next.0 == (RunPhase::ProcessPage {
                            page: 0,
                            total_pages: total as i32,
                            page_size: first.returned_count,
                        })
                        &&& batch_of(next.1, first.codes, 1, total as int)
                    },
                },
            },
            (RunPhase::ProcessPage { page, total_pages, page_size }, RunEvent::BatchDone) => {
                &&& next.0 == phase_after_page(page, total_pages, page_size)
                &&& page_after(page as int, total_pages as int) is Some ==> next.1 == (
                RunAction::Pause { base_ms: PAGE_PAUSE_MS, jitter_ms: PAGE_JITTER_MS })
                &&& page_after(page as int, total_pages as int) is None ==> next.1 is FinishSink
            },
            (RunPhase::Pacing { page, total_pages, page_size }, RunEvent::Resumed) => {
                &&& next.0 == (RunPhase::FetchPage { page, total_pages, page_size })
                &&& next.1 == (RunAction::FetchPage { offset: (page * page_size) as i32, limit: page_size })
            },
            (RunPhase::FetchPage { page, total_pages, page_size }, RunEvent::PageFetched(body)) => {
                match decoded_page(body@) {
                    None => gives_up_on_page(next, body@),
                    Some(listed) => {
                        &&& next.0 == (RunPhase::ProcessPage { page, total_pages, page_size })
                        &&& batch_of(next.1, listed.codes, page + 1, total_pages as int)
                    },
                }
            },
            (RunPhase::Finalize, RunEvent::SinkFinished) => next.0 == RunPhase::Encode && next.1
                is Encode,
            (RunPhase::Encode, RunEvent::Encoded) => next.0 == RunPhase::Upload && next.1
                is Upload,
            (RunPhase::Upload, RunEvent::Uploaded) => next.0 == RunPhase::Done && next.1
                is Finish,
            _ => false,
        },
{
    match (phase, event) {
        (_, RunEvent::Failed(failure)) => (RunPhase::Failed, RunAction::Abort(failure)),
        (RunPhase::Init, RunEvent::Started) => (
            RunPhase::FetchFirstPage,
            RunAction::FetchPage { offset: 0, limit: FIRST_PAGE_LIMIT },
        ),
        (RunPhase::FetchFirstPage, RunEvent::PageFetched(body)) => {
            let response = match VendorListResponse::decode(body.as_slice()) {
                Ok(response) => response,
                Err(malformed) => {
                    return (RunPhase::Failed, RunAction::Abort(malformed));
                },
            };
            let available: i32 = response.data.available_count;
            let page_size: i32 = response.data.returned_count;
            match total_pages(available, page_size) {
                None => (
                    RunPhase::Failed,
                    RunAction::Abort(malformed_body("page counts out of range", body.as_slice())),
                ),
                Some(total) => {
                    if total == 0 {
                        (RunPhase::Finalize, RunAction::FinishSink)
                    } else {
                        proof {
                            lemma_ceil_div_is_least(available as nat, page_size as nat);
                        }
                        (
                            RunPhase::ProcessPage { page: 0, total_pages: total, page_size },
                            process_page(response, 0, total),
                        )
                    }
                },
            }
        },
        (RunPhase::ProcessPage { page, total_pages, page_size }, RunEvent::BatchDone) => {
            if page + 1 < total_pages {
                (
                    RunPhase::Pacing { page: page + 1, total_pages, page_size },
                    RunAction::Pause { base_ms: PAGE_PAUSE_MS, jitter_ms: PAGE_JITTER_MS },
                )
            } else {
                (RunPhase::Finalize, RunAction::FinishSink)
            }
        },
        (RunPhase::Pacing { page, total_pages, page_size }, RunEvent::Resumed) => {
            assert(page * page_size <= (total_pages - 1) * page_size) by (nonlinear_arith)
                requires
                    page <= total_pages - 1,
                    page_size > 0,
            ;
            assert(0 <= page * page_size) by (nonlinear_arith)
                requires
                    page >= 0,
                    page_size > 0,
            ;
            (
                RunPhase::FetchPage { page, total_pages, page_size },
                RunAction::FetchPage { offset: page * page_size, limit: page_size },
            )
        },
        (RunPhase::FetchPage { page, total_pages, page_size }, RunEvent::PageFetched(body)) => {
            match VendorListResponse::decode(body.as_slice()) {
                Ok(response) => (
                    RunPhase::ProcessPage { page, total_pages, page_size },
                    process_page(response, page, total_pages),
                ),
                Err(malformed) => (RunPhase::Failed, RunAction::Abort(malformed)),
            }
        },
        (RunPhase::Finalize, RunEvent::SinkFinished) => (RunPhase::Encode, RunAction::Encode),
        (RunPhase::Encode, RunEvent::Encoded) => (RunPhase::Upload, RunAction::Upload),
        (RunPhase::Upload, RunEvent::Uploaded) => (RunPhase::Done, RunAction::Finish),
        _ => vstd::pervasive::unreached(),
    }
}

} // verus!
