//! The addresses of the upstream service and the course of a request
//! through its attempts and identities.

use crate::clients::http::{
    header_texts, verdict, HttpClient, Reply, Request, SendStep, Verdict,
};
use crate::clients::pool::{slot_of, ClientPool};
use crate::error::Error;
use crate::text::{push_signed_decimal, signed_decimal};
use crate::utils::retry::{auxiliary_policy, rotating_policy, standard_policy, RetryPolicy};
use std::sync::Arc;
use vstd::prelude::*;

verus! {

/// The address of one page of the vendor listing of a city.
pub open spec fn vendor_page_url(city_id: Seq<char>, offset: int, limit: int) -> Seq<char> {
    "https://disco.deliveryhero.io/listing/api/v1/pandora/vendors?city_id="@ + city_id
        + "&offset="@ + signed_decimal(offset) + "&limit="@ + signed_decimal(limit)
        + "&configuration=&country=pk&language_id=1&sort=&vertical=restaurants"@
}

/// The address of the details of a vendor.
pub open spec fn vendor_details_url(code: Seq<char>) -> Seq<char> {
    "https://pk.fd-api.com/api/v5/vendors/"@ + code
        + "?include=menus,bundles,multiple_discounts&language_id=1&opening_type=delivery&basket_currency=PKR"@
}

/// The address of the ratings distribution of a vendor.
pub open spec fn vendor_ratings_url(code: Seq<char>) -> Seq<char> {
    "https://reviews-api-pk.fd-api.com/ratings-distribution/vendor/"@ + code
        + "?global_entity_id=FP_PK"@
}

/// The address of the reviews of a vendor.
pub open spec fn vendor_reviews_url(code: Seq<char>) -> Seq<char> {
    "https://reviews-api-pk.fd-api.com/reviews/vendor/"@ + code
        + "?global_entity_id=FP_PK&limit=30&created_at=desc&has_dish=true"@
}

/// The four kinds of request that the service makes.
#[derive(Debug, Clone, Copy, PartialEq, Eq, Structural)]
pub enum Endpoint {
    /// A page of the listing.
    Page,
    /// The details of one vendor. Only here does a status of 400 mean that
    /// the service has no data for the key.
    Details,
    /// The ratings distribution of one vendor, a best-effort enrichment.
    Ratings,
    /// The reviews of one vendor, a best-effort enrichment.
    Reviews,
}

impl Endpoint {
    /// Whether a fetch from the endpoint may end in "no data".
    pub open spec fn allows_soft_miss(self) -> bool {
        self == Endpoint::Details
    }
}

/// A request on its way: where it goes, which attempt is being made, and
/// under which identity.
#[derive(Debug)]
pub struct Fetch {
    pub endpoint: Endpoint,
    pub url: String,
    /// The number of the attempt that is made next, counted from one.
    pub attempt: u32,
    /// The position in the pool of the identity that makes the attempt.
    pub identity: usize,
}

/// What the caller of a fetch does after an attempt.
#[derive(Debug)]
pub enum FetchStep {
    /// The request succeeded: this is the body.
    Deliver(Vec<u8>),
    /// The service has no data for the key.
    NoData,
    /// Pause for `delay_ms` and a random share of at most `jitter_ms`, then
    /// make the attempt that `fetch` describes.
    Retry { fetch: Fetch, delay_ms: u64, jitter_ms: u64 },
    /// The request failed for good.
    Fail(Error),
}

/// The identity that makes the attempt after one that was made by the
/// identity at `identity`: the next one in the pool where the identity was
/// blocked, the same one otherwise.
pub open spec fn next_identity(identity: nat, rotate: bool, pool_size: nat) -> nat {
    if rotate {
        slot_of(identity + 1, pool_size)
    } else {
        identity
    }
}

/// A blocked identity does not make the next attempt, as long as the pool
/// holds more than one.
pub proof fn lemma_rotation_changes_identity(identity: nat, pool_size: nat)
    requires
        pool_size >= 2,
        identity < pool_size,
    ensures
        next_identity(identity, true, pool_size) != identity,
        next_identity(identity, true, pool_size) < pool_size,
        next_identity(identity, true, pool_size) == (if identity + 1 == pool_size {
            0
        } else {
            identity + 1
        }),
{
    if identity + 1 == pool_size {
        assert(pool_size % pool_size == 0) by (nonlinear_arith)
            requires
                pool_size > 0,
        ;
    } else {
        assert(((identity + 1) as nat) % pool_size == identity + 1) by (nonlinear_arith)
            requires
                0 <= identity + 1 < pool_size,
        ;
    }
}

/// The policy of the requests to an endpoint where nothing else is
/// configured. A page of the listing is asked for up to three times, with
/// pauses whose random share is at most half of their fixed part. The details
/// of a vendor are asked for up to three times, under changing identities,
/// with a random share of up to a second. The best-effort enrichments have
/// the pauses of the listing and two attempts.
pub open spec fn default_policy(endpoint: Endpoint) -> RetryPolicy {
    match endpoint {
        Endpoint::Page => standard_policy(),
        Endpoint::Details => rotating_policy(),
        _ => auxiliary_policy(),
    }
}

/// The requests to the upstream service: their addresses, and the course of
/// each through its attempts.
pub struct ApiService {
    client_pool: Arc<ClientPool>,
    listing_policy: RetryPolicy,
    details_policy: RetryPolicy,
    auxiliary_policy: RetryPolicy,
}

impl ApiService {
    #[verifier::type_invariant]
    spec fn policies_wf(self) -> bool {
        self.listing_policy.wf() && self.details_policy.wf() && self.auxiliary_policy.wf()
    }

    /// The pool that the service draws its identities from.
    pub closed spec fn pool(self) -> ClientPool {
        *self.client_pool
    }

    /// The policy that governs the requests to an endpoint.
    pub closed spec fn policy_of(self, endpoint: Endpoint) -> RetryPolicy {
        match endpoint {
            Endpoint::Page => self.listing_policy,
            Endpoint::Details => self.details_policy,
            _ => self.auxiliary_policy,
        }
    }

    /// Whether `fetch` describes an attempt that the service can make.
    pub open spec fn admits(self, fetch: Fetch) -> bool {
        &&& 1 <= fetch.attempt <= self.policy_of(fetch.endpoint).max_attempts
        &&& fetch.identity < self.pool().identities().len()
    }

    /// Tells whether `fetch` describes an attempt that the service can make.
    pub fn accepts(&self, fetch: &Fetch) -> (yes: bool)
        ensures
            yes == self.admits(*fetch),
    {
        let policy = self.policy_for(fetch.endpoint);
        1 <= fetch.attempt && fetch.attempt <= policy.max_attempts && fetch.identity
            < self.client_pool.len()
    }

    /// A service with the policies used where nothing else is configured.
    pub fn new(client_pool: Arc<ClientPool>) -> (service: ApiService)
        ensures
            service.pool() == *client_pool,
            forall|e: Endpoint| #[trigger] service.policy_of(e) == default_policy(e),
    {
        ApiService {
            client_pool,
            listing_policy: RetryPolicy::standard(),
            details_policy: RetryPolicy::rotating(),
            auxiliary_policy: RetryPolicy::auxiliary(),
        }
    }

    /// A service with policies of the caller's choice: one for the pages of
    /// the listing, one for the details of a vendor, one for the best-effort
    /// enrichments.
    pub fn with_policies(
        client_pool: Arc<ClientPool>,
        listing_policy: RetryPolicy,
        details_policy: RetryPolicy,
        auxiliary_policy: RetryPolicy,
    ) -> (service: ApiService)
        requires
            listing_policy.wf(),
            details_policy.wf(),
            auxiliary_policy.wf(),
        ensures
            service.pool() == *client_pool,
            service.policy_of(Endpoint::Page) == listing_policy,
            service.policy_of(Endpoint::Details) == details_policy,
            service.policy_of(Endpoint::Ratings) == auxiliary_policy,
            service.policy_of(Endpoint::Reviews) == auxiliary_policy,
    {
        ApiService { client_pool, listing_policy, details_policy, auxiliary_policy }
    }

    /// The policy that governs the requests to an endpoint.
    pub fn policy_for(&self, endpoint: Endpoint) -> (policy: RetryPolicy)
        ensures
            policy == self.policy_of(endpoint),
            policy.wf(),
    {
        proof {
            use_type_invariant(self);
        }
        match endpoint {
            Endpoint::Page => self.listing_policy,
            Endpoint::Details => self.details_policy,
            Endpoint::Ratings => self.auxiliary_policy,
            Endpoint::Reviews => self.auxiliary_policy,
        }
    }

    fn begin(&self, endpoint: Endpoint, url: String) -> (fetch: Fetch)
        ensures
            fetch.endpoint == endpoint,
            fetch.url == url,
            fetch.attempt == 1,
            self.admits(fetch),
    {
        proof {
            use_type_invariant(self);
        }
        let identity: usize = self.client_pool.next_index();
        Fetch { endpoint, url, attempt: 1, identity }
    }

    /// Begins the fetch of one page of the listing of a city: the first
    /// attempt, under the identity whose turn it is.
    pub fn fetch_vendor_page(&self, city_id: &str, offset: i32, limit: i32) -> (fetch: Fetch)
        ensures
            fetch.endpoint == Endpoint::Page,
            fetch.url@ == vendor_page_url(city_id@, offset as int, limit as int),
            fetch.attempt == 1,
            self.admits(fetch),
    {
        let mut url = String::from_str(
            "https://disco.deliveryhero.io/listing/api/v1/pandora/vendors?city_id=",
        );
        url.append(city_id);
        url.append("&offset=");
        push_signed_decimal(&mut url, offset as i64);
        url.append("&limit=");
        push_signed_decimal(&mut url, limit as i64);
        url.append("&configuration=&country=pk&language_id=1&sort=&vertical=restaurants");
        self.begin(Endpoint::Page, url)
    }

    /// Begins the fetch of the details of a vendor.
    pub fn fetch_vendor_details(&self, code: &str) -> (fetch: Fetch)
        ensures
            fetch.endpoint == Endpoint::Details,
            fetch.url@ == vendor_details_url(code@),
            fetch.attempt == 1,
            self.admits(fetch),
    {
        let mut url = String::from_str("https://pk.fd-api.com/api/v5/vendors/");
        url.append(code);
        url.append(
            "?include=menus,bundles,multiple_discounts&language_id=1&opening_type=delivery&basket_currency=PKR",
        );
        self.begin(Endpoint::Details, url)
    }

    /// Begins the fetch of the ratings distribution of a vendor.
    pub fn fetch_vendor_ratings(&self, vendor_code: &str) -> (fetch: Fetch)
        ensures
            fetch.endpoint == Endpoint::Ratings,
            fetch.url@ == vendor_ratings_url(vendor_code@),
            fetch.attempt == 1,
            self.admits(fetch),
    {
        let mut url = String::from_str(
            "https://reviews-api-pk.fd-api.com/ratings-distribution/vendor/",
        );
        url.append(vendor_code);
        url.append("?global_entity_id=FP_PK");
        self.begin(Endpoint::Ratings, url)
    }

    /// Begins the fetch of the reviews of a vendor.
    pub fn fetch_vendor_reviews(&self, vendor_code: &str) -> (fetch: Fetch)
        ensures
            fetch.endpoint == Endpoint::Reviews,
            fetch.url@ == vendor_reviews_url(vendor_code@),
            fetch.attempt == 1,
            self.admits(fetch),
    {
        let mut url = String::from_str("https://reviews-api-pk.fd-api.com/reviews/vendor/");
        url.append(vendor_code);
        url.append("?global_entity_id=FP_PK&limit=30&created_at=desc&has_dish=true");
        self.begin(Endpoint::Reviews, url)
    }

    /// The request of the attempt that `fetch` describes: its address, with
    /// the headers of the identity that makes the attempt.
    pub fn request(&self, fetch: &Fetch) -> (request: Request)
        requires
            self.admits(*fetch),
        ensures
            request.url@ == fetch.url@,
            header_texts(request.headers@) == self.pool().identities()[fetch.identity as int]
                .fixed_headers(),
    {
        let size: usize = self.client_pool.len();
        assert(slot_of(fetch.identity as nat, size as nat) == fetch.identity) by (nonlinear_arith)
            requires
                0 <= fetch.identity < size,
                slot_of(fetch.identity as nat, size as nat) == (fetch.identity as nat) % (
                size as nat),
        ;
        let client: &HttpClient = self.client_pool.get_client(fetch.identity);
        client.get(fetch.url.as_str())
    }

    /// Takes the transport's reply to the attempt that `fetch` describes and
    /// decides how the fetch goes on.
    ///
    /// The decision is the verdict of the endpoint's policy. Where it is
    /// another attempt, that attempt has the next number and goes to the
    /// same address, under the next identity of the pool where this one was
    /// blocked and under the same identity otherwise.
    pub fn advance(&self, fetch: Fetch, reply: Reply) -> (step: FetchStep)
        requires
            self.admits(fetch),
        ensures
            match verdict(
                self.policy_of(fetch.endpoint),
                fetch.attempt as nat,
                reply.outcome(fetch.endpoint.allows_soft_miss()),
            ) {
                Verdict::Deliver => step matches FetchStep::Deliver(body) && body@
                    == reply->body@,
                Verdict::NoData => step is NoData,
                Verdict::Fatal => step matches FetchStep::Fail(Error::Http(reason)) && reason@
                    == crate::clients::http::fatal_text(reply->code, reply->body@),
                Verdict::Exhausted => step matches FetchStep::Fail(Error::MaxRetriesExceeded),
                Verdict::Retry { delay_ms, jitter_ms, rotate } => {
                    &&& step matches FetchStep::Retry { fetch: next, delay_ms: pause, jitter_ms: share }
                    &&& pause == delay_ms
                    &&& share == jitter_ms
                    &&& pause + share <= u64::MAX
                    &&& next.endpoint == fetch.endpoint
                    &&& next.url == fetch.url
                    &&& next.attempt == fetch.attempt + 1
                    &&& next.identity == next_identity(
                        fetch.identity as nat,
                        rotate,
                        self.pool().identities().len(),
                    )
                    &&& self.admits(next)
                },
            },
    {
        let policy = self.policy_for(fetch.endpoint);
        let soft_miss_allowed = matches!(fetch.endpoint, Endpoint::Details);
        match HttpClient::send(&policy, soft_miss_allowed, fetch.attempt, reply) {
            SendStep::Deliver(body) => FetchStep::Deliver(body),
            SendStep::NoData => FetchStep::NoData,
            SendStep::Fail(e) => FetchStep::Fail(e),
            SendStep::Retry { delay_ms, jitter_ms, rotate } => {
                let size: usize = self.client_pool.len();
                let identity: usize = if rotate {
                    if fetch.identity + 1 == size {
                        0
                    } else {
                        fetch.identity + 1
                    }
                } else {
                    fetch.identity
                };
                proof {
                    if rotate && size >= 2 {
                        lemma_rotation_changes_identity(fetch.identity as nat, size as nat);
                    }
                }
                FetchStep::Retry {
                    fetch: Fetch {
                        endpoint: fetch.endpoint,
                        url: fetch.url,
                        attempt: fetch.attempt + 1,
                        identity,
                    },
                    delay_ms,
                    jitter_ms,
                }
            },
        }
    }
}

} // verus!
