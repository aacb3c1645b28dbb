//! One transport identity, the reading of a reply, and the decision that
//! follows each attempt of a request.

use crate::config::Settings;
use crate::error::Error;
use crate::text::{decimal, lossy_text, push_decimal, utf8_lossy};
use crate::utils::retry::{backoff_ms, RetryPolicy};
use vstd::arithmetic::power2::pow2;
use vstd::prelude::*;
use vstd::string::StringSliceAdditionalSpecFns;
use vstd::utf8::encode_utf8;

verus! {

/// The fingerprint profile under which an identity presents itself.
#[derive(Debug, Clone, Copy, PartialEq, Eq, Structural)]
pub enum Emulation {
    Firefox136,
    Chrome133,
    Safari18_3,
    Edge134,
}

/// The bytes that may stand in the name of an HTTP header: letters, digits
/// and the punctuation ``!#$%&'*+-.^_`|~``.
pub open spec fn is_token_byte(b: u8) -> bool {
    ||| b == 33
    ||| 35 <= b <= 39
    ||| b == 42
    ||| b == 43
    ||| b == 45
    ||| b == 46
    ||| 48 <= b <= 57
    ||| 65 <= b <= 90
    ||| 94 <= b <= 122
    ||| b == 124
    ||| b == 126
}

/// A header name is between 1 and 65535 token bytes.
pub open spec fn header_name_ok(name: Seq<u8>) -> bool {
    &&& 1 <= name.len() <= 65535
    &&& forall|i: int| 0 <= i < name.len() ==> is_token_byte(#[trigger] name[i])
}

/// A header value holds no control byte other than the tab.
pub open spec fn header_value_ok(value: Seq<u8>) -> bool {
    forall|i: int|
        0 <= i < value.len() ==> {
            let b = #[trigger] value[i];
            (b >= 32 && b != 127) || b == 9
        }
}

/// A header, name and value, that the transport will accept as it stands.
pub open spec fn header_ok(header: (Seq<char>, Seq<char>)) -> bool {
    header_name_ok(encode_utf8(header.0)) && header_value_ok(encode_utf8(header.1))
}

/// A byte of a header name with a capital letter turned into the small one.
pub open spec fn lowered(b: u8) -> u8 {
    if 65 <= b <= 90 {
        (b + 32) as u8
    } else {
        b
    }
}

/// Whether two header names are the same name: they agree byte for byte
/// once capital and small letters are taken as one.
pub open spec fn same_name(a: Seq<char>, b: Seq<char>) -> bool {
    let x = encode_utf8(a);
    let y = encode_utf8(b);
    &&& x.len() == y.len()
    &&& forall|i: int| 0 <= i < x.len() ==> lowered(#[trigger] x[i]) == lowered(y[i])
}

/// The place of the first header of `kept` with the name `name`, if there
/// is one.
pub open spec fn position_of(kept: Seq<(Seq<char>, Seq<char>)>, name: Seq<char>) -> Option<int>
    decreases kept.len(),
{
    if kept.len() == 0 {
        None
    } else {
        match position_of(kept.drop_last(), name) {
            Some(k) => Some(k),
            None => if same_name(kept.last().0, name) {
                Some(kept.len() - 1)
            } else {
                None
            },
        }
    }
}

/// The headers `kept` with one more header set: where a header of that name
/// is kept already, it stays in its place and takes the new value; else the
/// header is added at the end.
pub open spec fn with_header(kept: Seq<(Seq<char>, Seq<char>)>, header: (Seq<char>, Seq<char>)) -> Seq<
    (Seq<char>, Seq<char>),
> {
    match position_of(kept, header.0) {
        Some(k) => kept.update(k, (kept[k].0, header.1)),
        None => kept.push(header),
    }
}

/// The headers that an identity sends, given the configured ones: those
/// that the transport accepts, set one after the other in the configured
/// order, so that every name has one value, the one configured last.
pub open spec fn accepted_headers(configured: Seq<(Seq<char>, Seq<char>)>) -> Seq<
    (Seq<char>, Seq<char>),
>
    decreases configured.len(),
{
    if configured.len() == 0 {
        Seq::empty()
    } else {
        let before = accepted_headers(configured.drop_last());
        if header_ok(configured.last()) {
            with_header(before, configured.last())
        } else {
            before
        }
    }
}

/// Whether every header of `headers` has a name that the transport accepts.
pub open spec fn names_accepted(headers: Seq<(Seq<char>, Seq<char>)>) -> bool {
    forall|j: int| 0 <= j < headers.len() ==> header_name_ok(encode_utf8((#[trigger] headers[j]).0))
}

/// No header of `kept` has the name `name`.
pub proof fn lemma_position_none(kept: Seq<(Seq<char>, Seq<char>)>, name: Seq<char>)
    requires
        forall|j: int| 0 <= j < kept.len() ==> !same_name((#[trigger] kept[j]).0, name),
    ensures
        position_of(kept, name) is None,
    decreases kept.len(),
{
    if kept.len() > 0 {
        let front = kept.drop_last();
        assert forall|j: int| 0 <= j < front.len() implies !same_name(
            (#[trigger] front[j]).0,
            name,
        ) by {
            assert(front[j] == kept[j]);
        }
        lemma_position_none(front, name);
        assert(!same_name(kept[kept.len() - 1].0, name));
    }
}

/// The first header of `kept` with the name `name` stands at `k`.
pub proof fn lemma_position_found(kept: Seq<(Seq<char>, Seq<char>)>, name: Seq<char>, k: int)
    requires
        0 <= k < kept.len(),
        same_name(kept[k].0, name),
        forall|j: int| 0 <= j < k ==> !same_name((#[trigger] kept[j]).0, name),
    ensures
        position_of(kept, name) == Some(k),
    decreases kept.len(),
{
    let front = kept.drop_last();
    if k < kept.len() - 1 {
        assert(front[k] == kept[k]);
        assert forall|j: int| 0 <= j < k implies !same_name((#[trigger] front[j]).0, name) by {
            assert(front[j] == kept[j]);
        }
        lemma_position_found(front, name, k);
    } else {
        assert forall|j: int| 0 <= j < front.len() implies !same_name(
            (#[trigger] front[j]).0,
            name,
        ) by {
            assert(front[j] == kept[j]);
        }
        lemma_position_none(front, name);
    }
}

/// Every header that an identity sends has a name that the transport
/// accepts.
pub proof fn lemma_accepted_names(configured: Seq<(Seq<char>, Seq<char>)>)
    ensures
        names_accepted(accepted_headers(configured)),
    decreases configured.len(),
{
    if configured.len() > 0 {
        lemma_accepted_names(configured.drop_last());
        let before = accepted_headers(configured.drop_last());
        let after = accepted_headers(configured);
        assert forall|j: int| 0 <= j < after.len() implies header_name_ok(
            encode_utf8((#[trigger] after[j]).0),
        ) by {
            if header_ok(configured.last()) {
                match position_of(before, configured.last().0) {
                    Some(k) => {
                        lemma_position_in_range(before, configured.last().0);
                        if j != k {
                            assert(after[j] == before[j]);
                        } else {
                            assert(after[j].0 == before[j].0);
                        }
                    },
                    None => {
                        if j < before.len() {
                            assert(after[j] == before[j]);
                        }
                    },
                }
            }
        }
    }
}

/// Where no place is found, no header of the list has the name.
pub proof fn lemma_position_missing(kept: Seq<(Seq<char>, Seq<char>)>, name: Seq<char>)
    requires
        position_of(kept, name) is None,
    ensures
        forall|j: int| 0 <= j < kept.len() ==> !same_name((#[trigger] kept[j]).0, name),
    decreases kept.len(),
{
    if kept.len() > 0 {
        let front = kept.drop_last();
        lemma_position_missing(front, name);
        assert forall|j: int| 0 <= j < kept.len() implies !same_name(
            (#[trigger] kept[j]).0,
            name,
        ) by {
            if j < front.len() {
                assert(front[j] == kept[j]);
            }
        }
    }
}

/// Whether no two headers of the list have the same name.
pub open spec fn one_value_per_name(headers: Seq<(Seq<char>, Seq<char>)>) -> bool {
    forall|i: int, j: int|
        0 <= i < j < headers.len() ==> !same_name(
            (#[trigger] headers[i]).0,
            (#[trigger] headers[j]).0,
        )
}

/// An identity sends one value for every name, however often and in
/// whatever spelling the name was configured.
pub proof fn lemma_one_value_per_name(configured: Seq<(Seq<char>, Seq<char>)>)
    ensures
        one_value_per_name(accepted_headers(configured)),
    decreases configured.len(),
{
    if configured.len() > 0 {
        lemma_one_value_per_name(configured.drop_last());
        let before = accepted_headers(configured.drop_last());
        let after = accepted_headers(configured);
        let last = configured.last();
        if header_ok(last) {
            lemma_position_in_range(before, last.0);
            match position_of(before, last.0) {
                Some(k) => {
                    assert forall|i: int, j: int| 0 <= i < j < after.len() implies !same_name(
                        (#[trigger] after[i]).0,
                        (#[trigger] after[j]).0,
                    ) by {
                        assert(after[i].0 == before[i].0);
                        assert(after[j].0 == before[j].0);
                    }
                },
                None => {
                    lemma_position_missing(before, last.0);
                    assert forall|i: int, j: int| 0 <= i < j < after.len() implies !same_name(
                        (#[trigger] after[i]).0,
                        (#[trigger] after[j]).0,
                    ) by {
                        if j < before.len() {
                            assert(after[i] == before[i]);
                            assert(after[j] == before[j]);
                        } else {
                            assert(after[i] == before[i]);
                            assert(after[j] == last);
                        }
                    }
                },
            }
        }
    }
}

/// A place that is found lies in the list, and the header there has the
/// name that was looked for.
pub proof fn lemma_position_in_range(kept: Seq<(Seq<char>, Seq<char>)>, name: Seq<char>)
    ensures
        position_of(kept, name) matches Some(k) ==> 0 <= k < kept.len() && same_name(
            kept[k].0,
            name,
        ),
    decreases kept.len(),
{
    if kept.len() > 0 {
        lemma_position_in_range(kept.drop_last(), name);
        match position_of(kept.drop_last(), name) {
            Some(k) => {
                assert(kept.drop_last()[k] == kept[k]);
            },
            None => {},
        }
    }
}

/// Names and values of a list of headers as plain text.
pub open spec fn header_texts(headers: Seq<(String, String)>) -> Seq<(Seq<char>, Seq<char>)> {
    Seq::new(headers.len(), |i: int| (headers[i].0@, headers[i].1@))
}

/// `http::header::HeaderName::from_bytes` on the bytes of `name`: it
/// succeeds exactly on 1 to 65535 bytes that are all token bytes.
#[verifier::external_body]
fn header_name_accepted(name: &str) -> (ok: bool)
    ensures
        ok == header_name_ok(name.spec_bytes()),
{
    ::http::header::HeaderName::from_bytes(name.as_bytes()).is_ok()
}

/// Equality of the two names that `http::header::HeaderName::from_bytes`
/// makes of the bytes of `a` and of `b`. Both are names that it accepts, so
/// it turns their capital letters into small ones and leaves every other
/// byte as it is, and the two names are equal exactly where the bytes then
/// agree.
#[verifier::external_body]
fn header_names_equal(a: &str, b: &str) -> (same: bool)
    requires
        header_name_ok(a.spec_bytes()),
        header_name_ok(b.spec_bytes()),
    ensures
        same == same_name(a@, b@),
{
    ::http::header::HeaderName::from_bytes(a.as_bytes()).ok()
        == ::http::header::HeaderName::from_bytes(b.as_bytes()).ok()
}

/// `http::header::HeaderValue::from_str`: it succeeds exactly where every
/// byte of `value` is 32 or more and not 127, or is the tab.
#[verifier::external_body]
fn header_value_accepted(value: &str) -> (ok: bool)
    ensures
        ok == header_value_ok(value.spec_bytes()),
{
    ::http::header::HeaderValue::from_str(value).is_ok()
}

/// A request as the transport gets it: the address and the headers to send.
#[derive(Debug)]
pub struct Request {
    pub url: String,
    pub headers: Vec<(String, String)>,
}

/// One transport identity: a fingerprint profile and a fixed set of headers.
#[derive(Debug)]
pub struct HttpClient {
    emulation: Emulation,
    headers: Vec<(String, String)>,
}

fn copy_headers(headers: &Vec<(String, String)>) -> (copy: Vec<(String, String)>)
    ensures
        header_texts(copy@) == header_texts(headers@),
{
    let mut copy: Vec<(String, String)> = Vec::new();
    let mut i: usize = 0;
    while i < headers.len()
        invariant
            i <= headers@.len(),
            copy@.len() == i,
            forall|j: int|
                0 <= j < i ==> (#[trigger] copy@[j]).0@ == headers@[j].0@ && copy@[j].1@
                    == headers@[j].1@,
        decreases headers@.len() - i,
    {
        let name = headers[i].0.clone();
        let value = headers[i].1.clone();
        copy.push((name, value));
        i += 1;
    }
    copy
}

fn position(headers: &Vec<(String, String)>, name: &str) -> (found: Option<usize>)
    requires
        names_accepted(header_texts(headers@)),
        header_name_ok(encode_utf8(name@)),
    ensures
        found matches Some(k) ==> k < headers@.len() && position_of(
            header_texts(headers@),
            name@,
        ) == Some(k as int),
        found is None ==> position_of(header_texts(headers@), name@) is None,
{
    let ghost texts = header_texts(headers@);
    let mut i: usize = 0;
    while i < headers.len()
        invariant
            i <= headers@.len(),
            texts == header_texts(headers@),
            names_accepted(texts),
            header_name_ok(encode_utf8(name@)),
            forall|j: int| 0 <= j < i ==> !same_name((#[trigger] texts[j]).0, name@),
        decreases headers@.len() - i,
    {
        assert(texts[i as int].0 == headers@[i as int].0@);
        if header_names_equal(headers[i].0.as_str(), name) {
            proof {
                lemma_position_found(texts, name@, i as int);
            }
            return Some(i);
        }
        i += 1;
    }
    proof {
        lemma_position_none(texts, name@);
    }
    None
}

impl HttpClient {
    /// The fingerprint profile of the identity.
    pub closed spec fn profile(self) -> Emulation {
        self.emulation
    }

    /// The headers that the identity sends with every request, as names
    /// and values.
    pub closed spec fn fixed_headers(self) -> Seq<(Seq<char>, Seq<char>)> {
        header_texts(self.headers@)
    }

    /// Builds the identity for a profile. Of the configured headers it takes
    /// those that the transport accepts, in the configured order, and keeps
    /// one value for every name: a header whose name was configured before,
    /// in whatever mix of capital and small letters, gives its value to the
    /// header that is kept already.
    pub fn new(settings: &Settings, emulation: Emulation) -> (client: HttpClient)
        ensures
            client.profile() == emulation,
            client.fixed_headers() == accepted_headers(header_texts(settings.api.headers@)),
    {
        let configured = &settings.api.headers;
        let ghost texts = header_texts(configured@);
        let mut headers: Vec<(String, String)> = Vec::new();
        let mut i: usize = 0;
        while i < configured.len()
            invariant
                i <= configured@.len(),
                texts == header_texts(configured@),
                header_texts(headers@) == accepted_headers(texts.take(i as int)),
            decreases configured@.len() - i,
        {
            let ghost next = texts.take(i + 1);
            assert(next.drop_last() == texts.take(i as int));
            let name_ok = header_name_accepted(configured[i].0.as_str());
            let value_ok = header_value_accepted(configured[i].1.as_str());
            if name_ok && value_ok {
                let ghost kept = header_texts(headers@);
                proof {
                    lemma_accepted_names(texts.take(i as int));
                    assert(next.last() == (configured@[i as int].0@, configured@[i as int].1@));
                }
                let value = configured[i].1.clone();
                match position(&headers, configured[i].0.as_str()) {
                    Some(k) => {
                        let name = headers[k].0.clone();
                        headers.set(k, (name, value));
                        assert(header_texts(headers@) =~= kept.update(
                            k as int,
                            (kept[k as int].0, next.last().1),
                        ));
                    },
                    None => {
                        let name = configured[i].0.clone();
                        headers.push((name, value));
                        assert(header_texts(headers@) =~= kept.push(next.last()));
                    },
                }
            }
            i += 1;
        }
        assert(texts.take(configured@.len() as int) == texts);
        HttpClient { emulation, headers }
    }

    /// The fingerprint profile of the identity.
    pub fn emulation(&self) -> (profile: Emulation)
        ensures
            profile == self.profile(),
    {
        self.emulation
    }

    /// The headers of the identity.
    pub fn headers(&self) -> (headers: &Vec<(String, String)>)
        ensures
            header_texts(headers@) == self.fixed_headers(),
    {
        &self.headers
    }

    /// Prepares a GET request for `url` that carries the identity's headers.
    pub fn get(&self, url: &str) -> (request: Request)
        ensures
            request.url@ == url@,
            header_texts(request.headers@) == self.fixed_headers(),
    {
        Request { url: String::from_str(url), headers: copy_headers(&self.headers) }
    }
}

/// How the fetcher reads the result of one attempt.
#[derive(Debug, Clone, Copy, PartialEq, Eq, Structural)]
pub enum Outcome {
    /// The body is the answer.
    Success,
    /// The service asks for a pause; the same identity may try again.
    RateLimited,
    /// The identity is blocked; another one has to try.
    Forbidden,
    /// The gateway or the network failed; the same identity may try again.
    Transient,
    /// The service has no data for the key. This is no failure.
    SoftMiss,
    /// Nothing can be gained by trying again.
    Fatal,
}

/// What the transport reports of one attempt.
#[derive(Debug)]
pub enum Reply {
    /// A response arrived.
    Status { code: u16, body: Vec<u8> },
    /// No response arrived.
    Unreachable,
}

impl Reply {
    /// The reading of a reply. A status of 400 is a soft miss only where the
    /// endpoint answers so for a key it has no data for.
    pub open spec fn outcome(self, soft_miss_allowed: bool) -> Outcome {
        match self {
            Reply::Unreachable => Outcome::Transient,
            Reply::Status { code, .. } => if 200 <= code < 300 {
                Outcome::Success
            } else if code == 429 {
                Outcome::RateLimited
            } else if code == 403 {
                Outcome::Forbidden
            } else if code == 504 {
                Outcome::Transient
            } else if code == 400 && soft_miss_allowed {
                Outcome::SoftMiss
            } else {
                Outcome::Fatal
            },
        }
    }

    /// Reads the reply.
    pub fn classify(&self, soft_miss_allowed: bool) -> (outcome: Outcome)
        ensures
            outcome == self.outcome(soft_miss_allowed),
    {
        match self {
            Reply::Unreachable => Outcome::Transient,
            Reply::Status { code, .. } => {
                let code: u16 = *code;
                if 200 <= code && code < 300 {
                    Outcome::Success
                } else if code == 429 {
                    Outcome::RateLimited
                } else if code == 403 {
                    Outcome::Forbidden
                } else if code == 504 {
                    Outcome::Transient
                } else if code == 400 && soft_miss_allowed {
                    Outcome::SoftMiss
                } else {
                    Outcome::Fatal
                }
            },
        }
    }
}

/// The detail of the failure that a fatal status raises: the status and
/// the raw body.
pub open spec fn fatal_text(code: u16, body: Seq<u8>) -> Seq<char> {
    "status "@ + decimal(code as nat) + ": "@ + utf8_lossy(body)
}

/// What the fetcher does after an attempt.
#[derive(Debug)]
pub enum SendStep {
    /// Hand the body to the caller.
    Deliver(Vec<u8>),
    /// Tell the caller that there is no data for the key.
    NoData,
    /// Pause for `delay_ms` and a random share of at most `jitter_ms`, then
    /// attempt again, under another identity where `rotate` is set.
    Retry { delay_ms: u64, jitter_ms: u64, rotate: bool },
    /// Give up.
    Fail(Error),
}

/// The decision that the policy prescribes after an attempt.
pub enum Verdict {
    /// The body is handed to the caller.
    Deliver,
    /// The caller is told that there is no data.
    NoData,
    /// The request fails at once.
    Fatal,
    /// The request fails because the attempt cap is reached.
    Exhausted,
    /// Another attempt follows a pause whose fixed part is `delay_ms` and
    /// whose random share is at most `jitter_ms`.
    Retry { delay_ms: nat, jitter_ms: nat, rotate: bool },
}

/// The decision after attempt number `attempt`, counted from one, has ended
/// in `outcome`.
///
/// Success and soft miss end the request, a fatal outcome fails it. The
/// three retryable outcomes are treated alike: below the attempt cap another
/// attempt follows the pause of the backoff, whose random share is bounded
/// as the policy says; at the cap the request fails. Only a blocked identity
/// is rotated.
pub open spec fn verdict(policy: RetryPolicy, attempt: nat, outcome: Outcome) -> Verdict {
    match outcome {
        Outcome::Success => Verdict::Deliver,
        Outcome::SoftMiss => Verdict::NoData,
        Outcome::Fatal => Verdict::Fatal,
        _ => if attempt >= policy.max_attempts {
            Verdict::Exhausted
        } else {
            Verdict::Retry {
                delay_ms: backoff_ms(policy.base_delay_ms as nat, attempt + 1),
                jitter_ms: policy.jitter.bound(
                    backoff_ms(policy.base_delay_ms as nat, attempt + 1),
                ),
                rotate: outcome == Outcome::Forbidden,
            }
        },
    }
}

/// Whether an outcome leads to another attempt as long as the cap allows.
pub open spec fn is_retryable(outcome: Outcome) -> bool {
    outcome == Outcome::RateLimited || outcome == Outcome::Forbidden || outcome
        == Outcome::Transient
}

/// The number of the attempt at which a request ends when attempt `k` ends
/// in `script(k)`, counted on from attempt `from`.
pub open spec fn last_attempt(policy: RetryPolicy, script: spec_fn(nat) -> Outcome, from: nat) -> nat
    decreases policy.max_attempts - from,
{
    if from < policy.max_attempts && verdict(policy, from, script(from)) is Retry {
        last_attempt(policy, script, from + 1)
    } else {
        from
    }
}

/// Retry bound. A request whose every attempt ends in a retryable outcome
/// is attempted exactly as often as the policy allows and then fails as
/// exhausted, and the pause between attempt `j` and attempt `k = j + 1` has
/// the fixed part `base * 2^(k - 2)` and a random share within the bound
/// that the policy sets for a pause of that length.
pub proof fn lemma_retry_bound(policy: RetryPolicy, script: spec_fn(nat) -> Outcome, from: nat)
    requires
        policy.wf(),
        1 <= from <= policy.max_attempts,
        forall|k: nat| 1 <= k <= policy.max_attempts ==> is_retryable(#[trigger] script(k)),
    ensures
        last_attempt(policy, script, from) == policy.max_attempts,
        verdict(policy, policy.max_attempts as nat, script(policy.max_attempts as nat))
            == Verdict::Exhausted,
        forall|j: nat|
            1 <= j < policy.max_attempts ==> verdict(policy, j, #[trigger] script(j)) == (
            Verdict::Retry {
                delay_ms: (policy.base_delay_ms * pow2((j + 1 - 2) as nat)) as nat,
                jitter_ms: policy.jitter.bound(
                    (policy.base_delay_ms * pow2((j + 1 - 2) as nat)) as nat,
                ),
                rotate: script(j) == Outcome::Forbidden,
            }),
    decreases policy.max_attempts - from,
{
    if from < policy.max_attempts {
        lemma_retry_bound(policy, script, from + 1);
    }
}

impl HttpClient {
    /// Decides what follows attempt number `attempt` (counted from one) of a
    /// request, given the transport's reply to it.
    ///
    /// Success delivers the body and a soft miss reports the absence of
    /// data. A fatal status fails at once, with status and body in the
    /// failure. Every other outcome leads to another attempt after the
    /// policy's pause, until the attempt cap is reached; a blocked identity
    /// is rotated on the way.
    pub fn send(policy: &RetryPolicy, soft_miss_allowed: bool, attempt: u32, reply: Reply) -> (step:
        SendStep)
        requires
            policy.wf(),
            1 <= attempt <= policy.max_attempts,
        ensures
            match verdict(*policy, attempt as nat, reply.outcome(soft_miss_allowed)) {
                Verdict::Deliver => step matches SendStep::Deliver(body) && body@ == reply->body@,
                Verdict::NoData => step is NoData,
                Verdict::Fatal => step matches SendStep::Fail(Error::Http(reason)) && reason@
                    == fatal_text(reply->code, reply->body@),
                Verdict::Exhausted => step matches SendStep::Fail(Error::MaxRetriesExceeded),
                Verdict::Retry { delay_ms, jitter_ms, rotate } => {
                    &&& step matches SendStep::Retry { delay_ms: pause, jitter_ms: share, rotate: other }
                    &&& pause == delay_ms
                    &&& share == jitter_ms
                    &&& other == rotate
                    &&& pause + share <= u64::MAX
                },
            },
    {
        let outcome = reply.classify(soft_miss_allowed);
        match (outcome, reply) {
            (Outcome::Success, Reply::Status { body, .. }) => SendStep::Deliver(body),
            (Outcome::SoftMiss, _) => SendStep::NoData,
            (Outcome::Fatal, Reply::Status { code, body }) => {
                let mut reason = String::from_str("status ");
                push_decimal(&mut reason, code as u64);
                reason.append(": ");
                let raw = lossy_text(body.as_slice());
                reason.append(raw.as_str());
                SendStep::Fail(Error::Http(reason))
            },
            (Outcome::Success, Reply::Unreachable) => vstd::pervasive::unreached(),
            (Outcome::Fatal, Reply::Unreachable) => vstd::pervasive::unreached(),
            _ => match policy.after_failure(attempt) {
                None => SendStep::Fail(Error::MaxRetriesExceeded),
                Some(delay_ms) => SendStep::Retry {
                    delay_ms,
                    jitter_ms: policy.jitter.bound_for(delay_ms),
                    rotate: matches!(outcome, Outcome::Forbidden),
                },
            },
        }
    }
}

} // verus!
