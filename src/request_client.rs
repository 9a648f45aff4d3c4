//! Decisions of the request layer: how each attempt's outcome is classified,
//! when to retry and how long to wait, and how response bodies are decoded.
use vstd::arithmetic::power2::{lemma2_to64, lemma_pow2_strictly_increases, lemma_pow2_unfold, pow2};
use vstd::prelude::*;

use crate::schemas::event::{CalendarDate, Decimal, EventFilter, EventFilterView};
use crate::text::{decimal, push_decimal, string_from};

verus! {

/// Classified failure of a backend call.
#[derive(Debug)]
pub enum RequestClientError {
    /// The transport failed for a reason other than a timeout.
    Reqwest(String),
    /// A response arrived with an HTTP status outside the success range.
    Status(u16),
    /// Every attempt timed out.
    TimeOut,
    /// The response body was not JSON.
    JsonParse(String),
}

/// What one attempt of a request came to.
#[derive(Debug)]
pub enum AttemptOutcome {
    /// A response arrived with this HTTP status.
    Response(u16),
    /// The transport gave up waiting.
    TimedOut,
    /// The transport failed otherwise; the text says why.
    Failed(String),
}

/// What the retry policy decides after an attempt.
#[derive(Debug)]
pub enum RetryStep {
    /// The call succeeded; the response may be read.
    Succeeded,
    /// The call failed and is not tried again.
    Fail(RequestClientError),
    /// Wait a random number of seconds below `backoff_limit`, then make
    /// attempt number `next_attempt`.
    Retry { next_attempt: u8, backoff_limit: u64 },
}

pub open spec fn is_success_status(status: u16) -> bool {
    200 <= status <= 299
}

/// Upper bound (exclusive) of the wait after the attempt numbered `attempt`,
/// counted from zero: `2^attempt` seconds, saturated at `u64::MAX`.
pub open spec fn backoff_bound(attempt: nat) -> nat {
    if attempt < 64 {
        pow2(attempt)
    } else {
        u64::MAX as nat
    }
}

/// The decision after attempt number `attempt` (from zero) out of
/// `max_retries`.
pub open spec fn retry_decision(attempt: nat, max_retries: nat, outcome: AttemptOutcome) -> RetryStep {
    match outcome {
        AttemptOutcome::Response(status) => {
            if is_success_status(status) {
                RetryStep::Succeeded
            } else {
                RetryStep::Fail(RequestClientError::Status(status))
            }
        },
        AttemptOutcome::TimedOut => {
            if attempt + 1 < max_retries {
                RetryStep::Retry {
                    next_attempt: (attempt + 1) as u8,
                    backoff_limit: backoff_bound(attempt) as u64,
                }
            } else {
                RetryStep::Fail(RequestClientError::TimeOut)
            }
        },
        AttemptOutcome::Failed(m) => RetryStep::Fail(RequestClientError::Reqwest(m)),
    }
}

/// The step that ends a run of the policy over successive attempt outcomes,
/// from attempt number `attempt` on, and how many attempts were made in all.
pub open spec fn run_retries(outcomes: Seq<AttemptOutcome>, max_retries: nat, attempt: nat) -> (
    RetryStep,
    nat,
)
    decreases max_retries - attempt,
{
    if attempt >= max_retries || attempt >= outcomes.len() {
        (RetryStep::Fail(RequestClientError::TimeOut), attempt)
    } else {
        match retry_decision(attempt, max_retries, outcomes[attempt as int]) {
            RetryStep::Retry { .. } => run_retries(outcomes, max_retries, attempt + 1),
            step => (step, attempt + 1),
        }
    }
}

proof fn lemma_timeouts_then_success_from(
    outcomes: Seq<AttemptOutcome>,
    max_retries: nat,
    k: nat,
    from: nat,
)
    requires
        max_retries <= 255,
        from <= k < max_retries,
        k < outcomes.len(),
        forall|i: int| 0 <= i < k ==> outcomes[i] is TimedOut,
        outcomes[k as int] matches AttemptOutcome::Response(s) && is_success_status(s),
    ensures
        run_retries(outcomes, max_retries, from) == (RetryStep::Succeeded, k + 1),
    decreases k - from,
{
    if from < k {
        lemma_timeouts_then_success_from(outcomes, max_retries, k, from + 1);
    }
}

/// A request that times out `k` times, fewer than the retry limit, and then
/// gets a successful response succeeds after exactly `k + 1` attempts.
pub proof fn lemma_timeouts_then_success(outcomes: Seq<AttemptOutcome>, max_retries: u8, k: nat)
    requires
        k < max_retries,
        k < outcomes.len(),
        forall|i: int| 0 <= i < k ==> outcomes[i] is TimedOut,
        outcomes[k as int] matches AttemptOutcome::Response(s) && is_success_status(s),
    ensures
        run_retries(outcomes, max_retries as nat, 0) == (RetryStep::Succeeded, k + 1),
{
    lemma_timeouts_then_success_from(outcomes, max_retries as nat, k, 0);
}

proof fn lemma_always_timing_out_from(outcomes: Seq<AttemptOutcome>, max_retries: nat, from: nat)
    requires
        max_retries <= 255,
        from <= max_retries <= outcomes.len(),
        forall|i: int| 0 <= i < outcomes.len() ==> outcomes[i] is TimedOut,
    ensures
        run_retries(outcomes, max_retries, from) == (
            RetryStep::Fail(RequestClientError::TimeOut),
            max_retries,
        ),
    decreases max_retries - from,
{
    if from < max_retries {
        lemma_always_timing_out_from(outcomes, max_retries, from + 1);
    }
}

/// A request that always times out fails with `TimeOut` after exactly
/// `max_retries` attempts.
pub proof fn lemma_always_timing_out(outcomes: Seq<AttemptOutcome>, max_retries: u8)
    requires
        max_retries <= outcomes.len(),
        forall|i: int| 0 <= i < outcomes.len() ==> outcomes[i] is TimedOut,
    ensures
        run_retries(outcomes, max_retries as nat, 0) == (
            RetryStep::Fail(RequestClientError::TimeOut),
            max_retries as nat,
        ),
{
    lemma_always_timing_out_from(outcomes, max_retries as nat, 0);
}

/// `2^attempt`, saturated at `u64::MAX`.
pub fn backoff_limit(attempt: u8) -> (r: u64)
    ensures
        r == backoff_bound(attempt as nat),
        r >= 1,
{
    if attempt >= 64 {
        return u64::MAX;
    }
    let mut r: u64 = 1;
    let mut i: u8 = 0;
    proof {
        lemma2_to64();
    }
    while i < attempt
        invariant
            i <= attempt < 64,
            r == pow2(i as nat),
        decreases attempt - i,
    {
        proof {
            lemma_pow2_unfold((i + 1) as nat);
            if i + 1 < 64 {
                lemma_pow2_strictly_increases((i + 1) as nat, 64);
            }
            lemma2_to64();
        }
        r = r * 2;
        i = i + 1;
    }
    proof {
        if attempt > 0 {
            lemma_pow2_strictly_increases(0, attempt as nat);
        }
    }
    r
}

/// Relies on `rand::random_range`: an integer drawn from `0..bound`, which is
/// not empty.
#[verifier::external_body]
fn random_below(bound: u64) -> (r: u64)
    requires
        bound > 0,
    ensures
        r < bound,
{
    rand::random_range(0..bound)
}

/// A random wait, in seconds, before retrying after attempt number
/// `attempt`: somewhere in `[0, 2^attempt)`.
pub fn backoff_delay(attempt: u8) -> (r: u64)
    ensures
        r < backoff_bound(attempt as nat),
{
    random_below(backoff_limit(attempt))
}

/// Decides what follows attempt number `attempt` (from zero) of at most
/// `max_retries`. Only a timeout is retried; a response outside the success
/// range and any other transport failure end the call at once, and a timeout
/// of the last allowed attempt ends it with `TimeOut`.
pub fn retry_step(attempt: u8, max_retries: u8, outcome: AttemptOutcome) -> (r: RetryStep)
    ensures
        r == retry_decision(attempt as nat, max_retries as nat, outcome),
{
    match outcome {
        AttemptOutcome::Response(status) => {
            if 200 <= status && status <= 299 {
                RetryStep::Succeeded
            } else {
                RetryStep::Fail(RequestClientError::Status(status))
            }
        },
        AttemptOutcome::TimedOut => {
            if attempt < max_retries && attempt + 1 < max_retries {
                RetryStep::Retry { next_attempt: attempt + 1, backoff_limit: backoff_limit(attempt) }
            } else {
                RetryStep::Fail(RequestClientError::TimeOut)
            }
        },
        AttemptOutcome::Failed(m) => RetryStep::Fail(RequestClientError::Reqwest(m)),
    }
}


#[verifier::external_type_specification]
#[verifier::external_body]
pub struct ExJsonValue(serde_json::Value);

/// Whether `serde_json` reads the text as one JSON value.
pub uninterp spec fn json_accepts(text: Seq<char>) -> bool;

/// Relies on `serde_json::from_str` into a `serde_json::Value`: it succeeds
/// exactly on the texts that hold one JSON value, which depends on the text
/// alone; its error is kept as its message.
#[verifier::external_body]
fn parse_json(text: &str) -> (r: Result<serde_json::Value, String>)
    ensures
        r is Ok <==> json_accepts(text@),
{
    serde_json::from_str::<serde_json::Value>(text).map_err(|e| e.to_string())
}

/// Decodes a successful response's body: an empty body carries no payload,
/// anything else must be JSON.
pub fn decode_body(body: &str) -> (r: Result<Option<serde_json::Value>, RequestClientError>)
    ensures
        body@.len() == 0 ==> r matches Ok(None),
        body@.len() > 0 ==> (r is Ok <==> json_accepts(body@)),
        body@.len() > 0 && r is Ok ==> r matches Ok(Some(_)),
        r is Err ==> r matches Err(RequestClientError::JsonParse(_)),
{
    if body.is_empty() {
        Ok(None)
    } else {
        match parse_json(body) {
            Ok(v) => Ok(Some(v)),
            Err(m) => Err(RequestClientError::JsonParse(m)),
        }
    }
}

/// The full address of a backend endpoint.
pub fn endpoint_url(base: &str, path: &str) -> (r: String)
    ensures
        r@ == base@ + seq!['/'] + path@,
{
    let mut r = base.to_owned();
    r.append("/");
    r.append(path);
    proof { reveal_strlit("/"); }
    r
}

/// `n` zeros.
pub open spec fn zeros(n: nat) -> Seq<char> {
    Seq::new(n, |i: int| '0')
}

/// The text padded on the left with zeros to at least `width` characters.
pub open spec fn zero_pad(s: Seq<char>, width: nat) -> Seq<char> {
    if s.len() >= width {
        s
    } else {
        zeros((width - s.len()) as nat) + s
    }
}

/// Decimal notation of a decimal number: its digits, with a point before
/// the last `scale` of them and at least one digit before the point.
pub open spec fn decimal_text(d: Decimal) -> Seq<char> {
    let ds = decimal(d.units as nat);
    if d.scale == 0 {
        ds
    } else if ds.len() > d.scale {
        ds.take(ds.len() - d.scale) + seq!['.'] + ds.skip(ds.len() - d.scale)
    } else {
        seq!['0', '.'] + zeros((d.scale - ds.len()) as nat) + ds
    }
}

/// A date as year-month-day, with four digits of year and two of month and
/// day.
pub open spec fn date_text(d: CalendarDate) -> Seq<char> {
    let year = if d.year < 0 {
        seq!['-'] + zero_pad(decimal((-d.year) as nat), 4)
    } else {
        zero_pad(decimal(d.year as nat), 4)
    };
    year + seq!['-'] + zero_pad(decimal(d.month as nat), 2) + seq!['-'] + zero_pad(
        decimal(d.day as nat),
        2,
    )
}

/// Keywords joined by `+`.
pub open spec fn joined_keywords(ks: Seq<Seq<char>>) -> Seq<char>
    decreases ks.len(),
{
    if ks.len() == 0 {
        Seq::empty()
    } else if ks.len() == 1 {
        ks[0]
    } else {
        joined_keywords(ks.drop_last()) + seq!['+'] + ks.last()
    }
}

pub open spec fn entry(key: Seq<char>, value: Option<Seq<char>>) -> Seq<(Seq<char>, Seq<char>)> {
    match value {
        Some(v) => seq![(key, v)],
        None => Seq::empty(),
    }
}

/// The query parameters that send a filter to the backend, in this order:
/// highest and lowest price, earliest and latest date, category, keywords.
pub open spec fn filter_query(f: EventFilterView) -> Seq<(Seq<char>, Seq<char>)> {
    entry("precioPesosMax"@, match f.max_price { Some(p) => Some(decimal_text(p)), None => None })
        + entry("precioPesosMin"@, match f.min_price { Some(p) => Some(decimal_text(p)), None => None })
        + entry("fechaInicioMin"@, match f.min_date { Some(d) => Some(date_text(d)), None => None })
        + entry("fechaInicioMax"@, match f.max_date { Some(d) => Some(date_text(d)), None => None })
        + entry("categoria"@, f.category)
        + entry("palabrasClave"@, match f.keywords { Some(k) => Some(joined_keywords(k)), None => None })
}

pub open spec fn pairs_view(v: Seq<(String, String)>) -> Seq<(Seq<char>, Seq<char>)> {
    v.map_values(|p: (String, String)| (p.0@, p.1@))
}

fn push_padded(n: u64, width: usize, out: &mut Vec<char>)
    ensures
        final(out)@ == old(out)@ + zero_pad(decimal(n as nat), width as nat),
{
    let mut digits: Vec<char> = Vec::new();
    push_decimal(n, &mut digits);
    assert(digits@ =~= decimal(n as nat));
    let ghost start = out@;
    if digits.len() < width {
        let mut k: usize = digits.len();
        while k < width
            invariant
                digits.len() <= k <= width,
                out@ == start + zeros((k - digits.len()) as nat),
            decreases width - k,
        {
            out.push('0');
            k = k + 1;
            assert(out@ =~= start + zeros((k - digits.len()) as nat));
        }
    }
    let ghost mid = out@;
    let mut i: usize = 0;
    while i < digits.len()
        invariant
            i <= digits.len(),
            out@ == mid + digits@.take(i as int),
        decreases digits.len() - i,
    {
        out.push(digits[i]);
        i = i + 1;
        assert(out@ =~= mid + digits@.take(i as int));
    }
    assert(digits@.take(digits.len() as int) =~= digits@);
    assert(out@ =~= old(out)@ + zero_pad(decimal(n as nat), width as nat));
}

fn push_zeros(n: usize, out: &mut Vec<char>)
    ensures
        final(out)@ == old(out)@ + zeros(n as nat),
{
    let mut k: usize = 0;
    while k < n
        invariant
            k <= n,
            out@ == old(out)@ + zeros(k as nat),
        decreases n - k,
    {
        out.push('0');
        k = k + 1;
        assert(out@ =~= old(out)@ + zeros(k as nat));
    }
}

fn push_range(v: &Vec<char>, from: usize, to: usize, out: &mut Vec<char>)
    requires
        from <= to <= v@.len(),
    ensures
        final(out)@ == old(out)@ + v@.subrange(from as int, to as int),
{
    let mut i: usize = from;
    while i < to
        invariant
            from <= i <= to <= v@.len(),
            out@ == old(out)@ + v@.subrange(from as int, i as int),
        decreases to - i,
    {
        out.push(v[i]);
        i = i + 1;
        assert(out@ =~= old(out)@ + v@.subrange(from as int, i as int));
    }
}

/// Decimal notation of a decimal number.
pub fn decimal_string(d: Decimal) -> (r: String)
    ensures
        r@ == decimal_text(d),
{
    let mut ds: Vec<char> = Vec::new();
    push_decimal(d.units, &mut ds);
    assert(ds@ =~= decimal(d.units as nat));
    if d.scale == 0 {
        return string_from(ds.as_slice());
    }
    let mut out: Vec<char> = Vec::new();
    if ds.len() > d.scale as usize {
        let split = ds.len() - d.scale as usize;
        push_range(&ds, 0, split, &mut out);
        out.push('.');
        push_range(&ds, split, ds.len(), &mut out);
        assert(ds@.take(split as int) =~= ds@.subrange(0, split as int));
        assert(ds@.skip(split as int) =~= ds@.subrange(split as int, ds@.len() as int));
    } else {
        out.push('0');
        out.push('.');
        push_zeros(d.scale as usize - ds.len(), &mut out);
        push_range(&ds, 0, ds.len(), &mut out);
        assert(ds@.subrange(0, ds@.len() as int) =~= ds@);
    }
    assert(out@ =~= decimal_text(d));
    string_from(out.as_slice())
}

/// A date as year-month-day.
pub fn date_string(d: CalendarDate) -> (r: String)
    ensures
        r@ == date_text(d),
{
    let mut out: Vec<char> = Vec::new();
    if d.year < 0 {
        out.push('-');
        push_padded((-(d.year as i64)) as u64, 4, &mut out);
    } else {
        push_padded(d.year as u64, 4, &mut out);
    }
    out.push('-');
    push_padded(d.month as u64, 2, &mut out);
    out.push('-');
    push_padded(d.day as u64, 2, &mut out);
    assert(out@ =~= date_text(d));
    string_from(out.as_slice())
}

/// Keywords joined by `+`.
pub fn join_keywords(ks: &Vec<String>) -> (r: String)
    ensures
        r@ == joined_keywords(ks@.map_values(|s: String| s@)),
{
    let ghost kv = ks@.map_values(|s: String| s@);
    let mut out = String::new();
    let mut i: usize = 0;
    while i < ks.len()
        invariant
            i <= ks@.len(),
            kv == ks@.map_values(|s: String| s@),
            out@ == joined_keywords(kv.take(i as int)),
        decreases ks@.len() - i,
    {
        if i > 0 {
            out.append("+");
        }
        out.append(ks[i].as_str());
        proof {
            reveal_strlit("+");
            let t = kv.take(i + 1);
            assert(t.drop_last() =~= kv.take(i as int));
            assert(t.last() == ks@[i as int]@);
            if i == 0 {
                assert(t =~= seq![ks@[0]@]);
            }
        }
        i = i + 1;
    }
    assert(kv.take(ks@.len() as int) =~= kv);
    out
}

fn push_entry(out: &mut Vec<(String, String)>, key: &str, value: String)
    ensures
        pairs_view(final(out)@) == pairs_view(old(out)@) + seq![(key@, value@)],
{
    out.push((key.to_owned(), value));
    assert(pairs_view(out@) =~= pairs_view(old(out)@) + seq![(key@, value@)]);
}

/// The query parameters that send a filter to the backend.
pub fn event_filter_query(filters: &EventFilter) -> (r: Vec<(String, String)>)
    ensures
        pairs_view(r@) == filter_query(filters@),
{
    let mut q: Vec<(String, String)> = Vec::new();
    let ghost f = filters@;
    assert(pairs_view(q@) =~= Seq::<(Seq<char>, Seq<char>)>::empty());
    if let Some(p) = filters.max_price {
        push_entry(&mut q, "precioPesosMax", decimal_string(p));
    }
    let ghost q1 = pairs_view(q@);
    if let Some(p) = filters.min_price {
        push_entry(&mut q, "precioPesosMin", decimal_string(p));
    }
    let ghost q2 = pairs_view(q@);
    if let Some(d) = filters.min_date {
        push_entry(&mut q, "fechaInicioMin", date_string(d));
    }
    let ghost q3 = pairs_view(q@);
    if let Some(d) = filters.max_date {
        push_entry(&mut q, "fechaInicioMax", date_string(d));
    }
    let ghost q4 = pairs_view(q@);
    if let Some(c) = &filters.category {
        push_entry(&mut q, "categoria", c.clone());
    }
    let ghost q5 = pairs_view(q@);
    if let Some(k) = &filters.keywords {
        push_entry(&mut q, "palabrasClave", join_keywords(k));
    }
    assert(pairs_view(q@) =~= filter_query(f));
    q
}

} // verus!
