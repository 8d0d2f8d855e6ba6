//! The error taxonomy and the classifier that normalises provider-reported
//! error strings into typed categories.
//!
//! The classifier scans the reported strings in order and returns on the
//! first string matching a known pattern; within one string the rate-limit
//! substring takes precedence over every prefix check.

use vstd::prelude::*;

use crate::text::{spec_contains_seq, spec_has_prefix, str_contains, str_has_prefix};

verus! {

/// Typed failures of the connectivity engine: transport-layer failures,
/// provider-reported failures (classified), and local invalid-usage failures.
#[derive(Debug)]
pub enum KrakenError {
    /// HTTP or lower-level I/O failure, reported by the transport.
    Transport(String),
    /// Provider-reported errors that match no known category; the original
    /// messages are kept verbatim.
    Kraken(Vec<String>),
    /// Provider errors with prefix `EGeneral:`, `EQuery:`, `EMarket:`,
    /// `EData:` or `EFunding:`.
    GeneralError { message: String },
    /// Provider errors with prefix `EAPI:`.
    ApiError { message: String },
    /// Provider errors with prefix `EService:`.
    ServiceError { message: String },
    /// Provider errors with prefix `EOrder:`.
    OrderError { message: String },
    /// Provider errors with prefix `ETrade:`.
    TradingError { message: String },
    /// Provider errors containing the rate-limit exhaustion text.
    RateLimitExceeded { message: String },
    /// Missing credentials, malformed secret, or other local misuse.
    InvalidUsage(String),
}

pub type KrakenResult<T> = Result<T, KrakenError>;

/// The known provider-error categories, in classification priority order.
#[derive(PartialEq, Eq, Structural, Clone, Copy, Debug)]
pub enum ErrorCategory {
    RateLimit,
    Api,
    General,
    Service,
    Order,
    Trading,
}

pub open spec fn spec_is_rate_limit(e: Seq<char>) -> bool {
    spec_contains_seq(e, "Rate limit exceeded"@)
}

pub open spec fn spec_is_api(e: Seq<char>) -> bool {
    spec_has_prefix(e, "EAPI:"@)
}

pub open spec fn spec_is_general(e: Seq<char>) -> bool {
    ||| spec_has_prefix(e, "EGeneral:"@)
    ||| spec_has_prefix(e, "EQuery:"@)
    ||| spec_has_prefix(e, "EMarket:"@)
    ||| spec_has_prefix(e, "EData:"@)
    ||| spec_has_prefix(e, "EFunding:"@)
}

pub open spec fn spec_is_service(e: Seq<char>) -> bool {
    spec_has_prefix(e, "EService:"@)
}

pub open spec fn spec_is_order(e: Seq<char>) -> bool {
    spec_has_prefix(e, "EOrder:"@)
}

pub open spec fn spec_is_trading(e: Seq<char>) -> bool {
    spec_has_prefix(e, "ETrade:"@)
}

/// The category one provider string falls in, if any; the rate-limit
/// substring takes precedence over every prefix.
pub open spec fn spec_category_of(e: Seq<char>) -> Option<ErrorCategory> {
    if spec_is_rate_limit(e) {
        Some(ErrorCategory::RateLimit)
    } else if spec_is_api(e) {
        Some(ErrorCategory::Api)
    } else if spec_is_general(e) {
        Some(ErrorCategory::General)
    } else if spec_is_service(e) {
        Some(ErrorCategory::Service)
    } else if spec_is_order(e) {
        Some(ErrorCategory::Order)
    } else if spec_is_trading(e) {
        Some(ErrorCategory::Trading)
    } else {
        None
    }
}

/// The index and category of the first string matching a known pattern,
/// scanning in list order; `None` when no string matches.
pub open spec fn spec_classify(errs: Seq<Seq<char>>) -> Option<(int, ErrorCategory)>
    decreases errs.len(),
{
    if errs.len() == 0 {
        None
    } else if spec_category_of(errs[0]) is Some {
        Some((0, spec_category_of(errs[0]).unwrap()))
    } else {
        match spec_classify(errs.drop_first()) {
            Some(ic) => Some((ic.0 + 1, ic.1)),
            None => None,
        }
    }
}

/// First-match-wins: classification picks the first string with a known
/// category and looks at no later string.
pub proof fn lemma_classify_first_match(errs: Seq<Seq<char>>)
    ensures
        match spec_classify(errs) {
            None => forall|j: int| 0 <= j < errs.len() ==> spec_category_of(#[trigger] errs[j]) is None,
            Some(ic) => {
                &&& 0 <= ic.0 < errs.len()
                &&& spec_category_of(errs[ic.0]) == Some(ic.1)
                &&& forall|j: int| 0 <= j < ic.0 ==> spec_category_of(#[trigger] errs[j]) is None
            },
        },
    decreases errs.len(),
{
    if errs.len() > 0 && spec_category_of(errs[0]) is None {
        lemma_classify_first_match(errs.drop_first());
        assert forall|j: int| 1 <= j < errs.len() implies errs.drop_first()[j - 1] == errs[j] by {}
    }
}

/// If every string before index `i` matches nothing and the string at `i`
/// matches, classification lands exactly on index `i`.
pub proof fn lemma_classify_at(errs: Seq<Seq<char>>, i: int)
    requires
        0 <= i < errs.len(),
        spec_category_of(errs[i]) is Some,
        forall|j: int| 0 <= j < i ==> spec_category_of(#[trigger] errs[j]) is None,
    ensures
        spec_classify(errs) == Some((i, spec_category_of(errs[i]).unwrap())),
    decreases i,
{
    if i > 0 {
        lemma_classify_at(errs.drop_first(), i - 1);
    }
}

/// If no string matches any known pattern, classification yields nothing.
pub proof fn lemma_classify_none(errs: Seq<Seq<char>>)
    requires
        forall|j: int| 0 <= j < errs.len() ==> spec_category_of(#[trigger] errs[j]) is None,
    ensures
        spec_classify(errs) is None,
    decreases errs.len(),
{
    if errs.len() > 0 {
        lemma_classify_none(errs.drop_first());
    }
}

/// A list holding a string with prefix `EAPI:` — one that does not itself
/// carry the rate-limit text — classifies as the API category, regardless
/// of the strings after it, as long as no earlier string matches any known
/// pattern (in particular, no rate-limit text appears earlier).
pub proof fn lemma_api_priority(errs: Seq<Seq<char>>, i: int)
    requires
        0 <= i < errs.len(),
        spec_is_api(errs[i]),
        !spec_is_rate_limit(errs[i]),
        forall|j: int| 0 <= j < i ==> spec_category_of(#[trigger] errs[j]) is None,
    ensures
        spec_classify(errs) == Some((i, ErrorCategory::Api)),
{
    lemma_classify_at(errs, i);
}

fn category_of(e: &str) -> (r: Option<ErrorCategory>)
    ensures
        r == spec_category_of(e@),
{
    if str_contains(e, "Rate limit exceeded") {
        Some(ErrorCategory::RateLimit)
    } else if str_has_prefix(e, "EAPI:") {
        Some(ErrorCategory::Api)
    } else if str_has_prefix(e, "EGeneral:") || str_has_prefix(e, "EQuery:") || str_has_prefix(
        e,
        "EMarket:",
    ) || str_has_prefix(e, "EData:") || str_has_prefix(e, "EFunding:") {
        Some(ErrorCategory::General)
    } else if str_has_prefix(e, "EService:") {
        Some(ErrorCategory::Service)
    } else if str_has_prefix(e, "EOrder:") {
        Some(ErrorCategory::Order)
    } else if str_has_prefix(e, "ETrade:") {
        Some(ErrorCategory::Trading)
    } else {
        None
    }
}

/// `r` is exactly what classification of the error strings `es` yields: the
/// first string with a known category decides variant and message; a list
/// matching nothing is kept verbatim (the empty list among them).
pub open spec fn classified(es: Seq<Seq<char>>, r: KrakenError) -> bool {
    match spec_classify(es) {
        None => r matches KrakenError::Kraken(v) && v.deep_view() =~= es,
        Some(ic) => {
            &&& 0 <= ic.0 < es.len()
            &&& match ic.1 {
                ErrorCategory::RateLimit => r matches KrakenError::RateLimitExceeded { message }
                    && message@ == es[ic.0],
                ErrorCategory::Api => r matches KrakenError::ApiError { message } && message@
                    == es[ic.0],
                ErrorCategory::General => r matches KrakenError::GeneralError { message }
                    && message@ == es[ic.0],
                ErrorCategory::Service => r matches KrakenError::ServiceError { message }
                    && message@ == es[ic.0],
                ErrorCategory::Order => r matches KrakenError::OrderError { message } && message@
                    == es[ic.0],
                ErrorCategory::Trading => r matches KrakenError::TradingError { message }
                    && message@ == es[ic.0],
            }
        },
    }
}

impl KrakenError {
    /// One line of text naming the failure's category and carrying its
    /// message, for reporting.
    pub fn describe(&self) -> (r: String)
        ensures
            match self {
                KrakenError::Transport(m) => r@ == "HTTP error: "@ + m@,
                KrakenError::Kraken(_) => r@ == "Kraken returned unclassified error(s)"@,
                KrakenError::GeneralError { message } => r@ == "Kraken general error: "@
                    + message@,
                KrakenError::ApiError { message } => r@ == "Kraken API error: "@ + message@,
                KrakenError::ServiceError { message } => r@ == "Kraken service error: "@
                    + message@,
                KrakenError::OrderError { message } => r@ == "Kraken order error: "@ + message@,
                KrakenError::TradingError { message } => r@ == "Kraken trading error: "@
                    + message@,
                KrakenError::RateLimitExceeded { message } => r@ == "Rate limit exceeded: "@
                    + message@,
                KrakenError::InvalidUsage(m) => r@ == "Invalid usage: "@ + m@,
            },
    {
        match self {
            KrakenError::Transport(m) => String::from_str("HTTP error: ").concat(m.as_str()),
            KrakenError::Kraken(_) => String::from_str("Kraken returned unclassified error(s)"),
            KrakenError::GeneralError { message } => String::from_str(
                "Kraken general error: ",
            ).concat(message.as_str()),
            KrakenError::ApiError { message } => String::from_str("Kraken API error: ").concat(
                message.as_str(),
            ),
            KrakenError::ServiceError { message } => String::from_str(
                "Kraken service error: ",
            ).concat(message.as_str()),
            KrakenError::OrderError { message } => String::from_str("Kraken order error: ").concat(
                message.as_str(),
            ),
            KrakenError::TradingError { message } => String::from_str(
                "Kraken trading error: ",
            ).concat(message.as_str()),
            KrakenError::RateLimitExceeded { message } => String::from_str(
                "Rate limit exceeded: ",
            ).concat(message.as_str()),
            KrakenError::InvalidUsage(m) => String::from_str("Invalid usage: ").concat(m.as_str()),
        }
    }

    /// Classify a list of provider error strings: the first string matching
    /// a known pattern decides the category and supplies the message; a list
    /// matching nothing is kept verbatim; the empty list stands for "no
    /// error information available".
    pub fn from_kraken_errors(errors: Vec<String>) -> (r: KrakenError)
        ensures
            classified(errors.deep_view(), r),
    {
        let ghost es = errors.deep_view();
        let n = errors.len();
        for k in 0..n
            invariant
                n == errors@.len(),
                es == errors.deep_view(),
                forall|j: int| 0 <= j < k ==> spec_category_of(#[trigger] es[j]) is None,
        {
            assert(es[k as int] == errors@[k as int]@);
            let cat = category_of(errors[k].as_str());
            if let Some(c) = cat {
                let message = errors[k].clone();
                proof {
                    lemma_classify_at(es, k as int);
                }
                return match c {
                    ErrorCategory::RateLimit => KrakenError::RateLimitExceeded { message },
                    ErrorCategory::Api => KrakenError::ApiError { message },
                    ErrorCategory::General => KrakenError::GeneralError { message },
                    ErrorCategory::Service => KrakenError::ServiceError { message },
                    ErrorCategory::Order => KrakenError::OrderError { message },
                    ErrorCategory::Trading => KrakenError::TradingError { message },
                };
            }
        }
        proof {
            lemma_classify_none(es);
        }
        KrakenError::Kraken(errors)
    }
}

} // verus!
