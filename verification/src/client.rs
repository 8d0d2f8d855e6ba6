//! The REST dispatcher's verified core: credential checks, nonce placement,
//! form building, signing, and the envelope decode-then-classify step that
//! every call goes through. The transport itself (HTTP) lives outside; it
//! hands bodies in and carries prepared requests out.

use vstd::prelude::*;

use crate::error::{classified, KrakenError};
use crate::json::{json_seq_view, lemma_json_seq_view, spec_digits, spec_obj_get, u64_to_string};
use crate::json::{clone_json, obj_get, Json, JsonValue};
use crate::parse::{parse_json, spec_parse_json};
use crate::signing::{fields_view, sign, spec_signature};

verus! {

/// Relies on std's `SystemTime`: the clock reading in microseconds since the
/// epoch, or zero if the clock stands before it. Time-dependent, so nothing
/// more is promised of the value.
#[verifier::external_body]
pub fn now_micros() -> u64 {
    match std::time::SystemTime::now().duration_since(std::time::UNIX_EPOCH) {
        Ok(d) => d.as_micros() as u64,
        Err(_) => 0,
    }
}

/// A fully prepared private request: the path, the ordered form fields with
/// the nonce first, and the two transport headers to carry.
pub struct SignedRequest {
    pub path: String,
    pub fields: Vec<(String, String)>,
    pub api_key: String,
    pub signature: String,
}

/// A client for the exchange's REST surface: optional credentials and the
/// base URL. Credentials are immutable once constructed and never serialised.
pub struct KrakenClient {
    pub api_key: Option<String>,
    pub api_secret: Option<String>,
    pub base_url: String,
}

impl KrakenClient {
    /// Build a client; the base URL defaults to the exchange's public
    /// endpoint. Private calls fail without both credential fields.
    pub fn new(api_key: Option<String>, api_secret: Option<String>, base_url: Option<String>) -> (r:
        KrakenClient)
        ensures
            r.api_key == api_key,
            r.api_secret == api_secret,
            match base_url {
                Some(u) => r.base_url == u,
                None => r.base_url@ == "https://api.kraken.com"@,
            },
    {
        let url = match base_url {
            Some(u) => u,
            None => String::from_str("https://api.kraken.com"),
        };
        KrakenClient { api_key, api_secret, base_url: url }
    }

    /// Prepare one private call without touching the network: require both
    /// credential fields, place the nonce first, keep the caller's
    /// parameters in their order, and sign. Fails with an invalid-usage
    /// error naming the missing credential, or the malformed secret.
    pub fn prepare_private_request(
        &self,
        path: &str,
        params: &Vec<(String, String)>,
        nonce: u64,
    ) -> (r: Result<SignedRequest, KrakenError>)
        ensures
            self.api_key is None ==> (r matches Err(e) && e matches KrakenError::InvalidUsage(m)
                && m@ == "API key not set"@),
            self.api_key is Some && self.api_secret is None ==> (r matches Err(e)
                && e matches KrakenError::InvalidUsage(m) && m@ == "API secret not set"@),
            self.api_key is Some && self.api_secret is Some ==> {
                let fields = seq![("nonce"@, spec_digits(nonce as nat))] + fields_view(params@);
                match spec_signature(self.api_secret.unwrap()@, path@, fields, nonce) {
                    None => r matches Err(e) && e matches KrakenError::InvalidUsage(m) && m@
                        == "Could not decode API secret from base64"@,
                    Some(sig) => r matches Ok(req) && {
                        &&& req.path@ == path@
                        &&& fields_view(req.fields@) == fields
                        &&& req.api_key == self.api_key.unwrap()
                        &&& req.signature@ == sig
                    },
                }
            },
    {
        let api_key = match &self.api_key {
            Some(k) => k.clone(),
            None => {
                return Err(KrakenError::InvalidUsage(String::from_str("API key not set")));
            },
        };
        let secret = match &self.api_secret {
            Some(s) => s,
            None => {
                return Err(KrakenError::InvalidUsage(String::from_str("API secret not set")));
            },
        };
        let mut form_data: Vec<(String, String)> = Vec::new();
        form_data.push((String::from_str("nonce"), u64_to_string(nonce)));
        let n = params.len();
        for i in 0..n
            invariant
                n == params@.len(),
                form_data@.len() == i + 1,
                form_data@[0].0@ == "nonce"@,
                form_data@[0].1@ == spec_digits(nonce as nat),
                forall|q: int|
                    1 <= q <= i ==> (#[trigger] form_data@[q]).0@ == params@[q - 1].0@
                        && form_data@[q].1@ == params@[q - 1].1@,
        {
            form_data.push((params[i].0.clone(), params[i].1.clone()));
        }
        let ghost fields = seq![("nonce"@, spec_digits(nonce as nat))] + fields_view(params@);
        proof {
            assert forall|q: int| 0 <= q < n + 1 implies fields_view(form_data@)[q] =~~= fields[q]
            by {
                assert(fields_view(form_data@)[q] == (form_data@[q].0@, form_data@[q].1@));
            }
            assert(fields_view(form_data@) =~~= fields);
        }
        match sign(secret.as_str(), path, &form_data, nonce) {
            Err(e) => Err(e),
            Ok(signature) => Ok(
                SignedRequest { path: path.to_owned(), fields: form_data, api_key, signature },
            ),
        }
    }

    /// Gate the envelope: an empty error list means the payload stands; a
    /// non-empty one is classified. No call bypasses this step.
    pub fn check_envelope(errors: Vec<String>) -> (r: Result<(), KrakenError>)
        ensures
            errors@.len() == 0 <==> r is Ok,
            r matches Err(e) ==> classified(errors.deep_view(), e),
    {
        if errors.is_empty() {
            Ok(())
        } else {
            Err(KrakenError::from_kraken_errors(errors))
        }
    }
}

/// The strings of a JSON array, when every item is one.
pub open spec fn spec_str_items(items: Seq<Json>) -> Option<Seq<Seq<char>>>
    decreases items.len(),
{
    if items.len() == 0 {
        Some(Seq::empty())
    } else {
        match items[0] {
            Json::Str(s) => match spec_str_items(items.drop_first()) {
                Some(rest) => Some(seq![s] + rest),
                None => None,
            },
            _ => None,
        }
    }
}

fn str_items_from(items: &Vec<JsonValue>, from: usize) -> (r: Option<Vec<String>>)
    requires
        from <= items@.len(),
    ensures
        match r {
            Some(out) => spec_str_items(json_seq_view(items@).skip(from as int)) == Some(
                out.deep_view(),
            ),
            None => spec_str_items(json_seq_view(items@).skip(from as int)) is None,
        },
    decreases items@.len() - from,
{
    let ghost iv = json_seq_view(items@);
    proof {
        lemma_json_seq_view(items@);
    }
    if from >= items.len() {
        let out: Vec<String> = Vec::new();
        proof {
            assert(iv.skip(from as int).len() == 0);
            assert(out.deep_view() =~= Seq::<Seq<char>>::empty());
        }
        return Some(out);
    }
    proof {
        assert(iv.skip(from as int)[0] == iv[from as int]);
        assert(iv[from as int] == items@[from as int]@);
        assert(iv.skip(from as int).drop_first() =~= iv.skip(from + 1));
    }
    match &items[from] {
        JsonValue::Str(s) => {
            let ghost sv = s@;
            let first = s.clone();
            match str_items_from(items, from + 1) {
                None => None,
                Some(rest) => {
                    let ghost restv = rest.deep_view();
                    let mut out = rest;
                    out.insert(0, first);
                    proof {
                        assert(out.deep_view() =~= seq![sv] + restv);
                    }
                    Some(out)
                },
            }
        },
        _ => None,
    }
}

/// What a parsed body holds as an envelope: the `error` list (all strings)
/// and the `result` payload. `None` when the body is no such object.
pub open spec fn spec_envelope_of(j: Json) -> Option<(Seq<Seq<char>>, Json)> {
    match j {
        Json::Obj(fields) => match (spec_obj_get(fields, "error"@), spec_obj_get(
            fields,
            "result"@,
        )) {
            (Some(Json::Arr(items)), Some(res)) => match spec_str_items(items) {
                Some(errs) => Some((errs, res)),
                None => None,
            },
            _ => None,
        },
        _ => None,
    }
}

/// Decode one response body through the standard envelope: parse it, read
/// the `error` list and the `result` payload, and classify a non-empty
/// error list. Malformed bodies are transport-level failures.
pub fn decode_envelope(body: &str) -> (r: Result<JsonValue, KrakenError>)
    ensures
        match spec_parse_json(body@) {
            None => r matches Err(e) && e matches KrakenError::Transport(m) && m@
                == "response body is not valid JSON"@,
            Some(doc) => match spec_envelope_of(doc) {
                None => r matches Err(e) && e matches KrakenError::Transport(m) && m@
                    == "response envelope malformed"@,
                Some((errs, res)) => if errs.len() == 0 {
                    r matches Ok(v) && v@ == res
                } else {
                    r matches Err(e) && classified(errs, e)
                },
            },
        },
{
    let doc = match parse_json(body) {
        Some(d) => d,
        None => {
            return Err(
                KrakenError::Transport(String::from_str("response body is not valid JSON")),
            );
        },
    };
    let malformed = KrakenError::Transport(String::from_str("response envelope malformed"));
    match doc {
        JsonValue::Obj(fields) => {
            let errs_json = match obj_get(&fields, "error") {
                Some(e) => e,
                None => {
                    return Err(malformed);
                },
            };
            let errors: Vec<String> = match errs_json {
                JsonValue::Arr(items) => {
                    proof {
                        assert(json_seq_view(items@).skip(0) =~= json_seq_view(items@));
                    }
                    match str_items_from(items, 0) {
                        Some(v) => v,
                        None => {
                            return Err(malformed);
                        },
                    }
                },
                _ => {
                    return Err(malformed);
                },
            };
            let result = match obj_get(&fields, "result") {
                Some(v) => v,
                None => {
                    return Err(malformed);
                },
            };
            if errors.is_empty() {
                Ok(clone_json(result))
            } else {
                Err(KrakenError::from_kraken_errors(errors))
            }
        },
        _ => Err(malformed),
    }
}

} // verus!
