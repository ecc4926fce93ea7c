//! The request-facing API: the raw search form and its normalization
//! into [`SearchParameters`], the authorization gate, and the
//! dispatchers that turn a request into a [`Response`].
//!
//! The host's HTTP layer parses the query string into a [`SearchForm`],
//! picks the search mode from the endpoint that was hit, and calls
//! [`handle_search`] (or [`handle_caps`] for the capabilities
//! endpoint, which is always public and never gated).

use crate::caps_xml::{encode_caps, spec_caps_xml};
use crate::data::{AuthProvider, Caps, Config, Limits, Response, SearchParameters, SearchProvider,
    Torrent};
use crate::feed_xml::{all_have_locator, encode_feed, spec_feed_xml};
use crate::text::{categories_of, parse_u32, split_commas, split_commas_exec, valid_cats};
use vstd::prelude::*;

verus! {

/// The raw, loosely-typed query parameters of a search request, as the
/// HTTP layer hands them over.
#[derive(Debug, Clone, PartialEq, Eq)]
pub struct SearchForm {
    /// The free-text query
    pub q: Option<String>,
    /// The credential, for authentication
    pub apikey: Option<String>,
    /// Comma-separated numeric category ids
    pub cat: Option<String>,
    /// Comma-separated extended-attribute names
    pub attrs: Option<String>,
    /// Whether *all* extended attributes should be returned; only the
    /// value `1` counts
    pub extended: Option<u8>,
    /// How many items to skip in the results
    pub offset: Option<u32>,
    /// The maximum number of items to return, clamped by the
    /// configured limits during normalization
    pub limit: Option<u32>,
}

/// The limit a request ends up with: the requested value, or the
/// configured default when absent; capped at `limits.max`; and raised
/// to one when the result would fall below one.
pub open spec fn spec_normalized_limit(l: Option<u32>, limits: Limits) -> u32 {
    let base = if l is Some {
        l->0
    } else {
        limits.default
    };
    let capped = if base > limits.max {
        limits.max
    } else {
        base
    };
    if capped < 1 {
        1u32
    } else {
        capped
    }
}

/// The "all extended attributes" flag a request ends up with: set only
/// by the literal value `1`, whatever the attribute-name list says.
pub open spec fn spec_extended_flag(e: Option<u8>) -> Option<bool> {
    if e == Some(1u8) {
        Some(true)
    } else {
        None
    }
}

/// For a positive `max`, the normalized limit always lies in
/// `[1, limits.max]`, whatever the request asked for; and a request
/// that names no limit gets the configured default, clamped into the
/// same range.
pub proof fn lemma_limit_range(l: Option<u32>, limits: Limits)
    requires
        limits.max >= 1,
    ensures
        1 <= spec_normalized_limit(l, limits),
        spec_normalized_limit(l, limits) <= limits.max,
        l is None ==> spec_normalized_limit(l, limits) == spec_normalized_limit(
            Some(limits.default),
            limits,
        ),
{
}

fn clone_opt_string(o: &Option<String>) -> (r: Option<String>)
    ensures
        r == *o,
{
    match o {
        Some(s) => Some(s.clone()),
        None => None,
    }
}

impl SearchForm {
    /// Normalizes this form into [`SearchParameters`] for the given
    /// search mode, under the configured limits: category tokens that
    /// do not parse as non-negative integers are dropped silently, the
    /// attribute-name list is split verbatim, only `extended=1` sets
    /// the all-attributes flag, and the limit is clamped into
    /// `[1, max]` (with the default when absent). Query, credential
    /// and offset pass through unchanged.
    pub fn to_parameters<S, A>(&self, conf: &Config<S, A>, search_type: &str) -> (p:
        SearchParameters)
        ensures
            p.search_type@ == search_type@,
            p.q == self.q,
            p.apikey == self.apikey,
            (p.categories is Some) == (self.cat is Some),
            self.cat is Some ==> p.categories->0@ == categories_of(self.cat->0@),
            (p.attributes is Some) == (self.attrs is Some),
            self.attrs is Some ==> p.attributes->0@.map_values(|t: String| t@) == split_commas(
                self.attrs->0@,
            ),
            p.extended_attrs == spec_extended_flag(self.extended),
            p.offset == self.offset,
            p.limit == spec_normalized_limit(self.limit, conf.caps.limits),
    {
        let categories: Option<Vec<u32>> = match &self.cat {
            Some(raw) => {
                let tokens = split_commas_exec(raw.as_str());
                let ghost tv = tokens@.map_values(|t: String| t@);
                let mut ids: Vec<u32> = Vec::new();
                let mut i: usize = 0;
                while i < tokens.len()
                    invariant
                        0 <= i <= tokens.len(),
                        tv == tokens@.map_values(|t: String| t@),
                        tv == split_commas(raw@),
                        ids@ == valid_cats(tv.take(i as int)),
                    decreases tokens.len() - i,
                {
                    match parse_u32(tokens[i].as_str()) {
                        Some(v) => ids.push(v),
                        None => {},
                    }
                    proof {
                        let t1 = tv.take(i + 1);
                        assert(t1.drop_last() =~= tv.take(i as int));
                        assert(t1.last() == tv[i as int]);
                        assert(tv[i as int] == tokens@[i as int]@);
                    }
                    i += 1;
                }
                proof {
                    assert(tv.take(tv.len() as int) =~= tv);
                }
                Some(ids)
            },
            None => None,
        };

        let attributes: Option<Vec<String>> = match &self.attrs {
            Some(raw) => Some(split_commas_exec(raw.as_str())),
            None => None,
        };

        let extended_attrs: Option<bool> = match self.extended {
            Some(v) => if v == 1 {
                Some(true)
            } else {
                None
            },
            None => None,
        };

        let mut limit: u32 = match self.limit {
            Some(l) => l,
            None => conf.caps.limits.default,
        };
        if limit > conf.caps.limits.max {
            limit = conf.caps.limits.max;
        }
        if limit < 1 {
            limit = 1;
        }

        SearchParameters {
            search_type: search_type.to_owned(),
            q: clone_opt_string(&self.q),
            apikey: clone_opt_string(&self.apikey),
            categories,
            attributes,
            extended_attrs,
            offset: self.offset,
            limit,
        }
    }
}

/// The authorization gate. With no check configured every request is
/// allowed; with one configured, a missing credential is rejected
/// without consulting the check, and a present credential gets the
/// check's own verdict — `Err` meaning the check itself failed.
pub fn authorize<A: AuthProvider>(auth: &Option<A>, apikey: &Option<String>) -> (r: Result<
    bool,
    String,
>)
    ensures
        auth is None ==> r == Result::<bool, String>::Ok(true),
        auth is Some && apikey is None ==> r == Result::<bool, String>::Ok(false),
{
    match auth {
        None => Ok(true),
        Some(checker) => match apikey {
            None => Ok(false),
            Some(key) => checker.check(key.clone()),
        },
    }
}

/// Maps an authorization outcome to an early response: `None` lets the
/// request proceed; a denial gets a 401 with a generic body that leaks
/// nothing; a failure of the check itself gets a 500, never a silent
/// allow or deny.
pub fn respond_to_auth(outcome: &Result<bool, String>) -> (r: Option<Response>)
    ensures
        *outcome == Result::<bool, String>::Ok(true) ==> r is None,
        *outcome == Result::<bool, String>::Ok(false) ==> r is Some && r->0.status == 401
            && r->0.body@ == "401 Unauthorized"@,
        outcome is Err ==> r is Some && r->0.status == 500 && r->0.body@
            == "500 Internal Server Error"@,
{
    match outcome {
        Ok(allowed) => {
            if *allowed {
                None
            } else {
                Some(Response { status: 401, body: "401 Unauthorized".to_owned() })
            }
        },
        Err(_) => Some(
            Response { status: 500, body: "500 Internal Server Error".to_owned() },
        ),
    }
}

/// Maps the search hook's outcome to the final response: a feed
/// document when every record carries a locator, and a 500 — with no
/// partial document — when the hook failed or handed over a record
/// without one.
pub fn respond_to_search_outcome(caps: &Caps, outcome: &Result<Vec<Torrent>, String>) -> (r:
    Response)
    ensures
        r.status == 200 || r.status == 500,
        outcome is Ok && all_have_locator(outcome->Ok_0@) ==> r.status == 200 && r.body@
            == spec_feed_xml(*caps, outcome->Ok_0@),
        outcome is Ok && !all_have_locator(outcome->Ok_0@) ==> r.status == 500,
        outcome is Err ==> r.status == 500,
        r.status == 500 ==> r.body@ == "500 Internal Server Error"@,
{
    match outcome {
        Ok(torrents) => match encode_feed(caps, torrents) {
            Ok(body) => Response { status: 200, body },
            Err(_) => Response { status: 500, body: "500 Internal Server Error".to_owned() },
        },
        Err(_) => Response { status: 500, body: "500 Internal Server Error".to_owned() },
    }
}

/// The capabilities endpoint: always public, never gated, and cannot
/// fail — it renders the process-owned configuration.
pub fn handle_caps<S, A>(conf: &Config<S, A>) -> (r: Response)
    ensures
        r.status == 200,
        r.body@ == spec_caps_xml(conf.caps),
{
    Response { status: 200, body: encode_caps(&conf.caps) }
}

/// One search-mode request, end to end: normalize the form, check the
/// credential, run the host's search hook, and encode the feed. The
/// hook is only reached when authorization allows the request; with
/// authorization configured and no credential sent, the request is
/// refused outright.
pub fn handle_search<S: SearchProvider, A: AuthProvider>(
    conf: &Config<S, A>,
    form: &SearchForm,
    search_type: &str,
) -> (r: Response)
    ensures
        r.status == 200 || r.status == 401 || r.status == 500,
        conf.auth is Some && form.apikey is None ==> r.status == 401 && r.body@
            == "401 Unauthorized"@,
        conf.auth is None ==> r.status != 401,
        r.status == 200 ==> exists|ts: Seq<Torrent>|
            r.body@ == #[trigger] spec_feed_xml(conf.caps, ts) && all_have_locator(ts),
{
    let parameters = form.to_parameters(conf, search_type);
    let gate = authorize(&conf.auth, &parameters.apikey);
    let early = respond_to_auth(&gate);
    proof {
        // case split: a `Result<bool, _>` is `Ok(true)`, `Ok(false)` or `Err`
        if gate is Ok {
            assert(gate == Result::<bool, String>::Ok(gate->Ok_0));
        }
    }
    match early {
        Some(resp) => resp,
        None => {
            let outcome = conf.search.search(parameters);
            let resp = respond_to_search_outcome(&conf.caps, &outcome);
            proof {
                if resp.status == 200 {
                    let ts = outcome->Ok_0@;
                    assert(resp.body@ == spec_feed_xml(conf.caps, ts) && all_have_locator(ts));
                }
            }
            resp
        },
    }
}

} // verus!
