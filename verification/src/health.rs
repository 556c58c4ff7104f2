use vstd::prelude::*;
use std::sync::Arc;
use hyper::client::Client;
use crate::consul_error::ConsulError;
use crate::request::{Method, Request, Target};
use crate::request_url::{
    extend_query_pairs, pairs_bytes, parsed_url, query_fits, query_pairs_fit, request_url,
    url_outcome, with_query_pairs, RequestUrl,
};
use vstd::utf8::encode_utf8;
use crate::text::concat_str;

verus! {

/// The address under which an agent at `address` answers the health endpoints.
pub open spec fn health_endpoint(address: Seq<char>) -> Seq<char> {
    "http://"@ + address + "/v1/health"@
}

/// How a boolean is written in a query: `true` or `false`.
pub open spec fn bool_text(b: bool) -> Seq<char> {
    if b {
        "true"@
    } else {
        "false"@
    }
}

/// The text of an optional boolean, where there is one.
pub open spec fn opt_bool_text(b: Option<bool>) -> Option<Seq<char>> {
    match b {
        Some(v) => Some(bool_text(v)),
        None => None,
    }
}

/// `parts` joined, with `sep` between each two of them.
pub open spec fn join(parts: Seq<Seq<char>>, sep: Seq<char>) -> Seq<char>
    decreases parts.len(),
{
    if parts.len() == 0 {
        Seq::empty()
    } else if parts.len() == 1 {
        parts[0]
    } else {
        join(parts.drop_last(), sep) + sep + parts.last()
    }
}

/// The parameter `key_eq` followed by `value`, where a value is given; nothing
/// otherwise.
pub open spec fn param(key_eq: Seq<char>, value: Option<Seq<char>>) -> Seq<Seq<char>> {
    match value {
        Some(v) => seq![key_eq + v],
        None => Seq::empty(),
    }
}

/// The parameters of a health query for a service, in the order `dc`, `near`,
/// `tag`, `passing`, each only where it is given.  The values stand as given.
pub open spec fn service_params(
    dc: Option<Seq<char>>,
    near: Option<Seq<char>>,
    tag: Option<Seq<char>>,
    passing: Option<bool>,
) -> Seq<Seq<char>> {
    param("dc="@, dc) + param("near="@, near) + param("tag="@, tag) + param(
        "passing="@,
        opt_bool_text(passing),
    )
}

/// A query made of `params`: nothing where there are none, else `?` and the
/// parameters joined by `&`.
pub open spec fn query_text(params: Seq<Seq<char>>) -> Seq<char> {
    if params.len() == 0 {
        Seq::empty()
    } else {
        "?"@ + join(params, "&"@)
    }
}

/// The pair `(key, value)`, where a value is given; nothing otherwise.
pub open spec fn pair(key: Seq<char>, value: Option<Seq<char>>) -> Seq<(Seq<char>, Seq<char>)> {
    match value {
        Some(v) => seq![(key, v)],
        None => Seq::empty(),
    }
}

/// The query pairs of a health query for the checks of a service, in the
/// order `dc`, `near`, `passing`, each only where it is given.
pub open spec fn checks_pairs(
    dc: Option<Seq<char>>,
    near: Option<Seq<char>>,
    passing: Option<bool>,
) -> Seq<(Seq<char>, Seq<char>)> {
    pair("dc"@, dc) + pair("near"@, near) + pair("passing"@, opt_bool_text(passing))
}

/// Joining one part more adds the separator and the part, except to nothing.
pub proof fn lemma_join_push(parts: Seq<Seq<char>>, sep: Seq<char>, p: Seq<char>)
    ensures
        join(parts.push(p), sep) == if parts.len() == 0 {
            p
        } else {
            join(parts, sep) + sep + p
        },
{
    assert(parts.push(p).drop_last() =~= parts);
}

/// The query built so far: `?` alone before any parameter, then `?` and the
/// parameters joined by `&`.
spec fn query_so_far(query: Seq<char>, used: bool, params: Seq<Seq<char>>) -> bool {
    &&& used == (params.len() > 0)
    &&& query == "?"@ + join(params, "&"@)
}

/// Appends the parameter `key_eq` + `value` to the query built so far.
fn push_param(
    query: &mut String,
    used: &mut bool,
    key_eq: &str,
    value: &str,
    Ghost(params): Ghost<Seq<Seq<char>>>,
)
    requires
        query_so_far(old(query)@, *old(used), params),
    ensures
        query_so_far(final(query)@, *final(used), params.push(key_eq@ + value@)),
{
    let ghost before = query@;
    proof {
        lemma_join_push(params, "&"@, key_eq@ + value@);
    }
    if *used {
        query.append("&");
    }
    *used = true;
    query.append(key_eq);
    query.append(value);
    proof {
        if params.len() == 0 {
            assert(join(params, "&"@) =~= Seq::<char>::empty());
            assert(query@ =~= "?"@ + join(params.push(key_eq@ + value@), "&"@));
        } else {
            assert(query@ =~= before + "&"@ + (key_eq@ + value@));
            assert(query@ =~= "?"@ + join(params.push(key_eq@ + value@), "&"@));
        }
    }
}

/// The text of a boolean in a query.
fn bool_str(b: bool) -> (r: &'static str)
    ensures
        r@ == bool_text(b),
{
    if b {
        "true"
    } else {
        "false"
    }
}

/// Queries the health endpoints of a Consul agent.
#[derive(Clone)]
pub struct Health {
    endpoint: String,
    client: Arc<Client>,
}

impl Health {
    /// The address that the requests of this health view start with.
    pub closed spec fn endpoint_view(&self) -> Seq<char> {
        self.endpoint@
    }

    /// The HTTP client that the requests go through.
    pub closed spec fn http(&self) -> Arc<Client> {
        self.client
    }

    /// The health view of the agent at `address` (host and port), reached
    /// through `client`.
    pub fn new(client: Arc<Client>, address: &str) -> (r: Health)
        ensures
            r.endpoint_view() == health_endpoint(address@),
            r.http() == client,
    {
        let with_scheme = concat_str("http://", address);
        Health { endpoint: concat_str(with_scheme.as_str(), "/v1/health"), client }
    }

    /// The HTTP client that the requests go through.
    pub fn http_client(&self) -> (r: &Arc<Client>)
        ensures
            *r == self.http(),
    {
        &self.client
    }

    /// The query of a health query for a service: the parameters given
    /// (`dc`, `near`, `tag`, `passing`, in that order, each as `key=value` with
    /// the value as given) joined by `&` after a `?`; nothing where none is
    /// given.
    pub fn service_query(
        dc: Option<&str>,
        near: Option<&str>,
        tag: Option<&str>,
        passing: Option<bool>,
    ) -> (r: String)
        ensures
            r@ == query_text(service_params(dc.deep_view(), near.deep_view(), tag.deep_view(), passing)),
    {
        let mut query = String::from_str("?");
        let mut used = false;
        let ghost params: Seq<Seq<char>> = Seq::empty();
        proof {
            reveal_strlit("?");
            assert(join(params, "&"@) =~= Seq::<char>::empty());
            assert(query@ =~= "?"@ + join(params, "&"@));
        }
        if let Some(d) = dc {
            push_param(&mut query, &mut used, "dc=", d, Ghost(params));
            proof {
                params = params.push("dc="@ + d@);
            }
        }
        assert(params =~= param("dc="@, dc.deep_view()));
        let ghost after_dc = params;
        if let Some(n) = near {
            push_param(&mut query, &mut used, "near=", n, Ghost(params));
            proof {
                params = params.push("near="@ + n@);
            }
        }
        assert(params =~= after_dc + param("near="@, near.deep_view()));
        let ghost after_near = params;
        if let Some(t) = tag {
            push_param(&mut query, &mut used, "tag=", t, Ghost(params));
            proof {
                params = params.push("tag="@ + t@);
            }
        }
        assert(params =~= after_near + param("tag="@, tag.deep_view()));
        let ghost after_tag = params;
        if let Some(p) = passing {
            push_param(&mut query, &mut used, "passing=", bool_str(p), Ghost(params));
            proof {
                params = params.push("passing="@ + bool_text(p));
            }
        }
        assert(params =~= after_tag + param("passing="@, opt_bool_text(passing)));
        assert(params =~= service_params(dc.deep_view(), near.deep_view(), tag.deep_view(), passing));
        if used {
            query
        } else {
            assert(query_text(params) =~= Seq::<char>::empty());
            String::new()
        }
    }

    /// The address of a health query for a service at `url`: the
    /// serialization of `url` followed by [`Health::service_query`].
    pub fn with_service_query(
        url: &RequestUrl,
        dc: Option<&str>,
        near: Option<&str>,
        tag: Option<&str>,
        passing: Option<bool>,
    ) -> (r: String)
        ensures
            r@ == url@ + query_text(service_params(dc.deep_view(), near.deep_view(), tag.deep_view(), passing)),
    {
        let query = Self::service_query(dc, near, tag, passing);
        concat_str(url.as_str(), query.as_str())
    }

    /// The request for the nodes that provide the service `name`, with their
    /// checks: a GET of the address made of the serialization of the URL of
    /// the service followed by the query of the parameters given, which the
    /// HTTP client parses when it sends the request.  A service URL that does
    /// not parse is a `BadURL`.
    pub fn service_request(
        &self,
        name: &str,
        dc: Option<&str>,
        near: Option<&str>,
        tag: Option<&str>,
        passing: Option<bool>,
    ) -> (r: Result<Request, ConsulError>)
        ensures
            match parsed_url(self.endpoint_view() + "/service/"@ + name@) {
                Some(u) => r matches Ok(q) && {
                    &&& q.method == Method::Get
                    &&& q.target matches Target::Address(f) && f@ == u + query_text(
                        service_params(dc.deep_view(), near.deep_view(), tag.deep_view(), passing),
                    )
                    &&& q.body is None
                },
                None => r == Err::<Request, ConsulError>(ConsulError::BadURL),
            },
    {
        let address = concat_str(concat_str(self.endpoint.as_str(), "/service/").as_str(), name);
        match request_url(address.as_str()) {
            Ok(u) => {
                let f = Self::with_service_query(&u, dc, near, tag, passing);
                Ok(Request { method: Method::Get, target: Target::Address(f), body: None })
            },
            Err(e) => Err(e),
        }
    }

    /// The URL of the request for the checks of the service `name`, before
    /// its query.
    pub fn checks_url(&self, name: &str) -> (r: Result<RequestUrl, ConsulError>)
        ensures
            url_outcome(r, self.endpoint_view() + "/checks/"@ + name@),
    {
        request_url(concat_str(concat_str(self.endpoint.as_str(), "/checks/").as_str(), name).as_str())
    }

    /// The query pairs of a request for the checks of a service.
    pub fn checks_pairs(dc: Option<&str>, near: Option<&str>, passing: Option<bool>) -> (r: Vec<
        (String, String),
    >)
        ensures
            r.deep_view() == checks_pairs(dc.deep_view(), near.deep_view(), passing),
    {
        let mut pairs: Vec<(String, String)> = Vec::new();
        if let Some(d) = dc {
            pairs.push((String::from_str("dc"), String::from_str(d)));
        }
        assert(pairs.deep_view() =~= pair("dc"@, dc.deep_view()));
        let ghost after_dc = pairs.deep_view();
        if let Some(n) = near {
            pairs.push((String::from_str("near"), String::from_str(n)));
        }
        assert(pairs.deep_view() =~= after_dc + pair("near"@, near.deep_view()));
        let ghost after_near = pairs.deep_view();
        if let Some(p) = passing {
            pairs.push((String::from_str("passing"), String::from_str(bool_str(p))));
        }
        assert(pairs.deep_view() =~= after_near + pair("passing"@, opt_bool_text(passing)));
        pairs
    }

    /// Whether the query of a request for checks can be added to `url`
    /// without overflowing the offsets that a URL keeps.
    pub fn checks_query_fits(
        url: &RequestUrl,
        dc: Option<&str>,
        near: Option<&str>,
        passing: Option<bool>,
    ) -> (r: bool)
        ensures
            r == query_fits(
                encode_utf8(url@),
                pairs_bytes(checks_pairs(dc.deep_view(), near.deep_view(), passing)),
            ),
    {
        let pairs = Self::checks_pairs(dc, near, passing);
        query_pairs_fit(url, &pairs)
    }

    /// The request for the checks of a service at `url` (see
    /// [`Health::checks_url`]): a GET of `url` with a query opened (also where
    /// no parameter is given) and `dc`, `near` and `passing` appended
    /// form-urlencoded, in that order, where given.
    pub fn checks_request(
        url: RequestUrl,
        dc: Option<&str>,
        near: Option<&str>,
        passing: Option<bool>,
    ) -> (r: Request)
        requires
            query_fits(
                encode_utf8(url@),
                pairs_bytes(checks_pairs(dc.deep_view(), near.deep_view(), passing)),
            ),
        ensures
            r.method == Method::Get,
            r.target matches Target::Parsed(t) && encode_utf8(t@) == with_query_pairs(
                encode_utf8(url@),
                pairs_bytes(checks_pairs(dc.deep_view(), near.deep_view(), passing)),
            ),
            r.body is None,
    {
        let pairs = Self::checks_pairs(dc, near, passing);
        let with_query = extend_query_pairs(url, &pairs);
        Request { method: Method::Get, target: Target::Parsed(with_query), body: None }
    }
}

} // verus!
