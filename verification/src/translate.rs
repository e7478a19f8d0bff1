//! The route translator: turns an externally defined route resource into the
//! match model, validating patterns and method tokens, and carrying the
//! parent references that tie the route to its serving policy.
//!
//! Translation is fail-fast: the first invalid matcher aborts the whole
//! resource and no partial binding exists.

use vstd::prelude::*;
use crate::method::{method_token_valid, Method};
use crate::pattern::regex_valid;
use crate::route::{
    HeaderMatch, HeaderMatchSpec, Hostname, HostnameSpec, HttpRoute, HttpRouteMatch,
    HttpRouteMatchSpec, HttpRouteSpec, PathMatch, PathMatchSpec, QueryParamMatch,
    QueryParamMatchSpec, Value, ValueSpec,
};
use crate::strings::{seq_view, split_on, split_str, str_eq};

verus! {

/// Why a route resource fails translation.
#[derive(Debug, Clone, Copy, PartialEq, Eq, Structural)]
pub enum ValidationError {
    /// A matcher's pattern is not a valid regular expression.
    PatternError,
    /// A method token is not a recognized method.
    InvalidMethod,
}

/// A reference to the parent resource a route attaches to, copied verbatim
/// from the resource.
#[derive(Debug, Clone, PartialEq)]
pub struct ParentReference {
    pub group: Option<String>,
    pub kind: Option<String>,
    pub namespace: Option<String>,
    pub name: String,
    pub section_name: Option<String>,
    pub port: Option<u16>,
}

/// Mathematical form of a [`ParentReference`].
#[verifier::ext_equal]
pub struct ParentReferenceSpec {
    pub group: Option<Seq<char>>,
    pub kind: Option<Seq<char>>,
    pub namespace: Option<Seq<char>>,
    pub name: Seq<char>,
    pub section_name: Option<Seq<char>>,
    pub port: Option<u16>,
}

impl View for ParentReference {
    type V = ParentReferenceSpec;

    open spec fn view(&self) -> ParentReferenceSpec {
        ParentReferenceSpec {
            group: match self.group {
                Some(ref s) => Some(s@),
                None => None,
            },
            kind: match self.kind {
                Some(ref s) => Some(s@),
                None => None,
            },
            namespace: match self.namespace {
                Some(ref s) => Some(s@),
                None => None,
            },
            name: self.name@,
            section_name: match self.section_name {
                Some(ref s) => Some(s@),
                None => None,
            },
            port: self.port,
        }
    }
}

/// A path matcher as the resource writes it.
#[derive(Debug, Clone, PartialEq)]
pub enum ResourcePathMatch {
    Exact { value: String },
    PathPrefix { value: String },
    RegularExpression { value: String },
}

/// Mathematical form of a [`ResourcePathMatch`].
#[verifier::ext_equal]
pub enum ResourcePathMatchSpec {
    Exact { value: Seq<char> },
    PathPrefix { value: Seq<char> },
    RegularExpression { value: Seq<char> },
}

impl View for ResourcePathMatch {
    type V = ResourcePathMatchSpec;

    open spec fn view(&self) -> ResourcePathMatchSpec {
        match self {
            ResourcePathMatch::Exact { value } => ResourcePathMatchSpec::Exact { value: value@ },
            ResourcePathMatch::PathPrefix { value } => ResourcePathMatchSpec::PathPrefix {
                value: value@,
            },
            ResourcePathMatch::RegularExpression { value } => ResourcePathMatchSpec::RegularExpression {
                value: value@,
            },
        }
    }
}

/// A header matcher as the resource writes it.
#[derive(Debug, Clone, PartialEq)]
pub enum ResourceHeaderMatch {
    Exact { name: String, value: String },
    RegularExpression { name: String, value: String },
}

/// Mathematical form of a [`ResourceHeaderMatch`].
#[verifier::ext_equal]
pub enum ResourceHeaderMatchSpec {
    Exact { name: Seq<char>, value: Seq<char> },
    RegularExpression { name: Seq<char>, value: Seq<char> },
}

impl View for ResourceHeaderMatch {
    type V = ResourceHeaderMatchSpec;

    open spec fn view(&self) -> ResourceHeaderMatchSpec {
        match self {
            ResourceHeaderMatch::Exact { name, value } => ResourceHeaderMatchSpec::Exact {
                name: name@,
                value: value@,
            },
            ResourceHeaderMatch::RegularExpression { name, value } => ResourceHeaderMatchSpec::RegularExpression {
                name: name@,
                value: value@,
            },
        }
    }
}

/// A query-parameter matcher as the resource writes it.
#[derive(Debug, Clone, PartialEq)]
pub enum ResourceQueryParamMatch {
    Exact { name: String, value: String },
    RegularExpression { name: String, value: String },
}

/// Mathematical form of a [`ResourceQueryParamMatch`].
#[verifier::ext_equal]
pub enum ResourceQueryParamMatchSpec {
    Exact { name: Seq<char>, value: Seq<char> },
    RegularExpression { name: Seq<char>, value: Seq<char> },
}

impl View for ResourceQueryParamMatch {
    type V = ResourceQueryParamMatchSpec;

    open spec fn view(&self) -> ResourceQueryParamMatchSpec {
        match self {
            ResourceQueryParamMatch::Exact { name, value } => ResourceQueryParamMatchSpec::Exact {
                name: name@,
                value: value@,
            },
            ResourceQueryParamMatch::RegularExpression { name, value } => ResourceQueryParamMatchSpec::RegularExpression {
                name: name@,
                value: value@,
            },
        }
    }
}

/// One match conjunction as the resource writes it.
#[derive(Debug, Clone, PartialEq)]
pub struct ResourceRouteMatch {
    pub path: Option<ResourcePathMatch>,
    pub headers: Option<Vec<ResourceHeaderMatch>>,
    pub query_params: Option<Vec<ResourceQueryParamMatch>>,
    pub method: Option<String>,
}

/// Mathematical form of a [`ResourceRouteMatch`].
#[verifier::ext_equal]
pub struct ResourceRouteMatchSpec {
    pub path: Option<ResourcePathMatchSpec>,
    pub headers: Option<Seq<ResourceHeaderMatchSpec>>,
    pub query_params: Option<Seq<ResourceQueryParamMatchSpec>>,
    pub method: Option<Seq<char>>,
}

impl View for ResourceRouteMatch {
    type V = ResourceRouteMatchSpec;

    open spec fn view(&self) -> ResourceRouteMatchSpec {
        ResourceRouteMatchSpec {
            path: match self.path {
                Some(ref p) => Some(p@),
                None => None,
            },
            headers: match self.headers {
                Some(ref hs) => Some(hs@.map_values(|h: ResourceHeaderMatch| h@)),
                None => None,
            },
            query_params: match self.query_params {
                Some(ref qs) => Some(qs@.map_values(|q: ResourceQueryParamMatch| q@)),
                None => None,
            },
            method: match self.method {
                Some(ref m) => Some(m@),
                None => None,
            },
        }
    }
}

/// One rule of a route resource: the matches it lists, if any.
#[derive(Debug, Clone, PartialEq)]
pub struct RouteRule {
    pub matches: Option<Vec<ResourceRouteMatch>>,
}

/// Mathematical form of a [`RouteRule`].
#[verifier::ext_equal]
pub struct RouteRuleSpec {
    pub matches: Option<Seq<ResourceRouteMatchSpec>>,
}

impl View for RouteRule {
    type V = RouteRuleSpec;

    open spec fn view(&self) -> RouteRuleSpec {
        RouteRuleSpec {
            matches: match self.matches {
                Some(ref ms) => Some(ms@.map_values(|m: ResourceRouteMatch| m@)),
                None => None,
            },
        }
    }
}

/// A route resource as handed to the translator: hostnames, rules and parent
/// references, each optional as written.
#[derive(Debug, Clone, PartialEq)]
pub struct RouteResource {
    pub hostnames: Option<Vec<String>>,
    pub rules: Option<Vec<RouteRule>>,
    pub parent_refs: Option<Vec<ParentReference>>,
}

/// Mathematical form of a [`RouteResource`].
#[verifier::ext_equal]
pub struct RouteResourceSpec {
    pub hostnames: Option<Seq<Seq<char>>>,
    pub rules: Option<Seq<RouteRuleSpec>>,
    pub parent_refs: Option<Seq<ParentReferenceSpec>>,
}

impl View for RouteResource {
    type V = RouteResourceSpec;

    open spec fn view(&self) -> RouteResourceSpec {
        RouteResourceSpec {
            hostnames: match self.hostnames {
                Some(ref hs) => Some(seq_view(hs@)),
                None => None,
            },
            rules: match self.rules {
                Some(ref rs) => Some(rs@.map_values(|r: RouteRule| r@)),
                None => None,
            },
            parent_refs: match self.parent_refs {
                Some(ref ps) => Some(ps@.map_values(|p: ParentReference| p@)),
                None => None,
            },
        }
    }
}

/// An absent list reads as an empty one.
pub open spec fn opt_seq<T>(o: Option<Seq<T>>) -> Seq<T> {
    match o {
        Some(s) => s,
        None => Seq::empty(),
    }
}

/// How one hostname translates: a leading `*.` wildcard leaves the labels
/// after it, reversed, as a suffix rule; anything else is an exact rule.
pub open spec fn hostname_spec(h: Seq<char>) -> HostnameSpec {
    if h.len() >= 2 && h[0] == '*' && h[1] == '.' {
        HostnameSpec::Suffix(split_on(h.skip(2), '.').reverse())
    } else {
        HostnameSpec::Exact(h)
    }
}

/// How a path matcher translates: literals pass through; a pattern compiles
/// or fails the resource.
pub open spec fn translate_path(p: ResourcePathMatchSpec) -> Result<PathMatchSpec, ValidationError> {
    match p {
        ResourcePathMatchSpec::Exact { value } => Ok(PathMatchSpec::Exact(value)),
        ResourcePathMatchSpec::PathPrefix { value } => Ok(PathMatchSpec::Prefix(value)),
        ResourcePathMatchSpec::RegularExpression { value } => if regex_valid(value) {
            Ok(PathMatchSpec::Regex(value))
        } else {
            Err(ValidationError::PatternError)
        },
    }
}

/// How a header matcher translates.
pub open spec fn translate_header(h: ResourceHeaderMatchSpec) -> Result<
    HeaderMatchSpec,
    ValidationError,
> {
    match h {
        ResourceHeaderMatchSpec::Exact { name, value } => Ok(
            HeaderMatchSpec { name, value: ValueSpec::Exact(value) },
        ),
        ResourceHeaderMatchSpec::RegularExpression { name, value } => if regex_valid(value) {
            Ok(HeaderMatchSpec { name, value: ValueSpec::Regex(value) })
        } else {
            Err(ValidationError::PatternError)
        },
    }
}

/// How a query-parameter matcher translates.
pub open spec fn translate_query_param(q: ResourceQueryParamMatchSpec) -> Result<
    QueryParamMatchSpec,
    ValidationError,
> {
    match q {
        ResourceQueryParamMatchSpec::Exact { name, value } => Ok(
            QueryParamMatchSpec { name, value: ValueSpec::Exact(value) },
        ),
        ResourceQueryParamMatchSpec::RegularExpression { name, value } => if regex_valid(value) {
            Ok(QueryParamMatchSpec { name, value: ValueSpec::Regex(value) })
        } else {
            Err(ValidationError::PatternError)
        },
    }
}

/// Header matchers translate left to right; the first failure wins.
pub open spec fn translate_headers(hs: Seq<ResourceHeaderMatchSpec>) -> Result<
    Seq<HeaderMatchSpec>,
    ValidationError,
>
    decreases hs.len(),
{
    if hs.len() == 0 {
        Ok(Seq::empty())
    } else {
        match translate_header(hs[0]) {
            Err(e) => Err(e),
            Ok(h) => match translate_headers(hs.drop_first()) {
                Err(e) => Err(e),
                Ok(rest) => Ok(seq![h] + rest),
            },
        }
    }
}

/// Query-parameter matchers translate left to right; the first failure wins.
pub open spec fn translate_query_params(qs: Seq<ResourceQueryParamMatchSpec>) -> Result<
    Seq<QueryParamMatchSpec>,
    ValidationError,
>
    decreases qs.len(),
{
    if qs.len() == 0 {
        Ok(Seq::empty())
    } else {
        match translate_query_param(qs[0]) {
            Err(e) => Err(e),
            Ok(q) => match translate_query_params(qs.drop_first()) {
                Err(e) => Err(e),
                Ok(rest) => Ok(seq![q] + rest),
            },
        }
    }
}

/// One match conjunction translates field by field, in the order path,
/// headers, query parameters, method; the first failure wins.
pub open spec fn translate_match(m: ResourceRouteMatchSpec) -> Result<
    HttpRouteMatchSpec,
    ValidationError,
> {
    let path_r: Result<Option<PathMatchSpec>, ValidationError> = match m.path {
        None => Ok(None),
        Some(p) => match translate_path(p) {
            Ok(v) => Ok(Some(v)),
            Err(e) => Err(e),
        },
    };
    match path_r {
        Err(e) => Err(e),
        Ok(path) => match translate_headers(opt_seq(m.headers)) {
            Err(e) => Err(e),
            Ok(headers) => match translate_query_params(opt_seq(m.query_params)) {
                Err(e) => Err(e),
                Ok(query_params) => match m.method {
                    Some(t) => if method_token_valid(t) {
                        Ok(HttpRouteMatchSpec { path, headers, query_params, method: Some(t) })
                    } else {
                        Err(ValidationError::InvalidMethod)
                    },
                    None => Ok(HttpRouteMatchSpec { path, headers, query_params, method: None }),
                },
            },
        },
    }
}

/// A rule's matches translate left to right; the first failure wins.
pub open spec fn translate_matches(ms: Seq<ResourceRouteMatchSpec>) -> Result<
    Seq<HttpRouteMatchSpec>,
    ValidationError,
>
    decreases ms.len(),
{
    if ms.len() == 0 {
        Ok(Seq::empty())
    } else {
        match translate_match(ms[0]) {
            Err(e) => Err(e),
            Ok(m) => match translate_matches(ms.drop_first()) {
                Err(e) => Err(e),
                Ok(rest) => Ok(seq![m] + rest),
            },
        }
    }
}

/// The rules translate in order, each contributing its matches in order; the
/// first failure wins.
pub open spec fn translate_rules(rules: Seq<RouteRuleSpec>) -> Result<
    Seq<HttpRouteMatchSpec>,
    ValidationError,
>
    decreases rules.len(),
{
    if rules.len() == 0 {
        Ok(Seq::empty())
    } else {
        match translate_matches(opt_seq(rules[0].matches)) {
            Err(e) => Err(e),
            Ok(head) => match translate_rules(rules.drop_first()) {
                Err(e) => Err(e),
                Ok(rest) => Ok(head + rest),
            },
        }
    }
}

/// The whole translation: every hostname translates, the rules' matches
/// translate fail-fast, and the parent references copy verbatim.
pub open spec fn translate_resource(r: RouteResourceSpec) -> Result<
    RouteBindingSpec,
    ValidationError,
> {
    match translate_rules(opt_seq(r.rules)) {
        Err(e) => Err(e),
        Ok(ms) => Ok(
            RouteBindingSpec {
                route: HttpRouteSpec {
                    hostnames: opt_seq(r.hostnames).map_values(|h: Seq<char>| hostname_spec(h)),
                    matches: ms,
                },
                parent_refs: opt_seq(r.parent_refs),
            },
        ),
    }
}

/// A translated route together with the parent references that say which
/// serving policies it attaches to.
#[derive(Debug, Clone, PartialEq)]
pub struct RouteBinding {
    pub route: HttpRoute,
    pub parent_refs: Vec<ParentReference>,
}

/// Mathematical form of a [`RouteBinding`].
#[verifier::ext_equal]
pub struct RouteBindingSpec {
    pub route: HttpRouteSpec,
    pub parent_refs: Seq<ParentReferenceSpec>,
}

impl View for RouteBinding {
    type V = RouteBindingSpec;

    open spec fn view(&self) -> RouteBindingSpec {
        RouteBindingSpec {
            route: self.route@,
            parent_refs: self.parent_refs@.map_values(|p: ParentReference| p@),
        }
    }
}

/// Whether a parent reference targets the `Server` policy kind.
pub open spec fn is_server_ref(p: ParentReferenceSpec) -> bool {
    p.group == Some("policy.linkerd.io"@) && p.kind == Some("Server"@)
}

/// Whether a parent reference targets the `Server` policy kind under a given
/// name. The reference's namespace is not checked against the route's own.
pub open spec fn is_server_ref_named(p: ParentReferenceSpec, name: Seq<char>) -> bool {
    is_server_ref(p) && p.name == name
}

/// Translate one hostname.
pub fn convert_hostname(hostname: &str) -> (r: Hostname)
    ensures
        r@ == hostname_spec(hostname@),
{
    let n = hostname.unicode_len();
    if n >= 2 && hostname.get_char(0) == '*' && hostname.get_char(1) == '.' {
        let rest = hostname.substring_char(2, n);
        let labels = split_str(rest, '.');
        let reverse_labels = crate::strings::reverse_strings(labels);
        proof {
            assert(seq_view(reverse_labels@) == split_on(hostname@.skip(2), '.').reverse());
        }
        Hostname::Suffix { reverse_labels }
    } else {
        Hostname::Exact(hostname.to_owned())
    }
}

/// Translate one path matcher.
fn convert_path(p: &ResourcePathMatch) -> (r: Result<PathMatch, ValidationError>)
    ensures
        match translate_path(p@) {
            Ok(v) => r matches Ok(pm) && pm@ == v,
            Err(e) => r matches Err(e2) && e2 == e,
        },
{
    match p {
        ResourcePathMatch::Exact { value } => Ok(PathMatch::Exact(value.clone())),
        ResourcePathMatch::PathPrefix { value } => Ok(PathMatch::Prefix(value.clone())),
        ResourcePathMatch::RegularExpression { value } => match PathMatch::try_regex(
            value.as_str(),
        ) {
            Ok(pm) => Ok(pm),
            Err(_) => Err(ValidationError::PatternError),
        },
    }
}

/// Translate one header matcher.
fn convert_header(h: &ResourceHeaderMatch) -> (r: Result<HeaderMatch, ValidationError>)
    ensures
        match translate_header(h@) {
            Ok(v) => r matches Ok(hm) && hm@ == v,
            Err(e) => r matches Err(e2) && e2 == e,
        },
{
    match h {
        ResourceHeaderMatch::Exact { name, value } => Ok(
            HeaderMatch { name: name.clone(), value: Value::Exact(value.clone()) },
        ),
        ResourceHeaderMatch::RegularExpression { name, value } => match Value::try_regex(
            value.as_str(),
        ) {
            Ok(v) => Ok(HeaderMatch { name: name.clone(), value: v }),
            Err(_) => Err(ValidationError::PatternError),
        },
    }
}

/// Translate one query-parameter matcher.
fn convert_query_param(q: &ResourceQueryParamMatch) -> (r: Result<
    QueryParamMatch,
    ValidationError,
>)
    ensures
        match translate_query_param(q@) {
            Ok(v) => r matches Ok(qm) && qm@ == v,
            Err(e) => r matches Err(e2) && e2 == e,
        },
{
    match q {
        ResourceQueryParamMatch::Exact { name, value } => Ok(
            QueryParamMatch { name: name.clone(), value: Value::Exact(value.clone()) },
        ),
        ResourceQueryParamMatch::RegularExpression { name, value } => match Value::try_regex(
            value.as_str(),
        ) {
            Ok(v) => Ok(QueryParamMatch { name: name.clone(), value: v }),
            Err(_) => Err(ValidationError::PatternError),
        },
    }
}

/// Translate a match conjunction's header list.
fn convert_headers(hs: &Vec<ResourceHeaderMatch>) -> (r: Result<Vec<HeaderMatch>, ValidationError>)
    ensures
        match translate_headers(hs@.map_values(|h: ResourceHeaderMatch| h@)) {
            Ok(v) => r matches Ok(out) && out@.map_values(|h: HeaderMatch| h@) == v,
            Err(e) => r matches Err(e2) && e2 == e,
        },
{
    let ghost hs_v = hs@.map_values(|h: ResourceHeaderMatch| h@);
    let mut out: Vec<HeaderMatch> = Vec::new();
    let mut i: usize = 0;
    proof {
        assert(hs_v.skip(0) =~= hs_v);
    }
    while i < hs.len()
        invariant
            i <= hs.len(),
            hs_v == hs@.map_values(|h: ResourceHeaderMatch| h@),
            hs_v.len() == hs@.len(),
            out@.len() == i,
            translate_headers(hs_v) == match translate_headers(hs_v.skip(i as int)) {
                Ok(rest) => Ok::<_, ValidationError>(out@.map_values(|h: HeaderMatch| h@) + rest),
                Err(e) => Err(e),
            },
        decreases hs.len() - i,
    {
        let ghost pre = out@.map_values(|h: HeaderMatch| h@);
        proof {
            assert(hs_v.skip(i as int)[0] == hs_v[i as int]);
            assert(hs_v.skip(i as int).drop_first() =~= hs_v.skip(i as int + 1));
        }
        match convert_header(&hs[i]) {
            Ok(hm) => out.push(hm),
            Err(e) => {
                return Err(e);
            },
        }
        proof {
            assert(out@.map_values(|h: HeaderMatch| h@) =~= pre.push(
                translate_header(hs_v[i as int])->Ok_0,
            ));
            assert forall|rest: Seq<HeaderMatchSpec>|
                translate_headers(hs_v.skip(i as int + 1)) == Ok::<_, ValidationError>(
                    rest,
                ) implies pre + (seq![translate_header(hs_v[i as int])->Ok_0] + rest) =~= pre.push(
                translate_header(hs_v[i as int])->Ok_0,
            ) + rest by {}
        }
        i += 1;
    }
    proof {
        assert(hs_v.skip(hs_v.len() as int) =~= Seq::<ResourceHeaderMatchSpec>::empty());
    }
    Ok(out)
}

/// Translate a match conjunction's query-parameter list.
fn convert_query_params(qs: &Vec<ResourceQueryParamMatch>) -> (r: Result<
    Vec<QueryParamMatch>,
    ValidationError,
>)
    ensures
        match translate_query_params(qs@.map_values(|q: ResourceQueryParamMatch| q@)) {
            Ok(v) => r matches Ok(out) && out@.map_values(|q: QueryParamMatch| q@) == v,
            Err(e) => r matches Err(e2) && e2 == e,
        },
{
    let ghost qs_v = qs@.map_values(|q: ResourceQueryParamMatch| q@);
    let mut out: Vec<QueryParamMatch> = Vec::new();
    let mut i: usize = 0;
    proof {
        assert(qs_v.skip(0) =~= qs_v);
    }
    while i < qs.len()
        invariant
            i <= qs.len(),
            qs_v == qs@.map_values(|q: ResourceQueryParamMatch| q@),
            qs_v.len() == qs@.len(),
            out@.len() == i,
            translate_query_params(qs_v) == match translate_query_params(qs_v.skip(i as int)) {
                Ok(rest) => Ok::<_, ValidationError>(
                    out@.map_values(|q: QueryParamMatch| q@) + rest,
                ),
                Err(e) => Err(e),
            },
        decreases qs.len() - i,
    {
        let ghost pre = out@.map_values(|q: QueryParamMatch| q@);
        proof {
            assert(qs_v.skip(i as int)[0] == qs_v[i as int]);
            assert(qs_v.skip(i as int).drop_first() =~= qs_v.skip(i as int + 1));
        }
        match convert_query_param(&qs[i]) {
            Ok(qm) => out.push(qm),
            Err(e) => {
                return Err(e);
            },
        }
        proof {
            assert(out@.map_values(|q: QueryParamMatch| q@) =~= pre.push(
                translate_query_param(qs_v[i as int])->Ok_0,
            ));
            assert forall|rest: Seq<QueryParamMatchSpec>|
                translate_query_params(qs_v.skip(i as int + 1)) == Ok::<_, ValidationError>(
                    rest,
                ) implies pre + (seq![translate_query_param(qs_v[i as int])->Ok_0] + rest)
                =~= pre.push(translate_query_param(qs_v[i as int])->Ok_0) + rest by {}
        }
        i += 1;
    }
    proof {
        assert(qs_v.skip(qs_v.len() as int) =~= Seq::<ResourceQueryParamMatchSpec>::empty());
    }
    Ok(out)
}

/// Translate one match conjunction.
fn convert_match(m: &ResourceRouteMatch) -> (r: Result<HttpRouteMatch, ValidationError>)
    ensures
        match translate_match(m@) {
            Ok(v) => r matches Ok(x) && x@ == v,
            Err(e) => r matches Err(e2) && e2 == e,
        },
{
    let path = match &m.path {
        Some(p) => match convert_path(p) {
            Ok(pm) => Some(pm),
            Err(e) => {
                return Err(e);
            },
        },
        None => None,
    };
    let headers = match &m.headers {
        Some(hs) => match convert_headers(hs) {
            Ok(v) => v,
            Err(e) => {
                return Err(e);
            },
        },
        None => Vec::new(),
    };
    let query_params = match &m.query_params {
        Some(qs) => match convert_query_params(qs) {
            Ok(v) => v,
            Err(e) => {
                return Err(e);
            },
        },
        None => Vec::new(),
    };
    let method = match &m.method {
        Some(t) => match Method::parse(t.as_str()) {
            Some(mm) => Some(mm),
            None => {
                return Err(ValidationError::InvalidMethod);
            },
        },
        None => None,
    };
    let r = HttpRouteMatch { path, headers, query_params, method };
    proof {
        assert(r@ =~~= translate_match(m@)->Ok_0);
    }
    Ok(r)
}

impl RouteBinding {
    /// Translate a route resource into a binding. The first invalid matcher
    /// fails the whole resource; on success every hostname, match and parent
    /// reference is carried over as [`translate_resource`] states.
    pub fn from_resource(route: RouteResource) -> (r: Result<RouteBinding, ValidationError>)
        ensures
            match translate_resource(route@) {
                Ok(b) => r matches Ok(rb) && rb@ == b,
                Err(e) => r matches Err(e2) && e2 == e,
            },
    {
        let mut hostnames: Vec<Hostname> = Vec::new();
        match &route.hostnames {
            Some(hs) => {
                let mut i: usize = 0;
                while i < hs.len()
                    invariant
                        i <= hs.len(),
                        hostnames@.len() == i,
                        forall|k: int|
                            0 <= k < i ==> hostnames@[k]@ == hostname_spec(hs@[k]@),
                    decreases hs.len() - i,
                {
                    hostnames.push(convert_hostname(hs[i].as_str()));
                    i += 1;
                }
            },
            None => {},
        }
        let ghost rules_v = opt_seq(route@.rules);
        let mut matches: Vec<HttpRouteMatch> = Vec::new();
        match &route.rules {
            Some(rules) => {
                let mut i: usize = 0;
                proof {
                    assert(rules_v.skip(0) =~= rules_v);
                }
                while i < rules.len()
                    invariant
                        i <= rules.len(),
                        rules_v == opt_seq(route@.rules),
                        rules_v == rules@.map_values(|r: RouteRule| r@),
                        rules_v.len() == rules@.len(),
                        translate_rules(rules_v) == match translate_rules(rules_v.skip(i as int)) {
                            Ok(rest) => Ok::<_, ValidationError>(
                                matches@.map_values(|m: HttpRouteMatch| m@) + rest,
                            ),
                            Err(e) => Err(e),
                        },
                    decreases rules.len() - i,
                {
                    let ghost pre = matches@.map_values(|m: HttpRouteMatch| m@);
                    proof {
                        assert(rules_v.skip(i as int)[0] == rules_v[i as int]);
                        assert(rules_v.skip(i as int).drop_first() =~= rules_v.skip(i as int + 1));
                    }
                    match convert_rule_matches(&rules[i], &mut matches) {
                        Ok(()) => {},
                        Err(e) => {
                            return Err(e);
                        },
                    }
                    proof {
                        let head = translate_matches(opt_seq(rules_v[i as int].matches))->Ok_0;
                        assert(matches@.map_values(|m: HttpRouteMatch| m@) =~= pre + head);
                        assert forall|rest: Seq<HttpRouteMatchSpec>|
                            translate_rules(rules_v.skip(i as int + 1)) == Ok::<
                                _,
                                ValidationError,
                            >(rest) implies pre + (head + rest) =~= (pre + head) + rest by {}
                    }
                    i += 1;
                }
                proof {
                    assert(rules_v.skip(rules_v.len() as int) =~= Seq::<RouteRuleSpec>::empty());
                }
            },
            None => {},
        }
        let mut parent_refs: Vec<ParentReference> = Vec::new();
        match &route.parent_refs {
            Some(ps) => {
                let mut i: usize = 0;
                while i < ps.len()
                    invariant
                        i <= ps.len(),
                        parent_refs@.len() == i,
                        forall|k: int| 0 <= k < i ==> parent_refs@[k]@ == ps@[k]@,
                    decreases ps.len() - i,
                {
                    parent_refs.push(copy_parent_ref(&ps[i]));
                    i += 1;
                }
            },
            None => {},
        }
        let r = RouteBinding { route: HttpRoute { hostnames, matches }, parent_refs };
        proof {
            assert(r@ =~~= translate_resource(route@)->Ok_0);
        }
        Ok(r)
    }

    /// Whether this binding attaches to the `Server` policy of the given
    /// name: true exactly when some parent reference targets that kind and
    /// name. The reference's namespace is not checked against the route's
    /// own.
    pub fn selects_server(&self, name: &str) -> (r: bool)
        ensures
            r == exists|i: int|
                0 <= i < self@.parent_refs.len() && is_server_ref_named(
                    #[trigger] self@.parent_refs[i],
                    name@,
                ),
    {
        let mut i: usize = 0;
        while i < self.parent_refs.len()
            invariant
                i <= self.parent_refs.len(),
                self@.parent_refs.len() == self.parent_refs@.len(),
                forall|k: int|
                    0 <= k < i ==> !is_server_ref_named(#[trigger] self@.parent_refs[k], name@),
            decreases self.parent_refs.len() - i,
        {
            let p = &self.parent_refs[i];
            if opt_str_eq(&p.group, "policy.linkerd.io") && opt_str_eq(&p.kind, "Server")
                && str_eq(p.name.as_str(), name) {
                proof {
                    assert(is_server_ref_named(self@.parent_refs[i as int], name@));
                }
                return true;
            }
            i += 1;
        }
        false
    }
}

/// Append one rule's translated matches, stopping at the first failure.
fn convert_rule_matches(rule: &RouteRule, out: &mut Vec<HttpRouteMatch>) -> (r: Result<
    (),
    ValidationError,
>)
    ensures
        match translate_matches(opt_seq(rule@.matches)) {
            Ok(v) => r is Ok && final(out)@.map_values(|m: HttpRouteMatch| m@) == old(
                out,
            )@.map_values(|m: HttpRouteMatch| m@) + v,
            Err(e) => r matches Err(e2) && e2 == e,
        },
{
    let ghost ms_v = opt_seq(rule@.matches);
    let ghost base = out@.map_values(|m: HttpRouteMatch| m@);
    match &rule.matches {
        Some(ms) => {
            let mut i: usize = 0;
            proof {
                assert(ms_v.skip(0) =~= ms_v);
                assert(base + Seq::<HttpRouteMatchSpec>::empty() =~= base);
            }
            while i < ms.len()
                invariant
                    i <= ms.len(),
                    ms_v == ms@.map_values(|m: ResourceRouteMatch| m@),
                    ms_v == opt_seq(rule@.matches),
                    ms_v.len() == ms@.len(),
                    base == old(out)@.map_values(|m: HttpRouteMatch| m@),
                    translate_matches(ms_v) == match translate_matches(ms_v.skip(i as int)) {
                        Ok(rest) => Ok::<_, ValidationError>(
                            out@.map_values(|m: HttpRouteMatch| m@).skip(base.len() as int) + rest,
                        ),
                        Err(e) => Err(e),
                    },
                    out@.map_values(|m: HttpRouteMatch| m@).take(base.len() as int) == base,
                    out@.len() >= base.len(),
                decreases ms.len() - i,
            {
                let ghost pre = out@.map_values(|m: HttpRouteMatch| m@);
                proof {
                    assert(ms_v.skip(i as int)[0] == ms_v[i as int]);
                    assert(ms_v.skip(i as int).drop_first() =~= ms_v.skip(i as int + 1));
                }
                match convert_match(&ms[i]) {
                    Ok(hm) => out.push(hm),
                    Err(e) => {
                        return Err(e);
                    },
                }
                proof {
                    let u = translate_match(ms_v[i as int])->Ok_0;
                    assert(out@.map_values(|m: HttpRouteMatch| m@) =~= pre.push(u));
                    assert(pre.push(u).take(base.len() as int) =~= base);
                    assert(pre.push(u).skip(base.len() as int) =~= pre.skip(base.len() as int).push(
                        u,
                    ));
                    assert forall|rest: Seq<HttpRouteMatchSpec>|
                        translate_matches(ms_v.skip(i as int + 1)) == Ok::<_, ValidationError>(
                            rest,
                        ) implies pre.skip(base.len() as int) + (seq![u] + rest) =~= pre.skip(
                        base.len() as int,
                    ).push(u) + rest by {}
                }
                i += 1;
            }
            proof {
                assert(ms_v.skip(ms_v.len() as int) =~= Seq::<ResourceRouteMatchSpec>::empty());
                assert(out@.map_values(|m: HttpRouteMatch| m@) =~= base + out@.map_values(
                    |m: HttpRouteMatch| m@,
                ).skip(base.len() as int));
            }
            Ok(())
        },
        None => {
            proof {
                assert(base + Seq::<HttpRouteMatchSpec>::empty() =~= base);
            }
            Ok(())
        },
    }
}

/// Copy one parent reference verbatim.
fn copy_parent_ref(p: &ParentReference) -> (r: ParentReference)
    ensures
        r@ == p@,
{
    ParentReference {
        group: copy_opt_string(&p.group),
        kind: copy_opt_string(&p.kind),
        namespace: copy_opt_string(&p.namespace),
        name: p.name.clone(),
        section_name: copy_opt_string(&p.section_name),
        port: match &p.port {
            Some(x) => Some(*x),
            None => None,
        },
    }
}

/// Copy an optional string.
fn copy_opt_string(o: &Option<String>) -> (r: Option<String>)
    ensures
        match o {
            Some(s) => r matches Some(s2) && s2@ == s@,
            None => r is None,
        },
{
    match o {
        Some(s) => Some(s.clone()),
        None => None,
    }
}

/// Whether an optional string holds exactly `s`.
fn opt_str_eq(o: &Option<String>, s: &str) -> (r: bool)
    ensures
        r == (match o {
            Some(x) => x@ == s@,
            None => false,
        }),
{
    match o {
        Some(x) => str_eq(x.as_str(), s),
        None => false,
    }
}

/// Whether the admission check accepts a route resource's parent
/// references: every reference must target the `Server` policy kind; a
/// single reference to anything else rejects the whole resource, whatever
/// else the list holds.
pub fn admission_accepts(route: &RouteResource) -> (r: bool)
    ensures
        r == forall|i: int|
            0 <= i < opt_seq(route@.parent_refs).len() ==> is_server_ref(
                #[trigger] opt_seq(route@.parent_refs)[i],
            ),
{
    match &route.parent_refs {
        Some(ps) => {
            let mut i: usize = 0;
            while i < ps.len()
                invariant
                    i <= ps.len(),
                    opt_seq(route@.parent_refs) == ps@.map_values(|p: ParentReference| p@),
                    forall|k: int|
                        0 <= k < i ==> is_server_ref(#[trigger] opt_seq(route@.parent_refs)[k]),
                decreases ps.len() - i,
            {
                let p = &ps[i];
                proof {
                    assert(opt_seq(route@.parent_refs)[i as int] == ps@[i as int]@);
                }
                if !(opt_str_eq(&p.group, "policy.linkerd.io") && opt_str_eq(&p.kind, "Server")) {
                    proof {
                        assert(!is_server_ref(ps@[i as int]@));
                    }
                    return false;
                }
                proof {
                    assert(is_server_ref(ps@[i as int]@));
                }
                i += 1;
            }
            true
        },
        None => true,
    }
}

} // verus!
