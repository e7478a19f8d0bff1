//! The match-rule data model: hostnames and path, header, query-parameter
//! and method matchers.
//!
//! A request matches an [`HttpRoute`] if it matches any hostname (an empty
//! hostname list matches everything) and any one [`HttpRouteMatch`]; within
//! one match every present field must hold.

use vstd::prelude::*;
use crate::method::Method;
use crate::pattern::{regex_valid, Pattern};
use crate::strings::seq_view;
use vstd::std_specs::cmp::PartialEqSpec;

verus! {

/// A route: hostnames and matches, each list read with OR semantics when
/// non-empty.
#[derive(Debug, Clone, PartialEq, Eq, Hash)]
pub struct HttpRoute {
    pub hostnames: Vec<Hostname>,
    pub matches: Vec<HttpRouteMatch>,
}

/// A hostname rule: a literal name, or the suffix a leading `*.` wildcard
/// leaves, held as reverse-ordered labels so suffix comparison becomes prefix
/// comparison.
#[derive(Debug, Clone, PartialEq, Eq, Hash)]
pub enum Hostname {
    Exact(String),
    Suffix { reverse_labels: Vec<String> },
}

/// One conjunction of matchers; absent fields impose no constraint.
#[derive(Debug, Clone, PartialEq, Eq, Hash)]
pub struct HttpRouteMatch {
    pub path: Option<PathMatch>,
    pub headers: Vec<HeaderMatch>,
    pub query_params: Vec<QueryParamMatch>,
    pub method: Option<Method>,
}

/// A path matcher.
#[derive(Debug, Clone)]
pub enum PathMatch {
    Exact(String),
    Prefix(String),
    Regex(Pattern),
}

/// A header matcher.
#[derive(Debug, Clone, PartialEq, Eq, Hash)]
pub struct HeaderMatch {
    pub name: String,
    pub value: Value,
}

/// A query-parameter matcher.
#[derive(Debug, Clone, PartialEq, Eq, Hash)]
pub struct QueryParamMatch {
    pub name: String,
    pub value: Value,
}

/// A header or query-parameter value matcher.
#[derive(Debug, Clone)]
pub enum Value {
    Exact(String),
    Regex(Pattern),
}

/// Mathematical form of a [`Hostname`].
#[verifier::ext_equal]
pub enum HostnameSpec {
    Exact(Seq<char>),
    Suffix(Seq<Seq<char>>),
}

/// Mathematical form of a [`PathMatch`]; a regular expression is its source
/// text.
#[verifier::ext_equal]
pub enum PathMatchSpec {
    Exact(Seq<char>),
    Prefix(Seq<char>),
    Regex(Seq<char>),
}

/// Mathematical form of a [`Value`].
#[verifier::ext_equal]
pub enum ValueSpec {
    Exact(Seq<char>),
    Regex(Seq<char>),
}

/// Mathematical form of a [`HeaderMatch`].
#[verifier::ext_equal]
pub struct HeaderMatchSpec {
    pub name: Seq<char>,
    pub value: ValueSpec,
}

/// Mathematical form of a [`QueryParamMatch`].
#[verifier::ext_equal]
pub struct QueryParamMatchSpec {
    pub name: Seq<char>,
    pub value: ValueSpec,
}

/// Mathematical form of an [`HttpRouteMatch`].
#[verifier::ext_equal]
pub struct HttpRouteMatchSpec {
    pub path: Option<PathMatchSpec>,
    pub headers: Seq<HeaderMatchSpec>,
    pub query_params: Seq<QueryParamMatchSpec>,
    pub method: Option<Seq<char>>,
}

/// Mathematical form of an [`HttpRoute`].
#[verifier::ext_equal]
pub struct HttpRouteSpec {
    pub hostnames: Seq<HostnameSpec>,
    pub matches: Seq<HttpRouteMatchSpec>,
}

impl View for Hostname {
    type V = HostnameSpec;

    open spec fn view(&self) -> HostnameSpec {
        match self {
            Hostname::Exact(s) => HostnameSpec::Exact(s@),
            Hostname::Suffix { reverse_labels } => HostnameSpec::Suffix(
                seq_view(reverse_labels@),
            ),
        }
    }
}

impl View for PathMatch {
    type V = PathMatchSpec;

    open spec fn view(&self) -> PathMatchSpec {
        match self {
            PathMatch::Exact(s) => PathMatchSpec::Exact(s@),
            PathMatch::Prefix(s) => PathMatchSpec::Prefix(s@),
            PathMatch::Regex(re) => PathMatchSpec::Regex(re@),
        }
    }
}

impl View for Value {
    type V = ValueSpec;

    open spec fn view(&self) -> ValueSpec {
        match self {
            Value::Exact(s) => ValueSpec::Exact(s@),
            Value::Regex(re) => ValueSpec::Regex(re@),
        }
    }
}

impl View for HeaderMatch {
    type V = HeaderMatchSpec;

    open spec fn view(&self) -> HeaderMatchSpec {
        HeaderMatchSpec { name: self.name@, value: self.value@ }
    }
}

impl View for QueryParamMatch {
    type V = QueryParamMatchSpec;

    open spec fn view(&self) -> QueryParamMatchSpec {
        QueryParamMatchSpec { name: self.name@, value: self.value@ }
    }
}

impl View for HttpRouteMatch {
    type V = HttpRouteMatchSpec;

    open spec fn view(&self) -> HttpRouteMatchSpec {
        HttpRouteMatchSpec {
            path: match self.path {
                Some(p) => Some(p@),
                None => None,
            },
            headers: self.headers@.map_values(|h: HeaderMatch| h@),
            query_params: self.query_params@.map_values(|q: QueryParamMatch| q@),
            method: match self.method {
                Some(m) => Some(m@),
                None => None,
            },
        }
    }
}

impl View for HttpRoute {
    type V = HttpRouteSpec;

    open spec fn view(&self) -> HttpRouteSpec {
        HttpRouteSpec {
            hostnames: self.hostnames@.map_values(|h: Hostname| h@),
            matches: self.matches@.map_values(|m: HttpRouteMatch| m@),
        }
    }
}

impl PathMatch {
    /// Compile `v` into a regular-expression path match; succeeds exactly
    /// when `v` is a valid pattern.
    pub fn try_regex(v: &str) -> (r: Result<Self, regex::Error>)
        ensures
            r matches Ok(pm) ==> pm@ == PathMatchSpec::Regex(v@) && regex_valid(v@),
            r is Err <==> !regex_valid(v@),
    {
        match Pattern::new(v) {
            Ok(re) => Ok(PathMatch::Regex(re)),
            Err(e) => Err(e),
        }
    }
}

impl PartialEq for PathMatch {
    fn eq(&self, other: &Self) -> (r: bool) {
        match (self, other) {
            (PathMatch::Exact(a), PathMatch::Exact(b)) => crate::strings::str_eq(
                a.as_str(),
                b.as_str(),
            ),
            (PathMatch::Prefix(a), PathMatch::Prefix(b)) => crate::strings::str_eq(
                a.as_str(),
                b.as_str(),
            ),
            (PathMatch::Regex(a), PathMatch::Regex(b)) => crate::strings::str_eq(
                a.as_str(),
                b.as_str(),
            ),
            _ => false,
        }
    }
}

impl Eq for PathMatch {

}

impl vstd::std_specs::cmp::PartialEqSpecImpl for PathMatch {
    open spec fn obeys_eq_spec() -> bool {
        true
    }

    open spec fn eq_spec(&self, other: &Self) -> bool {
        self@ == other@
    }
}

impl core::hash::Hash for PathMatch {
    /// Relies on String's Hash: each variant hashes its text, a regular
    /// expression the source text of its pattern.
    #[verifier::external_body]
    fn hash<H: core::hash::Hasher>(&self, state: &mut H) {
        match self {
            PathMatch::Exact(s) => s.hash(state),
            PathMatch::Prefix(s) => s.hash(state),
            PathMatch::Regex(re) => re.hash(state),
        }
    }
}

impl Value {
    /// Compile `v` into a regular-expression value match; succeeds exactly
    /// when `v` is a valid pattern.
    pub fn try_regex(v: &str) -> (r: Result<Self, regex::Error>)
        ensures
            r matches Ok(vm) ==> vm@ == ValueSpec::Regex(v@) && regex_valid(v@),
            r is Err <==> !regex_valid(v@),
    {
        match Pattern::new(v) {
            Ok(re) => Ok(Value::Regex(re)),
            Err(e) => Err(e),
        }
    }
}

impl PartialEq for Value {
    fn eq(&self, other: &Self) -> (r: bool) {
        match (self, other) {
            (Value::Exact(a), Value::Exact(b)) => crate::strings::str_eq(a.as_str(), b.as_str()),
            (Value::Regex(a), Value::Regex(b)) => crate::strings::str_eq(a.as_str(), b.as_str()),
            _ => false,
        }
    }
}

impl Eq for Value {

}

impl vstd::std_specs::cmp::PartialEqSpecImpl for Value {
    open spec fn obeys_eq_spec() -> bool {
        true
    }

    open spec fn eq_spec(&self, other: &Self) -> bool {
        self@ == other@
    }
}

impl core::hash::Hash for Value {
    /// Relies on String's Hash: each variant hashes its text, a regular
    /// expression the source text of its pattern.
    #[verifier::external_body]
    fn hash<H: core::hash::Hasher>(&self, state: &mut H) {
        match self {
            Value::Exact(s) => s.hash(state),
            Value::Regex(re) => re.hash(state),
        }
    }
}

/// Two regular-expression path matches built from the same pattern text are
/// equal, however each was compiled.
pub proof fn lemma_path_regex_eq_by_pattern(a: PathMatch, b: PathMatch)
    requires
        a is Regex,
        b is Regex,
        a@ == b@,
    ensures
        a.eq_spec(&b),
{
}

/// Two regular-expression value matches built from the same pattern text are
/// equal, however each was compiled.
pub proof fn lemma_value_regex_eq_by_pattern(a: Value, b: Value)
    requires
        a is Regex,
        b is Regex,
        a@ == b@,
    ensures
        a.eq_spec(&b),
{
}

} // verus!
