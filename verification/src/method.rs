//! Request methods, held as their validated textual token.

use vstd::prelude::*;

verus! {

/// Whether a token is a valid request method; validity is a function of the
/// token text alone.
pub uninterp spec fn method_token_valid(s: Seq<char>) -> bool;

/// A request method. Its view is the token it was parsed from.
#[derive(Debug, Clone, PartialEq, Eq, Hash)]
pub struct Method {
    token: String,
}

impl View for Method {
    type V = Seq<char>;

    closed spec fn view(&self) -> Seq<char> {
        self.token@
    }
}

/// Relies on http::Method::from_str: it accepts exactly the valid method
/// tokens, both the standard methods (matched byte for byte) and extension
/// tokens (stored as given), and the parsed method renders as the given
/// token.
#[verifier::external_body]
fn parse_token(s: &str) -> (r: Option<Method>)
    ensures
        r is Some <==> method_token_valid(s@),
        r matches Some(m) ==> m@ == s@,
{
    match <http::Method as core::str::FromStr>::from_str(s) {
        Ok(m) => Some(Method { token: m.as_str().to_owned() }),
        Err(_) => None,
    }
}

impl Method {
    /// Parse a method from its textual token; succeeds exactly on valid
    /// tokens.
    pub fn parse(s: &str) -> (r: Option<Method>)
        ensures
            r is Some <==> method_token_valid(s@),
            r matches Some(m) ==> m@ == s@,
    {
        parse_token(s)
    }

    /// The method's token.
    pub fn as_str(&self) -> (r: &str)
        ensures
            r@ == self@,
    {
        self.token.as_str()
    }
}

} // verus!
