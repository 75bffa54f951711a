//! The bearer-token rule for the non-realtime surface: with no required
//! token set, every request passes; otherwise the presented token must
//! match the required one exactly.

use vstd::prelude::*;

verus! {

/// True exactly when a request carrying `presented` may pass a check
/// that demands `required`.
pub open spec fn permits(required: Option<Seq<char>>, presented: Option<Seq<char>>) -> bool {
    match required {
        None => true,
        Some(r) => match presented {
            None => false,
            Some(p) => p == r,
        },
    }
}

/// The sequence of characters held by an optional token.
pub open spec fn token_view(token: Option<String>) -> Option<Seq<char>> {
    match token {
        None => None,
        Some(t) => Some(t@),
    }
}

/// Whether a request may pass the token check: always when no token is
/// required, otherwise only with a presented token equal to the required
/// one.
pub fn token_permits(required: &Option<String>, presented: &Option<String>) -> (b: bool)
    ensures
        b == permits(token_view(*required), token_view(*presented)),
{
    match required {
        None => true,
        Some(r) => match presented {
            None => false,
            Some(p) => *p == *r,
        },
    }
}

} // verus!
