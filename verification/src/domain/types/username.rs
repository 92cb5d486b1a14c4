use vstd::prelude::*;

use crate::domain::errors::{Error, ErrorModel};
use crate::text::{chars_of, trim, trimmed};

verus! {

/// Whether `c` may not occur in a username.
pub open spec fn is_forbidden(c: char) -> bool {
    c == '/' || c == '(' || c == ')' || c == '"' || c == '<' || c == '>' || c == '\\' || c == '{'
        || c == '}'
}

/// Whether some character of `s` is forbidden in a username.
pub open spec fn has_forbidden(s: Seq<char>) -> bool {
    exists|i: int| 0 <= i < s.len() && is_forbidden(#[trigger] s[i])
}

/// What makes a sequence of characters a username: it is not empty, it has
/// no white space at either end, and none of its characters is forbidden.
pub open spec fn valid_username(s: Seq<char>) -> bool {
    &&& s.len() > 0
    &&& trimmed(s) == s
    &&& !has_forbidden(s)
}

/// What [`Username::new`] makes of the raw text `raw`.
pub open spec fn username_outcome(raw: Seq<char>) -> Result<Seq<char>, ErrorModel> {
    let s = trimmed(raw);
    if s.len() == 0 {
        Err(ErrorModel::InvalidUsername("Username cannot be empty"@))
    } else if has_forbidden(s) {
        Err(ErrorModel::InvalidUsername("Username cannot contain special characters"@))
    } else {
        Ok(s)
    }
}

/// A username that has passed validation.
#[derive(Debug)]
pub struct Username(String);

impl View for Username {
    type V = Seq<char>;

    closed spec fn view(&self) -> Seq<char> {
        self.0@
    }
}

impl Username {
    #[verifier::type_invariant]
    closed spec fn well_formed(&self) -> bool {
        valid_username(self.0@)
    }

    /// Validates `u` as a username. White space at both ends is dropped
    /// first; the rest must be non-empty and free of forbidden characters.
    pub fn new(u: &str) -> (r: Result<Username, Error>)
        ensures
            match r {
                Ok(name) => username_outcome(u@) == Ok::<Seq<char>, ErrorModel>(name@),
                Err(e) => username_outcome(u@) == Err::<Seq<char>, ErrorModel>(e@),
            },
    {
        let s = trim(u);
        let chars = chars_of(s);
        let n: usize = chars.len();
        if n == 0 {
            return Err(Error::InvalidUsername("Username cannot be empty".to_owned()));
        }
        let mut i: usize = 0;
        while i < n
            invariant
                0 < n == s@.len(),
                i <= n,
                chars@ == s@,
                s@ == trimmed(u@),
                forall|k: int| 0 <= k < i ==> !is_forbidden(#[trigger] s@[k]),
            decreases n - i,
        {
            if char_is_forbidden(chars[i]) {
                assert(is_forbidden(s@[i as int]));
                return Err(
                    Error::InvalidUsername("Username cannot contain special characters".to_owned()),
                );
            }
            i = i + 1;
        }
        proof {
            crate::text::lemma_trimmed_idempotent(u@);
        }
        Ok(Username(s.to_owned()))
    }

    /// The username as text.
    pub fn as_ref(&self) -> (r: &str)
        ensures
            r@ == self@,
            valid_username(r@),
    {
        proof {
            use_type_invariant(self);
        }
        self.0.as_str()
    }
}

/// Tells whether `c` may not occur in a username.
pub fn char_is_forbidden(c: char) -> (r: bool)
    ensures
        r == is_forbidden(c),
{
    c == '/' || c == '(' || c == ')' || c == '"' || c == '<' || c == '>' || c == '\\' || c == '{'
        || c == '}'
}

} // verus!
