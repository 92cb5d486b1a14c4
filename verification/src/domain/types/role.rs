use vstd::prelude::*;

use crate::domain::errors::{Error, ErrorModel};

verus! {

/// Whether `s` names one of the roles that exist.
pub open spec fn is_role(s: Seq<char>) -> bool {
    s == "user"@ || s == "admin"@
}

/// The lower-case form of a text, as `str::to_lowercase` gives it.
pub uninterp spec fn lowercase(s: Seq<char>) -> Seq<char>;

/// Folds a text to lower case with `str::to_lowercase`. Trusted: the result
/// is that function's, which depends on the text alone.
#[verifier::external_body]
fn to_lowercase(s: &str) -> (r: String)
    ensures
        r@ == lowercase(s@),
{
    s.to_lowercase()
}

/// A role that exists: `user` or `admin`.
#[derive(Debug)]
pub struct Role(String);

impl View for Role {
    type V = Seq<char>;

    closed spec fn view(&self) -> Seq<char> {
        self.0@
    }
}

impl Role {
    #[verifier::type_invariant]
    closed spec fn well_formed(&self) -> bool {
        is_role(self.0@)
    }

    /// Validates `r` as a role, whatever its case: it is folded to lower
    /// case and must then name a role that exists.
    pub fn new(r: String) -> (res: Result<Role, Error>)
        ensures
            match res {
                Ok(role) => is_role(lowercase(r@)) && role@ == lowercase(r@),
                Err(e) => !is_role(lowercase(r@)) && e@ == ErrorModel::InvalidRole(lowercase(r@)),
            },
    {
        Role::from_folded(to_lowercase(r.as_str()))
    }

    /// Validates a text that is in lower case already as a role.
    pub fn from_folded(role: String) -> (res: Result<Role, Error>)
        ensures
            match res {
                Ok(known) => is_role(role@) && known@ == role@,
                Err(e) => !is_role(role@) && e@ == ErrorModel::InvalidRole(role@),
            },
    {
        if role == "user".to_owned() || role == "admin".to_owned() {
            Ok(Role(role))
        } else {
            Err(Error::InvalidRole(role))
        }
    }

    /// The role as text.
    pub fn as_ref(&self) -> (r: &str)
        ensures
            r@ == self@,
            is_role(r@),
    {
        proof {
            use_type_invariant(self);
        }
        self.0.as_str()
    }
}

} // verus!
