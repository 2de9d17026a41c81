//! The registry's package visibility policy and its command-line form.

use vstd::prelude::*;

verus! {

/// A registry-defined visibility policy for a published package.
#[derive(Clone, Copy, Debug, PartialEq, Eq, Structural)]
pub enum AccessLevel {
    /// Anyone may depend on the package.
    Public,
    /// Only authorized users of the owning scope may depend on it.
    Restricted,
}

/// The exact command-line token that carries an access level to the tool.
pub open spec fn access_token(a: AccessLevel) -> Seq<char> {
    match a {
        AccessLevel::Public => "--access=public"@,
        AccessLevel::Restricted => "--access=restricted"@,
    }
}

impl AccessLevel {
    /// The serialized argument for this access level, e.g. `--access=public`.
    pub fn as_arg(&self) -> (r: String)
        ensures
            r@ == access_token(*self),
    {
        match self {
            AccessLevel::Public => String::from_str("--access=public"),
            AccessLevel::Restricted => String::from_str("--access=restricted"),
        }
    }
}

} // verus!
