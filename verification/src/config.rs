use vstd::prelude::*;

verus! {

/// The credentials that the protected API accepts.
#[derive(Debug, Clone)]
pub struct Config {
    pub login: String,
    pub password: String,
}

/// Port the server listens on.
pub const PORT: u16 = 8000;

} // verus!
