use vstd::prelude::*;

use crate::error::EcError;
use crate::Ec;

verus! {

/// Which string-valued query to run against a binding.
#[derive(Clone, Copy, PartialEq, Eq, Structural, Debug)]
pub enum StrQuery {
    Project,
    Version,
}

/// The attempt budget of the repeat-until-stable validator.
pub const ATTEMPTS: usize = 8;

/// The validator's acceptance rule: a round's value is accepted exactly
/// when its two consecutive answers agree, and the accepted value is that
/// common answer.
pub fn accept_pair(a: String, b: &String) -> (r: Option<String>)
    ensures
        r is Some <==> a@ == b@,
        r matches Some(v) ==> v@ == a@,
{
    if a == *b {
        Some(a)
    } else {
        None
    }
}

/// The acceptance rule for the size query: two consecutive equal reads.
pub fn accept_pair_size(a: usize, b: usize) -> (r: Option<usize>)
    ensures
        r is Some <==> a == b,
        r matches Some(v) ==> v == a,
{
    if a == b {
        Some(a)
    } else {
        None
    }
}

/// Accept a string query's value once two consecutive runs agree,
/// retrying up to `attempts` times. A live EC's string transfers can
/// desynchronize, and a stable pair is taken as the true value.
pub fn validate<E: Ec>(ec: &mut E, q: StrQuery, attempts: usize) -> (r: Result<String, EcError>)
    ensures
        r is Err ==> r == Err::<String, EcError>(EcError::Unstable),
{
    let mut attempt: usize = 0;
    while attempt < attempts
        decreases attempts - attempt,
    {
        let a = match q {
            StrQuery::Project => ec.project(),
            StrQuery::Version => ec.version(),
        };
        let b = match q {
            StrQuery::Project => ec.project(),
            StrQuery::Version => ec.version(),
        };
        match accept_pair(a, &b) {
            Some(v) => {
                return Ok(v);
            },
            None => {},
        }
        attempt = attempt + 1;
    }
    Err(EcError::Unstable)
}

/// Accept the reported size once two consecutive reads agree, as
/// `validate` does for the string queries.
pub fn validate_size<E: Ec>(ec: &mut E, attempts: usize) -> (r: Result<usize, EcError>)
    ensures
        r is Err ==> r == Err::<usize, EcError>(EcError::Unstable),
{
    let mut attempt: usize = 0;
    while attempt < attempts
        decreases attempts - attempt,
    {
        let a = ec.size();
        let b = ec.size();
        match accept_pair_size(a, b) {
            Some(v) => {
                return Ok(v);
            },
            None => {},
        }
        attempt = attempt + 1;
    }
    Err(EcError::Unstable)
}

} // verus!
