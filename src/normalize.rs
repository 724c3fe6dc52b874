//! Telling an attribute that the provider does not know apart from a failure.
use vstd::prelude::*;

verus! {

#[verifier::external_type_specification]
#[verifier::external_body]
pub struct ExPortalError(ashpd::Error);

/// What a provider call can fail with: the attribute is unknown or
/// unsupported, or anything else, which is fatal.
#[derive(Debug)]
pub enum ProviderError<E> {
    NotFound,
    Fatal(E),
}

/// The result of a provider call once "not found" counts as absence.
pub open spec fn not_found_as_absent<T, E>(r: Result<T, ProviderError<E>>) -> Result<Option<T>, E> {
    match r {
        Ok(v) => Ok(Some(v)),
        Err(ProviderError::NotFound) => Ok(None),
        Err(ProviderError::Fatal(e)) => Err(e),
    }
}

/// Turns a "not found" failure into an absent value and a value into a
/// present one; every other failure passes through unchanged.
pub fn fix_not_found<T, E>(r: Result<T, ProviderError<E>>) -> (out: Result<Option<T>, E>)
    ensures
        out == not_found_as_absent(r),
{
    match r {
        Ok(v) => Ok(Some(v)),
        Err(ProviderError::NotFound) => Ok(None),
        Err(ProviderError::Fatal(e)) => Err(e),
    }
}

/// Relies on the shape of `ashpd::Error`: a portal's `NotFound` reply is
/// `Error::Portal(PortalError::NotFound(_))`; any other error is kept as it is.
#[verifier::external_body]
fn classify_portal_error(e: ashpd::Error) -> (r: ProviderError<ashpd::Error>)
    ensures
        r is NotFound || r == ProviderError::Fatal(e),
{
    match e {
        ashpd::Error::Portal(ashpd::PortalError::NotFound(_)) => ProviderError::NotFound,
        other => ProviderError::Fatal(other),
    }
}

/// Sorts the failure of a portal call into "not found" and fatal. A value
/// passes unchanged; an error becomes either `NotFound` or `Fatal` of itself.
pub fn from_portal<T>(r: Result<T, ashpd::Error>) -> (out: Result<T, ProviderError<ashpd::Error>>)
    ensures
        r matches Ok(v) ==> out == Ok::<T, ProviderError<ashpd::Error>>(v),
        r matches Err(e) ==> (out == Err::<T, ProviderError<ashpd::Error>>(ProviderError::NotFound)
            || out == Err::<T, ProviderError<ashpd::Error>>(ProviderError::Fatal(e))),
{
    match r {
        Ok(v) => Ok(v),
        Err(e) => Err(classify_portal_error(e)),
    }
}

} // verus!
