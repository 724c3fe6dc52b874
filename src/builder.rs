//! Building the first snapshot out of the three initial fetches.
use vstd::prelude::*;
use crate::appearance::{Appearance, ColorSchemeKind, ContrastKind, Rgb};
use crate::normalize::{fix_not_found, from_portal, not_found_as_absent, ProviderError};

verus! {

/// The color scheme once "not found" is absence; a present fetch may itself
/// report no preference.
pub open spec fn scheme_field<E>(r: Result<Option<ColorSchemeKind>, ProviderError<E>>) -> Result<
    Option<ColorSchemeKind>,
    E,
> {
    match not_found_as_absent(r) {
        Ok(Some(v)) => Ok(v),
        Ok(None) => Ok(None),
        Err(e) => Err(e),
    }
}

/// The contrast once "not found" is absence.
pub open spec fn contrast_field<E>(r: Result<Option<ContrastKind>, ProviderError<E>>) -> Result<
    Option<ContrastKind>,
    E,
> {
    match not_found_as_absent(r) {
        Ok(Some(v)) => Ok(v),
        Ok(None) => Ok(None),
        Err(e) => Err(e),
    }
}

/// The initial snapshot, or the first fatal failure in the order color
/// scheme, accent color, contrast.
pub open spec fn initial_snapshot<E>(
    color_scheme: Result<Option<ColorSchemeKind>, ProviderError<E>>,
    accent_color: Result<Rgb, ProviderError<E>>,
    contrast: Result<Option<ContrastKind>, ProviderError<E>>,
) -> Result<Appearance, E> {
    match scheme_field(color_scheme) {
        Err(e) => Err(e),
        Ok(cs) => match not_found_as_absent(accent_color) {
            Err(e) => Err(e),
            Ok(ac) => match contrast_field(contrast) {
                Err(e) => Err(e),
                Ok(ct) => Ok(Appearance { accent_color: ac, color_scheme: cs, contrast: ct }),
            },
        },
    }
}

fn flatten<T, E>(r: Result<Option<Option<T>>, E>) -> (out: Result<Option<T>, E>)
    ensures
        out == (match r {
            Ok(Some(v)) => Ok(v),
            Ok(None) => Ok(None),
            Err(e) => Err(e),
        }),
{
    match r {
        Ok(Some(v)) => Ok(v),
        Ok(None) => Ok(None),
        Err(e) => Err(e),
    }
}

/// Builds the initial snapshot from the three fetched attributes. It succeeds
/// exactly when no fetch failed other than by "not found"; otherwise the first
/// fatal failure, in the order color scheme, accent color, contrast, comes out.
pub fn build_initial<E>(
    color_scheme: Result<Option<ColorSchemeKind>, ProviderError<E>>,
    accent_color: Result<Rgb, ProviderError<E>>,
    contrast: Result<Option<ContrastKind>, ProviderError<E>>,
) -> (r: Result<Appearance, E>)
    ensures
        r == initial_snapshot(color_scheme, accent_color, contrast),
{
    let cs = match flatten(fix_not_found(color_scheme)) {
        Ok(v) => v,
        Err(e) => return Err(e),
    };
    let ac = match fix_not_found(accent_color) {
        Ok(v) => v,
        Err(e) => return Err(e),
    };
    let ct = match flatten(fix_not_found(contrast)) {
        Ok(v) => v,
        Err(e) => return Err(e),
    };
    Ok(Appearance { accent_color: ac, color_scheme: cs, contrast: ct })
}

/// Builds the initial snapshot from the three portal replies. When every
/// reply holds a value the snapshot holds them; otherwise each field is either
/// its reply's value or, where the reply failed as "not found", absent, and any
/// error that comes out is one of the replies' own errors.
pub fn appearance(
    color_scheme: Result<Option<ColorSchemeKind>, ashpd::Error>,
    accent_color: Result<Rgb, ashpd::Error>,
    contrast: Result<Option<ContrastKind>, ashpd::Error>,
) -> (r: Result<Appearance, ashpd::Error>)
    ensures
        color_scheme matches Ok(cs) ==> accent_color matches Ok(ac) ==> contrast matches Ok(ct)
            ==> r == Ok::<Appearance, ashpd::Error>(
            Appearance { accent_color: Some(ac), color_scheme: cs, contrast: ct },
        ),
        r matches Ok(a) ==> {
            &&& color_scheme matches Ok(cs) ==> a.color_scheme == cs
            &&& color_scheme is Err ==> a.color_scheme is None
            &&& accent_color matches Ok(ac) ==> a.accent_color == Some(ac)
            &&& accent_color is Err ==> a.accent_color is None
            &&& contrast matches Ok(ct) ==> a.contrast == ct
            &&& contrast is Err ==> a.contrast is None
        },
        r matches Err(e) ==> {
            ||| color_scheme == Err::<Option<ColorSchemeKind>, ashpd::Error>(e)
            ||| accent_color == Err::<Rgb, ashpd::Error>(e)
            ||| contrast == Err::<Option<ContrastKind>, ashpd::Error>(e)
        },
{
    build_initial(from_portal(color_scheme), from_portal(accent_color), from_portal(contrast))
}

/// A contrast that the provider does not know leaves the initial snapshot
/// without a contrast, and on its own never makes the build fail: when the
/// other two fetches did not fail fatally, the build succeeds.
pub proof fn lemma_contrast_not_found_is_absent<E>(
    color_scheme: Result<Option<ColorSchemeKind>, ProviderError<E>>,
    accent_color: Result<Rgb, ProviderError<E>>,
)
    requires
        !(color_scheme matches Err(ProviderError::Fatal(_))),
        !(accent_color matches Err(ProviderError::Fatal(_))),
    ensures
        initial_snapshot(color_scheme, accent_color, Err(ProviderError::NotFound)) matches Ok(a)
            && a.contrast is None,
{
}

/// A fatal failure of the accent color fetch makes the build fail, so no
/// snapshot is ever emitted.
pub proof fn lemma_accent_failure_is_fatal<E>(
    color_scheme: Result<Option<ColorSchemeKind>, ProviderError<E>>,
    e: E,
    contrast: Result<Option<ContrastKind>, ProviderError<E>>,
)
    ensures
        initial_snapshot(color_scheme, Err(ProviderError::Fatal(e)), contrast) is Err,
        !(color_scheme matches Err(ProviderError::Fatal(_))) ==> initial_snapshot(
            color_scheme,
            Err(ProviderError::Fatal(e)),
            contrast,
        ) == Err::<Appearance, E>(e),
{
}

} // verus!
