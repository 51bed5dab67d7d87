//! The decisions an extension's entry point makes before it registers
//! anything: whether the arguments `DuckDB` passed can be used at all, and
//! what the [`AbiPolicy`] makes of the C API layout check.

use vstd::prelude::*;

use crate::abi::{spec_error_message, AbiCheck, AbiPolicy};
use crate::error::ExtensionError;
use crate::text::chars_contain;
use crate::text::str_chars;

verus! {

/// What an [`AbiPolicy`] makes of one [`AbiCheck`].
#[derive(Debug, Clone, PartialEq, Eq)]
pub enum AbiVerdict {
    /// Load the extension.
    Load,
    /// Load, and print the diagnostic.
    Warn(String),
    /// Fail the load with the diagnostic.
    Refuse(String),
}

/// A verdict as a value: `None` to load silently, `Some((true, m))` to load
/// and warn with `m`, `Some((false, m))` to refuse with `m`.
pub open spec fn verdict_view(v: AbiVerdict) -> Option<(bool, Seq<char>)> {
    match v {
        AbiVerdict::Load => None,
        AbiVerdict::Warn(m) => Some((true, m@)),
        AbiVerdict::Refuse(m) => Some((false, m@)),
    }
}

/// The verdict of `policy` on `check`, as [`verdict_view`] writes it. A
/// passing check loads under every policy. A failing one is refused, except
/// that `Warn` only warns, `AllowUnknownEngine` loads on an engine release
/// whose layout is not known, and `Trust` loads.
pub open spec fn spec_policy_verdict(policy: AbiPolicy, check: AbiCheck) -> Option<(bool, Seq<char>)> {
    match spec_error_message(check) {
        None => None,
        Some(m) => match policy {
            AbiPolicy::Trust => None,
            AbiPolicy::Warn => Some((true, m)),
            AbiPolicy::AllowUnknownEngine => if check is UnknownEngineVersion {
                None
            } else {
                Some((false, m))
            },
            AbiPolicy::Strict => Some((false, m)),
        },
    }
}

/// The decision the entry point applies to the layout check, kept apart
/// from the call that runs it so that every policy can be held against
/// every outcome.
pub fn policy_verdict(policy: AbiPolicy, check: &AbiCheck) -> (v: AbiVerdict)
    ensures
        verdict_view(v) == spec_policy_verdict(policy, *check),
{
    let message = match check.error_message() {
        None => {
            return AbiVerdict::Load;
        },
        Some(m) => m,
    };
    match policy {
        AbiPolicy::Trust => AbiVerdict::Load,
        AbiPolicy::Warn => AbiVerdict::Warn(message),
        AbiPolicy::AllowUnknownEngine => match check {
            AbiCheck::UnknownEngineVersion { .. } => AbiVerdict::Load,
            _ => AbiVerdict::Refuse(message),
        },
        AbiPolicy::Strict => AbiVerdict::Refuse(message),
    }
}

/// A check that passes loads under every policy, silently.
pub proof fn lemma_passing_check_loads(policy: AbiPolicy, check: AbiCheck)
    requires
        spec_error_message(check) is None,
    ensures
        spec_policy_verdict(policy, check) is None,
{
}

/// A check that fails is refused under `Strict`, with its own diagnostic.
pub proof fn lemma_strict_refuses_every_failure(check: AbiCheck)
    requires
        spec_error_message(check) is Some,
    ensures
        spec_policy_verdict(AbiPolicy::Strict, check) == Some((false, spec_error_message(check)->0)),
{
}

/// `Warn` never refuses, and `Trust` always loads.
pub proof fn lemma_lenient_policies_never_refuse(check: AbiCheck)
    ensures
        spec_policy_verdict(AbiPolicy::Warn, check) matches Some((warn, _)) ==> warn,
        spec_policy_verdict(AbiPolicy::Trust, check) is None,
{
}

/// `AllowUnknownEngine` forgives the unknown engine release and nothing
/// else: on every other outcome it decides as `Strict` does.
pub proof fn lemma_allow_unknown_engine_forgives_only_the_unknown_case(check: AbiCheck)
    ensures
        check is UnknownEngineVersion ==> spec_policy_verdict(AbiPolicy::AllowUnknownEngine, check)
            is None,
        !(check is UnknownEngineVersion) ==> spec_policy_verdict(AbiPolicy::AllowUnknownEngine, check)
            == spec_policy_verdict(AbiPolicy::Strict, check),
{
}

/// The message for an API version that cannot become a C string.
pub open spec fn api_version_nul_message() -> Seq<char> {
    "api_version must not contain an interior NUL byte"@
}

/// Refuses an `api_version` with an interior NUL before it reaches the C
/// API initialiser, which would otherwise panic across the C entry point.
pub fn check_api_version(api_version: &str) -> (r: Result<(), ExtensionError>)
    ensures
        r is Err <==> api_version@.contains('\0'),
        r matches Err(e) ==> e@ == api_version_nul_message(),
{
    let chars = str_chars(api_version);
    if chars_contain(chars.as_slice(), '\0') {
        return Err(ExtensionError::new("api_version must not contain an interior NUL byte"));
    }
    Ok(())
}

/// Refuses an access struct the C API initialiser cannot use: a null one,
/// which it would dereference, or one without `get_api`, which it would
/// unwrap.
pub fn check_access(access_present: bool, get_api_present: bool) -> (r: Result<(), ExtensionError>)
    ensures
        r is Ok <==> access_present && get_api_present,
        !access_present ==> (r matches Err(e) && e@
            == "DuckDB passed a null extension access struct"@),
        access_present && !get_api_present ==> (r matches Err(e) && e@
            == "DuckDB passed no get_api function, so the C API cannot be initialised"@),
{
    if !access_present {
        return Err(ExtensionError::new("DuckDB passed a null extension access struct"));
    }
    if !get_api_present {
        return Err(
            ExtensionError::new(
                "DuckDB passed no get_api function, so the C API cannot be initialised",
            ),
        );
    }
    Ok(())
}

} // verus!
