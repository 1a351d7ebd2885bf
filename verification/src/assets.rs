//! Resolution of native denominations to oracle-tracked layer-1 asset
//! identifiers, as the host chain's asset registry defines it.
use vstd::prelude::*;

verus! {

/// What resolving a native denomination yields: the canonical
/// `CHAIN.SYMBOL` pool identifier, or the error text naming why the
/// denomination is not a tracked asset.
pub uninterp spec fn layer1_resolution(denom: Seq<char>) -> Result<Seq<char>, Seq<char>>;

/// Whether a denomination resolves to a layer-1 asset: the three fixed
/// denominations do, anything under the `thor.` prefix does, and nothing
/// else.
pub open spec fn spec_denom_resolvable(denom: Seq<char>) -> bool {
    ||| denom == "rune"@
    ||| denom == "tcy"@
    ||| denom == "x/ruji"@
    ||| (denom.len() >= 5 && denom.subrange(0, 5) == "thor."@)
}

/// Relies on rujira_rs::Layer1Asset::from_denom for the resolution, and on
/// the resolved asset's display form (`CHAIN.SYMBOL`) for the identifier:
/// "rune", "tcy" and "x/ruji" name the THOR-chain assets RUNE, TCY and
/// RUJI, "thor.<symbol>" names THOR.<symbol uppercased>, and any other
/// denomination is rejected with an error naming it.
#[verifier::external_body]
pub(crate) fn resolve_layer1_denom(denom: &String) -> (r: Result<String, String>)
    ensures
        (r is Ok) == spec_denom_resolvable(denom@),
        r is Ok ==> layer1_resolution(denom@) is Ok && r->Ok_0@ == layer1_resolution(denom@)->Ok_0,
        r is Err ==> layer1_resolution(denom@) is Err && r->Err_0@ == layer1_resolution(
            denom@,
        )->Err_0,
        r is Ok && denom@ == "rune"@ ==> r->Ok_0@ == "THOR.RUNE"@,
        r is Ok && denom@ == "tcy"@ ==> r->Ok_0@ == "THOR.TCY"@,
        r is Ok && denom@ == "x/ruji"@ ==> r->Ok_0@ == "THOR.RUJI"@,
{
    match rujira_rs::Layer1Asset::from_denom(denom.clone()) {
        Ok(asset) => Ok(asset.to_string()),
        Err(e) => Err(e.to_string()),
    }
}

} // verus!
