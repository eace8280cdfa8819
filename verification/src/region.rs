//! Service regions, parsed from their names.

use rusoto_core::region::ParseRegionError;
use rusoto_core::Region;
use std::str::FromStr;
use vstd::prelude::*;

verus! {

/// `rusoto_core::Region`, a service region. Nothing is known of a value of
/// it but that it exists: it is carried to whoever opens a connection.
#[verifier::external_type_specification]
#[verifier::external_body]
pub struct ExRegion(Region);

/// `rusoto_core::region::ParseRegionError`, the error with which a region
/// name is refused. Nothing is read from it.
#[verifier::external_type_specification]
#[verifier::external_body]
pub struct ExParseRegionError(ParseRegionError);

/// Whether `rusoto_core::Region::from_str` accepts `name` as the name of a
/// region. It lower-cases the name and looks it up in a fixed table, so
/// the answer depends on the name alone.
pub uninterp spec fn region_known(name: Seq<char>) -> bool;

/// Calls `rusoto_core::Region::from_str`. Trusted: the call succeeds
/// exactly on the names for which `region_known` holds. Which region comes
/// back is not stated.
#[verifier::external_body]
pub(crate) fn parse_region(name: &str) -> (r: Result<Region, ParseRegionError>)
    ensures
        r is Ok == region_known(name@),
{
    Region::from_str(name)
}

} // verus!
