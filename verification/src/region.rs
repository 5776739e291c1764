//! The regions of the account that are visited.

use vstd::prelude::*;

verus! {

/// A region of the account. Each one is listed on its own.
#[derive(Clone, Copy, Debug, PartialEq, Eq, Structural)]
pub enum Region {
    ApNortheast1,
    ApNortheast2,
    ApSouth1,
    ApSoutheast1,
    ApSoutheast2,
    CaCentral1,
    EuCentral1,
    EuWest1,
    EuWest2,
    EuWest3,
    SaEast1,
    UsEast1,
    UsEast2,
    UsWest1,
    UsWest2,
}

impl Region {
    /// The name under which the region is shown.
    pub open spec fn spec_name(self) -> Seq<char> {
        match self {
            Region::ApNortheast1 => "ApNortheast1"@,
            Region::ApNortheast2 => "ApNortheast2"@,
            Region::ApSouth1 => "ApSouth1"@,
            Region::ApSoutheast1 => "ApSoutheast1"@,
            Region::ApSoutheast2 => "ApSoutheast2"@,
            Region::CaCentral1 => "CaCentral1"@,
            Region::EuCentral1 => "EuCentral1"@,
            Region::EuWest1 => "EuWest1"@,
            Region::EuWest2 => "EuWest2"@,
            Region::EuWest3 => "EuWest3"@,
            Region::SaEast1 => "SaEast1"@,
            Region::UsEast1 => "UsEast1"@,
            Region::UsEast2 => "UsEast2"@,
            Region::UsWest1 => "UsWest1"@,
            Region::UsWest2 => "UsWest2"@,
        }
    }

    /// The name under which the region is shown.
    pub fn name(self) -> (r: &'static str)
        ensures
            r@ == self.spec_name(),
    {
        match self {
            Region::ApNortheast1 => "ApNortheast1",
            Region::ApNortheast2 => "ApNortheast2",
            Region::ApSouth1 => "ApSouth1",
            Region::ApSoutheast1 => "ApSoutheast1",
            Region::ApSoutheast2 => "ApSoutheast2",
            Region::CaCentral1 => "CaCentral1",
            Region::EuCentral1 => "EuCentral1",
            Region::EuWest1 => "EuWest1",
            Region::EuWest2 => "EuWest2",
            Region::EuWest3 => "EuWest3",
            Region::SaEast1 => "SaEast1",
            Region::UsEast1 => "UsEast1",
            Region::UsEast2 => "UsEast2",
            Region::UsWest1 => "UsWest1",
            Region::UsWest2 => "UsWest2",
        }
    }
}

/// The regions that a run visits, in the order in which it starts them.
pub open spec fn spec_regions() -> Seq<Region> {
    seq![
        Region::ApNortheast1,
        Region::ApNortheast2,
        Region::ApSouth1,
        Region::ApSoutheast1,
        Region::ApSoutheast2,
        Region::CaCentral1,
        Region::EuCentral1,
        Region::EuWest1,
        Region::EuWest2,
        Region::EuWest3,
        Region::SaEast1,
        Region::UsEast1,
        Region::UsEast2,
        Region::UsWest1,
        Region::UsWest2,
    ]
}

/// The regions that a run visits, in the order in which it starts them.
pub fn regions() -> (r: Vec<Region>)
    ensures
        r@ == spec_regions(),
{
    let r = vec![
        Region::ApNortheast1,
        Region::ApNortheast2,
        Region::ApSouth1,
        Region::ApSoutheast1,
        Region::ApSoutheast2,
        Region::CaCentral1,
        Region::EuCentral1,
        Region::EuWest1,
        Region::EuWest2,
        Region::EuWest3,
        Region::SaEast1,
        Region::UsEast1,
        Region::UsEast2,
        Region::UsWest1,
        Region::UsWest2,
    ];
    assert(r@ =~= spec_regions());
    r
}

} // verus!
