//! The resource kinds that planets hold and robots mine and sell.

use vstd::prelude::*;

verus! {

/// A mineable resource kind.
#[derive(Clone, Copy, Debug, PartialEq, Eq, Structural, Hash)]
pub enum Resource {
    COAL,
    IRON,
    GEM,
    GOLD,
    PLATINUM,
}

/// Unit price credited when one unit of the resource is sold.
pub open spec fn spec_selling_value(r: Resource) -> u32 {
    match r {
        Resource::COAL => 5,
        Resource::IRON => 15,
        Resource::GEM => 30,
        Resource::GOLD => 50,
        Resource::PLATINUM => 60,
    }
}

/// Movement difficulty of the map band in which the resource occurs.
pub open spec fn spec_resource_difficulty(r: Resource) -> u8 {
    match r {
        Resource::COAL => 1,
        Resource::IRON => 1,
        Resource::GEM => 2,
        Resource::GOLD => 3,
        Resource::PLATINUM => 3,
    }
}

impl Resource {
    /// Every resource kind, in declaration order.
    pub fn variants() -> (r: Vec<Resource>)
        ensures
            r@ == seq![
                Resource::COAL,
                Resource::IRON,
                Resource::GEM,
                Resource::GOLD,
                Resource::PLATINUM,
            ],
    {
        let mut v: Vec<Resource> = Vec::new();
        v.push(Resource::COAL);
        v.push(Resource::IRON);
        v.push(Resource::GEM);
        v.push(Resource::GOLD);
        v.push(Resource::PLATINUM);
        proof {
            assert(v@ =~= seq![
                Resource::COAL,
                Resource::IRON,
                Resource::GEM,
                Resource::GOLD,
                Resource::PLATINUM,
            ]);
        }
        v
    }

    /// Difficulty of the band this resource is placed in.
    pub fn movement_difficulty(&self) -> (r: u8)
        ensures
            r == spec_resource_difficulty(*self),
    {
        match self {
            Resource::COAL => 1,
            Resource::IRON => 1,
            Resource::GEM => 2,
            Resource::GOLD => 3,
            Resource::PLATINUM => 3,
        }
    }

    /// Unit price obtained when selling this resource.
    pub fn get_selling_value(&self) -> (r: u32)
        ensures
            r == spec_selling_value(*self),
    {
        match self {
            Resource::COAL => 5,
            Resource::IRON => 15,
            Resource::GEM => 30,
            Resource::GOLD => 50,
            Resource::PLATINUM => 60,
        }
    }
}

} // verus!
