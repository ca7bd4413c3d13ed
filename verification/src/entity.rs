use vstd::prelude::*;
use vstd::std_specs::cmp::PartialEqSpec;

verus! {

/// An object of the domain that is told apart by its identity, not by its
/// attributes: two entities with equal identities are the same entity, however
/// their other attributes differ, and two with different identities are
/// different entities, however alike they are otherwise.
pub trait EntityTrait {
    /// The identity: a single identifier, or a tuple of them for a composite one.
    type Identity: PartialEq;

    /// The entity's identity.
    spec fn spec_identity(&self) -> Self::Identity;

    /// The entity's identity.
    fn identity(&self) -> (r: Self::Identity)
        ensures
            r == self.spec_identity(),
    ;

    /// Whether two entities are the same entity: whether their identities are equal.
    fn eq(&self, other: &Self) -> (r: bool)
        ensures
            <Self::Identity as PartialEqSpec>::obeys_eq_spec() ==> r == self.spec_identity().eq_spec(
                &other.spec_identity(),
            ),
    {
        self.identity() == other.identity()
    }
}

} // verus!
