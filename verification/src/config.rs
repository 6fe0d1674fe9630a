//! The types that a registry is built on, and what it asks of them.

use vstd::laws_cmp::obeys_cmp;
use vstd::laws_eq::obeys_concrete_eq;
use vstd::prelude::*;

verus! {

/// The registry of qualifications, as far as this registry needs it: when a
/// genetic analyst leaves, the deletion of each of its qualifications is asked
/// of it. Nothing is assumed of what it answers.
pub trait GeneticAnalystQualificationsProvider<AccountId, Hash> {
    type Error;

    fn delete_qualification(&mut self, owner_id: &AccountId, qualification_id: &Hash) -> Result<
        (),
        Self::Error,
    >;
}

/// The types that a registry is built on.
pub trait Config: Sized {
    /// The account of a registrant. The registry keys its records by it.
    type AccountId: Copy + Ord;

    /// The reference to a qualification.
    type Hash: Copy + Eq;

    /// A point in time, as the date of birth of a profile holds it.
    type Moment: Copy;

    /// The registry of qualifications.
    type GeneticAnalystQualifications: GeneticAnalystQualificationsProvider<
        Self::AccountId,
        Self::Hash,
    >;
}

/// Accounts and references to qualifications compare by what they hold: two
/// of them are equal to `==` exactly where they are the same value, and the
/// order of accounts is a total order that agrees with it. The integer types
/// are such, and every operation of the registry asks it of the types it is
/// built on.
pub open spec fn by_value<T: Config>() -> bool {
    &&& obeys_cmp::<T::AccountId>()
    &&& obeys_concrete_eq::<T::AccountId>()
    &&& obeys_concrete_eq::<T::Hash>()
}

} // verus!
