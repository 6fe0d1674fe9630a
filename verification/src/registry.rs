//! The registry as a mathematical value, and each operation as a function
//! from one such value to the next. The executable registry is proved to
//! follow these functions step by step.

use crate::analyst::GeneticAnalystView;
use crate::info::GeneticAnalystInfoView;
use vstd::prelude::*;

verus! {

/// Why the registry turned an operation down.
#[derive(Clone, Copy, Debug, PartialEq, Eq, Structural)]
pub enum Error {
    /// The account already has a genetic analyst registered.
    GeneticAnalystAlreadyRegistered,
    /// No genetic analyst is registered under the account.
    GeneticAnalystDoesNotExist,
    /// The genetic analyst does not own the qualification. No operation of
    /// the registry reports it; it is kept for the registry of
    /// qualifications, which checks ownership itself.
    GeneticAnalystIsNotOwner,
}

/// The records of `list`, each under its own account. Of two records with
/// one account the later one stays.
pub open spec fn by_account<AccountId, Hash, Moment>(
    list: Seq<GeneticAnalystView<AccountId, Hash, Moment>>,
) -> Map<AccountId, GeneticAnalystView<AccountId, Hash, Moment>>
    decreases list.len(),
{
    if list.len() == 0 {
        Map::empty()
    } else {
        by_account(list.drop_last()).insert(list.last().account_id, list.last())
    }
}

/// The state of the registry.
#[verifier::reject_recursive_types(AccountId)]
pub ghost struct Registry<AccountId, Hash, Moment> {
    /// The registered analysts, each under the account that registered.
    pub analysts: Map<AccountId, GeneticAnalystView<AccountId, Hash, Moment>>,
    /// The counter of registered analysts.
    pub count: nat,
    /// Every deletion of a qualification that the registry has asked of the
    /// registry of qualifications, oldest first, as owner and qualification.
    pub deletions: Seq<(AccountId, Hash)>,
}

impl<AccountId, Hash, Moment> Registry<AccountId, Hash, Moment> {
    /// The registry in which nobody is registered and nothing has happened.
    pub open spec fn empty() -> Self {
        Registry { analysts: Map::empty(), count: 0, deletions: Seq::empty() }
    }

    /// The registry that holds the records of `list`, each under its own
    /// account, with the counter at `count`, and in which nothing has been
    /// asked for yet.
    pub open spec fn restored(
        list: Seq<GeneticAnalystView<AccountId, Hash, Moment>>,
        count: nat,
    ) -> Self {
        Registry { analysts: by_account(list), count, deletions: Seq::empty() }
    }

    /// Whether a genetic analyst is registered under `account_id`.
    pub open spec fn contains(self, account_id: AccountId) -> bool {
        self.analysts.dom().contains(account_id)
    }

    /// The record stored under `account_id`, if there is one.
    pub open spec fn lookup(self, account_id: AccountId) -> Option<
        GeneticAnalystView<AccountId, Hash, Moment>,
    > {
        if self.contains(account_id) {
            Some(self.analysts[account_id])
        } else {
            None
        }
    }

    /// Every record is stored under its own account.
    pub open spec fn keyed_by_account(self) -> bool {
        forall|account_id: AccountId| #[trigger]
            self.contains(account_id) ==> self.analysts[account_id].account_id == account_id
    }

    /// The counter equals the number of registered analysts.
    pub open spec fn counted(self) -> bool {
        self.analysts.dom().finite() && self.count == self.analysts.dom().len()
    }

    /// The counter one higher; at the largest `u64` it stays.
    pub open spec fn add_count(self) -> Self {
        Registry {
            count: if self.count < u64::MAX {
                self.count + 1
            } else {
                self.count
            },
            ..self
        }
    }

    /// The counter one lower; at zero it stays.
    pub open spec fn sub_count(self) -> Self {
        Registry {
            count: if self.count > 0 {
                (self.count - 1) as nat
            } else {
                0
            },
            ..self
        }
    }

    /// Registration of `account_id` with the profile `info`: refused where the
    /// account is registered, else a record without qualifications is stored
    /// and counted.
    pub open spec fn create(
        self,
        account_id: AccountId,
        info: GeneticAnalystInfoView<Moment>,
    ) -> Result<Self, Error> {
        if self.contains(account_id) {
            Err(Error::GeneticAnalystAlreadyRegistered)
        } else {
            Ok(
                Registry {
                    analysts: self.analysts.insert(
                        account_id,
                        GeneticAnalystView::new(account_id, info),
                    ),
                    ..self
                }.add_count(),
            )
        }
    }

    /// Update of the profile of `account_id`: refused where the account is not
    /// registered, else `info` takes the place of the stored profile.
    pub open spec fn update(
        self,
        account_id: AccountId,
        info: GeneticAnalystInfoView<Moment>,
    ) -> Result<Self, Error> {
        if self.contains(account_id) {
            Ok(
                Registry {
                    analysts: self.analysts.insert(
                        account_id,
                        self.analysts[account_id].update_info(info),
                    ),
                    ..self
                },
            )
        } else {
            Err(Error::GeneticAnalystDoesNotExist)
        }
    }

    /// The deletions that removing the record under `account_id` asks for:
    /// one for each of its qualifications, in the order of the list.
    pub open spec fn cascade(self, account_id: AccountId) -> Seq<(AccountId, Hash)> {
        self.analysts[account_id].qualifications.map_values(
            |qualification_id: Hash| (account_id, qualification_id),
        )
    }

    /// Removal of `account_id`: refused where the account is not registered,
    /// else the deletion of each of its qualifications is asked for, the
    /// record leaves the registry and the counter goes down.
    pub open spec fn delete(self, account_id: AccountId) -> Result<Self, Error> {
        if self.contains(account_id) {
            Ok(
                Registry {
                    analysts: self.analysts.remove(account_id),
                    deletions: self.deletions + self.cascade(account_id),
                    ..self
                }.sub_count(),
            )
        } else {
            Err(Error::GeneticAnalystDoesNotExist)
        }
    }

    /// `qualification_id` added to the list of `owner_id`; nothing where the
    /// owner is not registered.
    pub open spec fn associate(self, owner_id: AccountId, qualification_id: Hash) -> Self {
        if self.contains(owner_id) {
            Registry {
                analysts: self.analysts.insert(
                    owner_id,
                    self.analysts[owner_id].add_qualification(qualification_id),
                ),
                ..self
            }
        } else {
            self
        }
    }

    /// The first `qualification_id` taken off the list of `owner_id`; nothing
    /// where the owner is not registered or does not list it.
    pub open spec fn disassociate(self, owner_id: AccountId, qualification_id: Hash) -> Self {
        if self.contains(owner_id) {
            Registry {
                analysts: self.analysts.insert(
                    owner_id,
                    self.analysts[owner_id].remove_qualification(qualification_id),
                ),
                ..self
            }
        } else {
            self
        }
    }
}

} // verus!
