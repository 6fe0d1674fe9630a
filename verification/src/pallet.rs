//! The registry itself: the records in an ordered map, the counter, and the
//! operations on them, each proved to do what the model says.

use crate::analyst::GeneticAnalyst;
use crate::config::{by_value, Config, GeneticAnalystQualificationsProvider};
use crate::info::GeneticAnalystInfo;
use crate::laws::{
    law_call_keeps_count, law_records_stay_under_their_account,
    law_restored_records_are_under_their_account, Call,
};
use crate::registry::{by_account, Error, Registry};
use std::collections::BTreeMap;
use vstd::prelude::*;
use vstd::std_specs::btree::spec_btree_map_len;

verus! {

broadcast use vstd::std_specs::btree::group_btree_axioms;

pub type AccountIdOf<T> = <T as Config>::AccountId;

pub type HashOf<T> = <T as Config>::Hash;

pub type MomentOf<T> = <T as Config>::Moment;

pub type GeneticAnalystOf<T> = GeneticAnalyst<AccountIdOf<T>, HashOf<T>, MomentOf<T>>;

/// What other parts of a system ask of the registry of genetic analysts.
pub trait GeneticAnalystInterface<T: Config>: View<
    V = Registry<T::AccountId, T::Hash, T::Moment>,
> {
    /// Registers `account_id` with the profile `genetic_analyst_info` and
    /// returns the new record, which lists no qualification. Fails, and
    /// changes nothing, exactly where the account is registered already.
    fn create_genetic_analyst(
        &mut self,
        account_id: &T::AccountId,
        genetic_analyst_info: &GeneticAnalystInfo<T::Moment>,
    ) -> (result: Result<GeneticAnalystOf<T>, Error>)
        requires
            by_value::<T>(),
        ensures
            match result {
                Ok(genetic_analyst) => {
                    &&& old(self)@.create(*account_id, genetic_analyst_info@) == Ok::<_, Error>(
                        final(self)@,
                    )
                    &&& final(self)@.lookup(*account_id) == Some(genetic_analyst@)
                },
                Err(error) => {
                    &&& old(self)@.create(*account_id, genetic_analyst_info@) == Err::<
                        Registry<T::AccountId, T::Hash, T::Moment>,
                        _,
                    >(error)
                    &&& final(self)@ == old(self)@
                },
            },
            old(self)@.keyed_by_account() ==> final(self)@.keyed_by_account(),
            old(self)@.counted() ==> final(self)@.counted(),
    ;

    /// Puts `genetic_analyst_info` in the place of the profile of
    /// `account_id` and returns the record as it then stands. Fails, and
    /// changes nothing, exactly where the account is not registered.
    fn update_genetic_analyst(
        &mut self,
        account_id: &T::AccountId,
        genetic_analyst_info: &GeneticAnalystInfo<T::Moment>,
    ) -> (result: Result<GeneticAnalystOf<T>, Error>)
        requires
            by_value::<T>(),
        ensures
            match result {
                Ok(genetic_analyst) => {
                    &&& old(self)@.update(*account_id, genetic_analyst_info@) == Ok::<_, Error>(
                        final(self)@,
                    )
                    &&& final(self)@.lookup(*account_id) == Some(genetic_analyst@)
                },
                Err(error) => {
                    &&& old(self)@.update(*account_id, genetic_analyst_info@) == Err::<
                        Registry<T::AccountId, T::Hash, T::Moment>,
                        _,
                    >(error)
                    &&& final(self)@ == old(self)@
                },
            },
            old(self)@.keyed_by_account() ==> final(self)@.keyed_by_account(),
            old(self)@.counted() ==> final(self)@.counted(),
    ;

    /// Removes the record of `account_id` and returns it as it stood. Before
    /// the record leaves, the deletion of each qualification on its list is
    /// asked of the registry of qualifications, once each and in the order of
    /// the list; whatever that registry answers, the removal goes on. Fails,
    /// and changes and asks nothing, exactly where the account is not
    /// registered.
    fn delete_genetic_analyst(&mut self, account_id: &T::AccountId) -> (result: Result<
        GeneticAnalystOf<T>,
        Error,
    >)
        requires
            by_value::<T>(),
        ensures
            match result {
                Ok(genetic_analyst) => {
                    &&& old(self)@.delete(*account_id) == Ok::<_, Error>(final(self)@)
                    &&& old(self)@.lookup(*account_id) == Some(genetic_analyst@)
                },
                Err(error) => {
                    &&& old(self)@.delete(*account_id) == Err::<
                        Registry<T::AccountId, T::Hash, T::Moment>,
                        _,
                    >(error)
                    &&& final(self)@ == old(self)@
                },
            },
            old(self)@.keyed_by_account() ==> final(self)@.keyed_by_account(),
            old(self)@.counted() ==> final(self)@.counted(),
    ;

    /// The record stored under `account_id`, if there is one.
    fn genetic_analyst_by_account_id(&self, account_id: &T::AccountId) -> (genetic_analyst: Option<
        GeneticAnalystOf<T>,
    >)
        requires
            by_value::<T>(),
        ensures
            match genetic_analyst {
                Some(stored) => self@.lookup(*account_id) == Some(stored@),
                None => self@.lookup(*account_id).is_none(),
            },
    ;
}

/// What the registry of qualifications asks of the registry of genetic
/// analysts, whose records own the qualifications.
pub trait GeneticAnalystQualificationOwner<T: Config>: View<
    V = Registry<T::AccountId, T::Hash, T::Moment>,
> {
    /// Whether `user_id` may own a new qualification: exactly where a genetic
    /// analyst is registered under it.
    fn can_create_qualification(&self, user_id: &T::AccountId) -> (allowed: bool)
        requires
            by_value::<T>(),
        ensures
            allowed == self@.contains(*user_id),
    ;

    /// The record that owns the qualifications of `id`, if there is one.
    fn get_owner(&self, id: &T::AccountId) -> (owner: Option<GeneticAnalystOf<T>>)
        requires
            by_value::<T>(),
        ensures
            match owner {
                Some(stored) => self@.lookup(*id) == Some(stored@),
                None => self@.lookup(*id).is_none(),
            },
    ;

    /// Adds `qualification_id` at the end of the list of `owner_id`, listed
    /// already or not. Does nothing where the owner is not registered.
    fn associate(&mut self, owner_id: &T::AccountId, qualification_id: &T::Hash)
        requires
            by_value::<T>(),
        ensures
            final(self)@ == old(self)@.associate(*owner_id, *qualification_id),
            old(self)@.keyed_by_account() ==> final(self)@.keyed_by_account(),
            old(self)@.counted() ==> final(self)@.counted(),
    ;

    /// Takes the first `qualification_id` off the list of `owner_id`. Does
    /// nothing where the owner is not registered or does not list it.
    fn disassociate(&mut self, owner_id: &T::AccountId, qualification_id: &T::Hash)
        requires
            by_value::<T>(),
        ensures
            final(self)@ == old(self)@.disassociate(*owner_id, *qualification_id),
            old(self)@.keyed_by_account() ==> final(self)@.keyed_by_account(),
            old(self)@.counted() ==> final(self)@.counted(),
    ;
}

/// What the registry reports of an operation that went through: the record
/// that it concerns and the account that acted.
#[derive(Debug, PartialEq, Eq)]
pub enum Event<T: Config> {
    /// The account registered as a genetic analyst.
    GeneticAnalystRegistered(GeneticAnalyst<T::AccountId, T::Hash, T::Moment>, T::AccountId),
    /// The profile of the genetic analyst was replaced.
    GeneticAnalystUpdated(GeneticAnalyst<T::AccountId, T::Hash, T::Moment>, T::AccountId),
    /// The genetic analyst left the registry.
    GeneticAnalystDeleted(GeneticAnalyst<T::AccountId, T::Hash, T::Moment>, T::AccountId),
}

/// The registry: the records by account, the counter of records, and the
/// registry of qualifications that deletions are asked of. For the proofs it
/// also notes every deletion that it has asked for; the note is written where
/// the call is made and nowhere else, and costs nothing when the code runs.
pub struct Pallet<T: Config> {
    genetic_analysts: BTreeMap<T::AccountId, GeneticAnalystOf<T>>,
    genetic_analyst_count: u64,
    qualifications: T::GeneticAnalystQualifications,
    deletions: Ghost<Seq<(T::AccountId, T::Hash)>>,
}

impl<T: Config> View for Pallet<T> {
    type V = Registry<T::AccountId, T::Hash, T::Moment>;

    closed spec fn view(&self) -> Registry<T::AccountId, T::Hash, T::Moment> {
        Registry {
            analysts: self.genetic_analysts@.map_values(|stored: GeneticAnalystOf<T>| stored@),
            count: self.genetic_analyst_count as nat,
            deletions: self.deletions@,
        }
    }
}

impl<T: Config> Pallet<T> {
    /// An empty registry that asks deletions of `qualifications`.
    pub fn new(qualifications: T::GeneticAnalystQualifications) -> (pallet: Self)
        ensures
            pallet@ == Registry::<T::AccountId, T::Hash, T::Moment>::empty(),
            pallet@.keyed_by_account(),
            pallet@.counted(),
    {
        let pallet = Pallet {
            genetic_analysts: BTreeMap::new(),
            genetic_analyst_count: 0,
            qualifications,
            deletions: Ghost(Seq::empty()),
        };
        assert(pallet@.analysts =~= Map::empty());
        pallet
    }

    /// A registry that takes up where an earlier one left off: it holds a
    /// copy of each record of `genetic_analysts` under the account of that
    /// record, and its counter stands at `genetic_analyst_count`. Of two
    /// records with one account the later one stays. The list may hold a
    /// part of what was registered; the registry then knows that part only.
    pub fn restore(
        genetic_analysts: &Vec<GeneticAnalystOf<T>>,
        genetic_analyst_count: u64,
        qualifications: T::GeneticAnalystQualifications,
    ) -> (pallet: Self)
        requires
            by_value::<T>(),
        ensures
            pallet@ == Registry::restored(
                genetic_analysts@.map_values(|stored: GeneticAnalystOf<T>| stored@),
                genetic_analyst_count as nat,
            ),
            pallet@.keyed_by_account(),
    {
        let ghost list = genetic_analysts@.map_values(|stored: GeneticAnalystOf<T>| stored@);
        let mut pallet = Pallet {
            genetic_analysts: BTreeMap::new(),
            genetic_analyst_count,
            qualifications,
            deletions: Ghost(Seq::empty()),
        };
        assert(pallet@.analysts =~= by_account(list.take(0)));
        let mut at: usize = 0;
        while at < genetic_analysts.len()
            invariant
                by_value::<T>(),
                at <= genetic_analysts.len(),
                list == genetic_analysts@.map_values(|stored: GeneticAnalystOf<T>| stored@),
                pallet@ == Registry::restored(list.take(at as int), genetic_analyst_count as nat),
            decreases genetic_analysts.len() - at,
        {
            let stored = genetic_analysts[at].clone();
            let ghost before = pallet@.analysts;
            pallet.genetic_analysts.insert(stored.account_id, stored);
            assert(list.take(at + 1).drop_last() =~= list.take(at as int));
            assert(pallet@.analysts =~= before.insert(list[at as int].account_id, list[at as int]));
            at += 1;
        }
        assert(list.take(at as int) =~= list);
        proof {
            law_restored_records_are_under_their_account(list, genetic_analyst_count as nat);
        }
        pallet
    }

    /// The counter of registered genetic analysts.
    pub fn genetic_analyst_count(&self) -> (count: u64)
        ensures
            count == self@.count,
    {
        self.genetic_analyst_count
    }

    /// Counts one genetic analyst more. At the largest `u64` the counter
    /// stays.
    pub fn add_genetic_analyst_count(&mut self)
        ensures
            final(self)@ == old(self)@.add_count(),
    {
        let genetic_analyst_count: u64 = self.genetic_analyst_count;
        self.genetic_analyst_count = genetic_analyst_count.saturating_add(1);
    }

    /// Counts one genetic analyst less. At zero the counter stays.
    pub fn sub_genetic_analyst_count(&mut self)
        ensures
            final(self)@ == old(self)@.sub_count(),
    {
        let genetic_analyst_count: u64 = self.genetic_analyst_count;
        self.genetic_analyst_count = genetic_analyst_count.saturating_sub(1);
    }

    /// The record stored under `account_id`, if there is one.
    pub fn genetic_analyst_by_account_id(&self, account_id: &T::AccountId) -> (genetic_analyst:
        Option<GeneticAnalystOf<T>>)
        requires
            by_value::<T>(),
        ensures
            match genetic_analyst {
                Some(stored) => self@.lookup(*account_id) == Some(stored@),
                None => self@.lookup(*account_id).is_none(),
            },
    {
        match self.genetic_analysts.get(account_id) {
            Some(stored) => Some(stored.clone()),
            None => None,
        }
    }

    /// Registers `who` as a genetic analyst with the profile
    /// `genetic_analyst_info`, and reports the new record. Fails, and changes
    /// nothing, exactly where `who` is registered already.
    pub fn register_genetic_analyst(
        &mut self,
        who: T::AccountId,
        genetic_analyst_info: GeneticAnalystInfo<T::Moment>,
    ) -> (result: Result<Event<T>, Error>)
        requires
            by_value::<T>(),
        ensures
            match result {
                Ok(event) => {
                    &&& old(self)@.create(who, genetic_analyst_info@) == Ok::<_, Error>(
                        final(self)@,
                    )
                    &&& event matches Event::GeneticAnalystRegistered(genetic_analyst, account_id)
                    &&& account_id == who
                    &&& final(self)@.lookup(who) == Some(genetic_analyst@)
                },
                Err(error) => {
                    &&& old(self)@.create(who, genetic_analyst_info@) == Err::<
                        Registry<T::AccountId, T::Hash, T::Moment>,
                        _,
                    >(error)
                    &&& final(self)@ == old(self)@
                },
            },
            old(self)@.keyed_by_account() ==> final(self)@.keyed_by_account(),
            old(self)@.counted() ==> final(self)@.counted(),
    {
        match self.create_genetic_analyst(&who, &genetic_analyst_info) {
            Ok(genetic_analyst) => Ok(Event::GeneticAnalystRegistered(genetic_analyst, who)),
            Err(error) => Err(error),
        }
    }

    /// Replaces the profile of `who` by `genetic_analyst_info`, and reports
    /// the record as it then stands. Fails, and changes nothing, exactly
    /// where `who` is not registered.
    pub fn update_genetic_analyst(
        &mut self,
        who: T::AccountId,
        genetic_analyst_info: GeneticAnalystInfo<T::Moment>,
    ) -> (result: Result<Event<T>, Error>)
        requires
            by_value::<T>(),
        ensures
            match result {
                Ok(event) => {
                    &&& old(self)@.update(who, genetic_analyst_info@) == Ok::<_, Error>(
                        final(self)@,
                    )
                    &&& event matches Event::GeneticAnalystUpdated(genetic_analyst, account_id)
                    &&& account_id == who
                    &&& final(self)@.lookup(who) == Some(genetic_analyst@)
                },
                Err(error) => {
                    &&& old(self)@.update(who, genetic_analyst_info@) == Err::<
                        Registry<T::AccountId, T::Hash, T::Moment>,
                        _,
                    >(error)
                    &&& final(self)@ == old(self)@
                },
            },
            old(self)@.keyed_by_account() ==> final(self)@.keyed_by_account(),
            old(self)@.counted() ==> final(self)@.counted(),
    {
        match GeneticAnalystInterface::update_genetic_analyst(self, &who, &genetic_analyst_info) {
            Ok(genetic_analyst) => Ok(Event::GeneticAnalystUpdated(genetic_analyst, who)),
            Err(error) => Err(error),
        }
    }

    /// Takes `who` out of the registry, asking for the deletion of each of
    /// its qualifications on the way, and reports the record as it stood.
    /// Fails, and changes and asks nothing, exactly where `who` is not
    /// registered.
    pub fn deregister_genetic_analyst(&mut self, who: T::AccountId) -> (result: Result<
        Event<T>,
        Error,
    >)
        requires
            by_value::<T>(),
        ensures
            match result {
                Ok(event) => {
                    &&& old(self)@.delete(who) == Ok::<_, Error>(final(self)@)
                    &&& event matches Event::GeneticAnalystDeleted(genetic_analyst, account_id)
                    &&& account_id == who
                    &&& old(self)@.lookup(who) == Some(genetic_analyst@)
                },
                Err(error) => {
                    &&& old(self)@.delete(who) == Err::<
                        Registry<T::AccountId, T::Hash, T::Moment>,
                        _,
                    >(error)
                    &&& final(self)@ == old(self)@
                },
            },
            old(self)@.keyed_by_account() ==> final(self)@.keyed_by_account(),
            old(self)@.counted() ==> final(self)@.counted(),
    {
        let genetic_analyst = Pallet::genetic_analyst_by_account_id(self, &who);
        if genetic_analyst.is_none() {
            return Err(Error::GeneticAnalystDoesNotExist);
        }
        match self.delete_genetic_analyst(&who) {
            Ok(genetic_analyst) => Ok(Event::GeneticAnalystDeleted(genetic_analyst, who)),
            Err(error) => Err(error),
        }
    }

    /// Asks the registry of qualifications to delete `qualification_id` of
    /// `owner_id` and notes that it was asked. What it answers is dropped.
    fn ask_deletion(&mut self, owner_id: &T::AccountId, qualification_id: &T::Hash)
        ensures
            final(self)@ == (Registry {
                deletions: old(self)@.deletions.push((*owner_id, *qualification_id)),
                ..old(self)@
            }),
            final(self).genetic_analysts == old(self).genetic_analysts,
    {
        let _result = self.qualifications.delete_qualification(owner_id, qualification_id);
        self.deletions = Ghost(self.deletions@.push((*owner_id, *qualification_id)));
    }
}

impl<T: Config> GeneticAnalystInterface<T> for Pallet<T> {
    fn create_genetic_analyst(
        &mut self,
        account_id: &T::AccountId,
        genetic_analyst_info: &GeneticAnalystInfo<T::Moment>,
    ) -> (result: Result<GeneticAnalystOf<T>, Error>) {
        if self.genetic_analysts.contains_key(account_id) {
            return Err(Error::GeneticAnalystAlreadyRegistered);
        }
        let genetic_analyst = GeneticAnalyst::new(*account_id, genetic_analyst_info.clone());
        self.genetic_analysts.insert(*account_id, genetic_analyst.clone());
        assert(self@.analysts =~= old(self)@.analysts.insert(*account_id, genetic_analyst@));
        assert(self@.analysts.dom().len() <= u64::MAX) by {
            assert(self@.analysts.dom() =~= self.genetic_analysts@.dom());
            assert(self.genetic_analysts@.len() == spec_btree_map_len(&self.genetic_analysts));
        }
        self.add_genetic_analyst_count();
        proof {
            let call = Call::Create(*account_id, genetic_analyst_info@);
            if old(self)@.keyed_by_account() {
                law_records_stay_under_their_account(old(self)@, call);
            }
            if old(self)@.counted() {
                law_call_keeps_count(old(self)@, call);
            }
        }
        Ok(genetic_analyst)
    }

    fn update_genetic_analyst(
        &mut self,
        account_id: &T::AccountId,
        genetic_analyst_info: &GeneticAnalystInfo<T::Moment>,
    ) -> (result: Result<GeneticAnalystOf<T>, Error>) {
        let mut genetic_analyst = match self.genetic_analysts.get(account_id) {
            Some(stored) => stored.clone(),
            None => {
                return Err(Error::GeneticAnalystDoesNotExist);
            },
        };
        genetic_analyst.update_info(genetic_analyst_info.clone());
        self.genetic_analysts.insert(*account_id, genetic_analyst.clone());
        assert(self@.analysts =~= old(self)@.analysts.insert(*account_id, genetic_analyst@));
        proof {
            let call = Call::Update(*account_id, genetic_analyst_info@);
            if old(self)@.keyed_by_account() {
                law_records_stay_under_their_account(old(self)@, call);
            }
            if old(self)@.counted() {
                law_call_keeps_count(old(self)@, call);
            }
        }
        Ok(genetic_analyst)
    }

    fn delete_genetic_analyst(&mut self, account_id: &T::AccountId) -> (result: Result<
        GeneticAnalystOf<T>,
        Error,
    >) {
        let genetic_analyst = match self.genetic_analysts.get(account_id) {
            Some(stored) => stored.clone(),
            None => {
                return Err(Error::GeneticAnalystDoesNotExist);
            },
        };
        let ghost cascade = old(self)@.cascade(*account_id);
        let mut at: usize = 0;
        while at < genetic_analyst.qualifications.len()
            invariant
                at <= genetic_analyst.qualifications.len(),
                cascade == genetic_analyst.qualifications@.map_values(
                    |qualification_id: T::Hash| (*account_id, qualification_id),
                ),
                self.genetic_analysts == old(self).genetic_analysts,
                self@ == (Registry {
                    deletions: old(self)@.deletions + cascade.take(at as int),
                    ..old(self)@
                }),
            decreases genetic_analyst.qualifications.len() - at,
        {
            self.ask_deletion(account_id, &genetic_analyst.qualifications[at]);
            assert(cascade.take(at + 1) =~= cascade.take(at as int).push(cascade[at as int]));
            assert((old(self)@.deletions + cascade.take(at as int)).push(cascade[at as int])
                =~= old(self)@.deletions + cascade.take(at + 1));
            at += 1;
        }
        assert(cascade.take(at as int) =~= cascade);
        self.genetic_analysts.remove(account_id);
        assert(self@.analysts =~= old(self)@.analysts.remove(*account_id));
        self.sub_genetic_analyst_count();
        proof {
            let call = Call::<T::AccountId, T::Hash, T::Moment>::Delete(*account_id);
            if old(self)@.keyed_by_account() {
                law_records_stay_under_their_account(old(self)@, call);
            }
            if old(self)@.counted() {
                law_call_keeps_count(old(self)@, call);
            }
        }
        Ok(genetic_analyst)
    }

    fn genetic_analyst_by_account_id(&self, account_id: &T::AccountId) -> (genetic_analyst: Option<
        GeneticAnalystOf<T>,
    >) {
        Pallet::genetic_analyst_by_account_id(self, account_id)
    }
}

impl<T: Config> GeneticAnalystQualificationOwner<T> for Pallet<T> {
    fn can_create_qualification(&self, user_id: &T::AccountId) -> (allowed: bool) {
        self.genetic_analysts.contains_key(user_id)
    }

    fn get_owner(&self, id: &T::AccountId) -> (owner: Option<GeneticAnalystOf<T>>) {
        Pallet::genetic_analyst_by_account_id(self, id)
    }

    fn associate(&mut self, owner_id: &T::AccountId, qualification_id: &T::Hash) {
        match self.genetic_analysts.remove(owner_id) {
            None => (),
            Some(mut genetic_analyst) => {
                genetic_analyst.add_qualification(*qualification_id);
                let ghost associated = genetic_analyst@;
                self.genetic_analysts.insert(*owner_id, genetic_analyst);
                assert(self@.analysts =~= old(self)@.analysts.insert(*owner_id, associated));
            },
        }
        assert(self@.analysts =~= old(self)@.associate(*owner_id, *qualification_id).analysts);
        proof {
            let call = Call::<T::AccountId, T::Hash, T::Moment>::Associate(
                *owner_id,
                *qualification_id,
            );
            if old(self)@.keyed_by_account() {
                law_records_stay_under_their_account(old(self)@, call);
            }
            if old(self)@.counted() {
                law_call_keeps_count(old(self)@, call);
            }
        }
    }

    fn disassociate(&mut self, owner_id: &T::AccountId, qualification_id: &T::Hash) {
        match self.genetic_analysts.remove(owner_id) {
            None => (),
            Some(mut genetic_analyst) => {
                genetic_analyst.remove_qualification(*qualification_id);
                let ghost disassociated = genetic_analyst@;
                self.genetic_analysts.insert(*owner_id, genetic_analyst);
                assert(self@.analysts =~= old(self)@.analysts.insert(*owner_id, disassociated));
            },
        }
        assert(self@.analysts =~= old(self)@.disassociate(*owner_id, *qualification_id).analysts);
        proof {
            let call = Call::<T::AccountId, T::Hash, T::Moment>::Disassociate(
                *owner_id,
                *qualification_id,
            );
            if old(self)@.keyed_by_account() {
                law_records_stay_under_their_account(old(self)@, call);
            }
            if old(self)@.counted() {
                law_call_keeps_count(old(self)@, call);
            }
        }
    }
}

} // verus!
