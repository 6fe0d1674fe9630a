//! The record that the registry keeps for one genetic analyst.

use crate::info::{GeneticAnalystInfo, GeneticAnalystInfoView};
use vstd::laws_eq::obeys_concrete_eq;
use vstd::prelude::*;

verus! {

/// `list` without its first element equal to `item`; `list` itself where no
/// element equals `item`. Later occurrences stay where they are.
pub open spec fn without_first<A>(list: Seq<A>, item: A) -> Seq<A>
    decreases list.len(),
{
    if list.len() == 0 {
        list
    } else if list.first() == item {
        list.drop_first()
    } else {
        seq![list.first()] + without_first(list.drop_first(), item)
    }
}

/// Removing the first `item` removes the element at the least index that
/// holds `item`.
pub proof fn lemma_without_first_at<A>(list: Seq<A>, item: A, at: int)
    requires
        0 <= at < list.len(),
        list[at] == item,
        forall|j: int| 0 <= j < at ==> list[j] != item,
    ensures
        without_first(list, item) == list.remove(at),
    decreases at,
{
    if at == 0 {
        assert(list.remove(0) =~= list.drop_first());
    } else {
        let rest = list.drop_first();
        assert(list[0] != item);
        assert forall|j: int| 0 <= j < at - 1 implies rest[j] != item by {
            assert(rest[j] == list[j + 1]);
        }
        lemma_without_first_at(rest, item, at - 1);
        assert(seq![list.first()] + rest.remove(at - 1) =~= list.remove(at));
    }
}

/// Removing the first `item` from a list that holds none changes nothing.
pub proof fn lemma_without_first_absent<A>(list: Seq<A>, item: A)
    requires
        !list.contains(item),
    ensures
        without_first(list, item) == list,
    decreases list.len(),
{
    if list.len() > 0 {
        let rest = list.drop_first();
        assert(list[0] != item);
        assert forall|j: int| 0 <= j < rest.len() implies rest[j] != item by {
            assert(rest[j] == list[j + 1]);
        }
        lemma_without_first_absent(rest, item);
        assert(seq![list.first()] + rest =~= list);
    }
}

/// A genetic analyst as the registry stores it: the account that registered,
/// the qualifications associated with it, in the order in which they were
/// associated, and the profile.
#[derive(Debug, PartialEq, Eq)]
pub struct GeneticAnalyst<AccountId, Hash, Moment> {
    pub account_id: AccountId,
    pub qualifications: Vec<Hash>,
    pub info: GeneticAnalystInfo<Moment>,
}

/// What a [`GeneticAnalyst`] holds.
pub ghost struct GeneticAnalystView<AccountId, Hash, Moment> {
    pub account_id: AccountId,
    pub qualifications: Seq<Hash>,
    pub info: GeneticAnalystInfoView<Moment>,
}

impl<AccountId, Hash, Moment> View for GeneticAnalyst<AccountId, Hash, Moment> {
    type V = GeneticAnalystView<AccountId, Hash, Moment>;

    open spec fn view(&self) -> GeneticAnalystView<AccountId, Hash, Moment> {
        GeneticAnalystView {
            account_id: self.account_id,
            qualifications: self.qualifications@,
            info: self.info@,
        }
    }
}

impl<AccountId, Hash, Moment> GeneticAnalystView<AccountId, Hash, Moment> {
    /// The record of a newly registered analyst: no qualification yet.
    pub open spec fn new(account_id: AccountId, info: GeneticAnalystInfoView<Moment>) -> Self {
        GeneticAnalystView { account_id, qualifications: Seq::empty(), info }
    }

    /// The record with its profile replaced by `info`, nothing of the old
    /// profile kept.
    pub open spec fn update_info(self, info: GeneticAnalystInfoView<Moment>) -> Self {
        GeneticAnalystView { info, ..self }
    }

    /// The record with `qualification_id` added at the end, whether or not it
    /// is already listed.
    pub open spec fn add_qualification(self, qualification_id: Hash) -> Self {
        GeneticAnalystView { qualifications: self.qualifications.push(qualification_id), ..self }
    }

    /// The record without the first occurrence of `qualification_id`.
    pub open spec fn remove_qualification(self, qualification_id: Hash) -> Self {
        GeneticAnalystView {
            qualifications: without_first(self.qualifications, qualification_id),
            ..self
        }
    }
}

impl<AccountId, Hash, Moment> GeneticAnalyst<AccountId, Hash, Moment> {
    pub fn new(account_id: AccountId, info: GeneticAnalystInfo<Moment>) -> (genetic_analyst: Self)
        ensures
            genetic_analyst@ == GeneticAnalystView::<AccountId, Hash, Moment>::new(
                account_id,
                info@,
            ),
    {
        Self { account_id, qualifications: Vec::<Hash>::new(), info }
    }

    pub fn update_info(&mut self, info: GeneticAnalystInfo<Moment>)
        ensures
            final(self)@ == old(self)@.update_info(info@),
    {
        self.info = info;
    }

    pub fn get_account_id(&self) -> (account_id: &AccountId)
        ensures
            *account_id == self.account_id,
    {
        &self.account_id
    }

    /// The account that owns the qualifications listed here.
    pub fn get_owner_id(&self) -> (owner_id: &AccountId)
        ensures
            *owner_id == self.account_id,
    {
        self.get_account_id()
    }

    pub fn add_qualification(&mut self, qualification_id: Hash)
        ensures
            final(self)@ == old(self)@.add_qualification(qualification_id),
    {
        self.qualifications.push(qualification_id);
    }

    /// Takes the first occurrence of `qualification_id` off the list and
    /// leaves the list as it is where there is none. `Hash` must compare by
    /// value.
    pub fn remove_qualification(&mut self, qualification_id: Hash) where Hash: PartialEq
        requires
            obeys_concrete_eq::<Hash>(),
        ensures
            final(self)@ == old(self)@.remove_qualification(qualification_id),
    {
        let mut pos: usize = 0;
        while pos < self.qualifications.len()
            invariant
                *self == *old(self),
                pos <= self.qualifications.len(),
                forall|j: int| 0 <= j < pos ==> self.qualifications@[j] != qualification_id,
                obeys_concrete_eq::<Hash>(),
            decreases self.qualifications.len() - pos,
        {
            proof {
                reveal(obeys_concrete_eq);
            }
            if self.qualifications[pos] == qualification_id {
                proof {
                    lemma_without_first_at(self.qualifications@, qualification_id, pos as int);
                }
                self.qualifications.remove(pos);
                return ;
            }
            pos += 1;
        }
        proof {
            lemma_without_first_absent(self.qualifications@, qualification_id);
        }
    }
}

impl<AccountId: Default, Hash, Moment: Default> Default for GeneticAnalyst<
    AccountId,
    Hash,
    Moment,
> {
    /// The record without qualifications and with the blank profile, under
    /// whatever `AccountId` has as its own default.
    fn default() -> (genetic_analyst: Self)
        ensures
            genetic_analyst@.qualifications == Seq::<Hash>::empty(),
            genetic_analyst@.info == GeneticAnalystInfoView::blank(
                genetic_analyst.info.date_of_birth,
            ),
            call_ensures(AccountId::default, (), genetic_analyst.account_id),
            call_ensures(Moment::default, (), genetic_analyst.info.date_of_birth),
    {
        GeneticAnalyst {
            account_id: AccountId::default(),
            qualifications: Vec::new(),
            info: GeneticAnalystInfo::default(),
        }
    }
}

impl<AccountId: Copy, Hash: Copy, Moment: Copy> Clone for GeneticAnalyst<AccountId, Hash, Moment> {
    /// A copy that holds the same account, qualifications and profile.
    fn clone(&self) -> (copy: Self)
        ensures
            copy@ == self@,
    {
        let mut qualifications: Vec<Hash> = Vec::new();
        let mut at: usize = 0;
        while at < self.qualifications.len()
            invariant
                at <= self.qualifications.len(),
                qualifications@ == self.qualifications@.take(at as int),
            decreases self.qualifications.len() - at,
        {
            qualifications.push(self.qualifications[at]);
            at += 1;
        }
        assert(self.qualifications@.take(at as int) =~= self.qualifications@);
        GeneticAnalyst { account_id: self.account_id, qualifications, info: self.info.clone() }
    }
}

} // verus!
