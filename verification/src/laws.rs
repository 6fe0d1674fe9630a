//! What holds of the registry in every state. Each law is stated over the
//! model of [`Registry`], which the executable registry follows call by call:
//! a call that goes through leaves the state that the model gives, and a call
//! that is refused leaves the state as it was.

use crate::analyst::{lemma_without_first_absent, lemma_without_first_at, GeneticAnalystView};
use crate::info::GeneticAnalystInfoView;
use crate::registry::{Error, Registry};
use vstd::prelude::*;

verus! {

/// One call of an operation that may change the registry.
pub ghost enum Call<AccountId, Hash, Moment> {
    Create(AccountId, GeneticAnalystInfoView<Moment>),
    Update(AccountId, GeneticAnalystInfoView<Moment>),
    Delete(AccountId),
    Associate(AccountId, Hash),
    Disassociate(AccountId, Hash),
}

/// The state that `call` leaves behind in `registry`: the one that the
/// operation gives where it goes through, `registry` itself where it is
/// refused.
pub open spec fn after<AccountId, Hash, Moment>(
    registry: Registry<AccountId, Hash, Moment>,
    call: Call<AccountId, Hash, Moment>,
) -> Registry<AccountId, Hash, Moment> {
    match call {
        Call::Create(account_id, info) => match registry.create(account_id, info) {
            Ok(next) => next,
            Err(_) => registry,
        },
        Call::Update(account_id, info) => match registry.update(account_id, info) {
            Ok(next) => next,
            Err(_) => registry,
        },
        Call::Delete(account_id) => match registry.delete(account_id) {
            Ok(next) => next,
            Err(_) => registry,
        },
        Call::Associate(owner_id, qualification_id) => registry.associate(
            owner_id,
            qualification_id,
        ),
        Call::Disassociate(owner_id, qualification_id) => registry.disassociate(
            owner_id,
            qualification_id,
        ),
    }
}

/// Whether `call` is a registration that goes through in `registry`.
pub open spec fn registers<AccountId, Hash, Moment>(
    registry: Registry<AccountId, Hash, Moment>,
    call: Call<AccountId, Hash, Moment>,
) -> bool {
    call matches Call::Create(account_id, info) && registry.create(account_id, info) is Ok
}

/// Whether `call` is a removal that goes through in `registry`.
pub open spec fn removes<AccountId, Hash, Moment>(
    registry: Registry<AccountId, Hash, Moment>,
    call: Call<AccountId, Hash, Moment>,
) -> bool {
    call matches Call::Delete(account_id) && registry.delete(account_id) is Ok
}

/// The state after `calls`, made one after the other from `registry` on.
pub open spec fn after_all<AccountId, Hash, Moment>(
    registry: Registry<AccountId, Hash, Moment>,
    calls: Seq<Call<AccountId, Hash, Moment>>,
) -> Registry<AccountId, Hash, Moment>
    decreases calls.len(),
{
    if calls.len() == 0 {
        registry
    } else {
        after_all(after(registry, calls.first()), calls.drop_first())
    }
}

/// How many of `calls`, made one after the other from `registry` on, are
/// registrations that go through.
pub open spec fn registrations<AccountId, Hash, Moment>(
    registry: Registry<AccountId, Hash, Moment>,
    calls: Seq<Call<AccountId, Hash, Moment>>,
) -> nat
    decreases calls.len(),
{
    if calls.len() == 0 {
        0
    } else {
        let rest = registrations(after(registry, calls.first()), calls.drop_first());
        if registers(registry, calls.first()) {
            rest + 1
        } else {
            rest
        }
    }
}

/// How many of `calls`, made one after the other from `registry` on, are
/// removals that go through.
pub open spec fn removals<AccountId, Hash, Moment>(
    registry: Registry<AccountId, Hash, Moment>,
    calls: Seq<Call<AccountId, Hash, Moment>>,
) -> nat
    decreases calls.len(),
{
    if calls.len() == 0 {
        0
    } else {
        let rest = removals(after(registry, calls.first()), calls.drop_first());
        if removes(registry, calls.first()) {
            rest + 1
        } else {
            rest
        }
    }
}

/// An account registers once. While it is registered, every further
/// registration under it is refused as already registered, and the record of
/// a first registration is the one made from the first profile.
pub proof fn law_registration_is_unique<AccountId, Hash, Moment>(
    registry: Registry<AccountId, Hash, Moment>,
    account_id: AccountId,
    first: GeneticAnalystInfoView<Moment>,
    second: GeneticAnalystInfoView<Moment>,
)
    ensures
        registry.contains(account_id) ==> registry.create(account_id, second) == Err::<
            Registry<AccountId, Hash, Moment>,
            _,
        >(Error::GeneticAnalystAlreadyRegistered),
        registry.create(account_id, first) matches Ok(registered) ==> {
            &&& registered.create(account_id, second) == Err::<
                Registry<AccountId, Hash, Moment>,
                _,
            >(Error::GeneticAnalystAlreadyRegistered)
            &&& after(registered, Call::Create(account_id, second)) == registered
            &&& registered.lookup(account_id) == Some(
                GeneticAnalystView::<AccountId, Hash, Moment>::new(account_id, first),
            )
        },
{
}

/// Under an account that is not registered nothing can be updated or
/// removed: both are refused as not existing, and the registry stays as it
/// is.
pub proof fn law_absent_account_is_refused<AccountId, Hash, Moment>(
    registry: Registry<AccountId, Hash, Moment>,
    account_id: AccountId,
    info: GeneticAnalystInfoView<Moment>,
)
    requires
        !registry.contains(account_id),
    ensures
        registry.update(account_id, info) == Err::<Registry<AccountId, Hash, Moment>, _>(
            Error::GeneticAnalystDoesNotExist,
        ),
        registry.delete(account_id) == Err::<Registry<AccountId, Hash, Moment>, _>(
            Error::GeneticAnalystDoesNotExist,
        ),
        after(registry, Call::Update(account_id, info)) == registry,
        after(registry, Call::Delete(account_id)) == registry,
{
}

/// A registration is found again as it was made: under the account, with the
/// profile that was given and no qualification.
pub proof fn law_registration_is_found<AccountId, Hash, Moment>(
    registry: Registry<AccountId, Hash, Moment>,
    account_id: AccountId,
    info: GeneticAnalystInfoView<Moment>,
)
    requires
        !registry.contains(account_id),
    ensures
        registry.create(account_id, info) matches Ok(registered) && registered.lookup(account_id)
            == Some(
            GeneticAnalystView {
                account_id,
                qualifications: Seq::<Hash>::empty(),
                info,
            },
        ),
{
}

/// An update puts the new profile in the place of the old one, whole, and
/// leaves the account and the qualifications of the record alone.
pub proof fn law_update_replaces_profile<AccountId, Hash, Moment>(
    registry: Registry<AccountId, Hash, Moment>,
    account_id: AccountId,
    info: GeneticAnalystInfoView<Moment>,
)
    requires
        registry.contains(account_id),
    ensures
        registry.update(account_id, info) matches Ok(updated) && updated.lookup(account_id)
            == Some(
            GeneticAnalystView {
                account_id: registry.analysts[account_id].account_id,
                qualifications: registry.analysts[account_id].qualifications,
                info,
            },
        ),
{
}

/// Registration with one profile, then an update with another: the record
/// holds the second profile and nothing of the first.
pub proof fn law_update_after_registration<AccountId, Hash, Moment>(
    registry: Registry<AccountId, Hash, Moment>,
    account_id: AccountId,
    first: GeneticAnalystInfoView<Moment>,
    second: GeneticAnalystInfoView<Moment>,
)
    requires
        !registry.contains(account_id),
    ensures
        registry.create(account_id, first) matches Ok(registered) && registered.update(
            account_id,
            second,
        ) matches Ok(updated) && updated.lookup(account_id) == Some(
            GeneticAnalystView::<AccountId, Hash, Moment>::new(account_id, second),
        ),
{
}

/// No call stores a record under an account other than its own.
pub proof fn law_records_stay_under_their_account<AccountId, Hash, Moment>(
    registry: Registry<AccountId, Hash, Moment>,
    call: Call<AccountId, Hash, Moment>,
)
    requires
        registry.keyed_by_account(),
    ensures
        after(registry, call).keyed_by_account(),
        Registry::<AccountId, Hash, Moment>::empty().keyed_by_account(),
{
    let next = after(registry, call);
    assert forall|account_id: AccountId| #[trigger] next.contains(account_id) implies next.analysts[account_id].account_id == account_id by {
        assert(registry.contains(account_id) ==> registry.analysts[account_id].account_id
            == account_id);
    }
}

/// A restored registry holds every record under the account of that record,
/// whatever the list it was restored from.
pub proof fn law_restored_records_are_under_their_account<AccountId, Hash, Moment>(
    list: Seq<GeneticAnalystView<AccountId, Hash, Moment>>,
    count: nat,
)
    ensures
        Registry::restored(list, count).keyed_by_account(),
    decreases list.len(),
{
    if list.len() > 0 {
        law_restored_records_are_under_their_account(list.drop_last(), count);
        let earlier = Registry::restored(list.drop_last(), count);
        let restored = Registry::restored(list, count);
        assert forall|account_id: AccountId| #[trigger]
            restored.contains(account_id) implies restored.analysts[account_id].account_id
            == account_id by {
            assert(account_id != list.last().account_id ==> earlier.contains(account_id));
        }
    }
}

/// One call keeps the counter equal to the number of records: a registration
/// that goes through adds one to both, a removal that goes through takes one
/// from both, and every other call leaves both. The one exception is a
/// registration at the largest `u64`, where the counter stays.
pub proof fn law_call_keeps_count<AccountId, Hash, Moment>(
    registry: Registry<AccountId, Hash, Moment>,
    call: Call<AccountId, Hash, Moment>,
)
    requires
        registry.counted(),
        registers(registry, call) ==> registry.count < u64::MAX,
    ensures
        after(registry, call).counted(),
        after(registry, call).count == registry.count + (if registers(registry, call) {
            1int
        } else {
            0int
        }) - (if removes(registry, call) {
            1int
        } else {
            0int
        }),
{
    let next = after(registry, call);
    match call {
        Call::Create(account_id, info) => {},
        Call::Update(account_id, info) => {
            assert(next.analysts.dom() =~= registry.analysts.dom());
        },
        Call::Delete(account_id) => {},
        Call::Associate(owner_id, qualification_id) => {
            assert(next.analysts.dom() =~= registry.analysts.dom());
        },
        Call::Disassociate(owner_id, qualification_id) => {
            assert(next.analysts.dom() =~= registry.analysts.dom());
        },
    }
}

/// After any calls, the counter stands at what it was, plus the
/// registrations that went through, less the removals that went through,
/// as long as it stays within `u64`; and it still equals the number of
/// records. From the empty registry on that is registrations less removals.
pub proof fn law_count_is_registrations_less_removals<AccountId, Hash, Moment>(
    registry: Registry<AccountId, Hash, Moment>,
    calls: Seq<Call<AccountId, Hash, Moment>>,
)
    requires
        registry.counted(),
        registry.count + registrations(registry, calls) <= u64::MAX,
    ensures
        after_all(registry, calls).counted(),
        removals(registry, calls) <= registry.count + registrations(registry, calls),
        after_all(registry, calls).count == registry.count + registrations(registry, calls)
            - removals(registry, calls),
    decreases calls.len(),
{
    if calls.len() > 0 {
        law_call_keeps_count(registry, calls.first());
        law_count_is_registrations_less_removals(
            after(registry, calls.first()),
            calls.drop_first(),
        );
    }
}

/// A qualification that is associated and then disassociated is off the
/// list again, and a second disassociation changes nothing. This is said of
/// a qualification that the owner did not list before: of one that it listed,
/// each disassociation takes one more occurrence away.
pub proof fn law_second_disassociation_changes_nothing<AccountId, Hash, Moment>(
    registry: Registry<AccountId, Hash, Moment>,
    owner_id: AccountId,
    qualification_id: Hash,
)
    requires
        registry.contains(owner_id) ==> !registry.analysts[owner_id].qualifications.contains(
            qualification_id,
        ),
    ensures
        ({
            let once = registry.associate(owner_id, qualification_id).disassociate(
                owner_id,
                qualification_id,
            );
            &&& once == registry
            &&& once.disassociate(owner_id, qualification_id) == once
        }),
{
    if registry.contains(owner_id) {
        let listed = registry.analysts[owner_id].qualifications;
        let longer = listed.push(qualification_id);
        assert forall|j: int| 0 <= j < listed.len() implies longer[j] != qualification_id by {
            assert(longer[j] == listed[j]);
            assert(listed.contains(listed[j]));
        }
        lemma_without_first_at(longer, qualification_id, listed.len() as int);
        assert(longer.remove(listed.len() as int) =~= listed);
        lemma_without_first_absent(listed, qualification_id);
        let once = registry.associate(owner_id, qualification_id).disassociate(
            owner_id,
            qualification_id,
        );
        assert(once.analysts =~= registry.analysts);
        assert(once.disassociate(owner_id, qualification_id).analysts =~= once.analysts);
    }
}

/// Disassociating a qualification that the owner does not list changes
/// nothing.
pub proof fn law_disassociation_of_unlisted_changes_nothing<AccountId, Hash, Moment>(
    registry: Registry<AccountId, Hash, Moment>,
    owner_id: AccountId,
    qualification_id: Hash,
)
    requires
        registry.contains(owner_id) ==> !registry.analysts[owner_id].qualifications.contains(
            qualification_id,
        ),
    ensures
        registry.disassociate(owner_id, qualification_id) == registry,
{
    if registry.contains(owner_id) {
        lemma_without_first_absent(registry.analysts[owner_id].qualifications, qualification_id);
        assert(registry.disassociate(owner_id, qualification_id).analysts =~= registry.analysts);
    }
}

/// The removal of a registered account goes through. It asks for the
/// deletion of each qualification on the list of the record, once each and in
/// the order of the list, after everything that was asked before; and the
/// account is registered no more.
pub proof fn law_removal_asks_for_each_qualification<AccountId, Hash, Moment>(
    registry: Registry<AccountId, Hash, Moment>,
    account_id: AccountId,
)
    requires
        registry.contains(account_id),
    ensures
        ({
            let listed = registry.analysts[account_id].qualifications;
            &&& registry.delete(account_id) matches Ok(removed)
            &&& !removed.contains(account_id)
            &&& removed.deletions.len() == registry.deletions.len() + listed.len()
            &&& removed.deletions.take(registry.deletions.len() as int) == registry.deletions
            &&& forall|k: int|
                0 <= k < listed.len() ==> #[trigger] removed.deletions[registry.deletions.len()
                    + k] == (account_id, listed[k])
        }),
{
    let removed = registry.delete(account_id)->Ok_0;
    assert(removed.deletions.take(registry.deletions.len() as int) =~= registry.deletions);
}

/// Registration, the association of one qualification and then of another,
/// and removal: the deletion of the first and then of the second is asked
/// for, of nothing else, and the account is registered no more.
pub proof fn law_removal_cascades_in_order<AccountId, Hash, Moment>(
    registry: Registry<AccountId, Hash, Moment>,
    account_id: AccountId,
    info: GeneticAnalystInfoView<Moment>,
    first: Hash,
    second: Hash,
)
    requires
        !registry.contains(account_id),
    ensures
        ({
            &&& registry.create(account_id, info) matches Ok(registered)
            &&& registered.associate(account_id, first).associate(account_id, second).delete(
                account_id,
            ) matches Ok(removed)
            &&& removed.deletions == registry.deletions + seq![
                (account_id, first),
                (account_id, second),
            ]
            &&& !removed.contains(account_id)
        }),
{
    let registered = registry.create(account_id, info)->Ok_0;
    let associated = registered.associate(account_id, first).associate(account_id, second);
    assert(associated.analysts[account_id].qualifications =~= seq![first, second]);
    assert(associated.cascade(account_id) =~= seq![(account_id, first), (account_id, second)]);
}

} // verus!
