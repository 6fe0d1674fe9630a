use genetic_analysts::{
    Config, Error, Event, GeneticAnalyst, GeneticAnalystInfo, GeneticAnalystInterface,
    GeneticAnalystQualificationOwner, GeneticAnalystQualificationsProvider, Pallet, StakeStatus,
};
use std::cell::RefCell;
use std::rc::Rc;

/// A registry of qualifications that notes every deletion asked of it, in a
/// list that the test keeps a handle on, and refuses the deletion of the
/// qualifications listed in `refused`.
struct Qualifications {
    asked: Rc<RefCell<Vec<(u64, u64)>>>,
    refused: Vec<u64>,
}

impl GeneticAnalystQualificationsProvider<u64, u64> for Qualifications {
    type Error = &'static str;

    fn delete_qualification(
        &mut self,
        owner_id: &u64,
        qualification_id: &u64,
    ) -> Result<(), Self::Error> {
        self.asked.borrow_mut().push((*owner_id, *qualification_id));
        if self.refused.contains(qualification_id) {
            Err("the qualification cannot be deleted")
        } else {
            Ok(())
        }
    }
}

#[derive(Debug, PartialEq, Eq)]
struct Runtime;

impl Config for Runtime {
    type AccountId = u64;
    type Hash = u64;
    type Moment = u64;
    type GeneticAnalystQualifications = Qualifications;
}

fn registry() -> Pallet<Runtime> {
    Pallet::new(Qualifications { asked: Rc::new(RefCell::new(Vec::new())), refused: Vec::new() })
}

fn watched(refused: Vec<u64>) -> (Pallet<Runtime>, Rc<RefCell<Vec<(u64, u64)>>>) {
    let asked = Rc::new(RefCell::new(Vec::new()));
    (Pallet::new(Qualifications { asked: asked.clone(), refused }), asked)
}

fn named(first_name: &str) -> GeneticAnalystInfo<u64> {
    GeneticAnalystInfo { first_name: first_name.as_bytes().to_vec(), ..Default::default() }
}

fn full_profile() -> GeneticAnalystInfo<u64> {
    GeneticAnalystInfo {
        first_name: b"Rosalind".to_vec(),
        last_name: b"Franklin".to_vec(),
        gender: b"female".to_vec(),
        date_of_birth: 1_595_000_000,
        email: b"rosalind@example.org".to_vec(),
        phone_number: b"+44 20 7946 0000".to_vec(),
        specialization: b"crystallography".to_vec(),
        stake_amount: 50_000,
        stake_status: StakeStatus::Staked,
    }
}

fn record(account_id: u64, qualifications: Vec<u64>, info: GeneticAnalystInfo<u64>) -> GeneticAnalyst<u64, u64, u64> {
    GeneticAnalyst { account_id, qualifications, info }
}

#[test]
fn register_update_deregister() {
    let mut pallet = registry();
    let jane = GeneticAnalystInfo { stake_status: StakeStatus::Unstaked, ..named("Jane") };

    let registered = pallet.register_genetic_analyst(1, jane.clone());
    assert_eq!(registered, Ok(Event::GeneticAnalystRegistered(record(1, vec![], jane.clone()), 1)));
    assert_eq!(pallet.genetic_analyst_count(), 1);

    assert_eq!(
        pallet.register_genetic_analyst(1, jane.clone()),
        Err(Error::GeneticAnalystAlreadyRegistered)
    );

    let updated = pallet.update_genetic_analyst(1, named("Janet"));
    assert_eq!(updated, Ok(Event::GeneticAnalystUpdated(record(1, vec![], named("Janet")), 1)));
    assert_eq!(pallet.genetic_analyst_by_account_id(&1).unwrap().info.first_name, b"Janet".to_vec());

    let deregistered = pallet.deregister_genetic_analyst(1);
    assert_eq!(deregistered, Ok(Event::GeneticAnalystDeleted(record(1, vec![], named("Janet")), 1)));
    assert_eq!(pallet.genetic_analyst_count(), 0);
    assert_eq!(pallet.genetic_analyst_by_account_id(&1), None);
}

#[test]
fn second_registration_is_refused_and_first_record_stays() {
    let mut pallet = registry();
    assert_eq!(pallet.create_genetic_analyst(&3, &named("Ada")), Ok(record(3, vec![], named("Ada"))));
    pallet.associate(&3, &30);

    assert_eq!(
        pallet.create_genetic_analyst(&3, &full_profile()),
        Err(Error::GeneticAnalystAlreadyRegistered)
    );
    assert_eq!(pallet.genetic_analyst_by_account_id(&3), Some(record(3, vec![30], named("Ada"))));
    assert_eq!(pallet.genetic_analyst_count(), 1);
}

#[test]
fn update_and_delete_of_an_unregistered_account_are_refused() {
    let (mut pallet, asked) = watched(vec![]);
    pallet.create_genetic_analyst(&1, &named("Ada")).unwrap();

    assert_eq!(
        GeneticAnalystInterface::update_genetic_analyst(&mut pallet, &2, &named("Bob")),
        Err(Error::GeneticAnalystDoesNotExist)
    );
    assert_eq!(pallet.delete_genetic_analyst(&2), Err(Error::GeneticAnalystDoesNotExist));
    assert_eq!(pallet.update_genetic_analyst(2, named("Bob")), Err(Error::GeneticAnalystDoesNotExist));
    assert_eq!(pallet.deregister_genetic_analyst(2), Err(Error::GeneticAnalystDoesNotExist));

    assert_eq!(pallet.genetic_analyst_by_account_id(&2), None);
    assert_eq!(pallet.genetic_analyst_by_account_id(&1), Some(record(1, vec![], named("Ada"))));
    assert_eq!(pallet.genetic_analyst_count(), 1);
    assert!(asked.borrow().is_empty());
}

#[test]
fn registration_is_found_with_its_profile_and_no_qualification() {
    let mut pallet = registry();
    let created = pallet.create_genetic_analyst(&9, &full_profile()).unwrap();
    let found = pallet.genetic_analyst_by_account_id(&9).unwrap();

    assert_eq!(created, found);
    assert_eq!(found.account_id, 9);
    assert_eq!(found.info, full_profile());
    assert_eq!(found.qualifications, Vec::<u64>::new());
    assert_eq!(GeneticAnalystInterface::genetic_analyst_by_account_id(&pallet, &9), Some(found));
}

#[test]
fn update_replaces_the_whole_profile_and_keeps_the_qualifications() {
    let mut pallet = registry();
    pallet.create_genetic_analyst(&9, &full_profile()).unwrap();
    pallet.associate(&9, &5);

    let updated =
        GeneticAnalystInterface::update_genetic_analyst(&mut pallet, &9, &named("Rosy")).unwrap();

    assert_eq!(updated, record(9, vec![5], named("Rosy")));
    let found = pallet.genetic_analyst_by_account_id(&9).unwrap();
    assert_eq!(found.info.last_name, Vec::<u8>::new());
    assert_eq!(found.info.date_of_birth, 0);
    assert_eq!(found.info.stake_amount, 0);
    assert_eq!(found.info.stake_status, StakeStatus::Unstaked);
    assert_eq!(found, updated);
    assert_eq!(pallet.genetic_analyst_count(), 1);
}

#[test]
fn counter_is_registrations_less_removals() {
    let mut pallet = registry();
    assert_eq!(pallet.genetic_analyst_count(), 0);
    for account_id in 1..=5u64 {
        pallet.create_genetic_analyst(&account_id, &named("Ada")).unwrap();
    }
    assert_eq!(pallet.genetic_analyst_count(), 5);

    assert!(pallet.create_genetic_analyst(&5, &named("Eve")).is_err());
    assert!(pallet.delete_genetic_analyst(&6).is_err());
    pallet.update_genetic_analyst(4, named("Dan")).unwrap();
    pallet.associate(&4, &40);
    pallet.disassociate(&4, &40);
    assert_eq!(pallet.genetic_analyst_count(), 5);

    pallet.delete_genetic_analyst(&2).unwrap();
    pallet.delete_genetic_analyst(&4).unwrap();
    assert_eq!(pallet.genetic_analyst_count(), 3);
    assert!(pallet.delete_genetic_analyst(&2).is_err());
    assert_eq!(pallet.genetic_analyst_count(), 3);

    pallet.create_genetic_analyst(&2, &named("Bea")).unwrap();
    assert_eq!(pallet.genetic_analyst_count(), 4);
}

#[test]
fn counter_steps_by_one_and_stays_at_zero() {
    let mut pallet = registry();
    pallet.sub_genetic_analyst_count();
    assert_eq!(pallet.genetic_analyst_count(), 0);
    pallet.add_genetic_analyst_count();
    pallet.add_genetic_analyst_count();
    assert_eq!(pallet.genetic_analyst_count(), 2);
    pallet.sub_genetic_analyst_count();
    assert_eq!(pallet.genetic_analyst_count(), 1);
    pallet.sub_genetic_analyst_count();
    pallet.sub_genetic_analyst_count();
    assert_eq!(pallet.genetic_analyst_count(), 0);
}

#[test]
fn second_disassociation_changes_nothing() {
    let mut pallet = registry();
    pallet.create_genetic_analyst(&1, &named("Ada")).unwrap();
    pallet.associate(&1, &10);
    let before = pallet.get_owner(&1).unwrap();

    pallet.associate(&1, &20);
    pallet.disassociate(&1, &20);
    let once = pallet.get_owner(&1).unwrap();
    pallet.disassociate(&1, &20);
    let twice = pallet.get_owner(&1).unwrap();

    assert_eq!(once, before);
    assert_eq!(twice, once);
    assert_eq!(twice.qualifications, vec![10]);
}

#[test]
fn disassociation_takes_one_occurrence_at_a_time() {
    let mut pallet = registry();
    pallet.create_genetic_analyst(&1, &named("Ada")).unwrap();
    for qualification_id in [7u64, 8, 7, 9, 7] {
        pallet.associate(&1, &qualification_id);
    }
    assert_eq!(pallet.get_owner(&1).unwrap().qualifications, vec![7, 8, 7, 9, 7]);

    pallet.disassociate(&1, &7);
    assert_eq!(pallet.get_owner(&1).unwrap().qualifications, vec![8, 7, 9, 7]);
    pallet.disassociate(&1, &7);
    assert_eq!(pallet.get_owner(&1).unwrap().qualifications, vec![8, 9, 7]);
    pallet.disassociate(&1, &6);
    assert_eq!(pallet.get_owner(&1).unwrap().qualifications, vec![8, 9, 7]);
}

#[test]
fn association_with_an_unregistered_owner_does_nothing() {
    let mut pallet = registry();
    pallet.create_genetic_analyst(&1, &named("Ada")).unwrap();

    pallet.associate(&2, &10);
    pallet.disassociate(&2, &10);

    assert_eq!(pallet.get_owner(&2), None);
    assert!(!pallet.can_create_qualification(&2));
    assert_eq!(pallet.get_owner(&1), Some(record(1, vec![], named("Ada"))));
    assert_eq!(pallet.genetic_analyst_count(), 1);
}

#[test]
fn only_a_registered_account_can_own_a_qualification() {
    let mut pallet = registry();
    assert!(!pallet.can_create_qualification(&1));
    pallet.register_genetic_analyst(1, named("Ada")).unwrap();
    assert!(pallet.can_create_qualification(&1));
    assert!(!pallet.can_create_qualification(&2));
    pallet.deregister_genetic_analyst(1).unwrap();
    assert!(!pallet.can_create_qualification(&1));
}

#[test]
fn removal_asks_for_each_deletion_once_and_in_order() {
    let (mut pallet, asked) = watched(vec![]);
    pallet.create_genetic_analyst(&7, &named("Ada")).unwrap();
    pallet.associate(&7, &11);
    pallet.associate(&7, &12);
    assert!(asked.borrow().is_empty());

    let deleted = pallet.delete_genetic_analyst(&7).unwrap();

    assert_eq!(deleted, record(7, vec![11, 12], named("Ada")));
    assert_eq!(*asked.borrow(), vec![(7, 11), (7, 12)]);
    assert!(!pallet.can_create_qualification(&7));
    assert_eq!(pallet.get_owner(&7), None);
    assert_eq!(pallet.genetic_analyst_count(), 0);
}

#[test]
fn removal_goes_on_when_deletions_are_refused() {
    let (mut pallet, asked) = watched(vec![11, 12]);
    pallet.create_genetic_analyst(&7, &named("Ada")).unwrap();
    pallet.create_genetic_analyst(&8, &named("Bea")).unwrap();
    pallet.associate(&7, &11);
    pallet.associate(&8, &80);
    pallet.associate(&7, &12);
    pallet.associate(&7, &13);

    let deregistered = pallet.deregister_genetic_analyst(7);

    assert_eq!(
        deregistered,
        Ok(Event::GeneticAnalystDeleted(record(7, vec![11, 12, 13], named("Ada")), 7))
    );
    assert_eq!(*asked.borrow(), vec![(7, 11), (7, 12), (7, 13)]);
    assert_eq!(pallet.genetic_analyst_by_account_id(&7), None);
    assert_eq!(pallet.genetic_analyst_by_account_id(&8), Some(record(8, vec![80], named("Bea"))));
    assert_eq!(pallet.genetic_analyst_count(), 1);
}

#[test]
fn removal_asks_for_a_repeated_qualification_each_time_it_is_listed() {
    let (mut pallet, asked) = watched(vec![]);
    pallet.create_genetic_analyst(&1, &named("Ada")).unwrap();
    pallet.associate(&1, &4);
    pallet.associate(&1, &4);

    pallet.delete_genetic_analyst(&1).unwrap();

    assert_eq!(*asked.borrow(), vec![(1, 4), (1, 4)]);
}

#[test]
fn account_can_register_again_after_it_left() {
    let mut pallet = registry();
    pallet.register_genetic_analyst(1, full_profile()).unwrap();
    pallet.associate(&1, &10);
    pallet.deregister_genetic_analyst(1).unwrap();

    let again = pallet.register_genetic_analyst(1, named("Ada"));

    assert_eq!(again, Ok(Event::GeneticAnalystRegistered(record(1, vec![], named("Ada")), 1)));
    assert_eq!(pallet.genetic_analyst_count(), 1);
}

#[test]
fn restored_registry_takes_up_records_and_counter() {
    let stored = vec![record(1, vec![10, 11], named("Ada")), record(2, vec![], full_profile())];
    let (fresh, asked) = watched(vec![]);
    drop(fresh);
    let qualifications = Qualifications { asked: asked.clone(), refused: Vec::new() };
    let mut pallet = Pallet::<Runtime>::restore(&stored, 2, qualifications);

    assert_eq!(pallet.genetic_analyst_count(), 2);
    assert_eq!(pallet.genetic_analyst_by_account_id(&1), Some(record(1, vec![10, 11], named("Ada"))));
    assert_eq!(pallet.genetic_analyst_by_account_id(&2), Some(record(2, vec![], full_profile())));
    assert_eq!(pallet.genetic_analyst_by_account_id(&3), None);
    assert_eq!(
        pallet.register_genetic_analyst(1, named("Eve")),
        Err(Error::GeneticAnalystAlreadyRegistered)
    );

    pallet.deregister_genetic_analyst(1).unwrap();
    assert_eq!(*asked.borrow(), vec![(1, 10), (1, 11)]);
    assert_eq!(pallet.genetic_analyst_count(), 1);
}

#[test]
fn restored_registry_keeps_the_later_of_two_records_of_one_account() {
    let stored = vec![
        record(1, vec![10], named("Ada")),
        record(2, vec![], named("Bea")),
        record(1, vec![12], named("Ann")),
    ];
    let pallet = Pallet::<Runtime>::restore(
        &stored,
        7,
        Qualifications { asked: Rc::new(RefCell::new(Vec::new())), refused: Vec::new() },
    );

    assert_eq!(pallet.genetic_analyst_by_account_id(&1), Some(record(1, vec![12], named("Ann"))));
    assert_eq!(pallet.genetic_analyst_by_account_id(&2), Some(record(2, vec![], named("Bea"))));
    assert_eq!(pallet.genetic_analyst_count(), 7);
}

#[test]
fn restored_counter_at_the_largest_value_stays_on_registration() {
    let mut pallet = Pallet::<Runtime>::restore(
        &Vec::new(),
        u64::MAX,
        Qualifications { asked: Rc::new(RefCell::new(Vec::new())), refused: Vec::new() },
    );
    pallet.register_genetic_analyst(1, named("Ada")).unwrap();
    assert_eq!(pallet.genetic_analyst_count(), u64::MAX);
    pallet.add_genetic_analyst_count();
    assert_eq!(pallet.genetic_analyst_count(), u64::MAX);
    pallet.deregister_genetic_analyst(1).unwrap();
    assert_eq!(pallet.genetic_analyst_count(), u64::MAX - 1);
}
