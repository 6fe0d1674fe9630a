//! The profile that a genetic analyst supplies on registration and on update.

use vstd::prelude::*;

verus! {

/// Where the stake of a genetic analyst stands. The registry carries the
/// value and never acts on it.
#[derive(Clone, Copy, Debug, PartialEq, Eq, Structural)]
pub enum StakeStatus {
    Staked,
    WaitingForStaked,
    Unstaked,
}

impl Default for StakeStatus {
    fn default() -> (status: Self)
        ensures
            status == StakeStatus::Unstaked,
    {
        StakeStatus::Unstaked
    }
}

/// Personal and professional data of a genetic analyst, with the two fields
/// that keep the books of the stake. The registry stores it whole and
/// validates none of it.
#[derive(Debug, PartialEq, Eq)]
pub struct GeneticAnalystInfo<Moment> {
    pub first_name: Vec<u8>,
    pub last_name: Vec<u8>,
    pub gender: Vec<u8>,
    pub date_of_birth: Moment,
    pub email: Vec<u8>,
    pub phone_number: Vec<u8>,
    pub specialization: Vec<u8>,
    pub stake_amount: i64,
    pub stake_status: StakeStatus,
}

/// What a [`GeneticAnalystInfo`] holds, with each blob as a sequence of bytes.
pub ghost struct GeneticAnalystInfoView<Moment> {
    pub first_name: Seq<u8>,
    pub last_name: Seq<u8>,
    pub gender: Seq<u8>,
    pub date_of_birth: Moment,
    pub email: Seq<u8>,
    pub phone_number: Seq<u8>,
    pub specialization: Seq<u8>,
    pub stake_amount: i64,
    pub stake_status: StakeStatus,
}

impl<Moment> View for GeneticAnalystInfo<Moment> {
    type V = GeneticAnalystInfoView<Moment>;

    open spec fn view(&self) -> GeneticAnalystInfoView<Moment> {
        GeneticAnalystInfoView {
            first_name: self.first_name@,
            last_name: self.last_name@,
            gender: self.gender@,
            date_of_birth: self.date_of_birth,
            email: self.email@,
            phone_number: self.phone_number@,
            specialization: self.specialization@,
            stake_amount: self.stake_amount,
            stake_status: self.stake_status,
        }
    }
}

impl<Moment> GeneticAnalystInfoView<Moment> {
    /// The profile with every blob empty, no stake and nothing staked, born at
    /// `date_of_birth`.
    pub open spec fn blank(date_of_birth: Moment) -> Self {
        GeneticAnalystInfoView {
            first_name: Seq::empty(),
            last_name: Seq::empty(),
            gender: Seq::empty(),
            date_of_birth,
            email: Seq::empty(),
            phone_number: Seq::empty(),
            specialization: Seq::empty(),
            stake_amount: 0,
            stake_status: StakeStatus::Unstaked,
        }
    }
}

impl<Moment: Default> Default for GeneticAnalystInfo<Moment> {
    /// The blank profile; its date of birth is whatever `Moment` has as its
    /// own default.
    fn default() -> (info: Self)
        ensures
            info@ == GeneticAnalystInfoView::blank(info.date_of_birth),
            call_ensures(Moment::default, (), info.date_of_birth),
    {
        GeneticAnalystInfo {
            first_name: Vec::new(),
            last_name: Vec::new(),
            gender: Vec::new(),
            date_of_birth: Moment::default(),
            email: Vec::new(),
            phone_number: Vec::new(),
            specialization: Vec::new(),
            stake_amount: 0,
            stake_status: StakeStatus::Unstaked,
        }
    }
}

impl<Moment: Copy> Clone for GeneticAnalystInfo<Moment> {
    /// A copy that holds the same bytes and values, field by field.
    fn clone(&self) -> (copy: Self)
        ensures
            copy@ == self@,
    {
        GeneticAnalystInfo {
            first_name: self.first_name.clone(),
            last_name: self.last_name.clone(),
            gender: self.gender.clone(),
            date_of_birth: self.date_of_birth,
            email: self.email.clone(),
            phone_number: self.phone_number.clone(),
            specialization: self.specialization.clone(),
            stake_amount: self.stake_amount,
            stake_status: self.stake_status,
        }
    }
}

} // verus!
