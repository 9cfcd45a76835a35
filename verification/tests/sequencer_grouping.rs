use popsicle::sequencer_grouping::{
    ensure_signed, Config, DispatchError, Error, Event, GroupIDOnEmpty, NextRound, Pallet, RawOrigin,
};

struct Test;

impl Config for Test {
    type AccountId = u64;
    type BlockNumber = u64;
}

fn signed(who: u64) -> RawOrigin<u64> {
    RawOrigin::Signed(who)
}

#[test]
fn genesis_storage_is_empty() {
    let p: Pallet<Test> = Pallet::new(0);
    assert_eq!(p.something(), None);
    assert_eq!(p.groupID(), 0);
    assert_eq!(p.account_in_group(7), Ok(0));
    assert_eq!(p.all_group_ids(), Vec::<u32>::new());
    assert_eq!(p.next_round(), NextRound { starting_block: 0, round_index: 0 });
    assert_eq!(p.next_round_t(), NextRound { starting_block: 0, round_index: 0 });
    assert!(p.events().is_empty());
}

#[test]
fn group_id_on_empty_is_zero() {
    assert_eq!(GroupIDOnEmpty(), 0);
}

#[test]
fn ensure_signed_accepts_only_signed_origins() {
    assert_eq!(ensure_signed(RawOrigin::Signed(5u64)), Ok(5));
    assert_eq!(ensure_signed(RawOrigin::<u64>::Root), Err(DispatchError::BadOrigin));
    assert_eq!(ensure_signed(RawOrigin::<u64>::Unsigned), Err(DispatchError::BadOrigin));
}

#[test]
fn do_something_stores_and_deposits_event() {
    let mut p: Pallet<Test> = Pallet::new(0);
    assert_eq!(p.do_something(signed(1), 42), Ok(()));
    assert_eq!(p.something(), Some(42));
    assert_eq!(p.events().len(), 1);
    match &p.events()[0] {
        Event::SomethingStored(v, who) => {
            assert_eq!(*v, 42);
            assert_eq!(*who, 1);
        },
    }
    assert_eq!(p.do_something(signed(2), 7), Ok(()));
    assert_eq!(p.something(), Some(7));
    assert_eq!(p.events().len(), 2);
    match &p.events()[1] {
        Event::SomethingStored(v, who) => {
            assert_eq!(*v, 7);
            assert_eq!(*who, 2);
        },
    }
}

#[test]
fn unsigned_calls_are_refused_and_change_nothing() {
    let mut p: Pallet<Test> = Pallet::new(0);
    assert_eq!(p.do_something(RawOrigin::Root, 3), Err(DispatchError::BadOrigin));
    assert_eq!(p.do_something(RawOrigin::Unsigned, 3), Err(DispatchError::BadOrigin));
    assert_eq!(p.cause_error(RawOrigin::Root), Err(DispatchError::BadOrigin));
    assert_eq!(p.set_group(RawOrigin::Unsigned, 4), Err(DispatchError::BadOrigin));
    assert_eq!(
        p.set_next_round(RawOrigin::Root, NextRound { starting_block: 9, round_index: 1 }),
        Err(DispatchError::BadOrigin)
    );
    assert_eq!(p.something(), None);
    assert_eq!(p.groupID(), 0);
    assert_eq!(p.next_round(), NextRound { starting_block: 0, round_index: 0 });
    assert!(p.events().is_empty());
}

#[test]
fn cause_error_without_value_fails_with_none_value() {
    let mut p: Pallet<Test> = Pallet::new(0);
    assert_eq!(p.cause_error(signed(1)), Err(DispatchError::Module(Error::NoneValue)));
    assert_eq!(p.something(), None);
}

#[test]
fn cause_error_increments_the_value() {
    let mut p: Pallet<Test> = Pallet::new(0);
    p.do_something(signed(1), 41).unwrap();
    assert_eq!(p.cause_error(signed(2)), Ok(()));
    assert_eq!(p.something(), Some(42));
    assert_eq!(p.cause_error(signed(2)), Ok(()));
    assert_eq!(p.something(), Some(43));
    // No event for an increment.
    assert_eq!(p.events().len(), 1);
}

#[test]
fn cause_error_at_max_fails_with_storage_overflow() {
    let mut p: Pallet<Test> = Pallet::new(0);
    p.do_something(signed(1), u32::MAX).unwrap();
    assert_eq!(p.cause_error(signed(1)), Err(DispatchError::Module(Error::StorageOverflow)));
    assert_eq!(p.something(), Some(u32::MAX));
}

#[test]
fn set_group_then_read_group() {
    let mut p: Pallet<Test> = Pallet::new(0);
    assert_eq!(p.set_group(signed(1), 4), Ok(()));
    assert_eq!(p.groupID(), 4);
    assert_eq!(p.account_in_group(99), Ok(4));
    assert_eq!(p.all_group_ids(), vec![1, 2, 3, 4]);
    assert_eq!(p.set_group(signed(1), 1), Ok(()));
    assert_eq!(p.all_group_ids(), vec![1]);
    assert_eq!(p.set_group(signed(1), 0), Ok(()));
    assert_eq!(p.all_group_ids(), Vec::<u32>::new());
    assert!(p.events().is_empty());
}

#[test]
fn set_next_round_then_read_next_round() {
    let mut p: Pallet<Test> = Pallet::new(0);
    let round = NextRound { starting_block: 100, round_index: 3 };
    assert_eq!(p.set_next_round(signed(1), round), Ok(()));
    assert_eq!(p.next_round(), round);
    assert_eq!(p.next_round_t(), round);
    assert_eq!(p.something(), None);
    assert_eq!(p.groupID(), 0);
}

#[test]
fn on_finalize_changes_nothing() {
    let mut p: Pallet<Test> = Pallet::new(0);
    p.do_something(signed(1), 5).unwrap();
    p.set_group(signed(1), 2).unwrap();
    p.on_finalize(10);
    assert_eq!(p.something(), Some(5));
    assert_eq!(p.groupID(), 2);
    assert_eq!(p.events().len(), 1);
}

#[test]
fn from_storage_holds_the_given_values() {
    let round = NextRound { starting_block: 8, round_index: 2 };
    let mut p: Pallet<Test> = Pallet::from_storage(Some(10), 3, round);
    assert_eq!(p.something(), Some(10));
    assert_eq!(p.all_group_ids(), vec![1, 2, 3]);
    assert_eq!(p.next_round(), round);
    assert!(p.events().is_empty());
    assert_eq!(p.cause_error(signed(4)), Ok(()));
    assert_eq!(p.something(), Some(11));
}

#[test]
fn next_round_holds_wide_block_numbers() {
    let mut p: Pallet<Test> = Pallet::new(0);
    let round = NextRound { starting_block: 1u64 << 40, round_index: 7 };
    assert_eq!(p.set_next_round(signed(1), round), Ok(()));
    assert_eq!(p.next_round(), round);
    assert_eq!(p.next_round().starting_block, 1_099_511_627_776);
}
