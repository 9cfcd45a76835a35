//! The sequencer-grouping pallet: its storage, its calls and their laws.

use vstd::prelude::*;

verus! {

/// What the pallet needs from the runtime that hosts it.
pub trait Config {
    /// The account that signs extrinsics.
    type AccountId;
    /// The block number of the runtime.
    type BlockNumber: Copy;
}

/// Index of a sequencing round.
pub type RoundIndex = u32;

/// The next sequencing round: the block it starts at and its index.
#[derive(Clone, Copy, PartialEq, Eq, Structural, Debug, Default)]
pub struct NextRound<B> {
    pub starting_block: B,
    pub round_index: RoundIndex,
}

/// The origin of a call, as the runtime hands it in.
pub enum RawOrigin<AccountId> {
    /// The system itself, with full privileges.
    Root,
    /// An extrinsic signed by the account.
    Signed(AccountId),
    /// No origin: an unsigned extrinsic or an inherent.
    Unsigned,
}

/// The origin of a call to this pallet.
pub type OriginFor<T> = RawOrigin<<T as Config>::AccountId>;

/// Events that the pallet deposits.
pub enum Event<T: Config> {
    /// A value was stored. [something, who]
    SomethingStored(u32, T::AccountId),
}

/// Errors of the pallet.
#[derive(Clone, Copy, PartialEq, Eq, Structural, Debug)]
pub enum Error {
    /// The value has not been set.
    NoneValue,
    /// Incrementing the value would overflow.
    StorageOverflow,
}

/// Why a dispatch failed.
#[derive(Clone, Copy, PartialEq, Eq, Structural, Debug)]
pub enum DispatchError {
    /// The origin is not a signed account.
    BadOrigin,
    /// An error of this pallet.
    Module(Error),
}

/// Checks that the origin is a signed account and hands back that account.
pub fn ensure_signed<AccountId>(origin: RawOrigin<AccountId>) -> (r: Result<AccountId, DispatchError>)
    ensures
        r == signed_account(origin),
{
    match origin {
        RawOrigin::Signed(who) => Ok(who),
        _ => Err(DispatchError::BadOrigin),
    }
}

/// The account that signed, or `BadOrigin` for any other origin.
pub open spec fn signed_account<AccountId>(origin: RawOrigin<AccountId>) -> Result<AccountId, DispatchError> {
    match origin {
        RawOrigin::Signed(who) => Ok(who),
        _ => Err(DispatchError::BadOrigin),
    }
}

/// The value that `GroupID` holds while nothing has been written to it.
#[allow(non_snake_case)]
pub fn GroupIDOnEmpty() -> (r: u32)
    ensures
        r == group_id_on_empty(),
{
    0
}

/// The default of the `GroupID` storage value.
pub open spec fn group_id_on_empty() -> u32 {
    0
}

/// The pallet's storage, as a mathematical value.
pub struct PalletState<T: Config> {
    /// The `Something` storage value.
    pub something: Option<u32>,
    /// The `GroupID` storage value.
    pub group_id: u32,
    /// The `NextRoundStorage` storage value.
    pub next_round: NextRound<T::BlockNumber>,
    /// The events deposited so far, oldest first.
    pub events: Seq<Event<T>>,
}

impl<T: Config> PalletState<T> {
    /// Storage at genesis: every value at its default, no events;
    /// `default_block` is the default of the runtime's block number.
    pub open spec fn genesis(default_block: T::BlockNumber) -> Self {
        PalletState {
            something: None,
            group_id: group_id_on_empty(),
            next_round: NextRound { starting_block: default_block, round_index: 0 },
            events: Seq::empty(),
        }
    }

    /// `do_something`: a signed origin stores the value and deposits `SomethingStored`.
    pub open spec fn do_something(self, origin: OriginFor<T>, something: u32) -> (Self, Result<(), DispatchError>) {
        match origin {
            RawOrigin::Signed(who) => (
                PalletState {
                    something: Some(something),
                    events: self.events.push(Event::SomethingStored(something, who)),
                    ..self
                },
                Ok(()),
            ),
            _ => (self, Err(DispatchError::BadOrigin)),
        }
    }

    /// `cause_error`: a signed origin increments the stored value; it fails
    /// with `NoneValue` when there is none and with `StorageOverflow` at `u32::MAX`.
    pub open spec fn cause_error(self, origin: OriginFor<T>) -> (Self, Result<(), DispatchError>) {
        match origin {
            RawOrigin::Signed(_) => match self.something {
                None => (self, Err(DispatchError::Module(Error::NoneValue))),
                Some(old) => if old == u32::MAX {
                    (self, Err(DispatchError::Module(Error::StorageOverflow)))
                } else {
                    (PalletState { something: Some((old + 1) as u32), ..self }, Ok(()))
                },
            },
            _ => (self, Err(DispatchError::BadOrigin)),
        }
    }

    /// `set_group`: a signed origin writes `GroupID`.
    pub open spec fn set_group(self, origin: OriginFor<T>, group_id: u32) -> (Self, Result<(), DispatchError>) {
        match origin {
            RawOrigin::Signed(_) => (PalletState { group_id: group_id, ..self }, Ok(())),
            _ => (self, Err(DispatchError::BadOrigin)),
        }
    }

    /// `set_next_round`: a signed origin writes `NextRoundStorage`.
    pub open spec fn set_next_round(self, origin: OriginFor<T>, round: NextRound<T::BlockNumber>) -> (Self, Result<(), DispatchError>) {
        match origin {
            RawOrigin::Signed(_) => (PalletState { next_round: round, ..self }, Ok(())),
            _ => (self, Err(DispatchError::BadOrigin)),
        }
    }

    /// The group of any account: the stored `GroupID`.
    pub open spec fn account_in_group(self) -> Result<u32, DispatchError> {
        Ok(self.group_id)
    }

    /// All group ids: `1, 2, ..., GroupID`.
    pub open spec fn all_group_ids(self) -> Seq<u32> {
        Seq::new(self.group_id as nat, |i: int| (i + 1) as u32)
    }
}

/// The pallet, holding its storage.
pub struct Pallet<T: Config> {
    something: Option<u32>,
    group_id: u32,
    next_round: NextRound<T::BlockNumber>,
    events: Vec<Event<T>>,
}

impl<T: Config> View for Pallet<T> {
    type V = PalletState<T>;

    closed spec fn view(&self) -> PalletState<T> {
        PalletState {
            something: self.something,
            group_id: self.group_id,
            next_round: self.next_round,
            events: self.events@,
        }
    }
}

impl<T: Config> Pallet<T> {
    /// The pallet at genesis, where `default_block` is the default of the
    /// runtime's block number (zero for the integer block numbers of FRAME).
    pub fn new(default_block: T::BlockNumber) -> (p: Self)
        ensures
            p@ == PalletState::<T>::genesis(default_block),
    {
        Pallet {
            something: None,
            group_id: GroupIDOnEmpty(),
            next_round: NextRound { starting_block: default_block, round_index: 0 },
            events: Vec::new(),
        }
    }

    /// The pallet holding the given storage values, with no events yet.
    pub fn from_storage(something: Option<u32>, group_id: u32, next_round: NextRound<T::BlockNumber>) -> (p: Self)
        ensures
            p@ == (PalletState::<T> { something, group_id, next_round, events: Seq::empty() }),
    {
        Pallet { something, group_id, next_round, events: Vec::new() }
    }

    fn deposit_event(&mut self, event: Event<T>)
        ensures
            final(self)@ == (PalletState { events: old(self)@.events.push(event), ..old(self)@ }),
    {
        self.events.push(event);
    }

    /// Stores `something` and deposits `SomethingStored`; the origin must be signed.
    pub fn do_something(&mut self, origin: OriginFor<T>, something: u32) -> (r: Result<(), DispatchError>)
        ensures
            (final(self)@, r) == old(self)@.do_something(origin, something),
    {
        let who = match ensure_signed(origin) {
            Ok(who) => who,
            Err(e) => return Err(e),
        };
        self.something = Some(something);
        self.deposit_event(Event::SomethingStored(something, who));
        Ok(())
    }

    /// Increments the stored value; the origin must be signed.
    pub fn cause_error(&mut self, origin: OriginFor<T>) -> (r: Result<(), DispatchError>)
        ensures
            (final(self)@, r) == old(self)@.cause_error(origin),
    {
        match ensure_signed(origin) {
            Ok(_) => {},
            Err(e) => return Err(e),
        }
        match self.something {
            None => Err(DispatchError::Module(Error::NoneValue)),
            Some(old) => {
                let new = match old.checked_add(1) {
                    Some(n) => n,
                    None => return Err(DispatchError::Module(Error::StorageOverflow)),
                };
                self.something = Some(new);
                Ok(())
            },
        }
    }

    /// Writes `GroupID`; the origin must be signed.
    #[allow(non_snake_case)]
    pub fn set_group(&mut self, origin: OriginFor<T>, groupID: u32) -> (r: Result<(), DispatchError>)
        ensures
            (final(self)@, r) == old(self)@.set_group(origin, groupID),
    {
        match ensure_signed(origin) {
            Ok(_) => {},
            Err(e) => return Err(e),
        }
        self.group_id = groupID;
        Ok(())
    }

    /// Writes `NextRoundStorage`; the origin must be signed.
    pub fn set_next_round(&mut self, origin: OriginFor<T>, round: NextRound<T::BlockNumber>) -> (r: Result<(), DispatchError>)
        ensures
            (final(self)@, r) == old(self)@.set_next_round(origin, round),
    {
        match ensure_signed(origin) {
            Ok(_) => {},
            Err(e) => return Err(e),
        }
        self.next_round = round;
        Ok(())
    }

    /// The end-of-block hook: it changes nothing.
    pub fn on_finalize(&mut self, block_number: T::BlockNumber)
        ensures
            final(self)@ == old(self)@,
    {
    }

    /// The group that `account` belongs to: the stored `GroupID`, for every account.
    pub fn account_in_group(&self, account: T::AccountId) -> (r: Result<u32, DispatchError>)
        ensures
            r == self@.account_in_group(),
    {
        Ok(self.group_id)
    }

    /// The ids of all groups: `1, 2, ..., GroupID`.
    pub fn all_group_ids(&self) -> (groups: Vec<u32>)
        ensures
            groups@ == self@.all_group_ids(),
    {
        let group_id: u32 = self.group_id;
        let mut groups: Vec<u32> = Vec::new();
        for i in 0..group_id
            invariant
                group_id == self@.group_id,
                groups@ == Seq::new(i as nat, |j: int| (j + 1) as u32),
        {
            groups.push(i + 1);
        }
        groups
    }

    /// The stored next round.
    pub fn next_round(&self) -> (r: NextRound<T::BlockNumber>)
        ensures
            r == self@.next_round,
    {
        self.next_round
    }

    /// The `Something` storage value.
    pub fn something(&self) -> (r: Option<u32>)
        ensures
            r == self@.something,
    {
        self.something
    }

    /// The `GroupID` storage value.
    #[allow(non_snake_case)]
    pub fn groupID(&self) -> (r: u32)
        ensures
            r == self@.group_id,
    {
        self.group_id
    }

    /// The `NextRoundStorage` storage value.
    pub fn next_round_t(&self) -> (r: NextRound<T::BlockNumber>)
        ensures
            r == self@.next_round,
    {
        self.next_round
    }

    /// The events deposited so far, oldest first.
    pub fn events(&self) -> (r: &Vec<Event<T>>)
        ensures
            r@ == self@.events,
    {
        &self.events
    }
}

/// After a signed `set_group(g)`, every account is in group `g`, the group ids
/// are `1, ..., g`, and no other storage value has changed.
pub proof fn law_set_group_then_read<T: Config>(s: PalletState<T>, who: T::AccountId, g: u32)
    ensures
        s.set_group(RawOrigin::Signed(who), g).1 == Ok::<(), DispatchError>(()),
        s.set_group(RawOrigin::Signed(who), g).0.account_in_group() == Ok::<u32, DispatchError>(g),
        s.set_group(RawOrigin::Signed(who), g).0.all_group_ids().len() == g,
        forall|i: int| 0 <= i < g ==> #[trigger] s.set_group(RawOrigin::Signed(who), g).0.all_group_ids()[i] == i + 1,
        s.set_group(RawOrigin::Signed(who), g).0.something == s.something,
        s.set_group(RawOrigin::Signed(who), g).0.next_round == s.next_round,
        s.set_group(RawOrigin::Signed(who), g).0.events == s.events,
{
}

/// After a signed `set_next_round(round)`, the next round reads back as `round`,
/// and no other storage value has changed.
pub proof fn law_set_next_round_then_read<T: Config>(s: PalletState<T>, who: T::AccountId, round: NextRound<T::BlockNumber>)
    ensures
        s.set_next_round(RawOrigin::Signed(who), round).1 == Ok::<(), DispatchError>(()),
        s.set_next_round(RawOrigin::Signed(who), round).0.next_round == round,
        s.set_next_round(RawOrigin::Signed(who), round).0.something == s.something,
        s.set_next_round(RawOrigin::Signed(who), round).0.group_id == s.group_id,
        s.set_next_round(RawOrigin::Signed(who), round).0.events == s.events,
{
}

/// After a signed `do_something(v)`, the stored value is `v`, and exactly one
/// event has been deposited: `SomethingStored(v, who)`.
pub proof fn law_do_something_stores_and_notifies<T: Config>(s: PalletState<T>, who: T::AccountId, v: u32)
    ensures
        s.do_something(RawOrigin::Signed(who), v).1 == Ok::<(), DispatchError>(()),
        s.do_something(RawOrigin::Signed(who), v).0.something == Some(v),
        s.do_something(RawOrigin::Signed(who), v).0.events == s.events.push(Event::SomethingStored(v, who)),
        s.do_something(RawOrigin::Signed(who), v).0.group_id == s.group_id,
        s.do_something(RawOrigin::Signed(who), v).0.next_round == s.next_round,
{
}

/// `cause_error` after a signed `do_something(v)`: the value becomes `v + 1`,
/// or, when `v` is `u32::MAX`, the call fails with `StorageOverflow` and the
/// value stays `v`.
pub proof fn law_store_then_increment<T: Config>(s: PalletState<T>, a: T::AccountId, b: T::AccountId, v: u32)
    ensures
        ({
            let s1 = s.do_something(RawOrigin::Signed(a), v).0;
            let (s2, r) = s1.cause_error(RawOrigin::Signed(b));
            &&& v < u32::MAX ==> r == Ok::<(), DispatchError>(()) && s2.something == Some((v + 1) as u32)
            &&& v == u32::MAX ==> r == Err::<(), DispatchError>(DispatchError::Module(Error::StorageOverflow)) && s2 == s1
        }),
{
}

/// A signed `cause_error` on an empty value fails with `NoneValue`.
pub proof fn law_increment_needs_a_value<T: Config>(s: PalletState<T>, who: T::AccountId)
    requires
        s.something is None,
    ensures
        s.cause_error(RawOrigin::Signed(who)) == (s, Err::<(), DispatchError>(DispatchError::Module(Error::NoneValue))),
{
}

/// Every call from an origin that is not a signed account fails with
/// `BadOrigin` and leaves the storage and the events as they were.
pub proof fn law_unsigned_calls_are_refused<T: Config>(
    s: PalletState<T>,
    origin: OriginFor<T>,
    v: u32,
    g: u32,
    round: NextRound<T::BlockNumber>,
)
    requires
        !(origin is Signed),
    ensures
        s.do_something(origin, v) == (s, Err::<(), DispatchError>(DispatchError::BadOrigin)),
        s.cause_error(origin) == (s, Err::<(), DispatchError>(DispatchError::BadOrigin)),
        s.set_group(origin, g) == (s, Err::<(), DispatchError>(DispatchError::BadOrigin)),
        s.set_next_round(origin, round) == (s, Err::<(), DispatchError>(DispatchError::BadOrigin)),
{
}

/// A call that fails changes nothing: neither the storage nor the events.
pub proof fn law_failed_calls_change_nothing<T: Config>(
    s: PalletState<T>,
    origin: OriginFor<T>,
    v: u32,
    g: u32,
    round: NextRound<T::BlockNumber>,
)
    ensures
        s.do_something(origin, v).1 is Err ==> s.do_something(origin, v).0 == s,
        s.cause_error(origin).1 is Err ==> s.cause_error(origin).0 == s,
        s.set_group(origin, g).1 is Err ==> s.set_group(origin, g).0 == s,
        s.set_next_round(origin, round).1 is Err ==> s.set_next_round(origin, round).0 == s,
{
}

/// Only `do_something` deposits events: `cause_error`, `set_group` and
/// `set_next_round` never change the event list.
pub proof fn law_only_do_something_deposits<T: Config>(
    s: PalletState<T>,
    origin: OriginFor<T>,
    g: u32,
    round: NextRound<T::BlockNumber>,
)
    ensures
        s.cause_error(origin).0.events == s.events,
        s.set_group(origin, g).0.events == s.events,
        s.set_next_round(origin, round).0.events == s.events,
{
}

/// The group ids are exactly `1, ..., GroupID`: strictly increasing, each
/// between 1 and `GroupID`, as many as `GroupID`.
pub proof fn law_group_ids_enumerate_groups<T: Config>(s: PalletState<T>)
    ensures
        s.all_group_ids().len() == s.group_id,
        forall|i: int| 0 <= i < s.group_id ==> 1 <= #[trigger] s.all_group_ids()[i] <= s.group_id,
        forall|i: int, j: int| 0 <= i < j < s.group_id ==> #[trigger] s.all_group_ids()[i] < #[trigger] s.all_group_ids()[j],
{
}

/// At genesis nothing is stored: no value, every account in group 0, no group
/// ids, the next round at the default block with index 0, and no events.
pub proof fn law_genesis_is_empty<T: Config>(default_block: T::BlockNumber)
    ensures
        PalletState::<T>::genesis(default_block).something is None,
        PalletState::<T>::genesis(default_block).account_in_group() == Ok::<u32, DispatchError>(0),
        PalletState::<T>::genesis(default_block).all_group_ids() == Seq::<u32>::empty(),
        PalletState::<T>::genesis(default_block).next_round == (NextRound::<T::BlockNumber> { starting_block: default_block, round_index: 0 }),
        PalletState::<T>::genesis(default_block).events == Seq::<Event<T>>::empty(),
{
    assert(PalletState::<T>::genesis(default_block).all_group_ids() =~= Seq::<u32>::empty());
}

} // verus!
