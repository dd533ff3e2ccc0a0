//! The registry's state as mathematical maps, and what each call does to it.

use crate::types::{
    default_lottery, signer, AccountId, Balance, BlockNumber, CreateStep, Error, Event, LotteryId,
    LotteryView, Origin, PendingCreate, PendingInvest, MAX_LOTTERY_PER_BLOCK,
};
use vstd::prelude::*;

verus! {

/// Every storage item of the registry. A lottery identifier is seen as the
/// sequence of its 32 bytes.
#[verifier::ext_equal]
pub struct RegistryState {
    pub something: Option<u32>,
    pub lotterys: Map<Seq<u8>, LotteryView>,
    pub lottery_owner: Map<Seq<u8>, AccountId>,
    pub all_lottery_array: Map<u64, Seq<u8>>,
    pub all_lottery_count: u64,
    pub all_lottery_index: Map<Seq<u8>, u64>,
    pub owned_lottery_array: Map<(AccountId, u64), Seq<u8>>,
    pub owned_lottery_count: Map<AccountId, u64>,
    pub owned_lottery_index: Map<(AccountId, Seq<u8>), u64>,
    pub invest_amount: Map<(Seq<u8>, AccountId), Balance>,
    pub invest_accounts: Map<Seq<u8>, Seq<AccountId>>,
    pub invest_accounts_count: Map<Seq<u8>, u64>,
    pub invested_lotterys_array: Map<(AccountId, u64), Seq<u8>>,
    pub invested_lotterys_count: Map<AccountId, u64>,
    pub invested_lotterys_index: Map<(AccountId, Seq<u8>), u64>,
    pub lottery_invested_amount: Map<Seq<u8>, Balance>,
    pub lotterys_by_block_number: Map<BlockNumber, Seq<LotteryId>>,
    pub nonce: u64,
}

/// The value stored under `k`, or `d` where nothing is.
pub open spec fn value_or<K, V>(m: Map<K, V>, k: K, d: V) -> V {
    if m.contains_key(k) {
        m[k]
    } else {
        d
    }
}

/// A sequence without its last element; an empty one stays empty.
pub open spec fn pop_last<T>(q: Seq<T>) -> Seq<T> {
    if q.len() == 0 {
        q
    } else {
        q.drop_last()
    }
}

/// The genesis state: every map empty, every count zero.
pub open spec fn genesis() -> RegistryState {
    RegistryState {
        something: None,
        lotterys: Map::empty(),
        lottery_owner: Map::empty(),
        all_lottery_array: Map::empty(),
        all_lottery_count: 0,
        all_lottery_index: Map::empty(),
        owned_lottery_array: Map::empty(),
        owned_lottery_count: Map::empty(),
        owned_lottery_index: Map::empty(),
        invest_amount: Map::empty(),
        invest_accounts: Map::empty(),
        invest_accounts_count: Map::empty(),
        invested_lotterys_array: Map::empty(),
        invested_lotterys_count: Map::empty(),
        invested_lotterys_index: Map::empty(),
        lottery_invested_amount: Map::empty(),
        lotterys_by_block_number: Map::empty(),
        nonce: 0,
    }
}

impl RegistryState {
    /// The lottery stored under `id`, or the default one.
    pub open spec fn lottery(self, id: Seq<u8>) -> LotteryView {
        value_or(self.lotterys, id, default_lottery())
    }

    /// The lotteries that expire at block `b`.
    pub open spec fn expiring_at(self, b: BlockNumber) -> Seq<LotteryId> {
        value_or(self.lotterys_by_block_number, b, Seq::empty())
    }

    /// How many lotteries `who` owns.
    pub open spec fn owned_count(self, who: AccountId) -> u64 {
        value_or(self.owned_lottery_count, who, 0)
    }

    /// In how many investments `who` took part.
    pub open spec fn invested_count(self, who: AccountId) -> u64 {
        value_or(self.invested_lotterys_count, who, 0)
    }

    /// How many investments lottery `id` received.
    pub open spec fn investor_count(self, id: Seq<u8>) -> u64 {
        value_or(self.invest_accounts_count, id, 0)
    }

    /// The accounts that invested in lottery `id`, in order.
    pub open spec fn investors(self, id: Seq<u8>) -> Seq<AccountId> {
        value_or(self.invest_accounts, id, Seq::empty())
    }

    /// The total invested in lottery `id`.
    pub open spec fn total_invested(self, id: Seq<u8>) -> Balance {
        value_or(self.lottery_invested_amount, id, 0)
    }

    /// The state with the nonce one higher.
    pub open spec fn bump_nonce(self) -> RegistryState {
        RegistryState { nonce: (self.nonce + 1) as u64, ..self }
    }
}

/// `do_something`: the signer stores `value`.
pub open spec fn store_something(s: RegistryState, value: u32) -> RegistryState {
    RegistryState { something: Some(value), ..s }
}

/// The lottery that `sender` creates.
pub open spec fn new_lottery(
    id: Seq<u8>,
    sender: AccountId,
    name: Seq<u8>,
    bonus: Balance,
    min_invest: Balance,
    expiry: BlockNumber,
) -> LotteryView {
    LotteryView { id, owner: sender, name, bonus, min_invest, expiry, status: 0 }
}

/// The checks that creating lottery `id` makes before anything is written,
/// in the order in which they are made.
pub open spec fn create_check(
    s: RegistryState,
    sender: AccountId,
    id: Seq<u8>,
    expiry: BlockNumber,
    now: BlockNumber,
) -> Result<(), Error> {
    if s.lottery_owner.contains_key(id) {
        Err(Error::LotteryAlreadyExists)
    } else if !(expiry > now) {
        Err(Error::ExpiryNotInFuture)
    } else if !(s.expiring_at(expiry).len() < MAX_LOTTERY_PER_BLOCK) {
        Err(Error::TooManyLotterysAtBlock)
    } else if s.all_lottery_count == u64::MAX {
        Err(Error::AllLotteryCountOverflow)
    } else if s.owned_count(sender) == u64::MAX {
        Err(Error::OwnedLotteryCountOverflow)
    } else {
        Ok(())
    }
}

/// What creating a lottery writes: the lottery, its owner, its expiry, and
/// its place among all lotteries and among the owner's.
pub open spec fn mint_records(
    s: RegistryState,
    sender: AccountId,
    id: LotteryId,
    lottery: LotteryView,
) -> RegistryState {
    let c = s.all_lottery_count;
    let oc = s.owned_count(sender);
    RegistryState {
        lotterys: s.lotterys.insert(id@, lottery),
        lottery_owner: s.lottery_owner.insert(id@, sender),
        lotterys_by_block_number: s.lotterys_by_block_number.insert(
            lottery.expiry,
            s.expiring_at(lottery.expiry).push(id),
        ),
        all_lottery_array: s.all_lottery_array.insert(c, id@),
        all_lottery_count: (c + 1) as u64,
        all_lottery_index: s.all_lottery_index.insert(id@, c),
        owned_lottery_array: s.owned_lottery_array.insert((sender, oc), id@),
        owned_lottery_count: s.owned_lottery_count.insert(sender, (oc + 1) as u64),
        owned_lottery_index: s.owned_lottery_index.insert((sender, id@), oc),
        ..s
    }
}

/// What a creation whose bonus could not be invested undoes: every record of
/// the lottery goes, and both counts are put back to what they were.
pub open spec fn mint_revert(
    s: RegistryState,
    sender: AccountId,
    id: LotteryId,
    expiry: BlockNumber,
    all_count: u64,
    owned_count: u64,
) -> RegistryState {
    RegistryState {
        lotterys: s.lotterys.remove(id@),
        lottery_owner: s.lottery_owner.remove(id@),
        lotterys_by_block_number: s.lotterys_by_block_number.insert(
            expiry,
            pop_last(s.expiring_at(expiry)),
        ),
        all_lottery_array: s.all_lottery_array.remove(all_count),
        all_lottery_count: all_count,
        all_lottery_index: s.all_lottery_index.remove(id@),
        owned_lottery_array: s.owned_lottery_array.remove((sender, owned_count)),
        owned_lottery_count: s.owned_lottery_count.insert(sender, owned_count),
        owned_lottery_index: s.owned_lottery_index.remove((sender, id@)),
        ..s
    }
}

/// The checks that an investment makes before any funds are reserved, in
/// the order in which they are made.
pub open spec fn invest_check(
    s: RegistryState,
    sender: AccountId,
    id: Seq<u8>,
    amount: Balance,
    free_balance: Balance,
    now: BlockNumber,
) -> Result<(), Error> {
    if !s.lotterys.contains_key(id) {
        Err(Error::LotteryNotFound)
    } else if !(free_balance >= amount) {
        Err(Error::InsufficientFreeBalance)
    } else if s.invested_count(sender) == u64::MAX {
        Err(Error::InvestedLotteryCountOverflow)
    } else if s.investor_count(id) == u64::MAX {
        Err(Error::InvestorCountOverflow)
    } else if !(now < s.lottery(id).expiry) {
        Err(Error::LotteryExpired)
    } else {
        Ok(())
    }
}

/// Whether `who` has invested in lottery `id`.
pub open spec fn is_investor(s: RegistryState, id: Seq<u8>, who: AccountId) -> bool {
    s.invest_amount.contains_key((id, who))
}

/// The amount that `who` has invested in lottery `id` in all.
pub open spec fn invested_by(s: RegistryState, id: Seq<u8>, who: AccountId) -> Balance {
    value_or(s.invest_amount, (id, who), 0)
}

/// Recording an investment does not overflow.
pub open spec fn invest_fits(s: RegistryState, sender: AccountId, id: Seq<u8>, amount: Balance) -> bool {
    &&& s.invested_count(sender) < u64::MAX
    &&& s.investor_count(id) < u64::MAX
    &&& s.total_invested(id) + amount <= u64::MAX
    &&& invested_by(s, id, sender) + amount <= u64::MAX
}

/// What an investment writes once its funds are reserved. The amount is
/// added to what the investor had put in; a first investment also lists the
/// investor with the lottery and the lottery with the investor.
pub open spec fn invest_apply(s: RegistryState, sender: AccountId, id: LotteryId, amount: Balance) -> RegistryState {
    let ic = s.invested_count(sender);
    let nc = s.investor_count(id@);
    let amounts = s.invest_amount.insert(
        (id@, sender),
        (invested_by(s, id@, sender) + amount) as u64,
    );
    let total = s.lottery_invested_amount.insert(id@, (s.total_invested(id@) + amount) as u64);
    if is_investor(s, id@, sender) {
        RegistryState { invest_amount: amounts, lottery_invested_amount: total, ..s }
    } else {
        RegistryState {
            invest_amount: amounts,
            invest_accounts: s.invest_accounts.insert(id@, s.investors(id@).push(sender)),
            invest_accounts_count: s.invest_accounts_count.insert(id@, (nc + 1) as u64),
            invested_lotterys_array: s.invested_lotterys_array.insert((sender, ic), id@),
            invested_lotterys_count: s.invested_lotterys_count.insert(sender, (ic + 1) as u64),
            invested_lotterys_index: s.invested_lotterys_index.insert((sender, id@), ic),
            lottery_invested_amount: total,
            ..s
        }
    }
}

/// A pending creation describes the lottery last written: it is stored with
/// that owner, expiry, bonus and minimum, it is the last among all lotteries,
/// among its owner's, and among those of its expiry block.
pub open spec fn pending_create_matches(s: RegistryState, p: PendingCreate) -> bool {
    let id = p.lottery_id@;
    &&& s.lotterys.contains_key(id)
    &&& s.lottery_owner.contains_key(id)
    &&& s.lottery_owner[id] == p.sender
    &&& s.lotterys[id].owner == p.sender
    &&& s.lotterys[id].expiry == p.expiry
    &&& s.lotterys[id].bonus == p.bonus
    &&& s.lotterys[id].min_invest == p.min_invest
    &&& p.all_count + 1 == s.all_lottery_count
    &&& s.all_lottery_array.contains_key(p.all_count)
    &&& s.all_lottery_array[p.all_count] == id
    &&& p.owned_count + 1 == s.owned_count(p.sender)
    &&& s.owned_lottery_array.contains_key((p.sender, p.owned_count))
    &&& s.owned_lottery_array[(p.sender, p.owned_count)] == id
    &&& s.expiring_at(p.expiry).len() > 0
    &&& s.expiring_at(p.expiry).last() == p.lottery_id
}

/// A pending investment is in a stored lottery that has an owner other than
/// the investor.
pub open spec fn pending_invest_matches(s: RegistryState, p: PendingInvest) -> bool {
    &&& s.lotterys.contains_key(p.lottery_id@)
    &&& s.lottery_owner.contains_key(p.lottery_id@)
    &&& s.lottery_owner[p.lottery_id@] != p.sender
}

/// The result and the new state of creating lottery `id` by `sender`, whose
/// free balance is `free_balance`, at block `now`.
pub open spec fn create_outcome(
    s: RegistryState,
    sender: AccountId,
    id: LotteryId,
    name: Seq<u8>,
    bonus: Balance,
    min_invest: Balance,
    expiry: BlockNumber,
    now: BlockNumber,
    free_balance: Balance,
) -> (Result<CreateStep, Error>, RegistryState) {
    match create_check(s, sender, id@, expiry, now) {
        Err(e) => (Err(e), s),
        Ok(_) => {
            let s1 = mint_records(s, sender, id, new_lottery(id@, sender, name, bonus, min_invest, expiry));
            let created = Ok(
                CreateStep::Created(Event::CreateLottery(sender, id, bonus, min_invest, expiry)),
            );
            if bonus > 0 {
                match invest_check(s1, sender, id@, bonus, free_balance, now) {
                    Err(_) => (
                        created,
                        mint_revert(
                            s1,
                            sender,
                            id,
                            expiry,
                            s.all_lottery_count,
                            s.owned_count(sender),
                        ).bump_nonce(),
                    ),
                    Ok(_) => (
                        Ok(
                            CreateStep::AwaitingReserve(
                                PendingCreate {
                                    sender,
                                    lottery_id: id,
                                    bonus,
                                    min_invest,
                                    expiry,
                                    all_count: s.all_lottery_count,
                                    owned_count: s.owned_count(sender),
                                },
                            ),
                        ),
                        s1,
                    ),
                }
            } else {
                (created, s1.bump_nonce())
            }
        },
    }
}

/// The state after a pending creation is completed: with the bonus invested
/// when it was reserved, undone when it was not; either way the nonce moves on.
pub open spec fn create_finish(s: RegistryState, p: PendingCreate, reserved: bool) -> RegistryState {
    if reserved {
        invest_apply(s, p.sender, p.lottery_id, p.bonus).bump_nonce()
    } else {
        mint_revert(s, p.sender, p.lottery_id, p.expiry, p.all_count, p.owned_count).bump_nonce()
    }
}

/// The answer to a request to invest `amount` in lottery `id`.
pub open spec fn invest_request(
    s: RegistryState,
    origin: Origin,
    id: LotteryId,
    amount: Balance,
    free_balance: Balance,
    now: BlockNumber,
) -> Result<PendingInvest, Error> {
    match signer(origin) {
        Err(e) => Err(e),
        Ok(sender) => if !s.lottery_owner.contains_key(id@) {
            Err(Error::NoOwner)
        } else if s.lottery_owner[id@] == sender {
            Err(Error::OwnLottery)
        } else {
            match invest_check(s, sender, id@, amount, free_balance, now) {
                Err(e) => Err(e),
                Ok(_) => Ok(PendingInvest { sender, lottery_id: id, amount }),
            }
        },
    }
}

/// The lottery marked as a success.
pub open spec fn with_success(l: LotteryView) -> LotteryView {
    LotteryView { status: 1, ..l }
}

/// The lotteries after each of `ids`, in order, is read (or defaulted) and
/// written back marked as a success.
pub open spec fn mark_finalized(m: Map<Seq<u8>, LotteryView>, ids: Seq<LotteryId>) -> Map<
    Seq<u8>,
    LotteryView,
>
    decreases ids.len(),
{
    if ids.len() == 0 {
        m
    } else {
        let before = mark_finalized(m, ids.drop_last());
        before.insert(
            ids.last()@,
            with_success(value_or(before, ids.last()@, default_lottery())),
        )
    }
}

/// What finalizing the lotteries that expire at `now` does to the state.
pub open spec fn finalize(s: RegistryState, now: BlockNumber) -> RegistryState {
    RegistryState { lotterys: mark_finalized(s.lotterys, s.expiring_at(now)), ..s }
}

/// The event reported for each lottery finalized at `now`.
pub open spec fn finalize_event(s: RegistryState, id: LotteryId, now: BlockNumber) -> Event {
    Event::FinalizeLottery(id, s.total_invested(id@), now, true)
}

} // verus!
