//! The lottery registry and the calls that change it.

use crate::model::{
    create_check, finalize, finalize_event, genesis, invest_apply, invest_check, invest_fits,
    mark_finalized, mint_records, mint_revert, new_lottery, pending_create_matches,
    pending_invest_matches, store_something, value_or,
    RegistryState,
};
use crate::outside::{
    blake2_256, blake2b_256, encode_seed_sender_nonce, random_below, seed_sender_nonce_encoding,
};
use crate::store::Store;
use crate::types::{
    ensure_signed, signer, zero_hash, zero_hash_value, AccountId, Balance, BlockNumber,
    CreateStep, Error, Event, Lottery, LotteryId, LotteryView, Origin, PendingCreate, PendingInvest,
    MAX_LOTTERY_PER_BLOCK,
};
use vstd::prelude::*;

verus! {

/// The registry: every storage item of the lottery module.
pub struct LuckyPlus {
    something: Option<u32>,
    lotterys: Store<LotteryId, Lottery>,
    lottery_owner: Store<LotteryId, AccountId>,
    all_lottery_array: Store<u64, LotteryId>,
    all_lottery_count: u64,
    all_lottery_index: Store<LotteryId, u64>,
    owned_lottery_array: Store<(AccountId, u64), LotteryId>,
    owned_lottery_count: Store<AccountId, u64>,
    owned_lottery_index: Store<(AccountId, LotteryId), u64>,
    invest_amount: Store<(LotteryId, AccountId), Balance>,
    invest_accounts: Store<LotteryId, Vec<AccountId>>,
    invest_accounts_count: Store<LotteryId, u64>,
    invested_lotterys_array: Store<(AccountId, u64), LotteryId>,
    invested_lotterys_count: Store<AccountId, u64>,
    invested_lotterys_index: Store<(AccountId, LotteryId), u64>,
    lottery_invested_amount: Store<LotteryId, Balance>,
    lotterys_by_block_number: Store<BlockNumber, Vec<LotteryId>>,
    nonce: u64,
}

impl View for LuckyPlus {
    type V = RegistryState;

    closed spec fn view(&self) -> RegistryState {
        RegistryState {
            something: self.something,
            lotterys: self.lotterys@,
            lottery_owner: self.lottery_owner@,
            all_lottery_array: self.all_lottery_array@,
            all_lottery_count: self.all_lottery_count,
            all_lottery_index: self.all_lottery_index@,
            owned_lottery_array: self.owned_lottery_array@,
            owned_lottery_count: self.owned_lottery_count@,
            owned_lottery_index: self.owned_lottery_index@,
            invest_amount: self.invest_amount@,
            invest_accounts: self.invest_accounts@,
            invest_accounts_count: self.invest_accounts_count@,
            invested_lotterys_array: self.invested_lotterys_array@,
            invested_lotterys_count: self.invested_lotterys_count@,
            invested_lotterys_index: self.invested_lotterys_index@,
            lottery_invested_amount: self.lottery_invested_amount@,
            lotterys_by_block_number: self.lotterys_by_block_number@,
            nonce: self.nonce,
        }
    }
}

impl LuckyPlus {
    /// Every storage map is well formed.
    pub closed spec fn wf(&self) -> bool {
        &&& self.lotterys.wf()
        &&& self.lottery_owner.wf()
        &&& self.all_lottery_array.wf()
        &&& self.all_lottery_index.wf()
        &&& self.owned_lottery_array.wf()
        &&& self.owned_lottery_count.wf()
        &&& self.owned_lottery_index.wf()
        &&& self.invest_amount.wf()
        &&& self.invest_accounts.wf()
        &&& self.invest_accounts_count.wf()
        &&& self.invested_lotterys_array.wf()
        &&& self.invested_lotterys_count.wf()
        &&& self.invested_lotterys_index.wf()
        &&& self.lottery_invested_amount.wf()
        &&& self.lotterys_by_block_number.wf()
    }

    /// The registry at genesis.
    pub fn new() -> (r: LuckyPlus)
        ensures
            r.wf(),
            r@ == genesis(),
    {
        let r = LuckyPlus {
            something: None,
            lotterys: Store::new(),
            lottery_owner: Store::new(),
            all_lottery_array: Store::new(),
            all_lottery_count: 0,
            all_lottery_index: Store::new(),
            owned_lottery_array: Store::new(),
            owned_lottery_count: Store::new(),
            owned_lottery_index: Store::new(),
            invest_amount: Store::new(),
            invest_accounts: Store::new(),
            invest_accounts_count: Store::new(),
            invested_lotterys_array: Store::new(),
            invested_lotterys_count: Store::new(),
            invested_lotterys_index: Store::new(),
            lottery_invested_amount: Store::new(),
            lotterys_by_block_number: Store::new(),
            nonce: 0,
        };
        assert(r@ =~= genesis());
        r
    }

    /// A signed call stores `something` and reports who stored it.
    pub fn do_something(&mut self, origin: Origin, something: u32) -> (r: Result<Event, Error>)
        requires
            old(self).wf(),
        ensures
            final(self).wf(),
            match signer(origin) {
                Ok(who) => r == Ok::<Event, Error>(Event::SomethingStored(something, who))
                    && final(self)@ == store_something(old(self)@, something),
                Err(e) => r == Err::<Event, Error>(e) && final(self)@ == old(self)@,
            },
            r is Ok ==> final(self)@.something == Some(something),
    {
        let who = match ensure_signed(origin) {
            Ok(who) => who,
            Err(e) => return Err(e),
        };
        self.something = Some(something);
        assert(self@ =~= store_something(old(self)@, something));
        Ok(Event::SomethingStored(something, who))
    }

    /// The checks of an investment of `amount` by `sender` in lottery
    /// `lottery_id`, made before any funds are reserved.
    pub fn invest_check(
        &self,
        sender: AccountId,
        lottery_id: &LotteryId,
        amount: Balance,
        free_balance: Balance,
        now: BlockNumber,
    ) -> (r: Result<(), Error>)
        requires
            self.wf(),
        ensures
            r == invest_check(self@, sender, lottery_id@, amount, free_balance, now),
            r is Ok ==> self@.lotterys.contains_key(lottery_id@) && now
                < self@.lotterys[lottery_id@].expiry && free_balance >= amount,
    {
        if !self.lotterys.contains_key(lottery_id) {
            return Err(Error::LotteryNotFound);
        }
        if !(free_balance >= amount) {
            return Err(Error::InsufficientFreeBalance);
        }
        let invested_count = self.invested_lotterys_count.get_or(&sender, 0);
        if invested_count == u64::MAX {
            return Err(Error::InvestedLotteryCountOverflow);
        }
        let investor_count = self.invest_accounts_count.get_or(lottery_id, 0);
        if investor_count == u64::MAX {
            return Err(Error::InvestorCountOverflow);
        }
        let expiry = match self.lotterys.get(lottery_id) {
            Some(l) => l.expiry,
            None => 0,
        };
        if !(now < expiry) {
            return Err(Error::LotteryExpired);
        }
        Ok(())
    }

    /// Records an investment whose funds have been reserved: the amount is
    /// added to the investor's and to the lottery's total, and a first
    /// investment lists the investor with the lottery and the lottery with
    /// the investor.
    fn invest_apply(&mut self, sender: AccountId, lottery_id: LotteryId, amount: Balance)
        requires
            old(self).wf(),
            invest_fits(old(self)@, sender, lottery_id@, amount),
        ensures
            final(self).wf(),
            final(self)@ == invest_apply(old(self)@, sender, lottery_id, amount),
    {
        let invested_count = self.invested_lotterys_count.get_or(&sender, 0);
        let investor_count = self.invest_accounts_count.get_or(&lottery_id, 0);
        let already = self.invest_amount.contains_key(&(lottery_id, sender));
        let before = self.invest_amount.get_or(&(lottery_id, sender), 0);
        self.invest_amount.insert((lottery_id, sender), before + amount);
        if !already {
            let mut accounts = match self.invest_accounts.remove(&lottery_id) {
                Some(v) => v,
                None => Vec::new(),
            };
            accounts.push(sender);
            self.invest_accounts.insert(lottery_id, accounts);
            self.invest_accounts_count.insert(lottery_id, investor_count + 1);
            self.invested_lotterys_array.insert((sender, invested_count), lottery_id);
            self.invested_lotterys_count.insert(sender, invested_count + 1);
            self.invested_lotterys_index.insert((sender, lottery_id), invested_count);
        }
        let total = self.lottery_invested_amount.get_or(&lottery_id, 0);
        self.lottery_invested_amount.insert(lottery_id, total + amount);
        assert(self@ =~= invest_apply(old(self)@, sender, lottery_id, amount));
    }

    /// Undoes the records of a creation whose bonus could not be invested.
    fn revert_mint(
        &mut self,
        sender: AccountId,
        lottery_id: LotteryId,
        expiry: BlockNumber,
        all_count: u64,
        owned_count: u64,
    )
        requires
            old(self).wf(),
        ensures
            final(self).wf(),
            final(self)@ == mint_revert(old(self)@, sender, lottery_id, expiry, all_count, owned_count),
    {
        self.lotterys.remove(&lottery_id);
        self.lottery_owner.remove(&lottery_id);
        let mut expiring = match self.lotterys_by_block_number.remove(&expiry) {
            Some(v) => v,
            None => Vec::new(),
        };
        expiring.pop();
        self.lotterys_by_block_number.insert(expiry, expiring);
        self.all_lottery_array.remove(&all_count);
        self.all_lottery_count = all_count;
        self.all_lottery_index.remove(&lottery_id);
        self.owned_lottery_array.remove(&(sender, owned_count));
        self.owned_lottery_count.insert(sender, owned_count);
        self.owned_lottery_index.remove(&(sender, lottery_id));
        assert(self@ =~= mint_revert(old(self)@, sender, lottery_id, expiry, all_count, owned_count));
    }

    /// Writes a new lottery into every registry. Where it carries a bonus,
    /// the owner invests the bonus as any investor would: the investment
    /// checks, then a reserve of the bonus (which the caller makes before
    /// `finish_create`), then the investment records. Where the checks fail,
    /// the creation is undone at once; where the reserve is refused,
    /// `finish_create` undoes it.
    fn mint(
        &mut self,
        sender: AccountId,
        lottery_id: LotteryId,
        expiry: BlockNumber,
        bonus: Balance,
        min_invest: Balance,
        new_lottery: Lottery,
        free_balance: Balance,
        now: BlockNumber,
    ) -> (r: Result<CreateStep, Error>)
        requires
            old(self).wf(),
            new_lottery@ == crate::model::new_lottery(
                lottery_id@,
                sender,
                new_lottery.name@,
                bonus,
                min_invest,
                expiry,
            ),
            create_check(old(self)@, sender, lottery_id@, expiry, now) is Ok,
            old(self)@.nonce < u64::MAX,
        ensures
            final(self).wf(),
            (r, final(self)@) == crate::model::create_outcome(
                old(self)@,
                sender,
                lottery_id,
                new_lottery.name@,
                bonus,
                min_invest,
                expiry,
                now,
                free_balance,
            ),
            r matches Ok(CreateStep::AwaitingReserve(p)) ==> pending_create_matches(final(self)@, p),
    {
        let ghost name = new_lottery.name@;
        let all_count = self.all_lottery_count;
        let owned_count = self.owned_lottery_count.get_or(&sender, 0);
        self.lotterys.insert(lottery_id, new_lottery);
        self.lottery_owner.insert(lottery_id, sender);
        let mut expiring = match self.lotterys_by_block_number.remove(&expiry) {
            Some(v) => v,
            None => Vec::new(),
        };
        expiring.push(lottery_id);
        self.lotterys_by_block_number.insert(expiry, expiring);
        self.all_lottery_array.insert(all_count, lottery_id);
        self.all_lottery_count = all_count + 1;
        self.all_lottery_index.insert(lottery_id, all_count);
        self.owned_lottery_array.insert((sender, owned_count), lottery_id);
        self.owned_lottery_count.insert(sender, owned_count + 1);
        self.owned_lottery_index.insert((sender, lottery_id), owned_count);
        let ghost s1 = mint_records(
            old(self)@,
            sender,
            lottery_id,
            crate::model::new_lottery(lottery_id@, sender, name, bonus, min_invest, expiry),
        );
        assert(self@ =~= s1);
        if bonus > 0 {
            match self.invest_check(sender, &lottery_id, bonus, free_balance, now) {
                Err(_) => {
                    self.revert_mint(sender, lottery_id, expiry, all_count, owned_count);
                },
                Ok(()) => {
                    return Ok(
                        CreateStep::AwaitingReserve(
                            PendingCreate {
                                sender,
                                lottery_id,
                                bonus,
                                min_invest,
                                expiry,
                                all_count,
                                owned_count,
                            },
                        ),
                    );
                },
            }
        }
        self.nonce = self.nonce + 1;
        Ok(CreateStep::Created(Event::CreateLottery(sender, lottery_id, bonus, min_invest, expiry)))
    }

    /// Creates lottery `lottery_id` for `sender`, at block `now`, where the
    /// free balance of `sender` is `free_balance`.
    pub fn create_lottery_with_id(
        &mut self,
        sender: AccountId,
        lottery_id: LotteryId,
        name: Vec<u8>,
        bonus: Balance,
        min_invest: Balance,
        expiry: BlockNumber,
        now: BlockNumber,
        free_balance: Balance,
    ) -> (r: Result<CreateStep, Error>)
        requires
            old(self).wf(),
            create_check(old(self)@, sender, lottery_id@, expiry, now) is Ok ==> old(self)@.nonce
                < u64::MAX,
        ensures
            final(self).wf(),
            (r, final(self)@) == crate::model::create_outcome(
                old(self)@,
                sender,
                lottery_id,
                name@,
                bonus,
                min_invest,
                expiry,
                now,
                free_balance,
            ),
            r matches Ok(CreateStep::AwaitingReserve(p)) ==> pending_create_matches(final(self)@, p),
            final(self)@.lotterys.contains_key(lottery_id@) && !old(self)@.lotterys.contains_key(
                lottery_id@,
            ) ==> final(self)@.lotterys[lottery_id@] == (LotteryView {
                id: lottery_id@,
                owner: sender,
                name: name@,
                bonus,
                min_invest,
                expiry,
                status: 0,
            }),
    {
        if self.lottery_owner.contains_key(&lottery_id) {
            return Err(Error::LotteryAlreadyExists);
        }
        let new_lottery = Lottery {
            id: lottery_id,
            owner: sender,
            name,
            bonus,
            min_invest,
            expiry,
            status: 0,
        };
        if !(expiry > now) {
            return Err(Error::ExpiryNotInFuture);
        }
        let expiring_len = match self.lotterys_by_block_number.get(&expiry) {
            Some(v) => v.len(),
            None => 0,
        };
        if !(expiring_len < MAX_LOTTERY_PER_BLOCK) {
            return Err(Error::TooManyLotterysAtBlock);
        }
        if self.all_lottery_count == u64::MAX {
            return Err(Error::AllLotteryCountOverflow);
        }
        if self.owned_lottery_count.get_or(&sender, 0) == u64::MAX {
            return Err(Error::OwnedLotteryCountOverflow);
        }
        self.mint(sender, lottery_id, expiry, bonus, min_invest, new_lottery, free_balance, now)
    }

    /// Completes a creation once the owner's bonus was reserved (`reserved`)
    /// or could not be (`!reserved`).
    pub fn finish_create(&mut self, pending: PendingCreate, reserved: bool) -> (r: Event)
        requires
            old(self).wf(),
            old(self)@.nonce < u64::MAX,
            pending_create_matches(old(self)@, pending),
            reserved ==> invest_fits(old(self)@, pending.sender, pending.lottery_id@, pending.bonus),
        ensures
            final(self).wf(),
            final(self)@ == crate::model::create_finish(old(self)@, pending, reserved),
            r == Event::CreateLottery(
                pending.sender,
                pending.lottery_id,
                pending.bonus,
                pending.min_invest,
                pending.expiry,
            ),
    {
        if reserved {
            self.invest_apply(pending.sender, pending.lottery_id, pending.bonus);
        } else {
            self.revert_mint(
                pending.sender,
                pending.lottery_id,
                pending.expiry,
                pending.all_count,
                pending.owned_count,
            );
        }
        self.nonce = self.nonce + 1;
        Event::CreateLottery(
            pending.sender,
            pending.lottery_id,
            pending.bonus,
            pending.min_invest,
            pending.expiry,
        )
    }

    /// The identifier of the lottery that `sender` creates with the given
    /// random seed and nonce: the BLAKE2b-256 digest of their encoding.
    pub fn lottery_id(random_seed: &LotteryId, sender: AccountId, nonce: u64) -> (r: LotteryId)
        ensures
            r@ == blake2b_256(seed_sender_nonce_encoding(random_seed@, sender, nonce)),
    {
        let encoded = encode_seed_sender_nonce(random_seed, sender, nonce);
        blake2_256(encoded.as_slice())
    }

    /// A signed call creates a lottery whose identifier is derived from the
    /// block's random seed, the signer and the nonce. `now` is the current
    /// block and `free_balance` the signer's free balance.
    pub fn create_lottery(
        &mut self,
        origin: Origin,
        random_seed: LotteryId,
        name: Vec<u8>,
        bonus: Balance,
        min_invest: Balance,
        expiry: BlockNumber,
        now: BlockNumber,
        free_balance: Balance,
    ) -> (r: Result<CreateStep, Error>)
        requires
            old(self).wf(),
            match signer(origin) {
                Ok(sender) => expiry > now && old(self)@.expiring_at(expiry).len()
                    < MAX_LOTTERY_PER_BLOCK && old(self)@.all_lottery_count < u64::MAX && old(
                    self,
                )@.owned_count(sender) < u64::MAX ==> old(self)@.nonce < u64::MAX,
                Err(_) => true,
            },
        ensures
            final(self).wf(),
            match signer(origin) {
                Err(e) => r == Err::<CreateStep, Error>(e) && final(self)@ == old(self)@,
                Ok(sender) => exists|id: LotteryId|
                    #![trigger id@]
                    id@ == blake2b_256(
                        seed_sender_nonce_encoding(random_seed@, sender, old(self)@.nonce),
                    ) && (r, final(self)@) == crate::model::create_outcome(
                        old(self)@,
                        sender,
                        id,
                        name@,
                        bonus,
                        min_invest,
                        expiry,
                        now,
                        free_balance,
                    ),
            },
    {
        let sender = match ensure_signed(origin) {
            Ok(who) => who,
            Err(e) => return Err(e),
        };
        let nonce = self.nonce;
        let lottery_id = Self::lottery_id(&random_seed, sender, nonce);
        let r = self.create_lottery_with_id(
            sender,
            lottery_id,
            name,
            bonus,
            min_invest,
            expiry,
            now,
            free_balance,
        );
        assert(lottery_id@ == blake2b_256(
            seed_sender_nonce_encoding(random_seed@, sender, old(self)@.nonce),
        ));
        r
    }

    /// A signed call asks to invest `amount` in lottery `lottery_id` at block
    /// `now`, where the signer's free balance is `free_balance`. Nothing is
    /// written: on success the funds must be reserved, then `finish_invest`
    /// records the investment.
    pub fn invest_lottery(
        &self,
        origin: Origin,
        lottery_id: LotteryId,
        amount: Balance,
        free_balance: Balance,
        now: BlockNumber,
    ) -> (r: Result<PendingInvest, Error>)
        requires
            self.wf(),
        ensures
            r == crate::model::invest_request(self@, origin, lottery_id, amount, free_balance, now),
            r is Ok ==> self@.lotterys.contains_key(lottery_id@) && now
                < self@.lotterys[lottery_id@].expiry && free_balance >= amount
                && self@.lottery_owner.contains_key(lottery_id@) && origin == Origin::Signed(
                r->Ok_0.sender,
            ) && self@.lottery_owner[lottery_id@] != r->Ok_0.sender,
    {
        let sender = match ensure_signed(origin) {
            Ok(who) => who,
            Err(e) => return Err(e),
        };
        let owner = match self.lottery_owner.get(&lottery_id) {
            Some(o) => *o,
            None => return Err(Error::NoOwner),
        };
        if owner == sender {
            return Err(Error::OwnLottery);
        }
        match self.invest_check(sender, &lottery_id, amount, free_balance, now) {
            Err(e) => Err(e),
            Ok(()) => Ok(PendingInvest { sender, lottery_id, amount }),
        }
    }

    /// Records an investment whose funds were reserved, and reports it.
    pub fn finish_invest(&mut self, pending: PendingInvest) -> (r: Event)
        requires
            old(self).wf(),
            pending_invest_matches(old(self)@, pending),
            invest_fits(old(self)@, pending.sender, pending.lottery_id@, pending.amount),
        ensures
            final(self).wf(),
            final(self)@ == invest_apply(
                old(self)@,
                pending.sender,
                pending.lottery_id,
                pending.amount,
            ),
            r == Event::InvestLottery(pending.lottery_id, pending.sender, pending.amount),
    {
        self.invest_apply(pending.sender, pending.lottery_id, pending.amount);
        Event::InvestLottery(pending.lottery_id, pending.sender, pending.amount)
    }

    /// Marks every lottery that expires at block `now` as a success, draws
    /// one of its investments at random, and reports each lottery with its
    /// total invested.
    pub fn finalize_lottery(&mut self, now: BlockNumber) -> (r: Vec<Event>)
        requires
            old(self).wf(),
            forall|j: int|
                0 <= j < old(self)@.expiring_at(now).len() ==> old(self)@.investor_count(
                    #[trigger] old(self)@.expiring_at(now)[j]@,
                ) > 0,
        ensures
            final(self).wf(),
            final(self)@ == finalize(old(self)@, now),
            r@.len() == old(self)@.expiring_at(now).len(),
            forall|j: int|
                0 <= j < r@.len() ==> #[trigger] r@[j] == finalize_event(
                    old(self)@,
                    old(self)@.expiring_at(now)[j],
                    now,
                ),
            forall|j: int|
                0 <= j < r@.len() ==> #[trigger] r@[j] == Event::FinalizeLottery(
                    old(self)@.expiring_at(now)[j],
                    value_or(
                        old(self)@.lottery_invested_amount,
                        old(self)@.expiring_at(now)[j]@,
                        0,
                    ),
                    now,
                    true,
                ),
    {
        let ghost ids_view = old(self)@.expiring_at(now);
        let ids: Vec<LotteryId> = match self.lotterys_by_block_number.get(&now) {
            Some(list) => copy_vec(list),
            None => Vec::new(),
        };
        assert(ids@ =~= ids_view);
        let mut events: Vec<Event> = Vec::new();
        let mut i: usize = 0;
        while i < ids.len()
            invariant
                self.wf(),
                i <= ids@.len(),
                ids@ == ids_view,
                ids_view == old(self)@.expiring_at(now),
                forall|j: int|
                    0 <= j < ids_view.len() ==> old(self)@.investor_count(
                        #[trigger] ids_view[j]@,
                    ) > 0,
                self@ == (RegistryState {
                    lotterys: mark_finalized(old(self)@.lotterys, ids_view.take(i as int)),
                    ..old(self)@
                }),
                events@.len() == i,
                forall|j: int|
                    0 <= j < i ==> #[trigger] events@[j] == finalize_event(
                        old(self)@,
                        ids_view[j],
                        now,
                    ),
            decreases ids@.len() - i,
        {
            let lottery_id = ids[i];
            let mut lottery = match self.lotterys.get(&lottery_id) {
                Some(l) => l.duplicate(),
                None => Lottery::empty(),
            };
            let amount_of_invested = self.lottery_invested_amount.get_or(&lottery_id, 0);
            lottery.status = 1;
            self.lotterys.insert(lottery_id, lottery);
            let invested_count = self.invest_accounts_count.get_or(&lottery_id, 0);
            assert(old(self)@.investor_count(ids_view[i as int]@) > 0);
            let _invested_index = random_below(invested_count);
            events.push(Event::FinalizeLottery(lottery_id, amount_of_invested, now, true));
            i = i + 1;
            assert(ids_view.take(i as int).drop_last() =~= ids_view.take(i - 1));
            assert(self@ =~= RegistryState {
                lotterys: mark_finalized(old(self)@.lotterys, ids_view.take(i as int)),
                ..old(self)@
            });
        }
        assert(ids_view.take(ids_view.len() as int) =~= ids_view);
        assert(self@ =~= finalize(old(self)@, now));
        events
    }

    /// The number of lotteries created so far, from which identifiers are derived.
    pub fn nonce(&self) -> (r: u64)
        ensures
            r == self@.nonce,
    {
        self.nonce
    }

    /// The stored value, if any.
    pub fn something(&self) -> (r: Option<u32>)
        ensures
            r == self@.something,
    {
        self.something
    }

    /// The lottery stored under `lottery_id`, or the default lottery.
    pub fn lottery_by_id(&self, lottery_id: LotteryId) -> (r: Lottery)
        requires
            self.wf(),
        ensures
            r@ == self@.lottery(lottery_id@),
            self@.lotterys.contains_key(lottery_id@) ==> r@ == self@.lotterys[lottery_id@],
            !self@.lotterys.contains_key(lottery_id@) ==> r.owner == 0 && r.bonus == 0
                && r.min_invest == 0 && r.expiry == 0 && r.status == 0 && r.name@.len() == 0
                && forall|i: int| 0 <= i < 32 ==> #[trigger] r.id@[i] == 0u8,
    {
        match self.lotterys.get(&lottery_id) {
            Some(l) => l.duplicate(),
            None => Lottery::empty(),
        }
    }

    /// The owner of lottery `lottery_id`, if it has one.
    pub fn owner_of(&self, lottery_id: LotteryId) -> (r: Option<AccountId>)
        requires
            self.wf(),
        ensures
            r == (if self@.lottery_owner.contains_key(lottery_id@) {
                Some(self@.lottery_owner[lottery_id@])
            } else {
                None
            }),
    {
        match self.lottery_owner.get(&lottery_id) {
            Some(o) => Some(*o),
            None => None,
        }
    }

    /// The lottery at place `index` among all lotteries, or the zero digest.
    pub fn lottery_by_index(&self, index: u64) -> (r: LotteryId)
        requires
            self.wf(),
        ensures
            r@ == value_or(self@.all_lottery_array, index, zero_hash()),
            self@.all_lottery_array.contains_key(index) ==> r@ == self@.all_lottery_array[index],
            !self@.all_lottery_array.contains_key(index) ==> forall|i: int| 0 <= i < 32 ==> #[trigger] r@[i] == 0u8,
    {
        let zero = zero_hash_value();
        self.all_lottery_array.get_or(&index, zero)
    }

    /// How many lotteries were created.
    pub fn all_lottery_count(&self) -> (r: u64)
        ensures
            r == self@.all_lottery_count,
    {
        self.all_lottery_count
    }

    /// The lottery at place `index` among those of `owner`, or the zero digest.
    pub fn lottery_of_owner_by_index(&self, owner: AccountId, index: u64) -> (r: LotteryId)
        requires
            self.wf(),
        ensures
            r@ == value_or(self@.owned_lottery_array, (owner, index), zero_hash()),
            self@.owned_lottery_array.contains_key((owner, index)) ==> r@ == self@.owned_lottery_array[(owner, index)],
            !self@.owned_lottery_array.contains_key((owner, index)) ==> forall|i: int| 0 <= i < 32 ==> #[trigger] r@[i] == 0u8,
    {
        let zero = zero_hash_value();
        self.owned_lottery_array.get_or(&(owner, index), zero)
    }

    /// How many lotteries `owner` has.
    pub fn owned_lottery_count(&self, owner: AccountId) -> (r: u64)
        requires
            self.wf(),
        ensures
            r == self@.owned_count(owner),
            r == value_or(self@.owned_lottery_count, owner, 0),
    {
        self.owned_lottery_count.get_or(&owner, 0)
    }

    /// The amount that `investor` has invested in lottery `lottery_id` in all.
    pub fn invest_amount_of(&self, lottery_id: LotteryId, investor: AccountId) -> (r: Balance)
        requires
            self.wf(),
        ensures
            r == value_or(self@.invest_amount, (lottery_id@, investor), 0),
    {
        self.invest_amount.get_or(&(lottery_id, investor), 0)
    }

    /// The accounts that invested in lottery `lottery_id`, in order.
    pub fn invest_accounts(&self, lottery_id: LotteryId) -> (r: Vec<AccountId>)
        requires
            self.wf(),
        ensures
            r@ == self@.investors(lottery_id@),
            r@ == value_or(self@.invest_accounts, lottery_id@, Seq::empty()),
    {
        match self.invest_accounts.get(&lottery_id) {
            Some(v) => copy_vec(v),
            None => Vec::new(),
        }
    }

    /// How many investments lottery `lottery_id` received.
    pub fn invest_accounts_count(&self, lottery_id: LotteryId) -> (r: u64)
        requires
            self.wf(),
        ensures
            r == self@.investor_count(lottery_id@),
            r == value_or(self@.invest_accounts_count, lottery_id@, 0),
    {
        self.invest_accounts_count.get_or(&lottery_id, 0)
    }

    /// The lottery of the investment at place `index` of `investor`, or the
    /// zero digest.
    pub fn invested_lottery_by_index(&self, investor: AccountId, index: u64) -> (r: LotteryId)
        requires
            self.wf(),
        ensures
            r@ == value_or(self@.invested_lotterys_array, (investor, index), zero_hash()),
            self@.invested_lotterys_array.contains_key((investor, index)) ==> r@ == self@.invested_lotterys_array[(investor, index)],
            !self@.invested_lotterys_array.contains_key((investor, index)) ==> forall|i: int| 0 <= i < 32 ==> #[trigger] r@[i] == 0u8,
    {
        let zero = zero_hash_value();
        self.invested_lotterys_array.get_or(&(investor, index), zero)
    }

    /// In how many investments `investor` took part.
    pub fn invested_lottery_count(&self, investor: AccountId) -> (r: u64)
        requires
            self.wf(),
        ensures
            r == self@.invested_count(investor),
            r == value_or(self@.invested_lotterys_count, investor, 0),
    {
        self.invested_lotterys_count.get_or(&investor, 0)
    }

    /// The total invested in lottery `lottery_id`.
    pub fn total_amount_of_invested(&self, lottery_id: LotteryId) -> (r: Balance)
        requires
            self.wf(),
        ensures
            r == self@.total_invested(lottery_id@),
            r == value_or(self@.lottery_invested_amount, lottery_id@, 0),
    {
        self.lottery_invested_amount.get_or(&lottery_id, 0)
    }

    /// The lotteries that expire at block `block`.
    pub fn lottery_expire_at(&self, block: BlockNumber) -> (r: Vec<LotteryId>)
        requires
            self.wf(),
        ensures
            r@ == self@.expiring_at(block),
            r@ == value_or(self@.lotterys_by_block_number, block, Seq::empty()),
    {
        match self.lotterys_by_block_number.get(&block) {
            Some(v) => copy_vec(v),
            None => Vec::new(),
        }
    }

    /// Whether lottery `lottery_id` is stored.
    pub fn is_lottery_exists(&self, lottery_id: LotteryId) -> (r: bool)
        requires
            self.wf(),
        ensures
            r == self@.lotterys.contains_key(lottery_id@),
    {
        self.lotterys.contains_key(&lottery_id)
    }

    /// The status of lottery `lottery_id`: 0 in process (or absent),
    /// 1 success, 2 failure.
    pub fn is_lottery_success(&self, lottery_id: LotteryId) -> (r: u64)
        requires
            self.wf(),
        ensures
            r == self@.lottery(lottery_id@).status,
            r == (if self@.lotterys.contains_key(lottery_id@) {
                self@.lotterys[lottery_id@].status
            } else {
                0
            }),
    {
        match self.lotterys.get(&lottery_id) {
            Some(l) => l.status,
            None => 0,
        }
    }

    /// The owner of lottery `lottery_id`, if it has one.
    pub fn get_lottery_owner(&self, lottery_id: LotteryId) -> (r: Option<AccountId>)
        requires
            self.wf(),
        ensures
            r == (if self@.lottery_owner.contains_key(lottery_id@) {
                Some(self@.lottery_owner[lottery_id@])
            } else {
                None
            }),
    {
        self.owner_of(lottery_id)
    }

    /// The total invested in lottery `lottery_id`.
    pub fn get_lottery_total_balance(&self, lottery_id: LotteryId) -> (r: Balance)
        requires
            self.wf(),
        ensures
            r == self@.total_invested(lottery_id@),
            r == value_or(self@.lottery_invested_amount, lottery_id@, 0),
    {
        self.total_amount_of_invested(lottery_id)
    }

    /// Whether `from` invested in lottery `lottery_id`.
    pub fn is_investor(&self, lottery_id: LotteryId, from: AccountId) -> (r: bool)
        requires
            self.wf(),
        ensures
            r == self@.invest_amount.contains_key((lottery_id@, from)),
    {
        self.invest_amount.contains_key(&(lottery_id, from))
    }

    /// How many investments lottery `lottery_id` received.
    pub fn get_invested_number(&self, lottery_id: LotteryId) -> (r: u64)
        requires
            self.wf(),
        ensures
            r == self@.investor_count(lottery_id@),
            r == value_or(self@.invest_accounts_count, lottery_id@, 0),
    {
        self.invest_accounts_count(lottery_id)
    }
}

/// A copy of the vector.
fn copy_vec<T: Copy>(v: &Vec<T>) -> (r: Vec<T>)
    ensures
        r@ == v@,
{
    let mut r: Vec<T> = Vec::new();
    let mut i: usize = 0;
    while i < v.len()
        invariant
            i <= v@.len(),
            r@ == v@.take(i as int),
        decreases v@.len() - i,
    {
        r.push(v[i]);
        i = i + 1;
        assert(r@ =~= v@.take(i as int));
    }
    assert(r@ =~= v@);
    r
}

} // verus!
