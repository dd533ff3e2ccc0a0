//! What every call keeps true of the registry, and what calls do together.

use crate::model::{
    create_check, create_finish, create_outcome, finalize, genesis, invest_apply, invest_fits,
    invest_request, invested_by, is_investor, mark_finalized, mint_records, mint_revert,
    new_lottery, pending_create_matches, pop_last, store_something, value_or, with_success,
    RegistryState,
};
use crate::types::{
    AccountId, Balance, BlockNumber, CreateStep, LotteryId, LotteryView, Origin, PendingCreate,
    MAX_LOTTERY_PER_BLOCK,
};
use vstd::prelude::*;

verus! {

/// Whether lottery `h` is among `ids`.
pub open spec fn listed(ids: Seq<LotteryId>, h: Seq<u8>) -> bool {
    exists|j: int| 0 <= j < ids.len() && (#[trigger] ids[j])@ == h
}

/// The sum of the amounts that the accounts `accts` invested in lottery `h`.
pub open spec fn sum_invested(
    amounts: Map<(Seq<u8>, AccountId), Balance>,
    h: Seq<u8>,
    accts: Seq<AccountId>,
) -> int
    decreases accts.len(),
{
    if accts.len() == 0 {
        0
    } else {
        sum_invested(amounts, h, accts.drop_last()) + value_or(amounts, (h, accts.last()), 0)
    }
}

/// The list of all lotteries runs from index 0 to the count, and the index
/// of each lottery points back at its place in that list.
pub open spec fn all_registry_consistent(s: RegistryState) -> bool {
    &&& forall|i: u64| #[trigger]
        s.all_lottery_array.contains_key(i) <==> i < s.all_lottery_count
    &&& forall|i: u64|
        #![trigger s.all_lottery_array[i]]
        i < s.all_lottery_count ==> s.all_lottery_index.contains_key(s.all_lottery_array[i])
            && s.all_lottery_index[s.all_lottery_array[i]] == i
    &&& forall|h: Seq<u8>| #[trigger]
        s.all_lottery_index.contains_key(h) ==> s.all_lottery_index[h] < s.all_lottery_count
            && s.all_lottery_array[s.all_lottery_index[h]] == h
}

/// The count of all lotteries is the number of stored lotteries; every
/// stored lottery has its owner recorded, carries its own identifier, has a
/// place in the list of all lotteries and in the list of its expiry block,
/// and is in process (0) or a success (1).
pub open spec fn lotteries_consistent(s: RegistryState) -> bool {
    &&& s.lotterys.dom().finite()
    &&& s.lotterys.dom().len() == s.all_lottery_count
    &&& forall|h: Seq<u8>| #[trigger]
        s.lotterys.contains_key(h) <==> s.lottery_owner.contains_key(h)
    &&& forall|h: Seq<u8>| #[trigger]
        s.lotterys.contains_key(h) <==> s.all_lottery_index.contains_key(h)
    &&& forall|h: Seq<u8>| #[trigger]
        s.lottery_owner.contains_key(h) ==> s.lotterys[h].owner == s.lottery_owner[h]
            && s.lotterys[h].id == h
    &&& forall|h: Seq<u8>| #[trigger]
        s.lotterys.contains_key(h) ==> s.lotterys[h].status <= 1 && listed(
            s.expiring_at(s.lotterys[h].expiry),
            h,
        )
}

/// No block has more than the maximum of expiring lotteries, and each one
/// listed there is stored with that block as its expiry.
pub open spec fn expiries_consistent(s: RegistryState) -> bool {
    &&& forall|b: BlockNumber| #[trigger] s.expiring_at(b).len() <= MAX_LOTTERY_PER_BLOCK
    &&& forall|b: BlockNumber, j: int|
        0 <= j < s.expiring_at(b).len() ==> s.lotterys.contains_key(
            #[trigger] s.expiring_at(b)[j]@,
        ) && s.lotterys[s.expiring_at(b)[j]@].expiry == b
}

/// Each lottery lists each of its investors once, counts them, records an
/// amount exactly for them, and its total is the sum of their amounts;
/// investments are recorded only for stored lotteries.
pub open spec fn investments_consistent(s: RegistryState) -> bool {
    &&& forall|h: Seq<u8>| #[trigger]
        s.invest_accounts_count.contains_key(h) <==> s.invest_accounts.contains_key(h)
    &&& forall|h: Seq<u8>| #[trigger]
        s.invest_accounts.contains_key(h) ==> s.invest_accounts_count[h] == s.invest_accounts[h].len()
            && s.lotterys.contains_key(h)
    &&& forall|h: Seq<u8>| #[trigger]
        s.lottery_invested_amount.contains_key(h) ==> s.lotterys.contains_key(h)
    &&& forall|h: Seq<u8>, a: AccountId|
        #![trigger s.invest_amount.contains_key((h, a))]
        #![trigger s.investors(h).contains(a)]
        s.invest_amount.contains_key((h, a)) <==> s.investors(h).contains(a)
    &&& forall|h: Seq<u8>| #[trigger] s.investors(h).no_duplicates()
    &&& forall|h: Seq<u8>| #[trigger]
        s.total_invested(h) == sum_invested(s.invest_amount, h, s.investors(h))
}

/// Each investor's list of lotteries runs from 0 to its count, and its index
/// of a lottery points back at the lottery's place in that list.
pub open spec fn investor_registry_consistent(s: RegistryState) -> bool {
    &&& forall|a: AccountId, i: u64| #[trigger]
        s.invested_lotterys_array.contains_key((a, i)) <==> i < s.invested_count(a)
    &&& forall|a: AccountId, h: Seq<u8>| #[trigger]
        s.invested_lotterys_index.contains_key((a, h)) ==> s.invested_lotterys_index[(a, h)]
            < s.invested_count(a) && s.invested_lotterys_array[(a, s.invested_lotterys_index[(
            a,
            h,
        )])] == h
}

/// Each owner's list of lotteries runs from 0 to its count, and its index of
/// a lottery points back at the lottery's place in that list.
pub open spec fn owner_registry_consistent(s: RegistryState) -> bool {
    &&& forall|a: AccountId, i: u64| #[trigger]
        s.owned_lottery_array.contains_key((a, i)) <==> i < s.owned_count(a)
    &&& forall|a: AccountId, h: Seq<u8>| #[trigger]
        s.owned_lottery_index.contains_key((a, h)) ==> s.owned_lottery_index[(a, h)] < s.owned_count(
            a,
        ) && s.owned_lottery_array[(a, s.owned_lottery_index[(a, h)])] == h
            && s.lotterys.contains_key(h)
}

/// The registry's storage items agree with each other.
pub open spec fn consistent(s: RegistryState) -> bool {
    &&& all_registry_consistent(s)
    &&& lotteries_consistent(s)
    &&& expiries_consistent(s)
    &&& investments_consistent(s)
    &&& investor_registry_consistent(s)
    &&& owner_registry_consistent(s)
}

/// The genesis state is consistent.
pub proof fn law_genesis_consistent()
    ensures
        consistent(genesis()),
{
    let g = genesis();
    assert(g.lotterys.dom() =~= Set::<Seq<u8>>::empty());
}

/// Changing the amount of an account that is not among `accts`, or of
/// another lottery, leaves the sum alone.
pub proof fn lemma_sum_unaffected(
    amounts: Map<(Seq<u8>, AccountId), Balance>,
    h: Seq<u8>,
    accts: Seq<AccountId>,
    k: (Seq<u8>, AccountId),
    v: Balance,
)
    requires
        !(k.0 == h && accts.contains(k.1)),
    ensures
        sum_invested(amounts.insert(k, v), h, accts) == sum_invested(amounts, h, accts),
    decreases accts.len(),
{
    if accts.len() > 0 {
        let rest = accts.drop_last();
        assert(!(k.0 == h && rest.contains(k.1))) by {
            if k.0 == h && rest.contains(k.1) {
                let j = choose|j: int| 0 <= j < rest.len() && rest[j] == k.1;
                assert(accts[j] == k.1);
            }
        }
        lemma_sum_unaffected(amounts, h, rest, k, v);
        assert(accts[accts.len() - 1] == accts.last());
        assert((h, accts.last()) != k);
    }
}

/// Adding `d` to the amount of an account listed once among `accts` adds
/// `d` to the sum.
pub proof fn lemma_sum_bump(
    amounts: Map<(Seq<u8>, AccountId), Balance>,
    h: Seq<u8>,
    accts: Seq<AccountId>,
    a: AccountId,
    d: Balance,
)
    requires
        accts.no_duplicates(),
        accts.contains(a),
        value_or(amounts, (h, a), 0) + d <= u64::MAX,
    ensures
        sum_invested(
            amounts.insert((h, a), (value_or(amounts, (h, a), 0) + d) as u64),
            h,
            accts,
        ) == sum_invested(amounts, h, accts) + d,
    decreases accts.len(),
{
    let rest = accts.drop_last();
    let v = (value_or(amounts, (h, a), 0) + d) as u64;
    if accts.last() == a {
        assert(!rest.contains(a)) by {
            if rest.contains(a) {
                let j = choose|j: int| 0 <= j < rest.len() && rest[j] == a;
                assert(accts[j] == accts[accts.len() - 1]);
            }
        }
        lemma_sum_unaffected(amounts, h, rest, (h, a), v);
    } else {
        assert(rest.contains(a)) by {
            let j = choose|j: int| 0 <= j < accts.len() && accts[j] == a;
            assert(j != accts.len() - 1);
            assert(rest[j] == a);
        }
        assert(rest.no_duplicates()) by {
            assert forall|i: int, j: int| 0 <= i < rest.len() && 0 <= j < rest.len() && i != j implies rest[i]
                != rest[j] by {
                assert(rest[i] == accts[i] && rest[j] == accts[j]);
            }
        }
        lemma_sum_bump(amounts, h, rest, a, d);
    }
}

/// Investments stay consistent through any change that leaves the
/// investment records alone and keeps every stored lottery stored.
pub proof fn lemma_investments_frame(s: RegistryState, t: RegistryState)
    requires
        investments_consistent(s),
        t.invest_amount == s.invest_amount,
        t.invest_accounts == s.invest_accounts,
        t.invest_accounts_count == s.invest_accounts_count,
        t.lottery_invested_amount == s.lottery_invested_amount,
        forall|h: Seq<u8>| s.lotterys.contains_key(h) ==> #[trigger] t.lotterys.contains_key(h),
    ensures
        investments_consistent(t),
{
    assert forall|h: Seq<u8>| #[trigger]
        t.total_invested(h) == sum_invested(t.invest_amount, h, t.investors(h)) by {
        assert(s.total_invested(h) == sum_invested(s.invest_amount, h, s.investors(h)));
    }
    assert forall|h: Seq<u8>| #[trigger] t.investors(h).no_duplicates() by {
        assert(s.investors(h).no_duplicates());
    }
    assert forall|h: Seq<u8>, a: AccountId|
        #![trigger t.invest_amount.contains_key((h, a))]
        #![trigger t.investors(h).contains(a)]
        t.invest_amount.contains_key((h, a)) <==> t.investors(h).contains(a) by {
        assert(s.invest_amount.contains_key((h, a)) <==> s.investors(h).contains(a));
    }
    assert forall|h: Seq<u8>| #[trigger] t.invest_accounts.contains_key(h) implies t.invest_accounts_count[h]
        == t.invest_accounts[h].len() && t.lotterys.contains_key(h) by {
        assert(s.invest_accounts.contains_key(h));
    }
    assert forall|h: Seq<u8>| #[trigger] t.lottery_invested_amount.contains_key(h) implies t.lotterys.contains_key(h) by {
        assert(s.lottery_invested_amount.contains_key(h));
    }
}

/// Recording an investment in a stored lottery keeps the registry consistent.
pub proof fn lemma_invest_apply_consistent(
    s: RegistryState,
    sender: AccountId,
    id: LotteryId,
    amount: Balance,
)
    requires
        consistent(s),
        s.lotterys.contains_key(id@),
        invest_fits(s, sender, id@, amount),
    ensures
        consistent(invest_apply(s, sender, id, amount)),
{
    let t = invest_apply(s, sender, id, amount);
    let k = (id@, sender);
    let v = (invested_by(s, id@, sender) + amount) as u64;
    assert(t.invest_amount == s.invest_amount.insert(k, v));
    assert(expiries_consistent(t)) by {
        assert forall|b: BlockNumber| #[trigger] t.expiring_at(b) == s.expiring_at(b) by {}
    }
    assert(lotteries_consistent(t)) by {
        assert forall|b: BlockNumber| #[trigger] t.expiring_at(b) == s.expiring_at(b) by {}
    }
    if is_investor(s, id@, sender) {
        assert(s.investors(id@).contains(sender));
        assert forall|h: Seq<u8>| #[trigger]
            t.total_invested(h) == sum_invested(t.invest_amount, h, t.investors(h)) by {
            assert(t.investors(h) == s.investors(h));
            assert(s.total_invested(h) == sum_invested(s.invest_amount, h, s.investors(h)));
            if h == id@ {
                lemma_sum_bump(s.invest_amount, h, s.investors(h), sender, amount);
            } else {
                lemma_sum_unaffected(s.invest_amount, h, s.investors(h), k, v);
            }
        }
        assert forall|h: Seq<u8>, a: AccountId|
            #![trigger t.invest_amount.contains_key((h, a))]
            #![trigger t.investors(h).contains(a)]
            t.invest_amount.contains_key((h, a)) <==> t.investors(h).contains(a) by {
            assert(t.investors(h) == s.investors(h));
            assert(s.invest_amount.contains_key((h, a)) <==> s.investors(h).contains(a));
        }
        assert forall|h: Seq<u8>| #[trigger] t.investors(h).no_duplicates() by {
            assert(t.investors(h) == s.investors(h));
        }
    } else {
        assert(!s.investors(id@).contains(sender));
        let old_list = s.investors(id@);
        let new_list = old_list.push(sender);
        assert(t.investors(id@) == new_list);
        assert forall|h: Seq<u8>| #[trigger]
            t.total_invested(h) == sum_invested(t.invest_amount, h, t.investors(h)) by {
            assert(s.total_invested(h) == sum_invested(s.invest_amount, h, s.investors(h)));
            if h == id@ {
                lemma_sum_unaffected(s.invest_amount, h, old_list, k, v);
                assert(new_list.drop_last() =~= old_list);
                assert(value_or(t.invest_amount, (h, new_list.last()), 0) == v);
                assert(!s.invest_amount.contains_key(k));
            } else {
                assert(t.investors(h) == s.investors(h));
                lemma_sum_unaffected(s.invest_amount, h, s.investors(h), k, v);
            }
        }
        assert forall|h: Seq<u8>, a: AccountId|
            #![trigger t.invest_amount.contains_key((h, a))]
            #![trigger t.investors(h).contains(a)]
            t.invest_amount.contains_key((h, a)) <==> t.investors(h).contains(a) by {
            assert(s.invest_amount.contains_key((h, a)) <==> s.investors(h).contains(a));
            if h == id@ {
                if new_list.contains(a) && a != sender {
                    let j = choose|j: int| 0 <= j < new_list.len() && new_list[j] == a;
                    assert(old_list[j] == a);
                }
                if old_list.contains(a) {
                    let j = choose|j: int| 0 <= j < old_list.len() && old_list[j] == a;
                    assert(new_list[j] == a);
                }
                assert(new_list[new_list.len() - 1] == sender);
            } else {
                assert(t.investors(h) == s.investors(h));
            }
        }
        assert forall|h: Seq<u8>| #[trigger] t.investors(h).no_duplicates() by {
            if h == id@ {
                assert forall|i: int, j: int|
                    0 <= i < new_list.len() && 0 <= j < new_list.len() && i != j implies new_list[i]
                    != new_list[j] by {
                    assert(old_list.no_duplicates());
                    if i == old_list.len() as int {
                        assert(old_list[j] == new_list[j]);
                        if new_list[i] == new_list[j] {
                            assert(old_list.contains(sender));
                        }
                    } else if j == old_list.len() as int {
                        assert(old_list[i] == new_list[i]);
                        if new_list[i] == new_list[j] {
                            assert(old_list.contains(sender));
                        }
                    } else {
                        assert(old_list[i] == new_list[i] && old_list[j] == new_list[j]);
                    }
                }
            } else {
                assert(t.investors(h) == s.investors(h));
            }
        }
        let ic = s.invested_count(sender);
        assert(!s.invested_lotterys_array.contains_key((sender, ic)));
    }
}

/// Writing a new lottery that passed the creation checks keeps the registry
/// consistent.
pub proof fn lemma_mint_records_consistent(
    s: RegistryState,
    sender: AccountId,
    id: LotteryId,
    name: Seq<u8>,
    bonus: Balance,
    min_invest: Balance,
    expiry: BlockNumber,
    now: BlockNumber,
)
    requires
        consistent(s),
        create_check(s, sender, id@, expiry, now) is Ok,
    ensures
        consistent(
            mint_records(s, sender, id, new_lottery(id@, sender, name, bonus, min_invest, expiry)),
        ),
{
    let l = new_lottery(id@, sender, name, bonus, min_invest, expiry);
    let t = mint_records(s, sender, id, l);
    let c = s.all_lottery_count;
    assert(!s.lotterys.contains_key(id@));
    assert(!s.all_lottery_index.contains_key(id@));
    assert(!s.all_lottery_array.contains_key(c));
    assert(all_registry_consistent(t)) by {
        assert forall|i: u64| i < t.all_lottery_count implies t.all_lottery_index.contains_key(
            #[trigger] t.all_lottery_array[i],
        ) && t.all_lottery_index[t.all_lottery_array[i]] == i by {
            if i != c {
                assert(s.all_lottery_array.contains_key(i));
                assert(s.all_lottery_array[i] != id@);
            }
        }
    }
    assert(expiries_consistent(t)) by {
        assert forall|b: BlockNumber, j: int|
            0 <= j < t.expiring_at(b).len() implies t.lotterys.contains_key(
            #[trigger] t.expiring_at(b)[j]@,
        ) && t.lotterys[t.expiring_at(b)[j]@].expiry == b by {
            if b == expiry {
                if j < s.expiring_at(b).len() {
                    assert(t.expiring_at(b)[j] == s.expiring_at(b)[j]);
                    assert(s.lotterys.contains_key(s.expiring_at(b)[j]@));
                }
            } else {
                assert(t.expiring_at(b) == s.expiring_at(b));
                assert(s.lotterys.contains_key(s.expiring_at(b)[j]@));
            }
        }
        assert forall|b: BlockNumber| #[trigger] t.expiring_at(b).len() <= MAX_LOTTERY_PER_BLOCK by {
            if b != expiry {
                assert(t.expiring_at(b) == s.expiring_at(b));
            }
        }
    }
    assert(lotteries_consistent(t)) by {
        assert(t.lotterys.dom() =~= s.lotterys.dom().insert(id@));
        assert forall|h: Seq<u8>| #[trigger] t.lotterys.contains_key(h) implies t.lotterys[h].status
            <= 1 && listed(t.expiring_at(t.lotterys[h].expiry), h) by {
            let b = t.lotterys[h].expiry;
            if h == id@ {
                let j = s.expiring_at(expiry).len() as int;
                assert(t.expiring_at(b)[j] == id);
            } else {
                assert(s.lotterys.contains_key(h));
                let j = choose|j: int|
                    0 <= j < s.expiring_at(b).len() && (#[trigger] s.expiring_at(b)[j])@ == h;
                assert(t.expiring_at(b)[j] == s.expiring_at(b)[j]);
            }
        }
    }
    lemma_investments_frame(s, t);
    let oc = s.owned_count(sender);
    assert(!s.owned_lottery_array.contains_key((sender, oc)));
    assert(owner_registry_consistent(t)) by {
        assert forall|a: AccountId, h: Seq<u8>| #[trigger]
            t.owned_lottery_index.contains_key((a, h)) implies t.owned_lottery_index[(a, h)]
            < t.owned_count(a) && t.owned_lottery_array[(a, t.owned_lottery_index[(a, h)])] == h
            && t.lotterys.contains_key(h) by {
            if (a, h) != (sender, id@) {
                assert(s.owned_lottery_index.contains_key((a, h)));
            }
        }
    }
}

/// Undoing the records of a lottery that was just written gives the state
/// before it back, except that the owner's count and the list of the expiry
/// block are now stored even where they were absent (with the same value).
pub proof fn lemma_mint_revert_restores(
    s: RegistryState,
    sender: AccountId,
    id: LotteryId,
    name: Seq<u8>,
    bonus: Balance,
    min_invest: Balance,
    expiry: BlockNumber,
    now: BlockNumber,
)
    requires
        consistent(s),
        create_check(s, sender, id@, expiry, now) is Ok,
    ensures
        ({
            let t = mint_revert(
                mint_records(
                    s,
                    sender,
                    id,
                    new_lottery(id@, sender, name, bonus, min_invest, expiry),
                ),
                sender,
                id,
                expiry,
                s.all_lottery_count,
                s.owned_count(sender),
            );
            &&& t == RegistryState {
                owned_lottery_count: s.owned_lottery_count.insert(sender, s.owned_count(sender)),
                lotterys_by_block_number: s.lotterys_by_block_number.insert(
                    expiry,
                    s.expiring_at(expiry),
                ),
                ..s
            }
            &&& consistent(t)
        }),
{
    let l = new_lottery(id@, sender, name, bonus, min_invest, expiry);
    let r = mint_records(s, sender, id, l);
    let c = s.all_lottery_count;
    let oc = s.owned_count(sender);
    let t = mint_revert(r, sender, id, expiry, c, oc);
    assert(!s.lotterys.contains_key(id@));
    assert(!s.lottery_owner.contains_key(id@));
    assert(!s.all_lottery_index.contains_key(id@));
    assert(!s.all_lottery_array.contains_key(c));
    assert(!s.owned_lottery_array.contains_key((sender, oc)));
    assert(!s.owned_lottery_index.contains_key((sender, id@))) by {
        if s.owned_lottery_index.contains_key((sender, id@)) {
            assert(s.owned_lottery_array.contains_key((sender, s.owned_lottery_index[(sender, id@)])));
        }
    }
    assert(r.expiring_at(expiry) == s.expiring_at(expiry).push(id));
    assert(pop_last(r.expiring_at(expiry)) =~= s.expiring_at(expiry));
    assert(t.lotterys =~= s.lotterys);
    assert(t.lottery_owner =~= s.lottery_owner);
    assert(t.all_lottery_array =~= s.all_lottery_array);
    assert(t.all_lottery_index =~= s.all_lottery_index);
    assert(t.owned_lottery_array =~= s.owned_lottery_array);
    assert(t.owned_lottery_index =~= s.owned_lottery_index);
    assert(t.owned_lottery_count =~= s.owned_lottery_count.insert(sender, oc));
    assert(t.lotterys_by_block_number =~= s.lotterys_by_block_number.insert(
        expiry,
        s.expiring_at(expiry),
    ));
    assert(t =~= RegistryState {
        owned_lottery_count: s.owned_lottery_count.insert(sender, oc),
        lotterys_by_block_number: s.lotterys_by_block_number.insert(expiry, s.expiring_at(expiry)),
        ..s
    });
    assert forall|b: BlockNumber| #[trigger] t.expiring_at(b) == s.expiring_at(b) by {}
    assert forall|a: AccountId| #[trigger] t.owned_count(a) == s.owned_count(a) by {}
    assert(expiries_consistent(t));
    assert(lotteries_consistent(t));
    lemma_investments_frame(s, t);
    assert(owner_registry_consistent(t));
}

/// Marking the lotteries of `ids`, all stored, as successes changes nothing
/// else: the same lotteries are stored, those listed now marked, the others
/// untouched.
pub proof fn lemma_mark_finalized(m: Map<Seq<u8>, LotteryView>, ids: Seq<LotteryId>)
    requires
        forall|j: int| 0 <= j < ids.len() ==> m.contains_key(#[trigger] ids[j]@),
    ensures
        mark_finalized(m, ids).dom() == m.dom(),
        forall|h: Seq<u8>|
            m.contains_key(h) ==> #[trigger] mark_finalized(m, ids)[h] == (if listed(ids, h) {
                with_success(m[h])
            } else {
                m[h]
            }),
    decreases ids.len(),
{
    if ids.len() > 0 {
        let rest = ids.drop_last();
        let last = ids.last();
        assert forall|j: int| 0 <= j < rest.len() implies m.contains_key(#[trigger] rest[j]@) by {
            assert(rest[j] == ids[j]);
        }
        lemma_mark_finalized(m, rest);
        assert(m.contains_key(ids[ids.len() - 1]@));
        assert(mark_finalized(m, ids).dom() =~= m.dom());
        assert forall|h: Seq<u8>| m.contains_key(h) implies #[trigger] mark_finalized(m, ids)[h] == (
        if listed(ids, h) {
            with_success(m[h])
        } else {
            m[h]
        }) by {
            if h == last@ {
                assert(ids[ids.len() - 1]@ == h);
                assert(listed(ids, h));
            } else {
                if listed(ids, h) {
                    let j = choose|j: int| 0 <= j < ids.len() && (#[trigger] ids[j])@ == h;
                    assert(rest[j] == ids[j]);
                    assert(listed(rest, h));
                }
                if listed(rest, h) {
                    let j = choose|j: int| 0 <= j < rest.len() && (#[trigger] rest[j])@ == h;
                    assert(rest[j] == ids[j]);
                    assert(listed(ids, h));
                }
            }
        }
    }
}

/// In a consistent registry a lottery is among those of block `now` exactly
/// when its expiry is `now`.
pub proof fn lemma_listed_iff_expiring(s: RegistryState, now: BlockNumber, h: Seq<u8>)
    requires
        consistent(s),
        s.lotterys.contains_key(h),
    ensures
        listed(s.expiring_at(now), h) <==> s.lotterys[h].expiry == now,
{
    if listed(s.expiring_at(now), h) {
        let j = choose|j: int|
            0 <= j < s.expiring_at(now).len() && (#[trigger] s.expiring_at(now)[j])@ == h;
        assert(s.lotterys[s.expiring_at(now)[j]@].expiry == now);
    }
}

/// Finalizing the block `now` keeps the registry consistent.
pub proof fn law_finalize_keeps_consistency(s: RegistryState, now: BlockNumber)
    requires
        consistent(s),
    ensures
        consistent(finalize(s, now)),
{
    let ids = s.expiring_at(now);
    assert forall|j: int| 0 <= j < ids.len() implies s.lotterys.contains_key(#[trigger] ids[j]@) by {}
    lemma_mark_finalized(s.lotterys, ids);
    let t = finalize(s, now);
    assert(t.lotterys.dom() == s.lotterys.dom());
    assert(forall|h: Seq<u8>| #[trigger] t.lotterys.contains_key(h) <==> s.lotterys.contains_key(h));
    assert forall|b: BlockNumber| #[trigger] t.expiring_at(b) == s.expiring_at(b) by {}
    assert(lotteries_consistent(t)) by {
        assert forall|h: Seq<u8>| #[trigger] t.lottery_owner.contains_key(h) implies t.lotterys[h].owner
            == t.lottery_owner[h] && t.lotterys[h].id == h by {
            assert(t.lotterys[h] == mark_finalized(s.lotterys, ids)[h]);
        }
        assert forall|h: Seq<u8>| #[trigger] t.lotterys.contains_key(h) implies t.lotterys[h].status
            <= 1 && listed(t.expiring_at(t.lotterys[h].expiry), h) by {
            assert(t.lotterys[h] == mark_finalized(s.lotterys, ids)[h]);
            assert(t.lotterys[h].expiry == s.lotterys[h].expiry);
        }
    }
    assert(expiries_consistent(t)) by {
        assert forall|b: BlockNumber, j: int|
            0 <= j < t.expiring_at(b).len() implies t.lotterys.contains_key(
            #[trigger] t.expiring_at(b)[j]@,
        ) && t.lotterys[t.expiring_at(b)[j]@].expiry == b by {
            let h = s.expiring_at(b)[j]@;
            assert(s.lotterys.contains_key(h));
            assert(t.lotterys[h] == mark_finalized(s.lotterys, ids)[h]);
        }
    }
    lemma_investments_frame(s, t);
}

/// Storing a value keeps the registry consistent.
pub proof fn law_do_something_keeps_consistency(s: RegistryState, value: u32)
    requires
        consistent(s),
    ensures
        consistent(store_something(s, value)),
{
    let t = store_something(s, value);
    assert forall|b: BlockNumber| #[trigger] t.expiring_at(b) == s.expiring_at(b) by {}
    lemma_investments_frame(s, t);
}

/// Moving the nonce on keeps every agreement between storage items.
pub proof fn lemma_bump_nonce_consistent(s: RegistryState)
    ensures
        consistent(s) ==> consistent(s.bump_nonce()),
{
    let t = s.bump_nonce();
    assert forall|b: BlockNumber| #[trigger] t.expiring_at(b) == s.expiring_at(b) by {}
    if consistent(s) {
        lemma_investments_frame(s, t);
    }
}

/// Creating a lottery keeps the registry consistent, whether the creation is
/// refused, completed, waiting for its bonus, or undone.
pub proof fn law_create_keeps_consistency(
    s: RegistryState,
    sender: AccountId,
    id: LotteryId,
    name: Seq<u8>,
    bonus: Balance,
    min_invest: Balance,
    expiry: BlockNumber,
    now: BlockNumber,
    free_balance: Balance,
)
    requires
        consistent(s),
    ensures
        consistent(
            create_outcome(s, sender, id, name, bonus, min_invest, expiry, now, free_balance).1,
        ),
{
    if create_check(s, sender, id@, expiry, now) is Ok {
        lemma_mint_records_consistent(s, sender, id, name, bonus, min_invest, expiry, now);
        lemma_mint_revert_restores(s, sender, id, name, bonus, min_invest, expiry, now);
        let s1 = mint_records(s, sender, id, new_lottery(id@, sender, name, bonus, min_invest, expiry));
        lemma_bump_nonce_consistent(s1);
        lemma_bump_nonce_consistent(
            mint_revert(s1, sender, id, expiry, s.all_lottery_count, s.owned_count(sender)),
        );
    }
}

/// Completing a creation that waited for the owner's bonus keeps the
/// registry consistent, whether the bonus was reserved or not.
pub proof fn law_finish_create_keeps_consistency(
    s: RegistryState,
    sender: AccountId,
    id: LotteryId,
    name: Seq<u8>,
    bonus: Balance,
    min_invest: Balance,
    expiry: BlockNumber,
    now: BlockNumber,
    free_balance: Balance,
    pending: PendingCreate,
    reserved: bool,
)
    requires
        consistent(s),
        create_outcome(s, sender, id, name, bonus, min_invest, expiry, now, free_balance).0 == Ok::<
            CreateStep,
            crate::types::Error,
        >(CreateStep::AwaitingReserve(pending)),
        reserved ==> invest_fits(
            create_outcome(s, sender, id, name, bonus, min_invest, expiry, now, free_balance).1,
            pending.sender,
            pending.lottery_id@,
            pending.bonus,
        ),
    ensures
        consistent(
            create_finish(
                create_outcome(s, sender, id, name, bonus, min_invest, expiry, now, free_balance).1,
                pending,
                reserved,
            ),
        ),
{
    lemma_mint_records_consistent(s, sender, id, name, bonus, min_invest, expiry, now);
    lemma_mint_revert_restores(s, sender, id, name, bonus, min_invest, expiry, now);
    let s1 = mint_records(s, sender, id, new_lottery(id@, sender, name, bonus, min_invest, expiry));
    if reserved {
        lemma_invest_apply_consistent(s1, sender, id, bonus);
        lemma_bump_nonce_consistent(invest_apply(s1, sender, id, bonus));
    } else {
        lemma_bump_nonce_consistent(
            mint_revert(s1, sender, id, expiry, s.all_lottery_count, s.owned_count(sender)),
        );
    }
}

/// Recording an investment that the registry accepted keeps it consistent.
pub proof fn law_invest_keeps_consistency(
    s: RegistryState,
    origin: Origin,
    id: LotteryId,
    amount: Balance,
    free_balance: Balance,
    now: BlockNumber,
)
    requires
        consistent(s),
        invest_request(s, origin, id, amount, free_balance, now) is Ok,
        invest_fits(
            s,
            invest_request(s, origin, id, amount, free_balance, now)->Ok_0.sender,
            id@,
            amount,
        ),
    ensures
        consistent(
            invest_apply(
                s,
                invest_request(s, origin, id, amount, free_balance, now)->Ok_0.sender,
                id,
                amount,
            ),
        ),
{
    let sender = invest_request(s, origin, id, amount, free_balance, now)->Ok_0.sender;
    lemma_invest_apply_consistent(s, sender, id, amount);
}

/// A refused creation changes nothing.
pub proof fn law_refused_create_changes_nothing(
    s: RegistryState,
    sender: AccountId,
    id: LotteryId,
    name: Seq<u8>,
    bonus: Balance,
    min_invest: Balance,
    expiry: BlockNumber,
    now: BlockNumber,
    free_balance: Balance,
)
    requires
        create_outcome(s, sender, id, name, bonus, min_invest, expiry, now, free_balance).0 is Err,
    ensures
        create_outcome(s, sender, id, name, bonus, min_invest, expiry, now, free_balance).1 == s,
{
}

/// Every completed creation advances the nonce by exactly one, whether its
/// bonus was invested or undone; a creation that waits for its bonus leaves
/// the nonce alone until it is completed.
pub proof fn law_nonce_counts_creations(
    s: RegistryState,
    sender: AccountId,
    id: LotteryId,
    name: Seq<u8>,
    bonus: Balance,
    min_invest: Balance,
    expiry: BlockNumber,
    now: BlockNumber,
    free_balance: Balance,
    pending: PendingCreate,
    reserved: bool,
)
    requires
        s.nonce < u64::MAX,
    ensures
        ({
            let (r, t) = create_outcome(s, sender, id, name, bonus, min_invest, expiry, now, free_balance);
            &&& r matches Ok(CreateStep::Created(_)) ==> t.nonce == s.nonce + 1
            &&& r matches Ok(CreateStep::AwaitingReserve(_)) ==> t.nonce == s.nonce
            &&& r is Err ==> t.nonce == s.nonce
        }),
        create_finish(s, pending, reserved).nonce == s.nonce + 1,
{
}

/// An undone creation leaves every lottery, every registry and every count
/// as it was before the creation.
pub proof fn law_undone_creation_restores(
    s: RegistryState,
    sender: AccountId,
    id: LotteryId,
    name: Seq<u8>,
    bonus: Balance,
    min_invest: Balance,
    expiry: BlockNumber,
    now: BlockNumber,
    free_balance: Balance,
)
    requires
        consistent(s),
        create_check(s, sender, id@, expiry, now) is Ok,
    ensures
        ({
            let t = mint_revert(
                mint_records(
                    s,
                    sender,
                    id,
                    new_lottery(id@, sender, name, bonus, min_invest, expiry),
                ),
                sender,
                id,
                expiry,
                s.all_lottery_count,
                s.owned_count(sender),
            );
            &&& t.lotterys == s.lotterys
            &&& t.lottery_owner == s.lottery_owner
            &&& t.all_lottery_array == s.all_lottery_array
            &&& t.all_lottery_count == s.all_lottery_count
            &&& t.all_lottery_index == s.all_lottery_index
            &&& t.owned_lottery_array == s.owned_lottery_array
            &&& t.owned_lottery_index == s.owned_lottery_index
            &&& forall|a: AccountId| #[trigger] t.owned_count(a) == s.owned_count(a)
            &&& forall|b: BlockNumber| #[trigger] t.expiring_at(b) == s.expiring_at(b)
        }),
{
    lemma_mint_revert_restores(s, sender, id, name, bonus, min_invest, expiry, now);
}

/// A recorded investment adds its amount to the investor's amount and to its
/// lottery's total. A first investment appends the investor to the
/// lottery's list and counts it; a repeat one lists nobody again. Every
/// other lottery's total and investors, and the lotteries themselves, stay
/// as they were.
pub proof fn law_investment_adds_to_total(
    s: RegistryState,
    sender: AccountId,
    id: LotteryId,
    amount: Balance,
)
    requires
        invest_fits(s, sender, id@, amount),
    ensures
        invest_apply(s, sender, id, amount).total_invested(id@) == s.total_invested(id@) + amount,
        invested_by(invest_apply(s, sender, id, amount), id@, sender) == invested_by(s, id@, sender)
            + amount,
        is_investor(s, id@, sender) ==> invest_apply(s, sender, id, amount).investors(id@)
            == s.investors(id@) && invest_apply(s, sender, id, amount).investor_count(id@)
            == s.investor_count(id@),
        !is_investor(s, id@, sender) ==> invest_apply(s, sender, id, amount).investors(id@)
            == s.investors(id@).push(sender) && invest_apply(s, sender, id, amount).investor_count(
            id@,
        ) == s.investor_count(id@) + 1,
        forall|h: Seq<u8>|
            h != id@ ==> #[trigger] invest_apply(s, sender, id, amount).total_invested(h)
                == s.total_invested(h) && invest_apply(s, sender, id, amount).investors(h)
                == s.investors(h),
        invest_apply(s, sender, id, amount).lotterys == s.lotterys,
{
}

/// In a consistent registry a lottery's total is the sum of what its
/// investors put in, each investor is listed once, and a lottery nobody
/// invested in has a total of zero.
pub proof fn law_total_is_sum_of_investments(s: RegistryState, id: Seq<u8>)
    requires
        consistent(s),
    ensures
        s.total_invested(id) == sum_invested(s.invest_amount, id, s.investors(id)),
        s.investors(id).no_duplicates(),
        s.investors(id).len() == 0 ==> s.total_invested(id) == 0,
{
    assert(s.total_invested(id) == sum_invested(s.invest_amount, id, s.investors(id)));
    assert(s.investors(id).no_duplicates());
}

/// In a consistent registry the count of all lotteries is the number of
/// stored lotteries, and each stored lottery is in process (0) or a
/// success (1).
pub proof fn law_count_is_number_of_lotteries(s: RegistryState)
    requires
        consistent(s),
    ensures
        s.lotterys.dom().len() == s.all_lottery_count,
        forall|h: Seq<u8>| #[trigger] s.lotterys.contains_key(h) ==> s.lotterys[h].status <= 1,
{
}

/// Finalizing the block `now` marks as a success exactly the stored
/// lotteries whose expiry is `now`, changing nothing else about them, and
/// leaves every other lottery and every other storage item alone.
pub proof fn law_finalize_marks_success(s: RegistryState, now: BlockNumber)
    requires
        consistent(s),
    ensures
        finalize(s, now).lotterys.dom() == s.lotterys.dom(),
        forall|h: Seq<u8>|
            s.lotterys.contains_key(h) ==> #[trigger] finalize(s, now).lotterys[h] == (if s.lotterys[h].expiry
                == now {
                with_success(s.lotterys[h])
            } else {
                s.lotterys[h]
            }),
        forall|h: Seq<u8>|
            s.lotterys.contains_key(h) && s.lotterys[h].expiry == now ==> #[trigger] finalize(
                s,
                now,
            ).lotterys[h].status == 1 && finalize(s, now).lotterys[h].id == s.lotterys[h].id
                && finalize(s, now).lotterys[h].owner == s.lotterys[h].owner && finalize(
                s,
                now,
            ).lotterys[h].name == s.lotterys[h].name && finalize(s, now).lotterys[h].bonus
                == s.lotterys[h].bonus && finalize(s, now).lotterys[h].min_invest
                == s.lotterys[h].min_invest && finalize(s, now).lotterys[h].expiry == now,
        finalize(s, now) == (RegistryState { lotterys: finalize(s, now).lotterys, ..s }),
{
    let ids = s.expiring_at(now);
    assert forall|j: int| 0 <= j < ids.len() implies s.lotterys.contains_key(#[trigger] ids[j]@) by {}
    lemma_mark_finalized(s.lotterys, ids);
    assert forall|h: Seq<u8>| s.lotterys.contains_key(h) implies #[trigger] finalize(s, now).lotterys[h]
        == (if s.lotterys[h].expiry == now {
        with_success(s.lotterys[h])
    } else {
        s.lotterys[h]
    }) by {
        lemma_listed_iff_expiring(s, now, h);
    }
    assert forall|h: Seq<u8>|
        s.lotterys.contains_key(h) && s.lotterys[h].expiry == now implies #[trigger] finalize(
            s,
            now,
        ).lotterys[h].status == 1 by {
        lemma_listed_iff_expiring(s, now, h);
    }
}

/// Only finalizing changes a stored lottery: creating one (whatever its
/// outcome), completing a creation and investing leave every lottery that
/// was stored as it was, and a new lottery is stored in process (status 0).
pub proof fn law_status_changes_only_at_finalize(
    s: RegistryState,
    sender: AccountId,
    id: LotteryId,
    name: Seq<u8>,
    bonus: Balance,
    min_invest: Balance,
    expiry: BlockNumber,
    now: BlockNumber,
    free_balance: Balance,
    pending: PendingCreate,
    reserved: bool,
    investor: AccountId,
    target: LotteryId,
    amount: Balance,
)
    requires
        consistent(s),
    ensures
        ({
            let t = create_outcome(s, sender, id, name, bonus, min_invest, expiry, now, free_balance).1;
            &&& forall|h: Seq<u8>|
                s.lotterys.contains_key(h) ==> t.lotterys.contains_key(h) && #[trigger] t.lotterys[h]
                    == s.lotterys[h]
            &&& t.lotterys.contains_key(id@) && !s.lotterys.contains_key(id@) ==> t.lotterys[id@].status
                == 0
            &&& create_outcome(s, sender, id, name, bonus, min_invest, expiry, now, free_balance).0
                == Ok::<CreateStep, crate::types::Error>(CreateStep::AwaitingReserve(pending))
                ==> forall|h: Seq<u8>|
                s.lotterys.contains_key(h) ==> create_finish(t, pending, reserved).lotterys.contains_key(
                    h,
                ) && #[trigger] create_finish(t, pending, reserved).lotterys[h] == s.lotterys[h]
        }),
        invest_apply(s, investor, target, amount).lotterys == s.lotterys,
{
    if create_check(s, sender, id@, expiry, now) is Ok {
        lemma_mint_revert_restores(s, sender, id, name, bonus, min_invest, expiry, now);
        assert(!s.lotterys.contains_key(id@));
    }
}

/// An investment passes its checks exactly when the lottery is stored, the
/// free balance covers the amount, neither count is at its limit, and the
/// block is before the lottery's expiry, whatever the investor put in before.
/// Each refusal names the first check that fails.
pub proof fn law_invest_check_answer(
    s: RegistryState,
    sender: AccountId,
    id: Seq<u8>,
    amount: Balance,
    free_balance: Balance,
    now: BlockNumber,
)
    ensures
        ({
            let stored = s.lotterys.contains_key(id);
            let covered = free_balance >= amount;
            let room_investor = value_or(s.invested_lotterys_count, sender, 0) < u64::MAX;
            let room_lottery = value_or(s.invest_accounts_count, id, 0) < u64::MAX;
            let open = stored && now < s.lotterys[id].expiry;
            match crate::model::invest_check(s, sender, id, amount, free_balance, now) {
                Ok(_) => stored && covered && room_investor && room_lottery && open,
                Err(crate::types::Error::LotteryNotFound) => !stored,
                Err(crate::types::Error::InsufficientFreeBalance) => stored && !covered,
                Err(crate::types::Error::InvestedLotteryCountOverflow) => stored && covered
                    && !room_investor,
                Err(crate::types::Error::InvestorCountOverflow) => stored && covered
                    && room_investor && !room_lottery,
                Err(crate::types::Error::LotteryExpired) => stored && covered && room_investor
                    && room_lottery && !open,
                Err(_) => false,
            }
        }),
        (s.lotterys.contains_key(id) && free_balance >= amount && value_or(
            s.invested_lotterys_count,
            sender,
            0,
        ) < u64::MAX && value_or(s.invest_accounts_count, id, 0) < u64::MAX && now
            < s.lotterys[id].expiry) ==> crate::model::invest_check(
            s,
            sender,
            id,
            amount,
            free_balance,
            now,
        ) is Ok,
{
}

/// A request to invest is accepted exactly when it is signed, the lottery has
/// an owner other than the signer, and the investment checks pass (among
/// them that the block is before the expiry, for first and repeat
/// investments alike); the accepted request carries the signer, the lottery
/// and the amount. Each refusal names the first check that fails.
pub proof fn law_invest_request_answer(
    s: RegistryState,
    origin: Origin,
    id: LotteryId,
    amount: Balance,
    free_balance: Balance,
    now: BlockNumber,
)
    ensures
        match origin {
            Origin::Signed(sender) => {
                let owned = s.lottery_owner.contains_key(id@);
                let other = owned && s.lottery_owner[id@] != sender;
                let stored = s.lotterys.contains_key(id@);
                let accepted = other && stored && free_balance >= amount && value_or(
                    s.invested_lotterys_count,
                    sender,
                    0,
                ) < u64::MAX && value_or(s.invest_accounts_count, id@, 0) < u64::MAX && now
                    < s.lotterys[id@].expiry;
                &&& (invest_request(s, origin, id, amount, free_balance, now) is Ok <==> accepted)
                &&& accepted ==> invest_request(s, origin, id, amount, free_balance, now)
                    == Ok::<crate::types::PendingInvest, crate::types::Error>(
                    crate::types::PendingInvest { sender, lottery_id: id, amount },
                )
                &&& !owned ==> invest_request(s, origin, id, amount, free_balance, now)
                    == Err::<crate::types::PendingInvest, crate::types::Error>(
                    crate::types::Error::NoOwner,
                )
                &&& owned && !other ==> invest_request(s, origin, id, amount, free_balance, now)
                    == Err::<crate::types::PendingInvest, crate::types::Error>(
                    crate::types::Error::OwnLottery,
                )
                &&& other && stored && !(now < s.lotterys[id@].expiry) ==> invest_request(
                    s,
                    origin,
                    id,
                    amount,
                    free_balance,
                    now,
                ) is Err
            },
            _ => invest_request(s, origin, id, amount, free_balance, now) == Err::<
                crate::types::PendingInvest,
                crate::types::Error,
            >(crate::types::Error::BadOrigin),
        },
{
}

/// The checks before a creation pass exactly when the identifier has no
/// owner, the expiry is after the current block, fewer than the maximum of
/// lotteries expire at that block, and neither the count of all lotteries
/// nor the owner's count is at the largest `u64`; an owner may hold any
/// number of lotteries below that. Each refusal names the first check that
/// fails.
pub proof fn law_create_check_answer(
    s: RegistryState,
    sender: AccountId,
    id: Seq<u8>,
    expiry: BlockNumber,
    now: BlockNumber,
)
    ensures
        ({
            let fresh = !s.lottery_owner.contains_key(id);
            let later = expiry > now;
            let room_block = value_or(s.lotterys_by_block_number, expiry, Seq::empty()).len()
                < MAX_LOTTERY_PER_BLOCK;
            let room_all = s.all_lottery_count < u64::MAX;
            let room_owner = value_or(s.owned_lottery_count, sender, 0) < u64::MAX;
            match create_check(s, sender, id, expiry, now) {
                Ok(_) => fresh && later && room_block && room_all && room_owner,
                Err(crate::types::Error::LotteryAlreadyExists) => !fresh,
                Err(crate::types::Error::ExpiryNotInFuture) => fresh && !later,
                Err(crate::types::Error::TooManyLotterysAtBlock) => fresh && later && !room_block,
                Err(crate::types::Error::AllLotteryCountOverflow) => fresh && later && room_block
                    && !room_all,
                Err(crate::types::Error::OwnedLotteryCountOverflow) => fresh && later && room_block
                    && room_all && !room_owner,
                Err(_) => false,
            }
        }),
        (!s.lottery_owner.contains_key(id) && expiry > now && value_or(
            s.lotterys_by_block_number,
            expiry,
            Seq::empty(),
        ).len() < MAX_LOTTERY_PER_BLOCK && s.all_lottery_count < u64::MAX && value_or(
            s.owned_lottery_count,
            sender,
            0,
        ) < u64::MAX) ==> create_check(s, sender, id, expiry, now) is Ok,
{
}

/// What a creation answers and stores. A refused creation answers the
/// refusal and changes nothing. An accepted one whose bonus is zero, or
/// whose bonus the owner can invest, stores the lottery exactly as given (its
/// identifier, owner, name, bonus, minimum and expiry, in process), records
/// its owner, appends it to all lotteries, to the owner's and to its expiry
/// block's, and keeps every earlier lottery. An accepted one whose bonus the
/// owner cannot invest (free balance short, or a count at its limit) stores
/// nothing of it.
pub proof fn law_create_answer(
    s: RegistryState,
    sender: AccountId,
    id: LotteryId,
    name: Seq<u8>,
    bonus: Balance,
    min_invest: Balance,
    expiry: BlockNumber,
    now: BlockNumber,
    free_balance: Balance,
)
    requires
        s.nonce < u64::MAX,
    ensures
        ({
            let (r, t) = create_outcome(
                s,
                sender,
                id,
                name,
                bonus,
                min_invest,
                expiry,
                now,
                free_balance,
            );
            let accepted = create_check(s, sender, id@, expiry, now) is Ok;
            let undone = bonus > 0 && (free_balance < bonus || value_or(
                s.invested_lotterys_count,
                sender,
                0,
            ) == u64::MAX || value_or(s.invest_accounts_count, id@, 0) == u64::MAX);
            let event = crate::types::Event::CreateLottery(sender, id, bonus, min_invest, expiry);
            &&& !accepted ==> r is Err && t == s
            &&& accepted && bonus == 0 ==> r == Ok::<CreateStep, crate::types::Error>(
                CreateStep::Created(event),
            ) && t.nonce == s.nonce + 1
            &&& accepted && undone ==> r == Ok::<CreateStep, crate::types::Error>(
                CreateStep::Created(event),
            ) && !t.lotterys.contains_key(id@) && !t.lottery_owner.contains_key(id@)
                && t.lotterys == s.lotterys.remove(id@) && t.all_lottery_count
                == s.all_lottery_count && value_or(t.owned_lottery_count, sender, 0) == value_or(
                s.owned_lottery_count,
                sender,
                0,
            ) && t.nonce == s.nonce + 1
            &&& accepted && bonus > 0 && !undone ==> r == Ok::<CreateStep, crate::types::Error>(
                CreateStep::AwaitingReserve(
                    PendingCreate {
                        sender,
                        lottery_id: id,
                        bonus,
                        min_invest,
                        expiry,
                        all_count: s.all_lottery_count,
                        owned_count: value_or(s.owned_lottery_count, sender, 0),
                    },
                ),
            ) && t.nonce == s.nonce
            &&& accepted && !undone ==> {
                &&& t.lotterys.contains_key(id@)
                &&& t.lotterys[id@] == (LotteryView {
                    id: id@,
                    owner: sender,
                    name,
                    bonus,
                    min_invest,
                    expiry,
                    status: 0,
                })
                &&& t.lotterys[id@].name == name
                &&& t.lottery_owner[id@] == sender
                &&& t.all_lottery_count == s.all_lottery_count + 1
                &&& t.all_lottery_array[s.all_lottery_count] == id@
                &&& t.all_lottery_index[id@] == s.all_lottery_count
                &&& value_or(t.owned_lottery_count, sender, 0) == value_or(
                    s.owned_lottery_count,
                    sender,
                    0,
                ) + 1
                &&& t.owned_lottery_array[(sender, value_or(s.owned_lottery_count, sender, 0))]
                    == id@
                &&& value_or(t.lotterys_by_block_number, expiry, Seq::empty()) == value_or(
                    s.lotterys_by_block_number,
                    expiry,
                    Seq::empty(),
                ).push(id)
                &&& forall|h: Seq<u8>|
                    h != id@ && s.lotterys.contains_key(h) ==> #[trigger] t.lotterys.contains_key(h)
                        && t.lotterys[h] == s.lotterys[h]
            }
        }),
{
    let s1 = mint_records(s, sender, id, new_lottery(id@, sender, name, bonus, min_invest, expiry));
    assert(s1.invested_count(sender) == s.invested_count(sender));
    assert(s1.investor_count(id@) == s.investor_count(id@));
    assert(s1.lotterys.contains_key(id@));
    if create_check(s, sender, id@, expiry, now) is Ok {
        let t = mint_revert(s1, sender, id, expiry, s.all_lottery_count, s.owned_count(sender));
        assert(t.lotterys =~= s.lotterys.remove(id@));
    }
}

/// Completing a creation: when the bonus was reserved, the owner becomes an
/// investor of the lottery with the bonus added to its amount and to the
/// lottery's total, and every lottery stays; when it was not, the lottery,
/// its owner, its places among all lotteries, the owner's and its block's go,
/// and both counts are what they were before it. Either way the nonce moves
/// on by one.
pub proof fn law_finish_create_answer(s: RegistryState, p: PendingCreate, reserved: bool)
    requires
        pending_create_matches(s, p),
        s.nonce < u64::MAX,
        reserved ==> invest_fits(s, p.sender, p.lottery_id@, p.bonus),
    ensures
        create_finish(s, p, reserved).nonce == s.nonce + 1,
        reserved ==> {
            let t = create_finish(s, p, reserved);
            &&& t.lotterys == s.lotterys
            &&& t.invest_amount.contains_key((p.lottery_id@, p.sender))
            &&& value_or(t.invest_amount, (p.lottery_id@, p.sender), 0) == value_or(
                s.invest_amount,
                (p.lottery_id@, p.sender),
                0,
            ) + p.bonus
            &&& value_or(t.lottery_invested_amount, p.lottery_id@, 0) == value_or(
                s.lottery_invested_amount,
                p.lottery_id@,
                0,
            ) + p.bonus
        },
        !reserved ==> {
            let t = create_finish(s, p, reserved);
            &&& !t.lotterys.contains_key(p.lottery_id@)
            &&& !t.lottery_owner.contains_key(p.lottery_id@)
            &&& !t.all_lottery_array.contains_key(p.all_count)
            &&& !t.all_lottery_index.contains_key(p.lottery_id@)
            &&& t.all_lottery_count == p.all_count
            &&& t.all_lottery_count + 1 == s.all_lottery_count
            &&& value_or(t.owned_lottery_count, p.sender, 0) == p.owned_count
            &&& value_or(t.owned_lottery_count, p.sender, 0) + 1 == value_or(
                s.owned_lottery_count,
                p.sender,
                0,
            )
            &&& !t.owned_lottery_array.contains_key((p.sender, p.owned_count))
            &&& value_or(t.lotterys_by_block_number, p.expiry, Seq::empty()) == value_or(
                s.lotterys_by_block_number,
                p.expiry,
                Seq::empty(),
            ).drop_last()
        },
{
}

/// A recorded investment also registers the lottery with a first-time
/// investor, at the next place of the investor's list, and registers nothing
/// for a repeat investor; no other account's amount changes.
pub proof fn law_investment_registers_investor(
    s: RegistryState,
    sender: AccountId,
    id: LotteryId,
    amount: Balance,
)
    requires
        invest_fits(s, sender, id@, amount),
    ensures
        ({
            let t = invest_apply(s, sender, id, amount);
            let before = value_or(s.invested_lotterys_count, sender, 0);
            &&& t.invest_amount.contains_key((id@, sender))
            &&& forall|h: Seq<u8>, a: AccountId|
                (h, a) != (id@, sender) ==> #[trigger] value_or(t.invest_amount, (h, a), 0)
                    == value_or(s.invest_amount, (h, a), 0)
            &&& !s.invest_amount.contains_key((id@, sender)) ==> {
                &&& value_or(t.invested_lotterys_count, sender, 0) == before + 1
                &&& t.invested_lotterys_array[(sender, before)] == id@
                &&& t.invested_lotterys_index[(sender, id@)] == before
            }
            &&& s.invest_amount.contains_key((id@, sender)) ==> {
                &&& t.invested_lotterys_count == s.invested_lotterys_count
                &&& t.invested_lotterys_array == s.invested_lotterys_array
                &&& t.invested_lotterys_index == s.invested_lotterys_index
            }
        }),
{
}

/// Finalizing reports, for each lottery that expires at the block, in order,
/// its identifier, its whole total invested (the owner's bonus included, as
/// the total getter reads it), the block, and success; in a consistent
/// registry that total is the sum of what all its investors put in.
pub proof fn law_finalize_reports_totals(s: RegistryState, now: BlockNumber)
    ensures
        forall|j: int|
            0 <= j < s.expiring_at(now).len() ==> #[trigger] crate::model::finalize_event(
                s,
                s.expiring_at(now)[j],
                now,
            ) == crate::types::Event::FinalizeLottery(
                s.expiring_at(now)[j],
                value_or(s.lottery_invested_amount, s.expiring_at(now)[j]@, 0),
                now,
                true,
            ),
        consistent(s) ==> forall|j: int|
            0 <= j < s.expiring_at(now).len() ==> value_or(
                s.lottery_invested_amount,
                #[trigger] s.expiring_at(now)[j]@,
                0,
            ) == sum_invested(s.invest_amount, s.expiring_at(now)[j]@, s.investors(s.expiring_at(now)[j]@)),
{
    if consistent(s) {
        assert forall|j: int| 0 <= j < s.expiring_at(now).len() implies value_or(
            s.lottery_invested_amount,
            #[trigger] s.expiring_at(now)[j]@,
            0,
        ) == sum_invested(s.invest_amount, s.expiring_at(now)[j]@, s.investors(s.expiring_at(now)[j]@)) by {
            assert(s.total_invested(s.expiring_at(now)[j]@) == sum_invested(
                s.invest_amount,
                s.expiring_at(now)[j]@,
                s.investors(s.expiring_at(now)[j]@),
            ));
        }
    }
}

/// A finalize after an investment reports the lottery's earlier total plus
/// the amount invested.
pub proof fn law_finalize_after_investment(
    s: RegistryState,
    sender: AccountId,
    id: LotteryId,
    amount: Balance,
    now: BlockNumber,
    j: int,
)
    requires
        invest_fits(s, sender, id@, amount),
        0 <= j < s.expiring_at(now).len(),
        s.expiring_at(now)[j] == id,
    ensures
        invest_apply(s, sender, id, amount).expiring_at(now)[j] == id,
        crate::model::finalize_event(invest_apply(s, sender, id, amount), id, now)
            == crate::types::Event::FinalizeLottery(
            id,
            (value_or(s.lottery_invested_amount, id@, 0) + amount) as u64,
            now,
            true,
        ),
{
}

/// Storing a value replaces whatever was stored: a signed call leaves
/// exactly its own value behind, and of two calls the later one wins.
pub proof fn law_do_something_stores_last(s: RegistryState, first: u32, second: u32)
    ensures
        store_something(s, first).something == Some(first),
        store_something(store_something(s, first), second).something == Some(second),
        store_something(s, first).lotterys == s.lotterys,
        store_something(s, first).nonce == s.nonce,
{
}

/// Only a signed call has a signer, and it is the account that signed.
pub proof fn law_only_signed_callers(origin: Origin)
    ensures
        crate::types::signer(origin) is Ok <==> origin is Signed,
        forall|who: AccountId|
            crate::types::signer(origin) == Ok::<AccountId, crate::types::Error>(who) <==> origin
                == Origin::Signed(who),
        !(origin is Signed) ==> crate::types::signer(origin) == Err::<
            AccountId,
            crate::types::Error,
        >(crate::types::Error::BadOrigin),
{
}

/// Different numbers have different eight-byte encodings, and the encoding
/// of a seed, a sender and a nonce starts with the seed and is 16 bytes
/// longer; so different senders or nonces give different encodings.
pub proof fn law_encoding_is_injective(
    seed: Seq<u8>,
    sender1: AccountId,
    nonce1: u64,
    sender2: AccountId,
    nonce2: u64,
)
    ensures
        crate::outside::seed_sender_nonce_encoding(seed, sender1, nonce1).len() == seed.len() + 16,
        crate::outside::seed_sender_nonce_encoding(seed, sender1, nonce1).take(seed.len() as int)
            == seed,
        crate::outside::seed_sender_nonce_encoding(seed, sender1, nonce1)
            == crate::outside::seed_sender_nonce_encoding(seed, sender2, nonce2) ==> sender1
            == sender2 && nonce1 == nonce2,
{
    let e1 = crate::outside::seed_sender_nonce_encoding(seed, sender1, nonce1);
    let e2 = crate::outside::seed_sender_nonce_encoding(seed, sender2, nonce2);
    assert(e1.take(seed.len() as int) =~= seed);
    if e1 == e2 {
        let a = crate::outside::u64_le_bytes(sender1);
        let b = crate::outside::u64_le_bytes(sender2);
        let c = crate::outside::u64_le_bytes(nonce1);
        let d = crate::outside::u64_le_bytes(nonce2);
        assert forall|i: int| 0 <= i < 8 implies a[i] == b[i] && c[i] == d[i] by {
            assert(e1[seed.len() + i] == e2[seed.len() + i]);
            assert(e1[seed.len() + 8 + i] == e2[seed.len() + 8 + i]);
        }
        lemma_le_bytes_injective(sender1, sender2);
        lemma_le_bytes_injective(nonce1, nonce2);
    }
}

/// Two numbers with the same eight little-endian bytes are equal.
pub proof fn lemma_le_bytes_injective(x: u64, y: u64)
    requires
        forall|i: int|
            0 <= i < 8 ==> crate::outside::u64_le_bytes(x)[i] == #[trigger] crate::outside::u64_le_bytes(y)[i],
    ensures
        x == y,
{
    let a = crate::outside::u64_le_bytes(x);
    let b = crate::outside::u64_le_bytes(y);
    assert(a[0] == b[0] && a[1] == b[1] && a[2] == b[2] && a[3] == b[3]);
    assert(a[4] == b[4] && a[5] == b[5] && a[6] == b[6] && a[7] == b[7]);
    assert(x % 0x100 == y % 0x100);
    assert((x / 0x100) % 0x100 == (y / 0x100) % 0x100);
    assert((x / 0x1_0000) % 0x100 == (y / 0x1_0000) % 0x100);
    assert((x / 0x100_0000) % 0x100 == (y / 0x100_0000) % 0x100);
    assert((x / 0x1_0000_0000) % 0x100 == (y / 0x1_0000_0000) % 0x100);
    assert((x / 0x100_0000_0000) % 0x100 == (y / 0x100_0000_0000) % 0x100);
    assert((x / 0x1_0000_0000_0000) % 0x100 == (y / 0x1_0000_0000_0000) % 0x100);
    assert((x / 0x100_0000_0000_0000) % 0x100 == (y / 0x100_0000_0000_0000) % 0x100);
    assert(x == y) by (bit_vector)
        requires
            x % 0x100 == y % 0x100,
            (x / 0x100) % 0x100 == (y / 0x100) % 0x100,
            (x / 0x1_0000) % 0x100 == (y / 0x1_0000) % 0x100,
            (x / 0x100_0000) % 0x100 == (y / 0x100_0000) % 0x100,
            (x / 0x1_0000_0000) % 0x100 == (y / 0x1_0000_0000) % 0x100,
            (x / 0x100_0000_0000) % 0x100 == (y / 0x100_0000_0000) % 0x100,
            (x / 0x1_0000_0000_0000) % 0x100 == (y / 0x1_0000_0000_0000) % 0x100,
            (x / 0x100_0000_0000_0000) % 0x100 == (y / 0x100_0000_0000_0000) % 0x100,
    ;
}

} // verus!
