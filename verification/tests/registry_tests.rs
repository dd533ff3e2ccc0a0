use luckyplus::registry::LuckyPlus;
use luckyplus::types::{CreateStep, Error, Event, Lottery, LotteryId, Origin, PendingCreate, PendingInvest};

const ID_SEED0_SENDER1_NONCE0: LotteryId = [
    236, 171, 19, 26, 39, 166, 157, 70, 73, 152, 178, 140, 139, 11, 104, 52, 229, 166, 204, 5,
    228, 91, 177, 96, 152, 9, 170, 52, 95, 25, 106, 190,
];
const ID_SEED0_SENDER1_NONCE1: LotteryId = [
    61, 178, 128, 214, 163, 205, 100, 73, 246, 188, 242, 240, 6, 74, 196, 227, 243, 94, 48, 0,
    187, 212, 219, 236, 210, 189, 84, 117, 113, 155, 173, 180,
];
const ID_SEED7_SENDER2_NONCE0: LotteryId = [
    249, 126, 193, 65, 9, 77, 32, 140, 106, 196, 90, 182, 11, 146, 5, 144, 3, 212, 110, 40, 180,
    178, 87, 125, 247, 129, 248, 189, 237, 33, 46, 188,
];

fn created(step: CreateStep) -> Event {
    match step {
        CreateStep::Created(e) => e,
        CreateStep::AwaitingReserve(p) => panic!("unexpected pending creation {:?}", p),
    }
}

fn pending(step: CreateStep) -> PendingCreate {
    match step {
        CreateStep::AwaitingReserve(p) => p,
        CreateStep::Created(e) => panic!("unexpected completed creation {:?}", e),
    }
}

fn id_of(n: u8) -> LotteryId {
    [n; 32]
}

#[test]
fn it_works_for_default_value() {
    let mut m = LuckyPlus::new();
    assert_eq!(m.do_something(Origin::Signed(1), 42), Ok(Event::SomethingStored(42, 1)));
    assert_eq!(m.something(), Some(42));
}

#[test]
fn do_something_refuses_unsigned_origins() {
    let mut m = LuckyPlus::new();
    assert_eq!(m.do_something(Origin::Unsigned, 42), Err(Error::BadOrigin));
    assert_eq!(m.do_something(Origin::Root, 42), Err(Error::BadOrigin));
    assert_eq!(m.something(), None);
}

#[test]
fn lottery_id_is_blake2b_of_the_encoding() {
    assert_eq!(LuckyPlus::lottery_id(&[0u8; 32], 1, 0), ID_SEED0_SENDER1_NONCE0);
    assert_eq!(LuckyPlus::lottery_id(&[0u8; 32], 1, 1), ID_SEED0_SENDER1_NONCE1);
    assert_eq!(LuckyPlus::lottery_id(&[7u8; 32], 2, 0), ID_SEED7_SENDER2_NONCE0);
}

#[test]
fn create_lottery_without_bonus_stores_it_everywhere() {
    let mut m = LuckyPlus::new();
    let step = m
        .create_lottery(Origin::Signed(1), [0u8; 32], b"lucky".to_vec(), 0, 5, 10, 3, 100)
        .unwrap();
    let id = ID_SEED0_SENDER1_NONCE0;
    assert_eq!(created(step), Event::CreateLottery(1, id, 0, 5, 10));
    assert!(m.is_lottery_exists(id));
    assert_eq!(m.get_lottery_owner(id), Some(1));
    assert_eq!(m.owner_of(id), Some(1));
    assert_eq!(
        m.lottery_by_id(id),
        Lottery { id, owner: 1, name: b"lucky".to_vec(), bonus: 0, min_invest: 5, expiry: 10, status: 0 }
    );
    assert_eq!(m.is_lottery_success(id), 0);
    assert_eq!(m.all_lottery_count(), 1);
    assert_eq!(m.lottery_by_index(0), id);
    assert_eq!(m.owned_lottery_count(1), 1);
    assert_eq!(m.lottery_of_owner_by_index(1, 0), id);
    assert_eq!(m.lottery_expire_at(10), vec![id]);
    assert_eq!(m.get_invested_number(id), 0);
    assert_eq!(m.get_lottery_total_balance(id), 0);
}

#[test]
fn the_nonce_moves_on_with_each_creation() {
    let mut m = LuckyPlus::new();
    m.create_lottery(Origin::Signed(1), [0u8; 32], vec![], 0, 0, 10, 3, 0).unwrap();
    let step = m.create_lottery(Origin::Signed(1), [0u8; 32], vec![], 0, 0, 11, 3, 0).unwrap();
    assert_eq!(created(step), Event::CreateLottery(1, ID_SEED0_SENDER1_NONCE1, 0, 0, 11));
    assert_eq!(m.all_lottery_count(), 2);
    assert_eq!(m.lottery_by_index(1), ID_SEED0_SENDER1_NONCE1);
    assert_eq!(m.lottery_of_owner_by_index(1, 1), ID_SEED0_SENDER1_NONCE1);
    assert_eq!(m.owned_lottery_count(1), 2);
}

#[test]
fn create_lottery_refusals() {
    let mut m = LuckyPlus::new();
    assert_eq!(
        m.create_lottery(Origin::Unsigned, [0u8; 32], vec![], 0, 0, 10, 3, 0),
        Err(Error::BadOrigin)
    );
    assert_eq!(
        m.create_lottery(Origin::Signed(1), [0u8; 32], vec![], 0, 0, 3, 3, 0),
        Err(Error::ExpiryNotInFuture)
    );
    assert_eq!(
        m.create_lottery_with_id(1, id_of(1), vec![], 0, 0, 2, 3, 0),
        Err(Error::ExpiryNotInFuture)
    );
    assert!(m.create_lottery_with_id(1, id_of(1), vec![], 0, 0, 10, 3, 0).is_ok());
    assert_eq!(
        m.create_lottery_with_id(2, id_of(1), vec![], 0, 0, 10, 3, 0),
        Err(Error::LotteryAlreadyExists)
    );
    assert!(m.create_lottery_with_id(1, id_of(2), vec![], 0, 0, 10, 3, 0).is_ok());
    assert!(m.create_lottery_with_id(1, id_of(3), vec![], 0, 0, 10, 3, 0).is_ok());
    assert_eq!(
        m.create_lottery_with_id(1, id_of(4), vec![], 0, 0, 10, 3, 0),
        Err(Error::TooManyLotterysAtBlock)
    );
    assert!(!m.is_lottery_exists(id_of(4)));
    assert_eq!(m.lottery_expire_at(10), vec![id_of(1), id_of(2), id_of(3)]);
    assert_eq!(m.all_lottery_count(), 3);
}

#[test]
fn invest_flow_records_the_investment() {
    let mut m = LuckyPlus::new();
    m.create_lottery_with_id(1, id_of(9), vec![], 0, 0, 10, 3, 0).unwrap();
    let p = m.invest_lottery(Origin::Signed(2), id_of(9), 30, 100, 4).unwrap();
    assert_eq!(p, PendingInvest { sender: 2, lottery_id: id_of(9), amount: 30 });
    assert_eq!(m.finish_invest(p), Event::InvestLottery(id_of(9), 2, 30));
    let p = m.invest_lottery(Origin::Signed(3), id_of(9), 12, 12, 4).unwrap();
    m.finish_invest(p);
    let p = m.invest_lottery(Origin::Signed(2), id_of(9), 5, 50, 5).unwrap();
    m.finish_invest(p);
    assert_eq!(m.get_lottery_total_balance(id_of(9)), 47);
    assert_eq!(m.total_amount_of_invested(id_of(9)), 47);
    assert_eq!(m.get_invested_number(id_of(9)), 2);
    assert_eq!(m.invest_accounts_count(id_of(9)), 2);
    assert_eq!(m.invest_accounts(id_of(9)), vec![2, 3]);
    assert!(m.is_investor(id_of(9), 2));
    assert!(m.is_investor(id_of(9), 3));
    assert!(!m.is_investor(id_of(9), 4));
    assert_eq!(m.invest_amount_of(id_of(9), 2), 35);
    assert_eq!(m.invest_amount_of(id_of(9), 3), 12);
    assert_eq!(m.invested_lottery_count(2), 1);
    assert_eq!(m.invested_lottery_by_index(2, 0), id_of(9));
    assert_eq!(m.invested_lottery_by_index(2, 1), [0u8; 32]);
    assert_eq!(m.invested_lottery_count(3), 1);
    assert_eq!(m.invested_lottery_by_index(3, 0), id_of(9));
}

#[test]
fn total_is_the_sum_of_the_investors_amounts() {
    let mut m = LuckyPlus::new();
    m.create_lottery_with_id(1, id_of(9), vec![], 0, 0, 10, 3, 0).unwrap();
    m.create_lottery_with_id(1, id_of(8), vec![], 0, 0, 10, 3, 0).unwrap();
    for (id, who, amount) in [(id_of(9), 2, 4), (id_of(9), 3, 6), (id_of(9), 2, 10), (id_of(8), 2, 1)] {
        let p = m.invest_lottery(Origin::Signed(who), id, amount, 100, 5).unwrap();
        m.finish_invest(p);
    }
    let sum: u64 = m.invest_accounts(id_of(9)).iter().map(|a| m.invest_amount_of(id_of(9), *a)).sum();
    assert_eq!(sum, 20);
    assert_eq!(m.get_lottery_total_balance(id_of(9)), sum);
    assert_eq!(m.get_lottery_total_balance(id_of(8)), 1);
    assert_eq!(m.invested_lottery_count(2), 2);
    assert_eq!(m.invested_lottery_by_index(2, 1), id_of(8));
    // Nobody invested in this one.
    m.create_lottery_with_id(1, id_of(7), vec![], 0, 0, 12, 3, 0).unwrap();
    assert_eq!(m.get_lottery_total_balance(id_of(7)), 0);
    assert_eq!(m.invest_accounts(id_of(7)), Vec::<u64>::new());
}

#[test]
fn invest_lottery_refusals() {
    let mut m = LuckyPlus::new();
    m.create_lottery_with_id(1, id_of(9), vec![], 0, 0, 10, 3, 0).unwrap();
    assert_eq!(m.invest_lottery(Origin::Root, id_of(9), 1, 10, 4), Err(Error::BadOrigin));
    assert_eq!(m.invest_lottery(Origin::Signed(2), id_of(8), 1, 10, 4), Err(Error::NoOwner));
    assert_eq!(m.invest_lottery(Origin::Signed(1), id_of(9), 1, 10, 4), Err(Error::OwnLottery));
    assert_eq!(
        m.invest_lottery(Origin::Signed(2), id_of(9), 11, 10, 4),
        Err(Error::InsufficientFreeBalance)
    );
    assert_eq!(m.invest_lottery(Origin::Signed(2), id_of(9), 1, 10, 10), Err(Error::LotteryExpired));
    assert_eq!(m.invest_check(2, &id_of(8), 1, 10, 4), Err(Error::LotteryNotFound));
    assert_eq!(m.invest_check(2, &id_of(9), 1, 10, 4), Ok(()));
    assert_eq!(m.get_invested_number(id_of(9)), 0);
}

#[test]
fn bonus_waits_for_its_reserve_and_is_invested() {
    let mut m = LuckyPlus::new();
    let p = pending(m.create_lottery_with_id(1, id_of(5), vec![], 20, 1, 10, 3, 50).unwrap());
    assert_eq!(
        p,
        PendingCreate { sender: 1, lottery_id: id_of(5), bonus: 20, min_invest: 1, expiry: 10, all_count: 0, owned_count: 0 }
    );
    assert!(m.is_lottery_exists(id_of(5)));
    assert_eq!(m.finish_create(p, true), Event::CreateLottery(1, id_of(5), 20, 1, 10));
    assert!(m.is_investor(id_of(5), 1));
    assert_eq!(m.get_lottery_total_balance(id_of(5)), 20);
    assert_eq!(m.get_invested_number(id_of(5)), 1);
    assert_eq!(m.owned_lottery_count(1), 1);
}

#[test]
fn bonus_that_cannot_be_reserved_undoes_the_creation() {
    let mut m = LuckyPlus::new();
    let p = pending(m.create_lottery_with_id(1, id_of(5), vec![], 20, 1, 10, 3, 50).unwrap());
    assert_eq!(m.finish_create(p, false), Event::CreateLottery(1, id_of(5), 20, 1, 10));
    assert!(!m.is_lottery_exists(id_of(5)));
    assert_eq!(m.get_lottery_owner(id_of(5)), None);
    assert_eq!(m.all_lottery_count(), 0);
    assert_eq!(m.owned_lottery_count(1), 0);
    assert_eq!(m.lottery_expire_at(10), Vec::<LotteryId>::new());
}

#[test]
fn bonus_beyond_the_free_balance_undoes_the_creation_at_once() {
    let mut m = LuckyPlus::new();
    let step = m
        .create_lottery(Origin::Signed(1), [0u8; 32], vec![], 20, 1, 10, 3, 19)
        .unwrap();
    assert_eq!(created(step), Event::CreateLottery(1, ID_SEED0_SENDER1_NONCE0, 20, 1, 10));
    assert!(!m.is_lottery_exists(ID_SEED0_SENDER1_NONCE0));
    assert_eq!(m.all_lottery_count(), 0);
    // The nonce moved on all the same.
    let step = m.create_lottery(Origin::Signed(1), [0u8; 32], vec![], 0, 1, 10, 3, 19).unwrap();
    assert_eq!(created(step), Event::CreateLottery(1, ID_SEED0_SENDER1_NONCE1, 0, 1, 10));
}

#[test]
fn undoing_a_creation_restores_the_owners_count() {
    let mut m = LuckyPlus::new();
    m.create_lottery_with_id(1, id_of(1), vec![], 0, 0, 10, 3, 0).unwrap();
    assert_eq!(m.owned_lottery_count(1), 1);
    let step = m.create_lottery_with_id(1, id_of(2), vec![], 5, 0, 11, 3, 0).unwrap();
    assert_eq!(created(step), Event::CreateLottery(1, id_of(2), 5, 0, 11));
    assert_eq!(m.owned_lottery_count(1), 1);
    assert_eq!(m.lottery_of_owner_by_index(1, 0), id_of(1));
    assert_eq!(m.lottery_of_owner_by_index(1, 1), [0u8; 32]);
    assert_eq!(m.all_lottery_count(), 1);
    assert!(!m.is_lottery_exists(id_of(2)));
    // A pending creation whose reserve is refused restores it too.
    let p = pending(m.create_lottery_with_id(1, id_of(3), vec![], 5, 0, 11, 3, 5).unwrap());
    assert_eq!(m.owned_lottery_count(1), 2);
    m.finish_create(p, false);
    assert_eq!(m.owned_lottery_count(1), 1);
    assert_eq!(m.all_lottery_count(), 1);
}

#[test]
fn status_is_zero_until_the_expiry_block_is_finalized() {
    let mut m = LuckyPlus::new();
    m.create_lottery_with_id(1, id_of(1), vec![], 0, 0, 10, 3, 0).unwrap();
    let p = m.invest_lottery(Origin::Signed(2), id_of(1), 3, 3, 4).unwrap();
    m.finish_invest(p);
    assert_eq!(m.is_lottery_success(id_of(1)), 0);
    assert_eq!(m.finalize_lottery(9), vec![]);
    assert_eq!(m.is_lottery_success(id_of(1)), 0);
    m.finalize_lottery(10);
    assert_eq!(m.is_lottery_success(id_of(1)), 1);
}

#[test]
fn finalize_marks_expiring_lotteries_as_successes() {
    let mut m = LuckyPlus::new();
    m.create_lottery_with_id(1, id_of(1), vec![], 0, 0, 10, 3, 0).unwrap();
    m.create_lottery_with_id(1, id_of(2), vec![], 0, 0, 10, 3, 0).unwrap();
    m.create_lottery_with_id(1, id_of(3), vec![], 0, 0, 11, 3, 0).unwrap();
    for (id, who, amount) in [(id_of(1), 2, 7), (id_of(1), 3, 8), (id_of(2), 2, 4), (id_of(3), 2, 1)] {
        let p = m.invest_lottery(Origin::Signed(who), id, amount, 100, 5).unwrap();
        m.finish_invest(p);
    }
    let events = m.finalize_lottery(10);
    assert_eq!(
        events,
        vec![
            Event::FinalizeLottery(id_of(1), 15, 10, true),
            Event::FinalizeLottery(id_of(2), 4, 10, true),
        ]
    );
    assert_eq!(m.is_lottery_success(id_of(1)), 1);
    assert_eq!(m.is_lottery_success(id_of(2)), 1);
    assert_eq!(m.is_lottery_success(id_of(3)), 0);
    assert_eq!(m.lottery_by_id(id_of(1)).expiry, 10);
    assert_eq!(m.lottery_by_id(id_of(1)).owner, 1);
}

#[test]
fn finalize_without_expiring_lotteries_reports_nothing() {
    let mut m = LuckyPlus::new();
    assert_eq!(m.finalize_lottery(7), vec![]);
}

#[test]
fn absent_lotteries_read_as_defaults() {
    let m = LuckyPlus::new();
    assert!(!m.is_lottery_exists(id_of(1)));
    assert_eq!(m.is_lottery_success(id_of(1)), 0);
    assert_eq!(m.get_lottery_owner(id_of(1)), None);
    assert_eq!(m.get_lottery_total_balance(id_of(1)), 0);
    assert!(!m.is_investor(id_of(1), 1));
    assert_eq!(m.get_invested_number(id_of(1)), 0);
    assert_eq!(m.lottery_by_id(id_of(1)), Lottery::empty());
    assert_eq!(m.lottery_by_index(0), [0u8; 32]);
    assert_eq!(m.invest_accounts(id_of(1)), Vec::<u64>::new());
}

#[test]
fn error_messages() {
    assert_eq!(Error::BadOrigin.message(), "bad origin: expected to be a signed origin");
    assert_eq!(Error::LotteryAlreadyExists.message(), "Lottery already exists");
    assert_eq!(
        Error::ExpiryNotInFuture.message(),
        "The expiry has to be greater than the current block number"
    );
    assert_eq!(
        Error::TooManyLotterysAtBlock.message(),
        "Maximum number of lotterys is reached for the target block, try another block"
    );
    assert_eq!(Error::NoOwner.message(), "No owner of the lottery");
    assert_eq!(Error::OwnLottery.message(), "You can't invest for your own lottery");
    assert_eq!(Error::LotteryNotFound.message(), "The lottery does not exist");
    assert_eq!(
        Error::InsufficientFreeBalance.message(),
        "You don't have enough free balance for investing for the lottery"
    );
    assert_eq!(Error::LotteryExpired.message(), "This lottery is expired.");
    assert_eq!(Error::AllLotteryCountOverflow.message(), "Overflow adding a new lottery to total lotterys");
    assert_eq!(Error::OwnedLotteryCountOverflow.message(), "Overflow adding a new lottery to account balance");
    assert_eq!(Error::InvestedLotteryCountOverflow.message(), "Overflow adding a new invested lottery");
    assert_eq!(
        Error::InvestorCountOverflow.message(),
        "Overflow adding the total number of investors of a lottery project"
    );
}

#[test]
fn registries_point_back_at_each_other() {
    let mut m = LuckyPlus::new();
    for n in 1..=3u8 {
        m.create_lottery_with_id(n as u64, id_of(n), vec![], 0, 0, 10 + n as u64, 3, 0).unwrap();
    }
    for i in 0..3u64 {
        let id = m.lottery_by_index(i);
        assert!(m.is_lottery_exists(id));
        let owner = m.get_lottery_owner(id).unwrap();
        assert_eq!(m.lottery_by_id(id).owner, owner);
        assert_eq!(m.lottery_of_owner_by_index(owner, 0), id);
        let expiry = m.lottery_by_id(id).expiry;
        assert!(m.lottery_expire_at(expiry).contains(&id));
    }
}
