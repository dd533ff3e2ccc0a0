//! The plain values that the lottery registry is made of.

use vstd::prelude::*;

verus! {

broadcast use vstd::array::group_array_axioms;

/// An account.
pub type AccountId = u64;

/// An amount of funds.
pub type Balance = u64;

/// A block height.
pub type BlockNumber = u64;

/// The 256-bit digest that identifies a lottery.
pub type LotteryId = [u8; 32];

/// At most this many lotteries may expire in the same block.
pub const MAX_LOTTERY_PER_BLOCK: usize = 3;

/// The all-zero digest, which an absent lottery identifier reads as.
pub open spec fn zero_hash() -> Seq<u8> {
    Seq::new(32, |i: int| 0u8)
}

/// The all-zero digest.
pub fn zero_hash_value() -> (h: LotteryId)
    ensures
        h@ == zero_hash(),
{
    let h = [0u8; 32];
    assert(h@ =~= zero_hash());
    h
}

/// Who dispatched a call.
#[derive(Clone, Copy, Debug, PartialEq, Eq)]
pub enum Origin {
    /// The privileged origin.
    Root,
    /// A call signed by an account.
    Signed(AccountId),
    /// An unsigned call.
    Unsigned,
}

/// A lottery as it is stored.
#[derive(Clone, Debug, PartialEq, Eq)]
pub struct Lottery {
    /// The identifier of the lottery.
    pub id: LotteryId,
    /// The account that created it.
    pub owner: AccountId,
    /// Its name.
    pub name: Vec<u8>,
    /// The bonus that the owner puts in.
    pub bonus: Balance,
    /// The minimum amount of an investment.
    pub min_invest: Balance,
    /// The block at which it ends.
    pub expiry: BlockNumber,
    /// 0: in process, 1: success, 2: failure.
    pub status: u64,
}

/// A lottery with its name as a sequence.
pub struct LotteryView {
    pub id: Seq<u8>,
    pub owner: AccountId,
    pub name: Seq<u8>,
    pub bonus: Balance,
    pub min_invest: Balance,
    pub expiry: BlockNumber,
    pub status: u64,
}

impl View for Lottery {
    type V = LotteryView;

    open spec fn view(&self) -> LotteryView {
        LotteryView {
            id: self.id@,
            owner: self.owner,
            name: self.name@,
            bonus: self.bonus,
            min_invest: self.min_invest,
            expiry: self.expiry,
            status: self.status,
        }
    }
}

/// What an absent lottery reads as: every field zero, the name empty.
pub open spec fn default_lottery() -> LotteryView {
    LotteryView {
        id: zero_hash(),
        owner: 0,
        name: Seq::empty(),
        bonus: 0,
        min_invest: 0,
        expiry: 0,
        status: 0,
    }
}

impl Lottery {
    /// The lottery that an absent entry reads as.
    pub fn empty() -> (l: Lottery)
        ensures
            l@ == default_lottery(),
    {
        Lottery {
            id: zero_hash_value(),
            owner: 0,
            name: Vec::new(),
            bonus: 0,
            min_invest: 0,
            expiry: 0,
            status: 0,
        }
    }

    /// A copy of the lottery.
    pub fn duplicate(&self) -> (l: Lottery)
        ensures
            l@ == self@,
    {
        let mut name: Vec<u8> = Vec::new();
        let mut i: usize = 0;
        while i < self.name.len()
            invariant
                i <= self.name@.len(),
                name@ == self.name@.take(i as int),
            decreases self.name@.len() - i,
        {
            name.push(self.name[i]);
            i = i + 1;
            assert(name@ =~= self.name@.take(i as int));
        }
        assert(name@ =~= self.name@);
        Lottery {
            id: self.id,
            owner: self.owner,
            name,
            bonus: self.bonus,
            min_invest: self.min_invest,
            expiry: self.expiry,
            status: self.status,
        }
    }
}

/// What the registry reports.
#[derive(Clone, Debug, PartialEq, Eq)]
pub enum Event {
    /// A value was stored by an account.
    SomethingStored(u32, AccountId),
    /// Owner, lottery, bonus, minimum investment, expiry.
    CreateLottery(AccountId, LotteryId, Balance, Balance, BlockNumber),
    /// Lottery, investor, amount.
    InvestLottery(LotteryId, AccountId, Balance),
    /// Lottery, total invested, block, success.
    FinalizeLottery(LotteryId, Balance, BlockNumber, bool),
}

/// Why a call was refused.
#[derive(Clone, Copy, Debug, PartialEq, Eq)]
pub enum Error {
    BadOrigin,
    LotteryAlreadyExists,
    ExpiryNotInFuture,
    TooManyLotterysAtBlock,
    AllLotteryCountOverflow,
    OwnedLotteryCountOverflow,
    NoOwner,
    OwnLottery,
    LotteryNotFound,
    InsufficientFreeBalance,
    InvestedLotteryCountOverflow,
    InvestorCountOverflow,
    LotteryExpired,
}

/// The message that each refusal carries.
pub open spec fn error_message(e: Error) -> Seq<char> {
    match e {
        Error::BadOrigin => "bad origin: expected to be a signed origin"@,
        Error::LotteryAlreadyExists => "Lottery already exists"@,
        Error::ExpiryNotInFuture => "The expiry has to be greater than the current block number"@,
        Error::TooManyLotterysAtBlock =>
            "Maximum number of lotterys is reached for the target block, try another block"@,
        Error::AllLotteryCountOverflow => "Overflow adding a new lottery to total lotterys"@,
        Error::OwnedLotteryCountOverflow => "Overflow adding a new lottery to account balance"@,
        Error::NoOwner => "No owner of the lottery"@,
        Error::OwnLottery => "You can't invest for your own lottery"@,
        Error::LotteryNotFound => "The lottery does not exist"@,
        Error::InsufficientFreeBalance =>
            "You don't have enough free balance for investing for the lottery"@,
        Error::InvestedLotteryCountOverflow => "Overflow adding a new invested lottery"@,
        Error::InvestorCountOverflow =>
            "Overflow adding the total number of investors of a lottery project"@,
        Error::LotteryExpired => "This lottery is expired."@,
    }
}

impl Error {
    /// The message of the refusal.
    pub fn message(&self) -> (m: &'static str)
        ensures
            m@ == error_message(*self),
    {
        match self {
            Error::BadOrigin => "bad origin: expected to be a signed origin",
            Error::LotteryAlreadyExists => "Lottery already exists",
            Error::ExpiryNotInFuture => "The expiry has to be greater than the current block number",
            Error::TooManyLotterysAtBlock =>
                "Maximum number of lotterys is reached for the target block, try another block",
            Error::AllLotteryCountOverflow => "Overflow adding a new lottery to total lotterys",
            Error::OwnedLotteryCountOverflow => "Overflow adding a new lottery to account balance",
            Error::NoOwner => "No owner of the lottery",
            Error::OwnLottery => "You can't invest for your own lottery",
            Error::LotteryNotFound => "The lottery does not exist",
            Error::InsufficientFreeBalance =>
                "You don't have enough free balance for investing for the lottery",
            Error::InvestedLotteryCountOverflow => "Overflow adding a new invested lottery",
            Error::InvestorCountOverflow =>
                "Overflow adding the total number of investors of a lottery project",
            Error::LotteryExpired => "This lottery is expired.",
        }
    }
}

/// The account that signed the call, or `BadOrigin` for any other origin.
pub open spec fn signer(origin: Origin) -> Result<AccountId, Error> {
    match origin {
        Origin::Signed(who) => Ok(who),
        _ => Err(Error::BadOrigin),
    }
}

/// The account that signed the call; refuses any other origin.
pub fn ensure_signed(origin: Origin) -> (r: Result<AccountId, Error>)
    ensures
        r == signer(origin),
{
    match origin {
        Origin::Signed(who) => Ok(who),
        _ => Err(Error::BadOrigin),
    }
}

/// A creation that waits for the owner's bonus to be reserved.
#[derive(Clone, Copy, Debug, PartialEq, Eq)]
pub struct PendingCreate {
    pub sender: AccountId,
    pub lottery_id: LotteryId,
    pub bonus: Balance,
    pub min_invest: Balance,
    pub expiry: BlockNumber,
    /// The count of all lotteries before this one.
    pub all_count: u64,
    /// The count of the owner's lotteries before this one.
    pub owned_count: u64,
}

/// Where a creation stands after its first step.
#[derive(Clone, Debug, PartialEq, Eq)]
pub enum CreateStep {
    /// The creation is complete.
    Created(Event),
    /// The owner's bonus must be reserved; then `finish_create` completes it.
    AwaitingReserve(PendingCreate),
}

/// An investment whose checks passed and whose funds must be reserved;
/// then `finish_invest` records it.
#[derive(Clone, Copy, Debug, PartialEq, Eq)]
pub struct PendingInvest {
    pub sender: AccountId,
    pub lottery_id: LotteryId,
    pub amount: Balance,
}

} // verus!
