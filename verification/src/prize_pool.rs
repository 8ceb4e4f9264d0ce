//! The prize pool of a game room: players deposit lamports into the room's
//! escrow, a fee stays behind, and the rest can be claimed once.
//!
//! The functions here decide and compute; moving lamports between accounts
//! through the system program, and writing the account back, is the caller's
//! part. A refused request changes nothing, as on chain, where an instruction
//! that fails leaves every account as it was.

use vstd::prelude::*;

verus! {

/// Share of every deposit, in percent, that stays in the escrow as a fee.
pub const FEE_PERCENTAGE: u8 = 10;

/// Why the prize pool refused a request.
#[derive(Debug, Clone, Copy, PartialEq, Eq, Structural)]
pub enum ErrorCode {
    /// The request names another room than the one the pool belongs to.
    RoomIdMismatch,
    /// The prize of the pool has been claimed already.
    PrizeAlreadyClaimed,
}

impl ErrorCode {
    /// The message that goes with the error.
    pub fn msg(&self) -> (text: &'static str)
        ensures
            text@ == (match self {
                ErrorCode::RoomIdMismatch => "Room ID mismatch"@,
                ErrorCode::PrizeAlreadyClaimed => "Prize has already been claimed"@,
            }),
    {
        match self {
            ErrorCode::RoomIdMismatch => "Room ID mismatch",
            ErrorCode::PrizeAlreadyClaimed => "Prize has already been claimed",
        }
    }
}

/// The prize pool account of one room.
#[derive(Debug)]
pub struct PrizePool {
    /// Room the pool belongs to.
    pub room_id: String,
    /// Prize collected so far, in lamports.
    pub total_lamports: u64,
    /// Whether the prize has been claimed.
    pub is_claimed: bool,
    /// Number of deposits counted since the pool was last opened.
    pub player_count: u8,
}

/// A prize pool as a mathematical value.
pub struct PoolView {
    pub room_id: Seq<char>,
    pub total_lamports: nat,
    pub is_claimed: bool,
    pub player_count: nat,
}

impl View for PrizePool {
    type V = PoolView;

    open spec fn view(&self) -> PoolView {
        PoolView {
            room_id: self.room_id@,
            total_lamports: self.total_lamports as nat,
            is_claimed: self.is_claimed,
            player_count: self.player_count as nat,
        }
    }
}

/// The fee taken from a deposit of `amount` lamports.
pub open spec fn spec_fee(amount: nat) -> nat {
    amount * (FEE_PERCENTAGE as nat) / 100
}

/// The part of a deposit of `amount` lamports that goes to the prize.
pub open spec fn spec_prize(amount: nat) -> int {
    amount - spec_fee(amount)
}

/// The pool that a deposit for `room_id` works on: an empty pool (one that
/// holds no prize) is opened afresh for that room, any other stays as it is.
pub open spec fn opened_for(pool: PoolView, room_id: Seq<char>) -> PoolView {
    if pool.total_lamports == 0 {
        PoolView { room_id, total_lamports: 0, is_claimed: false, player_count: 0 }
    } else {
        pool
    }
}

/// Why a request for `room_id` on `pool` is refused, if it is.
pub open spec fn room_refusal(pool: PoolView, room_id: Seq<char>) -> Option<ErrorCode> {
    if pool.room_id != room_id {
        Some(ErrorCode::RoomIdMismatch)
    } else if pool.is_claimed {
        Some(ErrorCode::PrizeAlreadyClaimed)
    } else {
        None
    }
}

/// Why a deposit for `room_id` into `pool` is refused, if it is.
pub open spec fn deposit_refusal(pool: PoolView, room_id: Seq<char>) -> Option<ErrorCode> {
    room_refusal(opened_for(pool, room_id), room_id)
}

/// Why a claim for `room_id` on `pool` is refused, if it is.
pub open spec fn claim_refusal(pool: PoolView, room_id: Seq<char>) -> Option<ErrorCode> {
    room_refusal(pool, room_id)
}

/// What a request answers, given why it is refused, if it is.
pub open spec fn answer(refusal: Option<ErrorCode>) -> Result<(), ErrorCode> {
    match refusal {
        Some(e) => Err(e),
        None => Ok(()),
    }
}

/// The pool after an accepted deposit of `amount` lamports for `room_id`.
pub open spec fn after_deposit(pool: PoolView, room_id: Seq<char>, amount: nat) -> PoolView {
    let base = opened_for(pool, room_id);
    PoolView {
        total_lamports: (base.total_lamports + spec_prize(amount)) as nat,
        player_count: base.player_count + 1,
        ..base
    }
}

/// Whether the counters of the pool have room for a deposit of `amount`
/// lamports for `room_id` (else the arithmetic of the deposit overflows).
pub open spec fn deposit_fits(pool: PoolView, room_id: Seq<char>, amount: nat) -> bool {
    let base = opened_for(pool, room_id);
    &&& amount * (FEE_PERCENTAGE as nat) <= u64::MAX
    &&& base.total_lamports + spec_prize(amount) <= u64::MAX
    &&& base.player_count + 1 <= u8::MAX
}

/// The pool after an accepted claim.
pub open spec fn after_claim(pool: PoolView) -> PoolView {
    PoolView { is_claimed: true, ..pool }
}

/// The escrow's balance after an accepted claim on `pool`.
pub open spec fn escrow_after_claim(pool: PoolView, escrow: nat) -> int {
    escrow - pool.total_lamports
}

/// The claimer's balance after an accepted claim on `pool`.
pub open spec fn claimer_after_claim(pool: PoolView, claimer: nat) -> nat {
    claimer + pool.total_lamports
}

/// Whether the claimer and the escrow can take an accepted claim on `pool`
/// without their balances leaving the range of a `u64`.
pub open spec fn claim_fits(pool: PoolView, escrow: nat, claimer: nat) -> bool {
    &&& pool.total_lamports <= escrow
    &&& claimer + pool.total_lamports <= u64::MAX
}

/// The fee taken from a deposit of `amount` lamports: `FEE_PERCENTAGE`
/// percent of it, rounded down.
pub fn fee_amount(amount: u64) -> (fee: u64)
    requires
        amount * (FEE_PERCENTAGE as nat) <= u64::MAX,
    ensures
        fee == spec_fee(amount as nat),
        fee <= amount,
{
    (amount * (FEE_PERCENTAGE as u64)) / 100
}

/// The part of a deposit of `amount` lamports that goes to the prize.
pub fn prize_amount(amount: u64) -> (prize: u64)
    requires
        amount * (FEE_PERCENTAGE as nat) <= u64::MAX,
    ensures
        prize == spec_prize(amount as nat),
{
    amount - fee_amount(amount)
}

/// Whether a deposit of `amount` lamports for `room_id` would be accepted
/// but overflow the pool's counters (a deposit that `UNSAFE_deposit` does
/// not take: the caller aborts instead).
pub fn deposit_overflows(
    prize_pool: &PrizePool,
    room_id: &String,
    amount: u64,
) -> (overflows: bool)
    ensures
        overflows == (deposit_refusal(prize_pool@, room_id@) is None && !deposit_fits(
            prize_pool@,
            room_id@,
            amount as nat,
        )),
{
    let base_total: u64;
    let base_count: u8;
    if prize_pool.total_lamports == 0 {
        base_total = 0;
        base_count = 0;
    } else {
        if !(prize_pool.room_id == *room_id) || prize_pool.is_claimed {
            return false;
        }
        base_total = prize_pool.total_lamports;
        base_count = prize_pool.player_count;
    }
    if amount > u64::MAX / (FEE_PERCENTAGE as u64) {
        return true;
    }
    let prize = prize_amount(amount);
    base_total > u64::MAX - prize || base_count == u8::MAX
}

/// Whether a claim for `room_id` would be accepted but overdraw the escrow,
/// holding `escrow_lamports`, or overflow the claimer's balance,
/// `claimer_lamports` (a claim that `UNSAFE_claim_prize` does not take: the
/// caller aborts instead).
pub fn claim_overflows(
    prize_pool: &PrizePool,
    room_id: &String,
    escrow_lamports: u64,
    claimer_lamports: u64,
) -> (overflows: bool)
    ensures
        overflows == (claim_refusal(prize_pool@, room_id@) is None && !claim_fits(
            prize_pool@,
            escrow_lamports as nat,
            claimer_lamports as nat,
        )),
{
    if !(prize_pool.room_id == *room_id) || prize_pool.is_claimed {
        return false;
    }
    prize_pool.total_lamports > escrow_lamports || claimer_lamports > u64::MAX
        - prize_pool.total_lamports
}

/// Counts a deposit of `amount` lamports by a player into the pool of room
/// `room_id`.
///
/// A pool that holds no prize is first opened afresh for `room_id`. The
/// deposit is refused with `RoomIdMismatch` when the pool belongs to another
/// room, and else with `PrizeAlreadyClaimed` when its prize has been claimed;
/// a refused deposit leaves the pool as it was. An accepted one adds the
/// amount less the fee to the prize and counts one more player. The lamports
/// themselves are moved into the escrow by the caller.
#[allow(non_snake_case)]
pub fn UNSAFE_deposit(
    prize_pool: &mut PrizePool,
    room_id: String,
    amount: u64,
) -> (result: Result<(), ErrorCode>)
    requires
        deposit_refusal(old(prize_pool)@, room_id@) is None ==> deposit_fits(
            old(prize_pool)@,
            room_id@,
            amount as nat,
        ),
    ensures
        result == answer(deposit_refusal(old(prize_pool)@, room_id@)),
        result is Ok ==> final(prize_pool)@ == after_deposit(
            old(prize_pool)@,
            room_id@,
            amount as nat,
        ),
        result is Err ==> final(prize_pool)@ == old(prize_pool)@,
{
    if prize_pool.total_lamports == 0 {
        prize_pool.room_id = room_id;
        prize_pool.is_claimed = false;
        prize_pool.total_lamports = 0;
        prize_pool.player_count = 0;
    } else {
        if !(prize_pool.room_id == room_id) {
            return Err(ErrorCode::RoomIdMismatch);
        }
        if prize_pool.is_claimed {
            return Err(ErrorCode::PrizeAlreadyClaimed);
        }
    }
    let prize = prize_amount(amount);
    prize_pool.total_lamports = prize_pool.total_lamports + prize;
    prize_pool.player_count = prize_pool.player_count + 1;
    Ok(())
}

/// Pays the prize of the pool of room `room_id` out of the escrow to the
/// claimer, and marks it claimed.
///
/// The claim is refused with `RoomIdMismatch` when the pool belongs to
/// another room, and else with `PrizeAlreadyClaimed` when its prize has been
/// claimed; a refused claim changes no balance and leaves the pool as it was.
/// The prize stays recorded in the pool after the claim.
#[allow(non_snake_case)]
pub fn UNSAFE_claim_prize(
    prize_pool: &mut PrizePool,
    room_id: String,
    escrow_lamports: &mut u64,
    claimer_lamports: &mut u64,
) -> (result: Result<(), ErrorCode>)
    requires
        claim_refusal(old(prize_pool)@, room_id@) is None ==> claim_fits(
            old(prize_pool)@,
            *old(escrow_lamports) as nat,
            *old(claimer_lamports) as nat,
        ),
    ensures
        result == answer(claim_refusal(old(prize_pool)@, room_id@)),
        result is Ok ==> {
            &&& final(prize_pool)@ == after_claim(old(prize_pool)@)
            &&& *final(escrow_lamports) == escrow_after_claim(
                old(prize_pool)@,
                *old(escrow_lamports) as nat,
            )
            &&& *final(claimer_lamports) == claimer_after_claim(
                old(prize_pool)@,
                *old(claimer_lamports) as nat,
            )
        },
        result is Err ==> {
            &&& final(prize_pool)@ == old(prize_pool)@
            &&& *final(escrow_lamports) == *old(escrow_lamports)
            &&& *final(claimer_lamports) == *old(claimer_lamports)
        },
{
    if !(prize_pool.room_id == room_id) {
        return Err(ErrorCode::RoomIdMismatch);
    }
    if prize_pool.is_claimed {
        return Err(ErrorCode::PrizeAlreadyClaimed);
    }
    let prize = prize_pool.total_lamports;
    *escrow_lamports = *escrow_lamports - prize;
    *claimer_lamports = *claimer_lamports + prize;
    prize_pool.is_claimed = true;
    Ok(())
}

} // verus!
