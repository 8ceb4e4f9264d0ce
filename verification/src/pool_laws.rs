//! What holds of the prize pool over several requests.

use vstd::prelude::*;

use crate::prize_pool::{
    after_claim, after_deposit, claim_refusal, claimer_after_claim, deposit_refusal,
    escrow_after_claim, opened_for, spec_fee, spec_prize, ErrorCode, PoolView, PrizePool, answer, deposit_fits,
    claim_fits,
};

verus! {

/// The pool after the deposits `amounts`, in order, all for `room_id`.
pub open spec fn after_deposits(pool: PoolView, room_id: Seq<char>, amounts: Seq<nat>) -> PoolView
    decreases amounts.len(),
{
    if amounts.len() == 0 {
        pool
    } else {
        after_deposit(after_deposits(pool, room_id, amounts.drop_last()), room_id, amounts.last())
    }
}

/// The prizes that the deposits `amounts` add up to.
pub open spec fn prizes_sum(amounts: Seq<nat>) -> int
    decreases amounts.len(),
{
    if amounts.len() == 0 {
        0
    } else {
        prizes_sum(amounts.drop_last()) + spec_prize(amounts.last())
    }
}

/// Whether the escrow, holding `escrow` lamports, covers the prize of
/// `pool` as long as it has not been claimed.
pub open spec fn escrow_covers(pool: PoolView, escrow: nat) -> bool {
    !pool.is_claimed ==> pool.total_lamports <= escrow
}

/// A deposit splits into the fee and the prize, and the fee is a tenth of
/// the deposit, rounded down.
pub proof fn lemma_fee_split(amount: nat)
    ensures
        spec_fee(amount) + spec_prize(amount) == amount,
        spec_fee(amount) == amount / 10,
        0 <= spec_prize(amount) <= amount,
        amount > 0 ==> spec_prize(amount) > 0,
{
    assert(amount * 10 / 100 == amount / 10) by (nonlinear_arith);
    assert(amount / 10 <= amount) by (nonlinear_arith);
    assert(amount > 0 ==> amount / 10 < amount) by (nonlinear_arith);
}

/// A claim moves the prize from the escrow to the claimer: no lamport is
/// made or lost.
pub proof fn lemma_claim_conserves_lamports(pool: PoolView, escrow: nat, claimer: nat)
    ensures
        escrow_after_claim(pool, escrow) + claimer_after_claim(pool, claimer) == escrow + claimer,
{
}

/// A prize is claimed at most once: after an accepted claim every further
/// claim, for whatever room, is refused.
pub proof fn lemma_prize_claimed_once(pool: PoolView, room_id: Seq<char>, other_room_id: Seq<char>)
    requires
        claim_refusal(pool, room_id) is None,
    ensures
        claim_refusal(after_claim(pool), other_room_id) is Some,
{
}

/// Once a prize of some lamports has been claimed, the pool refuses every
/// further deposit.
pub proof fn lemma_claimed_pool_refuses_deposits(
    pool: PoolView,
    room_id: Seq<char>,
    other_room_id: Seq<char>,
)
    requires
        claim_refusal(pool, room_id) is None,
        pool.total_lamports > 0,
    ensures
        deposit_refusal(after_claim(pool), other_room_id) is Some,
{
}

/// A pool that holds no prize takes a deposit for any room.
pub proof fn lemma_empty_pool_takes_deposits(pool: PoolView, room_id: Seq<char>)
    requires
        pool.total_lamports == 0,
    ensures
        deposit_refusal(pool, room_id) is None,
        opened_for(pool, room_id).room_id == room_id,
{
}

/// A request for another room is refused as such, whether or not the prize
/// has been claimed: the room is checked first.
pub proof fn lemma_room_checked_first(pool: PoolView, room_id: Seq<char>)
    requires
        pool.room_id != room_id,
    ensures
        claim_refusal(pool, room_id) == Some(ErrorCode::RoomIdMismatch),
        pool.total_lamports > 0 ==> deposit_refusal(pool, room_id) == Some(
            ErrorCode::RoomIdMismatch,
        ),
{
}

/// An accepted deposit whose lamports reach the escrow keeps the escrow
/// covering the prize, and the fee stays in the escrow beside the prize.
pub proof fn lemma_deposit_keeps_escrow_cover(
    pool: PoolView,
    room_id: Seq<char>,
    amount: nat,
    escrow: nat,
)
    requires
        escrow_covers(pool, escrow),
        deposit_refusal(pool, room_id) is None,
    ensures
        escrow_covers(after_deposit(pool, room_id, amount), escrow + amount),
        (escrow + amount) - after_deposit(pool, room_id, amount).total_lamports == (escrow
            - opened_for(pool, room_id).total_lamports) + spec_fee(amount),
{
    lemma_fee_split(amount);
}

/// An accepted claim on a covered pool never overdraws the escrow, and
/// leaves it covering the pool.
pub proof fn lemma_claim_keeps_escrow_cover(pool: PoolView, room_id: Seq<char>, escrow: nat)
    requires
        escrow_covers(pool, escrow),
        claim_refusal(pool, room_id) is None,
    ensures
        pool.total_lamports <= escrow,
        escrow_covers(after_claim(pool), escrow_after_claim(pool, escrow) as nat),
{
}

/// Once a deposit for `room_id` is accepted, every later deposit for that
/// room is accepted too, and the prize is then what the deposits add up to.
pub proof fn lemma_deposits_accumulate(pool: PoolView, room_id: Seq<char>, amounts: Seq<nat>)
    requires
        deposit_refusal(pool, room_id) is None,
    ensures
        deposit_refusal(after_deposits(pool, room_id, amounts), room_id) is None,
        after_deposits(pool, room_id, amounts).total_lamports == opened_for(
            pool,
            room_id,
        ).total_lamports + prizes_sum(amounts),
    decreases amounts.len(),
{
    if amounts.len() > 0 {
        lemma_deposits_accumulate(pool, room_id, amounts.drop_last());
        lemma_fee_split(amounts.last());
    }
}

/// When every deposit is of at least one lamport, the pool counts one
/// player per deposit, and holds a prize from the first deposit on.
pub proof fn lemma_deposits_count_players(pool: PoolView, room_id: Seq<char>, amounts: Seq<nat>)
    requires
        deposit_refusal(pool, room_id) is None,
        forall|i: int| 0 <= i < amounts.len() ==> amounts[i] > 0,
    ensures
        amounts.len() > 0 ==> after_deposits(pool, room_id, amounts).player_count == opened_for(
            pool,
            room_id,
        ).player_count + amounts.len(),
        amounts.len() > 0 ==> after_deposits(pool, room_id, amounts).total_lamports > 0,
    decreases amounts.len(),
{
    if amounts.len() > 0 {
        let rest = amounts.drop_last();
        assert forall|i: int| 0 <= i < rest.len() implies rest[i] > 0 by {
            assert(rest[i] == amounts[i]);
        }
        lemma_deposits_count_players(pool, room_id, rest);
        lemma_deposits_accumulate(pool, room_id, rest);
        lemma_fee_split(amounts.last());
        assert(amounts.last() == amounts[amounts.len() - 1]);
    }
}

/// A refusal is answered with its error, and no refusal with `Ok`.
pub proof fn lemma_answer(refusal: Option<ErrorCode>)
    ensures
        refusal is None ==> answer(refusal) == Ok::<(), ErrorCode>(()),
        refusal matches Some(e) ==> answer(refusal) == Err::<(), ErrorCode>(e),
{
}

/// A claim for the pool's own room on an unclaimed pool is accepted; a claim
/// for another room is refused with `RoomIdMismatch`; a claim for the pool's
/// room on a claimed pool is refused with `PrizeAlreadyClaimed`. Nothing else
/// (the number of players, the size of the prize) bears on the answer.
pub proof fn lemma_claim_answers(pool: PoolView, room_id: Seq<char>)
    ensures
        pool.room_id == room_id && !pool.is_claimed ==> claim_refusal(pool, room_id) is None,
        pool.room_id != room_id ==> claim_refusal(pool, room_id) == Some(ErrorCode::RoomIdMismatch),
        pool.room_id == room_id && pool.is_claimed ==> claim_refusal(pool, room_id) == Some(
            ErrorCode::PrizeAlreadyClaimed,
        ),
{
}

/// A deposit into a pool without prize is accepted whatever its room; into a
/// pool with a prize it is accepted for the pool's own room while the prize
/// is unclaimed, refused with `RoomIdMismatch` for another room, and refused
/// with `PrizeAlreadyClaimed` for its room once the prize is claimed.
pub proof fn lemma_deposit_answers(pool: PoolView, room_id: Seq<char>)
    ensures
        pool.total_lamports == 0 ==> deposit_refusal(pool, room_id) is None,
        pool.total_lamports > 0 && pool.room_id == room_id && !pool.is_claimed ==> deposit_refusal(
            pool,
            room_id,
        ) is None,
        pool.total_lamports > 0 && pool.room_id != room_id ==> deposit_refusal(pool, room_id)
            == Some(ErrorCode::RoomIdMismatch),
        pool.total_lamports > 0 && pool.room_id == room_id && pool.is_claimed ==> deposit_refusal(
            pool,
            room_id,
        ) == Some(ErrorCode::PrizeAlreadyClaimed),
{
}

/// An accepted deposit of `amount` lamports adds `amount - amount / 10` to
/// the prize and counts one player: into an empty pool it leaves a pool of
/// the deposit's room, unclaimed, holding just that prize and one player;
/// into any other pool it keeps the room and the claim flag.
pub proof fn lemma_deposit_result(pool: PoolView, room_id: Seq<char>, amount: nat)
    ensures
        pool.total_lamports == 0 ==> {
            let after = after_deposit(pool, room_id, amount);
            &&& after.room_id == room_id
            &&& !after.is_claimed
            &&& after.total_lamports == amount - amount / 10
            &&& after.player_count == 1
        },
        pool.total_lamports > 0 ==> {
            let after = after_deposit(pool, room_id, amount);
            &&& after.room_id == pool.room_id
            &&& after.is_claimed == pool.is_claimed
            &&& after.total_lamports == pool.total_lamports + amount - amount / 10
            &&& after.player_count == pool.player_count + 1
        },
{
    lemma_fee_split(amount);
}

/// The deposits that `UNSAFE_deposit` takes are exactly those whose
/// arithmetic stays in range: ten times the amount, and the new prize, fit in
/// a `u64`, and the new player count fits in a `u8`.
pub proof fn lemma_deposit_fits_exactly(pool: PoolView, room_id: Seq<char>, amount: nat)
    ensures
        deposit_fits(pool, room_id, amount) <==> {
            let (total, count) = if pool.total_lamports == 0 {
                (0nat, 0nat)
            } else {
                (pool.total_lamports, pool.player_count)
            };
            &&& amount * 10 <= 0xffff_ffff_ffff_ffff
            &&& total + amount - amount / 10 <= 0xffff_ffff_ffff_ffff
            &&& count + 1 <= 0xff
        },
{
    lemma_fee_split(amount);
}

/// An accepted claim keeps the room, the prize and the player count, and
/// marks the prize claimed; the escrow pays the whole prize and the claimer
/// receives it. The claims that `UNSAFE_claim_prize` takes are exactly those
/// where the escrow holds the prize and the claimer's new balance fits in a
/// `u64`.
pub proof fn lemma_claim_result(pool: PoolView, escrow: nat, claimer: nat)
    ensures
        after_claim(pool).room_id == pool.room_id,
        after_claim(pool).total_lamports == pool.total_lamports,
        after_claim(pool).player_count == pool.player_count,
        after_claim(pool).is_claimed,
        escrow_after_claim(pool, escrow) == escrow - pool.total_lamports,
        claimer_after_claim(pool, claimer) == claimer + pool.total_lamports,
        claim_fits(pool, escrow, claimer) <==> (pool.total_lamports <= escrow && claimer
            + pool.total_lamports <= 0xffff_ffff_ffff_ffff),
{
}

/// The mathematical pool reads each field of the account as it is.
pub proof fn lemma_pool_view_fields(pool: PrizePool)
    ensures
        pool@.room_id == pool.room_id@,
        pool@.total_lamports == pool.total_lamports,
        pool@.is_claimed == pool.is_claimed,
        pool@.player_count == pool.player_count,
{
}

} // verus!
