use rollup_game::prize_pool::{
    fee_amount, prize_amount, ErrorCode, PrizePool, UNSAFE_claim_prize, UNSAFE_deposit,
    FEE_PERCENTAGE,
};

fn pool(room_id: &str, total_lamports: u64, is_claimed: bool, player_count: u8) -> PrizePool {
    PrizePool { room_id: room_id.to_string(), total_lamports, is_claimed, player_count }
}

fn same(a: &PrizePool, b: &PrizePool) -> bool {
    a.room_id == b.room_id
        && a.total_lamports == b.total_lamports
        && a.is_claimed == b.is_claimed
        && a.player_count == b.player_count
}

#[test]
fn fee_is_ten_percent_rounded_down() {
    assert_eq!(FEE_PERCENTAGE, 10);
    assert_eq!(fee_amount(0), 0);
    assert_eq!(fee_amount(9), 0);
    assert_eq!(fee_amount(99), 9);
    assert_eq!(fee_amount(100), 10);
    assert_eq!(fee_amount(1_000_000_000), 100_000_000);
    assert_eq!(fee_amount(u64::MAX / 10), u64::MAX / 100);
}

#[test]
fn prize_is_deposit_less_fee() {
    assert_eq!(prize_amount(0), 0);
    assert_eq!(prize_amount(1), 1);
    assert_eq!(prize_amount(15), 14);
    assert_eq!(prize_amount(100), 90);
    for amount in [0u64, 1, 7, 10, 11, 99, 100, 12345, 1_000_000_007] {
        assert_eq!(fee_amount(amount) + prize_amount(amount), amount);
        assert_eq!(fee_amount(amount), amount / 10);
    }
}

#[test]
fn first_deposit_opens_the_pool_for_the_room() {
    let mut p = pool("", 0, false, 0);
    assert_eq!(UNSAFE_deposit(&mut p, "room-1".to_string(), 1000), Ok(()));
    assert!(same(&p, &pool("room-1", 900, false, 1)));
}

#[test]
fn deposits_accumulate_prize_and_players() {
    let mut p = pool("", 0, false, 0);
    let amounts = [1000u64, 250, 33, 1];
    let mut expected = 0u64;
    for (i, amount) in amounts.iter().enumerate() {
        assert_eq!(UNSAFE_deposit(&mut p, "room-1".to_string(), *amount), Ok(()));
        expected += amount - amount / 10;
        assert_eq!(p.total_lamports, expected);
        assert_eq!(p.player_count as usize, i + 1);
    }
    assert_eq!(p.total_lamports, 900 + 225 + 30 + 1);
    assert!(!p.is_claimed);
}

#[test]
fn deposit_for_another_room_is_refused() {
    let mut p = pool("room-1", 900, false, 1);
    assert_eq!(UNSAFE_deposit(&mut p, "room-2".to_string(), 1000), Err(ErrorCode::RoomIdMismatch));
    assert!(same(&p, &pool("room-1", 900, false, 1)));
}

#[test]
fn deposit_into_claimed_pool_is_refused() {
    let mut p = pool("room-1", 900, true, 1);
    assert_eq!(
        UNSAFE_deposit(&mut p, "room-1".to_string(), 1000),
        Err(ErrorCode::PrizeAlreadyClaimed)
    );
    assert!(same(&p, &pool("room-1", 900, true, 1)));
}

#[test]
fn room_mismatch_is_reported_before_claimed() {
    let mut p = pool("room-1", 900, true, 1);
    assert_eq!(UNSAFE_deposit(&mut p, "room-2".to_string(), 10), Err(ErrorCode::RoomIdMismatch));
    let mut escrow = 1000u64;
    let mut claimer = 0u64;
    assert_eq!(
        UNSAFE_claim_prize(&mut p, "room-2".to_string(), &mut escrow, &mut claimer),
        Err(ErrorCode::RoomIdMismatch)
    );
}

#[test]
fn empty_pool_is_reopened_by_any_room() {
    // A pool without a prize is opened afresh, even a claimed one of another room.
    let mut p = pool("room-1", 0, true, 7);
    assert_eq!(UNSAFE_deposit(&mut p, "room-2".to_string(), 50), Ok(()));
    assert!(same(&p, &pool("room-2", 45, false, 1)));
}

#[test]
fn zero_deposit_counts_a_player_but_keeps_pool_empty() {
    let mut p = pool("", 0, false, 0);
    assert_eq!(UNSAFE_deposit(&mut p, "room-1".to_string(), 0), Ok(()));
    assert!(same(&p, &pool("room-1", 0, false, 1)));
    // The pool is still empty, so the next deposit opens it again.
    assert_eq!(UNSAFE_deposit(&mut p, "room-1".to_string(), 0), Ok(()));
    assert!(same(&p, &pool("room-1", 0, false, 1)));
}

#[test]
fn largest_deposit_without_overflow() {
    let mut p = pool("", 0, false, 0);
    let amount = u64::MAX / 10;
    assert_eq!(UNSAFE_deposit(&mut p, "r".to_string(), amount), Ok(()));
    assert_eq!(p.total_lamports, amount - amount / 10);
}

#[test]
fn claim_pays_the_prize_and_marks_it() {
    let mut p = pool("room-1", 900, false, 1);
    let mut escrow = 1000u64;
    let mut claimer = 5u64;
    assert_eq!(UNSAFE_claim_prize(&mut p, "room-1".to_string(), &mut escrow, &mut claimer), Ok(()));
    assert_eq!(escrow, 100);
    assert_eq!(claimer, 905);
    assert_eq!(escrow + claimer, 1005);
    assert!(same(&p, &pool("room-1", 900, true, 1)));
}

#[test]
fn prize_is_claimed_only_once() {
    let mut p = pool("room-1", 900, false, 1);
    let mut escrow = 1000u64;
    let mut claimer = 0u64;
    assert_eq!(UNSAFE_claim_prize(&mut p, "room-1".to_string(), &mut escrow, &mut claimer), Ok(()));
    let mut other = 0u64;
    assert_eq!(
        UNSAFE_claim_prize(&mut p, "room-1".to_string(), &mut escrow, &mut other),
        Err(ErrorCode::PrizeAlreadyClaimed)
    );
    assert_eq!(escrow, 100);
    assert_eq!(other, 0);
    assert_eq!(claimer, 900);
}

#[test]
fn claim_for_another_room_changes_nothing() {
    let mut p = pool("room-1", 900, false, 1);
    let mut escrow = 1000u64;
    let mut claimer = 3u64;
    assert_eq!(
        UNSAFE_claim_prize(&mut p, "room-9".to_string(), &mut escrow, &mut claimer),
        Err(ErrorCode::RoomIdMismatch)
    );
    assert_eq!((escrow, claimer), (1000, 3));
    assert!(same(&p, &pool("room-1", 900, false, 1)));
}

#[test]
fn claimed_pool_refuses_later_deposits() {
    let mut p = pool("", 0, false, 0);
    let mut escrow = 0u64;
    assert_eq!(UNSAFE_deposit(&mut p, "room-1".to_string(), 500), Ok(()));
    escrow += 500;
    let mut claimer = 0u64;
    assert_eq!(UNSAFE_claim_prize(&mut p, "room-1".to_string(), &mut escrow, &mut claimer), Ok(()));
    assert_eq!(claimer, 450);
    assert_eq!(escrow, 50);
    assert_eq!(
        UNSAFE_deposit(&mut p, "room-1".to_string(), 500),
        Err(ErrorCode::PrizeAlreadyClaimed)
    );
    assert_eq!(UNSAFE_deposit(&mut p, "room-2".to_string(), 500), Err(ErrorCode::RoomIdMismatch));
}

#[test]
fn escrow_keeps_covering_the_prize() {
    let mut p = pool("", 0, false, 0);
    let mut escrow = 0u64;
    let mut fees = 0u64;
    for amount in [100u64, 3, 77, 1000] {
        assert_eq!(UNSAFE_deposit(&mut p, "room-1".to_string(), amount), Ok(()));
        escrow += amount;
        fees += fee_amount(amount);
        assert!(p.total_lamports <= escrow);
        assert_eq!(escrow - p.total_lamports, fees);
    }
    let mut claimer = 0u64;
    assert_eq!(UNSAFE_claim_prize(&mut p, "room-1".to_string(), &mut escrow, &mut claimer), Ok(()));
    assert_eq!(escrow, 10 + 0 + 7 + 100);
}

#[test]
fn error_messages() {
    assert_eq!(ErrorCode::RoomIdMismatch.msg(), "Room ID mismatch");
    assert_eq!(ErrorCode::PrizeAlreadyClaimed.msg(), "Prize has already been claimed");
}
