use ecobottle::{
    redeem_tokens, redemption_burn_request, BurnRequest, ErrorCode, LedgerReply, Pubkey,
    RedeemTokens, RedemptionRecord, UserProfile,
};

fn user_key() -> Pubkey {
    Pubkey { bytes: [9; 32] }
}

fn redemption(balance: u64, spent: u64) -> RedeemTokens {
    RedeemTokens {
        user_profile: UserProfile {
            owner: user_key(),
            username: String::from("luis"),
            total_deposits: 3,
            total_pet_weight: 4200,
            total_ecoc_earned: 420,
            total_ecoc_spent: spent,
            created_at: 5,
            bump: 250,
        },
        redemption_record: None,
        user: user_key(),
        user_token_balance: balance,
        bump: 249,
    }
}

#[test]
fn redemption_burns_and_spends_exactly_the_amount() {
    let mut ctx = redemption(300, 120);
    let before = ctx.clone();
    let burned = redeem_tokens(&mut ctx, 75, String::from("bolsa-01"), 1234, LedgerReply::Accepted);
    assert_eq!(burned, Ok(BurnRequest { from: user_key(), amount: 75 }));
    assert_eq!(ctx.user_profile.total_ecoc_spent, 195);
    assert_eq!(
        ctx.redemption_record,
        Some(RedemptionRecord {
            user: user_key(),
            product_id: String::from("bolsa-01"),
            amount: 75,
            timestamp: 1234,
            bump: 249,
        })
    );
    let mut expected = before;
    expected.user_profile.total_ecoc_spent = 195;
    expected.redemption_record = ctx.redemption_record.clone();
    assert_eq!(ctx, expected);
}

#[test]
fn burn_request_is_what_the_redemption_returns() {
    let mut ctx = redemption(300, 120);
    let product = String::from("bolsa-01");
    let asked = redemption_burn_request(&ctx, 75, &product).unwrap();
    assert_eq!(asked, BurnRequest { from: user_key(), amount: 75 });
    let done = redeem_tokens(&mut ctx, 75, product, 1, LedgerReply::Accepted).unwrap();
    assert_eq!(asked, done);
}

#[test]
fn burn_request_changes_nothing() {
    let ctx = redemption(300, 120);
    let before = ctx.clone();
    let _ = redemption_burn_request(&ctx, 75, &String::from("bolsa-01"));
    assert_eq!(ctx, before);
}

#[test]
fn redeeming_more_than_the_balance_is_refused() {
    let mut ctx = redemption(300, 120);
    let before = ctx.clone();
    assert_eq!(
        redeem_tokens(&mut ctx, 301, String::from("bolsa-01"), 1234, LedgerReply::Accepted),
        Err(ErrorCode::InsufficientTokens)
    );
    assert_eq!(ctx, before);
    assert_eq!(ctx.user_profile.total_ecoc_spent, 120);
    assert_eq!(
        redemption_burn_request(&ctx, 301, &String::from("bolsa-01")),
        Err(ErrorCode::InsufficientTokens)
    );
}

#[test]
fn balance_is_what_the_ledger_holds_not_what_was_earned() {
    let mut ctx = redemption(10, 0);
    assert_eq!(ctx.user_profile.total_ecoc_earned, 420);
    assert_eq!(
        redeem_tokens(&mut ctx, 11, String::from("x"), 1, LedgerReply::Accepted),
        Err(ErrorCode::InsufficientTokens)
    );
    let mut rich = redemption(1000, 0);
    assert!(redeem_tokens(&mut rich, 900, String::from("x"), 1, LedgerReply::Accepted).is_ok());
    assert_eq!(rich.user_profile.total_ecoc_spent, 900);
}

#[test]
fn redeeming_the_whole_balance_is_accepted() {
    let mut ctx = redemption(300, 120);
    assert!(redeem_tokens(&mut ctx, 300, String::from("p"), 1, LedgerReply::Accepted).is_ok());
    assert_eq!(ctx.user_profile.total_ecoc_spent, 420);
    assert_eq!(ctx.user_token_balance, 300);
}

#[test]
fn redeeming_nothing_is_accepted() {
    let mut ctx = redemption(0, 120);
    let burned = redeem_tokens(&mut ctx, 0, String::new(), 1, LedgerReply::Accepted);
    assert_eq!(burned, Ok(BurnRequest { from: user_key(), amount: 0 }));
    assert_eq!(ctx.user_profile.total_ecoc_spent, 120);
    assert!(ctx.redemption_record.is_some());
}

#[test]
fn product_id_of_32_bytes_fits_and_of_33_does_not() {
    let mut ctx = redemption(300, 120);
    let before = ctx.clone();
    assert_eq!(
        redeem_tokens(&mut ctx, 10, "p".repeat(33), 1, LedgerReply::Accepted),
        Err(ErrorCode::ProductIdTooLong)
    );
    assert_eq!(ctx, before);
    assert!(redeem_tokens(&mut ctx, 10, "p".repeat(32), 1, LedgerReply::Accepted).is_ok());
    assert_eq!(ctx.redemption_record.unwrap().product_id, "p".repeat(32));
}

#[test]
fn product_id_is_measured_in_bytes() {
    let mut ctx = redemption(300, 120);
    assert_eq!(
        redeem_tokens(&mut ctx, 10, "ñ".repeat(17), 1, LedgerReply::Accepted),
        Err(ErrorCode::ProductIdTooLong)
    );
    assert!(redeem_tokens(&mut ctx, 10, "ñ".repeat(16), 1, LedgerReply::Accepted).is_ok());
}

#[test]
fn any_product_id_that_fits_is_taken() {
    let mut ctx = redemption(300, 120);
    assert!(
        redeem_tokens(&mut ctx, 1, String::from("no such product"), 1, LedgerReply::Accepted)
            .is_ok()
    );
}

#[test]
fn long_product_id_is_told_before_low_balance() {
    let mut ctx = redemption(5, 0);
    assert_eq!(
        redeem_tokens(&mut ctx, 10, "p".repeat(40), 1, LedgerReply::Accepted),
        Err(ErrorCode::ProductIdTooLong)
    );
}

#[test]
fn redemption_whose_place_is_taken_is_refused() {
    let mut ctx = redemption(300, 120);
    assert!(redeem_tokens(&mut ctx, 0, String::from("a"), 1, LedgerReply::Accepted).is_ok());
    let before = ctx.clone();
    assert_eq!(
        redeem_tokens(&mut ctx, 10, String::from("b"), 2, LedgerReply::Accepted),
        Err(ErrorCode::RecordAlreadyExists)
    );
    assert_eq!(ctx, before);
}

#[test]
fn low_balance_is_told_before_a_taken_place() {
    let mut ctx = redemption(300, 120);
    assert!(redeem_tokens(&mut ctx, 0, String::from("a"), 1, LedgerReply::Accepted).is_ok());
    assert_eq!(
        redeem_tokens(&mut ctx, 301, String::from("b"), 2, LedgerReply::Accepted),
        Err(ErrorCode::InsufficientTokens)
    );
}

#[test]
fn total_spent_that_would_overflow_refuses_the_redemption() {
    let mut ctx = redemption(300, u64::MAX - 74);
    let before = ctx.clone();
    assert_eq!(
        redeem_tokens(&mut ctx, 75, String::from("a"), 1, LedgerReply::Accepted),
        Err(ErrorCode::ArithmeticOverflow)
    );
    assert_eq!(ctx, before);
    assert!(redeem_tokens(&mut ctx, 74, String::from("a"), 1, LedgerReply::Accepted).is_ok());
    assert_eq!(ctx.user_profile.total_ecoc_spent, u64::MAX);
}

#[test]
fn redemption_fails_and_changes_nothing_when_the_ledger_refuses() {
    let mut ctx = redemption(300, 120);
    let before = ctx.clone();
    assert_eq!(
        redeem_tokens(&mut ctx, 75, String::from("a"), 1, LedgerReply::Refused),
        Err(ErrorCode::LedgerFailure)
    );
    assert_eq!(ctx, before);
    assert_eq!(
        redeem_tokens(&mut ctx, 301, String::from("a"), 1, LedgerReply::Refused),
        Err(ErrorCode::InsufficientTokens)
    );
}
