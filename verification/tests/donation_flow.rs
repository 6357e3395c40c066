use solana_twitter::constants::MIN_DONATION_AMOUNT;
use solana_twitter::errors::{DonationError, ErrorCode};
use solana_twitter::ledger::Ledger;
use solana_twitter::states::Donation;

fn bytes(s: &str) -> Vec<u8> {
    s.as_bytes().to_vec()
}

fn platform_with_creator(fee_percent: u64) -> Ledger {
    let mut l = Ledger::new();
    assert_eq!(l.initialize(fee_percent, 999), Ok(()));
    assert_eq!(
        l.create_profile(1, bytes("alice"), bytes("Alice"), bytes(""), bytes(""), 100),
        Ok(())
    );
    l
}

fn balance(l: &Ledger, owner: u64) -> u64 {
    l.balances.iter().find(|b| b.owner == owner).map(|b| b.amount).unwrap_or(0)
}

fn donation_record(l: &Ledger, donor: u64, recipient: u64) -> Option<Donation> {
    l.donations.iter().find(|d| d.donor == donor && d.recipient == recipient).copied()
}

#[test]
fn donation_split_is_exact_at_five_percent() {
    let mut l = platform_with_creator(5);
    l.fund_account(7, 150_000_000);
    assert_eq!(l.donate_to_creator(7, 1, 100_000_000, 300), Ok(()));
    assert_eq!(l.profiles[0].total_donations_received, 95_000_000);
    assert_eq!(balance(&l, 1), 95_000_000);
    assert_eq!(balance(&l, 999), 5_000_000);
    assert_eq!(balance(&l, 7), 50_000_000);
    assert_eq!(l.state.total_donations, 100_000_000);
    let d = donation_record(&l, 7, 1).expect("donation logged");
    assert_eq!(d.amount, 100_000_000);
    assert_eq!(d.timestamp, 300);
}

#[test]
fn zero_fee_sends_full_amount_and_no_platform_transfer() {
    let mut l = platform_with_creator(0);
    l.fund_account(7, 100_000_000);
    assert_eq!(l.donate_to_creator(7, 1, 100_000_000, 300), Ok(()));
    assert_eq!(l.profiles[0].total_donations_received, 100_000_000);
    assert_eq!(balance(&l, 1), 100_000_000);
    assert_eq!(balance(&l, 999), 0);
    assert!(l.balances.iter().all(|b| b.owner != 999));
    assert_eq!(balance(&l, 7), 0);
}

#[test]
fn donation_below_minimum_rejected_at_boundary() {
    let mut l = platform_with_creator(5);
    l.fund_account(7, 100_000_000);
    assert_eq!(MIN_DONATION_AMOUNT, 20_000_000);
    assert_eq!(
        l.donate_to_creator(7, 1, 19_999_999, 300),
        Err(DonationError::Code(ErrorCode::InvalidDonationAmount))
    );
    assert_eq!(l.state.total_donations, 0);
    assert_eq!(balance(&l, 7), 100_000_000);
}

#[test]
fn donation_at_minimum_succeeds() {
    let mut l = platform_with_creator(5);
    l.fund_account(7, 100_000_000);
    assert_eq!(l.donate_to_creator(7, 1, 20_000_000, 300), Ok(()));
    assert_eq!(l.profiles[0].total_donations_received, 19_000_000);
    assert_eq!(balance(&l, 999), 1_000_000);
    assert_eq!(l.state.total_donations, 20_000_000);
}

#[test]
fn donation_to_self_rejected_without_mutation() {
    let mut l = platform_with_creator(5);
    l.fund_account(1, 100_000_000);
    assert_eq!(
        l.donate_to_creator(1, 1, 50_000_000, 300),
        Err(DonationError::Code(ErrorCode::CannotDonateToSelf))
    );
    assert_eq!(balance(&l, 1), 100_000_000);
    assert_eq!(l.state.total_donations, 0);
    assert!(l.donations.is_empty());
}

#[test]
fn donation_to_missing_profile_rejected() {
    let mut l = platform_with_creator(5);
    l.fund_account(7, 100_000_000);
    assert_eq!(
        l.donate_to_creator(7, 4, 50_000_000, 300),
        Err(DonationError::Code(ErrorCode::ProfileNotFound))
    );
}

#[test]
fn insufficient_funding_fails_transfer_without_mutation() {
    let mut l = platform_with_creator(5);
    l.fund_account(7, 30_000_000);
    assert_eq!(
        l.donate_to_creator(7, 1, 50_000_000, 300),
        Err(DonationError::TransferFailed)
    );
    assert_eq!(balance(&l, 7), 30_000_000);
    assert_eq!(balance(&l, 1), 0);
    assert_eq!(l.profiles[0].total_donations_received, 0);
    assert!(l.donations.is_empty());
    let unfunded = l.donate_to_creator(8, 1, 50_000_000, 301);
    assert_eq!(unfunded, Err(DonationError::TransferFailed));
}

#[test]
fn second_donation_overwrites_pair_record() {
    let mut l = platform_with_creator(5);
    l.fund_account(7, 200_000_000);
    assert_eq!(l.donate_to_creator(7, 1, 100_000_000, 300), Ok(()));
    assert_eq!(l.donate_to_creator(7, 1, 40_000_000, 310), Ok(()));
    assert_eq!(l.donations.len(), 1);
    let d = donation_record(&l, 7, 1).expect("donation logged");
    assert_eq!(d.amount, 40_000_000);
    assert_eq!(d.timestamp, 310);
    assert_eq!(l.state.total_donations, 140_000_000);
    assert_eq!(l.profiles[0].total_donations_received, 95_000_000 + 38_000_000);
}

#[test]
fn fee_truncates_toward_zero() {
    let mut l = platform_with_creator(3);
    l.fund_account(7, 100_000_000);
    assert_eq!(l.donate_to_creator(7, 1, 20_000_001, 300), Ok(()));
    // 3% of 20_000_001 truncates to 600_000.
    assert_eq!(balance(&l, 999), 600_000);
    assert_eq!(l.profiles[0].total_donations_received, 19_400_001);
}
