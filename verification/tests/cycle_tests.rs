use relay::cycle::conclude_submission;
use relay::cycle::plan_cycle;
use relay::cycle::SubmitEvent;
use relay::errors::RelayError;
use solana_program::pubkey::Pubkey;
use std::str::FromStr;

fn addresses() -> (Vec<u8>, Vec<u8>, Vec<u8>) {
    (vec![2u8; 32], vec![3u8; 32], vec![4u8; 32])
}

#[test]
fn scenario_full_submission_plan() {
    let (program, slots_account, wallet) = addresses();
    let mut account = vec![0u8; 40];
    for i in 8..40 {
        account[i] = 0x01;
    }
    let slot: u64 = 100;
    let plan = plan_cycle(&Some(account), slot, &program, &slots_account, &wallet).unwrap();

    let mut expected_data = vec![249u8, 209, 47, 60, 18, 3, 81, 219];
    expected_data.extend_from_slice(&100u64.to_le_bytes());
    expected_data.extend_from_slice(&[0x01; 32]);
    expected_data.extend_from_slice(&[0x00; 32]);
    assert_eq!(plan.data, expected_data);
    assert_eq!(plan.program, program);

    let (derived, _) = Pubkey::find_program_address(
        &[b"roots", &slot.to_le_bytes()],
        &Pubkey::new_from_array([2u8; 32]),
    );
    assert_eq!(plan.accounts.len(), 4);
    assert_eq!(plan.accounts[0].address, slots_account);
    assert!(plan.accounts[0].writable && !plan.accounts[0].signer);
    assert_eq!(plan.accounts[1].address, vec![0u8; 32]);
    assert!(!plan.accounts[1].writable && !plan.accounts[1].signer);
    assert_eq!(plan.accounts[2].address, derived.to_bytes().to_vec());
    assert!(plan.accounts[2].writable && !plan.accounts[2].signer);
    assert_eq!(plan.accounts[3].address, wallet);
    assert!(plan.accounts[3].writable && plan.accounts[3].signer);
}

#[test]
fn scenario_missing_account() {
    let (program, slots_account, wallet) = addresses();
    let r = plan_cycle(&None, 100, &program, &slots_account, &wallet);
    assert_eq!(r, Err(RelayError::AccountNotFound));
}

#[test]
fn scenario_short_account_data() {
    let (program, slots_account, wallet) = addresses();
    let r = plan_cycle(&Some(vec![1u8; 39]), 100, &program, &slots_account, &wallet);
    assert_eq!(r, Err(RelayError::MalformedAccountData));
}

#[test]
fn planning_is_stateless_between_cycles() {
    let (program, slots_account, wallet) = addresses();
    let account = Some(vec![0x42u8; 64]);
    let a = plan_cycle(&account, 7, &program, &slots_account, &wallet).unwrap();
    let failed = plan_cycle(&None, 8, &program, &slots_account, &wallet);
    assert!(failed.is_err());
    let b = plan_cycle(&account, 7, &program, &slots_account, &wallet).unwrap();
    assert_eq!(a, b);
}

#[test]
fn scenario_submission_transport_failure() {
    assert_eq!(
        conclude_submission(SubmitEvent::TransportFailed),
        Err(RelayError::TransportError)
    );
}

#[test]
fn submission_conclusion_covers_every_report() {
    assert_eq!(
        conclude_submission(SubmitEvent::Confirmed(vec![5u8; 64])),
        Ok(vec![5u8; 64])
    );
    assert_eq!(
        conclude_submission(SubmitEvent::SigningFailed),
        Err(RelayError::SubmissionError)
    );
    assert_eq!(
        conclude_submission(SubmitEvent::ConfirmationFailed),
        Err(RelayError::ConfirmationError)
    );
}

#[test]
fn system_program_account_is_the_known_address() {
    let (program, slots_account, wallet) = addresses();
    let plan = plan_cycle(&Some(vec![0u8; 40]), 1, &program, &slots_account, &wallet).unwrap();
    let expected = Pubkey::from_str("11111111111111111111111111111111").unwrap();
    assert_eq!(plan.accounts[1].address, expected.to_bytes().to_vec());
}
