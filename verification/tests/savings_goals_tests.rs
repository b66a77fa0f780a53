use accrual_engine::address::Address;
use accrual_engine::proof_verifier::SimpleVerifier;
use accrual_engine::savings_goals::{Error, Goal, SavingsGoals};

const ONE_INPUT_DIGEST: [u8; 32] = [
    0xaa, 0xb8, 0x14, 0x16, 0xef, 0x63, 0x36, 0xc0, 0xcb, 0xdb, 0x10, 0xad, 0x70, 0xff, 0xdb, 0x73,
    0x98, 0xa5, 0x36, 0xc8, 0xf6, 0x0d, 0x11, 0x6e, 0x7b, 0xa8, 0x74, 0x20, 0x3f, 0x89, 0xb5, 0xaa,
];

const NO_INPUT_DIGEST: [u8; 32] = [
    0x09, 0xe1, 0x7a, 0xb7, 0xb8, 0xf4, 0xdd, 0x15, 0x65, 0x25, 0xca, 0xb6, 0xdb, 0xd7, 0xe8, 0x2d,
    0x1e, 0x3e, 0x52, 0x35, 0xfc, 0x8c, 0x63, 0x08, 0x8b, 0x1d, 0x8f, 0x83, 0xd7, 0x18, 0x11, 0xe3,
];

fn blob_with_one_input() -> Vec<u8> {
    let mut blob = vec![0u8, 0, 0, 1];
    blob.extend(vec![0x11u8; 32]);
    blob.extend(vec![0x22u8; 100]);
    blob
}

fn blob_without_inputs() -> Vec<u8> {
    let mut blob = vec![0u8, 0, 0, 0];
    blob.extend(0u8..100);
    blob
}

fn alice() -> Address {
    Address::account([1u8; 32])
}

fn bob() -> Address {
    Address::account([2u8; 32])
}

fn verifier_contract() -> Address {
    Address::contract([9u8; 32])
}

fn configured() -> SavingsGoals {
    let mut goals = SavingsGoals::new();
    goals.set_verifier(alice(), verifier_contract()).unwrap();
    goals
}

#[test]
fn goal_is_created_empty() {
    let mut goals = SavingsGoals::new();
    assert_eq!(goals.get_savings_goal(alice()), None);
    assert_eq!(goals.set_savings_goal(alice(), 1000, Some(77)), Ok(()));
    assert_eq!(
        goals.get_savings_goal(alice()),
        Some(Goal {
            target_amount: 1000,
            saved_amount: 0,
            deadline_ts: Some(77),
            achieved: false,
            proof_id: None,
        })
    );
    assert_eq!(goals.get_savings_goal(bob()), None);
}

#[test]
fn goal_target_must_be_positive() {
    let mut goals = SavingsGoals::new();
    assert_eq!(goals.set_savings_goal(alice(), 0, None), Err(Error::InvalidAmount));
    assert_eq!(goals.set_savings_goal(alice(), -5, None), Err(Error::InvalidAmount));
    assert_eq!(goals.get_savings_goal(alice()), None);
}

#[test]
fn replacing_a_goal_keeps_the_balance() {
    let mut goals = SavingsGoals::new();
    goals.set_savings_goal(alice(), 1000, None).unwrap();
    assert_eq!(goals.deposit_to_goal(alice(), 250), Ok(250));
    assert_eq!(goals.set_savings_goal(alice(), 2000, Some(5)), Ok(()));
    assert_eq!(
        goals.get_savings_goal(alice()),
        Some(Goal {
            target_amount: 2000,
            saved_amount: 250,
            deadline_ts: Some(5),
            achieved: false,
            proof_id: None,
        })
    );
}

#[test]
fn refused_replacement_keeps_the_goal() {
    let mut goals = SavingsGoals::new();
    goals.set_savings_goal(alice(), 1000, None).unwrap();
    assert_eq!(goals.set_savings_goal(alice(), 0, Some(5)), Err(Error::InvalidAmount));
    assert_eq!(goals.get_savings_goal(alice()).unwrap().target_amount, 1000);
}

#[test]
fn deposit_adds_to_the_balance() {
    let mut goals = SavingsGoals::new();
    goals.set_savings_goal(alice(), 1000, None).unwrap();
    assert_eq!(goals.deposit_to_goal(alice(), 40), Ok(40));
    assert_eq!(goals.deposit_to_goal(alice(), 2), Ok(42));
    assert_eq!(goals.get_savings_goal(alice()).unwrap().saved_amount, 42);
}

#[test]
fn escrow_deposit_errors() {
    let mut goals = configured();
    let mut verifier = SimpleVerifier::new();
    assert_eq!(goals.deposit_to_goal(alice(), 0), Err(Error::InvalidAmount));
    assert_eq!(goals.deposit_to_goal(alice(), -1), Err(Error::InvalidAmount));
    assert_eq!(goals.deposit_to_goal(alice(), 1), Err(Error::GoalNotFound));
    goals.set_savings_goal(alice(), 1000, None).unwrap();
    goals.submit_proof(&mut verifier, alice(), &blob_with_one_input()).unwrap();
    assert_eq!(goals.deposit_to_goal(alice(), 1), Err(Error::AlreadyAchieved));
    // The amount is looked at first.
    assert_eq!(goals.deposit_to_goal(alice(), 0), Err(Error::InvalidAmount));
    assert_eq!(goals.get_savings_goal(alice()).unwrap().saved_amount, 0);
}

#[test]
fn withdraw_takes_from_the_balance() {
    let mut goals = SavingsGoals::new();
    goals.set_savings_goal(alice(), 1000, None).unwrap();
    goals.deposit_to_goal(alice(), 100).unwrap();
    assert_eq!(goals.withdraw_from_goal(alice(), 30), Ok(70));
    assert_eq!(goals.withdraw_from_goal(alice(), 70), Ok(0));
    assert_eq!(goals.get_savings_goal(alice()).unwrap().saved_amount, 0);
}

#[test]
fn escrow_withdraw_errors() {
    let mut goals = SavingsGoals::new();
    assert_eq!(goals.withdraw_from_goal(alice(), 0), Err(Error::InvalidAmount));
    assert_eq!(goals.withdraw_from_goal(alice(), 1), Err(Error::GoalNotFound));
    goals.set_savings_goal(alice(), 1000, None).unwrap();
    goals.deposit_to_goal(alice(), 100).unwrap();
    assert_eq!(goals.withdraw_from_goal(alice(), 101), Err(Error::InvalidAmount));
    assert_eq!(goals.get_savings_goal(alice()).unwrap().saved_amount, 100);
}

#[test]
fn withdraw_is_open_after_the_goal_is_achieved() {
    let mut goals = configured();
    let mut verifier = SimpleVerifier::new();
    goals.set_savings_goal(alice(), 1000, None).unwrap();
    goals.deposit_to_goal(alice(), 100).unwrap();
    goals.submit_proof(&mut verifier, alice(), &blob_with_one_input()).unwrap();
    assert_eq!(goals.withdraw_from_goal(alice(), 60), Ok(40));
    let goal = goals.get_savings_goal(alice()).unwrap();
    assert!(goal.achieved);
    assert_eq!(goal.saved_amount, 40);
}

#[test]
fn submit_proof_unlocks_the_goal() {
    let mut goals = configured();
    let mut verifier = SimpleVerifier::new();
    goals.set_savings_goal(alice(), 1000, Some(3)).unwrap();
    goals.deposit_to_goal(alice(), 10).unwrap();
    assert_eq!(goals.achieved_goal_count(alice()), 0);
    assert_eq!(
        goals.submit_proof(&mut verifier, alice(), &blob_with_one_input()),
        Ok(ONE_INPUT_DIGEST)
    );
    assert_eq!(
        goals.get_savings_goal(alice()),
        Some(Goal {
            target_amount: 1000,
            saved_amount: 10,
            deadline_ts: Some(3),
            achieved: true,
            proof_id: Some(ONE_INPUT_DIGEST),
        })
    );
    assert_eq!(goals.achieved_goal_count(alice()), 1);
    assert_eq!(goals.achieved_goal_count(bob()), 0);
    assert!(verifier.is_verified(&ONE_INPUT_DIGEST));
}

#[test]
fn submit_proof_errors_in_order() {
    let mut goals = SavingsGoals::new();
    let mut verifier = SimpleVerifier::new();
    let blob = blob_with_one_input();
    assert_eq!(goals.submit_proof(&mut verifier, alice(), &blob), Err(Error::GoalNotFound));
    goals.set_savings_goal(alice(), 1000, None).unwrap();
    assert_eq!(goals.submit_proof(&mut verifier, alice(), &blob), Err(Error::VerifierNotConfigured));
    goals.set_verifier(bob(), verifier_contract()).unwrap();
    assert_eq!(
        goals.submit_proof(&mut verifier, alice(), &vec![0, 0, 0, 9]),
        Err(Error::VerifierCallFailed)
    );
    let goal = goals.get_savings_goal(alice()).unwrap();
    assert!(!goal.achieved);
    assert_eq!(goal.proof_id, None);
    assert_eq!(goals.achieved_goal_count(alice()), 0);
    assert_eq!(verifier.verified_count(), 0);
}

#[test]
fn achieved_goal_refuses_further_proofs() {
    let mut goals = configured();
    let mut verifier = SimpleVerifier::new();
    goals.set_savings_goal(alice(), 1000, None).unwrap();
    goals.submit_proof(&mut verifier, alice(), &blob_with_one_input()).unwrap();
    let before = goals.get_savings_goal(alice());
    assert_eq!(
        goals.submit_proof(&mut verifier, alice(), &blob_without_inputs()),
        Err(Error::AlreadyAchieved)
    );
    assert_eq!(
        goals.submit_proof(&mut verifier, alice(), &blob_with_one_input()),
        Err(Error::AlreadyAchieved)
    );
    assert_eq!(goals.get_savings_goal(alice()), before);
    assert_eq!(goals.achieved_goal_count(alice()), 1);
    // The verifier was not asked again.
    assert_eq!(verifier.verified_count(), 1);
    assert!(!verifier.is_verified(&NO_INPUT_DIGEST));
}

#[test]
fn a_new_goal_can_be_achieved_again() {
    let mut goals = configured();
    let mut verifier = SimpleVerifier::new();
    goals.set_savings_goal(alice(), 1000, None).unwrap();
    goals.submit_proof(&mut verifier, alice(), &blob_with_one_input()).unwrap();
    goals.set_savings_goal(alice(), 5000, None).unwrap();
    let goal = goals.get_savings_goal(alice()).unwrap();
    assert!(!goal.achieved);
    assert_eq!(goal.proof_id, None);
    assert_eq!(
        goals.submit_proof(&mut verifier, alice(), &blob_without_inputs()),
        Ok(NO_INPUT_DIGEST)
    );
    assert_eq!(goals.achieved_goal_count(alice()), 2);
}

#[test]
fn the_same_proof_unlocks_the_goals_of_two_users() {
    let mut goals = configured();
    let mut verifier = SimpleVerifier::new();
    goals.set_savings_goal(alice(), 1000, None).unwrap();
    goals.set_savings_goal(bob(), 1000, None).unwrap();
    let blob = blob_with_one_input();
    assert_eq!(goals.submit_proof(&mut verifier, alice(), &blob), Ok(ONE_INPUT_DIGEST));
    assert_eq!(goals.submit_proof(&mut verifier, bob(), &blob), Ok(ONE_INPUT_DIGEST));
    assert_eq!(verifier.verified_count(), 1);
}

#[test]
fn check_and_complete_are_the_two_halves_of_submit() {
    let mut goals = configured();
    assert_eq!(goals.check_proof_expected(alice()), Err(Error::GoalNotFound));
    goals.set_savings_goal(alice(), 1000, None).unwrap();
    assert_eq!(goals.check_proof_expected(alice()), Ok(()));
    assert_eq!(
        goals.complete_proof(
            alice(),
            Err(accrual_engine::proof_verifier::Error::VerificationFailed)
        ),
        Err(Error::VerifierCallFailed)
    );
    assert!(!goals.get_savings_goal(alice()).unwrap().achieved);
    assert_eq!(goals.complete_proof(alice(), Ok(NO_INPUT_DIGEST)), Ok(NO_INPUT_DIGEST));
    assert_eq!(goals.get_savings_goal(alice()).unwrap().proof_id, Some(NO_INPUT_DIGEST));
    assert_eq!(goals.check_proof_expected(alice()), Err(Error::AlreadyAchieved));
    assert_eq!(goals.complete_proof(alice(), Ok(ONE_INPUT_DIGEST)), Err(Error::AlreadyAchieved));
    assert_eq!(goals.get_savings_goal(alice()).unwrap().proof_id, Some(NO_INPUT_DIGEST));
}

#[test]
fn first_caller_becomes_admin_of_the_goals() {
    let mut goals = SavingsGoals::new();
    assert_eq!(goals.admin(), None);
    assert_eq!(goals.verifier_address(), None);
    assert_eq!(goals.set_verifier(alice(), verifier_contract()), Ok(()));
    assert_eq!(goals.admin(), Some(alice()));
    assert_eq!(goals.verifier_address(), Some(verifier_contract()));
    assert_eq!(goals.set_verifier(bob(), Address::contract([8u8; 32])), Err(Error::NotAuthorized));
    assert_eq!(goals.admin(), Some(alice()));
    assert_eq!(goals.verifier_address(), Some(verifier_contract()));
    assert_eq!(goals.set_verifier(alice(), Address::contract([8u8; 32])), Ok(()));
    assert_eq!(goals.verifier_address(), Some(Address::contract([8u8; 32])));
}

#[test]
fn an_account_and_a_contract_with_one_key_are_two_parties() {
    let mut goals = SavingsGoals::new();
    goals.set_verifier(Address::account([5u8; 32]), verifier_contract()).unwrap();
    assert_eq!(
        goals.set_verifier(Address::contract([5u8; 32]), verifier_contract()),
        Err(Error::NotAuthorized)
    );
    goals.set_savings_goal(Address::account([5u8; 32]), 10, None).unwrap();
    assert_eq!(goals.get_savings_goal(Address::contract([5u8; 32])), None);
}

#[test]
fn loading_a_goal_checks_it() {
    let mut goals = SavingsGoals::restore(Some(alice()), Some(verifier_contract()));
    assert_eq!(goals.admin(), Some(alice()));
    let good = Goal {
        target_amount: 10,
        saved_amount: 3,
        deadline_ts: None,
        achieved: true,
        proof_id: Some(ONE_INPUT_DIGEST),
    };
    assert!(good.is_valid());
    assert!(goals.load_goal(bob(), good, 4));
    assert_eq!(goals.get_savings_goal(bob()), Some(good));
    assert_eq!(goals.achieved_goal_count(bob()), 4);
    let negative = Goal { saved_amount: -1, ..good };
    let unnamed = Goal { proof_id: None, ..good };
    let aimless = Goal { target_amount: 0, ..good };
    assert!(!negative.is_valid());
    assert!(!goals.load_goal(bob(), negative, 9));
    assert!(!goals.load_goal(bob(), unnamed, 9));
    assert!(!goals.load_goal(bob(), aimless, 9));
    assert_eq!(goals.get_savings_goal(bob()), Some(good));
    assert_eq!(goals.achieved_goal_count(bob()), 4);
}

#[test]
fn goals_error_codes() {
    assert_eq!(Error::VerifierNotConfigured.code(), 1);
    assert_eq!(Error::GoalNotFound.code(), 2);
    assert_eq!(Error::AlreadyAchieved.code(), 3);
    assert_eq!(Error::InvalidAmount.code(), 4);
    assert_eq!(Error::NotAuthorized.code(), 5);
    assert_eq!(Error::VerifierCallFailed.code(), 6);
}
