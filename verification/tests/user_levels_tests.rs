use accrual_engine::address::Address;
use accrual_engine::course_completion::CourseCompletionContract;
use accrual_engine::proof_verifier::SimpleVerifier;
use accrual_engine::savings_goals::SavingsGoals;
use accrual_engine::user_levels::{Error, UserLevel, UserLevelData, UserLevels};

fn blob(tag: u8) -> Vec<u8> {
    let mut blob = vec![0u8, 0, 0, 0];
    blob.extend(vec![tag; 100]);
    blob
}

fn alice() -> Address {
    Address::account([1u8; 32])
}

fn bob() -> Address {
    Address::account([2u8; 32])
}

fn goals_contract() -> Address {
    Address::contract([3u8; 32])
}

fn courses_contract() -> Address {
    Address::contract([4u8; 32])
}

fn configured() -> UserLevels {
    let mut levels = UserLevels::new();
    levels.set_contracts(alice(), goals_contract(), courses_contract()).unwrap();
    levels
}

#[test]
fn threshold_table() {
    assert_eq!(UserLevels::calculate_level(0, 0), UserLevel::Bronze);
    assert_eq!(UserLevels::calculate_level(3, 0), UserLevel::Silver);
    assert_eq!(UserLevels::calculate_level(0, 6), UserLevel::Gold);
    assert_eq!(UserLevels::calculate_level(9, 10), UserLevel::Gold);
    assert_eq!(UserLevels::calculate_level(10, 10), UserLevel::Platinum);
}

#[test]
fn thresholds_at_their_edges() {
    assert_eq!(UserLevels::calculate_level(2, 2), UserLevel::Bronze);
    assert_eq!(UserLevels::calculate_level(0, 3), UserLevel::Silver);
    assert_eq!(UserLevels::calculate_level(5, 5), UserLevel::Silver);
    assert_eq!(UserLevels::calculate_level(6, 0), UserLevel::Gold);
    assert_eq!(UserLevels::calculate_level(10, 9), UserLevel::Gold);
    assert_eq!(UserLevels::calculate_level(u32::MAX, 0), UserLevel::Gold);
    assert_eq!(UserLevels::calculate_level(u32::MAX, u32::MAX), UserLevel::Platinum);
}

#[test]
fn levels_count_from_one() {
    assert_eq!(UserLevel::Bronze.value(), 1);
    assert_eq!(UserLevel::Silver.value(), 2);
    assert_eq!(UserLevel::Gold.value(), 3);
    assert_eq!(UserLevel::Platinum.value(), 4);
}

#[test]
fn level_is_bronze_until_computed() {
    let levels = configured();
    assert_eq!(levels.get_user_level_value(alice()), 1);
    assert_eq!(levels.get_user_level(alice()), None);
}

#[test]
fn recorded_level_is_remembered() {
    let mut levels = configured();
    assert_eq!(levels.record_level(alice(), 7, 1, 500), Ok(3));
    assert_eq!(
        levels.get_user_level(alice()),
        Some(UserLevelData { level: 3, goals_achieved: 7, courses_completed: 1, last_updated: 500 })
    );
    assert_eq!(levels.get_user_level_value(alice()), 3);
    assert_eq!(levels.get_user_level_value(bob()), 1);
    assert_eq!(levels.record_level(alice(), 1, 1, 600), Ok(1));
    assert_eq!(
        levels.get_user_level(alice()),
        Some(UserLevelData { level: 1, goals_achieved: 1, courses_completed: 1, last_updated: 600 })
    );
}

#[test]
fn level_needs_both_modules_configured() {
    let mut levels = UserLevels::new();
    assert_eq!(levels.record_level(alice(), 7, 1, 500), Err(Error::SavingsGoalsNotConfigured));
    let mut levels = UserLevels::restore(None, Some(goals_contract()), None);
    assert_eq!(levels.record_level(alice(), 7, 1, 500), Err(Error::CourseCompletionNotConfigured));
    assert_eq!(levels.get_user_level(alice()), None);
    let mut levels = UserLevels::restore(None, None, Some(courses_contract()));
    assert_eq!(levels.record_level(alice(), 7, 1, 500), Err(Error::SavingsGoalsNotConfigured));
    assert_eq!(levels.contracts(), (None, Some(courses_contract())));
}

#[test]
fn level_follows_the_counts_of_the_stores() {
    let mut verifier = SimpleVerifier::new();
    let mut goals = SavingsGoals::new();
    let mut courses = CourseCompletionContract::new();
    let mut levels = configured();
    goals.set_verifier(alice(), Address::contract([9u8; 32])).unwrap();
    courses.set_verifier(alice(), Address::contract([9u8; 32])).unwrap();
    assert_eq!(levels.update_user_level(&goals, &courses, alice(), 1), Ok(1));
    for n in 0u8..3 {
        courses
            .submit_course_proof(&mut verifier, alice(), format!("course-{}", n), &blob(n), 2)
            .unwrap();
    }
    // Nothing is computed until it is asked for.
    assert_eq!(levels.get_user_level_value(alice()), 1);
    assert_eq!(levels.update_user_level(&goals, &courses, alice(), 3), Ok(2));
    assert_eq!(
        levels.get_user_level(alice()),
        Some(UserLevelData { level: 2, goals_achieved: 0, courses_completed: 3, last_updated: 3 })
    );
    for n in 0u8..6 {
        goals.set_savings_goal(alice(), 100, None).unwrap();
        goals.submit_proof(&mut verifier, alice(), &blob(100 + n)).unwrap();
    }
    assert_eq!(levels.update_user_level(&goals, &courses, alice(), 4), Ok(3));
    assert_eq!(levels.update_user_level(&goals, &courses, bob(), 4), Ok(1));
    assert_eq!(
        levels.get_user_level(alice()),
        Some(UserLevelData { level: 3, goals_achieved: 6, courses_completed: 3, last_updated: 4 })
    );
}

#[test]
fn platinum_takes_ten_of_both() {
    let mut verifier = SimpleVerifier::new();
    let mut goals = SavingsGoals::new();
    let mut courses = CourseCompletionContract::new();
    let mut levels = configured();
    goals.set_verifier(alice(), Address::contract([9u8; 32])).unwrap();
    courses.set_verifier(alice(), Address::contract([9u8; 32])).unwrap();
    for n in 0u8..10 {
        goals.set_savings_goal(alice(), 100, None).unwrap();
        goals.submit_proof(&mut verifier, alice(), &blob(n)).unwrap();
    }
    for n in 0u8..9 {
        courses
            .submit_course_proof(&mut verifier, alice(), format!("course-{}", n), &blob(n), 2)
            .unwrap();
    }
    assert_eq!(levels.update_user_level(&goals, &courses, alice(), 5), Ok(3));
    courses.submit_course_proof(&mut verifier, alice(), format!("last"), &blob(0), 2).unwrap();
    assert_eq!(levels.update_user_level(&goals, &courses, alice(), 6), Ok(4));
}

#[test]
fn first_caller_becomes_admin_of_the_levels() {
    let mut levels = UserLevels::new();
    assert_eq!(levels.admin(), None);
    assert_eq!(levels.contracts(), (None, None));
    assert_eq!(levels.set_contracts(bob(), goals_contract(), courses_contract()), Ok(()));
    assert_eq!(levels.admin(), Some(bob()));
    assert_eq!(levels.contracts(), (Some(goals_contract()), Some(courses_contract())));
    assert_eq!(
        levels.set_contracts(alice(), courses_contract(), goals_contract()),
        Err(Error::NotAuthorized)
    );
    assert_eq!(levels.contracts(), (Some(goals_contract()), Some(courses_contract())));
}

#[test]
fn a_loaded_level_is_returned_as_it_is() {
    let mut levels = UserLevels::new();
    let data = UserLevelData { level: 9, goals_achieved: 0, courses_completed: 0, last_updated: -1 };
    levels.load_level(alice(), data);
    assert_eq!(levels.get_user_level(alice()), Some(data));
    assert_eq!(levels.get_user_level_value(alice()), 9);
}

#[test]
fn levels_error_codes() {
    assert_eq!(Error::SavingsGoalsNotConfigured.code(), 1);
    assert_eq!(Error::CourseCompletionNotConfigured.code(), 2);
    assert_eq!(Error::NotAuthorized.code(), 3);
    assert_eq!(Error::InvalidLevel.code(), 4);
}
