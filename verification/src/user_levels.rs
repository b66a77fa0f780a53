//! Tiers: each user's level, computed on request from the number of goals
//! achieved and of courses completed, and remembered until the next request.

use crate::address::Address;
use crate::admin::{authorize_step, AdminMarker};
use crate::course_completion::{CourseCompletionContract, CoursesState};
use crate::savings_goals::{GoalsState, SavingsGoals};
use crate::table::Table;
use vstd::prelude::*;

verus! {

/// A user's tier.
#[derive(Clone, Copy, Debug, PartialEq, Eq, Structural)]
pub enum UserLevel {
    Bronze,
    Silver,
    Gold,
    Platinum,
}

impl UserLevel {
    /// The number that stands for the tier: 1 for bronze up to 4 for
    /// platinum.
    pub open spec fn spec_value(self) -> u8 {
        match self {
            UserLevel::Bronze => 1,
            UserLevel::Silver => 2,
            UserLevel::Gold => 3,
            UserLevel::Platinum => 4,
        }
    }

    /// The number that stands for the tier.
    #[verifier::when_used_as_spec(spec_value)]
    pub fn value(self) -> (value: u8)
        ensures
            value == self.spec_value(),
    {
        match self {
            UserLevel::Bronze => 1,
            UserLevel::Silver => 2,
            UserLevel::Gold => 3,
            UserLevel::Platinum => 4,
        }
    }
}

/// What is remembered about a user's tier.
#[derive(Clone, Copy, Debug, PartialEq, Eq)]
pub struct UserLevelData {
    pub level: u8,
    pub goals_achieved: u32,
    pub courses_completed: u32,
    pub last_updated: i64,
}

/// Why a request on the tiers was turned down.
#[derive(Clone, Copy, Debug, PartialEq, Eq, Structural)]
pub enum Error {
    SavingsGoalsNotConfigured,
    CourseCompletionNotConfigured,
    NotAuthorized,
    InvalidLevel,
}

impl Error {
    /// The number under which the error is reported on the ledger.
    pub fn code(&self) -> (code: u32)
        ensures
            code == match *self {
                Error::SavingsGoalsNotConfigured => 1u32,
                Error::CourseCompletionNotConfigured => 2u32,
                Error::NotAuthorized => 3u32,
                Error::InvalidLevel => 4u32,
            },
    {
        match self {
            Error::SavingsGoalsNotConfigured => 1,
            Error::CourseCompletionNotConfigured => 2,
            Error::NotAuthorized => 3,
            Error::InvalidLevel => 4,
        }
    }
}

/// The tier of a user with `goals` achieved goals and `courses` completed
/// courses: the first rule that matches, from the highest tier down.
/// Platinum takes ten of both, gold six of either, silver three of either.
pub open spec fn level_for(goals: int, courses: int) -> UserLevel {
    if goals >= 10 && courses >= 10 {
        UserLevel::Platinum
    } else if goals >= 6 || courses >= 6 {
        UserLevel::Gold
    } else if goals >= 3 || courses >= 3 {
        UserLevel::Silver
    } else {
        UserLevel::Bronze
    }
}

/// What the tiers module remembers.
pub struct LevelsState {
    pub admin: Option<Address>,
    /// The address of the goals module, once configured.
    pub savings_goals: Option<Address>,
    /// The address of the courses module, once configured.
    pub course_completion: Option<Address>,
    pub levels: Map<Address, UserLevelData>,
}

/// The tier remembered for `user`, bronze where none is.
pub open spec fn level_value(s: LevelsState, user: Address) -> u8 {
    if s.levels.contains_key(user) {
        s.levels[user].level
    } else {
        UserLevel::Bronze.spec_value()
    }
}

/// The module after `caller` asked to configure the two modules that the
/// counts come from, and the answer.
pub open spec fn set_contracts_step(
    s: LevelsState,
    caller: Address,
    savings_goals: Address,
    course_completion: Address,
) -> (LevelsState, Result<(), Error>) {
    let (admin, allowed) = authorize_step(s.admin, caller);
    if allowed {
        (
            LevelsState {
                admin,
                savings_goals: Some(savings_goals),
                course_completion: Some(course_completion),
                ..s
            },
            Ok(()),
        )
    } else {
        (s, Err(Error::NotAuthorized))
    }
}

/// The module after the tier of `user` was computed at the time `now` from
/// the two counts, and the tier. Nothing is computed before both modules are
/// configured.
pub open spec fn record_level_step(
    s: LevelsState,
    user: Address,
    goals_achieved: u32,
    courses_completed: u32,
    now: i64,
) -> (LevelsState, Result<u8, Error>) {
    if s.savings_goals is None {
        (s, Err(Error::SavingsGoalsNotConfigured))
    } else if s.course_completion is None {
        (s, Err(Error::CourseCompletionNotConfigured))
    } else {
        let level = level_for(goals_achieved as int, courses_completed as int).spec_value();
        (
            LevelsState {
                levels: s.levels.insert(
                    user,
                    UserLevelData { level, goals_achieved, courses_completed, last_updated: now },
                ),
                ..s
            },
            Ok(level),
        )
    }
}

/// The module after the tier of `user` was computed at the time `now` from
/// what the goals module and the courses module count, and the tier.
pub open spec fn update_level_step(
    s: LevelsState,
    goals: GoalsState,
    courses: CoursesState,
    user: Address,
    now: i64,
) -> (LevelsState, Result<u8, Error>) {
    record_level_step(
        s,
        user,
        crate::savings_goals::count_of(goals.achieved, user),
        crate::course_completion::count_of(courses.completed, user),
        now,
    )
}

/// The tiers module: its admin, the two modules it was pointed at, and the
/// tier computed last for each user.
pub struct UserLevels {
    admin: AdminMarker,
    savings_goals: Option<Address>,
    course_completion: Option<Address>,
    levels: Table<Address, UserLevelData>,
}

impl View for UserLevels {
    type V = LevelsState;

    closed spec fn view(&self) -> LevelsState {
        LevelsState {
            admin: self.admin@,
            savings_goals: self.savings_goals,
            course_completion: self.course_completion,
            levels: self.levels@,
        }
    }
}

impl UserLevels {
    /// No user has two records.
    pub closed spec fn wf(&self) -> bool {
        self.levels.wf()
    }

    /// A module with the given configuration and no records.
    pub fn restore(
        admin: Option<Address>,
        savings_goals: Option<Address>,
        course_completion: Option<Address>,
    ) -> (module: UserLevels)
        ensures
            module.wf(),
            module@ == (LevelsState {
                admin,
                savings_goals,
                course_completion,
                levels: Map::empty(),
            }),
    {
        UserLevels {
            admin: AdminMarker::restore(admin),
            savings_goals,
            course_completion,
            levels: Table::new(),
        }
    }

    /// A module that nobody has configured yet.
    pub fn new() -> (module: UserLevels)
        ensures
            module.wf(),
            module@ == (LevelsState {
                admin: None,
                savings_goals: None,
                course_completion: None,
                levels: Map::empty(),
            }),
    {
        UserLevels::restore(None, None, None)
    }

    /// Takes over the record of `user`, as it was kept elsewhere.
    pub fn load_level(&mut self, user: Address, data: UserLevelData)
        requires
            old(self).wf(),
        ensures
            final(self).wf(),
            final(self)@ == (LevelsState {
                levels: old(self)@.levels.insert(user, data),
                ..old(self)@
            }),
    {
        self.levels.insert(user, data);
    }

    /// The recorded admin.
    pub fn admin(&self) -> (admin: Option<Address>)
        ensures
            admin == self@.admin,
    {
        self.admin.get()
    }

    /// The addresses of the goals module and of the courses module.
    pub fn contracts(&self) -> (contracts: (Option<Address>, Option<Address>))
        ensures
            contracts == (self@.savings_goals, self@.course_completion),
    {
        (self.savings_goals, self.course_completion)
    }

    /// Points the module at the goals module and the courses module. Only
    /// the admin may; the first caller of an unconfigured module becomes its
    /// admin.
    pub fn set_contracts(
        &mut self,
        caller: Address,
        savings_goals: Address,
        course_completion: Address,
    ) -> (done: Result<(), Error>)
        requires
            old(self).wf(),
        ensures
            final(self).wf(),
            (final(self)@, done) == set_contracts_step(
                old(self)@,
                caller,
                savings_goals,
                course_completion,
            ),
    {
        if !self.admin.assert_admin(&caller) {
            return Err(Error::NotAuthorized);
        }
        self.savings_goals = Some(savings_goals);
        self.course_completion = Some(course_completion);
        Ok(())
    }

    /// The tier for the two counts.
    pub fn calculate_level(goals_achieved: u32, courses_completed: u32) -> (level: UserLevel)
        ensures
            level == level_for(goals_achieved as int, courses_completed as int),
    {
        if goals_achieved >= 10 && courses_completed >= 10 {
            return UserLevel::Platinum;
        }
        if goals_achieved >= 6 || courses_completed >= 6 {
            return UserLevel::Gold;
        }
        if goals_achieved >= 3 || courses_completed >= 3 {
            return UserLevel::Silver;
        }
        UserLevel::Bronze
    }

    /// Computes the tier of `user` from the two counts, remembers it with
    /// the counts and the time `now`, and returns it.
    pub fn record_level(
        &mut self,
        user: Address,
        goals_achieved: u32,
        courses_completed: u32,
        now: i64,
    ) -> (level: Result<u8, Error>)
        requires
            old(self).wf(),
        ensures
            final(self).wf(),
            (final(self)@, level) == record_level_step(
                old(self)@,
                user,
                goals_achieved,
                courses_completed,
                now,
            ),
    {
        if self.savings_goals.is_none() {
            return Err(Error::SavingsGoalsNotConfigured);
        }
        if self.course_completion.is_none() {
            return Err(Error::CourseCompletionNotConfigured);
        }
        let level: u8 = UserLevels::calculate_level(goals_achieved, courses_completed).value();
        self.levels.insert(
            user,
            UserLevelData { level, goals_achieved, courses_completed, last_updated: now },
        );
        Ok(level)
    }

    /// Computes the tier of `user` from what `goals` and `courses` count,
    /// remembers it, and returns it.
    pub fn update_user_level(
        &mut self,
        goals: &SavingsGoals,
        courses: &CourseCompletionContract,
        user: Address,
        now: i64,
    ) -> (level: Result<u8, Error>)
        requires
            old(self).wf(),
            goals.wf(),
            courses.wf(),
        ensures
            final(self).wf(),
            (final(self)@, level) == update_level_step(old(self)@, goals@, courses@, user, now),
    {
        let goals_achieved: u32 = goals.achieved_goal_count(user);
        let courses_completed: u32 = courses.completed_course_count(user);
        self.record_level(user, goals_achieved, courses_completed, now)
    }

    /// What is remembered about the tier of `user`.
    pub fn get_user_level(&self, user: Address) -> (data: Option<UserLevelData>)
        requires
            self.wf(),
        ensures
            data == if self@.levels.contains_key(user) {
                Some(self@.levels[user])
            } else {
                None
            },
    {
        match self.levels.get(&user) {
            Some(data) => Some(*data),
            None => None,
        }
    }

    /// The tier remembered for `user`, bronze where none was computed yet.
    /// Nothing is computed anew.
    pub fn get_user_level_value(&self, user: Address) -> (level: u8)
        requires
            self.wf(),
        ensures
            level == level_value(self@, user),
    {
        match self.levels.get(&user) {
            Some(data) => data.level,
            None => UserLevel::Bronze.value(),
        }
    }
}

/// With no admin recorded, the first to configure the module succeeds and
/// becomes the admin; another caller is then refused as `NotAuthorized`, and
/// nothing changes.
pub proof fn lemma_first_caller_configures(
    s: LevelsState,
    first: Address,
    other: Address,
    savings_goals: Address,
    course_completion: Address,
)
    requires
        s.admin is None,
        first != other,
    ensures
        ({
            let (s1, done) = set_contracts_step(s, first, savings_goals, course_completion);
            &&& done is Ok
            &&& s1.admin == Some(first)
            &&& set_contracts_step(s1, other, course_completion, savings_goals) == (
                s1,
                Err::<(), Error>(Error::NotAuthorized),
            )
        }),
{
}

/// The tier never falls when a count grows.
pub proof fn lemma_level_monotonic(goals: int, courses: int, more_goals: int, more_courses: int)
    requires
        goals <= more_goals,
        courses <= more_courses,
    ensures
        level_for(goals, courses).spec_value() <= level_for(more_goals, more_courses).spec_value(),
{
}

/// A tier that was computed is the one remembered, until it is computed
/// again.
pub proof fn lemma_computed_level_is_remembered(
    s: LevelsState,
    user: Address,
    goals_achieved: u32,
    courses_completed: u32,
    now: i64,
)
    requires
        record_level_step(s, user, goals_achieved, courses_completed, now).1 is Ok,
    ensures
        ({
            let (s1, level) = record_level_step(s, user, goals_achieved, courses_completed, now);
            &&& level == Ok::<u8, Error>(level_value(s1, user))
            &&& 1 <= level_value(s1, user) <= 4
        }),
{
}

} // verus!
