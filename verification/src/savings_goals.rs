//! Savings goals: one per user, funded through an escrow balance and
//! unlocked once by a verified proof.

use crate::address::Address;
use crate::admin::{authorize_step, AdminMarker};
use crate::proof_verifier::{verify_step, SimpleVerifier, VerifierState, MAX_HASH_INPUT};
use crate::table::Table;
use vstd::prelude::*;

verus! {

/// Why a request on a goal was turned down.
#[derive(Clone, Copy, Debug, PartialEq, Eq, Structural)]
pub enum Error {
    VerifierNotConfigured,
    GoalNotFound,
    AlreadyAchieved,
    InvalidAmount,
    NotAuthorized,
    VerifierCallFailed,
}

impl Error {
    /// The number under which the error is reported on the ledger.
    pub fn code(&self) -> (code: u32)
        ensures
            code == match *self {
                Error::VerifierNotConfigured => 1u32,
                Error::GoalNotFound => 2u32,
                Error::AlreadyAchieved => 3u32,
                Error::InvalidAmount => 4u32,
                Error::NotAuthorized => 5u32,
                Error::VerifierCallFailed => 6u32,
            },
    {
        match self {
            Error::VerifierNotConfigured => 1,
            Error::GoalNotFound => 2,
            Error::AlreadyAchieved => 3,
            Error::InvalidAmount => 4,
            Error::NotAuthorized => 5,
            Error::VerifierCallFailed => 6,
        }
    }
}

/// A user's savings goal.
#[derive(Clone, Copy, Debug, PartialEq, Eq)]
pub struct Goal {
    pub target_amount: i128,
    /// What the user has put aside for the goal.
    pub saved_amount: i128,
    pub deadline_ts: Option<i64>,
    pub achieved: bool,
    /// The proof that unlocked the goal.
    pub proof_id: Option<[u8; 32]>,
}

impl Goal {
    /// The target is positive, the balance is not negative, and the goal
    /// names a proof exactly when it is achieved.
    pub open spec fn valid(&self) -> bool {
        &&& self.target_amount > 0
        &&& self.saved_amount >= 0
        &&& self.achieved == (self.proof_id is Some)
    }

    /// Whether the goal is valid.
    pub fn is_valid(&self) -> (ok: bool)
        ensures
            ok == self.valid(),
    {
        self.target_amount > 0 && self.saved_amount >= 0 && self.achieved
            == self.proof_id.is_some()
    }
}

/// What the goals module remembers.
pub struct GoalsState {
    pub admin: Option<Address>,
    /// The address of the verifier, once configured.
    pub verifier: Option<Address>,
    pub goals: Map<Address, Goal>,
    /// How many goals each user has achieved.
    pub achieved: Map<Address, u32>,
}

/// The count kept for `user`, zero where none is kept.
pub open spec fn count_of(counts: Map<Address, u32>, user: Address) -> u32 {
    if counts.contains_key(user) {
        counts[user]
    } else {
        0
    }
}

/// The module after `caller` asked to configure `verifier`, and the answer.
pub open spec fn set_verifier_step(s: GoalsState, caller: Address, verifier: Address) -> (
    GoalsState,
    Result<(), Error>,
) {
    let (admin, allowed) = authorize_step(s.admin, caller);
    if allowed {
        (GoalsState { admin, verifier: Some(verifier), ..s }, Ok(()))
    } else {
        (s, Err(Error::NotAuthorized))
    }
}

/// The module after `user` set a goal, and the answer. A target that is not
/// positive is refused. The new goal is not achieved; it keeps the balance of
/// the goal it replaces.
pub open spec fn set_goal_step(
    s: GoalsState,
    user: Address,
    target_amount: i128,
    deadline_ts: Option<i64>,
) -> (GoalsState, Result<(), Error>) {
    if target_amount <= 0 {
        (s, Err(Error::InvalidAmount))
    } else {
        let goal = Goal {
            target_amount,
            saved_amount: if s.goals.contains_key(user) {
                s.goals[user].saved_amount
            } else {
                0
            },
            deadline_ts,
            achieved: false,
            proof_id: None,
        };
        (GoalsState { goals: s.goals.insert(user, goal), ..s }, Ok(()))
    }
}

/// The module after `user` put `amount` aside, and the new balance.
pub open spec fn deposit_step(s: GoalsState, user: Address, amount: i128) -> (
    GoalsState,
    Result<i128, Error>,
) {
    if amount <= 0 {
        (s, Err(Error::InvalidAmount))
    } else if !s.goals.contains_key(user) {
        (s, Err(Error::GoalNotFound))
    } else if s.goals[user].achieved {
        (s, Err(Error::AlreadyAchieved))
    } else {
        let saved = (s.goals[user].saved_amount + amount) as i128;
        (
            GoalsState {
                goals: s.goals.insert(user, Goal { saved_amount: saved, ..s.goals[user] }),
                ..s
            },
            Ok(saved),
        )
    }
}

/// The module after `user` took `amount` back, and the new balance. More
/// than the balance cannot be taken.
pub open spec fn withdraw_step(s: GoalsState, user: Address, amount: i128) -> (
    GoalsState,
    Result<i128, Error>,
) {
    if amount <= 0 {
        (s, Err(Error::InvalidAmount))
    } else if !s.goals.contains_key(user) {
        (s, Err(Error::GoalNotFound))
    } else if s.goals[user].saved_amount < amount {
        (s, Err(Error::InvalidAmount))
    } else {
        let saved = (s.goals[user].saved_amount - amount) as i128;
        (
            GoalsState {
                goals: s.goals.insert(user, Goal { saved_amount: saved, ..s.goals[user] }),
                ..s
            },
            Ok(saved),
        )
    }
}

/// Whether a proof for the goal of `user` would be taken to the verifier.
pub open spec fn proof_expected(s: GoalsState, user: Address) -> Result<(), Error> {
    if !s.goals.contains_key(user) {
        Err(Error::GoalNotFound)
    } else if s.goals[user].achieved {
        Err(Error::AlreadyAchieved)
    } else if s.verifier is None {
        Err(Error::VerifierNotConfigured)
    } else {
        Ok(())
    }
}

/// The module after the verifier answered `verdict` on a proof for the goal
/// of `user`, and the answer to the user. An accepted proof unlocks the goal
/// under its identifier and counts as one more goal achieved.
pub open spec fn complete_step(
    s: GoalsState,
    user: Address,
    verdict: Result<[u8; 32], crate::proof_verifier::Error>,
) -> (GoalsState, Result<[u8; 32], Error>) {
    match proof_expected(s, user) {
        Err(e) => (s, Err(e)),
        Ok(_) => match verdict {
            Err(_) => (s, Err(Error::VerifierCallFailed)),
            Ok(proof_id) => (
                GoalsState {
                    goals: s.goals.insert(
                        user,
                        Goal { achieved: true, proof_id: Some(proof_id), ..s.goals[user] },
                    ),
                    achieved: s.achieved.insert(user, (count_of(s.achieved, user) + 1) as u32),
                    ..s
                },
                Ok(proof_id),
            ),
        },
    }
}

/// The module and the verifier after `user` submitted `blob`, and the
/// answer. The verifier is asked only where a proof is expected.
pub open spec fn submit_step(s: GoalsState, v: VerifierState, user: Address, blob: Seq<u8>) -> (
    GoalsState,
    VerifierState,
    Result<[u8; 32], Error>,
) {
    match proof_expected(s, user) {
        Err(e) => (s, v, Err(e)),
        Ok(_) => {
            let (v1, verdict) = verify_step(v, blob);
            let (s1, answer) = complete_step(s, user, verdict);
            (s1, v1, answer)
        },
    }
}

/// The goals module: its admin, the verifier it was pointed at, one goal per
/// user, and how many goals each user has achieved.
pub struct SavingsGoals {
    admin: AdminMarker,
    verifier: Option<Address>,
    goals: Table<Address, Goal>,
    achieved: Table<Address, u32>,
}

impl View for SavingsGoals {
    type V = GoalsState;

    closed spec fn view(&self) -> GoalsState {
        GoalsState {
            admin: self.admin@,
            verifier: self.verifier,
            goals: self.goals@,
            achieved: self.achieved@,
        }
    }
}

impl SavingsGoals {
    /// Every goal kept is valid.
    pub closed spec fn wf(&self) -> bool {
        &&& self.goals.wf()
        &&& self.achieved.wf()
        &&& forall|user: Address| #[trigger]
            self.goals@.contains_key(user) ==> self.goals@[user].valid()
    }

    /// Under `wf`, every goal in the view is valid.
    pub proof fn lemma_goals_valid(&self, user: Address)
        requires
            self.wf(),
            self@.goals.contains_key(user),
        ensures
            self@.goals[user].valid(),
    {
    }

    /// A module with the given configuration and no goals.
    pub fn restore(admin: Option<Address>, verifier: Option<Address>) -> (module: SavingsGoals)
        ensures
            module.wf(),
            module@ == (GoalsState {
                admin,
                verifier,
                goals: Map::empty(),
                achieved: Map::empty(),
            }),
    {
        SavingsGoals {
            admin: AdminMarker::restore(admin),
            verifier,
            goals: Table::new(),
            achieved: Table::new(),
        }
    }

    /// A module that nobody has configured yet.
    pub fn new() -> (module: SavingsGoals)
        ensures
            module.wf(),
            module@ == (GoalsState {
                admin: None,
                verifier: None,
                goals: Map::empty(),
                achieved: Map::empty(),
            }),
    {
        SavingsGoals::restore(None, None)
    }

    /// Takes over a goal of `user` and the number of goals the user has
    /// achieved, as they were kept elsewhere. A goal that is not valid is
    /// refused, and nothing changes.
    pub fn load_goal(&mut self, user: Address, goal: Goal, achieved_count: u32) -> (taken: bool)
        requires
            old(self).wf(),
        ensures
            final(self).wf(),
            taken == goal.valid(),
            final(self)@ == if taken {
                GoalsState {
                    goals: old(self)@.goals.insert(user, goal),
                    achieved: old(self)@.achieved.insert(user, achieved_count),
                    ..old(self)@
                }
            } else {
                old(self)@
            },
    {
        if !goal.is_valid() {
            return false;
        }
        self.goals.insert(user, goal);
        self.achieved.insert(user, achieved_count);
        true
    }

    /// The recorded admin.
    pub fn admin(&self) -> (admin: Option<Address>)
        ensures
            admin == self@.admin,
    {
        self.admin.get()
    }

    /// The address of the configured verifier.
    pub fn verifier_address(&self) -> (verifier: Option<Address>)
        ensures
            verifier == self@.verifier,
    {
        self.verifier
    }

    /// Points the module at its verifier. Only the admin may; the first
    /// caller of an unconfigured module becomes its admin.
    pub fn set_verifier(&mut self, caller: Address, verifier: Address) -> (done: Result<(), Error>)
        requires
            old(self).wf(),
        ensures
            final(self).wf(),
            (final(self)@, done) == set_verifier_step(old(self)@, caller, verifier),
    {
        if !self.admin.assert_admin(&caller) {
            return Err(Error::NotAuthorized);
        }
        self.verifier = Some(verifier);
        Ok(())
    }

    /// Creates or replaces the goal of `user`.
    pub fn set_savings_goal(
        &mut self,
        user: Address,
        target_amount: i128,
        deadline_ts: Option<i64>,
    ) -> (done: Result<(), Error>)
        requires
            old(self).wf(),
        ensures
            final(self).wf(),
            (final(self)@, done) == set_goal_step(old(self)@, user, target_amount, deadline_ts),
    {
        if target_amount <= 0 {
            return Err(Error::InvalidAmount);
        }
        let saved_amount: i128 = match self.goals.get(&user) {
            Some(existing) => existing.saved_amount,
            None => 0,
        };
        let goal = Goal { target_amount, saved_amount, deadline_ts, achieved: false, proof_id: None };
        self.goals.insert(user, goal);
        Ok(())
    }

    /// Adds `amount` to what `user` has put aside, and returns the new
    /// balance.
    pub fn deposit_to_goal(&mut self, user: Address, amount: i128) -> (saved: Result<i128, Error>)
        requires
            old(self).wf(),
            old(self)@.goals.contains_key(user) ==> old(self)@.goals[user].saved_amount + amount
                <= i128::MAX,
        ensures
            final(self).wf(),
            (final(self)@, saved) == deposit_step(old(self)@, user, amount),
    {
        if amount <= 0 {
            return Err(Error::InvalidAmount);
        }
        let goal: Goal = match self.goals.get(&user) {
            Some(goal) => *goal,
            None => {
                return Err(Error::GoalNotFound);
            },
        };
        if goal.achieved {
            return Err(Error::AlreadyAchieved);
        }
        let saved_amount: i128 = goal.saved_amount + amount;
        self.goals.insert(user, Goal { saved_amount, ..goal });
        Ok(saved_amount)
    }

    /// Takes `amount` out of what `user` has put aside, and returns the new
    /// balance.
    pub fn withdraw_from_goal(&mut self, user: Address, amount: i128) -> (saved: Result<
        i128,
        Error,
    >)
        requires
            old(self).wf(),
        ensures
            final(self).wf(),
            (final(self)@, saved) == withdraw_step(old(self)@, user, amount),
    {
        if amount <= 0 {
            return Err(Error::InvalidAmount);
        }
        let goal: Goal = match self.goals.get(&user) {
            Some(goal) => *goal,
            None => {
                return Err(Error::GoalNotFound);
            },
        };
        if goal.saved_amount < amount {
            return Err(Error::InvalidAmount);
        }
        let saved_amount: i128 = goal.saved_amount - amount;
        self.goals.insert(user, Goal { saved_amount, ..goal });
        Ok(saved_amount)
    }

    /// The goal of `user`.
    pub fn get_savings_goal(&self, user: Address) -> (goal: Option<Goal>)
        requires
            self.wf(),
        ensures
            goal == if self@.goals.contains_key(user) {
                Some(self@.goals[user])
            } else {
                None
            },
            goal is Some ==> goal->0.valid(),
    {
        match self.goals.get(&user) {
            Some(goal) => Some(*goal),
            None => None,
        }
    }

    /// How many goals `user` has achieved.
    pub fn achieved_goal_count(&self, user: Address) -> (count: u32)
        requires
            self.wf(),
        ensures
            count == count_of(self@.achieved, user),
    {
        match self.achieved.get(&user) {
            Some(count) => *count,
            None => 0,
        }
    }

    /// Whether a proof for the goal of `user` is expected: the goal exists,
    /// is not achieved yet, and a verifier is configured.
    pub fn check_proof_expected(&self, user: Address) -> (expected: Result<(), Error>)
        requires
            self.wf(),
        ensures
            expected == proof_expected(self@, user),
    {
        match self.goals.get(&user) {
            None => Err(Error::GoalNotFound),
            Some(goal) => {
                if goal.achieved {
                    Err(Error::AlreadyAchieved)
                } else if self.verifier.is_none() {
                    Err(Error::VerifierNotConfigured)
                } else {
                    Ok(())
                }
            },
        }
    }

    /// Takes the verifier's answer on a proof for the goal of `user`.
    pub fn complete_proof(
        &mut self,
        user: Address,
        verdict: Result<[u8; 32], crate::proof_verifier::Error>,
    ) -> (answer: Result<[u8; 32], Error>)
        requires
            old(self).wf(),
            proof_expected(old(self)@, user) is Ok && verdict is Ok ==> count_of(
                old(self)@.achieved,
                user,
            ) < u32::MAX,
        ensures
            final(self).wf(),
            (final(self)@, answer) == complete_step(old(self)@, user, verdict),
    {
        match self.check_proof_expected(user) {
            Err(e) => {
                return Err(e);
            },
            Ok(_) => {},
        }
        let proof_id: [u8; 32] = match verdict {
            Ok(proof_id) => proof_id,
            Err(_) => {
                return Err(Error::VerifierCallFailed);
            },
        };
        let goal: Goal = match self.goals.get(&user) {
            Some(goal) => *goal,
            None => {
                return Err(Error::GoalNotFound);
            },
        };
        let count: u32 = self.achieved_goal_count(user);
        self.goals.insert(user, Goal { achieved: true, proof_id: Some(proof_id), ..goal });
        self.achieved.insert(user, count + 1);
        Ok(proof_id)
    }

    /// Submits a proof for the goal of `user`: where a proof is expected,
    /// `verifier` is asked, and the goal is unlocked under the identifier it
    /// returns.
    pub fn submit_proof(
        &mut self,
        verifier: &mut SimpleVerifier,
        user: Address,
        proof_blob: &Vec<u8>,
    ) -> (answer: Result<[u8; 32], Error>)
        requires
            old(self).wf(),
            old(verifier).wf(),
            proof_blob.len() <= MAX_HASH_INPUT,
            proof_expected(old(self)@, user) is Ok ==> count_of(old(self)@.achieved, user)
                < u32::MAX,
        ensures
            final(self).wf(),
            final(verifier).wf(),
            (final(self)@, final(verifier)@, answer) == submit_step(
                old(self)@,
                old(verifier)@,
                user,
                proof_blob@,
            ),
    {
        match self.check_proof_expected(user) {
            Err(e) => {
                return Err(e);
            },
            Ok(_) => {},
        }
        let verdict = verifier.verify_proof_with_stored_vk(proof_blob);
        self.complete_proof(user, verdict)
    }
}

/// With no admin recorded, the first to configure the verifier succeeds and
/// becomes the admin; another caller is then refused as `NotAuthorized`, and
/// nothing changes.
pub proof fn lemma_first_caller_configures(
    s: GoalsState,
    first: Address,
    other: Address,
    verifier: Address,
    another: Address,
)
    requires
        s.admin is None,
        first != other,
    ensures
        ({
            let (s1, done) = set_verifier_step(s, first, verifier);
            &&& done is Ok
            &&& s1.admin == Some(first)
            &&& s1.verifier == Some(verifier)
            &&& set_verifier_step(s1, other, another) == (
                s1,
                Err::<(), Error>(Error::NotAuthorized),
            )
        }),
{
}

/// An achieved goal stays as it is: a further proof for it is refused as
/// `AlreadyAchieved`, the verifier is not asked, and nothing changes.
pub proof fn lemma_achieved_goal_is_final(
    s: GoalsState,
    v: VerifierState,
    user: Address,
    blob: Seq<u8>,
)
    requires
        s.goals.contains_key(user),
        s.goals[user].achieved,
    ensures
        submit_step(s, v, user, blob) == (s, v, Err::<[u8; 32], Error>(Error::AlreadyAchieved)),
{
}

/// A proof that was accepted leaves the goal achieved under the identifier
/// returned, so that every later proof for it is refused.
pub proof fn lemma_accepted_proof_unlocks_once(
    s: GoalsState,
    v: VerifierState,
    user: Address,
    blob: Seq<u8>,
    later: Seq<u8>,
)
    requires
        submit_step(s, v, user, blob).2 is Ok,
    ensures
        ({
            let (s1, v1, answer) = submit_step(s, v, user, blob);
            &&& s1.goals.contains_key(user)
            &&& s1.goals[user].achieved
            &&& s1.goals[user].proof_id == Some(answer->Ok_0)
            &&& submit_step(s1, v1, user, later) == (
                s1,
                v1,
                Err::<[u8; 32], Error>(Error::AlreadyAchieved),
            )
        }),
{
}

/// Each proof that was accepted counts as one more goal achieved, and no
/// other user's count moves.
pub proof fn lemma_accepted_proof_counts(
    s: GoalsState,
    v: VerifierState,
    user: Address,
    blob: Seq<u8>,
    other: Address,
)
    requires
        submit_step(s, v, user, blob).2 is Ok,
        count_of(s.achieved, user) < u32::MAX,
        other != user,
    ensures
        count_of(submit_step(s, v, user, blob).0.achieved, user) == count_of(s.achieved, user) + 1,
        count_of(submit_step(s, v, user, blob).0.achieved, other) == count_of(s.achieved, other),
{
}

/// Deposits and withdrawals keep the balance of a valid goal from going
/// negative.
pub proof fn lemma_escrow_never_negative(s: GoalsState, user: Address, amount: i128)
    requires
        s.goals.contains_key(user),
        s.goals[user].valid(),
        s.goals[user].saved_amount + amount <= i128::MAX,
    ensures
        deposit_step(s, user, amount).0.goals[user].valid(),
        withdraw_step(s, user, amount).0.goals[user].valid(),
{
}

} // verus!
