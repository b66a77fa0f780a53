//! Course completions: one record per user and course, written once a proof
//! of completion was verified.

use crate::address::Address;
use crate::admin::{authorize_step, AdminMarker};
use crate::proof_verifier::{verify_step, SimpleVerifier, VerifierState, MAX_HASH_INPUT};
use crate::table::{Table, TableKey};
use vstd::prelude::*;

verus! {

/// Why a request on a course was turned down.
#[derive(Clone, Copy, Debug, PartialEq, Eq, Structural)]
pub enum Error {
    VerifierNotConfigured,
    CourseNotFound,
    AlreadyCompleted,
    InvalidBadgeLevel,
    NotAuthorized,
    VerifierCallFailed,
}

impl Error {
    /// The number under which the error is reported on the ledger.
    pub fn code(&self) -> (code: u32)
        ensures
            code == match *self {
                Error::VerifierNotConfigured => 1u32,
                Error::CourseNotFound => 2u32,
                Error::AlreadyCompleted => 3u32,
                Error::InvalidBadgeLevel => 4u32,
                Error::NotAuthorized => 5u32,
                Error::VerifierCallFailed => 6u32,
            },
    {
        match self {
            Error::VerifierNotConfigured => 1,
            Error::CourseNotFound => 2,
            Error::AlreadyCompleted => 3,
            Error::InvalidBadgeLevel => 4,
            Error::NotAuthorized => 5,
            Error::VerifierCallFailed => 6,
        }
    }
}

/// The badge that every verified completion earns.
pub const BRONZE_BADGE: u8 = 1;

/// What is recorded about one course of one user.
#[derive(Clone, Copy, Debug, PartialEq, Eq)]
pub struct Completion {
    pub completed: bool,
    /// 1 for bronze, 2 for silver, 3 for gold.
    pub badge_level: u8,
    pub proof_id: Option<[u8; 32]>,
    pub completed_at: i64,
}

/// The record of one course of one user, with the course it is about.
#[derive(Clone, Debug, PartialEq, Eq)]
pub struct CourseCompletion {
    pub course_id: String,
    pub completed: bool,
    /// 1 for bronze, 2 for silver, 3 for gold.
    pub badge_level: u8,
    pub proof_id: Option<[u8; 32]>,
    pub completed_at: i64,
}

impl CourseCompletion {
    /// What the record says, apart from the course.
    pub open spec fn data(&self) -> Completion {
        Completion {
            completed: self.completed,
            badge_level: self.badge_level,
            proof_id: self.proof_id,
            completed_at: self.completed_at,
        }
    }
}

/// A user and a course: the key of a completion record.
#[derive(Clone, Debug)]
pub struct CourseKey {
    pub user: Address,
    pub course_id: String,
}

impl TableKey for CourseKey {
    type Id = (Address, Seq<char>);

    open spec fn id(&self) -> (Address, Seq<char>) {
        (self.user, self.course_id@)
    }

    fn same(&self, other: &CourseKey) -> (equal: bool) {
        self.user.same_as(&other.user) && self.course_id == other.course_id
    }
}

/// What the courses module remembers.
pub struct CoursesState {
    pub admin: Option<Address>,
    /// The address of the verifier, once configured.
    pub verifier: Option<Address>,
    pub completions: Map<(Address, Seq<char>), Completion>,
    /// How many courses each user has completed.
    pub completed: Map<Address, u32>,
}

/// The count kept for `user`, zero where none is kept.
pub open spec fn count_of(counts: Map<Address, u32>, user: Address) -> u32 {
    if counts.contains_key(user) {
        counts[user]
    } else {
        0
    }
}

/// The badge level that the proof named `proof_id` earns.
pub open spec fn badge_level_of(proof_id: [u8; 32]) -> u8 {
    BRONZE_BADGE
}

/// The module after `caller` asked to configure `verifier`, and the answer.
pub open spec fn set_verifier_step(s: CoursesState, caller: Address, verifier: Address) -> (
    CoursesState,
    Result<(), Error>,
) {
    let (admin, allowed) = authorize_step(s.admin, caller);
    if allowed {
        (CoursesState { admin, verifier: Some(verifier), ..s }, Ok(()))
    } else {
        (s, Err(Error::NotAuthorized))
    }
}

/// Whether a proof that `user` completed `course` would be taken to the
/// verifier.
pub open spec fn proof_expected(s: CoursesState, user: Address, course: Seq<char>) -> Result<
    (),
    Error,
> {
    if s.completions.contains_key((user, course)) && s.completions[(user, course)].completed {
        Err(Error::AlreadyCompleted)
    } else if s.verifier is None {
        Err(Error::VerifierNotConfigured)
    } else {
        Ok(())
    }
}

/// The module after the verifier answered `verdict` on a proof that `user`
/// completed `course`, and the answer to the user: the identifier of the
/// proof and the badge level it earns. An accepted proof is recorded with
/// the time `now` and counts as one more course completed.
pub open spec fn complete_step(
    s: CoursesState,
    user: Address,
    course: Seq<char>,
    verdict: Result<[u8; 32], crate::proof_verifier::Error>,
    now: i64,
) -> (CoursesState, Result<([u8; 32], u8), Error>) {
    match proof_expected(s, user, course) {
        Err(e) => (s, Err(e)),
        Ok(_) => match verdict {
            Err(_) => (s, Err(Error::VerifierCallFailed)),
            Ok(proof_id) => (
                CoursesState {
                    completions: s.completions.insert(
                        (user, course),
                        Completion {
                            completed: true,
                            badge_level: badge_level_of(proof_id),
                            proof_id: Some(proof_id),
                            completed_at: now,
                        },
                    ),
                    completed: s.completed.insert(user, (count_of(s.completed, user) + 1) as u32),
                    ..s
                },
                Ok((proof_id, badge_level_of(proof_id))),
            ),
        },
    }
}

/// The module and the verifier after `user` submitted `blob` for `course`,
/// and the answer. The verifier is asked only where a proof is expected.
pub open spec fn submit_step(
    s: CoursesState,
    v: VerifierState,
    user: Address,
    course: Seq<char>,
    blob: Seq<u8>,
    now: i64,
) -> (CoursesState, VerifierState, Result<([u8; 32], u8), Error>) {
    match proof_expected(s, user, course) {
        Err(e) => (s, v, Err(e)),
        Ok(_) => {
            let (v1, verdict) = verify_step(v, blob);
            let (s1, answer) = complete_step(s, user, course, verdict, now);
            (s1, v1, answer)
        },
    }
}

/// `records` are the completion records that `s` keeps for `user`: each one
/// listed is kept as listed, each one kept is listed, and none is listed
/// twice.
pub open spec fn lists_completions(
    records: Seq<CourseCompletion>,
    s: CoursesState,
    user: Address,
) -> bool {
    &&& forall|i: int|
        0 <= i < records.len() ==> {
            &&& s.completions.contains_key((user, (#[trigger] records[i]).course_id@))
            &&& s.completions[(user, records[i].course_id@)] == records[i].data()
        }
    &&& forall|course: Seq<char>| #[trigger]
        s.completions.contains_key((user, course)) ==> exists|i: int|
            0 <= i < records.len() && (#[trigger] records[i]).course_id@ == course
    &&& forall|i: int, j: int|
        0 <= i < j < records.len() ==> (#[trigger] records[i]).course_id@ != (
        #[trigger] records[j]).course_id@
}

/// The courses module: its admin, the verifier it was pointed at, the
/// completion records, and how many courses each user has completed.
pub struct CourseCompletionContract {
    admin: AdminMarker,
    verifier: Option<Address>,
    completions: Table<CourseKey, Completion>,
    completed: Table<Address, u32>,
}

impl View for CourseCompletionContract {
    type V = CoursesState;

    closed spec fn view(&self) -> CoursesState {
        CoursesState {
            admin: self.admin@,
            verifier: self.verifier,
            completions: self.completions@,
            completed: self.completed@,
        }
    }
}

impl CourseCompletionContract {
    /// No record is kept twice.
    pub closed spec fn wf(&self) -> bool {
        &&& self.completions.wf()
        &&& self.completed.wf()
    }

    /// A module with the given configuration and no records.
    pub fn restore(admin: Option<Address>, verifier: Option<Address>) -> (module:
        CourseCompletionContract)
        ensures
            module.wf(),
            module@ == (CoursesState {
                admin,
                verifier,
                completions: Map::empty(),
                completed: Map::empty(),
            }),
    {
        CourseCompletionContract {
            admin: AdminMarker::restore(admin),
            verifier,
            completions: Table::new(),
            completed: Table::new(),
        }
    }

    /// A module that nobody has configured yet.
    pub fn new() -> (module: CourseCompletionContract)
        ensures
            module.wf(),
            module@ == (CoursesState {
                admin: None,
                verifier: None,
                completions: Map::empty(),
                completed: Map::empty(),
            }),
    {
        CourseCompletionContract::restore(None, None)
    }

    /// Takes over a record of `user` and the number of courses the user has
    /// completed, as they were kept elsewhere.
    pub fn load_completion(&mut self, user: Address, record: CourseCompletion, completed_count: u32)
        requires
            old(self).wf(),
        ensures
            final(self).wf(),
            final(self)@ == (CoursesState {
                completions: old(self)@.completions.insert(
                    (user, record.course_id@),
                    record.data(),
                ),
                completed: old(self)@.completed.insert(user, completed_count),
                ..old(self)@
            }),
    {
        let data = Completion {
            completed: record.completed,
            badge_level: record.badge_level,
            proof_id: record.proof_id,
            completed_at: record.completed_at,
        };
        self.completions.insert(CourseKey { user, course_id: record.course_id }, data);
        self.completed.insert(user, completed_count);
    }

    /// The recorded admin.
    pub fn admin(&self) -> (admin: Option<Address>)
        ensures
            admin == self@.admin,
    {
        self.admin.get()
    }

    /// The address of the configured verifier.
    pub fn verifier_address(&self) -> (verifier: Option<Address>)
        ensures
            verifier == self@.verifier,
    {
        self.verifier
    }

    /// Points the module at its verifier. Only the admin may; the first
    /// caller of an unconfigured module becomes its admin.
    pub fn set_verifier(&mut self, caller: Address, verifier: Address) -> (done: Result<(), Error>)
        requires
            old(self).wf(),
        ensures
            final(self).wf(),
            (final(self)@, done) == set_verifier_step(old(self)@, caller, verifier),
    {
        if !self.admin.assert_admin(&caller) {
            return Err(Error::NotAuthorized);
        }
        self.verifier = Some(verifier);
        Ok(())
    }

    /// The badge level that a verified proof earns.
    pub fn extract_badge_level(proof_id: &[u8; 32]) -> (level: Result<u8, Error>)
        ensures
            level == Ok::<u8, Error>(badge_level_of(*proof_id)),
    {
        Ok(BRONZE_BADGE)
    }

    /// How many courses `user` has completed.
    pub fn completed_course_count(&self, user: Address) -> (count: u32)
        requires
            self.wf(),
        ensures
            count == count_of(self@.completed, user),
    {
        match self.completed.get(&user) {
            Some(count) => *count,
            None => 0,
        }
    }

    /// The record of `course_id` for `user`.
    pub fn get_course_completion(&self, user: Address, course_id: String) -> (record: Option<
        CourseCompletion,
    >)
        requires
            self.wf(),
        ensures
            match record {
                Some(record) => {
                    &&& self@.completions.contains_key((user, course_id@))
                    &&& record.course_id@ == course_id@
                    &&& record.data() == self@.completions[(user, course_id@)]
                },
                None => !self@.completions.contains_key((user, course_id@)),
            },
    {
        let key = CourseKey { user, course_id };
        match self.completions.get(&key) {
            Some(data) => Some(
                CourseCompletion {
                    course_id: key.course_id,
                    completed: data.completed,
                    badge_level: data.badge_level,
                    proof_id: data.proof_id,
                    completed_at: data.completed_at,
                },
            ),
            None => None,
        }
    }

    /// All the completion records of `user`.
    pub fn get_user_completions(&self, user: Address) -> (records: Vec<CourseCompletion>)
        requires
            self.wf(),
        ensures
            lists_completions(records@, self@, user),
    {
        let mut records: Vec<CourseCompletion> = Vec::new();
        let mut sources: Ghost<Seq<int>> = Ghost(Seq::empty());
        let n: usize = self.completions.len();
        let mut i: usize = 0;
        while i < n
            invariant
                self.wf(),
                n == self.completions.listing().len(),
                0 <= i <= n,
                sources@.len() == records.len(),
                forall|r: int|
                    0 <= r < records.len() ==> {
                        let kept = self.completions.listing()[#[trigger] sources@[r]];
                        &&& 0 <= sources@[r] < i
                        &&& kept.0.user == user
                        &&& kept.0.course_id@ == records[r].course_id@
                        &&& kept.1 == records[r].data()
                    },
                forall|r1: int, r2: int|
                    0 <= r1 < r2 < records.len() ==> #[trigger] sources@[r1] < #[trigger] sources@[r2],
                forall|j: int|
                    0 <= j < i && (#[trigger] self.completions.listing()[j]).0.user == user
                        ==> exists|r: int| 0 <= r < records.len() && #[trigger] sources@[r] == j,
            decreases n - i,
        {
            let ghost listed = sources@;
            let ghost found = records@;
            let (key, data) = self.completions.entry(i);
            if key.user.same_as(&user) {
                records.push(
                    CourseCompletion {
                        course_id: key.course_id.clone(),
                        completed: data.completed,
                        badge_level: data.badge_level,
                        proof_id: data.proof_id,
                        completed_at: data.completed_at,
                    },
                );
                proof {
                    sources@ = sources@.push(i as int);
                    assert(sources@[records.len() - 1] == i);
                }
            }
            proof {
                assert forall|j: int|
                    0 <= j <= i && (#[trigger] self.completions.listing()[j]).0.user
                        == user implies exists|r: int|
                    0 <= r < records.len() && #[trigger] sources@[r] == j by {
                    if j < i {
                        let r = choose|r: int| 0 <= r < found.len() && #[trigger] listed[r] == j;
                        assert(sources@[r] == j);
                    } else {
                        assert(sources@[records.len() - 1] == j);
                    }
                }
            }
            i += 1;
        }
        proof {
            let listing = self.completions.listing();
            assert forall|r: int| 0 <= r < records.len() implies {
                &&& self@.completions.contains_key((user, (#[trigger] records[r]).course_id@))
                &&& self@.completions[(user, records[r].course_id@)] == records[r].data()
            } by {
                assert(listing[sources@[r]].0.id() == (user, records[r].course_id@));
                self.completions.lemma_listing(sources@[r]);
            }
            assert forall|course: Seq<char>| #[trigger]
                self@.completions.contains_key((user, course)) implies exists|r: int|
                0 <= r < records.len() && (#[trigger] records[r]).course_id@ == course by {
                let j = self.completions.lemma_listed((user, course));
                assert(listing[j].0.user == user);
                let r = choose|r: int| 0 <= r < records.len() && #[trigger] sources@[r] == j;
                assert(records[r].course_id@ == course);
            }
            assert forall|r1: int, r2: int| 0 <= r1 < r2 < records.len() implies (
            #[trigger] records[r1]).course_id@ != (#[trigger] records[r2]).course_id@ by {
                self.completions.lemma_listing(sources@[r1]);
                assert(sources@[r1] < sources@[r2]);
                assert(listing[sources@[r2]].0.id() != listing[sources@[r1]].0.id());
            }
        }
        records
    }

    /// Whether a proof that `user` completed `course_id` is expected: the
    /// course is not completed yet, and a verifier is configured.
    pub fn check_proof_expected(&self, user: Address, course_id: &String) -> (expected: Result<
        (),
        Error,
    >)
        requires
            self.wf(),
        ensures
            expected == proof_expected(self@, user, course_id@),
    {
        let key = CourseKey { user, course_id: course_id.clone() };
        let completed = match self.completions.get(&key) {
            Some(data) => data.completed,
            None => false,
        };
        if completed {
            Err(Error::AlreadyCompleted)
        } else if self.verifier.is_none() {
            Err(Error::VerifierNotConfigured)
        } else {
            Ok(())
        }
    }

    /// Takes the verifier's answer on a proof that `user` completed
    /// `course_id`, at the time `now`.
    pub fn complete_course(
        &mut self,
        user: Address,
        course_id: String,
        verdict: Result<[u8; 32], crate::proof_verifier::Error>,
        now: i64,
    ) -> (answer: Result<([u8; 32], u8), Error>)
        requires
            old(self).wf(),
            proof_expected(old(self)@, user, course_id@) is Ok && verdict is Ok ==> count_of(
                old(self)@.completed,
                user,
            ) < u32::MAX,
        ensures
            final(self).wf(),
            (final(self)@, answer) == complete_step(old(self)@, user, course_id@, verdict, now),
    {
        match self.check_proof_expected(user, &course_id) {
            Err(e) => {
                return Err(e);
            },
            Ok(_) => {},
        }
        let proof_id: [u8; 32] = match verdict {
            Ok(proof_id) => proof_id,
            Err(_) => {
                return Err(Error::VerifierCallFailed);
            },
        };
        let badge_level: u8 = match CourseCompletionContract::extract_badge_level(&proof_id) {
            Ok(level) => level,
            Err(e) => {
                return Err(e);
            },
        };
        let count: u32 = self.completed_course_count(user);
        let data = Completion {
            completed: true,
            badge_level,
            proof_id: Some(proof_id),
            completed_at: now,
        };
        self.completions.insert(CourseKey { user, course_id }, data);
        self.completed.insert(user, count + 1);
        Ok((proof_id, badge_level))
    }

    /// Submits a proof that `user` completed `course_id`: where a proof is
    /// expected, `verifier` is asked, and the completion is recorded under
    /// the identifier it returns.
    pub fn submit_course_proof(
        &mut self,
        verifier: &mut SimpleVerifier,
        user: Address,
        course_id: String,
        proof_blob: &Vec<u8>,
        now: i64,
    ) -> (answer: Result<([u8; 32], u8), Error>)
        requires
            old(self).wf(),
            old(verifier).wf(),
            proof_blob.len() <= MAX_HASH_INPUT,
            proof_expected(old(self)@, user, course_id@) is Ok ==> count_of(
                old(self)@.completed,
                user,
            ) < u32::MAX,
        ensures
            final(self).wf(),
            final(verifier).wf(),
            (final(self)@, final(verifier)@, answer) == submit_step(
                old(self)@,
                old(verifier)@,
                user,
                course_id@,
                proof_blob@,
                now,
            ),
    {
        match self.check_proof_expected(user, &course_id) {
            Err(e) => {
                return Err(e);
            },
            Ok(_) => {},
        }
        let verdict = verifier.verify_proof_with_stored_vk(proof_blob);
        self.complete_course(user, course_id, verdict, now)
    }
}

/// With no admin recorded, the first to configure the verifier succeeds and
/// becomes the admin; another caller is then refused as `NotAuthorized`, and
/// nothing changes.
pub proof fn lemma_first_caller_configures(
    s: CoursesState,
    first: Address,
    other: Address,
    verifier: Address,
    another: Address,
)
    requires
        s.admin is None,
        first != other,
    ensures
        ({
            let (s1, done) = set_verifier_step(s, first, verifier);
            &&& done is Ok
            &&& s1.admin == Some(first)
            &&& s1.verifier == Some(verifier)
            &&& set_verifier_step(s1, other, another) == (
                s1,
                Err::<(), Error>(Error::NotAuthorized),
            )
        }),
{
}

/// A completed course stays as it is: a further proof for it is refused as
/// `AlreadyCompleted`, the verifier is not asked, and nothing changes.
pub proof fn lemma_completed_course_is_final(
    s: CoursesState,
    v: VerifierState,
    user: Address,
    course: Seq<char>,
    blob: Seq<u8>,
    now: i64,
)
    requires
        s.completions.contains_key((user, course)),
        s.completions[(user, course)].completed,
    ensures
        submit_step(s, v, user, course, blob, now) == (
            s,
            v,
            Err::<([u8; 32], u8), Error>(Error::AlreadyCompleted),
        ),
{
}

/// A proof that was accepted leaves the course completed, so that every
/// later proof for it is refused.
pub proof fn lemma_accepted_proof_completes_once(
    s: CoursesState,
    v: VerifierState,
    user: Address,
    course: Seq<char>,
    blob: Seq<u8>,
    now: i64,
    later: Seq<u8>,
    later_now: i64,
)
    requires
        submit_step(s, v, user, course, blob, now).2 is Ok,
    ensures
        ({
            let (s1, v1, answer) = submit_step(s, v, user, course, blob, now);
            &&& s1.completions.contains_key((user, course))
            &&& s1.completions[(user, course)].completed
            &&& s1.completions[(user, course)].proof_id == Some(answer->Ok_0.0)
            &&& submit_step(s1, v1, user, course, later, later_now) == (
                s1,
                v1,
                Err::<([u8; 32], u8), Error>(Error::AlreadyCompleted),
            )
        }),
{
}

/// Each proof that was accepted counts as one more course completed, and no
/// other user's count moves.
pub proof fn lemma_accepted_proof_counts(
    s: CoursesState,
    v: VerifierState,
    user: Address,
    course: Seq<char>,
    blob: Seq<u8>,
    now: i64,
    other: Address,
)
    requires
        submit_step(s, v, user, course, blob, now).2 is Ok,
        count_of(s.completed, user) < u32::MAX,
        other != user,
    ensures
        count_of(submit_step(s, v, user, course, blob, now).0.completed, user) == count_of(
            s.completed,
            user,
        ) + 1,
        count_of(submit_step(s, v, user, course, blob, now).0.completed, other) == count_of(
            s.completed,
            other,
        ),
{
}

} // verus!
