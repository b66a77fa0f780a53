//! The savings ledger: one position per user, earning interest at the rate
//! of the user's tier. Interest is settled whenever a position is touched.

use crate::address::Address;
use crate::admin::{authorize_step, AdminMarker};
use crate::table::Table;
use crate::user_levels::{level_value, UserLevels};
use vstd::arithmetic::div_mod::{lemma_div_pos_is_pos, lemma_hoist_over_denominator};
use vstd::prelude::*;

verus! {

/// Yearly rate of a bronze user, in basis points.
pub const BRONZE_APY: i64 = 200;

/// Yearly rate of a silver user, in basis points.
pub const SILVER_APY: i64 = 400;

/// Yearly rate of a gold user, in basis points.
pub const GOLD_APY: i64 = 600;

/// Yearly rate of a platinum user, in basis points.
pub const PLATINUM_APY: i64 = 800;

/// The seconds of a year of 365 days.
pub const SECONDS_PER_YEAR: i64 = 31_536_000;

/// Basis points in the whole, times the seconds of a year: what a year's
/// interest at one basis point per second is divided by.
pub const RATE_DENOMINATOR: i128 = 315_360_000_000;

/// Why a request on the ledger was turned down.
#[derive(Clone, Copy, Debug, PartialEq, Eq, Structural)]
pub enum Error {
    UserLevelsNotConfigured,
    InvalidAmount,
    PositionNotFound,
    NotAuthorized,
    InsufficientBalance,
}

impl Error {
    /// The number under which the error is reported on the ledger.
    pub fn code(&self) -> (code: u32)
        ensures
            code == match *self {
                Error::UserLevelsNotConfigured => 1u32,
                Error::InvalidAmount => 2u32,
                Error::PositionNotFound => 3u32,
                Error::NotAuthorized => 4u32,
                Error::InsufficientBalance => 5u32,
            },
    {
        match self {
            Error::UserLevelsNotConfigured => 1,
            Error::InvalidAmount => 2,
            Error::PositionNotFound => 3,
            Error::NotAuthorized => 4,
            Error::InsufficientBalance => 5,
        }
    }
}

/// The yearly rate of a tier, in basis points. A tier that is not known
/// earns the bronze rate.
pub open spec fn apy_for_level(level: u8) -> int {
    if level == 2 {
        SILVER_APY as int
    } else if level == 3 {
        GOLD_APY as int
    } else if level == 4 {
        PLATINUM_APY as int
    } else {
        BRONZE_APY as int
    }
}

/// The interest that `principal` earns in `elapsed` seconds at `apy` basis
/// points a year, rounded down.
pub open spec fn accrued_interest(principal: int, apy: int, elapsed: int) -> int {
    (principal * apy * elapsed) / (10_000 * SECONDS_PER_YEAR as int)
}

/// A user's savings.
#[derive(Clone, Copy, Debug, PartialEq, Eq)]
pub struct SavingsPosition {
    pub user: Address,
    pub principal: i128,
    pub interest_earned: i128,
    /// The tier of the user when the rate was set.
    pub level: u8,
    /// The yearly rate in basis points.
    pub apy: i64,
    /// When interest was settled last.
    pub last_updated: i64,
}

impl SavingsPosition {
    /// Neither amount is negative, their sum is an amount, and the rate is
    /// the rate of the tier.
    pub open spec fn valid(&self) -> bool {
        &&& self.principal >= 0
        &&& self.interest_earned >= 0
        &&& self.principal + self.interest_earned <= i128::MAX
        &&& self.apy == apy_for_level(self.level)
    }

    /// Whether interest is due at the time `now`: time has passed since the
    /// position was settled, and there is a principal.
    pub open spec fn accrues(&self, now: i64) -> bool {
        now - self.last_updated > 0 && self.principal != 0
    }

    /// The interest due at the time `now`.
    pub open spec fn due(&self, now: i64) -> int {
        if self.accrues(now) {
            accrued_interest(self.principal as int, self.apy as int, now - self.last_updated)
        } else {
            0
        }
    }

    /// Principal and interest at the time `now`, with what is due.
    pub open spec fn settled_total(&self, now: i64) -> int {
        self.principal + self.interest_earned + self.due(now)
    }

    /// The position settled at the time `now`, while the user's tier is
    /// `current_level`: the interest due is added under the rate that held
    /// so far, and a tier that changed sets the rate from now on.
    pub open spec fn settled(&self, current_level: u8, now: i64) -> SavingsPosition {
        if self.accrues(now) {
            SavingsPosition {
                interest_earned: (self.interest_earned + self.due(now)) as i128,
                last_updated: now,
                level: current_level,
                apy: if current_level != self.level {
                    apy_for_level(current_level) as i64
                } else {
                    self.apy
                },
                ..*self
            }
        } else {
            *self
        }
    }

    /// Whether the position is valid.
    pub fn is_valid(&self) -> (ok: bool)
        ensures
            ok == self.valid(),
    {
        self.principal >= 0 && self.interest_earned >= 0 && self.interest_earned <= i128::MAX
            - self.principal && self.apy == DeFindex::get_apy_for_level(self.level)
    }
}

/// What the ledger remembers.
pub struct LedgerState {
    pub admin: Option<Address>,
    /// The address of the tiers module, once configured.
    pub user_levels: Option<Address>,
    pub positions: Map<Address, SavingsPosition>,
}

/// The ledger after `caller` asked to configure the tiers module, and the
/// answer.
pub open spec fn set_user_levels_step(s: LedgerState, caller: Address, user_levels: Address) -> (
    LedgerState,
    Result<(), Error>,
) {
    let (admin, allowed) = authorize_step(s.admin, caller);
    if allowed {
        (LedgerState { admin, user_levels: Some(user_levels), ..s }, Ok(()))
    } else {
        (s, Err(Error::NotAuthorized))
    }
}

/// The tier of a user as the ledger learns it: none before the tiers module
/// is configured.
pub open spec fn level_lookup(s: LedgerState, level: u8) -> Result<u8, Error> {
    if s.user_levels is None {
        Err(Error::UserLevelsNotConfigured)
    } else {
        Ok(level)
    }
}

/// The position `p` settled at the time `now`. Where no interest is due the
/// position is returned as it is; else the tier is needed, and the tiers
/// module must be configured.
pub open spec fn refresh_step(s: LedgerState, p: SavingsPosition, current_level: u8, now: i64) -> Result<
    SavingsPosition,
    Error,
> {
    if !p.accrues(now) {
        Ok(p)
    } else if s.user_levels is None {
        Err(Error::UserLevelsNotConfigured)
    } else {
        Ok(p.settled(current_level, now))
    }
}

/// The position of `user` from which a deposit starts: the one kept, or an
/// empty one at the user's tier.
pub open spec fn opening_position(s: LedgerState, user: Address, current_level: u8, now: i64) -> SavingsPosition {
    if s.positions.contains_key(user) {
        s.positions[user]
    } else {
        SavingsPosition {
            user,
            principal: 0,
            interest_earned: 0,
            level: current_level,
            apy: apy_for_level(current_level) as i64,
            last_updated: now,
        }
    }
}

/// The position of `user`, settled at the time `now`, is within what an
/// amount can hold.
pub open spec fn settles(s: LedgerState, user: Address, now: i64) -> bool {
    s.positions.contains_key(user) ==> s.positions[user].settled_total(now) <= i128::MAX
}

/// The position of `user`, settled at the time `now` and grown by `amount`,
/// is within what an amount can hold.
pub open spec fn deposit_fits(s: LedgerState, user: Address, amount: i128, now: i64) -> bool {
    s.positions.contains_key(user) && amount > 0 ==> s.positions[user].settled_total(now) + amount
        <= i128::MAX
}

/// The ledger after `user` deposited `amount` at the time `now`, while the
/// user's tier is `current_level`, and the answer. Interest is settled under
/// the old rate before the principal grows.
pub open spec fn deposit_step(
    s: LedgerState,
    user: Address,
    amount: i128,
    current_level: u8,
    now: i64,
) -> (LedgerState, Result<(), Error>) {
    if amount <= 0 {
        (s, Err(Error::InvalidAmount))
    } else if s.user_levels is None {
        (s, Err(Error::UserLevelsNotConfigured))
    } else {
        let settled = opening_position(s, user, current_level, now).settled(current_level, now);
        let position = SavingsPosition {
            principal: (settled.principal + amount) as i128,
            level: current_level,
            apy: apy_for_level(current_level) as i64,
            last_updated: now,
            ..settled
        };
        (LedgerState { positions: s.positions.insert(user, position), ..s }, Ok(()))
    }
}

/// The position `p` after `amount` was taken from it at the time `now`: out
/// of the principal first, and what the principal cannot cover out of the
/// interest.
pub open spec fn debited(p: SavingsPosition, amount: i128, now: i64) -> SavingsPosition {
    if amount <= p.principal {
        SavingsPosition { principal: (p.principal - amount) as i128, last_updated: now, ..p }
    } else {
        SavingsPosition {
            principal: 0,
            interest_earned: (p.interest_earned - (amount - p.principal)) as i128,
            last_updated: now,
            ..p
        }
    }
}

/// The ledger after `user` asked for `amount` at the time `now`, while the
/// user's tier is `current_level`, and the amount paid out. Interest is
/// settled first; more than principal and interest together cannot be had.
pub open spec fn withdraw_step(
    s: LedgerState,
    user: Address,
    amount: i128,
    current_level: u8,
    now: i64,
) -> (LedgerState, Result<i128, Error>) {
    if amount <= 0 {
        (s, Err(Error::InvalidAmount))
    } else if !s.positions.contains_key(user) {
        (s, Err(Error::PositionNotFound))
    } else {
        match refresh_step(s, s.positions[user], current_level, now) {
            Err(e) => (s, Err(e)),
            Ok(settled) => if amount > settled.principal + settled.interest_earned {
                (s, Err(Error::InsufficientBalance))
            } else {
                (
                    LedgerState {
                        positions: s.positions.insert(user, debited(settled, amount, now)),
                        ..s
                    },
                    Ok(amount),
                )
            },
        }
    }
}

/// Principal and interest of `user` at the time `now`, with the interest
/// due where it can be settled; nothing for a user without a position.
pub open spec fn balance_at(s: LedgerState, user: Address, current_level: u8, now: i64) -> int {
    if !s.positions.contains_key(user) {
        0
    } else {
        let position = match refresh_step(s, s.positions[user], current_level, now) {
            Ok(settled) => settled,
            Err(_) => s.positions[user],
        };
        position.principal + position.interest_earned
    }
}

/// Splitting the principal by the denominator loses nothing: the interest
/// is what the whole multiples earn and what the remainder earns, rounded
/// down.
proof fn lemma_interest_by_parts(principal: int, apy: int, elapsed: int)
    requires
        0 <= principal,
        0 <= apy,
        0 <= elapsed,
    ensures
        ({
            let d = RATE_DENOMINATOR as int;
            let k = apy * elapsed;
            &&& accrued_interest(principal, apy, elapsed) == (principal / d) * k + ((principal % d)
                * k) / d
            &&& 0 <= ((principal % d) * k) / d
            &&& 0 <= (principal / d) * k
            &&& 0 <= k
        }),
{
    let d = RATE_DENOMINATOR as int;
    let k = apy * elapsed;
    let q = principal / d;
    let r = principal % d;
    assert(0 <= k) by (nonlinear_arith)
        requires
            k == apy * elapsed,
            0 <= apy,
            0 <= elapsed,
    ;
    assert(principal == q * d + r && 0 <= r < d && 0 <= q) by (nonlinear_arith)
        requires
            q == principal / d,
            r == principal % d,
            d == 315_360_000_000,
            0 <= principal,
    ;
    assert(principal * apy * elapsed == r * k + (q * k) * d) by (nonlinear_arith)
        requires
            principal == q * d + r,
            k == apy * elapsed,
    ;
    assert(0 <= r * k && 0 <= q * k) by (nonlinear_arith)
        requires
            0 <= r,
            0 <= q,
            0 <= k,
    ;
    lemma_hoist_over_denominator(r * k, q * k, d as nat);
    lemma_div_pos_is_pos(r * k, d);
    assert(10_000 * SECONDS_PER_YEAR as int == d);
}

/// The ledger: its admin, the tiers module it was pointed at, and one
/// position per user.
pub struct DeFindex {
    admin: AdminMarker,
    user_levels: Option<Address>,
    positions: Table<Address, SavingsPosition>,
}

impl View for DeFindex {
    type V = LedgerState;

    closed spec fn view(&self) -> LedgerState {
        LedgerState {
            admin: self.admin@,
            user_levels: self.user_levels,
            positions: self.positions@,
        }
    }
}

impl DeFindex {
    /// Every position kept is valid and is kept for its own user.
    pub closed spec fn wf(&self) -> bool {
        &&& self.positions.wf()
        &&& forall|user: Address| #[trigger]
            self.positions@.contains_key(user) ==> self.positions@[user].valid()
                && self.positions@[user].user == user
    }

    /// Under `wf`, no position holds a negative principal or negative
    /// interest.
    pub proof fn lemma_positions_valid(&self, user: Address)
        requires
            self.wf(),
            self@.positions.contains_key(user),
        ensures
            self@.positions[user].valid(),
            self@.positions[user].user == user,
            self@.positions[user].principal >= 0,
            self@.positions[user].interest_earned >= 0,
    {
    }

    /// A ledger with the given configuration and no positions.
    pub fn restore(admin: Option<Address>, user_levels: Option<Address>) -> (ledger: DeFindex)
        ensures
            ledger.wf(),
            ledger@ == (LedgerState { admin, user_levels, positions: Map::empty() }),
    {
        DeFindex { admin: AdminMarker::restore(admin), user_levels, positions: Table::new() }
    }

    /// A ledger that nobody has configured yet.
    pub fn new() -> (ledger: DeFindex)
        ensures
            ledger.wf(),
            ledger@ == (LedgerState { admin: None, user_levels: None, positions: Map::empty() }),
    {
        DeFindex::restore(None, None)
    }

    /// Takes over a position, as it was kept elsewhere, for the user it
    /// names. A position that is not valid is refused, and nothing changes.
    pub fn load_position(&mut self, position: SavingsPosition) -> (taken: bool)
        requires
            old(self).wf(),
        ensures
            final(self).wf(),
            taken == position.valid(),
            final(self)@ == if taken {
                LedgerState {
                    positions: old(self)@.positions.insert(position.user, position),
                    ..old(self)@
                }
            } else {
                old(self)@
            },
    {
        if !position.is_valid() {
            return false;
        }
        self.positions.insert(position.user, position);
        true
    }

    /// The recorded admin.
    pub fn admin(&self) -> (admin: Option<Address>)
        ensures
            admin == self@.admin,
    {
        self.admin.get()
    }

    /// The address of the configured tiers module.
    pub fn user_levels_address(&self) -> (user_levels: Option<Address>)
        ensures
            user_levels == self@.user_levels,
    {
        self.user_levels
    }

    /// Points the ledger at the tiers module. Only the admin may; the first
    /// caller of an unconfigured ledger becomes its admin.
    pub fn set_user_levels(&mut self, caller: Address, user_levels: Address) -> (done: Result<
        (),
        Error,
    >)
        requires
            old(self).wf(),
        ensures
            final(self).wf(),
            (final(self)@, done) == set_user_levels_step(old(self)@, caller, user_levels),
    {
        if !self.admin.assert_admin(&caller) {
            return Err(Error::NotAuthorized);
        }
        self.user_levels = Some(user_levels);
        Ok(())
    }

    /// The yearly rate of a tier, in basis points.
    pub fn get_apy_for_level(level: u8) -> (apy: i64)
        ensures
            apy == apy_for_level(level),
    {
        match level {
            1 => BRONZE_APY,
            2 => SILVER_APY,
            3 => GOLD_APY,
            4 => PLATINUM_APY,
            _ => BRONZE_APY,
        }
    }

    /// The interest that `principal` earns in `elapsed` seconds at `apy`
    /// basis points a year, rounded down.
    pub fn interest_for(principal: i128, apy: i64, elapsed: i128) -> (interest: i128)
        requires
            0 <= principal,
            0 <= apy <= PLATINUM_APY,
            0 <= elapsed <= u64::MAX,
            accrued_interest(principal as int, apy as int, elapsed as int) <= i128::MAX,
        ensures
            interest == accrued_interest(principal as int, apy as int, elapsed as int),
            interest >= 0,
    {
        proof {
            lemma_interest_by_parts(principal as int, apy as int, elapsed as int);
        }
        match DeFindex::checked_interest_for(principal, apy, elapsed) {
            Some(interest) => interest,
            None => 0,
        }
    }

    /// The interest that `principal` earns in `elapsed` seconds at `apy`
    /// basis points a year, rounded down; nothing where it is more than an
    /// amount can hold.
    pub fn checked_interest_for(principal: i128, apy: i64, elapsed: i128) -> (interest: Option<i128>)
        requires
            0 <= principal,
            0 <= apy <= PLATINUM_APY,
            0 <= elapsed <= u64::MAX,
        ensures
            interest == if accrued_interest(principal as int, apy as int, elapsed as int)
                <= i128::MAX {
                Some(accrued_interest(principal as int, apy as int, elapsed as int) as i128)
            } else {
                None
            },
    {
        proof {
            lemma_interest_by_parts(principal as int, apy as int, elapsed as int);
            assert(apy * elapsed <= 800 * 0xffff_ffff_ffff_ffff) by (nonlinear_arith)
                requires
                    0 <= apy <= 800,
                    0 <= elapsed <= 0xffff_ffff_ffff_ffff,
            ;
        }
        let k: i128 = (apy as i128) * elapsed;
        let whole: i128 = principal / RATE_DENOMINATOR;
        let rest: i128 = principal % RATE_DENOMINATOR;
        proof {
            assert(rest * k <= 315_360_000_000 * (800 * 0xffff_ffff_ffff_ffff)) by (nonlinear_arith)
                requires
                    0 <= rest <= 315_360_000_000,
                    0 <= k <= 800 * 0xffff_ffff_ffff_ffff,
            ;
        }
        let part: i128 = (rest * k) / RATE_DENOMINATOR;
        match whole.checked_mul(k) {
            Some(multiples) => multiples.checked_add(part),
            None => None,
        }
    }

    /// Whether the position of `user`, settled at the time `now`, is within
    /// what an amount can hold.
    pub fn can_settle(&self, user: Address, now: i64) -> (fits: bool)
        requires
            self.wf(),
        ensures
            fits == settles(self@, user, now),
    {
        match self.positions.get(&user) {
            None => true,
            Some(position) => {
                let elapsed: i128 = (now as i128) - (position.last_updated as i128);
                if elapsed <= 0 || position.principal == 0 {
                    return true;
                }
                match DeFindex::checked_interest_for(position.principal, position.apy, elapsed) {
                    None => false,
                    Some(due) => due <= i128::MAX - position.principal - position.interest_earned,
                }
            },
        }
    }

    /// Whether the position of `user`, settled at the time `now` and grown
    /// by `amount`, is within what an amount can hold.
    pub fn can_deposit(&self, user: Address, amount: i128, now: i64) -> (fits: bool)
        requires
            self.wf(),
        ensures
            fits == deposit_fits(self@, user, amount, now),
    {
        if amount <= 0 {
            return true;
        }
        match self.positions.get(&user) {
            None => true,
            Some(position) => {
                let elapsed: i128 = (now as i128) - (position.last_updated as i128);
                let room: i128 = i128::MAX - position.principal - position.interest_earned;
                if elapsed <= 0 || position.principal == 0 {
                    return amount <= room;
                }
                match DeFindex::checked_interest_for(position.principal, position.apy, elapsed) {
                    None => false,
                    Some(due) => due <= room && amount <= room - due,
                }
            },
        }
    }

    /// The tier of `user` as `levels` remembers it. The tiers module must be
    /// configured.
    pub fn get_user_level(&self, levels: &UserLevels, user: Address) -> (level: Result<u8, Error>)
        requires
            levels.wf(),
        ensures
            level == level_lookup(self@, level_value(levels@, user)),
    {
        if self.user_levels.is_none() {
            return Err(Error::UserLevelsNotConfigured);
        }
        Ok(levels.get_user_level_value(user))
    }

    /// Settles the interest of `position` at the time `now`, while the
    /// user's tier is `current_level`.
    pub fn update_interest(&self, position: &SavingsPosition, current_level: u8, now: i64) -> (settled:
        Result<SavingsPosition, Error>)
        requires
            position.valid(),
            position.settled_total(now) <= i128::MAX,
        ensures
            settled == refresh_step(self@, *position, current_level, now),
            settled is Ok ==> settled->Ok_0.valid(),
    {
        let elapsed: i128 = (now as i128) - (position.last_updated as i128);
        if elapsed <= 0 || position.principal == 0 {
            return Ok(*position);
        }
        proof {
            lemma_interest_by_parts(position.principal as int, position.apy as int, elapsed as int);
        }
        let interest: i128 = DeFindex::interest_for(position.principal, position.apy, elapsed);
        if self.user_levels.is_none() {
            return Err(Error::UserLevelsNotConfigured);
        }
        let mut updated: SavingsPosition = *position;
        updated.interest_earned = position.interest_earned + interest;
        updated.last_updated = now;
        if current_level != position.level {
            updated.level = current_level;
            updated.apy = DeFindex::get_apy_for_level(current_level);
        }
        Ok(updated)
    }

    /// Deposits `amount` for `user` at the time `now`, while the user's
    /// tier is `current_level`.
    pub fn deposit_at_level(&mut self, user: Address, amount: i128, current_level: u8, now: i64) -> (done:
        Result<(), Error>)
        requires
            old(self).wf(),
            deposit_fits(old(self)@, user, amount, now),
        ensures
            final(self).wf(),
            (final(self)@, done) == deposit_step(old(self)@, user, amount, current_level, now),
    {
        if amount <= 0 {
            return Err(Error::InvalidAmount);
        }
        if self.user_levels.is_none() {
            return Err(Error::UserLevelsNotConfigured);
        }
        let apy: i64 = DeFindex::get_apy_for_level(current_level);
        let opening: SavingsPosition = match self.positions.get(&user) {
            Some(position) => *position,
            None => SavingsPosition {
                user,
                principal: 0,
                interest_earned: 0,
                level: current_level,
                apy,
                last_updated: now,
            },
        };
        assert(opening == opening_position(self@, user, current_level, now));
        let mut position: SavingsPosition = match self.update_interest(&opening, current_level, now) {
            Ok(settled) => settled,
            Err(e) => {
                return Err(e);
            },
        };
        position.principal = position.principal + amount;
        position.level = current_level;
        position.apy = apy;
        position.last_updated = now;
        self.positions.insert(user, position);
        Ok(())
    }

    /// Deposits `amount` for `user` at the time `now`, at the tier that
    /// `levels` remembers for the user.
    pub fn deposit(&mut self, levels: &UserLevels, user: Address, amount: i128, now: i64) -> (done:
        Result<(), Error>)
        requires
            old(self).wf(),
            levels.wf(),
            deposit_fits(old(self)@, user, amount, now),
        ensures
            final(self).wf(),
            (final(self)@, done) == deposit_step(
                old(self)@,
                user,
                amount,
                level_value(levels@, user),
                now,
            ),
    {
        let current_level: u8 = levels.get_user_level_value(user);
        self.deposit_at_level(user, amount, current_level, now)
    }

    /// Pays `amount` out to `user` at the time `now`, while the user's tier
    /// is `current_level`.
    pub fn withdraw_at_level(&mut self, user: Address, amount: i128, current_level: u8, now: i64) -> (paid:
        Result<i128, Error>)
        requires
            old(self).wf(),
            settles(old(self)@, user, now),
        ensures
            final(self).wf(),
            (final(self)@, paid) == withdraw_step(old(self)@, user, amount, current_level, now),
    {
        if amount <= 0 {
            return Err(Error::InvalidAmount);
        }
        let kept: SavingsPosition = match self.positions.get(&user) {
            Some(position) => *position,
            None => {
                return Err(Error::PositionNotFound);
            },
        };
        let mut position: SavingsPosition = match self.update_interest(&kept, current_level, now) {
            Ok(settled) => settled,
            Err(e) => {
                return Err(e);
            },
        };
        let total_balance: i128 = position.principal + position.interest_earned;
        if amount > total_balance {
            return Err(Error::InsufficientBalance);
        }
        if amount <= position.principal {
            position.principal = position.principal - amount;
        } else {
            let remaining: i128 = amount - position.principal;
            position.interest_earned = position.interest_earned - remaining;
            position.principal = 0;
        }
        position.last_updated = now;
        self.positions.insert(user, position);
        Ok(amount)
    }

    /// Pays `amount` out to `user` at the time `now`, at the tier that
    /// `levels` remembers for the user.
    pub fn withdraw(&mut self, levels: &UserLevels, user: Address, amount: i128, now: i64) -> (paid:
        Result<i128, Error>)
        requires
            old(self).wf(),
            levels.wf(),
            settles(old(self)@, user, now),
        ensures
            final(self).wf(),
            (final(self)@, paid) == withdraw_step(
                old(self)@,
                user,
                amount,
                level_value(levels@, user),
                now,
            ),
    {
        let current_level: u8 = levels.get_user_level_value(user);
        self.withdraw_at_level(user, amount, current_level, now)
    }

    /// The position of `user`.
    pub fn get_position(&self, user: Address) -> (position: Option<SavingsPosition>)
        requires
            self.wf(),
        ensures
            position == if self@.positions.contains_key(user) {
                Some(self@.positions[user])
            } else {
                None
            },
            position is Some ==> position->0.valid() && position->0.user == user,
    {
        match self.positions.get(&user) {
            Some(position) => Some(*position),
            None => None,
        }
    }

    /// Principal and interest of `user` at the time `now`, while the user's
    /// tier is `current_level`. The interest due is counted in; the ledger
    /// itself stays as it is.
    pub fn balance_at_level(&self, user: Address, current_level: u8, now: i64) -> (balance: i128)
        requires
            self.wf(),
            settles(self@, user, now),
        ensures
            balance == balance_at(self@, user, current_level, now),
            balance >= 0,
    {
        match self.positions.get(&user) {
            Some(kept) => {
                let position: SavingsPosition = match self.update_interest(
                    kept,
                    current_level,
                    now,
                ) {
                    Ok(settled) => settled,
                    Err(_) => *kept,
                };
                position.principal + position.interest_earned
            },
            None => 0,
        }
    }

    /// Principal and interest of `user` at the time `now`, at the tier that
    /// `levels` remembers for the user.
    pub fn get_balance(&self, levels: &UserLevels, user: Address, now: i64) -> (balance: i128)
        requires
            self.wf(),
            levels.wf(),
            settles(self@, user, now),
        ensures
            balance == balance_at(self@, user, level_value(levels@, user), now),
            balance >= 0,
    {
        let current_level: u8 = levels.get_user_level_value(user);
        self.balance_at_level(user, current_level, now)
    }
}

/// With no admin recorded, the first to configure the ledger succeeds and
/// becomes the admin; another caller is then refused as `NotAuthorized`, and
/// nothing changes.
pub proof fn lemma_first_caller_configures(
    s: LedgerState,
    first: Address,
    other: Address,
    user_levels: Address,
    another: Address,
)
    requires
        s.admin is None,
        first != other,
    ensures
        ({
            let (s1, done) = set_user_levels_step(s, first, user_levels);
            &&& done is Ok
            &&& s1.admin == Some(first)
            &&& s1.user_levels == Some(user_levels)
            &&& set_user_levels_step(s1, other, another) == (
                s1,
                Err::<(), Error>(Error::NotAuthorized),
            )
        }),
{
}

/// A request that changes the ledger.
pub enum Request {
    Deposit { user: Address, amount: i128, current_level: u8, now: i64 },
    Withdraw { user: Address, amount: i128, current_level: u8, now: i64 },
}

/// The ledger after `request`.
pub open spec fn after(s: LedgerState, request: Request) -> LedgerState {
    match request {
        Request::Deposit { user, amount, current_level, now } => deposit_step(
            s,
            user,
            amount,
            current_level,
            now,
        ).0,
        Request::Withdraw { user, amount, current_level, now } => withdraw_step(
            s,
            user,
            amount,
            current_level,
            now,
        ).0,
    }
}

/// The amounts that `request` leads to are within what an amount can hold.
pub open spec fn within_limits(s: LedgerState, request: Request) -> bool {
    match request {
        Request::Deposit { user, amount, current_level, now } => deposit_fits(s, user, amount, now),
        Request::Withdraw { user, amount, current_level, now } => settles(s, user, now),
    }
}

/// The ledger after `requests`, one after the other.
pub open spec fn after_all(s: LedgerState, requests: Seq<Request>) -> LedgerState
    decreases requests.len(),
{
    if requests.len() == 0 {
        s
    } else {
        after(after_all(s, requests.drop_last()), requests.last())
    }
}

/// Every one of `requests` is within limits on the ledger that it meets.
pub open spec fn all_within_limits(s: LedgerState, requests: Seq<Request>) -> bool
    decreases requests.len(),
{
    requests.len() == 0 || {
        &&& all_within_limits(s, requests.drop_last())
        &&& within_limits(after_all(s, requests.drop_last()), requests.last())
    }
}

/// Every position of the ledger is valid: in particular, no principal and
/// no interest is negative.
pub open spec fn sound(s: LedgerState) -> bool {
    forall|user: Address| #[trigger]
        s.positions.contains_key(user) ==> s.positions[user].valid() && s.positions[user].user
            == user
}

/// The interest due on a valid position is never negative.
pub proof fn lemma_due_never_negative(p: SavingsPosition, now: i64)
    requires
        p.valid(),
    ensures
        p.due(now) >= 0,
{
    if p.accrues(now) {
        lemma_interest_by_parts(p.principal as int, p.apy as int, now - p.last_updated);
    }
}

/// Settling a valid position leaves it valid, with at least the interest
/// it had.
pub proof fn lemma_settled_valid(p: SavingsPosition, current_level: u8, now: i64)
    requires
        p.valid(),
        p.settled_total(now) <= i128::MAX,
    ensures
        p.settled(current_level, now).valid(),
        p.settled(current_level, now).user == p.user,
        p.settled(current_level, now).principal == p.principal,
        p.settled(current_level, now).interest_earned == p.interest_earned + p.due(now),
{
    lemma_due_never_negative(p, now);
}

/// A request within limits leaves a sound ledger sound.
pub proof fn lemma_request_keeps_sound(s: LedgerState, request: Request)
    requires
        sound(s),
        within_limits(s, request),
    ensures
        sound(after(s, request)),
{
    match request {
        Request::Deposit { user, amount, current_level, now } => {
            if amount > 0 {
                lemma_settled_valid(opening_position(s, user, current_level, now), current_level, now);
            }
        },
        Request::Withdraw { user, amount, current_level, now } => {
            if s.positions.contains_key(user) {
                lemma_settled_valid(s.positions[user], current_level, now);
            }
        },
    }
}

/// Whatever sequence of deposits and withdrawals a sound ledger goes
/// through, as long as each is within limits: no principal and no interest
/// is ever negative.
pub proof fn lemma_never_negative(s: LedgerState, requests: Seq<Request>)
    requires
        sound(s),
        all_within_limits(s, requests),
    ensures
        sound(after_all(s, requests)),
        forall|user: Address| #[trigger]
            after_all(s, requests).positions.contains_key(user) ==> {
                &&& after_all(s, requests).positions[user].principal >= 0
                &&& after_all(s, requests).positions[user].interest_earned >= 0
            },
    decreases requests.len(),
{
    if requests.len() > 0 {
        lemma_never_negative(s, requests.drop_last());
        lemma_request_keeps_sound(after_all(s, requests.drop_last()), requests.last());
    }
}

/// A withdrawal that is paid out takes exactly the amount from principal
/// and interest together, and from the principal first.
pub proof fn lemma_withdraw_takes_principal_first(
    s: LedgerState,
    user: Address,
    amount: i128,
    current_level: u8,
    now: i64,
)
    requires
        sound(s),
        settles(s, user, now),
        withdraw_step(s, user, amount, current_level, now).1 is Ok,
    ensures
        ({
            let settled = s.positions[user].settled(current_level, now);
            let left = withdraw_step(s, user, amount, current_level, now).0.positions[user];
            &&& left.principal + left.interest_earned == settled.principal
                + settled.interest_earned - amount
            &&& left.interest_earned < settled.interest_earned ==> left.principal == 0
            &&& left.principal >= 0
            &&& left.interest_earned >= 0
        }),
{
    lemma_settled_valid(s.positions[user], current_level, now);
}

} // verus!
