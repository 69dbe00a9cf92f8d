//! When to migrate: on every fifteenth segment.

use vstd::prelude::*;

verus! {

/// Segments from one migration to the next.
pub const MIGRATION_PERIOD: i32 = 15;

/// Counts segments, and starts over after each period.
///
/// One counter serves a whole process, however many peers it runs.
#[derive(Debug)]
pub struct MigrationPacer {
    flag: i32,
}

/// The count after one more segment.
pub open spec fn next_count(count: int) -> int {
    if count == MIGRATION_PERIOD {
        1
    } else {
        count + 1
    }
}

/// The count after `n` segments, from a new counter.
pub open spec fn count_after(n: nat) -> int
    decreases n,
{
    if n == 0 {
        0
    } else {
        next_count(count_after((n - 1) as nat))
    }
}

/// How many of the next `n` segments end a period, when the count stands at
/// `count`.
pub open spec fn periods_ended(count: int, n: nat) -> nat
    decreases n,
{
    if n == 0 {
        0
    } else {
        let next = next_count(count);
        let here: nat = if next == MIGRATION_PERIOD { 1 } else { 0 };
        here + periods_ended(next, (n - 1) as nat)
    }
}

impl View for MigrationPacer {
    type V = int;

    closed spec fn view(&self) -> int {
        self.flag as int
    }
}

impl MigrationPacer {
    #[verifier::type_invariant]
    spec fn within_period(self) -> bool {
        0 <= self.flag <= MIGRATION_PERIOD
    }

    /// A counter that has seen no segment.
    pub fn new() -> (pacer: Self)
        ensures
            pacer@ == 0,
    {
        MigrationPacer { flag: 0 }
    }

    /// Counts one segment. Does it end a period?
    pub fn tick(&mut self) -> (ended: bool)
        ensures
            final(self)@ == next_count(old(self)@),
            ended == (final(self)@ == MIGRATION_PERIOD),
            1 <= final(self)@ <= MIGRATION_PERIOD,
            final(self)@ == (if old(self)@ == 15 {
                1
            } else {
                old(self)@ + 1
            }),
            ended <==> old(self)@ == 14,
    {
        proof {
            use_type_invariant(&*self);
        }
        if self.flag == MIGRATION_PERIOD {
            self.flag = 0;
        }
        self.flag = self.flag + 1;
        self.flag == MIGRATION_PERIOD
    }
}

/// From a new counter, a period ends at exactly every fifteenth segment.
pub proof fn law_period_ends_at_multiples(n: nat)
    ensures
        n > 0 ==> count_after(n) == (n - 1) % 15 + 1,
        count_after(n) == MIGRATION_PERIOD <==> n > 0 && n % 15 == 0,
    decreases n,
{
    if n > 0 {
        law_period_ends_at_multiples((n - 1) as nat);
    }
}

/// Of any fifteen segments in a row, exactly one ends a period.
pub proof fn law_one_end_per_period(count: int)
    requires
        0 <= count <= MIGRATION_PERIOD,
    ensures
        periods_ended(count, 15) == 1,
{
    reveal_with_fuel(periods_ended, 16);
}

/// A count goes up by one until it has reached fifteen, and then starts over at
/// one.
pub proof fn law_count_steps(count: int)
    ensures
        MIGRATION_PERIOD == 15,
        0 <= count < 15 ==> next_count(count) == count + 1,
        next_count(15) == 1,
        count_after(0) == 0,
{
}

/// The counts of a row of segments follow each other.
pub proof fn law_counts_follow(n: nat)
    ensures
        next_count(count_after(n)) == count_after(n + 1),
        0 <= count_after(n) <= 15,
{
    law_period_ends_at_multiples(n);
}

} // verus!
