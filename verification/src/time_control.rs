//! Per-match chess clock.
//!
//! Both clocks are budgets in milliseconds. While the match is in the
//! selection stage the budgets are shared against one `last_click` stamp
//! and a move does not mutate them; from the placement stage on, a move
//! by a side settles that side's remaining time plus the increment back
//! into its clock and restamps `last_click`. Stage `3` is a transient
//! mode used only while a selection is confirmed: the remaining budget is
//! settled without restamping `last_click`.

use vstd::prelude::*;

verus! {

/// Milliseconds of both clocks at creation: `minutes * 60 + incr_s` seconds.
pub open spec fn spec_initial_clock_ms(minutes: u64, incr_s: u64) -> int {
    (minutes * 60 + incr_s) * 1000
}

pub struct TimeControl {
    /// Timestamp, in milliseconds, of the last clock-relevant event.
    pub last_click: u64,
    /// Remaining budget of white (index 0) and black (index 1), milliseconds.
    pub clocks: [u64; 2],
    /// Stage the clock runs under: 0 selection, 1 placement, 2 fight,
    /// 3 transient select-confirm mode.
    pub stage: u8,
    /// Increment granted to a side per settled move, milliseconds.
    pub incr: u64,
}

impl TimeControl {
    /// Milliseconds elapsed since the last click, zero under clock skew.
    pub open spec fn spec_elapsed(self, now: u64) -> int {
        if now >= self.last_click {
            now - self.last_click
        } else {
            0
        }
    }

    /// Remaining budget of `color` at `now`; negative when flagged.
    pub open spec fn spec_remaining(self, color: int, now: u64) -> int {
        self.clocks[color] - self.spec_elapsed(now)
    }

    /// Create a clock of `minutes` minutes plus `incr_s` seconds a side.
    pub fn new(minutes: u64, incr_s: u64, now: u64) -> (tc: TimeControl)
        requires
            minutes <= 90,
            incr_s <= 90,
        ensures
            tc.clocks[0] == spec_initial_clock_ms(minutes, incr_s),
            tc.clocks[1] == spec_initial_clock_ms(minutes, incr_s),
            tc.stage == 0,
            tc.incr == incr_s * 1000,
            tc.last_click == now,
    {
        let ms: u64 = (minutes * 60 + incr_s) * 1000;
        TimeControl { last_click: now, clocks: [ms, ms], stage: 0, incr: incr_s * 1000 }
    }

    /// Enter a stage and restamp the click.
    pub fn update_stage(&mut self, stage: u8, now: u64)
        ensures
            final(self).stage == stage,
            final(self).last_click == now,
            final(self).clocks == old(self).clocks,
            final(self).incr == old(self).incr,
    {
        self.stage = stage;
        self.last_click = now;
    }

    /// Remaining budget of `color` at `now`, or `None` once it is spent.
    pub fn current_duration(&self, color: usize, now: u64) -> (r: Option<u64>)
        requires
            color < 2,
        ensures
            r is Some <==> self.spec_remaining(color as int, now) >= 0,
            r is Some ==> r->0 == self.spec_remaining(color as int, now),
    {
        let elapsed: u64 = if now >= self.last_click {
            now - self.last_click
        } else {
            0
        };
        if self.clocks[color] >= elapsed {
            Some(self.clocks[color] - elapsed)
        } else {
            None
        }
    }

    /// Settle a move by `color` at `now`. Returns the two clocks in
    /// milliseconds, or `None`, with nothing changed, if the budget is
    /// already spent. From stage 1 on, `color`'s clock becomes its
    /// remaining budget plus the increment; below stage 3 the click is
    /// restamped; in stage 0 nothing is mutated.
    pub fn play(&mut self, color: usize, now: u64) -> (r: Option<[u64; 2]>)
        requires
            color < 2,
        ensures
            r is Some <==> old(self).spec_remaining(color as int, now) >= 0,
            r is None ==> *final(self) == *old(self),
            r is Some ==> {
                let rem = old(self).spec_remaining(color as int, now);
                &&& final(self).incr == old(self).incr
                &&& final(self).stage == old(self).stage
                &&& final(self).clocks[1 - color as int] == old(self).clocks[1 - color as int]
                &&& (old(self).stage == 0 ==> *final(self) == *old(self))
                &&& (old(self).stage >= 1 ==> final(self).clocks[color as int] == if rem
                    + old(self).incr <= u64::MAX {
                    rem + old(self).incr
                } else {
                    0
                })
                &&& (old(self).stage >= 1 && old(self).stage < 3 ==> final(self).last_click
                    == now)
                &&& (old(self).stage == 0 || old(self).stage >= 3 ==> final(self).last_click
                    == old(self).last_click)
                &&& r->0[0] == final(self).clocks[0]
                &&& r->0[1] == final(self).clocks[1]
            },
    {
        let Some(remaining) = self.current_duration(color, now) else { return None };
        if self.stage >= 1 {
            let bumped: u64 = if remaining <= u64::MAX - self.incr {
                remaining + self.incr
            } else {
                0
            };
            if color == 0 {
                self.clocks = [bumped, self.clocks[1]];
            } else {
                self.clocks = [self.clocks[0], bumped];
            }
            if self.stage < 3 {
                self.last_click = now;
            }
        }
        Some([self.clocks[0], self.clocks[1]])
    }

    /// Settle a selection confirm by `color` at `now`: the remaining
    /// budget plus the increment is written into `color`'s clock, but the
    /// click is not restamped and the stage stays 0. Returns the clocks.
    pub fn select(&mut self, color: usize, now: u64) -> (r: [u64; 2])
        requires
            color < 2,
            old(self).stage == 0,
        ensures
            final(self).stage == 0,
            final(self).incr == old(self).incr,
            final(self).last_click == old(self).last_click,
            final(self).clocks[1 - color as int] == old(self).clocks[1 - color as int],
            old(self).spec_remaining(color as int, now) < 0 ==> final(self).clocks[color as int]
                == old(self).clocks[color as int],
            old(self).spec_remaining(color as int, now) >= 0 ==> final(self).clocks[color as int]
                == {
                let rem = old(self).spec_remaining(color as int, now);
                if rem + old(self).incr <= u64::MAX {
                    rem + old(self).incr
                } else {
                    0
                }
            },
            r[0] == final(self).clocks[0],
            r[1] == final(self).clocks[1],
    {
        self.stage = 3;
        let _ = self.play(color, now);
        self.stage = 0;
        [self.clocks[0], self.clocks[1]]
    }

    /// Empty `color`'s budget.
    pub fn set_to_zero(&mut self, color: usize)
        requires
            color < 2,
        ensures
            final(self).clocks[color as int] == 0,
            final(self).clocks[1 - color as int] == old(self).clocks[1 - color as int],
            final(self).last_click == old(self).last_click,
            final(self).stage == old(self).stage,
            final(self).incr == old(self).incr,
    {
        if color == 0 {
            self.clocks = [0, self.clocks[1]];
        } else {
            self.clocks = [self.clocks[0], 0];
        }
    }
}

/// Clock monotonicity: settling a move by `color` never grants that side
/// more than the increment on top of what its clock showed before, and
/// never touches the other side's clock at all.
pub proof fn lemma_clock_monotonicity(pre: TimeControl, post: TimeControl, color: int, now: u64)
    requires
        0 <= color < 2,
        post.incr == pre.incr,
        post.clocks[1 - color] == pre.clocks[1 - color],
        pre.stage >= 1 ==> post.clocks[color] == if pre.spec_remaining(color, now) + pre.incr
            <= u64::MAX {
            pre.spec_remaining(color, now) + pre.incr
        } else {
            0
        },
        pre.stage == 0 ==> post.clocks[color] == pre.clocks[color],
        pre.spec_remaining(color, now) >= 0,
    ensures
        post.clocks[color] <= pre.clocks[color] + pre.incr,
        post.clocks[1 - color] == pre.clocks[1 - color],
{
}

} // verus!
