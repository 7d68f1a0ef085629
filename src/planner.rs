//! The ascent schedule as a state machine.
//!
//! The tissue loadings are real-valued and live with the caller.  At each
//! step the caller reports the ceiling that the loadings give under the
//! gradient factor the planner holds (`Planner::gf`), and the planner answers
//! with the next thing to do: ascend, start a stop, wait one more minute at
//! it, end it, or finish.
use vstd::prelude::*;

use crate::dive::{
    gf_den, gf_num, ladder_stop, next_gf, next_stop, stop_for, Dive, GradientFactor, PLAN_LIMIT,
};
use crate::types::Pressure;

verus! {

/// Where the schedule stands.
#[derive(Clone, Copy, Debug, PartialEq, Eq, Structural)]
pub enum Phase {
    /// At the end of the planned segments; nothing ascended yet.
    Start,
    /// Ascending under `gf_lo` towards the first stop.
    ToFirstStop,
    /// Walking the stop ladder.
    Ladder,
    /// Just arrived at `stop` by an ascent.
    Arrived,
    /// At `stop`, about to see whether it must be held.
    Check,
    /// Holding `stop`.
    AtStop,
    /// The schedule is complete.
    Surfaced,
}

/// What the caller does next.
#[derive(Clone, Copy, Debug, PartialEq, Eq, Structural)]
pub enum Action {
    /// Ascend from `from` to `to` at the ascent rate, joining a preceding
    /// ascent on the same gas.  With `settle`, also let the loadings run at
    /// `to` for the time by which the joined ascent's whole minutes exceed
    /// its exact time.
    Ascend { from: Pressure, to: Pressure, settle: bool },
    /// Begin holding the stop `depth` for one minute (less the credit of a
    /// short ascent just before it).
    StartStop { depth: Pressure },
    /// Hold `depth` one more minute.
    Wait { depth: Pressure },
    /// The stop at `depth` is over after `minutes` minutes.
    EndStop { depth: Pressure, minutes: i64 },
    /// Nothing to do: report the ceiling again.
    Continue,
    /// The schedule is complete.
    Done,
}

/// The state of the schedule.
#[derive(Clone, Copy, Debug)]
pub struct Planner {
    pub phase: Phase,
    /// Absolute pressure of the diver.
    pub depth: Pressure,
    /// The stop in force on the ladder.
    pub stop: Pressure,
    /// The first stop, once it is known.
    pub first_stop: Pressure,
    /// Gradient factor under which the next ceiling is to be computed.
    pub gf: GradientFactor,
    /// Minutes held at the stop so far.
    pub minutes: i64,
}

/// Largest pressure that the planner's state holds.
pub open spec fn state_limit() -> int {
    2 * PLAN_LIMIT
}

impl Planner {
    /// The state is one that the planner can reach.
    pub open spec fn wf(self, dive: Dive) -> bool {
        &&& 0 <= self.depth.pa <= state_limit()
        &&& 0 <= self.stop.pa <= state_limit()
        &&& 0 <= self.first_stop.pa <= state_limit()
        &&& 0 <= self.minutes < PLAN_LIMIT
        &&& 0 < self.gf.den <= state_limit()
        &&& self.gf.num <= dive.gf_hi * self.gf.den
    }
}

/// The gradient factor at `stop` for a schedule whose first stop is
/// `first_stop`.
pub open spec fn gf_at(dive: Dive, first_stop: int, stop: int) -> GradientFactor {
    GradientFactor {
        num: gf_num(dive, first_stop, stop) as i64,
        den: gf_den(dive, first_stop, stop) as i64,
    }
}

/// The planner's answer to the stop `fs` that the reported ceiling gives.
pub open spec fn transition(dive: Dive, p: Planner, fs: int) -> (Planner, Action) {
    let atm = dive.atm_pressure.pa as int;
    let fsp = Pressure { pa: fs as i64 };
    match p.phase {
        Phase::Start => (
            Planner { phase: Phase::ToFirstStop, depth: fsp, stop: fsp, ..p },
            Action::Ascend { from: p.depth, to: fsp, settle: false },
        ),
        Phase::ToFirstStop => if fs < p.depth.pa {
            (
                Planner { depth: fsp, stop: fsp, ..p },
                Action::Ascend { from: p.depth, to: fsp, settle: false },
            )
        } else {
            (
                Planner {
                    phase: Phase::Ladder,
                    depth: fsp,
                    stop: fsp,
                    first_stop: fsp,
                    gf: gf_at(dive, fs, fs),
                    ..p
                },
                Action::Continue,
            )
        },
        Phase::Ladder => if fs < p.depth.pa {
            (
                Planner { phase: Phase::Arrived, depth: fsp, stop: fsp, ..p },
                Action::Ascend { from: p.depth, to: fsp, settle: true },
            )
        } else if fs <= atm {
            (Planner { phase: Phase::Surfaced, ..p }, Action::Done)
        } else {
            (
                Planner {
                    phase: Phase::Check,
                    stop: fsp,
                    gf: gf_at(dive, p.first_stop.pa as int, fs),
                    ..p
                },
                Action::Continue,
            )
        },
        Phase::Arrived => if p.stop.pa <= atm {
            (Planner { phase: Phase::Surfaced, ..p }, Action::Done)
        } else {
            (
                Planner {
                    phase: Phase::Check,
                    gf: gf_at(dive, p.first_stop.pa as int, p.stop.pa as int),
                    ..p
                },
                Action::Continue,
            )
        },
        Phase::Check => if fs == p.stop.pa {
            (
                Planner { phase: Phase::AtStop, depth: p.stop, minutes: 1, ..p },
                Action::StartStop { depth: p.stop },
            )
        } else if fs <= atm {
            (Planner { phase: Phase::Surfaced, ..p }, Action::Done)
        } else {
            (Planner { phase: Phase::Ladder, ..p }, Action::Continue)
        },
        Phase::AtStop => if fs < p.stop.pa {
            (
                Planner {
                    phase: if fs <= atm { Phase::Surfaced } else { Phase::Ladder },
                    minutes: 0,
                    ..p
                },
                Action::EndStop { depth: p.stop, minutes: p.minutes },
            )
        } else {
            (Planner { minutes: (p.minutes + 1) as i64, ..p }, Action::Wait { depth: p.stop })
        },
        Phase::Surfaced => (p, Action::Done),
    }
}

/// Every ascent that the planner asks for starts where the diver is and ends
/// at the surface or at a stop of the ladder; after the first, each one goes
/// strictly shallower.
pub proof fn lemma_ascents_on_ladder(dive: Dive, p: Planner, ceiling: int)
    requires
        dive.wf(),
        ceiling <= PLAN_LIMIT,
    ensures
        ({
            let a = transition(dive, p, stop_for(dive, ceiling)).1;
            a matches Action::Ascend { from, to, settle } ==> {
                &&& from == p.depth
                &&& to.pa == dive.atm_pressure.pa || exists|k: int|
                    k >= 0 && to.pa == #[trigger] ladder_stop(dive, k)
                &&& p.phase != Phase::Start ==> to.pa < from.pa
            }
        }),
{
    crate::dive::lemma_next_stop_on_ladder(dive, ceiling);
    let fs = stop_for(dive, ceiling);
    let atm = dive.atm_pressure.pa as int;
    let last = dive.last_stop.pa as int;
    let size = dive.stop_size.pa as int;
    if ceiling > last {
        let k = (ceiling - last + size - 1) / size;
        assert(1 <= k && k * size <= ceiling - last + size) by (nonlinear_arith)
            requires k == (ceiling - last + size - 1) / size, ceiling > last, size > 0;
        assert(fs == last + k * size);
    }
    assert(0 < fs <= 2 * PLAN_LIMIT);
    assert(fs == (fs as i64) as int);
}

/// While the schedule walks down from its first stop, the gradient factor
/// for the stop in force lies between `gf_lo` and `gf_hi`.
pub proof fn lemma_ladder_gf_bounded(dive: Dive, p: Planner)
    requires
        dive.wf(),
        dive.atm_pressure.pa <= p.stop.pa <= p.first_stop.pa,
    ensures
        ({
            let num = gf_num(dive, p.first_stop.pa as int, p.stop.pa as int);
            let den = gf_den(dive, p.first_stop.pa as int, p.stop.pa as int);
            den > 0 && dive.gf_lo * den <= num <= dive.gf_hi * den
        }),
{
    crate::dive::lemma_gf_bounded(dive, p.first_stop.pa as int, p.stop.pa as int);
}

/// A stop is held while the ceiling keeps the next stop at or below it, and
/// ended as soon as the next stop is shallower; the time held counts every
/// minute asked for.
pub proof fn lemma_stop_held_until_clear(dive: Dive, p: Planner, ceiling: int)
    requires
        dive.wf(),
        p.wf(dive),
        p.phase == Phase::AtStop,
    ensures
        ({
            let (q, a) = transition(dive, p, stop_for(dive, ceiling));
            &&& stop_for(dive, ceiling) >= p.stop.pa ==> q.phase == Phase::AtStop && q.minutes
                == p.minutes + 1 && a == (Action::Wait { depth: p.stop })
            &&& stop_for(dive, ceiling) < p.stop.pa ==> q.phase != Phase::AtStop && a == (
            Action::EndStop { depth: p.stop, minutes: p.minutes })
        }),
{
}

impl Planner {
    /// A schedule that starts at absolute pressure `depth`, the end of the
    /// planned segments.
    pub fn new(dive: &Dive, depth: Pressure) -> (r: Planner)
        requires
            dive.wf(),
            0 <= depth.pa <= PLAN_LIMIT,
        ensures
            r.wf(*dive),
            r.phase == Phase::Start,
            r.depth == depth,
            r.stop == depth,
            r.first_stop == depth,
            r.gf == (GradientFactor { num: dive.gf_lo, den: 1 }),
            r.minutes == 0,
    {
        Planner {
            phase: Phase::Start,
            depth,
            stop: depth,
            first_stop: depth,
            gf: GradientFactor { num: dive.gf_lo, den: 1 },
            minutes: 0,
        }
    }

    /// Takes the ceiling (an absolute pressure) that the loadings give under
    /// `self.gf`, moves on and says what to do.
    pub fn step(&mut self, dive: &Dive, ceiling: Pressure) -> (r: Action)
        requires
            dive.wf(),
            old(self).wf(*dive),
            ceiling.pa <= PLAN_LIMIT,
            old(self).phase == Phase::AtStop ==> old(self).minutes + 1 < PLAN_LIMIT,
        ensures
            (*final(self), r) == transition(*dive, *old(self), stop_for(*dive, ceiling.pa as int)),
            final(self).wf(*dive),
    {
        let fs = next_stop(dive, ceiling);
        let atm = dive.atm_pressure.pa;
        proof {
            crate::dive::lemma_gf_bounded_any(*dive, fs.pa as int, fs.pa as int);
            crate::dive::lemma_gf_bounded_any(*dive, self.first_stop.pa as int, fs.pa as int);
            crate::dive::lemma_gf_bounded_any(*dive, self.first_stop.pa as int, self.stop.pa as int);
        }
        match self.phase {
            Phase::Start => {
                let from = self.depth;
                self.phase = Phase::ToFirstStop;
                self.depth = fs;
                self.stop = fs;
                Action::Ascend { from, to: fs, settle: false }
            },
            Phase::ToFirstStop => {
                if fs.pa < self.depth.pa {
                    let from = self.depth;
                    self.depth = fs;
                    self.stop = fs;
                    Action::Ascend { from, to: fs, settle: false }
                } else {
                    self.phase = Phase::Ladder;
                    self.depth = fs;
                    self.stop = fs;
                    self.first_stop = fs;
                    self.gf = next_gf(dive, fs, fs);
                    Action::Continue
                }
            },
            Phase::Ladder => {
                if fs.pa < self.depth.pa {
                    let from = self.depth;
                    self.phase = Phase::Arrived;
                    self.depth = fs;
                    self.stop = fs;
                    Action::Ascend { from, to: fs, settle: true }
                } else if fs.pa <= atm {
                    self.phase = Phase::Surfaced;
                    Action::Done
                } else {
                    self.phase = Phase::Check;
                    self.stop = fs;
                    self.gf = next_gf(dive, self.first_stop, fs);
                    Action::Continue
                }
            },
            Phase::Arrived => {
                if self.stop.pa <= atm {
                    self.phase = Phase::Surfaced;
                    Action::Done
                } else {
                    self.phase = Phase::Check;
                    self.gf = next_gf(dive, self.first_stop, self.stop);
                    Action::Continue
                }
            },
            Phase::Check => {
                if fs.pa == self.stop.pa {
                    self.phase = Phase::AtStop;
                    self.depth = self.stop;
                    self.minutes = 1;
                    Action::StartStop { depth: self.stop }
                } else if fs.pa <= atm {
                    self.phase = Phase::Surfaced;
                    Action::Done
                } else {
                    self.phase = Phase::Ladder;
                    Action::Continue
                }
            },
            Phase::AtStop => {
                if fs.pa < self.stop.pa {
                    let minutes = self.minutes;
                    self.phase = if fs.pa <= atm { Phase::Surfaced } else { Phase::Ladder };
                    self.minutes = 0;
                    Action::EndStop { depth: self.stop, minutes }
                } else {
                    self.minutes = self.minutes + 1;
                    Action::Wait { depth: self.stop }
                }
            },
            Phase::Surfaced => Action::Done,
        }
    }
}

} // verus!
