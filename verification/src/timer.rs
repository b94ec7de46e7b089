use vstd::prelude::*;

verus! {

/// Period of the food-spawn cadence, in microseconds (one second).
pub const FOOD_SPAWN_PERIOD_MICROS: u64 = 1000000;

/// Period of the movement cadence, in microseconds (0.15 seconds).
pub const MOVEMENT_PERIOD_MICROS: u64 = 150000;

/// A repeating countdown over integer microseconds: ticking it by a frame's
/// delta accumulates elapsed time, and whenever the accumulated time reaches
/// the period the timer fires and keeps only the overshoot.
#[derive(Clone, Copy, PartialEq, Eq, Structural, Debug)]
pub struct RepeatingTimer {
    pub period_micros: u64,
    pub elapsed_micros: u64,
}

impl RepeatingTimer {
    /// The period is positive and the elapsed time has been reduced below it.
    pub open spec fn wf(self) -> bool {
        0 < self.period_micros && self.elapsed_micros < self.period_micros
    }

    /// A fresh repeating timer with nothing elapsed.
    pub fn new(period_micros: u64) -> (t: RepeatingTimer)
        requires
            period_micros > 0,
        ensures
            t.wf(),
            t.period_micros == period_micros,
            t.elapsed_micros == 0,
    {
        RepeatingTimer { period_micros, elapsed_micros: 0 }
    }

    /// Advances the timer by `delta_micros`. Returns whether the timer fired
    /// during this tick, that is, whether the accumulated elapsed time
    /// reached the period; on firing, the elapsed time wraps around and keeps
    /// the remainder past the last whole period.
    pub fn tick(&mut self, delta_micros: u64) -> (fired: bool)
        requires
            old(self).wf(),
            delta_micros <= u64::MAX - old(self).period_micros,
        ensures
            final(self).wf(),
            final(self).period_micros == old(self).period_micros,
            fired <==> old(self).elapsed_micros + delta_micros >= old(self).period_micros,
            final(self).elapsed_micros
                == (old(self).elapsed_micros + delta_micros) % (old(self).period_micros as int),
    {
        let total = self.elapsed_micros + delta_micros;
        let fired = total >= self.period_micros;
        self.elapsed_micros = total % self.period_micros;
        fired
    }
}

/// The timer whose firings gate food spawning.
#[derive(Clone, Copy, PartialEq, Eq, Structural, Debug)]
pub struct FoodSpawnTimer {
    pub timer: RepeatingTimer,
}

/// The timer whose firings gate movement of the snake head.
#[derive(Clone, Copy, PartialEq, Eq, Structural, Debug)]
pub struct MovementTimer {
    pub timer: RepeatingTimer,
}

/// A repeating food-spawn timer with a one-second period.
pub fn spawn_food_timer() -> (t: FoodSpawnTimer)
    ensures
        t.timer.wf(),
        t.timer.period_micros == FOOD_SPAWN_PERIOD_MICROS,
        t.timer.elapsed_micros == 0,
{
    FoodSpawnTimer { timer: RepeatingTimer::new(FOOD_SPAWN_PERIOD_MICROS) }
}

/// A repeating movement timer with a period of 0.15 seconds.
pub fn spawn_movement_timer() -> (t: MovementTimer)
    ensures
        t.timer.wf(),
        t.timer.period_micros == MOVEMENT_PERIOD_MICROS,
        t.timer.elapsed_micros == 0,
{
    MovementTimer { timer: RepeatingTimer::new(MOVEMENT_PERIOD_MICROS) }
}

} // verus!
