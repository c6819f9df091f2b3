use vstd::prelude::*;

verus! {

/// Number of positions in the micro-stepping cycle that all channels share.
pub const PHASES: u8 = 8;

/// The enable line's duty, in nanoseconds, grows by this much per unit of
/// speed below the fastest setting.
pub const PERIOD_MULTIPLIER: u32 = 30;

/// How long the step line dwells at each level during one pulse.
pub const STEP_DWELL_NS: u32 = 20_000;

/// How long the reset line is held asserted.
pub const RESET_HOLD_NS: u32 = 50_000;

/// How long a channel needs after its sleep line changes.
pub const SETTLE_NS: u32 = 1_700_000;

/// Direction of one coil axis.
#[derive(Copy, Clone, Debug, PartialEq, Eq, Structural)]
pub enum Dir {
    CCW,
    Stop,
    CW,
}

impl Dir {
    /// The axis as a signed unit: CW is +1, Stop is 0, CCW is -1.
    pub open spec fn sign(self) -> int {
        match self {
            Dir::CCW => -1,
            Dir::Stop => 0,
            Dir::CW => 1,
        }
    }

    pub fn stopped(&self) -> (r: bool)
        ensures
            r == (*self == Dir::Stop),
    {
        *self == Dir::Stop
    }
}

/// One change on the hardware lines, or a pause between changes. A level
/// of `true` is logic high.
#[derive(Copy, Clone, Debug, PartialEq, Eq, Structural)]
pub enum Signal {
    /// Drive the shared step line.
    Step(bool),
    /// Drive the shared reset line (low resets the sequencer).
    Reset(bool),
    /// Drive the sleep line of one channel (high wakes it).
    Sleep(usize, bool),
    /// Set the duty cycle of the enable line, in nanoseconds.
    Duty(u32),
    /// Wait this many nanoseconds.
    Wait(u32),
}

/// Duty of the enable line for a speed: 255 is the fastest.
pub open spec fn duty_of(speed: u8) -> u32 {
    ((255 - speed as int) * PERIOD_MULTIPLIER as int) as u32
}

/// One low-then-high pulse on the step line.
pub open spec fn one_pulse() -> Seq<Signal> {
    seq![
        Signal::Step(false),
        Signal::Wait(STEP_DWELL_NS),
        Signal::Step(true),
        Signal::Wait(STEP_DWELL_NS),
    ]
}

/// `n` pulses on the step line, one after another.
pub open spec fn pulse_train(n: nat) -> Seq<Signal>
    decreases n,
{
    if n == 0 {
        seq![]
    } else {
        pulse_train((n - 1) as nat) + one_pulse()
    }
}

/// A pulse on the reset line.
pub open spec fn reset_pulse() -> Seq<Signal> {
    seq![Signal::Reset(false), Signal::Wait(RESET_HOLD_NS), Signal::Reset(true)]
}

/// Steps needed to walk forward from phase `from` to phase `to`, wrapping
/// past the end of the cycle rather than walking back.
pub open spec fn forward_distance(from: int, to: int) -> int {
    if to < from {
        to - from + PHASES as int
    } else {
        to - from
    }
}

/// The phase that a pair of axis directions asks for; none when both stop.
pub open spec fn target_phase(a: Dir, b: Dir) -> Option<int> {
    match b {
        Dir::Stop => match a {
            Dir::Stop => None,
            Dir::CW => Some(0),
            Dir::CCW => Some(4),
        },
        Dir::CW => Some(2 - a.sign()),
        Dir::CCW => Some(6 + a.sign()),
    }
}

/// What a resynchronisation emits: a reset pulse, then the walk from the
/// sequencer's home phase back to `phase`.
pub open spec fn resync(phase: int) -> Seq<Signal> {
    reset_pulse() + pulse_train(forward_distance(1, phase) as nat)
}

/// The state after both axes are set: when both stop the drive is switched
/// off and the phase kept; otherwise the array walks forward to the target
/// phase.
pub open spec fn dir_effect(v: ArrayView, a: Dir, b: Dir) -> ArrayView {
    match target_phase(a, b) {
        Some(t) => ArrayView {
            dir_a: a,
            dir_b: b,
            phase: t,
            signals: v.signals + pulse_train(forward_distance(v.phase, t) as nat),
            ..v
        },
        None => ArrayView {
            dir_a: a,
            dir_b: b,
            signals: v.signals.push(Signal::Duty(duty_of(0))),
            ..v
        },
    }
}

/// Setting the axes lands on the phase that the direction table gives,
/// or keeps the phase with the drive off when both stop; the step pulses
/// emitted are exactly the forward distance from the previous phase, fewer
/// than a whole cycle.
pub proof fn dir_steps(v: ArrayView, a: Dir, b: Dir)
    requires
        0 <= v.phase < PHASES,
    ensures
        0 <= dir_effect(v, a, b).phase < PHASES,
        target_phase(a, b) is None ==> dir_effect(v, a, b).phase == v.phase && step_pulses(
            dir_effect(v, a, b).signals,
        ) == step_pulses(v.signals) && dir_effect(v, a, b).signals.last() == Signal::Duty(
            duty_of(0),
        ),
        target_phase(a, b) is Some ==> dir_effect(v, a, b).phase == target_phase(a, b)->0 && 0
            <= forward_distance(v.phase, target_phase(a, b)->0) < PHASES && step_pulses(
            dir_effect(v, a, b).signals,
        ) == step_pulses(v.signals) + forward_distance(v.phase, target_phase(a, b)->0),
{
    match target_phase(a, b) {
        Some(t) => {
            let d = forward_distance(v.phase, t) as nat;
            lemma_step_pulses_concat(v.signals, pulse_train(d));
            pulse_train_pulses(d);
        },
        None => {
            let w = v.signals.push(Signal::Duty(duty_of(0)));
            assert(w.drop_last() =~= v.signals);
        },
    }
}

/// Sleep-line changes for the first `k` channels whose state differs.
pub open spec fn sleep_changes(slept: Seq<bool>, states: Seq<bool>, k: nat) -> Seq<Signal>
    decreases k,
{
    if k == 0 {
        seq![]
    } else {
        let j = (k - 1) as nat;
        let before = sleep_changes(slept, states, j);
        if slept[j as int] != states[j as int] {
            before.push(Signal::Sleep(j as usize, !states[j as int]))
        } else {
            before
        }
    }
}

/// Number of rising edges on the step line, that is of step pulses.
pub open spec fn step_pulses(s: Seq<Signal>) -> nat
    decreases s.len(),
{
    if s.len() == 0 {
        0
    } else {
        step_pulses(s.drop_last()) + if s.last() == Signal::Step(true) {
            1nat
        } else {
            0nat
        }
    }
}

proof fn lemma_step_pulses_concat(a: Seq<Signal>, b: Seq<Signal>)
    ensures
        step_pulses(a + b) == step_pulses(a) + step_pulses(b),
    decreases b.len(),
{
    if b.len() > 0 {
        lemma_step_pulses_concat(a, b.drop_last());
        assert((a + b).drop_last() =~= a + b.drop_last());
    }
}

/// A train of `n` pulses holds `n` step pulses.
pub proof fn pulse_train_pulses(n: nat)
    ensures
        step_pulses(pulse_train(n)) == n,
    decreases n,
{
    if n > 0 {
        pulse_train_pulses((n - 1) as nat);
        lemma_step_pulses_concat(pulse_train((n - 1) as nat), one_pulse());
        reveal_with_fuel(step_pulses, 5);
        assert(one_pulse().drop_last().drop_last().drop_last().drop_last() =~= Seq::<Signal>::empty());
    }
}

proof fn lemma_no_sleep_changes(slept: Seq<bool>, states: Seq<bool>, k: nat)
    requires
        k <= slept.len(),
        k <= states.len(),
        forall|j: int| 0 <= j < k ==> slept[j] == states[j],
    ensures
        sleep_changes(slept, states, k) == Seq::<Signal>::empty(),
    decreases k,
{
    if k > 0 {
        lemma_no_sleep_changes(slept, states, (k - 1) as nat);
    }
}

/// One dispensing channel.
#[derive(Copy, Clone, Debug)]
pub struct Driver {
    pub slept: bool,
}

impl Driver {
    /// An awake channel.
    pub fn new() -> (r: Driver)
        ensures
            !r.slept,
    {
        Driver { slept: false }
    }
}

/// The abstract state of a driver array.
pub ghost struct ArrayView {
    pub speed: u8,
    pub dir_a: Dir,
    pub dir_b: Dir,
    pub phase: int,
    pub slept: Seq<bool>,
    /// Everything emitted on the lines and not yet taken.
    pub signals: Seq<Signal>,
}

/// A bank of stepper drivers on one shared step and reset line. Every
/// operation records the line changes it makes, in order; the owner of the
/// hardware takes them with `take_signals` and carries them out.
pub struct DriverArray {
    speed: u8,
    dir_a: Dir,
    dir_b: Dir,
    step: u8,
    drivers: Vec<Driver>,
    signals: Vec<Signal>,
}

impl View for DriverArray {
    type V = ArrayView;

    closed spec fn view(&self) -> ArrayView {
        ArrayView {
            speed: self.speed,
            dir_a: self.dir_a,
            dir_b: self.dir_b,
            phase: self.step as int,
            slept: self.drivers@.map_values(|d: Driver| d.slept),
            signals: self.signals@,
        }
    }
}

/// `n` step pulses.
fn pulses(n: u8) -> (r: Vec<Signal>)
    ensures
        r@ == pulse_train(n as nat),
{
    let mut r: Vec<Signal> = Vec::new();
    let mut i: u8 = 0;
    while i < n
        invariant
            i <= n,
            r@ == pulse_train(i as nat),
        decreases n - i,
    {
        r.push(Signal::Step(false));
        r.push(Signal::Wait(STEP_DWELL_NS));
        r.push(Signal::Step(true));
        r.push(Signal::Wait(STEP_DWELL_NS));
        i = i + 1;
        assert(r@ =~= pulse_train(i as nat));
    }
    r
}

impl DriverArray {
    pub open spec fn wf(&self) -> bool {
        0 <= self@.phase < PHASES
    }

    /// A fresh array of `channels` sleeping channels at phase 1, both axes
    /// CW, speed 255, whose enable line is set for speed 0.
    pub fn new(channels: usize) -> (r: DriverArray)
        ensures
            r.wf(),
            r@.speed == 255,
            r@.dir_a == Dir::CW,
            r@.dir_b == Dir::CW,
            r@.phase == 1,
            r@.slept == Seq::new(channels as nat, |i: int| true),
            r@.signals == seq![Signal::Duty(duty_of(0))],
    {
        let mut drivers: Vec<Driver> = Vec::new();
        let mut i: usize = 0;
        while i < channels
            invariant
                i <= channels,
                drivers@.len() == i,
                forall|j: int| 0 <= j < i ==> drivers@[j].slept,
            decreases channels - i,
        {
            drivers.push(Driver { slept: true });
            i = i + 1;
        }
        let mut s = DriverArray {
            speed: 255,
            dir_a: Dir::CW,
            dir_b: Dir::CW,
            step: 1,
            drivers,
            signals: Vec::new(),
        };
        s.set_speed(0);
        assert(s@.slept =~= Seq::new(channels as nat, |i: int| true));
        assert(s@.signals =~= seq![Signal::Duty(duty_of(0))]);
        s
    }

    /// Number of channels.
    pub fn len(&self) -> (r: usize)
        ensures
            r == self@.slept.len(),
    {
        self.drivers.len()
    }

    /// Current phase of the shared sequencer.
    pub fn phase(&self) -> (r: u8)
        ensures
            r == self@.phase,
    {
        self.step
    }

    /// Speed last asked for.
    pub fn speed(&self) -> (r: u8)
        ensures
            r == self@.speed,
    {
        self.speed
    }

    /// Directions of the two axes.
    pub fn dirs(&self) -> (r: (Dir, Dir))
        ensures
            r == (self@.dir_a, self@.dir_b),
    {
        (self.dir_a, self.dir_b)
    }

    /// Whether a channel sleeps.
    pub fn is_slept(&self, driver: usize) -> (r: bool)
        requires
            driver < self@.slept.len(),
        ensures
            r == self@.slept[driver as int],
    {
        self.drivers[driver].slept
    }

    /// Hands over the recorded line changes, oldest first, and forgets them.
    pub fn take_signals(&mut self) -> (r: Vec<Signal>)
        ensures
            r@ == old(self)@.signals,
            final(self)@ == (ArrayView { signals: seq![], ..old(self)@ }),
    {
        let mut taken: Vec<Signal> = Vec::new();
        std::mem::swap(&mut taken, &mut self.signals);
        taken
    }

    fn set_speed(&mut self, speed: u8)
        ensures
            final(self)@ == (ArrayView {
                signals: old(self)@.signals.push(Signal::Duty(duty_of(speed))),
                ..old(self)@
            }),
    {
        let duty: u32 = (255 - speed) as u32 * PERIOD_MULTIPLIER;
        self.signals.push(Signal::Duty(duty));
    }

    /// Emits `num` step pulses and advances the phase by `num` modulo the
    /// cycle.
    pub fn step(&mut self, num: u8)
        requires
            old(self).wf(),
        ensures
            final(self).wf(),
            final(self)@ == (ArrayView {
                phase: (old(self)@.phase + num) % PHASES as int,
                signals: old(self)@.signals + pulse_train(num as nat),
                ..old(self)@
            }),
    {
        let mut p = pulses(num);
        self.signals.append(&mut p);
        self.step = ((self.step as u16 + num as u16) % (PHASES as u16)) as u8;
    }

    /// Walks forward from the current phase to `end`.
    pub fn step_to(&mut self, end: u8)
        requires
            old(self).wf(),
            end < PHASES,
        ensures
            final(self).wf(),
            final(self)@ == (ArrayView {
                phase: end as int,
                signals: old(self)@.signals + pulse_train(
                    forward_distance(old(self)@.phase, end as int) as nat,
                ),
                ..old(self)@
            }),
    {
        let n: u8 = if end < self.step {
            end + PHASES - self.step
        } else {
            end - self.step
        };
        self.step(n);
    }

    /// Pulses the reset line and returns the bookkeeping to phase 1 with
    /// both axes CW.
    pub fn reset(&mut self)
        requires
            old(self).wf(),
        ensures
            final(self).wf(),
            final(self)@ == (ArrayView {
                phase: 1,
                dir_a: Dir::CW,
                dir_b: Dir::CW,
                signals: old(self)@.signals + reset_pulse(),
                ..old(self)@
            }),
    {
        self.pulse_reset();
        self.dir_a = Dir::CW;
        self.dir_b = Dir::CW;
        self.step = 1;
    }

    fn pulse_reset(&mut self)
        ensures
            final(self)@ == (ArrayView {
                signals: old(self)@.signals + reset_pulse(),
                ..old(self)@
            }),
    {
        self.signals.push(Signal::Reset(false));
        self.signals.push(Signal::Wait(RESET_HOLD_NS));
        self.signals.push(Signal::Reset(true));
        assert(self.signals@ =~= old(self).signals@ + reset_pulse());
    }

    /// Resets the sequencer and walks it back to the phase it was at.
    pub fn restep(&mut self)
        requires
            old(self).wf(),
        ensures
            final(self).wf(),
            final(self)@ == (ArrayView {
                signals: old(self)@.signals + resync(old(self)@.phase),
                ..old(self)@
            }),
    {
        self.pulse_reset();
        let step = self.step;
        self.step = 1;
        self.step_to(step);
        assert(self.signals@ =~= old(self).signals@ + resync(old(self)@.phase));
    }

    /// Sets the speed; the enable line follows only while an axis moves.
    pub fn run(&mut self, speed: u8)
        ensures
            final(self)@ == (ArrayView {
                speed,
                signals: if old(self)@.dir_a != Dir::Stop || old(self)@.dir_b != Dir::Stop {
                    old(self)@.signals.push(Signal::Duty(duty_of(speed)))
                } else {
                    old(self)@.signals
                },
                ..old(self)@
            }),
    {
        self.speed = speed;
        if self.dir_a != Dir::Stop || self.dir_b != Dir::Stop {
            self.set_speed(speed);
        }
    }

    /// The same as `run(0)`.
    pub fn stop(&mut self)
        ensures
            final(self)@ == (ArrayView {
                speed: 0,
                signals: if old(self)@.dir_a != Dir::Stop || old(self)@.dir_b != Dir::Stop {
                    old(self)@.signals.push(Signal::Duty(duty_of(0)))
                } else {
                    old(self)@.signals
                },
                ..old(self)@
            }),
    {
        self.run(0);
    }

    /// Sets both axes. When both stop, the drive is switched off and the
    /// phase is kept; otherwise the array walks forward to the phase that
    /// `target_phase` gives.
    pub fn dir(&mut self, dir_a: Dir, dir_b: Dir)
        requires
            old(self).wf(),
        ensures
            final(self).wf(),
            final(self)@ == dir_effect(old(self)@, dir_a, dir_b),
    {
        self.dir_a = dir_a;
        self.dir_b = dir_b;
        let end: u8 = match dir_b {
            Dir::Stop => match dir_a {
                Dir::Stop => {
                    self.set_speed(0);
                    return;
                },
                Dir::CW => 0,
                Dir::CCW => 4,
            },
            Dir::CW => match dir_a {
                Dir::CCW => 3,
                Dir::Stop => 2,
                Dir::CW => 1,
            },
            Dir::CCW => match dir_a {
                Dir::CCW => 5,
                Dir::Stop => 6,
                Dir::CW => 7,
            },
        };
        self.step_to(end);
    }

    /// Sets axis A and keeps axis B.
    pub fn dir_a(&mut self, dir: Dir)
        requires
            old(self).wf(),
        ensures
            final(self).wf(),
            final(self)@ == dir_effect(old(self)@, dir, old(self)@.dir_b),
    {
        let b = self.dir_b;
        self.dir(dir, b);
    }

    /// Sets axis B and keeps axis A.
    pub fn dir_b(&mut self, dir: Dir)
        requires
            old(self).wf(),
        ensures
            final(self).wf(),
            final(self)@ == dir_effect(old(self)@, old(self)@.dir_a, dir),
    {
        let a = self.dir_a;
        self.dir(a, dir);
    }

    /// Puts one channel to sleep or wakes it. Asking for the state it is
    /// already in changes nothing; otherwise its sleep line changes, the
    /// channel settles, and the sequencer is resynchronised.
    pub fn sleep(&mut self, driver: usize, sleep: bool)
        requires
            old(self).wf(),
            driver < old(self)@.slept.len(),
        ensures
            final(self).wf(),
            old(self)@.slept[driver as int] == sleep ==> final(self)@ == old(self)@,
            old(self)@.slept[driver as int] != sleep ==> final(self)@ == (ArrayView {
                slept: old(self)@.slept.update(driver as int, sleep),
                signals: old(self)@.signals + seq![
                    Signal::Sleep(driver, !sleep),
                    Signal::Wait(SETTLE_NS),
                ] + resync(old(self)@.phase),
                ..old(self)@
            }),
    {
        if self.drivers[driver].slept == sleep {
            return;
        }
        self.drivers.set(driver, Driver { slept: sleep });
        self.signals.push(Signal::Sleep(driver, !sleep));
        self.signals.push(Signal::Wait(SETTLE_NS));
        assert(self@.slept =~= old(self)@.slept.update(driver as int, sleep));
        self.restep();
        assert(self@.signals =~= old(self)@.signals + seq![
            Signal::Sleep(driver, !sleep),
            Signal::Wait(SETTLE_NS),
        ] + resync(old(self)@.phase));
    }

    /// Sets the sleep state of every channel. The sleep lines that change
    /// are driven first, in channel order; then, if any changed, the array
    /// settles and resynchronises once.
    pub fn sleep_arr(&mut self, sleep_arr: &[bool])
        requires
            old(self).wf(),
            sleep_arr@.len() == old(self)@.slept.len(),
        ensures
            final(self).wf(),
            final(self)@ == (ArrayView {
                slept: sleep_arr@,
                signals: if sleep_arr@ == old(self)@.slept {
                    old(self)@.signals
                } else {
                    old(self)@.signals + sleep_changes(
                        old(self)@.slept,
                        sleep_arr@,
                        sleep_arr@.len(),
                    ) + seq![Signal::Wait(SETTLE_NS)] + resync(old(self)@.phase)
                },
                ..old(self)@
            }),
    {
        let ghost before = old(self)@.slept;
        let mut changed = false;
        let mut i: usize = 0;
        while i < sleep_arr.len()
            invariant
                self.wf(),
                i <= sleep_arr@.len(),
                sleep_arr@.len() == before.len(),
                self@.slept.len() == before.len(),
                self@.speed == old(self)@.speed,
                self@.dir_a == old(self)@.dir_a,
                self@.dir_b == old(self)@.dir_b,
                self@.phase == old(self)@.phase,
                forall|j: int| 0 <= j < i ==> self@.slept[j] == sleep_arr@[j],
                forall|j: int| i <= j < before.len() ==> self@.slept[j] == before[j],
                self@.signals == old(self)@.signals + sleep_changes(before, sleep_arr@, i as nat),
                changed == exists|j: int| 0 <= j < i && before[j] != sleep_arr@[j],
            decreases sleep_arr@.len() - i,
        {
            let want = sleep_arr[i];
            if self.drivers[i].slept != want {
                self.drivers.set(i, Driver { slept: want });
                self.signals.push(Signal::Sleep(i, !want));
                changed = true;
            }
            i = i + 1;
            assert(self@.signals =~= old(self)@.signals + sleep_changes(
                before,
                sleep_arr@,
                i as nat,
            ));
        }
        assert(self@.slept =~= sleep_arr@);
        if changed {
            self.signals.push(Signal::Wait(SETTLE_NS));
            self.restep();
            assert(self@.signals =~= old(self)@.signals + sleep_changes(
                before,
                sleep_arr@,
                sleep_arr@.len(),
            ) + seq![Signal::Wait(SETTLE_NS)] + resync(old(self)@.phase));
        } else {
            assert(sleep_arr@ =~= before);
            proof {
                lemma_no_sleep_changes(before, sleep_arr@, sleep_arr@.len());
            }
            assert(self@.signals =~= old(self)@.signals);
        }
    }
}

} // verus!
