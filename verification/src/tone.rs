//! Square-wave tone generator.
//!
//! A timer in clear-on-compare mode raises a compare-match event once per
//! half period of the tone. Each event toggles the speaker pin and counts one
//! half period off, until the tone has run its length.

use vstd::prelude::*;

verus! {

/// Frequency of the clock that feeds the timer, in hertz.
pub const CPU_FREQ: u32 = 16_000_000;

/// Largest value the timer's compare register holds.
pub const COMPARE_MAX: u32 = 255;

/// Lowest frequency, in hertz, that some prescaler can produce.
pub const MIN_FREQUENCY: u16 = 31;

/// A divisor between the clock and the timer's counter.
#[derive(Clone, Copy, Debug, PartialEq, Eq, Structural)]
pub enum Prescaler {
    Div1,
    Div8,
    Div64,
    Div256,
    Div1024,
}

/// The prescalers, finest first.
pub const PRESCALERS: [Prescaler; 5] = [
    Prescaler::Div1,
    Prescaler::Div8,
    Prescaler::Div64,
    Prescaler::Div256,
    Prescaler::Div1024,
];

impl Prescaler {
    /// The factor by which the prescaler divides the clock.
    pub open spec fn factor(self) -> int {
        match self {
            Prescaler::Div1 => 1,
            Prescaler::Div8 => 8,
            Prescaler::Div64 => 64,
            Prescaler::Div256 => 256,
            Prescaler::Div1024 => 1024,
        }
    }

    /// The factor by which the prescaler divides the clock.
    pub fn divisor(&self) -> (d: u16)
        ensures
            d == self.factor(),
    {
        match self {
            Prescaler::Div1 => 1,
            Prescaler::Div8 => 8,
            Prescaler::Div64 => 64,
            Prescaler::Div256 => 256,
            Prescaler::Div1024 => 1024,
        }
    }
}

/// Compare value at which a timer behind `prescaler` matches once per half
/// period of a tone of `freq` hertz: one less than the number of prescaled
/// clock ticks in a half period.
pub open spec fn compare_value(freq: int, prescaler: Prescaler) -> int {
    CPU_FREQ as int / (freq * 2 * prescaler.factor()) - 1
}

/// Whether the compare value for `freq` behind `prescaler` fits the compare
/// register.
pub open spec fn fits(freq: int, prescaler: Prescaler) -> bool {
    0 <= compare_value(freq, prescaler) <= COMPARE_MAX
}

/// The compare value for a tone of `freq` hertz behind `prescaler`.
pub fn get_ocr(freq: u16, prescaler: Prescaler) -> (ocr: u32)
    requires
        freq > 0,
        compare_value(freq as int, prescaler) >= 0,
    ensures
        ocr == compare_value(freq as int, prescaler),
{
    let doubled: u32 = 2 * (freq as u32);
    let divisor: u32 = prescaler.divisor() as u32;
    assert(1 <= doubled * divisor <= 131070 * 1024) by (nonlinear_arith)
        requires
            2 <= doubled <= 131070,
            1 <= divisor <= 1024,
    ;
    CPU_FREQ / (doubled * divisor) - 1
}

/// How the timer is programmed for a tone: in clear-on-compare mode, behind
/// `prescaler`, matching at `compare`.
#[derive(Clone, Copy, Debug, PartialEq, Eq, Structural)]
pub struct Timing {
    pub prescaler: Prescaler,
    pub compare: u8,
}

/// A frequency is supported when it is positive and some prescaler gives it
/// a compare value that fits the register.
pub open spec fn supported(freq: int) -> bool {
    freq > 0 && exists|p: Prescaler| fits(freq, p)
}

/// The finest prescaler whose compare value for `freq` fits the register
/// (the coarsest one where none does).
pub open spec fn select_prescaler(freq: int) -> Prescaler {
    if fits(freq, Prescaler::Div1) {
        Prescaler::Div1
    } else if fits(freq, Prescaler::Div8) {
        Prescaler::Div8
    } else if fits(freq, Prescaler::Div64) {
        Prescaler::Div64
    } else if fits(freq, Prescaler::Div256) {
        Prescaler::Div256
    } else {
        Prescaler::Div1024
    }
}

/// The programming of the timer for a tone of `freq` hertz.
pub open spec fn timing_for(freq: int) -> Timing {
    Timing {
        prescaler: select_prescaler(freq),
        compare: compare_value(freq, select_prescaler(freq)) as u8,
    }
}

proof fn lemma_quotient_at_least(a: int, b: int, c: int)
    by (nonlinear_arith)
    requires
        b > 0,
    ensures
        a / b >= c <==> a >= b * c,
{
}

/// The compare value reaches `c` exactly when `c + 1` half periods' worth of
/// prescaled ticks fit into one second of the clock.
proof fn lemma_compare_at_least(freq: int, p: Prescaler, c: int)
    requires
        freq > 0,
    ensures
        compare_value(freq, p) >= c <==> CPU_FREQ >= (freq * 2 * p.factor()) * (c + 1),
{
    assert(freq * 2 * p.factor() > 0) by (nonlinear_arith)
        requires
            freq > 0,
            p.factor() > 0,
    ;
    lemma_quotient_at_least(CPU_FREQ as int, freq * 2 * p.factor(), c + 1);
}

/// The supported frequencies are those from `MIN_FREQUENCY` up.
pub proof fn lemma_supported_from_minimum(freq: u16)
    ensures
        supported(freq as int) <==> freq >= MIN_FREQUENCY,
        freq >= MIN_FREQUENCY ==> fits(freq as int, select_prescaler(freq as int)),
{
    let f = freq as int;
    if freq >= MIN_FREQUENCY {
        lemma_compare_at_least(f, Prescaler::Div1, 0);
        lemma_compare_at_least(f, Prescaler::Div1, 256);
        lemma_compare_at_least(f, Prescaler::Div8, 0);
        lemma_compare_at_least(f, Prescaler::Div8, 256);
        lemma_compare_at_least(f, Prescaler::Div64, 0);
        lemma_compare_at_least(f, Prescaler::Div64, 256);
        lemma_compare_at_least(f, Prescaler::Div256, 0);
        lemma_compare_at_least(f, Prescaler::Div256, 256);
        lemma_compare_at_least(f, Prescaler::Div1024, 0);
        lemma_compare_at_least(f, Prescaler::Div1024, 256);
        assert(fits(f, select_prescaler(f)));
    } else {
        assert forall|p: Prescaler| f > 0 implies !fits(f, p) by {
            lemma_compare_at_least(f, p, 256);
        }
    }
}

/// Whether some prescaler can produce a tone of `freq` hertz.
pub fn is_supported(freq: u16) -> (ok: bool)
    ensures
        ok == supported(freq as int),
        ok == (freq >= MIN_FREQUENCY),
{
    proof {
        lemma_supported_from_minimum(freq);
    }
    freq >= MIN_FREQUENCY
}

/// When the compare value behind one prescaler is too large, a coarser
/// prescaler exists, and behind the next one the value is not negative.
proof fn lemma_next_prescaler(freq: u16, index: int)
    requires
        freq >= MIN_FREQUENCY,
        0 <= index < 5,
        compare_value(freq as int, PRESCALERS@[index]) > COMPARE_MAX,
    ensures
        index < 4,
        compare_value(freq as int, PRESCALERS@[index + 1]) >= 0,
{
    let f = freq as int;
    lemma_compare_at_least(f, PRESCALERS@[index], 256);
    if index < 4 {
        lemma_compare_at_least(f, PRESCALERS@[index + 1], 0);
    }
}

/// Chooses the timer's programming for a tone of `freq` hertz: the finest
/// prescaler whose compare value fits the register, and that value.
pub fn select_timing(freq: u16) -> (timing: Timing)
    requires
        supported(freq as int),
    ensures
        timing == timing_for(freq as int),
        fits(freq as int, timing.prescaler),
        timing.compare == compare_value(freq as int, timing.prescaler),
        forall|p: Prescaler|
            p.factor() < timing.prescaler.factor() ==> !#[trigger] fits(freq as int, p),
{
    proof {
        lemma_supported_from_minimum(freq);
        lemma_compare_at_least(freq as int, Prescaler::Div1, 0);
    }
    let mut index: usize = 0;
    let mut ocr: u32 = get_ocr(freq, PRESCALERS[0]);
    while ocr > COMPARE_MAX
        invariant
            freq >= MIN_FREQUENCY,
            index < 5,
            ocr == compare_value(freq as int, PRESCALERS@[index as int]),
            forall|j: int| 0 <= j < index ==> !fits(freq as int, #[trigger] PRESCALERS@[j]),
        decreases 5 - index,
    {
        proof {
            lemma_next_prescaler(freq, index as int);
        }
        index += 1;
        ocr = get_ocr(freq, PRESCALERS[index]);
    }
    let prescaler = PRESCALERS[index];
    assert forall|p: Prescaler| p.factor() < prescaler.factor() implies !#[trigger] fits(
        freq as int,
        p,
    ) by {
        let j = choose|j: int| 0 <= j < index && PRESCALERS@[j] == p;
        assert(PRESCALERS@[j] == p);
    }
    Timing { prescaler, compare: ocr as u8 }
}

/// Number of half periods in a tone of `freq` hertz that lasts `duration`
/// milliseconds; a started half period that does not end in time is left out.
pub open spec fn half_periods(freq: int, duration: int) -> int {
    2 * freq * duration / 1000
}

/// The generator as its contracts see it.
pub struct ToneState {
    /// The timer's programming since the last tone began, if any ever did.
    pub timing: Option<Timing>,
    /// Whether the compare-match interrupt is enabled: a tone is sounding.
    pub playing: bool,
    /// Level of the speaker pin.
    pub pin_high: bool,
    /// Level of the indicator, if one is bound.
    pub indicator: Option<bool>,
    /// Half periods the sounding tone has yet to emit.
    pub remaining: nat,
}

impl ToneState {
    /// What holds of the generator between any two operations: half periods
    /// are owed only while a tone sounds, a tone sounds only on a programmed
    /// timer, the pin rests low when none sounds, and a bound indicator is
    /// lit exactly while one sounds.
    pub open spec fn wf(self) -> bool {
        &&& self.remaining > 0 ==> self.playing
        &&& self.playing ==> self.timing is Some
        &&& !self.playing ==> !self.pin_high
        &&& self.indicator matches Some(lit) ==> lit == self.playing
    }

    /// A generator at rest that has never played and has no indicator.
    pub open spec fn idle() -> ToneState {
        ToneState { timing: None, playing: false, pin_high: false, indicator: None, remaining: 0 }
    }

    /// The generator with an indicator bound, lit if a tone is sounding.
    pub open spec fn sync_led(self) -> ToneState {
        ToneState { indicator: Some(self.playing), ..self }
    }

    /// The generator once `play` was asked for: unchanged while a tone
    /// sounds, else armed for the new tone.
    pub open spec fn play(self, freq: int, duration: int) -> ToneState {
        if self.playing {
            self
        } else {
            ToneState {
                timing: Some(timing_for(freq)),
                playing: true,
                pin_high: self.pin_high,
                indicator: if self.indicator is Some {
                    Some(true)
                } else {
                    None
                },
                remaining: half_periods(freq, duration) as nat,
            }
        }
    }

    /// The generator silenced: interrupt off, pin and indicator at rest,
    /// nothing left to emit.
    pub open spec fn stop(self) -> ToneState {
        ToneState {
            timing: self.timing,
            playing: false,
            pin_high: false,
            indicator: if self.indicator is Some {
                Some(false)
            } else {
                None
            },
            remaining: 0,
        }
    }

    /// The generator after one compare-match event. With more than one half
    /// period left the pin toggles and one is counted off. The event that
    /// counts off the last one silences the generator at once, and so does an
    /// event that finds none left.
    pub open spec fn compare_match(self) -> ToneState {
        if self.remaining <= 1 {
            self.stop()
        } else {
            ToneState {
                pin_high: !self.pin_high,
                remaining: (self.remaining - 1) as nat,
                ..self
            }
        }
    }
}

impl ToneState {
    /// The generator after `n` compare-match events in a row.
    pub open spec fn after_matches(self, n: nat) -> ToneState
        decreases n,
    {
        if n == 0 {
            self
        } else {
            self.compare_match().after_matches((n - 1) as nat)
        }
    }
}

/// Every operation takes a well-formed generator to a well-formed one.
pub proof fn lemma_operations_keep_wf(s: ToneState, freq: int, duration: int)
    requires
        s.wf(),
    ensures
        ToneState::idle().wf(),
        s.sync_led().wf(),
        s.play(freq, duration).wf(),
        s.stop().wf(),
        s.compare_match().wf(),
{
}

/// A compare-match event changes nothing on a generator at rest.
pub proof fn lemma_match_at_rest(s: ToneState)
    requires
        s.wf(),
        !s.playing,
    ensures
        s.compare_match() == s,
{
}

/// A tone lasts its half periods and no longer. Through all events but the
/// last one it is owed the tone keeps sounding, each event toggling the pin
/// and counting one half period off. From the last one on (from the first,
/// where no half period is owed) the generator is silenced.
pub proof fn lemma_tone_runs_its_length(s: ToneState, k: nat)
    requires
        s.wf(),
        s.playing,
    ensures
        k < s.remaining ==> {
            &&& s.after_matches(k).playing
            &&& s.after_matches(k).remaining == s.remaining - k
            &&& s.after_matches(k).pin_high == (s.pin_high != (k % 2 == 1))
            &&& s.after_matches(k).indicator == s.indicator
            &&& s.after_matches(k).timing == s.timing
        },
        k >= s.remaining && k >= 1 ==> s.after_matches(k) == s.stop(),
    decreases k,
{
    if k > 0 {
        let next = s.compare_match();
        if s.remaining > 1 {
            lemma_tone_runs_its_length(next, (k - 1) as nat);
            if k - 1 >= next.remaining {
                assert(next.stop() == s.stop());
            }
        } else {
            lemma_silence_lasts(next, (k - 1) as nat);
        }
    }
}

/// Compare-match events leave a silenced generator as it is.
proof fn lemma_silence_lasts(s: ToneState, k: nat)
    requires
        s == s.stop(),
    ensures
        s.after_matches(k) == s,
    decreases k,
{
    if k > 0 {
        assert(s.compare_match() == s);
        lemma_silence_lasts(s, (k - 1) as nat);
    }
}

/// The level of an indicator after it was asked to show `lit`: an unbound
/// one stays unbound.
fn set_led(led: Option<bool>, lit: bool) -> (after: Option<bool>)
    ensures
        after == if led is Some {
            Some(lit)
        } else {
            None
        },
{
    match led {
        Some(_) => Some(lit),
        None => None,
    }
}

/// The tone generator: the state of the timer, of the speaker pin and of the
/// indicator, and the count of half periods left.
pub struct Tone {
    timing: Option<Timing>,
    interrupt: bool,
    pin: bool,
    led: Option<bool>,
    toggle_counter: u64,
}

impl View for Tone {
    type V = ToneState;

    closed spec fn view(&self) -> ToneState {
        ToneState {
            timing: self.timing,
            playing: self.interrupt,
            pin_high: self.pin,
            indicator: self.led,
            remaining: self.toggle_counter as nat,
        }
    }
}

impl Tone {
    #[verifier::type_invariant]
    spec fn inv(self) -> bool {
        self@.wf()
    }

    /// Binds the timer and the speaker pin: a generator at rest.
    pub fn new() -> (tone: Tone)
        ensures
            tone@ == ToneState::idle(),
            tone@.wf(),
    {
        Tone { timing: None, interrupt: false, pin: false, led: None, toggle_counter: 0 }
    }

    /// Binds an indicator, which from now on is lit exactly while a tone
    /// sounds.
    pub fn sync_led(&mut self)
        ensures
            final(self)@ == old(self)@.sync_led(),
            final(self)@.wf(),
    {
        proof {
            use_type_invariant(&*self);
        }
        *self = Tone {
            timing: self.timing,
            interrupt: self.interrupt,
            pin: self.pin,
            led: Some(self.interrupt),
            toggle_counter: self.toggle_counter,
        };
    }

    /// Whether a tone is sounding, that is, whether the compare-match
    /// interrupt is enabled.
    pub fn is_playing(&self) -> (playing: bool)
        ensures
            playing == self@.playing,
            self@.wf(),
    {
        proof {
            use_type_invariant(self);
        }
        self.interrupt
    }

    /// Starts a tone of `freq` hertz that lasts `duration` milliseconds,
    /// unless one is sounding: then nothing changes.
    pub fn play(&mut self, freq: u16, duration: u32)
        requires
            old(self)@.playing || supported(freq as int),
        ensures
            final(self)@ == old(self)@.play(freq as int, duration as int),
            old(self)@.playing ==> final(self)@ == old(self)@,
            final(self)@.playing,
            final(self)@.wf(),
    {
        proof {
            use_type_invariant(&*self);
        }
        if self.is_playing() {
            return;
        }
        let timing = select_timing(freq);
        assert(2 * freq * duration <= 2 * 0xffff * 0xffff_ffff) by (nonlinear_arith)
            requires
                0 <= freq <= 0xffff,
                0 <= duration <= 0xffff_ffff,
        ;
        let toggle_counter: u64 = 2 * (freq as u64) * (duration as u64) / 1000;
        *self = Tone {
            timing: Some(timing),
            interrupt: true,
            pin: self.pin,
            led: set_led(self.led, true),
            toggle_counter,
        };
    }

    /// Silences the generator: the interrupt is disabled, pin and indicator
    /// go to rest, and the half periods still owed are forgotten.
    fn stop_tone(&mut self)
        ensures
            final(self)@ == old(self)@.stop(),
            final(self)@.wf(),
    {
        *self = Tone {
            timing: self.timing,
            interrupt: false,
            pin: false,
            led: set_led(self.led, false),
            toggle_counter: 0,
        };
    }

    /// Ends the tone, if one is sounding, however much of it is left.
    pub fn stop(&mut self)
        ensures
            final(self)@ == old(self)@.stop(),
            !final(self)@.playing,
            !final(self)@.pin_high,
            final(self)@.indicator != Some(true),
            final(self)@.wf(),
    {
        self.stop_tone();
    }

    /// Handles one compare-match event of the timer.
    pub fn compare_match(&mut self)
        ensures
            final(self)@ == old(self)@.compare_match(),
            old(self)@.remaining <= 1 ==> {
                &&& !final(self)@.playing
                &&& !final(self)@.pin_high
                &&& final(self)@.indicator != Some(true)
            },
            old(self)@.remaining > 1 ==> {
                &&& final(self)@.playing
                &&& final(self)@.pin_high == !old(self)@.pin_high
                &&& final(self)@.remaining == old(self)@.remaining - 1
            },
            final(self)@.wf(),
    {
        proof {
            use_type_invariant(&*self);
        }
        if self.toggle_counter == 0 {
            self.stop_tone();
        } else {
            let left: u64 = self.toggle_counter - 1;
            if left == 0 {
                self.stop_tone();
            } else {
                *self = Tone {
                    timing: self.timing,
                    interrupt: self.interrupt,
                    pin: !self.pin,
                    led: self.led,
                    toggle_counter: left,
                };
            }
        }
    }

    /// Gives the timer, the pin and the indicator up: whatever was sounding
    /// ends, and nothing of it is left for a later generator to find.
    pub fn release(&mut self)
        ensures
            final(self)@ == ToneState::idle(),
            final(self)@.wf(),
    {
        *self = Tone::new();
    }

    /// The timer's programming since the last tone began, if any ever did.
    pub fn timing(&self) -> (timing: Option<Timing>)
        ensures
            timing == self@.timing,
    {
        self.timing
    }

    /// Level of the speaker pin.
    pub fn pin_high(&self) -> (high: bool)
        ensures
            high == self@.pin_high,
    {
        self.pin
    }

    /// Level of the indicator, if one is bound.
    pub fn indicator(&self) -> (level: Option<bool>)
        ensures
            level == self@.indicator,
    {
        self.led
    }

    /// Half periods the sounding tone has yet to emit.
    pub fn remaining(&self) -> (left: u64)
        ensures
            left == self@.remaining,
    {
        self.toggle_counter
    }
}

} // verus!
