//! Button debouncing driven by two interrupts. A pin change moves a button
//! between up and down; a timer compare match takes the armed span off every
//! down button, and a button whose remaining time reaches zero becomes
//! pressed and is reported so that its callback runs once.
//!
//! A button pressed while the timer already runs is credited with the ticks
//! the timer has begun since it was armed, so that the spans subtracted from
//! it never exceed the time it was actually held.
use vstd::prelude::*;

verus! {

/// Largest number of buttons one pin-change register can watch.
pub const MAX_BUTTONS: usize = 8;

/// Remaining ticks at or below which a down button counts as pressed.
pub const TIMER_EXPIRATION_TRESHOLD: u8 = 0;

/// Longest span, in ticks, the timer can be armed for.
pub const MAX_TIMER_SPAN: u8 = 16;

/// How many ticks a pin must stay high before a press counts.
pub const DEBOUNCE_DELAY: u8 = 16;

/// A number of timer ticks of about 1.024 ms each.
#[derive(Clone, Copy, PartialEq, Eq, Debug, Structural)]
pub struct Tick(pub u8);

/// [`DEBOUNCE_DELAY`] as a span of ticks.
pub open spec fn debounce_delay() -> Tick {
    Tick(DEBOUNCE_DELAY)
}

impl Tick {
    /// A span the timer can be armed for.
    pub open spec fn wf(self) -> bool {
        self.0 <= MAX_TIMER_SPAN
    }

    pub fn new(amount: u8) -> (r: Tick)
        requires
            amount <= MAX_TIMER_SPAN,
        ensures
            r == Tick(amount),
    {
        Tick(amount)
    }

    /// Ticks that have passed when the timer matches at compare value
    /// `value`: the counter then has made `value + 1` steps.
    pub fn from_output_compare_value(value: u8) -> (r: Tick)
        ensures
            r.0 == (value + 1) / 16,
            r.wf(),
    {
        Tick(((value as u16 + 1) / 16) as u8)
    }

    pub open spec fn spec_begun_since_armed(counter: u8) -> Tick {
        Tick(((counter + 15) / 16) as u8)
    }

    /// Ticks begun since the timer was armed, when its counter reads
    /// `counter`: the steps counted, divided by the steps in a tick and
    /// rounded up.
    pub fn begun_since_armed(counter: u8) -> (r: Tick)
        ensures
            r == Self::spec_begun_since_armed(counter),
            r.wf(),
    {
        Tick(((counter as u16 + 15) / 16) as u8)
    }

    pub open spec fn spec_has_expired(self) -> bool {
        self.0 <= TIMER_EXPIRATION_TRESHOLD
    }

    pub fn has_expired(&self) -> (r: bool)
        ensures
            r == self.spec_has_expired(),
    {
        self.0 <= TIMER_EXPIRATION_TRESHOLD
    }

    pub open spec fn spec_to_output_compare_value(self) -> u8 {
        ((16 * self.0 + 255) % 256) as u8
    }

    /// The compare value that makes the timer match after `self` ticks:
    /// `16 * self - 1`, taken modulo 256.
    pub fn to_output_comapre_value(&self) -> (r: u8)
        requires
            self.wf(),
        ensures
            r == self.spec_to_output_compare_value(),
    {
        ((self.0 as u16 * 16 + 255) % 256) as u8
    }
}

/// State of one button.
#[derive(Clone, Copy, PartialEq, Eq, Debug, Structural)]
pub enum ButtonState {
    /// Held down; the press counts once `time_remaining` more ticks pass.
    Down { time_remaining: Tick },
    /// Held down for the debounce delay; its callback has been reported.
    Pressed,
    /// Not held down.
    Up,
}

impl ButtonState {
    /// A down button waits at most the debounce delay plus one timer span.
    pub open spec fn wf(self) -> bool {
        self matches ButtonState::Down { time_remaining } ==> time_remaining.0 <= DEBOUNCE_DELAY
            + MAX_TIMER_SPAN
    }

    pub fn is_down(&self) -> (r: bool)
        ensures
            r == (*self is Down),
    {
        matches!(self, ButtonState::Down { .. })
    }

    pub fn is_pressed(&self) -> (r: bool)
        ensures
            r == (*self is Pressed),
    {
        matches!(self, ButtonState::Pressed)
    }

    pub fn is_up(&self) -> (r: bool)
        ensures
            r == (*self is Up),
    {
        matches!(self, ButtonState::Up)
    }

    /// The state after a pin change that leaves the pin at
    /// `is_physically_pressed`: a new press waits for the debounce delay
    /// plus `credit`, the ticks the running timer has already begun; a
    /// release goes up; an unchanged level changes nothing.
    pub open spec fn after_pin(self, is_physically_pressed: bool, credit: Tick) -> ButtonState {
        if (self is Down || self is Pressed) != is_physically_pressed {
            if is_physically_pressed {
                ButtonState::Down { time_remaining: Tick((DEBOUNCE_DELAY + credit.0) as u8) }
            } else {
                ButtonState::Up
            }
        } else {
            self
        }
    }

    /// Remaining ticks of a down button once `elapsed` ticks have passed.
    pub open spec fn remaining_after(self, elapsed: Tick) -> u8 {
        match self {
            ButtonState::Down { time_remaining } => if time_remaining.0 >= elapsed.0 {
                (time_remaining.0 - elapsed.0) as u8
            } else {
                0
            },
            _ => 0,
        }
    }

    /// Whether a timer match after `elapsed` ticks completes the press: the
    /// button is down and no time remains.
    pub open spec fn fires(self, elapsed: Tick) -> bool {
        self is Down && Tick(self.remaining_after(elapsed)).spec_has_expired()
    }

    /// The state after a timer match `elapsed` ticks after it was armed.
    pub open spec fn after_timer(self, elapsed: Tick) -> ButtonState {
        if self.fires(elapsed) {
            ButtonState::Pressed
        } else if self is Down {
            ButtonState::Down { time_remaining: Tick(self.remaining_after(elapsed)) }
        } else {
            self
        }
    }

    pub fn update_changed(&mut self, is_physically_pressed: bool, credit: Tick)
        requires
            credit.wf(),
        ensures
            *final(self) == old(self).after_pin(is_physically_pressed, credit),
    {
        if (self.is_down() || self.is_pressed()) != is_physically_pressed {
            if is_physically_pressed {
                *self = ButtonState::Down { time_remaining: Tick(DEBOUNCE_DELAY + credit.0) };
            } else {
                *self = ButtonState::Up;
            }
        }
    }
}

/// State of the timer shared by all buttons.
#[derive(Clone, Copy, PartialEq, Eq, Debug, Structural)]
pub enum TimerState {
    Disabled,
    Running,
    Expired,
}

/// What the timer hardware must be told after an interrupt.
#[derive(Clone, Copy, PartialEq, Eq, Debug, Structural)]
pub enum TimerCommand {
    /// Leave the timer as it is.
    Keep,
    /// Restart the counter from zero and match at this compare value.
    Schedule(u8),
    /// Stop the clock and clear the counter.
    Disable,
}

/// The timer and the span it was last armed for; a compare match comes
/// exactly that many ticks after arming.
pub struct Timer {
    pub state: TimerState,
    pub armed_for: Tick,
}

impl Timer {
    pub fn new() -> (r: Timer)
        ensures
            r.state == TimerState::Disabled,
            r.armed_for == Tick(0),
    {
        Timer { state: TimerState::Disabled, armed_for: Tick(0) }
    }

    pub fn schedule(&mut self, time: Tick) -> (r: TimerCommand)
        requires
            time.wf(),
        ensures
            final(self).state == TimerState::Running,
            final(self).armed_for == time,
            r == TimerCommand::Schedule(time.spec_to_output_compare_value()),
    {
        self.state = TimerState::Running;
        self.armed_for = time;
        TimerCommand::Schedule(time.to_output_comapre_value())
    }

    pub fn disable(&mut self) -> (r: TimerCommand)
        ensures
            final(self).state == TimerState::Disabled,
            final(self).armed_for == old(self).armed_for,
            r == TimerCommand::Disable,
    {
        self.state = TimerState::Disabled;
        TimerCommand::Disable
    }
}

/// Whether the pin of button `i` reads high in `pins`.
pub open spec fn pin_high(pins: u8, i: int) -> bool {
    (pins >> (i as u8)) & 1u8 == 1u8
}

/// The least remaining time, after `elapsed` ticks, among the down buttons
/// of `states` that do not fire.
pub open spec fn least_pending(states: Seq<ButtonState>, elapsed: Tick) -> Option<u8>
    decreases states.len(),
{
    if states.len() == 0 {
        None
    } else {
        let rest = least_pending(states.drop_last(), elapsed);
        let last = states.last();
        if last is Down && !last.fires(elapsed) {
            let t = last.remaining_after(elapsed);
            match rest {
                Some(m) => Some(if t < m { t } else { m }),
                None => Some(t),
            }
        } else {
            rest
        }
    }
}

/// The span to arm the timer for to wait `remaining` ticks: all of it, or
/// the longest span the timer can count.
pub open spec fn next_span(remaining: u8) -> Tick {
    if remaining < MAX_TIMER_SPAN {
        Tick(remaining)
    } else {
        Tick(MAX_TIMER_SPAN)
    }
}

/// `least_pending` is some time exactly when a down button does not fire.
pub proof fn lemma_least_pending_exists(states: Seq<ButtonState>, elapsed: Tick)
    ensures
        least_pending(states, elapsed) is Some <==> exists|i: int|
            0 <= i < states.len() && #[trigger] states[i] is Down && !states[i].fires(elapsed),
    decreases states.len(),
{
    if states.len() > 0 {
        let init = states.drop_last();
        lemma_least_pending_exists(init, elapsed);
        if least_pending(init, elapsed) is Some {
            let i = choose|i: int|
                0 <= i < init.len() && #[trigger] init[i] is Down && !init[i].fires(elapsed);
            assert(states[i] == init[i]);
        }
        if exists|i: int|
            0 <= i < states.len() && #[trigger] states[i] is Down && !states[i].fires(elapsed) {
            let i = choose|i: int|
                0 <= i < states.len() && #[trigger] states[i] is Down && !states[i].fires(elapsed);
            if i < states.len() - 1 {
                assert(init[i] == states[i]);
            }
        }
    }
}

/// The buttons and their shared timer.
pub struct DebouncedButtonsContext<const BUTTONS_COUNT: usize> {
    buttons: [ButtonState; BUTTONS_COUNT],
    timer: Timer,
}

impl<const BUTTONS_COUNT: usize> DebouncedButtonsContext<BUTTONS_COUNT> {
    pub closed spec fn states(&self) -> Seq<ButtonState> {
        self.buttons@
    }

    pub closed spec fn timer_state(&self) -> TimerState {
        self.timer.state
    }

    /// The span the timer was last armed for.
    pub closed spec fn armed_span(&self) -> Tick {
        self.timer.armed_for
    }

    pub open spec fn wf(&self) -> bool {
        &&& BUTTONS_COUNT <= MAX_BUTTONS
        &&& self.states().len() == BUTTONS_COUNT
        &&& forall|i: int| 0 <= i < BUTTONS_COUNT ==> (#[trigger] self.states()[i]).wf()
        &&& self.armed_span().wf()
    }

    /// Whether some button is down.
    pub open spec fn any_down(states: Seq<ButtonState>) -> bool {
        exists|i: int| 0 <= i < states.len() && #[trigger] states[i] is Down
    }

    /// The ticks a press is credited with when the timer is in `state` and
    /// its counter reads `counter`.
    pub open spec fn credit(state: TimerState, counter: u8) -> Tick {
        if state == TimerState::Running {
            Tick::spec_begun_since_armed(counter)
        } else {
            Tick(0)
        }
    }

    /// All buttons up, timer stopped.
    pub fn new() -> (r: Self)
        requires
            BUTTONS_COUNT <= MAX_BUTTONS,
        ensures
            r.wf(),
            forall|i: int| 0 <= i < BUTTONS_COUNT ==> #[trigger] r.states()[i] == ButtonState::Up,
            r.timer_state() == TimerState::Disabled,
    {
        DebouncedButtonsContext { buttons: [ButtonState::Up; BUTTONS_COUNT], timer: Timer::new() }
    }

    /// Handles a pin-change interrupt; `pins` holds the level of button `i`
    /// in bit `i` and `counter` is the timer's count. A new press waits for
    /// the debounce delay, plus the ticks already begun if the timer runs.
    /// When no button is down the timer stops; when one is and the timer was
    /// stopped it is armed for the debounce delay.
    pub fn on_pin_change(&mut self, pins: u8, counter: u8) -> (r: TimerCommand)
        requires
            old(self).wf(),
        ensures
            final(self).wf(),
            forall|i: int|
                0 <= i < BUTTONS_COUNT ==> #[trigger] final(self).states()[i] == old(self).states()[i].after_pin(
                    pin_high(pins, i),
                    Self::credit(old(self).timer_state(), counter),
                ),
            !Self::any_down(final(self).states()) ==> r == TimerCommand::Disable
                && final(self).timer_state() == TimerState::Disabled,
            Self::any_down(final(self).states()) && old(self).timer_state()
                == TimerState::Disabled ==> r == TimerCommand::Schedule(
                debounce_delay().spec_to_output_compare_value(),
            ) && final(self).timer_state() == TimerState::Running && final(self).armed_span()
                == debounce_delay(),
            Self::any_down(final(self).states()) && old(self).timer_state()
                != TimerState::Disabled ==> r == TimerCommand::Keep && final(self).timer_state()
                == old(self).timer_state() && final(self).armed_span() == old(self).armed_span(),
    {
        let credit = match self.timer.state {
            TimerState::Running => Tick::begun_since_armed(counter),
            _ => Tick(0),
        };
        let mut i: usize = 0;
        let mut any_down = false;
        while i < BUTTONS_COUNT
            invariant
                i <= BUTTONS_COUNT,
                BUTTONS_COUNT <= MAX_BUTTONS,
                credit == Self::credit(old(self).timer.state, counter),
                credit.wf(),
                self.timer == old(self).timer,
                self.buttons@.len() == BUTTONS_COUNT,
                forall|j: int|
                    0 <= j < i ==> #[trigger] self.buttons@[j] == old(self).buttons@[j].after_pin(
                        pin_high(pins, j),
                        credit,
                    ),
                forall|j: int| i <= j < BUTTONS_COUNT ==> #[trigger] self.buttons@[j] == old(self).buttons@[j],
                any_down == (exists|j: int|
                    0 <= j < i && (#[trigger] old(self).buttons@[j]).after_pin(
                        pin_high(pins, j),
                        credit,
                    ) is Down),
            decreases BUTTONS_COUNT - i,
        {
            let shift = i as u8;
            let pressed = (pins >> shift) & 1u8 == 1u8;
            let mut state = self.buttons[i];
            state.update_changed(pressed, credit);
            self.buttons[i] = state;
            if state.is_down() {
                any_down = true;
            }
            proof {
                if state is Down {
                    assert(old(self).buttons@[i as int].after_pin(pin_high(pins, i as int), credit) is Down);
                }
            }
            i = i + 1;
        }
        proof {
            assert forall|j: int| 0 <= j < BUTTONS_COUNT implies (#[trigger] self.buttons@[j]).wf() by {
                assert(old(self).buttons@[j].wf());
            }
            if any_down {
                let j = choose|j: int|
                    0 <= j < BUTTONS_COUNT && (#[trigger] old(self).buttons@[j]).after_pin(
                        pin_high(pins, j),
                        credit,
                    ) is Down;
                assert(self.buttons@[j] is Down);
            } else {
                assert forall|j: int| 0 <= j < BUTTONS_COUNT implies !(#[trigger] self.buttons@[j] is Down) by {
                    assert(!(old(self).buttons@[j].after_pin(pin_high(pins, j), credit) is Down));
                }
            }
        }
        if !any_down {
            self.timer.disable()
        } else {
            match self.timer.state {
                TimerState::Disabled => self.timer.schedule(Tick(DEBOUNCE_DELAY)),
                _ => TimerCommand::Keep,
            }
        }
    }

    /// Handles a timer compare match, which comes the armed span after the
    /// timer was armed. Every down button loses that span; the timer is
    /// re-armed for the least remaining time among the buttons that do not
    /// fire (at most the longest span it can count), or stopped when there
    /// are none; each button with no time left becomes pressed and is
    /// reported in the result so that its callback runs once.
    pub fn on_timer_compare_match(&mut self) -> (r: (TimerCommand, [bool; BUTTONS_COUNT]))
        requires
            old(self).wf(),
        ensures
            final(self).wf(),
            forall|i: int|
                0 <= i < BUTTONS_COUNT ==> #[trigger] final(self).states()[i] == old(self).states()[i].after_timer(old(self).armed_span()),
            forall|i: int|
                0 <= i < BUTTONS_COUNT ==> #[trigger] r.1@[i] == old(self).states()[i].fires(
                    old(self).armed_span(),
                ),
            forall|i: int|
                0 <= i < BUTTONS_COUNT && #[trigger] r.1@[i] ==> (old(self).states()[i] matches ButtonState::Down { time_remaining }
                    && time_remaining.0 <= old(self).armed_span().0),
            (exists|i: int|
                0 <= i < BUTTONS_COUNT && #[trigger] old(self).states()[i] is Down && !old(self).states()[i].fires(old(self).armed_span())) <==> least_pending(
                old(self).states(),
                old(self).armed_span(),
            ) is Some,
            least_pending(old(self).states(), old(self).armed_span()) matches Some(least) ==> r.0
                == TimerCommand::Schedule(next_span(least).spec_to_output_compare_value()) && final(self).timer_state() == TimerState::Running && final(self).armed_span() == next_span(
                least,
            ),
            least_pending(old(self).states(), old(self).armed_span()) is None ==> r.0
                == TimerCommand::Disable && final(self).timer_state() == TimerState::Disabled,
    {
        proof {
            lemma_least_pending_exists(old(self).buttons@, old(self).timer.armed_for);
        }
        let elapsed_time = self.timer.armed_for;
        let mut lowest_time: Option<u8> = None;
        let mut i: usize = 0;
        while i < BUTTONS_COUNT
            invariant
                i <= BUTTONS_COUNT,
                elapsed_time == old(self).timer.armed_for,
                self.timer == old(self).timer,
                self.buttons@.len() == BUTTONS_COUNT,
                old(self).buttons@.len() == BUTTONS_COUNT,
                lowest_time == least_pending(old(self).buttons@.subrange(0, i as int), elapsed_time),
                forall|j: int|
                    0 <= j < i ==> #[trigger] self.buttons@[j] == Self::counted_down(
                        old(self).buttons@[j],
                        elapsed_time,
                    ),
                forall|j: int| i <= j < BUTTONS_COUNT ==> #[trigger] self.buttons@[j] == old(self).buttons@[j],
            decreases BUTTONS_COUNT - i,
        {
            assert(old(self).buttons@.subrange(0, i + 1).drop_last() =~= old(self).buttons@.subrange(
                0,
                i as int,
            ));
            if let ButtonState::Down { time_remaining } = self.buttons[i] {
                let remaining = if time_remaining.0 >= elapsed_time.0 {
                    time_remaining.0 - elapsed_time.0
                } else {
                    0
                };
                let remaining = Tick(remaining);
                self.buttons[i] = ButtonState::Down { time_remaining: remaining };
                if !remaining.has_expired() {
                    match lowest_time {
                        Some(lowest) => {
                            if remaining.0 < lowest {
                                lowest_time = Some(remaining.0);
                            }
                        },
                        None => {
                            lowest_time = Some(remaining.0);
                        },
                    }
                }
            }
            i = i + 1;
        }
        assert(old(self).buttons@.subrange(0, BUTTONS_COUNT as int) =~= old(self).buttons@);
        let command = match lowest_time {
            Some(least) => {
                let span = if least < MAX_TIMER_SPAN {
                    least
                } else {
                    MAX_TIMER_SPAN
                };
                self.timer.schedule(Tick(span))
            },
            None => self.timer.disable(),
        };
        let mut fired = [false; BUTTONS_COUNT];
        let mut k: usize = 0;
        while k < BUTTONS_COUNT
            invariant
                k <= BUTTONS_COUNT,
                elapsed_time == old(self).timer.armed_for,
                self.buttons@.len() == BUTTONS_COUNT,
                fired@.len() == BUTTONS_COUNT,
                self.timer.armed_for.wf(),
                self.timer.state == (if lowest_time is Some {
                    TimerState::Running
                } else {
                    TimerState::Disabled
                }),
                lowest_time matches Some(least) ==> self.timer.armed_for == next_span(least),
                forall|j: int|
                    0 <= j < k ==> #[trigger] self.buttons@[j] == old(self).buttons@[j].after_timer(
                        elapsed_time,
                    ),
                forall|j: int|
                    0 <= j < k ==> #[trigger] fired@[j] == old(self).buttons@[j].fires(
                        elapsed_time,
                    ),
                forall|j: int| k <= j < BUTTONS_COUNT ==> #[trigger] self.buttons@[j] == Self::counted_down(
                    old(self).buttons@[j],
                    elapsed_time,
                ),
                forall|j: int| k <= j < BUTTONS_COUNT ==> !(#[trigger] fired@[j]),
            decreases BUTTONS_COUNT - k,
        {
            if let ButtonState::Down { time_remaining } = self.buttons[k] {
                if time_remaining.has_expired() {
                    fired[k] = true;
                    self.buttons[k] = ButtonState::Pressed;
                }
            }
            k = k + 1;
        }
        proof {
            assert forall|j: int| 0 <= j < BUTTONS_COUNT implies (#[trigger] self.buttons@[j]).wf() by {
                assert(old(self).buttons@[j].wf());
            }
        }
        (command, fired)
    }

    /// A down button with the elapsed ticks taken off; others unchanged.
    pub open spec fn counted_down(state: ButtonState, elapsed: Tick) -> ButtonState {
        if state is Down {
            ButtonState::Down { time_remaining: Tick(state.remaining_after(elapsed)) }
        } else {
            state
        }
    }
}

/// The state after pin changes, each leaving the pin at a level and
/// crediting some ticks, with no timer match in between.
pub open spec fn after_pins(state: ButtonState, events: Seq<(bool, Tick)>) -> ButtonState
    decreases events.len(),
{
    if events.len() == 0 {
        state
    } else {
        after_pins(state, events.drop_last()).after_pin(events.last().0, events.last().1)
    }
}

/// The state after timer matches that each come the given span after the
/// previous arming.
pub open spec fn after_matches(state: ButtonState, spans: Seq<Tick>) -> ButtonState
    decreases spans.len(),
{
    if spans.len() == 0 {
        state
    } else {
        after_matches(state, spans.drop_last()).after_timer(spans.last())
    }
}

/// Total ticks of a sequence of spans.
pub open spec fn total(spans: Seq<Tick>) -> int
    decreases spans.len(),
{
    if spans.len() == 0 {
        0
    } else {
        total(spans.drop_last()) + spans.last().0
    }
}

/// A down button with `ticks` left to wait.
pub open spec fn waiting(ticks: u8) -> ButtonState {
    ButtonState::Down { time_remaining: Tick(ticks) }
}

/// Debounce law for timing: a button that goes down waiting `delay` ticks
/// becomes pressed by the timer matches that follow exactly once their
/// spans add up to `delay`; before that it is still down with the rest of
/// the delay to wait.
pub proof fn lemma_pressed_only_after_delay(delay: u8, spans: Seq<Tick>)
    requires
        delay > 0,
    ensures
        total(spans) >= delay ==> after_matches(waiting(delay), spans) == ButtonState::Pressed,
        total(spans) < delay ==> after_matches(waiting(delay), spans) == waiting(
            (delay - total(spans)) as u8,
        ),
    decreases spans.len(),
{
    if spans.len() > 0 {
        let init = spans.drop_last();
        lemma_pressed_only_after_delay(delay, init);
        assert(total(spans) == total(init) + spans.last().0);
        assert(after_matches(waiting(delay), spans) == after_matches(waiting(delay), init).after_timer(
            spans.last(),
        ));
        lemma_total_nonnegative(init);
    }
}

/// Totals of spans are never negative.
proof fn lemma_total_nonnegative(spans: Seq<Tick>)
    ensures
        total(spans) >= 0,
    decreases spans.len(),
{
    if spans.len() > 0 {
        lemma_total_nonnegative(spans.drop_last());
    }
}

/// Debounce law for a held press: an up button whose pin goes high while
/// the timer is stopped waits the debounce delay; a timer match fires it
/// exactly when the armed span covers the delay, leaving it pressed; after
/// that, neither further timer matches nor pin changes that keep the pin
/// high fire it again, and it stays pressed.
pub proof fn lemma_held_press_fires_once(
    elapsed: Tick,
    later_spans: Seq<Tick>,
    later_events: Seq<(bool, Tick)>,
)
    requires
        forall|i: int| 0 <= i < later_events.len() ==> (#[trigger] later_events[i]).0,
    ensures
        ({
            let down = ButtonState::Up.after_pin(true, Tick(0));
            &&& down == waiting(DEBOUNCE_DELAY)
            &&& down.fires(elapsed) <==> elapsed.0 >= DEBOUNCE_DELAY
            &&& down.fires(debounce_delay())
            &&& down.after_timer(debounce_delay()) == ButtonState::Pressed
            &&& forall|i: int|
                0 <= i < later_spans.len() ==> !ButtonState::Pressed.fires(
                    #[trigger] later_spans[i],
                ) && ButtonState::Pressed.after_timer(later_spans[i]) == ButtonState::Pressed
            &&& after_matches(ButtonState::Pressed, later_spans) == ButtonState::Pressed
            &&& after_pins(ButtonState::Pressed, later_events) == ButtonState::Pressed
        }),
    decreases later_events.len() + later_spans.len(),
{
    if later_events.len() > 0 {
        lemma_held_press_fires_once(elapsed, later_spans, later_events.drop_last());
    } else if later_spans.len() > 0 {
        lemma_held_press_fires_once(elapsed, later_spans.drop_last(), later_events);
    }
}

/// Debounce law for bouncing: pin changes from an up button with no timer
/// match in between, ending low, leave it up; and a timer match on an up
/// button fires nothing and keeps it up.
pub proof fn lemma_bounce_returns_up(events: Seq<(bool, Tick)>, elapsed: Tick)
    requires
        events.len() > 0,
        !events.last().0,
    ensures
        after_pins(ButtonState::Up, events) == ButtonState::Up,
        !ButtonState::Up.fires(elapsed),
        ButtonState::Up.after_timer(elapsed) == ButtonState::Up,
{
    lemma_after_pins_never_pressed(events.drop_last());
}

/// Pin changes alone never make an up button pressed.
proof fn lemma_after_pins_never_pressed(events: Seq<(bool, Tick)>)
    ensures
        !(after_pins(ButtonState::Up, events) is Pressed),
    decreases events.len(),
{
    if events.len() > 0 {
        lemma_after_pins_never_pressed(events.drop_last());
    }
}

} // verus!
