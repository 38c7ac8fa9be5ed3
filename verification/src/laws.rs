//! What holds of every run of the sequencer and of every solution.

use vstd::prelude::*;
use crate::pins::{Level, Phase, PinRole, PinRoles};
use crate::sequencer::{Action, Event, Intervals, Rejection, Settings, Stage, State};
use crate::solver::{Network, Ratio, LOG_SCALE};

verus! {

/// Any event, accepted or refused, leaves a well-formed state well-formed.
pub proof fn lemma_next_keeps_well_formed(state: State, event: Event)
    requires
        state.well_formed(),
    ensures
        state.advance(event).well_formed(),
{
}

/// Every state that any sequence of events can lead to from the initial
/// state is well-formed.
pub proof fn lemma_run_well_formed(settings: Settings, events: Seq<Event>)
    ensures
        State::initial(settings).run(events).well_formed(),
    decreases events.len(),
{
    if events.len() > 0 {
        lemma_run_well_formed(settings, events.drop_last());
        lemma_next_keeps_well_formed(
            State::initial(settings).run(events.drop_last()),
            events.last(),
        );
    }
}

/// The two phases keep apart: while the machine stands in a phase, the drive
/// pin of the other phase floats, and no configuration that the machine can
/// issue from there gives that pin any other role.
pub proof fn lemma_phase_independence(state: State, event: Event, phase: Phase)
    requires
        state.well_formed(),
        state.stage.phase() == Some(phase),
    ensures
        state.pins.spec_role_of(phase.spec_idle_pin()) == PinRole::FloatingInput,
        state.next(event) matches Ok((_, Action::Configure(roles))) ==> roles.spec_role_of(
            phase.spec_idle_pin(),
        ) == PinRole::FloatingInput,
        state.advance(event).pins.spec_role_of(phase.spec_idle_pin()) == PinRole::FloatingInput,
{
}

/// In every state that any sequence of events can lead to from the initial
/// state, the drive pin of the phase that is not running floats.
pub proof fn lemma_run_phase_independence(settings: Settings, events: Seq<Event>, phase: Phase)
    requires
        State::initial(settings).run(events).stage.phase() == Some(phase),
    ensures
        State::initial(settings).run(events).pins.spec_role_of(phase.spec_idle_pin())
            == PinRole::FloatingInput,
{
    lemma_run_well_formed(settings, events);
}

/// In every state that any sequence of events can lead to from the initial
/// state, at most one pin is driven, and the capture counts only between its
/// start and its cancellation, so never at rest.
pub proof fn lemma_run_exclusive_drive(settings: Settings, events: Seq<Event>)
    ensures
        State::initial(settings).run(events).pins.driven_count() <= 1,
        State::initial(settings).run(events).capturing == State::initial(settings).run(
            events,
        ).stage.captures(),
        State::initial(settings).run(events).stage is Idle ==> !State::initial(settings).run(
            events,
        ).capturing,
{
    lemma_run_well_formed(settings, events);
}

/// The sense pin is read only while it floats: whenever a well-formed machine
/// asks for a read, the roles it last issued have the sense pin as a floating
/// input. The same holds when it asks for a sample of the capture, and the
/// capture is then counting.
pub proof fn lemma_read_only_while_floating(state: State, event: Event)
    requires
        state.well_formed(),
    ensures
        state.next(event) matches Ok((after, Action::ReadSense)) ==> after.pins.sense
            == PinRole::FloatingInput && after.capturing,
        state.next(event) matches Ok((after, Action::SampleCapture)) ==> after.pins.sense
            == PinRole::FloatingInput && after.capturing,
{
}

/// Switching from one well-formed configuration to another, pin by pin in
/// the target's switch order, passes through well-formed configurations
/// only, so never drives two nets at once, and arrives at the target.
pub proof fn lemma_switch_order_exclusive(before: PinRoles, target: PinRoles)
    requires
        before.well_formed(),
        target.well_formed(),
    ensures
        forall|count: nat| count <= 3 ==> (#[trigger] before.switched(target, count)).well_formed(),
        before.switched(target, 3) == target,
{
    reveal_with_fuel(PinRoles::switched, 4);
    assert forall|count: nat| count <= 3 implies (#[trigger] before.switched(
        target,
        count,
    )).well_formed() by {
        if count == 0 {
        } else if count == 1 {
        } else if count == 2 {
        } else {
        }
    }
}

/// Every configuration that a well-formed machine issues can be reached
/// from the roles the pins stand in without driving two nets at once.
pub proof fn lemma_configure_switches_exclusively(state: State, event: Event, count: nat)
    requires
        state.well_formed(),
        count <= 3,
    ensures
        state.next(event) matches Ok((_, Action::Configure(roles))) ==> state.pins.switched(
            roles,
            count,
        ).well_formed() && state.pins.switched(roles, 3) == roles,
{
    if let Ok((_, Action::Configure(roles))) = state.next(event) {
        lemma_switch_order_exclusive(state.pins, roles);
    }
}

/// The first phase is over before the second begins: the machine enters the
/// second phase only from the settle delay that closes the first, with the
/// pins discharging and the capture stopped, and it comes to rest only from
/// the settle delay that closes the second.
pub proof fn lemma_phases_in_order(state: State, event: Event)
    requires
        state.well_formed(),
    ensures
        state.stage.phase() != Some(Phase::Second) && state.advance(event).stage.phase() == Some(
            Phase::Second,
        ) ==> state.stage == Stage::Resettling(Phase::First) && state.pins
            == PinRoles::spec_discharge() && !state.capturing,
        !(state.stage is Idle) && state.advance(event).stage is Idle ==> state.stage
            == Stage::Resettling(Phase::Second) && state.pins == PinRoles::spec_discharge()
            && !state.capturing,
{
}

/// The machine is never stuck: in every stage some event is accepted.
pub proof fn lemma_never_stuck(state: State)
    ensures
        exists|event: Event| (#[trigger] state.next(event)) is Ok,
{
    match state.stage {
        Stage::Idle => {
            assert(state.next(Event::Triggered) is Ok);
        },
        Stage::Polling(_) => {
            assert(state.next(Event::Sensed(Level::High)) is Ok);
        },
        Stage::Sampling(_) => {
            assert(state.next(Event::Ticks(0)) is Ok);
        },
        _ => {
            assert(state.next(Event::Done) is Ok);
        },
    }
}

/// After an action was issued, the machine accepts exactly the events that
/// answer it.
pub proof fn lemma_accepts_the_answer(state: State, event: Event, answer: Event)
    requires
        state.next(event) is Ok,
    ensures
        state.advance(event).next(answer) is Ok <==> state.next(event).unwrap().1.answered_by(
            answer,
        ),
{
}

/// No sequence of events changes the settings.
pub proof fn lemma_settings_fixed(state: State, events: Seq<Event>)
    ensures
        state.run(events).settings == state.settings,
    decreases events.len(),
{
    if events.len() > 0 {
        lemma_settings_fixed(state, events.drop_last());
    }
}

/// `count` reads of the sense pin that all came back low.
pub open spec fn low_reads(count: nat) -> Seq<Event> {
    Seq::new(count, |i: int| Event::Sensed(Level::Low))
}

/// What the hardware reports during one phase, up to the configuration that
/// closes it: the sense pin reads low `polls` times and then high, and the
/// capture shows `ticks`.
pub open spec fn phase_body(polls: nat, ticks: u32) -> Seq<Event> {
    seq![Event::Done, Event::Done, Event::Done, Event::Done] + low_reads(polls)
        + seq![Event::Sensed(Level::High), Event::Ticks(ticks), Event::Done, Event::Done]
}

/// What the hardware reports during one whole cycle, from the trigger to the
/// answer to the last settle delay.
pub open spec fn cycle_events(polls1: nat, ticks1: u32, polls2: nat, ticks2: u32) -> Seq<Event> {
    (seq![Event::Triggered] + phase_body(polls1, ticks1).push(Event::Done) + phase_body(
        polls2,
        ticks2,
    )).push(Event::Done)
}

/// The state in which every cycle ends: at rest, the capacitor discharging,
/// the capture stopped, the two samples kept.
pub open spec fn rest_state(settings: Settings, ticks1: u32, ticks2: u32) -> State {
    State {
        settings,
        stage: Stage::Idle,
        pins: PinRoles::spec_discharge(),
        capturing: false,
        intervals: Intervals { t1_ticks: ticks1, t2_ticks: ticks2 },
    }
}

/// Running one more event is advancing once more.
pub proof fn lemma_run_push(state: State, events: Seq<Event>, event: Event)
    ensures
        state.run(events.push(event)) == state.run(events).advance(event),
{
    assert(events.push(event).drop_last() =~= events);
}

/// Running two sequences one after the other is running their concatenation.
pub proof fn lemma_run_concat(state: State, first: Seq<Event>, second: Seq<Event>)
    ensures
        state.run(first + second) == state.run(first).run(second),
    decreases second.len(),
{
    if second.len() == 0 {
        assert(first + second =~= first);
    } else {
        lemma_run_concat(state, first, second.drop_last());
        assert((first + second).drop_last() =~= first + second.drop_last());
    }
}

/// While the machine polls, any number of low reads leaves it where it is.
pub proof fn lemma_low_reads_change_nothing(state: State, count: nat)
    requires
        state.stage is Polling,
    ensures
        state.run(low_reads(count)) == state,
    decreases count,
{
    if count > 0 {
        lemma_low_reads_change_nothing(state, (count - 1) as nat);
        assert(low_reads(count).drop_last() =~= low_reads((count - 1) as nat));
    }
}

proof fn lemma_run_four(state: State, a: Event, b: Event, c: Event, d: Event)
    ensures
        state.run(seq![a, b, c, d]) == state.advance(a).advance(b).advance(c).advance(d),
{
    let none = Seq::<Event>::empty();
    lemma_run_push(state, none, a);
    lemma_run_push(state, none.push(a), b);
    lemma_run_push(state, none.push(a).push(b), c);
    lemma_run_push(state, none.push(a).push(b).push(c), d);
    assert(seq![a, b, c, d] =~= none.push(a).push(b).push(c).push(d));
}

/// A phase that starts from its discharge ends in its closing settle delay
/// with the pins discharging, the capture stopped and its sample recorded,
/// however many reads came back low.
pub proof fn lemma_phase_body(state: State, phase: Phase, polls: nat, ticks: u32)
    requires
        state.stage == Stage::Discharging(phase),
    ensures
        state.run(phase_body(polls, ticks)) == (State {
            stage: Stage::Resettling(phase),
            pins: PinRoles::spec_discharge(),
            capturing: false,
            intervals: state.intervals.record(Stage::Sampling(phase), Event::Ticks(ticks)),
            ..state
        }),
{
    let head = seq![Event::Done, Event::Done, Event::Done, Event::Done];
    let tail = seq![Event::Sensed(Level::High), Event::Ticks(ticks), Event::Done, Event::Done];
    lemma_run_concat(state, head + low_reads(polls), tail);
    lemma_run_concat(state, head, low_reads(polls));
    lemma_run_four(state, Event::Done, Event::Done, Event::Done, Event::Done);
    let polling = state.run(head);
    assert(polling.stage == Stage::Polling(phase));
    lemma_low_reads_change_nothing(polling, polls);
    lemma_run_four(
        polling,
        Event::Sensed(Level::High),
        Event::Ticks(ticks),
        Event::Done,
        Event::Done,
    );
}

/// A whole cycle, started at rest, reports exactly the two samples that the
/// capture showed, the first phase's as `t1_ticks` and the second's as
/// `t2_ticks`, and leaves the machine at rest, whatever state the pins and
/// the earlier samples were in and however long either poll lasted.
pub proof fn lemma_cycle_reports_samples(
    state: State,
    polls1: nat,
    ticks1: u32,
    polls2: nat,
    ticks2: u32,
)
    requires
        state.stage is Idle,
    ensures
        state.run(cycle_events(polls1, ticks1, polls2, ticks2)) == rest_state(
            state.settings,
            ticks1,
            ticks2,
        ),
        state.run(cycle_events(polls1, ticks1, polls2, ticks2).drop_last()).next(
            cycle_events(polls1, ticks1, polls2, ticks2).last(),
        ) == Ok::<(State, Action), Rejection>(
            (
                rest_state(state.settings, ticks1, ticks2),
                Action::Report(Intervals { t1_ticks: ticks1, t2_ticks: ticks2 }),
            ),
        ),
{
    let start = seq![Event::Triggered];
    let first = phase_body(polls1, ticks1).push(Event::Done);
    let second = phase_body(polls2, ticks2);
    let body = start + first + second;
    assert(cycle_events(polls1, ticks1, polls2, ticks2).drop_last() =~= body);
    lemma_run_push(state, body, Event::Done);
    lemma_run_concat(state, start + first, second);
    lemma_run_concat(state, start, first);
    lemma_run_push(state, Seq::<Event>::empty(), Event::Triggered);
    assert(start =~= Seq::<Event>::empty().push(Event::Triggered));
    let triggered = state.run(start);
    assert(triggered.stage == Stage::Discharging(Phase::First));
    lemma_phase_body(triggered, Phase::First, polls1, ticks1);
    lemma_run_push(triggered, phase_body(polls1, ticks1), Event::Done);
    let halfway = triggered.run(first);
    assert(halfway.stage == Stage::Discharging(Phase::Second));
    lemma_phase_body(halfway, Phase::Second, polls2, ticks2);
}

/// Intervals above zero give a capacitance and a resistance above zero.
pub proof fn lemma_solution_positive(network: Network, t1_ticks: u32, t2_ticks: u32)
    requires
        network.well_formed(),
        t1_ticks > 0,
        t2_ticks > 0,
    ensures
        network.spec_capacitance(t2_ticks).is_positive(),
        network.spec_resistance(t1_ticks, t2_ticks).is_positive(),
{
    lemma_products_fit(network, t1_ticks, t2_ticks);
}

/// The resistance grows strictly with the first interval while the second
/// stays as it is and is not zero, and the capacitance grows strictly with
/// the second interval.
pub proof fn lemma_solution_increasing(network: Network, shorter: u32, longer: u32, other: u32)
    requires
        network.well_formed(),
        shorter < longer,
    ensures
        other > 0 ==> network.spec_resistance(shorter, other).less_than(
            network.spec_resistance(longer, other),
        ),
        network.spec_capacitance(shorter).less_than(network.spec_capacitance(longer)),
{
    lemma_products_fit(network, shorter, shorter);
    lemma_products_fit(network, longer, longer);
    let rref = network.rref_ohms as int;
    let den = network.ticks_per_second * network.rref_ohms * network.log_micro;
    if other > 0 {
        assert((rref * shorter) * other < (rref * longer) * other) by (nonlinear_arith)
            requires
                rref > 0,
                other > 0,
                shorter < longer,
        ;
    }
    assert((shorter * LOG_SCALE) * den < (longer * LOG_SCALE) * den) by (nonlinear_arith)
        requires
            den > 0,
            LOG_SCALE > 0,
            shorter < longer,
    ;
}

/// A first interval of zero gives a resistance of exactly zero, as long as
/// the second interval is not zero too, and a second interval of zero gives a
/// capacitance of exactly zero.
pub proof fn lemma_degenerate_intervals(network: Network, t2_ticks: u32)
    requires
        network.well_formed(),
    ensures
        t2_ticks > 0 ==> network.spec_resistance(0, t2_ticks).is_zero(),
        network.spec_capacitance(0).is_zero(),
{
    lemma_products_fit(network, 0, t2_ticks);
}

/// The resistance is the one that solves the charging equation with the
/// capacitance found: resistance times capacitance times the logarithm is the
/// first interval in seconds.
pub proof fn lemma_resistance_solves_charging(network: Network, t1_ticks: u32, t2_ticks: u32)
    requires
        network.well_formed(),
        t2_ticks > 0,
    ensures
        ({
            let r = network.spec_resistance(t1_ticks, t2_ticks);
            let c = network.spec_capacitance(t2_ticks);
            r.numerator * c.numerator * network.log_micro * network.ticks_per_second == t1_ticks
                * LOG_SCALE * (r.denominator * c.denominator)
        }),
{
    lemma_products_fit(network, t1_ticks, t2_ticks);
    let rref = network.rref_ohms as int;
    let tps = network.ticks_per_second as int;
    let log = network.log_micro as int;
    let t1 = t1_ticks as int;
    let t2 = t2_ticks as int;
    let scale = LOG_SCALE as int;
    assert((rref * t1) * (t2 * scale) * log * tps == t1 * scale * (t2 * (tps * rref * log)))
        by (nonlinear_arith);
}

/// Round trip: when the two intervals are exactly those that a network with
/// resistance `r` and capacitance `c` takes to reach the threshold, `c * k`
/// times the reference resistor for the second and `r * c * k` for the
/// first, the solver gives back `c` and `r`.
pub proof fn lemma_round_trip(network: Network, r: Ratio, c: Ratio, t1_ticks: u32, t2_ticks: u32)
    requires
        network.well_formed(),
        r.is_finite(),
        c.is_positive(),
        t2_ticks * LOG_SCALE * c.denominator == network.ticks_per_second * network.rref_ohms
            * network.log_micro * c.numerator,
        t1_ticks * LOG_SCALE * (r.denominator * c.denominator) == network.ticks_per_second
            * network.log_micro * (r.numerator * c.numerator),
    ensures
        network.spec_capacitance(t2_ticks).same_as(c),
        network.spec_resistance(t1_ticks, t2_ticks).same_as(r),
{
    lemma_products_fit(network, t1_ticks, t2_ticks);
    let rref = network.rref_ohms as int;
    let tps = network.ticks_per_second as int;
    let log = network.log_micro as int;
    let t1 = t1_ticks as int;
    let t2 = t2_ticks as int;
    let scale = LOG_SCALE as int;
    let rn = r.numerator as int;
    let rd = r.denominator as int;
    let cn = c.numerator as int;
    let cd = c.denominator as int;
    assert(t2 > 0) by (nonlinear_arith)
        requires
            t2 * scale * cd == tps * rref * log * cn,
            t2 >= 0,
            tps > 0,
            rref > 0,
            log > 0,
            cn > 0,
            cd > 0,
            scale > 0,
    {
        if t2 == 0 {
            assert(tps * rref * log * cn > 0);
        }
    }
    let k = scale * cd;
    let first = t1 * scale * (rd * cd);
    let second = t2 * scale * cd;
    assert((rref * t1 * rd) * k == rref * first) by (nonlinear_arith)
        requires
            k == scale * cd,
            first == t1 * scale * (rd * cd),
    ;
    assert((rn * t2) * k == rn * second) by (nonlinear_arith)
        requires
            k == scale * cd,
            second == t2 * scale * cd,
    ;
    assert(rref * (tps * log * (rn * cn)) == rn * (tps * rref * log * cn)) by (nonlinear_arith);
    assert((rref * t1 * rd) * k == (rn * t2) * k);
    assert(rref * t1 * rd == rn * t2) by (nonlinear_arith)
        requires
            (rref * t1 * rd) * k == (rn * t2) * k,
            k > 0,
    ;
    assert((t2 * scale) * cd == cn * (tps * rref * log)) by (nonlinear_arith)
        requires
            t2 * scale * cd == tps * rref * log * cn,
    ;
    assert((rref * t1) * rd == rn * t2) by (nonlinear_arith)
        requires
            rref * t1 * rd == rn * t2,
    ;
}

proof fn lemma_products_fit(network: Network, t1_ticks: u32, t2_ticks: u32)
    ensures
        network.spec_capacitance(t2_ticks).numerator == t2_ticks * LOG_SCALE,
        network.spec_capacitance(t2_ticks).denominator == network.ticks_per_second
            * network.rref_ohms * network.log_micro,
        network.spec_resistance(t1_ticks, t2_ticks).numerator == network.rref_ohms * t1_ticks,
        network.spec_resistance(t1_ticks, t2_ticks).denominator == t2_ticks,
        network.well_formed() ==> network.ticks_per_second * network.rref_ohms
            * network.log_micro > 0,
        network.well_formed() && t1_ticks > 0 ==> network.rref_ohms * t1_ticks > 0,
{
    let rref = network.rref_ohms as int;
    let tps = network.ticks_per_second as int;
    let log = network.log_micro as int;
    let t1 = t1_ticks as int;
    assert(0 <= tps * rref * log <= 0xFFFF_FFFF * 0xFFFF_FFFF * 0xFFFF_FFFF) by (nonlinear_arith)
        requires
            0 <= tps <= 0xFFFF_FFFF,
            0 <= rref <= 0xFFFF_FFFF,
            0 <= log <= 0xFFFF_FFFF,
    ;
    assert(0 <= rref * t1 <= 0xFFFF_FFFF * 0xFFFF_FFFF) by (nonlinear_arith)
        requires
            0 <= rref <= 0xFFFF_FFFF,
            0 <= t1 <= 0xFFFF_FFFF,
    ;
    if network.well_formed() {
        assert(tps * rref * log > 0) by (nonlinear_arith)
            requires
                tps > 0,
                rref > 0,
                log > 0,
        ;
        if t1_ticks > 0 {
            assert(rref * t1 > 0) by (nonlinear_arith)
                requires
                    rref > 0,
                    t1 > 0,
            ;
        }
    }
}

} // verus!
