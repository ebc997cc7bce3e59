//! What holds of the driver over time, whatever packets come and however often
//! the devices refuse an emission.

use vstd::prelude::*;

use crate::action::ActionModel;
use crate::dispatcher::DeviceDispatcher;
use crate::input::{Emission, EventType, VirtualDevice, BTN_TOOL_PEN, BTN_TOUCH};
use crate::laws::{
    all_advertised, law_control_is_advertised, law_controls_are_advertised,
    law_every_emission_is_advertised, law_position_is_advertised, law_pulse_is_advertised,
    law_setups_do_not_depend_on_the_memory,
};
use crate::model::{
    after_controls, after_nudge, after_position, after_proximity, after_sign, after_touch,
    change_run, controls_run, dispatch_run, fresh_memory, in_range, last_sign,
    memory_after_dispatch, memory_after_pen, output_pressure, pen_button_run, pen_run, position_run,
    proximity_run, rotated, syn_run, tablet_key_run, tablet_run, touch_run, touching,
    DispatcherModel, Memory, PacketClock, PRESSED, RELEASED, TABLET_BUTTON_END,
};
use crate::outbox::{law_outbox_runs_add_up, EmitError, Outbox, OutboxModel};
use crate::packet::{
    packet_pen_button, packet_pressure, packet_tablet_buttons, packet_x, packet_y, RawDataReader,
};
use crate::setup::{advertises, setup_for};

verus! {

/// One call of a dispatcher, with what it is given and the outbox before it.
pub enum Call {
    /// A packet is dispatched.
    Packet { data: Seq<u8>, clock: PacketClock, outbox: OutboxModel },
    /// The pen's part of a packet alone is handled.
    Pen { data: Seq<u8>, clock: PacketClock, outbox: OutboxModel },
    /// The barrel buttons alone are handled.
    PenButtons { button: u8, outbox: OutboxModel },
    /// The pen's proximity alone is handled.
    Proximity { pressure: int, clock: PacketClock, outbox: OutboxModel },
    /// The pen's position and pressure alone are handled.
    Position { raw_x: int, raw_y: int, pressure: int, outbox: OutboxModel },
    /// The pen's touch alone is handled.
    Touch { pressure: int, outbox: OutboxModel },
    /// The tablet's part of a packet alone is handled.
    Tablet { data: Seq<u8>, outbox: OutboxModel },
    /// A button word alone is handled.
    Controls { buttons: u16, outbox: OutboxModel },
    /// One tablet control alone is handled.
    Control { id: u8, buttons: u16, outbox: OutboxModel },
    /// The devices are synchronized.
    Syn { outbox: OutboxModel },
}

impl Call {
    /// The outbox before the call.
    pub open spec fn outbox(self) -> OutboxModel {
        match self {
            Call::Packet { outbox, .. } => outbox,
            Call::Pen { outbox, .. } => outbox,
            Call::PenButtons { outbox, .. } => outbox,
            Call::Proximity { outbox, .. } => outbox,
            Call::Position { outbox, .. } => outbox,
            Call::Touch { outbox, .. } => outbox,
            Call::Tablet { outbox, .. } => outbox,
            Call::Controls { outbox, .. } => outbox,
            Call::Control { outbox, .. } => outbox,
            Call::Syn { outbox } => outbox,
        }
    }

    /// What the call emits, if nothing is refused.
    pub open spec fn run(self, model: DispatcherModel) -> Seq<Emission> {
        let memory = model.memory;
        match self {
            Call::Packet { data, clock, .. } => dispatch_run(model, data, clock),
            Call::Pen { data, clock, .. } => pen_run(model, data, clock),
            Call::PenButtons { button, .. } => pen_button_run(
                model.pen_map,
                memory.pen_last_raw_pressed_button,
                button,
            ),
            Call::Proximity { pressure, clock, .. } => proximity_run(memory, pressure, clock),
            Call::Position { raw_x, raw_y, pressure, .. } => position_run(
                memory,
                rotated(raw_x),
                rotated(raw_y),
                pressure,
            ),
            Call::Touch { pressure, .. } => touch_run(memory, pressure),
            Call::Tablet { data, .. } => controls_run(model, data),
            Call::Controls { buttons, .. } => tablet_run(
                model.tablet_map,
                memory.tablet_last_raw_pressed_buttons,
                buttons,
                TABLET_BUTTON_END as nat,
            ),
            Call::Control { id, buttons, .. } => tablet_key_run(
                model.tablet_map,
                memory.tablet_last_raw_pressed_buttons,
                buttons,
                id,
            ),
            Call::Syn { .. } => syn_run(),
        }
    }

    /// What of it is taken.
    pub open spec fn taken(self, model: DispatcherModel) -> Seq<Emission> {
        self.outbox().taken_of(self.run(model))
    }

    /// The memory after the call.
    pub open spec fn memory_after(self, model: DispatcherModel) -> Memory {
        let memory = model.memory;
        let accepted = self.outbox().accepts(self.run(model));
        match self {
            Call::Packet { data, clock, outbox } => memory_after_dispatch(
                model,
                data,
                clock,
                outbox,
            ),
            Call::Pen { data, clock, outbox } => memory_after_pen(model, data, clock, outbox),
            Call::Proximity { pressure, clock, .. } => if accepted {
                after_proximity(memory, pressure, clock)
            } else {
                after_sign(memory, pressure, clock)
            },
            Call::Position { raw_x, raw_y, pressure, .. } => if accepted {
                after_position(memory, rotated(raw_x), rotated(raw_y), pressure)
            } else {
                after_nudge(memory, rotated(raw_x), rotated(raw_y))
            },
            Call::Touch { pressure, .. } => if accepted {
                after_touch(memory, pressure)
            } else {
                memory
            },
            Call::Tablet { data, .. } => if accepted {
                after_controls(memory, data)
            } else {
                memory
            },
            _ => memory,
        }
    }
}

/// A dispatcher after a series of calls, and all emissions that were taken,
/// oldest first.
pub open spec fn after_calls(model: DispatcherModel, calls: Seq<Call>) -> (
    DispatcherModel,
    Seq<Emission>,
)
    decreases calls.len(),
{
    if calls.len() == 0 {
        (model, Seq::empty())
    } else {
        let (before, history) = after_calls(model, calls.drop_last());
        (
            DispatcherModel { memory: calls.last().memory_after(before), ..before },
            history + calls.last().taken(before),
        )
    }
}

/// Whether an emission is one of a button of the pen.
pub open spec fn is_of(emission: Emission, button: u16) -> bool {
    emission.device == VirtualDevice::Pen && emission.event.event_type == EventType::Key
        && emission.event.code == button
}

/// The emissions of a button of the pen, as a predicate.
pub open spec fn those_of(button: u16) -> spec_fn(Emission) -> bool {
    |emission: Emission| is_of(emission, button)
}

/// The values that a button of the pen has taken in a history.
pub open spec fn values_of(history: Seq<Emission>, button: u16) -> Seq<i32> {
    history.filter(those_of(button)).map_values(|emission: Emission| emission.event.value)
}

/// Whether values are pressed, released, pressed, and so on, from the first.
pub open spec fn alternate(values: Seq<i32>) -> bool {
    forall|i: int|
        0 <= i < values.len() ==> (#[trigger] values[i]) == (if i % 2 == 0 {
            PRESSED
        } else {
            RELEASED
        })
}

/// Whether a button of the pen alternates in a history, and is down at its end
/// exactly if it is remembered so.
pub open spec fn tracks(history: Seq<Emission>, button: u16, down: bool) -> bool {
    let values = values_of(history, button);
    &&& alternate(values)
    &&& down <==> values.len() > 0 && values.last() == PRESSED
}

/// Whether both buttons of the pen are tracked by a memory.
pub open spec fn pen_is_tracked(history: Seq<Emission>, memory: Memory) -> bool {
    &&& tracks(history, BTN_TOOL_PEN, memory.was_in_range)
    &&& tracks(history, BTN_TOUCH, memory.was_touching)
}

/// Whether a run holds nothing of the pen's buttons.
spec fn leaves_buttons(run: Seq<Emission>) -> bool {
    forall|i: int|
        0 <= i < run.len() ==> !is_of(#[trigger] run[i], BTN_TOOL_PEN) && !is_of(run[i], BTN_TOUCH)
}

/// The values in two histories, one after the other.
proof fn lemma_values_add_up(first: Seq<Emission>, second: Seq<Emission>, button: u16)
    ensures
        values_of(first + second, button) == values_of(first, button) + values_of(second, button),
{
    Seq::filter_distributes_over_add(first, second, those_of(button));
    assert(values_of(first + second, button) =~= values_of(first, button) + values_of(
        second,
        button,
    ));
}

/// A run without emissions of a button has no values of it.
proof fn lemma_no_values(run: Seq<Emission>, button: u16)
    requires
        forall|i: int| 0 <= i < run.len() ==> !is_of(#[trigger] run[i], button),
    ensures
        values_of(run, button) == Seq::<i32>::empty(),
    decreases run.len(),
{
    reveal(Seq::filter);
    if run.len() > 0 {
        lemma_no_values(run.drop_last(), button);
        assert(!is_of(run[run.len() - 1], button));
        assert(run.filter(those_of(button)) == run.drop_last().filter(those_of(button)));
    }
    assert(values_of(run, button) =~= Seq::empty());
}

/// What is taken of a run of two parts.
proof fn lemma_taken_of_two_parts(
    outbox: OutboxModel,
    first: Seq<Emission>,
    second: Seq<Emission>,
)
    ensures
        outbox.accepts(first + second) <==> outbox.accepts(first) && outbox.after(first).accepts(
            second,
        ),
        outbox.taken_of(first + second) == (if outbox.accepts(first) {
            first + outbox.after(first).taken_of(second)
        } else {
            outbox.taken_of(first)
        }),
{
    law_outbox_runs_add_up(outbox, first, second);
    let whole = outbox.after(first + second).taken;
    let start = outbox.taken.len() as int;
    assert(outbox.taken_of(first + second) =~= whole.skip(start));
    if outbox.accepts(first) {
        assert(first + outbox.after(first).taken_of(second) =~= whole.skip(start));
    } else {
        assert(outbox.taken_of(first) =~= whole.skip(start));
    }
}

/// A run that leaves the pen's buttons alone is tracked as before.
proof fn lemma_others_leave_the_track(
    history: Seq<Emission>,
    near: bool,
    touch: bool,
    outbox: OutboxModel,
    run: Seq<Emission>,
)
    requires
        tracks(history, BTN_TOOL_PEN, near),
        tracks(history, BTN_TOUCH, touch),
        leaves_buttons(run),
    ensures
        tracks(history + outbox.taken_of(run), BTN_TOOL_PEN, near),
        tracks(history + outbox.taken_of(run), BTN_TOUCH, touch),
{
    let taken = outbox.taken_of(run);
    lemma_no_values(taken, BTN_TOOL_PEN);
    lemma_no_values(taken, BTN_TOUCH);
    lemma_values_add_up(history, taken, BTN_TOOL_PEN);
    lemma_values_add_up(history, taken, BTN_TOUCH);
    assert(values_of(history + taken, BTN_TOOL_PEN) =~= values_of(history, BTN_TOOL_PEN));
    assert(values_of(history + taken, BTN_TOUCH) =~= values_of(history, BTN_TOUCH));
}

/// A change that is emitted is tracked, if it is remembered exactly where it
/// was taken; the other button is not touched.
proof fn lemma_change_is_tracked(
    history: Seq<Emission>,
    button: u16,
    other: u16,
    before: bool,
    now: bool,
    others_state: bool,
    outbox: OutboxModel,
)
    requires
        button != other,
        tracks(history, button, before),
        tracks(history, other, others_state),
    ensures
        ({
            let run = change_run(button, before, now);
            let after = history + outbox.taken_of(run);
            &&& tracks(
                after,
                button,
                if outbox.accepts(run) {
                    now
                } else {
                    before
                },
            )
            &&& tracks(after, other, others_state)
        }),
{
    let run = change_run(button, before, now);
    let taken = outbox.taken_of(run);
    lemma_values_add_up(history, taken, button);
    lemma_values_add_up(history, taken, other);
    lemma_no_values(taken, other);
    assert(values_of(history + taken, other) =~= values_of(history, other));
    if taken.len() == 0 {
        lemma_no_values(taken, button);
        assert(values_of(history + taken, button) =~= values_of(history, button));
    } else {
        assert(taken =~= run);
        reveal_with_fuel(Seq::filter, 2);
        assert(run.drop_last() =~= Seq::empty());
        assert(values_of(run, button) =~= seq![run[0].event.value]);
        let values = values_of(history, button);
        assert(values_of(history + taken, button) =~= values.push(run[0].event.value));
    }
}

/// The tablet's controls leave the pen's buttons alone, whatever is bound.
proof fn lemma_controls_leave_buttons(map: Map<u8, ActionModel>, before: u16, now: u16, end: nat)
    ensures
        leaves_buttons(tablet_run(map, before, now, end)),
    decreases end,
{
    if end > 0 {
        lemma_controls_leave_buttons(map, before, now, (end - 1) as nat);
        lemma_control_leaves_buttons(map, before, now, (end - 1) as u8);
    }
}

/// So does a single one.
proof fn lemma_control_leaves_buttons(map: Map<u8, ActionModel>, before: u16, now: u16, id: u8)
    ensures
        leaves_buttons(tablet_key_run(map, before, now, id)),
{
}

/// A run that leaves the pen's buttons alone, and then a change of one of them:
/// the change is remembered exactly where all of it was taken.
proof fn lemma_change_after_others_is_tracked(
    history: Seq<Emission>,
    others: Seq<Emission>,
    button: u16,
    other: u16,
    before: bool,
    now: bool,
    others_state: bool,
    outbox: OutboxModel,
)
    requires
        button == BTN_TOOL_PEN && other == BTN_TOUCH || button == BTN_TOUCH && other
            == BTN_TOOL_PEN,
        tracks(history, button, before),
        tracks(history, other, others_state),
        leaves_buttons(others),
    ensures
        ({
            let run = others + change_run(button, before, now);
            let after = history + outbox.taken_of(run);
            &&& tracks(
                after,
                button,
                if outbox.accepts(run) {
                    now
                } else {
                    before
                },
            )
            &&& tracks(after, other, others_state)
        }),
{
    let change = change_run(button, before, now);
    lemma_taken_of_two_parts(outbox, others, change);
    if button == BTN_TOOL_PEN {
        lemma_others_leave_the_track(history, before, others_state, outbox, others);
    } else {
        lemma_others_leave_the_track(history, others_state, before, outbox, others);
    }
    if outbox.accepts(others) {
        let outbox1 = outbox.after(others);
        lemma_change_is_tracked(
            history + others,
            button,
            other,
            before,
            now,
            others_state,
            outbox1,
        );
        assert(history + (others + outbox1.taken_of(change)) =~= history + others
            + outbox1.taken_of(change));
    }
}

/// A change of proximity and a change of touch, with other runs before, between
/// and after.
proof fn lemma_two_changes_are_tracked(
    history: Seq<Emission>,
    first: Seq<Emission>,
    second: Seq<Emission>,
    third: Seq<Emission>,
    near: (bool, bool),
    touch: (bool, bool),
    outbox: OutboxModel,
)
    requires
        tracks(history, BTN_TOOL_PEN, near.0),
        tracks(history, BTN_TOUCH, touch.0),
        leaves_buttons(first),
        leaves_buttons(second),
        leaves_buttons(third),
    ensures
        ({
            let until_near = first + change_run(BTN_TOOL_PEN, near.0, near.1);
            let until_touch = until_near + second + change_run(BTN_TOUCH, touch.0, touch.1);
            let after = history + outbox.taken_of(until_touch + third);
            &&& tracks(
                after,
                BTN_TOOL_PEN,
                if outbox.accepts(until_near) {
                    near.1
                } else {
                    near.0
                },
            )
            &&& tracks(
                after,
                BTN_TOUCH,
                if outbox.accepts(until_touch) {
                    touch.1
                } else {
                    touch.0
                },
            )
        }),
{
    let until_near = first + change_run(BTN_TOOL_PEN, near.0, near.1);
    let then_touch = second + change_run(BTN_TOUCH, touch.0, touch.1);
    let until_touch = until_near + second + change_run(BTN_TOUCH, touch.0, touch.1);
    assert(until_touch =~= until_near + then_touch);
    lemma_taken_of_two_parts(outbox, until_near, then_touch);
    lemma_taken_of_two_parts(outbox, until_touch, third);
    lemma_change_after_others_is_tracked(
        history,
        first,
        BTN_TOOL_PEN,
        BTN_TOUCH,
        near.0,
        near.1,
        touch.0,
        outbox,
    );
    if outbox.accepts(until_near) {
        let outbox1 = outbox.after(until_near);
        lemma_change_after_others_is_tracked(
            history + until_near,
            second,
            BTN_TOUCH,
            BTN_TOOL_PEN,
            touch.0,
            touch.1,
            near.1,
            outbox1,
        );
        assert(history + (until_near + outbox1.taken_of(then_touch)) =~= history + until_near
            + outbox1.taken_of(then_touch));
        if outbox.accepts(until_touch) {
            let outbox2 = outbox.after(until_touch);
            assert(history + until_touch =~= history + until_near + then_touch);
            lemma_others_leave_the_track(
                history + until_touch,
                near.1,
                touch.1,
                outbox2,
                third,
            );
            assert(history + (until_touch + outbox2.taken_of(third)) =~= history + until_touch
                + outbox2.taken_of(third));
        }
    }
}

/// One packet keeps the pen tracked: if the values of its buttons that were
/// taken so far alternate and agree with the memory, they do so after the next
/// packet too, however much of it was taken; and also after the pen's part alone.
pub proof fn law_packet_keeps_the_pen_tracked(
    history: Seq<Emission>,
    model: DispatcherModel,
    data: Seq<u8>,
    clock: PacketClock,
    outbox: OutboxModel,
)
    requires
        pen_is_tracked(history, model.memory),
    ensures
        pen_is_tracked(
            history + outbox.taken_of(dispatch_run(model, data, clock)),
            memory_after_dispatch(model, data, clock, outbox),
        ),
        pen_is_tracked(
            history + outbox.taken_of(pen_run(model, data, clock)),
            memory_after_pen(model, data, clock, outbox),
        ),
{
    let m = model.memory;
    let pressure = packet_pressure(data);
    let buttons = pen_button_run(
        model.pen_map,
        m.pen_last_raw_pressed_button,
        packet_pen_button(data),
    );
    let position = position_run(
        m,
        rotated(packet_x(data)),
        rotated(packet_y(data)),
        output_pressure(pressure),
    );
    lemma_controls_leave_buttons(
        model.tablet_map,
        m.tablet_last_raw_pressed_buttons,
        packet_tablet_buttons(data),
        TABLET_BUTTON_END as nat,
    );
    let near = (m.was_in_range, in_range(last_sign(m, pressure, clock), clock.checked_at));
    let touch = (m.was_touching, touching(m.was_touching, pressure));
    lemma_two_changes_are_tracked(
        history,
        buttons,
        position,
        controls_run(model, data),
        near,
        touch,
        outbox,
    );
    lemma_two_changes_are_tracked(history, buttons, position, Seq::empty(), near, touch, outbox);
    assert(pen_run(model, data, clock) + Seq::<Emission>::empty() =~= pen_run(model, data, clock));
}

/// Every call keeps the pen tracked.
pub proof fn law_call_keeps_the_pen_tracked(
    history: Seq<Emission>,
    model: DispatcherModel,
    call: Call,
)
    requires
        pen_is_tracked(history, model.memory),
    ensures
        pen_is_tracked(history + call.taken(model), call.memory_after(model)),
{
    let m = model.memory;
    match call {
        Call::Packet { data, clock, outbox } => {
            law_packet_keeps_the_pen_tracked(history, model, data, clock, outbox);
        },
        Call::Pen { data, clock, outbox } => {
            law_packet_keeps_the_pen_tracked(history, model, data, clock, outbox);
        },
        Call::Proximity { pressure, clock, outbox } => {
            lemma_change_is_tracked(
                history,
                BTN_TOOL_PEN,
                BTN_TOUCH,
                m.was_in_range,
                in_range(last_sign(m, pressure, clock), clock.checked_at),
                m.was_touching,
                outbox,
            );
        },
        Call::Touch { pressure, outbox } => {
            lemma_change_is_tracked(
                history,
                BTN_TOUCH,
                BTN_TOOL_PEN,
                m.was_touching,
                touching(m.was_touching, pressure),
                m.was_in_range,
                outbox,
            );
        },
        _ => {
            lemma_rest_leaves_buttons(model, call);
            lemma_others_leave_the_track(
                history,
                m.was_in_range,
                m.was_touching,
                call.outbox(),
                call.run(model),
            );
        },
    }
}

/// Calls that handle neither the pen's proximity nor its touch leave its buttons
/// alone, and what is remembered of them.
proof fn lemma_rest_leaves_buttons(model: DispatcherModel, call: Call)
    requires
        !(call is Packet || call is Pen || call is Proximity || call is Touch),
    ensures
        leaves_buttons(call.run(model)),
        call.memory_after(model).was_in_range == model.memory.was_in_range,
        call.memory_after(model).was_touching == model.memory.was_touching,
{
    let before = model.memory.tablet_last_raw_pressed_buttons;
    match call {
        Call::Tablet { data, .. } => {
            lemma_controls_leave_buttons(
                model.tablet_map,
                before,
                packet_tablet_buttons(data),
                TABLET_BUTTON_END as nat,
            );
        },
        Call::Controls { buttons, .. } => {
            lemma_controls_leave_buttons(
                model.tablet_map,
                before,
                buttons,
                TABLET_BUTTON_END as nat,
            );
        },
        Call::Control { id, buttons, .. } => {
            lemma_control_leaves_buttons(model.tablet_map, before, buttons, id);
        },
        _ => {},
    }
}

/// Over any history of a new dispatcher, whatever its bindings, the values that
/// the system has seen of "in range" alternate from the first press on, and so
/// do those of "touches"; and the memory says of each what the last one said.
pub proof fn law_pen_buttons_alternate(model: DispatcherModel, calls: Seq<Call>)
    requires
        model.memory == fresh_memory(),
    ensures
        ({
            let (after, history) = after_calls(model, calls);
            let tools = values_of(history, BTN_TOOL_PEN);
            let touches = values_of(history, BTN_TOUCH);
            &&& alternate(tools)
            &&& after.memory.was_in_range <==> tools.len() > 0 && tools.last() == PRESSED
            &&& alternate(touches)
            &&& after.memory.was_touching <==> touches.len() > 0 && touches.last() == PRESSED
        }),
    decreases calls.len(),
{
    if calls.len() == 0 {
        lemma_no_values(Seq::empty(), BTN_TOOL_PEN);
        lemma_no_values(Seq::empty(), BTN_TOUCH);
    } else {
        law_pen_buttons_alternate(model, calls.drop_last());
        let (before, history) = after_calls(model, calls.drop_last());
        law_call_keeps_the_pen_tracked(history, before, calls.last());
    }
}

/// A change of "in range" that was refused is not remembered, so the same
/// readings bring it again. The same holds of "touches".
pub proof fn law_refused_change_is_tried_again(
    model: DispatcherModel,
    pressure: int,
    clock: PacketClock,
    outbox: OutboxModel,
)
    ensures
        ({
            let call = Call::Proximity { pressure, clock, outbox };
            let after = call.memory_after(model);
            !outbox.accepts(call.run(model)) ==> {
                &&& after.was_in_range == model.memory.was_in_range
                &&& proximity_run(after, pressure, clock) == call.run(model)
            }
        }),
        ({
            let call = Call::Touch { pressure, outbox };
            let after = call.memory_after(model);
            !outbox.accepts(call.run(model)) ==> {
                &&& after == model.memory
                &&& touch_run(after, pressure) == call.run(model)
            }
        }),
{
}

/// No series of calls changes the bindings.
pub proof fn law_calls_keep_the_bindings(model: DispatcherModel, calls: Seq<Call>)
    ensures
        after_calls(model, calls).0.tablet_map == model.tablet_map,
        after_calls(model, calls).0.pen_map == model.pen_map,
    decreases calls.len(),
{
    if calls.len() > 0 {
        law_calls_keep_the_bindings(model, calls.drop_last());
    }
}

/// Whatever a call emits is advertised.
pub proof fn law_call_is_advertised(model: DispatcherModel, call: Call)
    ensures
        all_advertised(model, call.run(model)),
{
    let m = model.memory;
    let before = m.tablet_last_raw_pressed_buttons;
    match call {
        Call::Packet { data, clock, .. } => law_every_emission_is_advertised(model, data, clock),
        Call::Pen { data, clock, .. } => law_every_emission_is_advertised(model, data, clock),
        Call::PenButtons { button, .. } => law_pulse_is_advertised(
            model,
            m.pen_last_raw_pressed_button,
            button,
        ),
        Call::Position { raw_x, raw_y, pressure, .. } => law_position_is_advertised(
            model,
            rotated(raw_x),
            rotated(raw_y),
            pressure,
        ),
        Call::Tablet { data, .. } => law_controls_are_advertised(
            model,
            before,
            packet_tablet_buttons(data),
            TABLET_BUTTON_END as nat,
        ),
        Call::Controls { buttons, .. } => law_controls_are_advertised(
            model,
            before,
            buttons,
            TABLET_BUTTON_END as nat,
        ),
        Call::Control { id, buttons, .. } => law_control_is_advertised(model, before, buttons, id),
        _ => {},
    }
}

/// Devices that were set up for a dispatcher advertise everything that it ever
/// emits, whatever calls follow.
pub proof fn law_history_is_advertised(model: DispatcherModel, calls: Seq<Call>)
    ensures
        all_advertised(model, after_calls(model, calls).1),
    decreases calls.len(),
{
    if calls.len() > 0 {
        let (before, history) = after_calls(model, calls.drop_last());
        let call = calls.last();
        law_history_is_advertised(model, calls.drop_last());
        law_calls_keep_the_bindings(model, calls.drop_last());
        law_call_is_advertised(before, call);
        assert forall|device: VirtualDevice| #[trigger]
            setup_for(before, device) == setup_for(model, device) by {
            law_setups_do_not_depend_on_the_memory(model, before.memory, device);
        }
        let taken = call.taken(before);
        assert forall|i: int| 0 <= i < taken.len() implies advertises(
            setup_for(model, (#[trigger] taken[i]).device),
            taken[i].event,
        ) by {
            assert(taken[i] == call.run(before)[i]);
        }
    }
}

/// Whether a call went as it should: what it emitted, how far that got, what its
/// caller was told, and what the dispatcher then is. The bindings stay.
pub open spec fn goes_as(
    call: Call,
    before: DispatcherModel,
    after: DispatcherModel,
    outbox: OutboxModel,
    result: Result<(), EmitError>,
) -> bool {
    &&& outbox.taken == call.outbox().taken + call.taken(before)
    &&& outbox.limit == call.outbox().limit
    &&& result is Ok <==> call.taken(before) == call.run(before)
    &&& after.memory == call.memory_after(before)
    &&& after.tablet_map == before.tablet_map
    &&& after.pen_map == before.pen_map
}

/// The pen's calls do what is said of them here, from the bytes that they are
/// given: so what holds of any series of calls holds of a dispatcher in use.
pub proof fn law_pen_calls_go_as_said()
    ensures
        forall|dispatcher: &mut DeviceDispatcher, reader: &RawDataReader, clock: PacketClock, out: &mut Outbox, result: Result<(), EmitError>| #[trigger]
            call_ensures(DeviceDispatcher::dispatch, (dispatcher, reader, clock, out), result) ==> goes_as(
                Call::Packet { data: reader@, clock, outbox: out@ },
                dispatcher@,
                final(dispatcher)@,
                final(out)@,
                result,
            ),
        forall|dispatcher: &mut DeviceDispatcher, reader: &RawDataReader, clock: PacketClock, out: &mut Outbox, result: Result<(), EmitError>| #[trigger]
            call_ensures(DeviceDispatcher::emit_pen_events, (dispatcher, reader, clock, out), result) ==> goes_as(
                Call::Pen { data: reader@, clock, outbox: out@ },
                dispatcher@,
                final(dispatcher)@,
                final(out)@,
                result,
            ),
        forall|dispatcher: &DeviceDispatcher, button: u8, out: &mut Outbox, result: Result<(), EmitError>| #[trigger]
            call_ensures(DeviceDispatcher::raw_pen_buttons_to_pen_key_events, (dispatcher, button, out), result) ==> goes_as(
                Call::PenButtons { button, outbox: out@ },
                dispatcher@,
                dispatcher@,
                final(out)@,
                result,
            ),
        forall|dispatcher: &mut DeviceDispatcher, reader: &RawDataReader, clock: PacketClock, out: &mut Outbox, result: Result<(), EmitError>| #[trigger]
            call_ensures(DeviceDispatcher::pen_emit_proximity, (dispatcher, reader, clock, out), result) ==> goes_as(
                Call::Proximity { pressure: 256 * reader@[5] + reader@[6], clock, outbox: out@ },
                dispatcher@,
                final(dispatcher)@,
                final(out)@,
                result,
            ),
        forall|dispatcher: &mut DeviceDispatcher, x: i32, y: i32, pressure: i32, out: &mut Outbox, result: Result<(), EmitError>| #[trigger]
            call_ensures(DeviceDispatcher::raw_pen_abs_to_pen_abs_events, (dispatcher, x, y, pressure, out), result) ==> goes_as(
                Call::Position {
                    raw_x: x as int,
                    raw_y: y as int,
                    pressure: pressure as int,
                    outbox: out@,
                },
                dispatcher@,
                final(dispatcher)@,
                final(out)@,
                result,
            ),
        forall|dispatcher: &mut DeviceDispatcher, reader: &RawDataReader, out: &mut Outbox, result: Result<(), EmitError>| #[trigger]
            call_ensures(DeviceDispatcher::pen_emit_touch, (dispatcher, reader, out), result) ==> goes_as(
                Call::Touch { pressure: 256 * reader@[5] + reader@[6], outbox: out@ },
                dispatcher@,
                final(dispatcher)@,
                final(out)@,
                result,
            ),
{
    lemma_whole_or_less();
}

/// The tablet's calls do so too, and so does the synchronization.
pub proof fn law_tablet_calls_go_as_said()
    ensures
        forall|dispatcher: &mut DeviceDispatcher, reader: &RawDataReader, out: &mut Outbox, result: Result<(), EmitError>| #[trigger]
            call_ensures(DeviceDispatcher::emit_tablet_events, (dispatcher, reader, out), result) ==> goes_as(
                Call::Tablet { data: reader@, outbox: out@ },
                dispatcher@,
                final(dispatcher)@,
                final(out)@,
                result,
            ),
        forall|dispatcher: &DeviceDispatcher, buttons: u16, out: &mut Outbox, result: Result<(), EmitError>| #[trigger]
            call_ensures(DeviceDispatcher::binary_flags_to_tablet_key_events, (dispatcher, buttons, out), result) ==> goes_as(
                Call::Controls { buttons, outbox: out@ },
                dispatcher@,
                dispatcher@,
                final(out)@,
                result,
            ),
        forall|dispatcher: &DeviceDispatcher, id: u8, buttons: u16, out: &mut Outbox, result: Result<(), EmitError>| #[trigger]
            call_ensures(DeviceDispatcher::emit_tablet_key_event, (dispatcher, id, buttons, out), result) ==> goes_as(
                Call::Control { id, buttons, outbox: out@ },
                dispatcher@,
                dispatcher@,
                final(out)@,
                result,
            ),
        forall|dispatcher: &DeviceDispatcher, out: &mut Outbox, result: Result<(), EmitError>| #[trigger]
            call_ensures(DeviceDispatcher::syn, (dispatcher, out), result) ==> goes_as(
                Call::Syn { outbox: out@ },
                dispatcher@,
                dispatcher@,
                final(out)@,
                result,
            ),
{
    lemma_whole_or_less();
}

/// A run is accepted exactly if what is taken of it is all of it.
proof fn lemma_whole_or_less()
    ensures
        forall|outbox: OutboxModel, run: Seq<Emission>| #[trigger]
            outbox.accepts(run) <==> outbox.taken_of(run) == run,
{
    assert forall|outbox: OutboxModel, run: Seq<Emission>| #[trigger]
        outbox.accepts(run) <==> outbox.taken_of(run) == run by {
        if !outbox.accepts(run) {
            assert(outbox.taken_of(run).len() < run.len());
        }
    }
}

/// A preview is all that the packet would emit, and changes nothing.
pub proof fn law_preview_is_what_would_come()
    ensures
        forall|dispatcher: &mut DeviceDispatcher, reader: &RawDataReader, clock: PacketClock,
            run: Vec<Emission>| #[trigger]
            call_ensures(DeviceDispatcher::preview, (dispatcher, reader, clock), run) ==> {
                &&& run@ == (Call::Packet {
                    data: reader@,
                    clock,
                    outbox: OutboxModel { taken: Seq::empty(), limit: None },
                }).taken(dispatcher@)
                &&& final(dispatcher)@ == dispatcher@
            },
{
}

} // verus!
