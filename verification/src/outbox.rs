//! Where emissions go: an outbox takes them one after the other, until the
//! devices behind it refuse one.

use vstd::prelude::*;

use crate::input::{syn_emission, Emission, EventType, InputEvent, VirtualDevice, SYN_REPORT};

verus! {

/// Why a round of emissions stopped early.
#[derive(Clone, Copy, PartialEq, Eq, Structural, Debug)]
pub enum EmitError {
    /// A device did not take the emission that it was handed.
    Refused,
}

/// The emissions that were taken so far, and how many the devices take in all.
///
/// A round of emissions ends at the first refusal, so the devices' replies are
/// summed up by one number: how many emissions they take before they refuse
/// one. Without such a number they take all.
pub struct Outbox {
    taken: Vec<Emission>,
    limit: Option<usize>,
}

/// What an [`Outbox`] stands for.
#[verifier::ext_equal]
pub struct OutboxModel {
    /// The emissions that were taken, oldest first.
    pub taken: Seq<Emission>,
    /// How many are taken in all; `None` if there is no bound.
    pub limit: Option<nat>,
}

impl OutboxModel {
    /// Whether a whole run of emissions is taken.
    pub open spec fn accepts(self, run: Seq<Emission>) -> bool {
        match self.limit {
            Some(limit) => run.len() == 0 || self.taken.len() + run.len() <= limit,
            None => true,
        }
    }

    /// What the sender of a run of emissions is told.
    pub open spec fn reply(self, run: Seq<Emission>) -> Result<(), EmitError> {
        if self.accepts(run) {
            Ok(())
        } else {
            Err(EmitError::Refused)
        }
    }

    /// How much of a run of emissions is taken: all of it, or what there is
    /// room for.
    pub open spec fn taken_of(self, run: Seq<Emission>) -> Seq<Emission> {
        if self.accepts(run) {
            run
        } else if self.limit->0 <= self.taken.len() {
            Seq::empty()
        } else {
            run.take(self.limit->0 - self.taken.len())
        }
    }

    /// The outbox once a run of emissions was handed to it.
    pub open spec fn after(self, run: Seq<Emission>) -> OutboxModel {
        OutboxModel { taken: self.taken + self.taken_of(run), limit: self.limit }
    }
}

impl View for Outbox {
    type V = OutboxModel;

    closed spec fn view(&self) -> OutboxModel {
        OutboxModel {
            taken: self.taken@,
            limit: match self.limit {
                Some(limit) => Some(limit as nat),
                None => None,
            },
        }
    }
}

impl Outbox {
    /// An empty outbox whose devices take everything.
    pub fn open() -> (outbox: Outbox)
        ensures
            outbox@ == (OutboxModel { taken: Seq::empty(), limit: None }),
    {
        Outbox { taken: Vec::new(), limit: None }
    }

    /// An empty outbox whose devices take `count` emissions and refuse the next.
    pub fn taking(count: usize) -> (outbox: Outbox)
        ensures
            outbox@ == (OutboxModel { taken: Seq::empty(), limit: Some(count as nat) }),
    {
        Outbox { taken: Vec::new(), limit: Some(count) }
    }

    /// The emissions that were taken, oldest first.
    pub fn taken(&self) -> (taken: &Vec<Emission>)
        ensures
            taken@ == self@.taken,
    {
        &self.taken
    }

    /// The emissions that were taken, handed out.
    pub fn into_taken(self) -> (taken: Vec<Emission>)
        ensures
            taken@ == self@.taken,
    {
        self.taken
    }

    /// Hands one emission to the devices.
    pub fn emit(&mut self, device: VirtualDevice, event: InputEvent) -> (result: Result<
        (),
        EmitError,
    >)
        ensures
            final(self)@ == old(self)@.after(seq![Emission { device, event }]),
            result == old(self)@.reply(seq![Emission { device, event }]),
    {
        if let Some(limit) = self.limit {
            if self.taken.len() >= limit {
                assert(self.taken@ + Seq::<Emission>::empty() =~= self.taken@);
                return Err(EmitError::Refused);
            }
        }
        self.taken.push(Emission { device, event });
        assert(old(self).taken@ + seq![Emission { device, event }] =~= self.taken@);
        Ok(())
    }

    /// Ends a frame on a device.
    pub fn emit_syn(&mut self, device: VirtualDevice) -> (result: Result<(), EmitError>)
        ensures
            final(self)@ == old(self)@.after(seq![syn_emission(device)]),
            result == old(self)@.reply(seq![syn_emission(device)]),
    {
        self.emit(device, InputEvent::new(EventType::Synchronization, SYN_REPORT, 0))
    }
}

/// Two runs in a row are taken like their concatenation: the second one only
/// once the first one was taken whole.
pub proof fn law_outbox_runs_add_up(outbox: OutboxModel, first: Seq<Emission>, second: Seq<Emission>)
    ensures
        outbox.accepts(first + second) <==> outbox.accepts(first) && outbox.after(first).accepts(second),
        outbox.after(first + second) == (if outbox.accepts(first) {
            outbox.after(first).after(second)
        } else {
            outbox.after(first)
        }),
{
    let both = first + second;
    if first.len() == 0 {
        assert(both =~= second);
        assert(outbox.taken + first =~= outbox.taken);
    } else if second.len() == 0 {
        assert(both =~= first);
        assert(outbox.after(first).taken + second =~= outbox.after(first).taken);
    } else if !outbox.accepts(first) {
        assert(outbox.taken_of(both) =~= outbox.taken_of(first));
    } else if !outbox.accepts(both) {
        let room = outbox.limit->0 - outbox.taken.len();
        assert(both.take(room) =~= first + second.take(room - first.len()));
        assert(outbox.after(both).taken =~= outbox.after(first).after(second).taken);
    } else {
        assert(outbox.after(both).taken =~= outbox.after(first).after(second).taken);
    }
}

/// What is taken of a run is a beginning of it: all of it if it is accepted,
/// and otherwise just as much as there was room for.
pub proof fn law_a_beginning_is_taken(outbox: OutboxModel, run: Seq<Emission>)
    requires
        outbox.limit matches Some(limit) ==> outbox.taken.len() <= limit,
    ensures
        ({
            let taken = outbox.taken_of(run);
            &&& taken.len() <= run.len()
            &&& taken == run.take(taken.len() as int)
            &&& outbox.accepts(run) <==> taken == run
            &&& !outbox.accepts(run) ==> outbox.after(run).taken.len() == outbox.limit->0
            &&& outbox.limit matches Some(limit) ==> outbox.after(run).taken.len() <= limit
        }),
{
    let taken = outbox.taken_of(run);
    assert(taken =~= run.take(taken.len() as int));
}

/// One emission at a time: it is taken as long as fewer were taken than the
/// devices take in all, and joins the others at the end; otherwise it is refused
/// and leaves no trace. How many the devices take never changes.
pub proof fn law_emission_is_taken_while_there_is_room(outbox: OutboxModel, emission: Emission)
    ensures
        ({
            let room = match outbox.limit {
                Some(limit) => outbox.taken.len() < limit,
                None => true,
            };
            let after = outbox.after(seq![emission]);
            &&& outbox.accepts(seq![emission]) == room
            &&& outbox.reply(seq![emission]) is Ok <==> room
            &&& room ==> after.taken == outbox.taken.push(emission)
            &&& !room ==> after.taken == outbox.taken
            &&& after.limit == outbox.limit
        }),
{
    assert(outbox.taken + seq![emission] =~= outbox.taken.push(emission));
    assert(outbox.taken + Seq::<Emission>::empty() =~= outbox.taken);
}

/// Nothing to emit is always taken, and changes nothing.
pub proof fn law_nothing_is_always_taken(outbox: OutboxModel)
    ensures
        outbox.accepts(Seq::empty()),
        outbox.after(Seq::empty()) == outbox,
{
    assert(outbox.taken + Seq::<Emission>::empty() =~= outbox.taken);
}

/// The sender is told that all went well exactly if the whole run was taken. What
/// was taken of it follows what was there.
pub proof fn law_sender_is_told_the_truth(outbox: OutboxModel, run: Seq<Emission>)
    ensures
        outbox.reply(run) == Ok::<(), EmitError>(()) <==> outbox.after(run).taken == outbox.taken
            + run,
        outbox.reply(run) != Ok::<(), EmitError>(()) ==> outbox.reply(run) == Err::<(), EmitError>(
            EmitError::Refused,
        ),
        outbox.after(run).taken == outbox.taken + outbox.taken_of(run),
{
    if !outbox.accepts(run) {
        assert(outbox.after(run).taken.len() < (outbox.taken + run).len());
    }
}

/// An outbox takes an emission as is said of it; a new one is empty, and takes
/// everything or as many as it is told.
pub proof fn law_outbox_goes_as_said(count: usize)
    ensures
        forall|out: &mut Outbox, device: VirtualDevice, event: InputEvent,
            result: Result<(), EmitError>| #[trigger]
            call_ensures(Outbox::emit, (out, device, event), result) ==> {
                &&& final(out)@ == out@.after(seq![Emission { device, event }])
                &&& result is Ok <==> out@.accepts(seq![Emission { device, event }])
            },
        forall|out: &mut Outbox, device: VirtualDevice, result: Result<(), EmitError>| #[trigger]
            call_ensures(Outbox::emit_syn, (out, device), result) ==> {
                let event = InputEvent {
                    event_type: EventType::Synchronization,
                    code: 0,
                    value: 0,
                };
                &&& final(out)@ == out@.after(seq![Emission { device, event }])
                &&& result is Ok <==> out@.accepts(seq![Emission { device, event }])
            },
        forall|out: Outbox| #[trigger]
            call_ensures(Outbox::open, (), out) ==> out@.taken.len() == 0 && out@.limit is None,
        forall|out: Outbox| #[trigger]
            call_ensures(Outbox::taking, (count,), out) ==> out@.taken.len() == 0 && out@.limit
                == Some(count as nat),
        forall|out: Outbox, taken: &Vec<Emission>| #[trigger]
            call_ensures(Outbox::taken, (&out,), taken) ==> taken@ == out@.taken,
        forall|out: Outbox, taken: Vec<Emission>| #[trigger]
            call_ensures(Outbox::into_taken, (out,), taken) ==> taken@ == out@.taken,
{
}

} // verus!
