//! The functions a listener hands its work to, each kept with the record of
//! all it was handed, in order: the dispatcher that sends dispatchers to
//! Hyprland, and the executor that runs the handlers of an event.
use vstd::prelude::*;
use crate::dispatch::{dispatch_text, DispatchType};
use crate::error::HyprError;
use crate::event_listener::shared::{Event, EventView};

verus! {

/// A function that sends dispatchers, with the texts (as on the dispatch
/// socket) of every dispatcher it was handed so far.
pub struct DispatchSender<F> {
    f: F,
    sent: Ghost<Seq<Seq<char>>>,
}

impl<F: Fn(DispatchType) -> Result<(), HyprError>> DispatchSender<F> {
    /// The function that sends.
    pub closed spec fn dispatcher(&self) -> F {
        self.f
    }

    /// The texts of the dispatchers handed to it so far, in order.
    pub closed spec fn sent(&self) -> Seq<Seq<char>> {
        self.sent@
    }

    /// A sender that was handed nothing yet.
    pub fn new(f: F) -> (res: Self)
        ensures
            res.dispatcher() == f,
            res.sent() == Seq::<Seq<char>>::empty(),
    {
        DispatchSender { f, sent: Ghost(Seq::empty()) }
    }

    /// Hands one dispatcher to the function and gives back its answer.
    pub fn send(&mut self, d: DispatchType) -> (res: Result<(), HyprError>)
        requires
            old(self).dispatcher().requires((d,)),
        ensures
            final(self).dispatcher() == old(self).dispatcher(),
            final(self).sent() == old(self).sent().push(dispatch_text(d, " "@)),
            call_ensures(old(self).dispatcher(), (d,), res),
    {
        let ghost t = dispatch_text(d, " "@);
        let r = (self.f)(d);
        self.sent = Ghost(self.sent@.push(t));
        r
    }
}

/// A function that runs the handlers of an event, with the models of every
/// event it was handed so far.
pub struct EventExecutor<F> {
    f: F,
    handed: Ghost<Seq<EventView>>,
}

impl<F: Fn(Event) -> Result<(), HyprError>> EventExecutor<F> {
    /// The function that runs the handlers.
    pub closed spec fn executor(&self) -> F {
        self.f
    }

    /// The events handed to it so far, in order.
    pub closed spec fn handed(&self) -> Seq<EventView> {
        self.handed@
    }

    /// An executor that was handed nothing yet.
    pub fn new(f: F) -> (res: Self)
        ensures
            res.executor() == f,
            res.handed() == Seq::<EventView>::empty(),
    {
        EventExecutor { f, handed: Ghost(Seq::empty()) }
    }

    /// Hands one event to the function and gives back its answer.
    pub fn run(&mut self, e: Event) -> (res: Result<(), HyprError>)
        requires
            old(self).executor().requires((e,)),
        ensures
            final(self).executor() == old(self).executor(),
            final(self).handed() == old(self).handed().push(e@),
            call_ensures(old(self).executor(), (e,), res),
    {
        let ghost v = e@;
        let r = (self.f)(e);
        self.handed = Ghost(self.handed@.push(v));
        r
    }
}

/// That the executor `f`, handed an event whose model is `ev`, answered `r`.
pub open spec fn event_answered<F: Fn(Event) -> Result<(), HyprError>>(f: F, ev: EventView, r: Result<(), HyprError>) -> bool {
    exists|e: Event| e@ == ev && #[trigger] call_ensures(f, (e,), r)
}

} // verus!
