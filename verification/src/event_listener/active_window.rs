//! Merging the two events Hyprland sends when the active window changes
//! (`activewindow` with class and title, `activewindowv2` with the address)
//! into one `ActiveWindowChanged` event.
use vstd::prelude::*;
use crate::error::HyprError;
use crate::event_listener::calls::{event_answered, EventExecutor};
use crate::event_listener::shared::{Event, EventView, WindowEventData};
use crate::shared::Address;

verus! {

/// One part of the active window as it is being gathered.
#[derive(Clone, Debug, PartialEq, Eq)]
pub enum ActiveWindowValue<T> {
    /// The value that arrived
    Queued(T),
    /// There is no active window
    NoWindow,
    /// Nothing arrived yet
    Empty,
}

impl<T: View> View for ActiveWindowValue<T> {
    type V = ActiveWindowValue<T::V>;

    open spec fn view(&self) -> ActiveWindowValue<T::V> {
        match self {
            ActiveWindowValue::Queued(v) => ActiveWindowValue::Queued(v@),
            ActiveWindowValue::NoWindow => ActiveWindowValue::NoWindow,
            ActiveWindowValue::Empty => ActiveWindowValue::Empty,
        }
    }
}

impl<T> ActiveWindowValue<T> {
    /// Forgets the value.
    pub fn reset(&mut self)
        ensures
            *final(self) is Empty,
    {
        *self = Self::Empty;
    }

    /// Whether nothing arrived yet.
    pub fn is_empty(&self) -> (res: bool)
        ensures
            res == (*self is Empty),
    {
        matches!(self, Self::Empty)
    }
}

/// The two parts of an `activewindow` event's data: class and title both
/// queued, or both `None` when there is no active window.
pub fn into<T>(from: Option<(T, T)>) -> (res: (ActiveWindowValue<T>, ActiveWindowValue<T>))
    ensures
        res == (match from {
            Some((first, second)) => (ActiveWindowValue::Queued(first), ActiveWindowValue::Queued(second)),
            None => (ActiveWindowValue::<T>::NoWindow, ActiveWindowValue::<T>::NoWindow),
        }),
{
    if let Some((first, second)) = from {
        (ActiveWindowValue::Queued(first), ActiveWindowValue::Queued(second))
    } else {
        (ActiveWindowValue::NoWindow, ActiveWindowValue::NoWindow)
    }
}

/// The value an `activewindowv2` event's data gives the address.
pub fn value_of_option<T>(value: Option<T>) -> (res: ActiveWindowValue<T>)
    ensures
        res == (match value {
            Some(v) => ActiveWindowValue::Queued(v),
            None => ActiveWindowValue::<T>::NoWindow,
        }),
{
    match value {
        Some(v) => ActiveWindowValue::Queued(v),
        None => ActiveWindowValue::NoWindow,
    }
}


/// The active window as gathered from the two events.
#[derive(Clone, Debug, PartialEq, Eq)]
pub struct ActiveWindowState {
    /// The window class
    pub class: ActiveWindowValue<String>,
    /// The window title
    pub title: ActiveWindowValue<String>,
    /// The window address
    pub addr: ActiveWindowValue<Address>,
}

/// The model of an `ActiveWindowState`: the texts of its three parts.
pub struct ActiveWindowStateView {
    pub class: ActiveWindowValue<Seq<char>>,
    pub title: ActiveWindowValue<Seq<char>>,
    pub addr: ActiveWindowValue<Seq<char>>,
}

impl View for ActiveWindowState {
    type V = ActiveWindowStateView;

    open spec fn view(&self) -> ActiveWindowStateView {
        ActiveWindowStateView { class: self.class@, title: self.title@, addr: self.addr@ }
    }
}

/// A state where nothing arrived yet.
pub open spec fn empty_state() -> ActiveWindowStateView {
    ActiveWindowStateView {
        class: ActiveWindowValue::Empty,
        title: ActiveWindowValue::Empty,
        addr: ActiveWindowValue::Empty,
    }
}

/// Whether all three parts arrived.
pub open spec fn state_ready(s: ActiveWindowStateView) -> bool {
    !(s.class is Empty) && !(s.title is Empty) && !(s.addr is Empty)
}

/// The event a state gives: the window when all three parts are queued,
/// no window when all three are `None`, and nothing otherwise.
pub open spec fn state_event(s: ActiveWindowStateView) -> Option<EventView> {
    match (s.title, s.class, s.addr) {
        (ActiveWindowValue::Queued(t), ActiveWindowValue::Queued(c), ActiveWindowValue::Queued(a)) =>
            Some(EventView::ActiveWindowChanged(Some((c, t, a)))),
        (ActiveWindowValue::NoWindow, ActiveWindowValue::NoWindow, ActiveWindowValue::NoWindow) =>
            Some(EventView::ActiveWindowChanged(None)),
        _ => None,
    }
}

/// The state after its event was taken: emptied when it gave a window,
/// unchanged otherwise.
pub open spec fn state_after_event(s: ActiveWindowStateView) -> ActiveWindowStateView {
    match (s.title, s.class, s.addr) {
        (ActiveWindowValue::Queued(_), ActiveWindowValue::Queued(_), ActiveWindowValue::Queued(_)) =>
            empty_state(),
        _ => s,
    }
}

/// The model of an optional event.
pub open spec fn option_event_view(e: Option<Event>) -> Option<EventView> {
    match e {
        Some(ev) => Some(ev@),
        None => None,
    }
}

fn copy_text_value(v: &ActiveWindowValue<String>) -> (res: ActiveWindowValue<String>)
    ensures
        res@ == v@,
{
    match v {
        ActiveWindowValue::Queued(s) => ActiveWindowValue::Queued(s.clone()),
        ActiveWindowValue::NoWindow => ActiveWindowValue::NoWindow,
        ActiveWindowValue::Empty => ActiveWindowValue::Empty,
    }
}

fn copy_address_value(v: &ActiveWindowValue<Address>) -> (res: ActiveWindowValue<Address>)
    ensures
        res@ == v@,
{
    match v {
        ActiveWindowValue::Queued(a) => ActiveWindowValue::Queued(Address(a.0.clone())),
        ActiveWindowValue::NoWindow => ActiveWindowValue::NoWindow,
        ActiveWindowValue::Empty => ActiveWindowValue::Empty,
    }
}

impl ActiveWindowState {
    /// A state where nothing arrived yet.
    pub fn new() -> (res: Self)
        ensures
            res@ == empty_state(),
    {
        ActiveWindowState {
            class: ActiveWindowValue::Empty,
            title: ActiveWindowValue::Empty,
            addr: ActiveWindowValue::Empty,
        }
    }

    /// Whether all three parts arrived.
    pub fn ready(&self) -> (res: bool)
        ensures
            res == state_ready(self@),
    {
        !self.class.is_empty() && !self.title.is_empty() && !self.addr.is_empty()
    }

    /// Forgets all three parts.
    pub fn reset(&mut self)
        ensures
            final(self)@ == empty_state(),
    {
        self.class.reset();
        self.title.reset();
        self.addr.reset();
    }

    /// The event the gathered parts make, if any; a window that was given
    /// out is forgotten.
    pub fn get_event(&mut self) -> (res: Option<Event>)
        ensures
            option_event_view(res) == state_event(old(self)@),
            final(self)@ == state_after_event(old(self)@),
    {
        let mut event: Option<Event> = Option::None;
        let mut given = false;
        if let (ActiveWindowValue::Queued(title), ActiveWindowValue::Queued(class), ActiveWindowValue::Queued(addr))
            = (&self.title, &self.class, &self.addr) {
            event = Some(Event::ActiveWindowChanged(Some(WindowEventData {
                class: class.clone(),
                title: title.clone(),
                address: Address(addr.0.clone()),
            })));
            given = true;
        } else if let (ActiveWindowValue::NoWindow, ActiveWindowValue::NoWindow, ActiveWindowValue::NoWindow)
            = (&self.title, &self.class, &self.addr) {
            event = Some(Event::ActiveWindowChanged(Option::None));
        }
        if given {
            self.reset();
        }
        event
    }

    /// Hands the event the gathered parts make, if any, to the executor, and
    /// gives back its answer; a window that was handed on is forgotten. An
    /// executor that fails leaves the state as it was.
    pub fn execute<F: Fn(Event) -> Result<(), HyprError>>(&mut self, listener: &mut EventExecutor<F>) -> (res: Result<(), HyprError>)
        requires
            forall|e: Event| #[trigger] old(listener).executor().requires((e,)),
        ensures
            final(listener).executor() == old(listener).executor(),
            final(listener).handed() == old(listener).handed() + optional_events(state_event(old(self)@)),
            state_event(old(self)@) matches Some(ev) ==> event_answered(old(listener).executor(), ev, res),
            state_event(old(self)@) is None ==> res is Ok && final(self)@ == old(self)@,
            res is Ok ==> final(self)@ == state_after_event(old(self)@),
            res is Err ==> final(self)@ == old(self)@,
    {
        let ghost f = listener.executor();
        if let (ActiveWindowValue::Queued(title), ActiveWindowValue::Queued(class), ActiveWindowValue::Queued(addr))
            = (&self.title, &self.class, &self.addr) {
            let ev = Event::ActiveWindowChanged(Some(WindowEventData {
                class: class.clone(),
                title: title.clone(),
                address: Address(addr.0.clone()),
            }));
            let ghost evv = ev@;
            assert(state_event(self@) == Some(evv));
            let r = listener.run(ev);
            assert(event_answered(f, evv, r));
            assert(optional_events(Some(evv)) =~= seq![evv]);
            if r.is_ok() {
                self.reset();
            }
            return r;
        } else if let (ActiveWindowValue::NoWindow, ActiveWindowValue::NoWindow, ActiveWindowValue::NoWindow)
            = (&self.title, &self.class, &self.addr) {
            let ev = Event::ActiveWindowChanged(Option::None);
            let ghost evv = ev@;
            let r = listener.run(ev);
            assert(event_answered(f, evv, r));
            assert(optional_events(Some(evv)) =~= seq![evv]);
            return r;
        } else {
            assert(optional_events(state_event(self@)) =~= Seq::<EventView>::empty());
            assert(listener.handed() =~= listener.handed() + Seq::<EventView>::empty());
        }
        Ok(())
    }

    /// A copy of the state, with class and title set to the given ones
    /// when neither had arrived.
    fn with_class_title(&self, c: &ActiveWindowValue<String>, t: &ActiveWindowValue<String>) -> (res: Self)
        ensures
            res@ == fill_class_title(self@, c@, t@),
    {
        if self.title.is_empty() && self.class.is_empty() {
            ActiveWindowState { class: copy_text_value(c), title: copy_text_value(t), addr: copy_address_value(&self.addr) }
        } else {
            ActiveWindowState {
                class: copy_text_value(&self.class),
                title: copy_text_value(&self.title),
                addr: copy_address_value(&self.addr),
            }
        }
    }

    /// A copy of the state, with the address set to the given one when it
    /// had not arrived.
    fn with_addr(&self, a: &ActiveWindowValue<Address>) -> (res: Self)
        ensures
            res@ == fill_addr(self@, a@),
    {
        ActiveWindowState {
            class: copy_text_value(&self.class),
            title: copy_text_value(&self.title),
            addr: if self.addr.is_empty() { copy_address_value(a) } else { copy_address_value(&self.addr) },
        }
    }
}

/// A state given class and title by an `activewindow` event: they are set
/// when neither had arrived.
pub open spec fn fill_class_title(
    s: ActiveWindowStateView,
    c: ActiveWindowValue<Seq<char>>,
    t: ActiveWindowValue<Seq<char>>,
) -> ActiveWindowStateView {
    if (s.title is Empty) && (s.class is Empty) {
        ActiveWindowStateView { class: c, title: t, addr: s.addr }
    } else {
        s
    }
}

/// A state given an address by an `activewindowv2` event: it is set when
/// it had not arrived.
pub open spec fn fill_addr(s: ActiveWindowStateView, a: ActiveWindowValue<Seq<char>>) -> ActiveWindowStateView {
    if s.addr is Empty {
        ActiveWindowStateView { class: s.class, title: s.title, addr: a }
    } else {
        s
    }
}

/// The position of the first ready state, or the length when none is.
pub open spec fn first_ready(s: Seq<ActiveWindowStateView>) -> nat
    decreases s.len(),
{
    if s.len() == 0 {
        0
    } else if state_ready(s[0]) {
        0
    } else {
        1 + first_ready(s.drop_first())
    }
}

proof fn lemma_first_ready(s: Seq<ActiveWindowStateView>, i: int)
    requires
        0 <= i <= s.len(),
        forall|j: int| 0 <= j < i ==> !state_ready(#[trigger] s[j]),
        i == s.len() || state_ready(s[i]),
    ensures
        first_ready(s) == i,
    decreases s.len(),
{
    if s.len() > 0 && i > 0 {
        assert(!state_ready(s[0]));
        assert forall|j: int| 0 <= j < i - 1 implies !state_ready(#[trigger] s.drop_first()[j]) by {
            assert(s.drop_first()[j] == s[j + 1]);
        }
        if i < s.len() {
            assert(s.drop_first()[i - 1] == s[i]);
        }
        lemma_first_ready(s.drop_first(), i - 1);
    }
}

/// The models of a buffer of states.
pub open spec fn state_views(b: Seq<ActiveWindowState>) -> Seq<ActiveWindowStateView> {
    b.map_values(|s: ActiveWindowState| s@)
}

/// The models of a sequence of events.
pub open spec fn event_views(evs: Seq<Event>) -> Seq<EventView> {
    evs.map_values(|e: Event| e@)
}

/// Zero or one event.
pub open spec fn optional_events(e: Option<EventView>) -> Seq<EventView> {
    match e {
        Some(ev) => seq![ev],
        None => Seq::empty(),
    }
}

/// One pass over the buffer: `filled` is each state given the new data.
/// The states before the first ready one keep the data, the first ready
/// one gives its event and leaves the buffer (the last state takes its
/// place), and the states after it are untouched.
pub open spec fn merge_step(
    buf: Seq<ActiveWindowStateView>,
    filled: Seq<ActiveWindowStateView>,
) -> (Seq<ActiveWindowStateView>, Seq<EventView>) {
    let k = first_ready(filled) as int;
    if k < buf.len() {
        let kept = filled.take(k) + buf.skip(k);
        (kept.update(k, kept.last()).drop_last(), optional_events(state_event(filled[k])))
    } else {
        (filled, Seq::empty())
    }
}

/// The data an `activewindow` event gives class and title.
pub open spec fn class_title_values(d: Option<(Seq<char>, Seq<char>)>) -> (ActiveWindowValue<Seq<char>>, ActiveWindowValue<Seq<char>>) {
    match d {
        Some((c, t)) => (ActiveWindowValue::Queued(c), ActiveWindowValue::Queued(t)),
        None => (ActiveWindowValue::NoWindow, ActiveWindowValue::NoWindow),
    }
}

/// The data an `activewindowv2` event gives the address.
pub open spec fn addr_value(d: Option<Seq<char>>) -> ActiveWindowValue<Seq<char>> {
    match d {
        Some(a) => ActiveWindowValue::Queued(a),
        None => ActiveWindowValue::NoWindow,
    }
}

/// What one event does to the buffer of half-gathered active windows, and
/// the events it gives out: an empty buffer first gets one empty state;
/// the two active-window events fill the states and give out the merged
/// event of the first state that becomes ready; any other event is given
/// out as it is.
pub open spec fn primer_spec(ev: EventView, buf0: Seq<ActiveWindowStateView>) -> (Seq<ActiveWindowStateView>, Seq<EventView>) {
    let buf = if buf0.len() == 0 { seq![empty_state()] } else { buf0 };
    match ev {
        EventView::ActiveWindowChangedV1(d) => {
            let (c, t) = class_title_values(d);
            merge_step(buf, buf.map_values(|s: ActiveWindowStateView| fill_class_title(s, c, t)))
        },
        EventView::ActiveWindowChangedV2(d) => {
            let a = addr_value(d);
            merge_step(buf, buf.map_values(|s: ActiveWindowStateView| fill_addr(s, a)))
        },
        _ => (buf, seq![ev]),
    }
}

/// Feeds one event to the buffer of half-gathered active windows and
/// returns the events to hand to the listeners.
pub fn event_primer_noexec(event: Event, abuf: &mut Vec<ActiveWindowState>) -> (res: Result<Vec<Event>, HyprError>)
    ensures
        res matches Ok(evs) && (state_views(final(abuf)@), event_views(evs@)) == primer_spec(event@, state_views(old(abuf)@)),
{
    let ghost buf0 = state_views(abuf@);
    if abuf.len() == 0 {
        abuf.push(ActiveWindowState::new());
        assert(state_views(abuf@) =~= seq![empty_state()]);
    }
    let ghost buf = state_views(abuf@);
    let ghost ev = event@;
    match event {
        Event::ActiveWindowChangedV1(data) => {
            let (c, t) = into(data);
            let ghost cv = c@;
            let ghost tv = t@;
            assert(class_title_values(match ev { EventView::ActiveWindowChangedV1(d) => d, _ => Option::None }) == (cv, tv));
            let ghost filled = buf.map_values(|s: ActiveWindowStateView| fill_class_title(s, cv, tv));
            assert(primer_spec(ev, buf0) == merge_step(buf, filled));
            let mut idx: usize = 0;
            while idx < abuf.len()
                invariant
                    buf.len() >= 1,
                    abuf.len() == buf.len(),
                    buf0 == state_views(old(abuf)@),
                    ev == event@,
                    primer_spec(ev, buf0) == merge_step(buf, filled),
                    idx <= buf.len(),
                    c@ == cv,
                    t@ == tv,
                    filled == buf.map_values(|s: ActiveWindowStateView| fill_class_title(s, cv, tv)),
                    forall|j: int| 0 <= j < idx ==> state_views(abuf@)[j] == filled[j] && !state_ready(#[trigger] filled[j]),
                    forall|j: int| idx <= j < buf.len() ==> #[trigger] state_views(abuf@)[j] == buf[j],
                decreases buf.len() - idx,
            {
                let ghost before = abuf@;
                assert(state_views(abuf@)[idx as int] == abuf@[idx as int]@);
                let filled_state = abuf[idx].with_class_title(&c, &t);
                assert(filled_state@ == filled[idx as int]);
                if filled_state.ready() {
                    let mut done = filled_state;
                    let e = done.get_event();
                    abuf.swap_remove(idx);
                    proof {
                        lemma_first_ready(filled, idx as int);
                        let kept = filled.take(idx as int) + buf.skip(idx as int);
                        assert(state_views(before) =~= kept);
                        assert(state_views(abuf@) =~= kept.update(idx as int, kept.last()).drop_last());
                    }
                    let mut events: Vec<Event> = Vec::new();
                    if let Some(x) = e {
                        events.push(x);
                    }
                    assert(event_views(events@) =~= optional_events(state_event(filled[idx as int])));
                    assert((state_views(abuf@), event_views(events@)) == merge_step(buf, filled));
                    return Ok(events);
                }
                abuf.set(idx, filled_state);
                assert(state_views(abuf@) =~= state_views(before).update(idx as int, filled[idx as int]));
                idx = idx + 1;
            }
            proof {
                lemma_first_ready(filled, buf.len() as int);
                assert(state_views(abuf@) =~= filled);
            }
            let events: Vec<Event> = Vec::new();
            assert(event_views(events@) =~= Seq::<EventView>::empty());
            Ok(events)
        },
        Event::ActiveWindowChangedV2(data) => {
            let a = value_of_option(data);
            let ghost av = a@;
            assert(addr_value(match ev { EventView::ActiveWindowChangedV2(d) => d, _ => Option::None }) == av);
            let ghost filled = buf.map_values(|s: ActiveWindowStateView| fill_addr(s, av));
            assert(primer_spec(ev, buf0) == merge_step(buf, filled));
            let mut idx: usize = 0;
            while idx < abuf.len()
                invariant
                    buf.len() >= 1,
                    abuf.len() == buf.len(),
                    buf0 == state_views(old(abuf)@),
                    ev == event@,
                    primer_spec(ev, buf0) == merge_step(buf, filled),
                    idx <= buf.len(),
                    a@ == av,
                    filled == buf.map_values(|s: ActiveWindowStateView| fill_addr(s, av)),
                    forall|j: int| 0 <= j < idx ==> state_views(abuf@)[j] == filled[j] && !state_ready(#[trigger] filled[j]),
                    forall|j: int| idx <= j < buf.len() ==> #[trigger] state_views(abuf@)[j] == buf[j],
                decreases buf.len() - idx,
            {
                let ghost before = abuf@;
                assert(state_views(abuf@)[idx as int] == abuf@[idx as int]@);
                let filled_state = abuf[idx].with_addr(&a);
                assert(filled_state@ == filled[idx as int]);
                if filled_state.ready() {
                    let mut done = filled_state;
                    let e = done.get_event();
                    abuf.swap_remove(idx);
                    proof {
                        lemma_first_ready(filled, idx as int);
                        let kept = filled.take(idx as int) + buf.skip(idx as int);
                        assert(state_views(before) =~= kept);
                        assert(state_views(abuf@) =~= kept.update(idx as int, kept.last()).drop_last());
                    }
                    let mut events: Vec<Event> = Vec::new();
                    if let Some(x) = e {
                        events.push(x);
                    }
                    assert(event_views(events@) =~= optional_events(state_event(filled[idx as int])));
                    assert((state_views(abuf@), event_views(events@)) == merge_step(buf, filled));
                    return Ok(events);
                }
                abuf.set(idx, filled_state);
                assert(state_views(abuf@) =~= state_views(before).update(idx as int, filled[idx as int]));
                idx = idx + 1;
            }
            proof {
                lemma_first_ready(filled, buf.len() as int);
                assert(state_views(abuf@) =~= filled);
            }
            let events: Vec<Event> = Vec::new();
            assert(event_views(events@) =~= Seq::<EventView>::empty());
            Ok(events)
        },
        other => {
            let mut events: Vec<Event> = Vec::new();
            events.push(other);
            assert(event_views(events@) =~= seq![ev]);
            Ok(events)
        },
    }
}

/// The data an active-window event fills the states with.
enum Fill {
    ClassTitle(ActiveWindowValue<String>, ActiveWindowValue<String>),
    Addr(ActiveWindowValue<Address>),
}

/// The model of a fill.
enum FillView {
    ClassTitle(ActiveWindowValue<Seq<char>>, ActiveWindowValue<Seq<char>>),
    Addr(ActiveWindowValue<Seq<char>>),
}

impl View for Fill {
    type V = FillView;

    closed spec fn view(&self) -> FillView {
        match self {
            Fill::ClassTitle(c, t) => FillView::ClassTitle(c@, t@),
            Fill::Addr(a) => FillView::Addr(a@),
        }
    }
}

spec fn fill_state_spec(s: ActiveWindowStateView, f: FillView) -> ActiveWindowStateView {
    match f {
        FillView::ClassTitle(c, t) => fill_class_title(s, c, t),
        FillView::Addr(a) => fill_addr(s, a),
    }
}

/// The buffer an event starts from: an empty one gets one empty state.
pub open spec fn primed_buffer(buf0: Seq<ActiveWindowStateView>) -> Seq<ActiveWindowStateView> {
    if buf0.len() == 0 { seq![empty_state()] } else { buf0 }
}

/// Each state of the buffer as an event fills it; states are left alone
/// by events other than the two active-window events.
pub open spec fn filled_buffer(ev: EventView, buf: Seq<ActiveWindowStateView>) -> Seq<ActiveWindowStateView> {
    match ev {
        EventView::ActiveWindowChangedV1(d) => {
            let (c, t) = class_title_values(d);
            buf.map_values(|s: ActiveWindowStateView| fill_class_title(s, c, t))
        },
        EventView::ActiveWindowChangedV2(d) => {
            let a = addr_value(d);
            buf.map_values(|s: ActiveWindowStateView| fill_addr(s, a))
        },
        _ => buf,
    }
}

/// The buffer when the handlers of what an event gave fail: the states up
/// to the first ready one are filled, the rest untouched.
pub open spec fn primer_buffer_on_failure(ev: EventView, buf0: Seq<ActiveWindowStateView>) -> Seq<ActiveWindowStateView> {
    let buf = primed_buffer(buf0);
    let filled = filled_buffer(ev, buf);
    let k = first_ready(filled) as int;
    if k < buf.len() {
        filled.take(k + 1) + buf.skip(k + 1)
    } else {
        filled
    }
}

fn fill_state(s: &ActiveWindowState, f: &Fill) -> (res: ActiveWindowState)
    ensures
        res@ == fill_state_spec(s@, f@),
{
    match f {
        Fill::ClassTitle(c, t) => s.with_class_title(c, t),
        Fill::Addr(a) => s.with_addr(a),
    }
}

/// Fills the states in turn and hands the first ready one to the executor.
fn fill_and_execute<F: Fn(Event) -> Result<(), HyprError>>(listener: &mut EventExecutor<F>, f: Fill, abuf: &mut Vec<ActiveWindowState>) -> (res: Result<(), HyprError>)
    requires
        old(abuf).len() >= 1,
        forall|e: Event| #[trigger] old(listener).executor().requires((e,)),
    ensures
        ({
            let buf = state_views(old(abuf)@);
            let filled = buf.map_values(|s: ActiveWindowStateView| fill_state_spec(s, f@));
            let k = first_ready(filled) as int;
            let evs = merge_step(buf, filled).1;
            &&& res is Ok ==> state_views(final(abuf)@) == merge_step(buf, filled).0
            &&& res is Err ==> k < buf.len() && state_views(final(abuf)@) == filled.take(k + 1) + buf.skip(k + 1)
            &&& evs.len() == 0 ==> res is Ok
            &&& final(listener).executor() == old(listener).executor()
            &&& final(listener).handed() == old(listener).handed() + evs
            &&& evs.len() > 0 ==> event_answered(old(listener).executor(), evs[0], res)
        }),
{
    let ghost buf = state_views(abuf@);
    let ghost fv = f@;
    let ghost filled = buf.map_values(|s: ActiveWindowStateView| fill_state_spec(s, fv));
    let mut idx: usize = 0;
    while idx < abuf.len()
        invariant
            buf.len() >= 1,
            abuf.len() == buf.len(),
            buf == state_views(old(abuf)@),
            idx <= buf.len(),
            f@ == fv,
            filled == buf.map_values(|s: ActiveWindowStateView| fill_state_spec(s, fv)),
            listener.executor() == old(listener).executor(),
            listener.handed() == old(listener).handed(),
            forall|e: Event| #[trigger] listener.executor().requires((e,)),
            forall|j: int| 0 <= j < idx ==> state_views(abuf@)[j] == filled[j] && !state_ready(#[trigger] filled[j]),
            forall|j: int| idx <= j < buf.len() ==> #[trigger] state_views(abuf@)[j] == buf[j],
        decreases buf.len() - idx,
    {
        let ghost before = abuf@;
        assert(state_views(abuf@)[idx as int] == abuf@[idx as int]@);
        let filled_state = fill_state(&abuf[idx], &f);
        assert(filled_state@ == filled[idx as int]);
        if filled_state.ready() {
            let mut done = filled_state;
            proof {
                lemma_first_ready(filled, idx as int);
            }
            let r = done.execute(listener);
            if r.is_ok() {
                abuf.swap_remove(idx);
                proof {
                    let kept = filled.take(idx as int) + buf.skip(idx as int);
                    assert(state_views(before) =~= kept);
                    assert(state_views(abuf@) =~= kept.update(idx as int, kept.last()).drop_last());
                }
            } else {
                assert(done@ == filled[idx as int]);
                abuf.set(idx, done);
                assert(state_views(abuf@) =~= state_views(before).update(idx as int, filled[idx as int]));
                assert(state_views(abuf@) =~= filled.take(idx as int + 1) + buf.skip(idx as int + 1));
            }
            return r;
        }
        abuf.set(idx, filled_state);
        assert(state_views(abuf@) =~= state_views(before).update(idx as int, filled[idx as int]));
        idx = idx + 1;
    }
    proof {
        lemma_first_ready(filled, buf.len() as int);
        assert(state_views(abuf@) =~= filled);
        assert(listener.handed() =~= old(listener).handed() + Seq::<EventView>::empty());
    }
    Ok(())
}

/// Feeds one event to the buffer of half-gathered active windows and runs
/// the listener's handlers of what it gives: the merged event of the first
/// state that becomes ready (which then leaves the buffer), or the event
/// itself when it is no active-window event. Handlers that fail end the
/// work with their error; the state that was being handed on then stays in
/// the buffer as it was filled.
pub fn event_primer<F: Fn(Event) -> Result<(), HyprError>>(listener: &mut EventExecutor<F>, event: Event, abuf: &mut Vec<ActiveWindowState>) -> (res: Result<(), HyprError>)
    requires
        forall|e: Event| #[trigger] old(listener).executor().requires((e,)),
    ensures
        res is Ok ==> state_views(final(abuf)@) == primer_spec(event@, state_views(old(abuf)@)).0,
        res is Err ==> state_views(final(abuf)@) == primer_buffer_on_failure(event@, state_views(old(abuf)@)),
        primer_spec(event@, state_views(old(abuf)@)).1.len() == 0 ==> res is Ok,
        final(listener).executor() == old(listener).executor(),
        final(listener).handed() == old(listener).handed() + primer_spec(event@, state_views(old(abuf)@)).1,
        primer_spec(event@, state_views(old(abuf)@)).1.len() > 0
            ==> event_answered(old(listener).executor(), primer_spec(event@, state_views(old(abuf)@)).1[0], res),
{
    let ghost buf0 = state_views(abuf@);
    if abuf.len() == 0 {
        abuf.push(ActiveWindowState::new());
        assert(state_views(abuf@) =~= seq![empty_state()]);
    }
    let ghost buf = state_views(abuf@);
    assert(buf == primed_buffer(buf0));
    let ghost ev = event@;
    match event {
        Event::ActiveWindowChangedV1(data) => {
            let (c, t) = into(data);
            let f = Fill::ClassTitle(c, t);
            assert(class_title_values(match ev { EventView::ActiveWindowChangedV1(d) => d, _ => Option::None }) == (c@, t@));
            assert(buf.map_values(|s: ActiveWindowStateView| fill_state_spec(s, f@)) =~= filled_buffer(ev, buf));
            fill_and_execute(listener, f, abuf)
        },
        Event::ActiveWindowChangedV2(data) => {
            let a = value_of_option(data);
            let f = Fill::Addr(a);
            assert(addr_value(match ev { EventView::ActiveWindowChangedV2(d) => d, _ => Option::None }) == a@);
            assert(buf.map_values(|s: ActiveWindowStateView| fill_state_spec(s, f@)) =~= filled_buffer(ev, buf));
            fill_and_execute(listener, f, abuf)
        },
        other => {
            let r = listener.run(other);
            proof {
                assert(seq![ev] == primer_spec(ev, buf0).1);
                let k = first_ready(buf) as int;
                if k < buf.len() {
                    assert(buf.take(k + 1) + buf.skip(k + 1) =~= buf);
                }
            }
            r
        },
    }
}

/// Every event other than the two active-window events is handed on as it
/// is, and the buffer is left alone.
pub proof fn law_primer_passes_other_events(ev: EventView, buf: Seq<ActiveWindowStateView>)
    requires
        !(ev is ActiveWindowChangedV1),
        !(ev is ActiveWindowChangedV2),
        buf.len() > 0,
    ensures
        primer_spec(ev, buf) == (buf, seq![ev]),
{
}

/// An `activewindow` event with class and title followed by an
/// `activewindowv2` event with the address give, from an empty buffer,
/// nothing and then one merged event with all three, and leave the buffer
/// empty.
pub proof fn law_primer_merges_class_title_then_address(c: Seq<char>, t: Seq<char>, a: Seq<char>)
    ensures
        ({
            let (b1, e1) = primer_spec(EventView::ActiveWindowChangedV1(Some((c, t))), Seq::empty());
            let (b2, e2) = primer_spec(EventView::ActiveWindowChangedV2(Some(a)), b1);
            &&& e1 == Seq::<EventView>::empty()
            &&& e2 == seq![EventView::ActiveWindowChanged(Some((c, t, a)))]
            &&& b2 == Seq::<ActiveWindowStateView>::empty()
        }),
{
    let buf = seq![empty_state()];
    let (cv, tv) = class_title_values(Some((c, t)));
    let f1 = buf.map_values(|s: ActiveWindowStateView| fill_class_title(s, cv, tv));
    assert(f1[0] == ActiveWindowStateView { class: cv, title: tv, addr: ActiveWindowValue::Empty });
    assert(!state_ready(f1[0]));
    lemma_first_ready(f1, 1);
    let (b1, e1) = primer_spec(EventView::ActiveWindowChangedV1(Some((c, t))), Seq::empty());
    assert(b1 == f1);
    let av = addr_value(Some(a));
    let f2 = b1.map_values(|s: ActiveWindowStateView| fill_addr(s, av));
    assert(f2[0] == ActiveWindowStateView { class: cv, title: tv, addr: av });
    lemma_first_ready(f2, 0);
    let (b2, e2) = primer_spec(EventView::ActiveWindowChangedV2(Some(a)), b1);
    assert(b2 =~= Seq::<ActiveWindowStateView>::empty());
}

/// The same two events in the other order give the same merged event.
pub proof fn law_primer_merges_address_then_class_title(c: Seq<char>, t: Seq<char>, a: Seq<char>)
    ensures
        ({
            let (b1, e1) = primer_spec(EventView::ActiveWindowChangedV2(Some(a)), Seq::empty());
            let (b2, e2) = primer_spec(EventView::ActiveWindowChangedV1(Some((c, t))), b1);
            &&& e1 == Seq::<EventView>::empty()
            &&& e2 == seq![EventView::ActiveWindowChanged(Some((c, t, a)))]
            &&& b2 == Seq::<ActiveWindowStateView>::empty()
        }),
{
    let buf = seq![empty_state()];
    let av = addr_value(Some(a));
    let f1 = buf.map_values(|s: ActiveWindowStateView| fill_addr(s, av));
    assert(f1[0] == ActiveWindowStateView { class: ActiveWindowValue::Empty, title: ActiveWindowValue::Empty, addr: av });
    assert(!state_ready(f1[0]));
    lemma_first_ready(f1, 1);
    let (b1, e1) = primer_spec(EventView::ActiveWindowChangedV2(Some(a)), Seq::empty());
    assert(b1 == f1);
    let (cv, tv) = class_title_values(Some((c, t)));
    let f2 = b1.map_values(|s: ActiveWindowStateView| fill_class_title(s, cv, tv));
    assert(f2[0] == ActiveWindowStateView { class: cv, title: tv, addr: av });
    lemma_first_ready(f2, 0);
    let (b2, e2) = primer_spec(EventView::ActiveWindowChangedV1(Some((c, t))), b1);
    assert(b2 =~= Seq::<ActiveWindowStateView>::empty());
}

/// When both events say there is no active window, the merged event says
/// so too.
pub proof fn law_primer_no_active_window()
    ensures
        ({
            let (b1, e1) = primer_spec(EventView::ActiveWindowChangedV1(None), Seq::empty());
            let (b2, e2) = primer_spec(EventView::ActiveWindowChangedV2(None), b1);
            &&& e1 == Seq::<EventView>::empty()
            &&& e2 == seq![EventView::ActiveWindowChanged(None)]
        }),
{
    let buf = seq![empty_state()];
    let (cv, tv) = class_title_values(None);
    let f1 = buf.map_values(|s: ActiveWindowStateView| fill_class_title(s, cv, tv));
    assert(f1[0] == ActiveWindowStateView { class: cv, title: tv, addr: ActiveWindowValue::Empty });
    assert(!state_ready(f1[0]));
    lemma_first_ready(f1, 1);
    let (b1, e1) = primer_spec(EventView::ActiveWindowChangedV1(None), Seq::empty());
    assert(b1 == f1);
    let av = addr_value(None);
    let f2 = b1.map_values(|s: ActiveWindowStateView| fill_addr(s, av));
    assert(f2[0] == ActiveWindowStateView { class: cv, title: tv, addr: av });
    lemma_first_ready(f2, 0);
}

} // verus!
