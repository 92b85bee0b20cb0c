//! The actions that drive the control loop, and the ordered queue that hands
//! them over, one at a time, in the order in which they were pushed.

use std::collections::VecDeque;
use vstd::prelude::*;

use crate::drivers::{Error, ErrorView};
use crate::devices::{hardware_view, HardwarePort, ManagerView};
use crate::mgapplication::{effects_view, AppView, Effect, EffectView, MgApplication};

verus! {

/// Mathematical value of an [`MgAction`].
pub enum ActionView {
    RescanDevices,
    ModelChanged(Seq<char>),
    PortChanged(Seq<char>),
    StartErase,
    DoneErase(ErrorView),
    StartDownload,
    DoneDownload(ErrorView),
    SetOutputDir(Seq<char>),
}

impl ActionView {
    /// Actions that ask for a long operation to begin.
    pub open spec fn is_start(self) -> bool {
        self is StartErase || self is StartDownload
    }

    /// Actions that report the end of a long operation.
    pub open spec fn is_done(self) -> bool {
        self is DoneErase || self is DoneDownload
    }
}

/// An event for the control loop. Whoever holds it owns it: the producer
/// until it is pushed, the queue while it waits, the consumer afterwards.
#[derive(Debug, PartialEq, Eq)]
pub enum MgAction {
    /// The set of present ports may have changed.
    RescanDevices,
    /// The user picked the model with this id.
    ModelChanged(String),
    /// The user picked the port with this id.
    PortChanged(String),
    StartErase,
    /// An erase ended, with this outcome.
    DoneErase(Error),
    StartDownload,
    /// A download ended, with this outcome.
    DoneDownload(Error),
    /// The user picked this directory for downloaded tracks.
    SetOutputDir(String),
}

impl View for MgAction {
    type V = ActionView;

    open spec fn view(&self) -> ActionView {
        match self {
            MgAction::RescanDevices => ActionView::RescanDevices,
            MgAction::ModelChanged(id) => ActionView::ModelChanged(id@),
            MgAction::PortChanged(id) => ActionView::PortChanged(id@),
            MgAction::StartErase => ActionView::StartErase,
            MgAction::DoneErase(e) => ActionView::DoneErase(e@),
            MgAction::StartDownload => ActionView::StartDownload,
            MgAction::DoneDownload(e) => ActionView::DoneDownload(e@),
            MgAction::SetOutputDir(dir) => ActionView::SetOutputDir(dir@),
        }
    }
}

/// The values of a sequence of actions.
pub open spec fn actions_view(s: Seq<MgAction>) -> Seq<ActionView> {
    s.map_values(|a: MgAction| a@)
}

/// The value of an action that may be absent.
pub open spec fn action_opt_view(a: Option<MgAction>) -> Option<ActionView> {
    match a {
        Some(a) => Some(a@),
        None => None,
    }
}

/// What taking the head off a queue gives: the head, if there is one, and
/// what stays behind. An empty queue gives nothing and stays as it is.
pub open spec fn popped(q: Seq<ActionView>) -> (Option<ActionView>, Seq<ActionView>) {
    if q.len() == 0 {
        (None, q)
    } else {
        (Some(q[0]), q.drop_first())
    }
}

/// The queue after the given actions were pushed, first to last.
pub open spec fn after_pushes(q: Seq<ActionView>, items: Seq<ActionView>) -> Seq<ActionView>
    decreases items.len(),
{
    if items.len() == 0 {
        q
    } else {
        after_pushes(q.push(items[0]), items.drop_first())
    }
}

/// What `n` pops in a row hand out, in the order in which they came, and the
/// queue that is left. A pop from the empty queue hands out nothing.
pub open spec fn after_pops(q: Seq<ActionView>, n: nat) -> (Seq<ActionView>, Seq<ActionView>)
    decreases n,
{
    if n == 0 {
        (Seq::empty(), q)
    } else {
        let (head, rest) = popped(q);
        let (more, left) = after_pops(rest, (n - 1) as nat);
        match head {
            Some(a) => (seq![a] + more, left),
            None => (more, left),
        }
    }
}

/// An ordered sequence of actions: insertion order is processing order.
/// Nothing is reordered, merged or dropped.
#[derive(Debug)]
pub struct ActionQueue {
    pub queue: VecDeque<MgAction>,
}

impl View for ActionQueue {
    type V = Seq<ActionView>;

    open spec fn view(&self) -> Seq<ActionView> {
        actions_view(self.queue@)
    }
}

impl Default for ActionQueue {
    fn default() -> (r: Self)
        ensures
            r@ == Seq::<ActionView>::empty(),
    {
        let r = ActionQueue { queue: VecDeque::new() };
        assert(r@ =~= Seq::<ActionView>::empty());
        r
    }
}

impl ActionQueue {
    /// An empty queue.
    pub fn new() -> (r: Self)
        ensures
            r@ == Seq::<ActionView>::empty(),
    {
        let r = ActionQueue { queue: VecDeque::new() };
        assert(r@ =~= Seq::<ActionView>::empty());
        r
    }

    /// Append an action at the tail.
    pub fn push(&mut self, action: MgAction)
        ensures
            final(self)@ == old(self)@.push(action@),
    {
        self.queue.push_back(action);
        assert(self@ =~= old(self)@.push(action@));
    }

    /// Remove and return the head; `None`, with the queue untouched, when
    /// there is nothing to do.
    pub fn try_pop(&mut self) -> (r: Option<MgAction>)
        ensures
            (action_opt_view(r), final(self)@) == popped(old(self)@),
    {
        let r = self.queue.pop_front();
        assert(self@ =~= popped(old(self)@).1);
        r
    }

    /// Whether nothing waits.
    pub fn is_empty(&self) -> (r: bool)
        ensures
            r == (self@.len() == 0),
    {
        self.queue.len() == 0
    }

    /// How many actions wait.
    pub fn len(&self) -> (r: usize)
        ensures
            r == self@.len(),
    {
        self.queue.len()
    }
}

/// What the scheduler is told after a dispatch.
#[derive(Copy, Clone, Debug, PartialEq, Eq, Structural)]
pub enum SourceControl {
    /// Take this source out of the loop.
    Remove,
    /// Keep this source in the loop.
    Continue,
}

/// The timeout that stands for "wait until woken".
pub const NO_TIMEOUT: i32 = -1;

/// The source that makes the queue visible to a cooperative event loop. It
/// holds the application that the drained actions are handed to.
#[derive(Debug)]
pub struct ActionQueueSource {
    app: MgApplication,
}

impl View for ActionQueueSource {
    type V = AppView;

    closed spec fn view(&self) -> AppView {
        self.app@
    }
}

impl ActionQueueSource {
    /// A source that feeds the given application.
    pub fn new_source(app: MgApplication) -> (r: Self)
        ensures
            r@ == app@,
    {
        ActionQueueSource { app }
    }

    /// The application behind the source.
    pub fn app(&self) -> (r: &MgApplication)
        ensures
            r@ == self@,
    {
        &self.app
    }

    /// Hand the application the ports that are present now; everything else
    /// stays.
    pub fn set_hardware(&mut self, hardware: Vec<HardwarePort>)
        ensures
            final(self)@ == (AppView {
                manager: ManagerView { hardware: hardware_view(hardware@), ..old(self)@.manager },
                ..old(self)@
            }),
    {
        self.app.set_hardware(hardware);
    }

    /// Start the application behind the source: fill what is on offer. The
    /// work that this hands out is returned.
    pub fn start(&mut self) -> (r: Vec<Effect>)
        ensures
            (final(self)@, effects_view(r@)) == old(self)@.rescan(),
    {
        self.app.start()
    }

    /// Give the application back.
    pub fn into_app(self) -> (r: MgApplication)
        ensures
            r@ == self@,
    {
        self.app
    }
}

/// Whether there is work: the queue could be locked and holds an action.
pub open spec fn ready(queue: Option<&ActionQueue>) -> bool {
    queue matches Some(q) && q@.len() > 0
}

/// First phase of a loop cycle. Says whether there is work, and how long the
/// loop may sleep otherwise: without limit, since a push wakes it. `queue`
/// is `None` when the queue's lock could not be taken. The queue is only
/// looked at.
pub fn prepare(queue: Option<&ActionQueue>) -> (r: (bool, i32))
    ensures
        r.0 == ready(queue),
        r.1 == NO_TIMEOUT,
{
    match queue {
        Some(q) => (!q.is_empty(), NO_TIMEOUT),
        None => (false, NO_TIMEOUT),
    }
}

/// Second phase of a loop cycle. Says whether there is work. `queue` is
/// `None` when the queue's lock could not be taken. The queue is only looked
/// at.
pub fn check(queue: Option<&ActionQueue>) -> (r: bool)
    ensures
        r == ready(queue),
{
    match queue {
        Some(q) => !q.is_empty(),
        None => false,
    }
}

/// Third phase of a loop cycle. Takes one action off the queue, the head,
/// and has the application process it; the work that this hands out is
/// returned. With nothing in the queue nothing happens. Either way the
/// source stays in the loop. `queue` is `None` when the queue's lock could
/// not be taken: then nothing is touched and the source asks to be removed.
pub fn dispatch(source: &mut ActionQueueSource, queue: Option<&mut ActionQueue>) -> (r: (
    SourceControl,
    Vec<Effect>,
))
    ensures
        match queue {
            Some(q) => {
                &&& r.0 is Continue
                &&& final(q)@ == popped((*q)@).1
                &&& match popped((*q)@).0 {
                    Some(a) => (final(source)@, effects_view(r.1@)) == old(source)@.step(a),
                    None => final(source)@ == old(source)@ && r.1@.len() == 0,
                }
            },
            None => r.0 is Remove && final(source)@ == old(source)@ && r.1@.len() == 0,
        },
{
    let head = match queue {
        Some(q) => q.try_pop(),
        None => { return (SourceControl::Remove, Vec::new()); },
    };
    match head {
        Some(a) => {
            let effects = source.app.process_event(a);
            (SourceControl::Continue, effects)
        },
        None => (SourceControl::Continue, Vec::new()),
    }
}

/// What `n` loop cycles in a row do when nothing is pushed meanwhile: the
/// state of the application at the end, the work handed out, in order, and
/// the queue that is left. Each cycle is one `dispatch` with the lock held.
pub open spec fn after_cycles(s: AppView, q: Seq<ActionView>, n: nat) -> (
    AppView,
    Seq<EffectView>,
    Seq<ActionView>,
)
    decreases n,
{
    if n == 0 {
        (s, Seq::empty(), q)
    } else {
        let (head, rest) = popped(q);
        match head {
            Some(a) => {
                let (next, first) = s.step(a);
                let (last, more, left) = after_cycles(next, rest, (n - 1) as nat);
                (last, first + more, left)
            },
            None => after_cycles(s, rest, (n - 1) as nat),
        }
    }
}

/// Pushing one action after another is appending them in that order.
pub proof fn lemma_pushes_append(q: Seq<ActionView>, items: Seq<ActionView>)
    ensures
        after_pushes(q, items) == q + items,
    decreases items.len(),
{
    if items.len() == 0 {
        assert(q + items =~= q);
    } else {
        lemma_pushes_append(q.push(items[0]), items.drop_first());
        assert(q.push(items[0]) + items.drop_first() =~= q + items);
    }
}

/// Pops hand out the head of the queue, as far as it reaches, in queue order.
pub proof fn lemma_pops_take(q: Seq<ActionView>, n: nat)
    ensures
        after_pops(q, n).0 == q.take(if n <= q.len() { n as int } else { q.len() as int }),
        after_pops(q, n).1 == q.skip(if n <= q.len() { n as int } else { q.len() as int }),
    decreases n,
{
    let k = if n <= q.len() { n as int } else { q.len() as int };
    if n == 0 {
        assert(q.take(0) =~= Seq::<ActionView>::empty());
        assert(q.skip(0) =~= q);
    } else if q.len() == 0 {
        lemma_pops_take(q, (n - 1) as nat);
        assert(q.take(0) =~= Seq::<ActionView>::empty());
        assert(q.skip(0) =~= q);
    } else {
        let rest = q.drop_first();
        lemma_pops_take(rest, (n - 1) as nat);
        assert(seq![q[0]] + rest.take(k - 1) =~= q.take(k));
        assert(rest.skip(k - 1) =~= q.skip(k));
    }
}

/// First in, first out: when actions are pushed onto a queue, by whichever
/// producers, and all pushes are over before the first pop, then as many pops
/// hand out what waited before followed by the pushed actions, each once, in
/// the order of the pushes, and leave the queue empty.
pub proof fn lemma_fifo(q: Seq<ActionView>, items: Seq<ActionView>)
    ensures
        after_pops(after_pushes(q, items), q.len() + items.len()) == (
            q + items,
            Seq::<ActionView>::empty(),
        ),
{
    let all = q + items;
    lemma_pushes_append(q, items);
    lemma_pops_take(all, all.len());
    assert(all.take(all.len() as int) =~= all);
    assert(all.skip(all.len() as int) =~= Seq::<ActionView>::empty());
}

/// Draining the empty queue, however often, hands out nothing and leaves it
/// empty.
pub proof fn lemma_drain_empty(n: nat)
    ensures
        after_pops(Seq::<ActionView>::empty(), n) == (
            Seq::<ActionView>::empty(),
            Seq::<ActionView>::empty(),
        ),
{
    let e = Seq::<ActionView>::empty();
    lemma_pops_take(e, n);
    assert(e.take(0) =~= e);
    assert(e.skip(0) =~= e);
}

/// The application sees the actions in the order of the queue, one per
/// cycle: `n` cycles do what processing the first `n` actions of the queue
/// one after the other does, as far as the queue reaches, and leave the
/// others waiting in their order.
pub proof fn lemma_cycles_in_order(s: AppView, q: Seq<ActionView>, n: nat)
    ensures
        after_cycles(s, q, n) == (
            s.run(after_pops(q, n).0).0,
            s.run(after_pops(q, n).0).1,
            after_pops(q, n).1,
        ),
    decreases n,
{
    if n > 0 {
        let (head, rest) = popped(q);
        let (more, left) = after_pops(rest, (n - 1) as nat);
        match head {
            Some(a) => {
                let (next, first) = s.step(a);
                lemma_cycles_in_order(next, rest, (n - 1) as nat);
                let all = seq![a] + more;
                assert(all[0] == a);
                assert(all.drop_first() =~= more);
            },
            None => {
                lemma_cycles_in_order(s, rest, (n - 1) as nat);
            },
        }
    } else {
        assert(s.run(Seq::<ActionView>::empty()).1 =~= Seq::<EffectView>::empty());
    }
}

} // verus!
