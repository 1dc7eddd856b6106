//! The loader gate: the site is loaded once per page load, views that ask for
//! it are suspended until it is there, and every view then gets the same value.
//!
//! A [`LoaderGate`] decides and its caller acts. The caller hands each event
//! to [`LoaderGate::step`] and performs the action that comes back: it runs
//! the load on [`GateAction::StartLoad`] and reports the result as
//! [`GateEvent::Loaded`]. There is no timeout, no retry and no cancellation:
//! a load that never reports leaves the views suspended.

use vstd::prelude::*;

use crate::site::{Site, SiteView};

verus! {

/// Something that happens to a loader gate.
#[derive(Debug)]
pub enum GateEvent {
    /// A view asks for the site.
    Observe,
    /// The load has completed with this value.
    Loaded(Site),
}

/// Model of a [`GateEvent`].
pub enum GateEventView {
    Observe,
    Loaded(SiteView),
}

impl View for GateEvent {
    type V = GateEventView;

    open spec fn view(&self) -> GateEventView {
        match self {
            GateEvent::Observe => GateEventView::Observe,
            GateEvent::Loaded(site) => GateEventView::Loaded(site@),
        }
    }
}

impl PartialEq for GateEvent {
    fn eq(&self, other: &Self) -> (same: bool) {
        match (self, other) {
            (GateEvent::Observe, GateEvent::Observe) => true,
            (GateEvent::Loaded(mine), GateEvent::Loaded(theirs)) => *mine == *theirs,
            _ => false,
        }
    }
}

impl Eq for GateEvent {

}

impl vstd::std_specs::cmp::PartialEqSpecImpl for GateEvent {
    open spec fn obeys_eq_spec() -> bool {
        true
    }

    open spec fn eq_spec(&self, other: &Self) -> bool {
        self@ == other@
    }
}

/// What the caller of a loader gate has to do after an event.
#[derive(Debug)]
pub enum GateAction {
    /// Start the load, and show nothing for the view that asked.
    StartLoad,
    /// Show nothing for the view that asked: the load is running.
    Suspend,
    /// Hand this value to the view that asked.
    Deliver(Site),
    /// The value is there: let the suspended views ask again.
    Resume,
    /// Nothing: no view was waiting for this load, or the value was there
    /// already.
    Ignore,
}

/// Model of a [`GateAction`].
pub enum GateActionView {
    StartLoad,
    Suspend,
    Deliver(SiteView),
    Resume,
    Ignore,
}

impl View for GateAction {
    type V = GateActionView;

    open spec fn view(&self) -> GateActionView {
        match self {
            GateAction::StartLoad => GateActionView::StartLoad,
            GateAction::Suspend => GateActionView::Suspend,
            GateAction::Deliver(site) => GateActionView::Deliver(site@),
            GateAction::Resume => GateActionView::Resume,
            GateAction::Ignore => GateActionView::Ignore,
        }
    }
}

impl PartialEq for GateAction {
    fn eq(&self, other: &Self) -> (same: bool) {
        match (self, other) {
            (GateAction::StartLoad, GateAction::StartLoad) => true,
            (GateAction::Suspend, GateAction::Suspend) => true,
            (GateAction::Deliver(mine), GateAction::Deliver(theirs)) => *mine == *theirs,
            (GateAction::Resume, GateAction::Resume) => true,
            (GateAction::Ignore, GateAction::Ignore) => true,
            _ => false,
        }
    }
}

impl Eq for GateAction {

}

impl vstd::std_specs::cmp::PartialEqSpecImpl for GateAction {
    open spec fn obeys_eq_spec() -> bool {
        true
    }

    open spec fn eq_spec(&self, other: &Self) -> bool {
        self@ == other@
    }
}

/// Model of a [`LoaderGate`]: where the load stands.
pub enum GateView {
    /// No view has asked yet and no load was started.
    Idle,
    /// The load is running.
    Loading,
    /// The load has completed with this value.
    Ready(SiteView),
}

/// The state that follows `state` on `event`. The first view that asks moves
/// an idle gate to loading, the load's result moves a loading gate to ready,
/// and nothing else changes the state: a ready gate keeps its value.
pub open spec fn next_state(state: GateView, event: GateEventView) -> GateView {
    match (state, event) {
        (GateView::Idle, GateEventView::Observe) => GateView::Loading,
        (GateView::Loading, GateEventView::Loaded(site)) => GateView::Ready(site),
        _ => state,
    }
}

/// The action that a gate in `state` asks for on `event`.
pub open spec fn gate_action(state: GateView, event: GateEventView) -> GateActionView {
    match event {
        GateEventView::Observe => match state {
            GateView::Idle => GateActionView::StartLoad,
            GateView::Loading => GateActionView::Suspend,
            GateView::Ready(site) => GateActionView::Deliver(site),
        },
        GateEventView::Loaded(_) => match state {
            GateView::Loading => GateActionView::Resume,
            _ => GateActionView::Ignore,
        },
    }
}

#[derive(Debug)]
enum Progress {
    Idle,
    Loading,
    Ready(Site),
}

/// The loader gate of one page load. It lives as long as the page view does,
/// and the site it holds is never changed once it is there.
#[derive(Debug)]
pub struct LoaderGate {
    progress: Progress,
}

impl View for LoaderGate {
    type V = GateView;

    closed spec fn view(&self) -> GateView {
        match self.progress {
            Progress::Idle => GateView::Idle,
            Progress::Loading => GateView::Loading,
            Progress::Ready(site) => GateView::Ready(site@),
        }
    }
}

impl LoaderGate {
    /// A loader gate at the start of a page load.
    pub fn new() -> (gate: Self)
        ensures
            gate@ == GateView::Idle,
    {
        LoaderGate { progress: Progress::Idle }
    }

    /// Takes one event, moves to the next state and says what to do.
    pub fn step(&mut self, event: GateEvent) -> (action: GateAction)
        ensures
            final(self)@ == next_state(old(self)@, event@),
            action@ == gate_action(old(self)@, event@),
    {
        match event {
            GateEvent::Observe => match &self.progress {
                Progress::Idle => {
                    self.progress = Progress::Loading;
                    GateAction::StartLoad
                },
                Progress::Loading => GateAction::Suspend,
                Progress::Ready(site) => GateAction::Deliver(site.clone()),
            },
            GateEvent::Loaded(site) => match &self.progress {
                Progress::Loading => {
                    self.progress = Progress::Ready(site);
                    GateAction::Resume
                },
                _ => GateAction::Ignore,
            },
        }
    }

    /// The site, once it is there.
    pub fn site(&self) -> (site: Option<&Site>)
        ensures
            match site {
                Some(site) => self@ == GateView::Ready(site@),
                None => !(self@ is Ready),
            },
    {
        match &self.progress {
            Progress::Ready(site) => Some(site),
            _ => None,
        }
    }
}

/// What the gated view does with the delivered site.
#[derive(Debug)]
pub enum Admission {
    /// Apply the title and render the child route.
    Proceed { title: String },
    /// The site came without its `loaded` flag. A completed load always sets
    /// it, so this is a broken invariant: the caller must abort, not render.
    Fatal,
}

/// Model of an [`Admission`].
pub enum AdmissionView {
    Proceed { title: Seq<char> },
    Fatal,
}

impl View for Admission {
    type V = AdmissionView;

    open spec fn view(&self) -> AdmissionView {
        match self {
            Admission::Proceed { title } => AdmissionView::Proceed { title: title@ },
            Admission::Fatal => AdmissionView::Fatal,
        }
    }
}

impl PartialEq for Admission {
    fn eq(&self, other: &Self) -> (same: bool) {
        match (self, other) {
            (Admission::Fatal, Admission::Fatal) => true,
            (Admission::Proceed { title: mine }, Admission::Proceed { title: theirs }) => *mine
                == *theirs,
            _ => false,
        }
    }
}

impl Eq for Admission {

}

impl vstd::std_specs::cmp::PartialEqSpecImpl for Admission {
    open spec fn obeys_eq_spec() -> bool {
        true
    }

    open spec fn eq_spec(&self, other: &Self) -> bool {
        self@ == other@
    }
}

/// A loaded site proceeds with its title; any other is fatal.
pub open spec fn admission(site: SiteView) -> AdmissionView {
    if site.loaded {
        AdmissionView::Proceed { title: site.title }
    } else {
        AdmissionView::Fatal
    }
}

/// Decides what the gated view does with the site that was delivered to it.
pub fn decide_admission(site: &Site) -> (decision: Admission)
    ensures
        decision@ == admission(site@),
{
    if site.loaded {
        Admission::Proceed { title: site.title.clone() }
    } else {
        Admission::Fatal
    }
}

/// The state after the first `i` of `events`, starting from `start`.
pub open spec fn state_at(start: GateView, events: Seq<GateEventView>, i: nat) -> GateView
    recommends
        i <= events.len(),
    decreases i,
{
    if i == 0 {
        start
    } else {
        next_state(state_at(start, events, (i - 1) as nat), events[i - 1])
    }
}

/// The action asked for on `events[i]`, starting from `start`.
pub open spec fn action_at(start: GateView, events: Seq<GateEventView>, i: nat) -> GateActionView
    recommends
        i < events.len(),
{
    gate_action(state_at(start, events, i), events[i as int])
}

/// How far the load has come.
pub open spec fn progress_rank(state: GateView) -> nat {
    match state {
        GateView::Idle => 0,
        GateView::Loading => 1,
        GateView::Ready(_) => 2,
    }
}

/// One step never takes a gate back, and leaves a ready gate as it is.
pub proof fn lemma_step_advances(state: GateView, event: GateEventView)
    ensures
        progress_rank(state) <= progress_rank(next_state(state, event)),
        state is Ready ==> next_state(state, event) == state,
{
}

/// Over any run of events a gate never goes back, and once it is ready it
/// keeps its value.
pub proof fn lemma_run_advances(start: GateView, events: Seq<GateEventView>, i: nat, j: nat)
    requires
        i <= j,
    ensures
        progress_rank(state_at(start, events, i)) <= progress_rank(state_at(start, events, j)),
        state_at(start, events, i) is Ready ==> state_at(start, events, j) == state_at(
            start,
            events,
            i,
        ),
    decreases j,
{
    if i < j {
        lemma_run_advances(start, events, i, (j - 1) as nat);
        lemma_step_advances(state_at(start, events, (j - 1) as nat), events[j - 1]);
    }
}

/// The load is started at most once per page load: whatever the events are
/// and in whatever state the run begins, no two of its actions start a load.
pub proof fn lemma_load_starts_at_most_once(
    start: GateView,
    events: Seq<GateEventView>,
    i: nat,
    j: nat,
)
    requires
        i < j,
    ensures
        !(action_at(start, events, i) is StartLoad && action_at(start, events, j) is StartLoad),
{
    if action_at(start, events, i) is StartLoad {
        assert(state_at(start, events, i + 1) == GateView::Loading);
        lemma_run_advances(start, events, i + 1, j);
    }
}

/// The loaded value is memoized: any two views that get a value during one
/// page load get the same value, whatever happens in between.
pub proof fn lemma_delivered_values_agree(
    start: GateView,
    events: Seq<GateEventView>,
    i: nat,
    j: nat,
)
    requires
        action_at(start, events, i) is Deliver,
        action_at(start, events, j) is Deliver,
    ensures
        action_at(start, events, i) == action_at(start, events, j),
{
    if i <= j {
        lemma_run_advances(start, events, i, j);
    } else {
        lemma_run_advances(start, events, j, i);
    }
}

/// Asking again changes nothing: a view that asks a ready gate twice in a row
/// gets the value that is held, both times, and the state stays as it was.
pub proof fn lemma_observing_twice(state: GateView)
    requires
        state is Ready,
    ensures
        next_state(state, GateEventView::Observe) == state,
        gate_action(state, GateEventView::Observe) == GateActionView::Deliver(state->Ready_0),
        gate_action(next_state(state, GateEventView::Observe), GateEventView::Observe)
            == gate_action(state, GateEventView::Observe),
{
}

/// There is no timeout and no second attempt: while views ask and no load
/// result comes, a gate that is loading stays so and suspends every one of
/// them.
pub proof fn lemma_waits_for_the_load(events: Seq<GateEventView>, i: nat)
    requires
        i < events.len(),
        forall|k: int| 0 <= k < events.len() ==> events[k] == GateEventView::Observe,
    ensures
        state_at(GateView::Loading, events, i) == GateView::Loading,
        action_at(GateView::Loading, events, i) == GateActionView::Suspend,
    decreases i,
{
    if i > 0 {
        lemma_waits_for_the_load(events, (i - 1) as nat);
    }
}

} // verus!
