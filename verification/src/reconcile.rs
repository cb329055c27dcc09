//! The reconciliation loop's state and decisions: which file events start a
//! cycle, how a rename moves the watch target, and how the mirror of the
//! proxy's state is updated after a dispatch — replaced by the desired
//! state on full success, replaced by a fresh fetch on any failure. The
//! mirror is never left holding a state this process only partially
//! pushed.

use vstd::prelude::*;
use crate::dispatch::{all_ok_spec, all_succeeded, ActionLabel, ItemLabel};
use crate::errors::RpcError;
use crate::proxy::{diff_states, state_model};
use sozu_command_lib::messages::Order;
use sozu_command_lib::state::ConfigState;

verus! {

/// A debounced file-system event, reduced to what the loop reads.
#[derive(Debug)]
pub enum WatchEvent {
    Write(String),
    Create(String),
    Chmod(String),
    Rename(String, String),
    Other,
}

pub enum WatchEventView {
    Write(Seq<char>),
    Create(Seq<char>),
    Chmod(Seq<char>),
    Rename(Seq<char>, Seq<char>),
    Other,
}

impl View for WatchEvent {
    type V = WatchEventView;

    open spec fn view(&self) -> WatchEventView {
        match self {
            WatchEvent::Write(p) => WatchEventView::Write(p@),
            WatchEvent::Create(p) => WatchEventView::Create(p@),
            WatchEvent::Chmod(p) => WatchEventView::Chmod(p@),
            WatchEvent::Rename(old_path, new_path) => WatchEventView::Rename(old_path@, new_path@),
            WatchEvent::Other => WatchEventView::Other,
        }
    }
}

/// What the loop does with an event.
#[derive(Debug)]
pub enum EventAction {
    Reconcile(String),
    Rewatch(String, String),
    Ignore,
}

pub enum EventActionView {
    Reconcile(Seq<char>),
    Rewatch(Seq<char>, Seq<char>),
    Ignore,
}

impl View for EventAction {
    type V = EventActionView;

    open spec fn view(&self) -> EventActionView {
        match self {
            EventAction::Reconcile(p) => EventActionView::Reconcile(p@),
            EventAction::Rewatch(old_path, new_path) => EventActionView::Rewatch(
                old_path@,
                new_path@,
            ),
            EventAction::Ignore => EventActionView::Ignore,
        }
    }
}

/// A write, create or permission change on the watched file starts a
/// reconciliation; a rename moves the watch target without one; anything
/// else is ignored.
pub open spec fn event_action_spec(e: WatchEventView) -> EventActionView {
    match e {
        WatchEventView::Write(p) => EventActionView::Reconcile(p),
        WatchEventView::Create(p) => EventActionView::Reconcile(p),
        WatchEventView::Chmod(p) => EventActionView::Reconcile(p),
        WatchEventView::Rename(old_path, new_path) => EventActionView::Rewatch(old_path, new_path),
        WatchEventView::Other => EventActionView::Ignore,
    }
}

/// Decides what one event means, exactly as `event_action_spec` says.
pub fn classify_event(e: WatchEvent) -> (a: EventAction)
    ensures
        a@ == event_action_spec(e@),
{
    match e {
        WatchEvent::Write(p) => EventAction::Reconcile(p),
        WatchEvent::Create(p) => EventAction::Reconcile(p),
        WatchEvent::Chmod(p) => EventAction::Reconcile(p),
        WatchEvent::Rename(old_path, new_path) => EventAction::Rewatch(old_path, new_path),
        WatchEvent::Other => EventAction::Ignore,
    }
}

/// The loop's long-lived state: the local mirror of the proxy's
/// configuration and the path being watched.
pub struct Reconciler {
    pub mirror: ConfigState,
    pub watched: String,
}

impl Reconciler {
    /// Starts the loop from a state fetched from the proxy, watching the
    /// given path.
    pub fn new(initial: ConfigState, watched: String) -> (r: Reconciler)
        ensures
            state_model(r.mirror) == state_model(initial),
            r.watched@ == watched@,
    {
        Reconciler { mirror: initial, watched }
    }

    /// Moves the watch target after a rename. The mirror and the last
    /// dispatched state stay as they were.
    pub fn rename_target(&mut self, new_path: String)
        ensures
            final(self).watched@ == new_path@,
            state_model(final(self).mirror) == state_model(old(self).mirror),
    {
        self.watched = new_path;
    }

    /// The orders that would carry the proxy from the mirror to the
    /// desired state: exactly the store's diff of the two contents, in an
    /// order the store does not fix. Equal content needs no orders.
    pub fn plan(&self, desired: &ConfigState) -> (orders: Vec<Order>)
        ensures
            state_model(self.mirror) == state_model(*desired) ==> orders@.len() == 0,
            orders@.map_values(|o: Order| crate::proxy::order_model(o)).to_multiset()
                == crate::proxy::diff_of(state_model(self.mirror), state_model(*desired)),
    {
        diff_states(&self.mirror, desired)
    }

    /// Ends one dispatch cycle. On full success the mirror becomes the
    /// desired state; on any failure the attempted update is discarded and
    /// the mirror becomes the fresh fetch the caller made.
    pub fn settle(&mut self, desired: ConfigState, all_ok: bool, fetched: Option<ConfigState>)
        requires
            !all_ok ==> fetched is Some,
        ensures
            final(self).watched@ == old(self).watched@,
            all_ok ==> state_model(final(self).mirror) == state_model(desired),
            !all_ok ==> (match fetched {
                Some(f) => state_model(final(self).mirror) == state_model(f),
                None => false,
            }),
    {
        if all_ok {
            self.mirror = desired;
        } else {
            match fetched {
                Some(f) => {
                    self.mirror = f;
                },
                None => {
                    proof {
                        assert(false);
                    }
                },
            }
        }
    }

    /// Ends one dispatch cycle from the collected per-order outcomes: the
    /// mirror becomes the desired state only if every order succeeded, and
    /// otherwise the fresh fetch — never a state only partially pushed.
    pub fn complete_cycle(
        &mut self,
        desired: ConfigState,
        outcomes: &Vec<Result<Option<(ItemLabel, ActionLabel)>, RpcError>>,
        fetched: Option<ConfigState>,
    )
        requires
            !all_ok_spec(outcomes@) ==> fetched is Some,
        ensures
            final(self).watched@ == old(self).watched@,
            all_ok_spec(outcomes@) ==> state_model(final(self).mirror) == state_model(desired),
            !all_ok_spec(outcomes@) ==> (match fetched {
                Some(f) => state_model(final(self).mirror) == state_model(f),
                None => false,
            }),
    {
        let ok = all_succeeded(outcomes);
        self.settle(desired, ok, fetched);
    }
}

} // verus!
