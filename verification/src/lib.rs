//! Builds a project's reference documentation and serves it over HTTP,
//! rebuilding and restarting the server when the sources change.
//!
//! This crate holds the decisions: what a request is answered with, which
//! paths stay under the documentation root, how the index page reads, when a
//! burst of file notifications counts as one change, and what the coordinator
//! does next. Sockets, files, the file watcher and the documentation build
//! itself belong to the program around it, which hands their outcomes in as
//! plain values.

pub mod coordinator;
pub mod doc;
pub mod http;
pub mod index;
pub mod media;
pub mod resolver;
pub mod server;
pub mod service;
pub mod text;
pub mod units;
pub mod watcher;
pub mod workspace;

use crate::coordinator::{event_views, lemma_run_is_well_formed, Action, Coordinator,
    CoordinatorView, Event};
use crate::doc::{DocMode, Packages, PackagesView};
use crate::server::BindAddress;
use vstd::prelude::*;

verus! {

/// What a run is asked to do.
#[derive(Clone, Debug, PartialEq, Eq)]
pub struct DocserveOptions {
    /// How the documentation is built.
    pub mode: DocMode,
    /// Which packages it is built for.
    pub packages: Packages,
    /// Whether to rebuild and restart when the sources change.
    pub watch: bool,
    /// Where to listen.
    pub addr: BindAddress,
}

pub struct DocserveOptionsView {
    pub mode: DocMode,
    pub packages: PackagesView,
    pub watch: bool,
    pub addr: BindAddress,
}

impl View for DocserveOptions {
    type V = DocserveOptionsView;

    open spec fn view(&self) -> DocserveOptionsView {
        DocserveOptionsView {
            mode: self.mode,
            packages: self.packages@,
            watch: self.watch,
            addr: self.addr,
        }
    }
}

/// Runs the coordinator over a sequence of events that have already
/// happened: the first action of a run, then the answer to each event.
///
/// The first action is always the initial build. The state that is handed
/// back is the one the run has reached.
pub fn run(opts: &DocserveOptions, events: Vec<Event>) -> (out: (Coordinator, Vec<Action>))
    ensures
        out.0@ == CoordinatorView::initial(opts.watch).run(event_views(events@)).0,
        out.1@ == seq![Action::Build] + CoordinatorView::initial(opts.watch).run(
            event_views(events@),
        ).1,
        out.0@.wf(),
{
    let ghost all = event_views(events@);
    let ghost start = CoordinatorView::initial(opts.watch);
    let (first, action) = Coordinator::new(opts.watch);
    let mut coordinator = first;
    let mut actions: Vec<Action> = Vec::new();
    actions.push(action);
    assert(all.take(0).len() == 0);
    for event in it: events
        invariant
            it.seq() == events@,
            all == event_views(events@),
            start == CoordinatorView::initial(opts.watch),
            coordinator@ == start.run(all.take(it.index())).0,
            actions@ == seq![Action::Build] + start.run(all.take(it.index())).1,
    {
        proof {
            let done = all.take(it.index() + 1);
            assert(done.drop_last() == all.take(it.index()));
            assert(done.last() == event@);
        }
        let (next, action) = coordinator.step(event);
        coordinator = next;
        actions.push(action);
    }
    proof {
        assert(all.take(events@.len() as int) == all);
        lemma_run_is_well_formed(start, all);
    }
    (coordinator, actions)
}

} // verus!
