//! One server instance: what it serves and where it is in its life.

use crate::units::{unit_views, DocumentableUnit, UnitView};
use vstd::prelude::*;

verus! {

/// The four octets of an IPv4 address, most significant first.
#[derive(Clone, Copy, Debug, PartialEq, Eq, Structural)]
pub struct Ipv4 {
    pub a: u8,
    pub b: u8,
    pub c: u8,
    pub d: u8,
}

/// An IPv4 address and port to listen on.
#[derive(Clone, Copy, Debug, PartialEq, Eq, Structural)]
pub struct BindAddress {
    pub ip: Ipv4,
    pub port: u16,
}

impl BindAddress {
    pub open spec fn local_default() -> BindAddress {
        BindAddress { ip: Ipv4 { a: 127, b: 0, c: 0, d: 1 }, port: 8000 }
    }

    /// `127.0.0.1:8000`, the address used unless another is configured.
    pub fn default_local() -> (addr: BindAddress)
        ensures
            addr == BindAddress::local_default(),
    {
        BindAddress { ip: Ipv4 { a: 127, b: 0, c: 0, d: 1 }, port: 8000 }
    }
}

/// What one server instance serves: fixed for the lifetime of the instance.
#[derive(Clone, Debug, PartialEq, Eq)]
pub struct ServerConfig {
    /// The documentation root directory.
    pub doc_dir: String,
    /// The units to list on the index page, in listing order.
    pub targets: Vec<DocumentableUnit>,
    /// Where to listen.
    pub addr: BindAddress,
}

pub struct ServerConfigView {
    pub doc_dir: Seq<char>,
    pub targets: Seq<UnitView>,
    pub addr: BindAddress,
}

impl View for ServerConfig {
    type V = ServerConfigView;

    open spec fn view(&self) -> ServerConfigView {
        ServerConfigView {
            doc_dir: self.doc_dir@,
            targets: unit_views(self.targets@),
            addr: self.addr,
        }
    }
}

/// Where a server instance is in its life. An instance starts out `Running`,
/// and once it is `Stopped` it stays so: a restart makes a new instance.
#[derive(Clone, Copy, Debug, PartialEq, Eq, Structural)]
pub enum Lifecycle {
    Stopped,
    Running,
    Draining,
}

impl Lifecycle {
    /// Whether an instance in this state holds the listening port.
    pub open spec fn is_live(self) -> bool {
        self != Lifecycle::Stopped
    }
}

/// How an attempt to bind the listener ended.
#[derive(Clone, Copy, Debug, PartialEq, Eq, Structural)]
pub enum BindOutcome {
    Bound,
    AddressInUse,
    Unavailable,
}

/// Why no listener could be bound.
#[derive(Clone, Copy, Debug, PartialEq, Eq, Structural)]
pub enum BindError {
    AddressInUse,
    Unavailable,
}

/// One server instance with the configuration it owns.
#[derive(Debug)]
pub struct ServerHandle {
    config: ServerConfig,
    state: Lifecycle,
}

pub struct HandleView {
    pub config: ServerConfigView,
    pub state: Lifecycle,
}

impl View for ServerHandle {
    type V = HandleView;

    closed spec fn view(&self) -> HandleView {
        HandleView { config: self.config@, state: self.state }
    }
}

impl HandleView {
    /// The handle after a shutdown signal: a running instance starts to
    /// drain; a draining or stopped one is left as it is.
    pub open spec fn after_shutdown(self) -> HandleView {
        if self.state == Lifecycle::Running {
            HandleView { state: Lifecycle::Draining, ..self }
        } else {
            self
        }
    }

    /// The handle once its instance has ended, whether its requests drained
    /// or the grace period ran out and the rest were cut off.
    pub open spec fn after_stop(self) -> HandleView {
        HandleView { state: Lifecycle::Stopped, ..self }
    }
}

pub open spec fn start_spec(config: ServerConfigView, outcome: BindOutcome) -> Result<
    HandleView,
    BindError,
> {
    match outcome {
        BindOutcome::Bound => Ok(HandleView { config, state: Lifecycle::Running }),
        BindOutcome::AddressInUse => Err(BindError::AddressInUse),
        BindOutcome::Unavailable => Err(BindError::Unavailable),
    }
}

/// Makes the handle of a new instance from the outcome of binding its
/// listener at `config.addr`: running if the listener was bound, the bind
/// error otherwise.
pub fn start(config: ServerConfig, outcome: BindOutcome) -> (started: Result<
    ServerHandle,
    BindError,
>)
    ensures
        match started {
            Ok(handle) => start_spec(config@, outcome) == Ok::<HandleView, BindError>(handle@),
            Err(error) => start_spec(config@, outcome) == Err::<HandleView, BindError>(error),
        },
{
    match outcome {
        BindOutcome::Bound => Ok(ServerHandle { config, state: Lifecycle::Running }),
        BindOutcome::AddressInUse => Err(BindError::AddressInUse),
        BindOutcome::Unavailable => Err(BindError::Unavailable),
    }
}

impl ServerHandle {
    pub fn config(&self) -> (config: &ServerConfig)
        ensures
            config@ == self@.config,
    {
        &self.config
    }

    pub fn state(&self) -> (state: Lifecycle)
        ensures
            state == self@.state,
    {
        self.state
    }

    /// Signals the instance to stop accepting and to let its requests finish.
    pub fn shutdown(&mut self)
        ensures
            final(self)@ == old(self)@.after_shutdown(),
    {
        if self.state == Lifecycle::Running {
            self.state = Lifecycle::Draining;
        }
    }

    /// Records that the instance has ended and its port is free again.
    pub fn stop(&mut self)
        ensures
            final(self)@ == old(self)@.after_stop(),
    {
        self.state = Lifecycle::Stopped;
    }

    /// Gives up the handle and hands back the configuration it owned.
    pub fn into_config(self) -> (config: ServerConfig)
        ensures
            config@ == self@.config,
    {
        self.config
    }
}

/// An instance only moves forward in its life: no signal brings a stopped
/// instance back, and none makes a draining one run again.
pub proof fn lemma_lifecycle_moves_forward(handle: HandleView)
    ensures
        handle.after_stop().state == Lifecycle::Stopped,
        handle.state == Lifecycle::Stopped ==> handle.after_shutdown().state == Lifecycle::Stopped,
        handle.state != Lifecycle::Running ==> handle.after_shutdown().state != Lifecycle::Running,
        handle.state == Lifecycle::Running ==> handle.after_shutdown().state
            == Lifecycle::Draining,
        handle.after_shutdown().config == handle.config,
        handle.after_stop().config == handle.config,
{
}

} // verus!
