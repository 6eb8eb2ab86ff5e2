//! Bringing a socket up: open or duplicate, switch to non-blocking, register.
//!
//! The three steps are system calls, so the driver makes them. The order, the
//! handling of their failures and the handle that comes out are decided here.

use vstd::prelude::*;
use crate::socket::{Error, IsoTpSocket, SocketModel};

verus! {

/// How far a setup has come.
#[derive(Clone, Copy, PartialEq, Eq, Debug, Structural)]
pub enum Stage {
    /// No descriptor exists yet.
    Creating,
    /// The descriptor exists and is still blocking.
    Configuring { descriptor: i32 },
    /// The descriptor is non-blocking and not yet known to the poller.
    Registering { descriptor: i32 },
    /// The handle was handed out.
    Established,
    /// A step failed; the setup was given up.
    Failed,
}

/// The result of a step that the driver made.
#[derive(Debug)]
pub enum SetupEvent {
    /// The transport opened a socket, or the system duplicated one.
    Created(Result<i32, Error>),
    /// The descriptor was switched to non-blocking mode.
    Configured(Result<(), std::io::Error>),
    /// The descriptor was registered with the poller.
    Registered(Result<(), std::io::Error>),
}

/// The step that the driver has to make next.
#[derive(Debug)]
pub enum SetupDemand {
    /// Open a socket on the transport.
    Open,
    /// Duplicate this descriptor.
    Duplicate { descriptor: i32 },
    /// Switch this descriptor to non-blocking mode.
    SetNonBlocking { descriptor: i32 },
    /// Register this descriptor with the poller, for reading and writing.
    Register { descriptor: i32 },
    /// The setup succeeded; this is the handle.
    Established(IsoTpSocket),
    /// The setup failed with `error`. A descriptor named by `release` was
    /// made on the way and has to be closed.
    Abandon { release: Option<i32>, error: Error },
    /// The setup ended earlier; nothing is left to do.
    Over,
}

/// What a setup is: its stage, the descriptor it duplicates if it does, and
/// the write policy of the handle it will hand out.
pub struct SetupModel {
    pub stage: Stage,
    pub source: Option<i32>,
    pub clear_on_spurious_write: bool,
}

impl SetupModel {
    /// What the setup asks of the driver before any further event.
    pub open spec fn pending(self) -> SetupDemand {
        match self.stage {
            Stage::Creating => match self.source {
                Some(descriptor) => SetupDemand::Duplicate { descriptor },
                None => SetupDemand::Open,
            },
            Stage::Configuring { descriptor } => SetupDemand::SetNonBlocking { descriptor },
            Stage::Registering { descriptor } => SetupDemand::Register { descriptor },
            Stage::Established => SetupDemand::Over,
            Stage::Failed => SetupDemand::Over,
        }
    }

    /// The stage after an event.
    ///
    /// Each step is made once. The first failure ends the setup; an event
    /// that does not report the step that was asked for is dropped.
    pub open spec fn next_stage(self, event: SetupEvent) -> Stage {
        match (self.stage, event) {
            (Stage::Creating, SetupEvent::Created(Ok(descriptor))) => Stage::Configuring {
                descriptor,
            },
            (Stage::Creating, SetupEvent::Created(Err(_))) => Stage::Failed,
            (Stage::Configuring { descriptor }, SetupEvent::Configured(Ok(_))) => Stage::Registering {
                descriptor,
            },
            (Stage::Configuring { .. }, SetupEvent::Configured(Err(_))) => Stage::Failed,
            (Stage::Registering { .. }, SetupEvent::Registered(Ok(_))) => Stage::Established,
            (Stage::Registering { .. }, SetupEvent::Registered(Err(_))) => Stage::Failed,
            _ => self.stage,
        }
    }

    /// The setup after an event: only its stage moves.
    pub open spec fn after(self, event: SetupEvent) -> SetupModel {
        SetupModel { stage: self.next_stage(event), ..self }
    }

    /// Whether `demand` is what the setup asks for after an event.
    ///
    /// A handle is handed out only after all three steps succeeded, and it
    /// owns the descriptor that was made in the first. A failure is reported
    /// as it came, together with the descriptor to close if one was made.
    pub open spec fn asks(self, event: SetupEvent, demand: SetupDemand) -> bool {
        match (self.stage, event) {
            (Stage::Creating, SetupEvent::Created(Ok(descriptor))) => demand == (
            SetupDemand::SetNonBlocking { descriptor }),
            (Stage::Creating, SetupEvent::Created(Err(error))) => demand == (SetupDemand::Abandon {
                release: None,
                error,
            }),
            (Stage::Configuring { descriptor }, SetupEvent::Configured(Ok(_))) => demand == (
            SetupDemand::Register { descriptor }),
            (Stage::Configuring { descriptor }, SetupEvent::Configured(Err(source))) => demand == (
            SetupDemand::Abandon { release: Some(descriptor), error: Error::Io { source } }),
            (Stage::Registering { descriptor }, SetupEvent::Registered(Ok(_))) => {
                &&& demand matches SetupDemand::Established(socket)
                &&& socket@ == (SocketModel {
                    descriptor,
                    clear_on_spurious_write: self.clear_on_spurious_write,
                })
            },
            (Stage::Registering { descriptor }, SetupEvent::Registered(Err(source))) => demand == (
            SetupDemand::Abandon { release: Some(descriptor), error: Error::Io { source } }),
            _ => demand == self.pending(),
        }
    }
}

/// The setup of one socket handle.
#[derive(Debug)]
pub struct Setup {
    stage: Stage,
    source: Option<i32>,
    clear_on_spurious_write: bool,
}

impl View for Setup {
    type V = SetupModel;

    closed spec fn view(&self) -> SetupModel {
        SetupModel {
            stage: self.stage,
            source: self.source,
            clear_on_spurious_write: self.clear_on_spurious_write,
        }
    }
}

impl Setup {
    /// The setup of a socket that the transport opens. Its writes clear a
    /// readiness that proved false.
    pub fn new() -> (setup: Self)
        ensures
            setup@ == (SetupModel {
                stage: Stage::Creating,
                source: None,
                clear_on_spurious_write: true,
            }),
    {
        Setup { stage: Stage::Creating, source: None, clear_on_spurious_write: true }
    }

    /// The setup of a second handle to the socket of `original`: a handle
    /// with a descriptor of its own and the same write policy.
    pub fn duplicating(original: &IsoTpSocket) -> (setup: Self)
        ensures
            setup@ == (SetupModel {
                stage: Stage::Creating,
                source: Some(original@.descriptor),
                clear_on_spurious_write: original@.clear_on_spurious_write,
            }),
    {
        Setup {
            stage: Stage::Creating,
            source: Some(original.descriptor()),
            clear_on_spurious_write: original.clear_on_spurious_write(),
        }
    }

    /// How far the setup has come.
    pub fn stage(&self) -> (stage: Stage)
        ensures
            stage == self@.stage,
    {
        self.stage
    }

    /// The step that the driver has to make before it can report an event.
    pub fn demand(&self) -> (demand: SetupDemand)
        ensures
            demand == self@.pending(),
    {
        match self.stage {
            Stage::Creating => match self.source {
                Some(descriptor) => SetupDemand::Duplicate { descriptor },
                None => SetupDemand::Open,
            },
            Stage::Configuring { descriptor } => SetupDemand::SetNonBlocking { descriptor },
            Stage::Registering { descriptor } => SetupDemand::Register { descriptor },
            Stage::Established => SetupDemand::Over,
            Stage::Failed => SetupDemand::Over,
        }
    }

    /// Takes the result of a step and says which step comes next.
    pub fn step(&mut self, event: SetupEvent) -> (demand: SetupDemand)
        ensures
            final(self)@ == old(self)@.after(event),
            old(self)@.asks(event, demand),
    {
        match (self.stage, event) {
            (Stage::Creating, SetupEvent::Created(Ok(descriptor))) => {
                self.stage = Stage::Configuring { descriptor };
                SetupDemand::SetNonBlocking { descriptor }
            },
            (Stage::Creating, SetupEvent::Created(Err(error))) => {
                self.stage = Stage::Failed;
                SetupDemand::Abandon { release: None, error }
            },
            (Stage::Configuring { descriptor }, SetupEvent::Configured(Ok(_))) => {
                self.stage = Stage::Registering { descriptor };
                SetupDemand::Register { descriptor }
            },
            (Stage::Configuring { descriptor }, SetupEvent::Configured(Err(source))) => {
                self.stage = Stage::Failed;
                SetupDemand::Abandon { release: Some(descriptor), error: Error::Io { source } }
            },
            (Stage::Registering { descriptor }, SetupEvent::Registered(Ok(_))) => {
                self.stage = Stage::Established;
                SetupDemand::Established(
                    IsoTpSocket::established(descriptor, self.clear_on_spurious_write),
                )
            },
            (Stage::Registering { descriptor }, SetupEvent::Registered(Err(source))) => {
                self.stage = Stage::Failed;
                SetupDemand::Abandon { release: Some(descriptor), error: Error::Io { source } }
            },
            _ => self.demand(),
        }
    }
}

/// A setup works on the descriptor that its first step made and on no
/// other. That descriptor is the one it switches to non-blocking mode and
/// registers, the one it names for closing when a later step fails, and the
/// one that the handle owns in the end. A setup that duplicates never asks
/// for anything to be done to the descriptor it duplicates from.
pub proof fn lemma_setup_keeps_its_descriptor(
    setup: SetupModel,
    descriptor: i32,
    second: SetupEvent,
    third: SetupEvent,
    second_demand: SetupDemand,
    third_demand: SetupDemand,
)
    requires
        setup.stage is Creating,
        second is Configured,
        third is Registered,
        setup.after(SetupEvent::Created(Ok(descriptor))).asks(second, second_demand),
        setup.after(SetupEvent::Created(Ok(descriptor))).after(second).asks(third, third_demand),
    ensures
        setup.asks(
            SetupEvent::Created(Ok(descriptor)),
            SetupDemand::SetNonBlocking { descriptor },
        ),
        second matches SetupEvent::Configured(Ok(_)) ==> second_demand == (SetupDemand::Register {
            descriptor,
        }),
        second matches SetupEvent::Configured(Err(source)) ==> second_demand == (
        SetupDemand::Abandon { release: Some(descriptor), error: Error::Io { source } }),
        second matches SetupEvent::Configured(Err(_)) ==> third_demand == SetupDemand::Over,
        second matches SetupEvent::Configured(Ok(_)) ==> (third matches SetupEvent::Registered(
            Err(source),
        ) ==> third_demand == (SetupDemand::Abandon {
            release: Some(descriptor),
            error: Error::Io { source },
        })),
        second matches SetupEvent::Configured(Ok(_)) ==> (third matches SetupEvent::Registered(
            Ok(_),
        ) ==> (third_demand matches SetupDemand::Established(socket) && socket@ == (SocketModel {
            descriptor,
            clear_on_spurious_write: setup.clear_on_spurious_write,
        }))),
{
}

/// A setup that has ended is never taken up again: once it has handed out
/// its handle or failed, every event leaves it where it is, and all it says
/// is that it is over.
pub proof fn lemma_ended_setup_is_final(setup: SetupModel, event: SetupEvent, demand: SetupDemand)
    requires
        setup.stage is Established || setup.stage is Failed,
        setup.asks(event, demand),
    ensures
        setup.after(event) == setup,
        demand == SetupDemand::Over,
{
}

} // verus!
