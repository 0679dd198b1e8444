//! The command recorder: at most one live command encoder per render context.

use crate::backend::{Command, RenderResourceContext};
use vstd::prelude::*;

verus! {

/// The state of a recorder: whether a recording is active, and how many
/// recordings have been started on the device so far.
pub struct Recording {
    pub active: bool,
    pub created: nat,
}

impl Recording {
    /// The state after a recording was asked for: the active one is kept;
    /// without one, a new one is started.
    pub open spec fn started(self) -> Recording {
        Recording {
            active: true,
            created: if self.active {
                self.created
            } else {
                self.created + 1
            },
        }
    }

    /// The state after a new recording was started, whatever was active.
    pub open spec fn restarted(self) -> Recording {
        Recording { active: true, created: self.created + 1 }
    }

    /// The state after the active recording, if any, was taken out.
    pub open spec fn taken(self) -> Recording {
        Recording { active: false, created: self.created }
    }

    /// The state after a recording was put in, in place of what was active.
    pub open spec fn replaced(self) -> Recording {
        Recording { active: true, created: self.created }
    }
}

/// A slot that holds the active command encoder, if there is one.
pub struct LazyCommandEncoder<T: RenderResourceContext> {
    command_encoder: Option<T::CommandEncoder>,
    created: Ghost<nat>,
}

impl<T: RenderResourceContext> LazyCommandEncoder<T> {
    /// The encoder in the slot.
    pub closed spec fn slot(&self) -> Option<T::CommandEncoder> {
        self.command_encoder
    }

    /// How many encoders this recorder has asked the device for.
    pub closed spec fn created(&self) -> nat {
        self.created@
    }

    /// The state of the recorder.
    pub open spec fn recording(&self) -> Recording {
        Recording { active: self.slot() is Some, created: self.created() }
    }

    /// The commands on the active recording; none where the slot is empty.
    pub open spec fn commands(&self) -> Seq<Command> {
        match self.slot() {
            Some(encoder) => T::commands(&encoder),
            None => Seq::empty(),
        }
    }

    /// An empty recorder.
    pub fn new() -> (recorder: Self)
        ensures
            recorder.recording() == (Recording { active: false, created: 0 }),
    {
        LazyCommandEncoder { command_encoder: None, created: Ghost(0) }
    }

    /// The active encoder. Where the slot is empty, one is created on
    /// `device` first.
    pub fn get_or_create(&mut self, device: &T) -> (encoder: &mut T::CommandEncoder)
        ensures
            old(self).slot() matches Some(active) ==> *encoder == active,
            T::commands(&*encoder) == old(self).commands(),
            final(self).slot() == Some(*final(encoder)),
            final(self).recording() == old(self).recording().started(),
    {
        if self.command_encoder.is_none() {
            self.create(device);
        }
        match &mut self.command_encoder {
            Some(command_encoder) => command_encoder,
            None => unreached(),
        }
    }

    /// Whether a recording is active.
    pub fn is_some(&self) -> (active: bool)
        ensures
            active == self.recording().active,
    {
        self.command_encoder.is_some()
    }

    /// Creates an encoder on `device` and makes it the active one, in
    /// place of what was active.
    pub fn create(&mut self, device: &T)
        ensures
            final(self).recording() == old(self).recording().restarted(),
            final(self).commands() == Seq::<Command>::empty(),
    {
        let command_encoder = device.create_command_encoder();
        self.command_encoder = Some(command_encoder);
        self.created = Ghost((self.created@ + 1) as nat);
    }

    /// Takes the active encoder, if there is one, and leaves the slot empty.
    pub fn take(&mut self) -> (taken: Option<T::CommandEncoder>)
        ensures
            taken == old(self).slot(),
            final(self).recording() == old(self).recording().taken(),
    {
        self.command_encoder.take()
    }

    /// Puts an encoder into the slot, in place of what was active.
    pub fn set(&mut self, command_encoder: T::CommandEncoder)
        ensures
            final(self).slot() == Some(command_encoder),
            final(self).recording() == old(self).recording().replaced(),
    {
        self.command_encoder = Some(command_encoder);
    }
}

} // verus!
