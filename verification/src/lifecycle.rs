//! The plugin lifecycle state machine.
//!
//! A live plugin moves through `Created → Initialized → Activated →
//! Processing` and back down, and is destroyed exactly once. The driver
//! never calls into the plugin for an operation the current state forbids:
//! it asks this machine first, and an illegal request comes back as a
//! lifecycle error naming the state and the operation, with the state left
//! unchanged.

use vstd::prelude::*;

verus! {

/// The states a plugin instance passes through.
#[derive(Clone, Copy, PartialEq, Eq, Structural, Debug)]
pub enum PluginState {
    /// Constructed by the factory; not yet initialized.
    Created,
    /// `init()` succeeded; extensions may be queried.
    Initialized,
    /// `activate()` succeeded; block sizes are frozen.
    Activated,
    /// `start_processing()` succeeded; blocks may be processed.
    Processing,
    /// `destroy()` was called; nothing more is legal.
    Destroyed,
}

/// The operations the driver may request on an instance. `Activate` carries
/// the block-size bounds it freezes; `Process` carries the size of the block
/// it would hand over.
#[derive(Clone, Copy, PartialEq, Eq, Structural, Debug)]
pub enum LifecycleOp {
    /// `init()`, on the main thread.
    Init,
    /// `activate(sample_rate, min_block, max_block)`.
    Activate { min_block: u32, max_block: u32 },
    /// `start_processing()`, on the audio thread.
    StartProcessing,
    /// One `process()` call with a block of `block_size` samples.
    Process { block_size: u32 },
    /// `stop_processing()`, on the audio thread.
    StopProcessing,
    /// `deactivate()`, back to the initialized state.
    Deactivate,
    /// `reset()`; legal while activated or processing.
    Reset,
    /// A main-thread parameter flush outside of processing.
    ParamFlush,
    /// An extension query; legal once initialized.
    GetExtension,
    /// Saving state through the state extension.
    SaveState,
    /// Loading state through the state extension.
    LoadState,
    /// `destroy()`; exactly once, from any live state.
    Destroy,
}

/// The error reported when an operation is refused: the state it was
/// attempted in and the operation itself.
#[derive(Clone, Copy, PartialEq, Eq, Structural, Debug)]
pub struct LifecycleError {
    /// The state the instance was in.
    pub state: PluginState,
    /// The refused operation.
    pub op: LifecycleOp,
}

/// The verified mirror of one instance's lifecycle: its state and the block
/// size bounds frozen by the latest activation.
#[derive(Clone, Copy, PartialEq, Eq, Structural)]
pub struct InstanceStateMachine {
    /// The current lifecycle state.
    pub state: PluginState,
    /// The smallest block size activation promised, meaningful from
    /// activation to deactivation.
    pub min_block: u32,
    /// The largest block size activation promised, meaningful from
    /// activation to deactivation.
    pub max_block: u32,
}

/// Whether `op` is legal for a machine in state `m`.
pub open spec fn op_allowed(m: InstanceStateMachine, op: LifecycleOp) -> bool {
    match op {
        LifecycleOp::Init => m.state == PluginState::Created,
        LifecycleOp::Activate { min_block, max_block } => m.state == PluginState::Initialized
            && min_block <= max_block,
        LifecycleOp::StartProcessing => m.state == PluginState::Activated,
        LifecycleOp::Process { block_size } => m.state == PluginState::Processing
            && m.min_block <= block_size && block_size <= m.max_block,
        LifecycleOp::StopProcessing => m.state == PluginState::Processing,
        LifecycleOp::Deactivate => m.state == PluginState::Activated,
        LifecycleOp::Reset => m.state == PluginState::Activated || m.state
            == PluginState::Processing,
        LifecycleOp::ParamFlush => m.state == PluginState::Initialized,
        LifecycleOp::GetExtension => m.state == PluginState::Initialized || m.state
            == PluginState::Activated || m.state == PluginState::Processing,
        LifecycleOp::SaveState => m.state == PluginState::Initialized || m.state
            == PluginState::Activated || m.state == PluginState::Processing,
        LifecycleOp::LoadState => m.state == PluginState::Initialized || m.state
            == PluginState::Activated || m.state == PluginState::Processing,
        LifecycleOp::Destroy => m.state != PluginState::Destroyed,
    }
}

/// The machine after a legal `op`.
pub open spec fn op_next(m: InstanceStateMachine, op: LifecycleOp) -> InstanceStateMachine {
    match op {
        LifecycleOp::Init => InstanceStateMachine { state: PluginState::Initialized, ..m },
        LifecycleOp::Activate { min_block, max_block } => InstanceStateMachine {
            state: PluginState::Activated,
            min_block,
            max_block,
        },
        LifecycleOp::StartProcessing => InstanceStateMachine {
            state: PluginState::Processing,
            ..m
        },
        LifecycleOp::Process { .. } => m,
        LifecycleOp::StopProcessing => InstanceStateMachine {
            state: PluginState::Activated,
            ..m
        },
        LifecycleOp::Deactivate => InstanceStateMachine {
            state: PluginState::Initialized,
            ..m
        },
        LifecycleOp::Reset => m,
        LifecycleOp::ParamFlush => m,
        LifecycleOp::GetExtension => m,
        LifecycleOp::SaveState => m,
        LifecycleOp::LoadState => m,
        LifecycleOp::Destroy => InstanceStateMachine { state: PluginState::Destroyed, ..m },
    }
}

impl InstanceStateMachine {
    /// The machine for a freshly created instance.
    pub fn new() -> (r: InstanceStateMachine)
        ensures
            r.state == PluginState::Created,
            r.min_block == 0,
            r.max_block == 0,
    {
        InstanceStateMachine { state: PluginState::Created, min_block: 0, max_block: 0 }
    }

    /// Request `op`. Succeeds and steps the machine exactly when the
    /// lifecycle permits the operation in the current state; otherwise the
    /// machine is unchanged and the error names the offending transition.
    /// The driver calls into the plugin only after this returns `Ok`, so an
    /// illegal transition never reaches the plugin.
    pub fn request(&mut self, op: LifecycleOp) -> (r: Result<(), LifecycleError>)
        ensures
            r.is_ok() <==> op_allowed(*old(self), op),
            r.is_ok() ==> *final(self) == op_next(*old(self), op),
            r.is_err() ==> *final(self) == *old(self),
            r matches Err(e) ==> e.state == old(self).state && e.op == op,
    {
        let allowed = match op {
            LifecycleOp::Init => matches!(self.state, PluginState::Created),
            LifecycleOp::Activate { min_block, max_block } => matches!(
                self.state,
                PluginState::Initialized
            ) && min_block <= max_block,
            LifecycleOp::StartProcessing => matches!(self.state, PluginState::Activated),
            LifecycleOp::Process { block_size } => matches!(self.state, PluginState::Processing)
                && self.min_block <= block_size && block_size <= self.max_block,
            LifecycleOp::StopProcessing => matches!(self.state, PluginState::Processing),
            LifecycleOp::Deactivate => matches!(self.state, PluginState::Activated),
            LifecycleOp::Reset => matches!(
                self.state,
                PluginState::Activated | PluginState::Processing
            ),
            LifecycleOp::ParamFlush => matches!(self.state, PluginState::Initialized),
            LifecycleOp::GetExtension => matches!(
                self.state,
                PluginState::Initialized | PluginState::Activated | PluginState::Processing
            ),
            LifecycleOp::SaveState => matches!(
                self.state,
                PluginState::Initialized | PluginState::Activated | PluginState::Processing
            ),
            LifecycleOp::LoadState => matches!(
                self.state,
                PluginState::Initialized | PluginState::Activated | PluginState::Processing
            ),
            LifecycleOp::Destroy => !matches!(self.state, PluginState::Destroyed),
        };
        if !allowed {
            return Result::Err(LifecycleError { state: self.state, op });
        }
        match op {
            LifecycleOp::Init => {
                self.state = PluginState::Initialized;
            },
            LifecycleOp::Activate { min_block, max_block } => {
                self.state = PluginState::Activated;
                self.min_block = min_block;
                self.max_block = max_block;
            },
            LifecycleOp::StartProcessing => {
                self.state = PluginState::Processing;
            },
            LifecycleOp::Process { .. } => {},
            LifecycleOp::StopProcessing => {
                self.state = PluginState::Activated;
            },
            LifecycleOp::Deactivate => {
                self.state = PluginState::Initialized;
            },
            LifecycleOp::Reset => {},
            LifecycleOp::ParamFlush => {},
            LifecycleOp::GetExtension => {},
            LifecycleOp::SaveState => {},
            LifecycleOp::LoadState => {},
            LifecycleOp::Destroy => {
                self.state = PluginState::Destroyed;
            },
        }
        Result::Ok(())
    }
}

/// Destruction is final: once the machine is destroyed, no operation is
/// legal any more, so `destroy()` can never be requested twice.
pub proof fn lemma_destroyed_is_terminal(m: InstanceStateMachine, op: LifecycleOp)
    requires
        m.state == PluginState::Destroyed,
    ensures
        !op_allowed(m, op),
{
}

} // verus!
