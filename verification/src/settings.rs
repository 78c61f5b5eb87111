//! The discrete application settings the rest of the library cares about.
//!
//! The full settings file carries many tuning parameters for the window,
//! the display and the simulation; those stay with the code that reads the
//! file. The enumerations here are the choices other components branch on.

use vstd::prelude::*;

verus! {

/// Modes of presentation for the swapchain.
///
/// See the platform's presentation documentation for what these behave
/// like.
#[derive(Clone, Copy, Debug, Eq, PartialEq, Structural)]
pub enum PresentationMode {
    Mailbox,
    Fifo,
}

/// Graphics backend to drive the device with.
#[derive(Clone, Copy, Debug, Eq, PartialEq, Structural)]
pub enum Backend {
    Vulkan,
    GL,
    Metal,
    DX12,
    DX11,
    BrowserWebGpu,
}

/// Whether the simulation steps on the processor or on the accelerator.
#[derive(Clone, Copy, Debug, Eq, PartialEq, Structural)]
pub enum SimulationMode {
    Cpu,
    Gpu,
}

} // verus!
