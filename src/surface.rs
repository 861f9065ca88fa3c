use vstd::prelude::*;

use crate::startup::StartupError;

verus! {

/// A window or surface size in physical pixels.
#[derive(Clone, Copy, Debug, PartialEq, Eq, Structural)]
pub struct SurfaceSize {
    pub width: u32,
    pub height: u32,
}

impl SurfaceSize {
    /// A size can be applied to a surface only when neither side is zero.
    pub open spec fn is_drawable(self) -> bool {
        self.width > 0 && self.height > 0
    }

    pub fn new(width: u32, height: u32) -> (r: SurfaceSize)
        ensures
            r.width == width,
            r.height == height,
    {
        SurfaceSize { width, height }
    }

    pub fn is_non_zero(&self) -> (r: bool)
        ensures
            r == self.is_drawable(),
    {
        self.width > 0 && self.height > 0
    }
}

/// How presented images are handed to the display.
#[derive(Clone, Copy, Debug, PartialEq, Eq, Structural)]
pub enum PresentMode {
    AutoVsync,
    AutoNoVsync,
    /// Strict vertical synchronisation; every platform supports it.
    Fifo,
    FifoRelaxed,
    Immediate,
    /// Low latency without tearing: the newest image replaces a queued one.
    Mailbox,
}

/// The mode a surface is configured with, given the modes it supports:
/// the low-latency tear-free mode where offered, else the guaranteed
/// synchronised one.
pub open spec fn chosen_present_mode(supported: Seq<PresentMode>) -> PresentMode {
    if supported.contains(PresentMode::Mailbox) {
        PresentMode::Mailbox
    } else {
        PresentMode::Fifo
    }
}

pub fn select_present_mode(supported: &Vec<PresentMode>) -> (r: PresentMode)
    ensures
        r == chosen_present_mode(supported@),
{
    let mut i: usize = 0;
    while i < supported.len()
        invariant
            i <= supported@.len(),
            forall|j: int| 0 <= j < i ==> supported@[j] != PresentMode::Mailbox,
        decreases supported@.len() - i,
    {
        if supported[i] == PresentMode::Mailbox {
            assert(supported@[i as int] == PresentMode::Mailbox);
            return PresentMode::Mailbox;
        }
        i = i + 1;
    }
    PresentMode::Fifo
}

/// The pixel format a surface is configured with: the first, preferred,
/// entry of the formats it supports with the chosen adapter. An empty list
/// means that the surface and the adapter are not compatible.
pub fn select_format<F: Copy>(supported: &Vec<F>) -> (r: Result<F, StartupError>)
    ensures
        supported@.len() > 0 ==> r == Ok::<F, StartupError>(supported@[0]),
        supported@.len() == 0 ==> r == Err::<F, StartupError>(StartupError::NoSupportedFormat),
{
    if supported.len() == 0 {
        Err(StartupError::NoSupportedFormat)
    } else {
        Ok(supported[0])
    }
}

/// The configuration applied to a presentation surface. Its images are
/// always used as render targets.
#[derive(Clone, Copy, Debug)]
pub struct SurfaceConfig<F> {
    pub format: F,
    pub size: SurfaceSize,
    pub present_mode: PresentMode,
}

impl<F: Copy> SurfaceConfig<F> {
    pub open spec fn wf(self) -> bool {
        self.size.is_drawable()
    }
}

} // verus!
