//! The terminal controller: one place that owns the components a terminal
//! session wires together — the input distributor, the write multiplexer
//! over the output device, and the resize controller probing through them.
use crate::distributor::InputDistributor;
use crate::distributor::ScanMode;
use crate::resize::ProbeState;
use crate::resize::ResizeController;
use crate::writemux::WriteMux;
use vstd::prelude::*;

verus! {

/// The wired-up terminal session state.
pub struct TermController {
    /// Fans raw input out to the text and escape topics.
    pub input: InputDistributor,
    /// Serializes writes to the owned output device.
    pub write_mux: WriteMux,
    /// Detects and republishes terminal size changes.
    pub resize: ResizeController,
}

impl TermController {
    pub open spec fn wf(&self) -> bool {
        &&& self.write_mux.wf()
        &&& self.resize.wf()
    }

    /// A fresh session: nothing read, nothing written, no probe in flight.
    pub fn new() -> (ctl: TermController)
        ensures
            ctl.wf(),
            ctl.input.mode == ScanMode::Plain,
            ctl.input.text.log@ == Seq::<char>::empty(),
            ctl.input.escape.log@ == Seq::<char>::empty(),
            ctl.write_mux.pool.capacity == 1,
            ctl.write_mux.pool.available == 1,
            ctl.write_mux.out@ == Seq::<u8>::empty(),
            ctl.resize.probe == ProbeState::Idle,
            ctl.resize.size == (0u16, 0u16),
            ctl.resize.version == 1,
    {
        TermController {
            input: InputDistributor::new(),
            write_mux: WriteMux::new(),
            resize: ResizeController::new(),
        }
    }
}

} // verus!
