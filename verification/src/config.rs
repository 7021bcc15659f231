use vstd::prelude::*;

use crate::ident::{beam_id_wf, BeamId};
use crate::receiver::ReceiveMode;
use crate::sender::SendArgs;

verus! {

/// Which of the three roles this instance runs, each with only the
/// fields that role reads.
#[derive(Debug, Clone)]
pub enum Mode {
    /// Send one file and exit.
    Send(SendArgs),
    /// Receive files arriving through the proxy, at most `count` of
    /// them (dispatch attempts, successful or not, both count).
    Receive { mode: ReceiveMode, count: u32 },
    /// Run the authenticated HTTP tunnel endpoint.
    Server { bind_addr: String, api_key: String },
}

/// The application context, constructed once at startup and passed into
/// each component; there is no ambient global state.
#[derive(Debug, Clone)]
pub struct Config {
    /// Where the local proxy listens.
    pub beam_url: String,
    /// The key this instance presents to the proxy.
    pub beam_secret: String,
    /// This instance's own identifier.
    pub beam_id: BeamId,
    /// The role to run.
    pub mode: Mode,
}

impl Config {
    /// A usable configuration: the instance's own identifier is
    /// well-formed (parsing it at startup establishes this).
    pub open spec fn wf(&self) -> bool {
        beam_id_wf(&self.beam_id)
    }
}

} // verus!
