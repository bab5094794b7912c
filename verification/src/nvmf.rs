//! Events of an NVMe-oF subsystem.
use vstd::prelude::*;
use vstd::string::StringSliceAdditionalSpecFns;
use vstd::utf8::valid_utf8;
use crate::ffihelper::{c_str, spec_c_text};

verus! {

/// The code of the event "a host connected".
pub const EVENT_HOST_CONNECT: u32 = 0;

/// The code of the event "a host disconnected".
pub const EVENT_HOST_DISCONNECT: u32 = 1;

/// The code of the event "a host let its keep-alive time run out".
pub const EVENT_HOST_KEEP_ALIVE_TIMEOUT: u32 = 2;

/// A controller: the session of one host with a subsystem.
#[derive(Debug, Clone, PartialEq, Eq)]
pub struct NvmfController {
    /// The buffer with the qualified name of the host, closed by a zero
    /// byte.
    pub hostnqn: Vec<u8>,
}

impl NvmfController {
    /// The qualified name of the host: the text in the buffer, up to its
    /// first zero byte; empty where that is no valid UTF-8.
    pub fn hostnqn(&self) -> (nqn: String)
        ensures
            valid_utf8(spec_c_text(self.hostnqn@)) ==> vstd::utf8::encode_utf8(nqn@)
                == spec_c_text(self.hostnqn@),
            !valid_utf8(spec_c_text(self.hostnqn@)) ==> nqn@.len() == 0,
    {
        c_str(self.hostnqn.as_slice()).to_owned()
    }
}

/// What happened between a host and a subsystem.
#[derive(Debug, Clone, PartialEq, Eq)]
pub enum NvmfSubsystemEvent {
    /// A host connected.
    HostConnect(NvmfController),
    /// A host disconnected.
    HostDisconnect(NvmfController),
    /// A host let its keep-alive time run out.
    HostKeepAliveTimeout(NvmfController),
    /// An event that is none of the above.
    Unknown,
}

impl NvmfSubsystemEvent {
    /// True where the code names an event that is about a controller.
    pub open spec fn spec_known(event: u32) -> bool {
        event == EVENT_HOST_CONNECT || event == EVENT_HOST_DISCONNECT || event
            == EVENT_HOST_KEEP_ALIVE_TIMEOUT
    }

    /// The event of a code and a controller.
    pub open spec fn spec_from_cb_args(event: u32, ctrlr: Option<NvmfController>) -> Self {
        if event == EVENT_HOST_CONNECT {
            NvmfSubsystemEvent::HostConnect(ctrlr.unwrap())
        } else if event == EVENT_HOST_DISCONNECT {
            NvmfSubsystemEvent::HostDisconnect(ctrlr.unwrap())
        } else if event == EVENT_HOST_KEEP_ALIVE_TIMEOUT {
            NvmfSubsystemEvent::HostKeepAliveTimeout(ctrlr.unwrap())
        } else {
            NvmfSubsystemEvent::Unknown
        }
    }

    /// Reads an event out of what the subsystem hands to its callback: the
    /// code of the event and the controller it is about. A code that names
    /// no event gives `Unknown`. An event about a controller that comes
    /// without one is left out.
    pub fn from_cb_args(event: u32, ctrlr: Option<NvmfController>) -> (e: Self)
        requires
            Self::spec_known(event) ==> ctrlr.is_some(),
        ensures
            e == Self::spec_from_cb_args(event, ctrlr),
    {
        if event == EVENT_HOST_CONNECT {
            NvmfSubsystemEvent::HostConnect(ctrlr.unwrap())
        } else if event == EVENT_HOST_DISCONNECT {
            NvmfSubsystemEvent::HostDisconnect(ctrlr.unwrap())
        } else if event == EVENT_HOST_KEEP_ALIVE_TIMEOUT {
            NvmfSubsystemEvent::HostKeepAliveTimeout(ctrlr.unwrap())
        } else {
            NvmfSubsystemEvent::Unknown
        }
    }
}

} // verus!
