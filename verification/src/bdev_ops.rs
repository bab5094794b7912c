//! What the payload of a device must offer.
use vstd::prelude::*;
use crate::io_devices::IoDevice;
use crate::io_type::IoType;
use crate::json_write_context::{JsonView, JsonWriteContext};

verus! {

/// Behaviour that the payload of a device supplies. The directory calls
/// these on behalf of the device.
pub trait BdevOps {
    /// The I/O device that channels to the device are made for.
    type IoDev: IoDevice;

    /// Whether the payload serves requests of the given kind.
    spec fn spec_io_type_supported(&self, io_type: IoType) -> bool;

    /// Releases what the payload holds. Called once, when its device is
    /// destroyed, before the record of the device gives the payload up.
    fn destruct(&mut self);

    /// Says whether the payload serves requests of the given kind.
    fn io_type_supported(&self, io_type: IoType) -> (b: bool)
        ensures
            b == self.spec_io_type_supported(io_type),
    ;

    /// The I/O device of the payload.
    fn get_io_device(&self) -> &Self::IoDev;

    /// The writer after the payload has said what it has to say about
    /// itself; as it was before, unless the payload says otherwise.
    open spec fn spec_dump_info_json(&self, before: JsonView) -> JsonView {
        before
    }

    /// Writes what the payload has to say about itself as JSON, through the
    /// writer, and leaves the writer as `spec_dump_info_json` says. A
    /// payload that has nothing to say leaves the writer as it was.
    fn dump_info_json(&self, w: &mut JsonWriteContext)
        requires
            old(w).wf(),
        ensures
            final(w).wf(),
            final(w)@ == self.spec_dump_info_json(old(w)@),
    ;
}

/// The payload of a device whose payload does not matter: it serves no
/// request and holds nothing.
impl BdevOps for () {
    type IoDev = ();

    open spec fn spec_io_type_supported(&self, io_type: IoType) -> bool {
        false
    }

    fn get_io_device(&self) -> &Self::IoDev {
        self
    }

    fn destruct(&mut self) {
    }

    fn io_type_supported(&self, io_type: IoType) -> (b: bool) {
        false
    }

    fn dump_info_json(&self, w: &mut JsonWriteContext) {
    }
}

} // verus!
