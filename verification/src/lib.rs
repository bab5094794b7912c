//! A verified lifecycle layer for block devices.
//!
//! The layer keeps the books of a storage runtime: which devices exist and
//! under which names they are found, who has claimed them, which sessions
//! are open on them, which ranges of their blocks are locked, which threads
//! run, what they have been sent, and which pollers they drive. Each of
//! these has its state machine; the contracts say what each operation does
//! to it, and the theorems what holds across operations.
//!
//! * [`registry`], [`bdev`], [`bdev_builder`], [`bdev_module`],
//!   [`bdev_ops`]: the directory of devices, the handle of a device, how
//!   devices are made, who claims them, and what their payload supplies.
//! * [`bdev_desc`], [`io_channel`], [`io_devices`], [`io_device_traverse`]:
//!   sessions, range locks and I/O channels.
//! * [`thread`], [`poller`], [`cpu_cores`]: cooperative threads, pollers and
//!   the cores they run on.
//! * [`errno`], [`error`], [`bdev_async`], [`bdev_nvme`]: error numbers,
//!   errors, and the results of operations that complete later.
//! * [`io_type`], [`io_vec`], [`dma`], [`nvme`], [`nvmf`],
//!   [`json_write_context`], [`ffihelper`], [`text`], [`unsafe_types`]:
//!   the values that travel through the layer.
//! * [`theorems`]: what holds of the directory across several operations.

pub mod bdev;
pub mod bdev_async;
pub mod bdev_builder;
pub mod bdev_desc;
pub mod bdev_module;
pub mod bdev_nvme;
pub mod bdev_ops;
pub mod cpu_cores;
pub mod dma;
pub mod errno;
pub mod error;
pub mod ffihelper;
pub mod io_channel;
pub mod io_device_traverse;
pub mod io_devices;
pub mod io_type;
pub mod io_vec;
pub mod json_write_context;
pub mod nvme;
pub mod nvmf;
pub mod poller;
pub mod registry;
pub mod text;
pub mod theorems;
pub mod thread;
pub mod unsafe_types;
