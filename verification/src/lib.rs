//! Firmware update logic for GoXLR audio mixers.
//!
//! The crate reads the header of a firmware image, orders firmware
//! versions, plans the download of an image in ranges, and runs the
//! protocol that carries an image onto a device: erase, upload, validate,
//! verify, finalise, and a reboot at the end of every session, whether it
//! went through or not.
//!
//! Nothing here touches the network, the disk or the USB bus. A download
//! and an update are each a session that hands out one command at a time
//! and is told what came of it; the caller carries the commands out.
//!
//! - [`firmware`]: the image header.
//! - [`version`]: version numbers and their order.
//! - [`device`]: devices, the list a scan makes of them, and the registry
//!   of open connections.
//! - [`download`]: ranges, headers, and the download session.
//! - [`update`]: the update session.
//! - [`history`]: what holds of whole sessions.
//! - [`progress`], [`text`]: percentages and decimal numbers.
//! - [`messages`]: what is sent to the user interface.
//! - [`wizard`], [`screens`], [`preflight`]: the pages that lead the user
//!   through an update.

pub mod device;
pub mod download;
pub mod firmware;
pub mod history;
pub mod messages;
pub mod preflight;
pub mod progress;
pub mod screens;
pub mod text;
pub mod update;
pub mod version;
pub mod wizard;

pub use crate::device::{Device, DeviceLocal, DeviceType};
pub use crate::firmware::{check_firmware, get_firmware_name, FirmwareInfo};
pub use crate::messages::{
    FirmwareDetails, Message, PageMessages, SelectUpdateOption, StepMessages,
};
pub use crate::version::{version_newer_or_equal_to, VersionNumber};
