//! Receipt printing for ESC/POS thermal printers attached over USB.
//!
//! A receipt is an ordered list of formatted lines, each optionally followed
//! by a QR code. The crate turns such a receipt into the printer's command
//! bytes and decides, step by step, how a job talks to the USB device.

pub mod bitmap;
pub mod error;
pub mod escpos;
pub mod job;
pub mod locks;
pub mod qr;
pub mod raster;
pub mod request;
pub mod transport;
pub mod usb;
