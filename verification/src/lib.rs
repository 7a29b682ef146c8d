pub mod common;
pub mod dbg;
pub mod link;
pub mod usb;
pub mod util;
