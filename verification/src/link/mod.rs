pub mod chipid;
pub mod constants;
pub mod enums;
pub mod link;
pub mod structs;
pub mod util;
