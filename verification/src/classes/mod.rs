pub mod block;
pub mod gpio;
pub mod net;
