pub mod aggregate;
pub mod cmdline;
pub mod message;
pub mod pbft;
pub mod peer_uri;
pub mod size;
