//! Wire codec for a host-to-device accessory link, and the accessory state
//! model whose dependent flags are re-derived on every control operation.

pub mod error;
pub mod identity;
pub mod packet;
pub mod state;
pub mod version;
pub mod wire;

pub use error::Error;
pub use identity::Identity;
pub use packet::{Packet, PacketType, ResponseCode, NUM_CMD_PARAMS, NUM_STATUS_BYTES};
pub use state::RSNavState;
pub use version::Version;
