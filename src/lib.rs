//! Session types over point-to-point channels: a value whose type spells out
//! the remaining sends and receives of one participant, with a split that
//! lends a prefix of the protocol out while the rest waits.
pub mod guard;
pub mod session;
pub mod split;
pub mod transport;

pub use guard::PanicOnDrop;
pub use session::{End, Recv, Return, Session, Snd, Step};
pub use split::{Restricted, Split};
pub use transport::TransportError;
