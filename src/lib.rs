//! A single yes/no poll kept in a key-value store: initialization, one vote per
//! address, closing by the poll's admin, and a tally that stays hidden until the
//! poll is closed.

pub mod codec;
pub mod contract;
pub mod keys;
pub mod laws;
pub mod msg;
pub mod poll;
pub mod store;

pub use contract::{handle, init, query, QueryAnswer};
pub use msg::{HandleMsg, InitMsg, QueryMsg, Tally};
pub use poll::{PollError, VotingPoll};
