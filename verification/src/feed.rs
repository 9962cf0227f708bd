pub mod contract;
pub mod errors;
pub mod helpers;
pub mod msg;
pub mod pair;
pub mod refstore;
pub mod rotation;
pub mod state;
pub mod version;
