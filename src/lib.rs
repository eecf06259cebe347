pub mod event;
pub mod ids;
pub mod kind;
pub mod laws;
pub mod resolve;

pub use kind::event_list;
pub use resolve::{get_event_guild_id, get_event_user_id};
