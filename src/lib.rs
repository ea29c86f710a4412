pub mod cursor;
pub mod key;
pub mod recently_played;
pub mod route;
pub mod state;
