pub mod ticket;
pub mod user;

pub use self::ticket::Ticket;
pub use self::user::User;
