pub mod pagination;
pub mod status;
pub mod users;
