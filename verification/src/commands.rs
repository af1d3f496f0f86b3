//! What the user interface's commands decide before and after calling the services: input
//! parsing, the records they exchange, and how service errors are shown.

pub mod account;
pub mod drive;
pub mod drive_dto;
pub mod dto;
pub mod error;
pub mod job;
pub mod update_policy;
pub mod update_status;
pub mod updates;
