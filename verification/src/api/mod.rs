//! The data that the API returns, and how each piece is read from and
//! written to JSON.

pub mod comment;
pub mod distinguished;
pub mod edited;
pub mod moderation;
pub mod reports;
pub mod response;
pub mod submission;
pub mod things;
