//! A blog post that goes through a review workflow before its text can be read.

pub mod post;
pub mod state;

pub use post::Post;
pub use state::State;
