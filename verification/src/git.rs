pub mod error;
pub mod repo;
pub(crate) mod raw;
pub mod scan;
pub mod url;

pub use error::GitError;
pub use repo::GitRepository;
