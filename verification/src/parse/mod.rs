//! Building blocks shared by the parsers of git's NUL-separated output.

pub mod error;
pub mod null;

pub use error::desc;
pub use error::expected;
pub use error::ContextModel;
pub use error::Failure;
pub use error::ParseContext;
pub use error::ParseError;
pub use null::spec_till_null;
pub use null::till_null;
