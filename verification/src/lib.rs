//! A book preprocessor that changes nothing.
//!
//! The host build tool starts a preprocessor as a command. Asked
//! `supports <renderer>`, the command answers whether it works with that
//! renderer. Started without a subcommand, it gets a context and a book as
//! JSON and answers with the processed book as JSON. This one supports every
//! renderer and answers with the book it was given.

pub mod failure;
pub mod protocol;
pub mod preprocessor;
pub mod transform;
pub mod cli;

pub use failure::Failure;
pub use preprocessor::NopPreprocessor;
pub use preprocessor::Preprocessor;
pub use protocol::check_configuration;
pub use protocol::check_document;
pub use protocol::check_table;
pub use protocol::read_input;

pub use cli::make_app;
pub use cli::parse_args;
pub use cli::select;
pub use cli::try_main;
pub use cli::Invocation;
pub use cli::Rejection;
pub use transform::emit;
pub use transform::handle_preprocessing;
pub use transform::handle_supports;
pub use transform::process;
