//! Artifact resolution and caching for a Java-based language server.
//!
//! The library locates or downloads the correct server jar for the latest
//! release, memoizes its absolute path, sweeps superseded artifacts, and
//! builds the `java -jar <path>` launch command. All host interaction
//! (feed queries, downloads, filesystem calls) is performed by the
//! embedding extension, which drives the verified resolver state machine
//! one request at a time.

pub mod command;
pub mod error;
pub mod release;
pub mod resolver;

pub use command::LaunchCommand;
pub use command::launch_command;

pub use resolver::Action;
pub use resolver::ActionModel;
pub use resolver::ArtifactResolver;
pub use resolver::Event;
pub use resolver::EventModel;
pub use resolver::PhaseModel;
pub use resolver::ResolverModel;
pub use resolver::accepts;
pub use resolver::next;
pub use resolver::should_remove;
pub use resolver::wf;

pub use release::AssetInfo;
pub use release::AssetModel;
pub use release::ReleaseInfo;
pub use release::ReleaseModel;
pub use release::asset_views;
pub use release::expected_asset_name;
pub use release::expected_name;
pub use release::find_asset;
pub use release::first_match;
pub use error::InstallationError;
pub use error::ErrorModel;
pub use error::message_of;
