pub mod guard;
pub mod messages;
pub mod models;
pub mod utils;
pub mod version;
pub mod jwt;
pub mod text;

pub use guard::APIClaims;
pub use guard::APIClaimsError;
pub use guard::Claims;
pub use guard::ClaimsError;
pub use guard::ISCClaims;
pub use guard::ISCClaimsError;
pub use messages::MessageResponse;
pub use messages::RealtimeMessage;
pub use models::ConsumerDBConfig;
pub use models::ConsumerDBSchema;
pub use models::ConsumerDBTables;
pub use models::DatabaseConfig;
pub use models::DbType;
pub use models::Environment;
pub use models::FileType;
pub use models::GingerDBConfig;
pub use models::LANG;
pub use models::Link;
pub use models::ORM;
pub use models::OutputType;
pub use models::PackageMetadata;
pub use models::Reference;
pub use models::ReleaserConfig;
pub use models::ReleaserSettings;
pub use models::Service;
pub use models::ServiceConfig;
pub use utils::split_slug;
pub use version::Channel;
pub use version::Version;

