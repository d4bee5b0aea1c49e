//! The configuration and metadata records the tool ecosystem shares:
//! database and service configuration, package metadata, and the small
//! enumerations they carry.

use vstd::prelude::*;

use std::collections::HashMap;

use crate::text::ascii_lower_eq;
use crate::text::str_eq;
use crate::text::str_eq_ignore_ascii_case;
use crate::version::Version;

verus! {

/// The object-relational mappers a consumer database can be read through.
#[derive(Debug, Clone, Copy)]
pub enum ORM {
    TypeORM,
    SQLAlchemy,
    DjangoORM,
    Diesel,
}

impl ORM {
    pub open spec fn label_spec(self) -> Seq<char> {
        match self {
            ORM::TypeORM => "TypeORM"@,
            ORM::SQLAlchemy => "SQLAlchemy"@,
            ORM::DjangoORM => "DjangoORM"@,
            ORM::Diesel => "Diesel"@,
        }
    }

    pub fn label(&self) -> (r: &'static str)
        ensures
            r@ == self.label_spec(),
    {
        match self {
            ORM::TypeORM => "TypeORM",
            ORM::SQLAlchemy => "SQLAlchemy",
            ORM::DjangoORM => "DjangoORM",
            ORM::Diesel => "Diesel",
        }
    }
}

/// The languages the ecosystem generates for.
#[derive(Debug, Clone, Copy)]
pub enum LANG {
    Rust,
    TS,
    Python,
    Shell,
}

impl LANG {
    pub open spec fn label_spec(self) -> Seq<char> {
        match self {
            LANG::Rust => "Rust"@,
            LANG::TS => "TS"@,
            LANG::Python => "Python"@,
            LANG::Shell => "Shell"@,
        }
    }

    pub fn label(&self) -> (r: &'static str)
        ensures
            r@ == self.label_spec(),
    {
        match self {
            LANG::Rust => "Rust",
            LANG::TS => "TS",
            LANG::Python => "Python",
            LANG::Shell => "Shell",
        }
    }

    /// Every language, in declaration order.
    pub fn all() -> (r: Vec<LANG>)
        ensures
            r@ =~= seq![LANG::Rust, LANG::TS, LANG::Python, LANG::Shell],
    {
        let mut v: Vec<LANG> = Vec::new();
        v.push(LANG::Rust);
        v.push(LANG::TS);
        v.push(LANG::Python);
        v.push(LANG::Shell);
        v
    }
}

/// One consumer database schema binding.
#[derive(Debug)]
pub struct ConsumerDBSchema {
    pub url: String,
    pub lang: LANG,
    pub orm: ORM,
    pub root: String,
    pub schema_id: Option<String>,
    pub cache_schema_id: Option<String>,
    pub message_queue_schema_id: Option<String>,
    pub branch: Option<String>,
}

#[derive(Debug)]
pub struct ConsumerDBTables {
    pub names: Vec<String>,
}

#[derive(Debug)]
pub struct ConsumerDBConfig {
    pub schema: ConsumerDBSchema,
    pub tables: ConsumerDBTables,
}

/// A service a project integrates with.
#[derive(Debug, Clone)]
pub struct Service {
    pub schema_url: String,
    pub name: String,
}

/// A project's service-integration configuration.
#[derive(Debug, Clone)]
pub struct ServiceConfig {
    pub services: Option<HashMap<String, HashMap<String, String>>>,
    pub portals_refs: Option<HashMap<String, HashMap<String, String>>>,
    pub lang: LANG,
    pub organization_id: String,
    pub dir: Option<String>,
    pub portal_refs_file: Option<String>,
    pub spec_url: Option<String>,
    pub urls: Option<HashMap<String, String>>,
    pub override_name: Option<String>,
    pub service_type: Option<String>,
}

/// A labelled link shown beside a package or a database.
#[derive(Debug, Clone)]
pub struct Link {
    pub internal: bool,
    pub label: String,
    pub icon: String,
    pub link: String,
}

impl PartialEq for Link {
    fn eq(&self, other: &Self) -> (r: bool) {
        self.internal == other.internal && self.label == other.label && self.icon == other.icon
            && self.link == other.link
    }
}

impl vstd::std_specs::cmp::PartialEqSpecImpl for Link {
    open spec fn obeys_eq_spec() -> bool {
        true
    }

    open spec fn eq_spec(&self, other: &Link) -> bool {
        self.internal == other.internal && self.label@ == other.label@ && self.icon@ == other.icon@
            && self.link@ == other.link@
    }
}

impl Link {
    pub open spec fn display_spec(self) -> Seq<char> {
        "[internal: "@ + (if self.internal {
            "true"@
        } else {
            "false"@
        }) + ", label: "@ + self.label@ + ", icon: "@ + self.icon@ + "]"@
    }

    /// The link written for display: its internal flag, label and icon.
    pub fn display_string(&self) -> (r: String)
        ensures
            r@ == self.display_spec(),
    {
        let mut r: String = String::from_str("[internal: ");
        if self.internal {
            r.append("true");
        } else {
            r.append("false");
        }
        r.append(", label: ");
        r.append(self.label.as_str());
        r.append(", icon: ");
        r.append(self.icon.as_str());
        r.append("]");
        proof {
            assert(r@ =~= self.display_spec());
        }
        r
    }
}

/// The defaults a package metadata record falls back to.
pub fn default_links() -> (r: Vec<Link>)
    ensures
        r@ =~= Seq::<Link>::empty(),
{
    Vec::new()
}

/// Metadata of one published package.
#[derive(Debug, Clone)]
pub struct PackageMetadata {
    pub lang: LANG,
    pub package_type: String,
    pub links: Vec<Link>,
}

/// The kinds of file a release reference can rewrite.
#[derive(Debug, Clone, Copy)]
pub enum FileType {
    Py,
    Toml,
    Json,
    Unknown,
}

impl FileType {
    pub open spec fn label_spec(self) -> Seq<char> {
        match self {
            FileType::Py => "Py"@,
            FileType::Toml => "Toml"@,
            FileType::Json => "Json"@,
            FileType::Unknown => "Unknown"@,
        }
    }

    pub fn label(&self) -> (r: &'static str)
        ensures
            r@ == self.label_spec(),
    {
        match self {
            FileType::Py => "Py",
            FileType::Toml => "Toml",
            FileType::Json => "Json",
            FileType::Unknown => "Unknown",
        }
    }

    pub open spec fn from_extension_spec(ext: Option<Seq<char>>) -> FileType {
        match ext {
            Option::Some(e) => {
                if e == "py"@ {
                    FileType::Py
                } else if e == "toml"@ {
                    FileType::Toml
                } else if e == "json"@ {
                    FileType::Json
                } else {
                    FileType::Unknown
                }
            },
            Option::None => FileType::Unknown,
        }
    }

    /// The file kind a file-name extension denotes; anything unknown maps to
    /// `Unknown`.
    pub fn from_extension(ext: Option<&str>) -> (r: FileType)
        ensures
            r == FileType::from_extension_spec(ext.deep_view()),
    {
        match ext {
            Some(e) => {
                if str_eq(e, "py") {
                    FileType::Py
                } else if str_eq(e, "toml") {
                    FileType::Toml
                } else if str_eq(e, "json") {
                    FileType::Json
                } else {
                    FileType::Unknown
                }
            },
            None => FileType::Unknown,
        }
    }
}

/// How a release reference writes the version into a file.
#[derive(Debug, Clone, Copy)]
pub enum OutputType {
    String,
    Tuple,
}

impl OutputType {
    pub open spec fn label_spec(self) -> Seq<char> {
        match self {
            OutputType::String => "String"@,
            OutputType::Tuple => "Tuple"@,
        }
    }

    pub fn label(&self) -> (r: &'static str)
        ensures
            r@ == self.label_spec(),
    {
        match self {
            OutputType::String => "String",
            OutputType::Tuple => "Tuple",
        }
    }
}

/// One file a release updates with the new version.
#[derive(Debug, Clone)]
pub struct Reference {
    pub file_name: String,
    pub output_type: OutputType,
    pub variable: String,
    pub file_type: FileType,
}

pub fn default_file_type() -> (r: FileType)
    ensures
        r == FileType::Unknown,
{
    FileType::Unknown
}

pub fn default_output_type() -> (r: OutputType)
    ensures
        r == OutputType::String,
{
    OutputType::String
}

/// Release-tool settings.
#[derive(Debug, Clone)]
pub struct ReleaserSettings {
    pub git_url_prefix: Option<String>,
    pub take_snapshots: bool,
}

pub fn default_take_snapshots() -> (r: bool)
    ensures
        r == false,
{
    false
}

/// The release tool's configuration: settings, the current version, and the
/// files to rewrite.
#[derive(Debug, Clone)]
pub struct ReleaserConfig {
    pub settings: ReleaserSettings,
    pub version: Version,
    pub references: Vec<Reference>,
}

pub fn default_references() -> (r: Vec<Reference>)
    ensures
        r@ =~= Seq::<Reference>::empty(),
{
    Vec::new()
}

/// A database belonging to one branch of one organization.
#[derive(Debug, PartialEq)]
pub struct GingerDBConfig {
    pub branch: String,
    pub organization_id: String,
    pub database: Vec<DatabaseConfig>,
}

/// One database instance and how it is exposed.
#[derive(Debug, PartialEq, Clone)]
pub struct DatabaseConfig {
    pub db_type: DbType,
    pub description: String,
    pub enable: bool,
    pub id: Option<String>,
    pub name: String,
    pub port: String,
    pub studio_port: Option<String>,
    pub links: Vec<Link>,
}

impl DatabaseConfig {
    /// The database written for display: its name.
    pub fn display_string(&self) -> (r: String)
        ensures
            r@ == self.name@,
    {
        self.name.clone()
    }
}

/// The kinds of database the ecosystem manages.
#[derive(Debug, Clone, Copy, PartialEq, Eq, Structural)]
pub enum DbType {
    Rdbms,
    DocumentDb,
    Cache,
    MessageQueue,
}

impl DbType {
    pub open spec fn label_spec(self) -> Seq<char> {
        match self {
            DbType::Rdbms => "rdbms"@,
            DbType::DocumentDb => "documentdb"@,
            DbType::Cache => "cache"@,
            DbType::MessageQueue => "messagequeue"@,
        }
    }

    pub fn label(&self) -> (r: &'static str)
        ensures
            r@ == self.label_spec(),
    {
        match self {
            DbType::Rdbms => "rdbms",
            DbType::DocumentDb => "documentdb",
            DbType::Cache => "cache",
            DbType::MessageQueue => "messagequeue",
        }
    }

    pub open spec fn parse_spec(s: Seq<char>) -> Option<DbType> {
        if ascii_lower_eq(s, "rdbms"@) {
            Some(DbType::Rdbms)
        } else if ascii_lower_eq(s, "documentdb"@) {
            Some(DbType::DocumentDb)
        } else if ascii_lower_eq(s, "cache"@) {
            Some(DbType::Cache)
        } else if ascii_lower_eq(s, "messagequeue"@) {
            Some(DbType::MessageQueue)
        } else {
            None
        }
    }

    /// The database kind a name denotes, read without regard to letter case;
    /// any other name is answered with a message naming it.
    pub fn parse(s: &str) -> (r: Result<DbType, String>)
        ensures
            match r {
                Ok(d) => DbType::parse_spec(s@) == Some(d),
                Err(m) => DbType::parse_spec(s@) is None && m@ == "'"@ + s@
                    + "' is not a valid DbType"@,
            },
    {
        if str_eq_ignore_ascii_case(s, "rdbms") {
            Ok(DbType::Rdbms)
        } else if str_eq_ignore_ascii_case(s, "documentdb") {
            Ok(DbType::DocumentDb)
        } else if str_eq_ignore_ascii_case(s, "cache") {
            Ok(DbType::Cache)
        } else if str_eq_ignore_ascii_case(s, "messagequeue") {
            Ok(DbType::MessageQueue)
        } else {
            let mut m: String = String::from_str("'");
            m.append(s);
            m.append("' is not a valid DbType");
            proof {
                assert(m@ =~= "'"@ + s@ + "' is not a valid DbType"@);
            }
            Err(m)
        }
    }
}

/// The environments a deployment can target.
#[derive(Debug, Clone, Copy, PartialEq, Eq, Structural)]
pub enum Environment {
    Dev,
    Stage,
    Prod,
    ProdK8,
    StageK8,
}

impl Environment {
    pub open spec fn label_spec(self) -> Seq<char> {
        match self {
            Environment::Dev => "dev"@,
            Environment::Stage => "stage"@,
            Environment::Prod => "prod"@,
            Environment::ProdK8 => "prod_k8"@,
            Environment::StageK8 => "stage_k8"@,
        }
    }

    pub fn label(&self) -> (r: &'static str)
        ensures
            r@ == self.label_spec(),
    {
        match self {
            Environment::Dev => "dev",
            Environment::Stage => "stage",
            Environment::Prod => "prod",
            Environment::ProdK8 => "prod_k8",
            Environment::StageK8 => "stage_k8",
        }
    }
}

} // verus!
