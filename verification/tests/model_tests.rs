use ginger_shared_rs::models::default_file_type;
use ginger_shared_rs::models::default_links;
use ginger_shared_rs::models::default_output_type;
use ginger_shared_rs::models::default_references;
use ginger_shared_rs::models::default_take_snapshots;
use ginger_shared_rs::utils::internal_dependencies;
use ginger_shared_rs::utils::package_name_parts;
use ginger_shared_rs::split_slug;
use ginger_shared_rs::Channel;
use ginger_shared_rs::DbType;
use ginger_shared_rs::Environment;
use ginger_shared_rs::FileType;
use ginger_shared_rs::Link;
use ginger_shared_rs::MessageResponse;
use ginger_shared_rs::ORM;
use ginger_shared_rs::OutputType;
use ginger_shared_rs::RealtimeMessage;
use ginger_shared_rs::Version;
use ginger_shared_rs::LANG;

#[test]
fn version_from_str_final() {
    let v = Version::from_str("1.2.3");
    assert_eq!(v.major, 1);
    assert_eq!(v.minor, 2);
    assert_eq!(v.patch, 3);
    assert_eq!(v.channel, Channel::Final);
    assert_eq!(v.revision, 0);
}

#[test]
fn version_from_str_with_channel() {
    let v = Version::from_str("10.0.7-beta.4");
    assert_eq!(v.major, 10);
    assert_eq!(v.minor, 0);
    assert_eq!(v.patch, 7);
    assert_eq!(v.channel, Channel::Beta);
    assert_eq!(v.revision, 4);
}

#[test]
fn version_from_str_bad_number_counts_as_zero() {
    let v = Version::from_str("x.2.3");
    assert_eq!(v.major, 0);
    assert_eq!(v.minor, 2);
    assert_eq!(v.patch, 3);
    assert_eq!(Version::from_str("4294967296.2.3").major, 0);
    assert_eq!(Version::from_str("4294967295.2.3").major, u32::MAX);
}

#[test]
fn version_from_str_accepts_plus_sign() {
    assert_eq!(Version::from_str("+1.2.3").major, 1);
}

#[test]
fn version_formatted_final() {
    let v = Version { channel: Channel::Final, major: 1, minor: 2, patch: 3, revision: 9 };
    assert_eq!(v.formatted(), "1.2.3");
}

#[test]
fn version_formatted_with_channel() {
    let v = Version { channel: Channel::Nightly, major: 0, minor: 4, patch: 21, revision: 7 };
    assert_eq!(v.formatted(), "0.4.21-nightly.7");
}

#[test]
fn version_tuple_notation() {
    let v = Version { channel: Channel::Alpha, major: 1, minor: 0, patch: 0, revision: 2 };
    assert_eq!(v.tuple(), "(1, 0, 0, \"alpha\", 2)");
}

#[test]
fn version_round_trip() {
    let v = Version { channel: Channel::Beta, major: 3, minor: 14, patch: 1, revision: 5 };
    assert_eq!(Version::from_str(&v.formatted()), v);
}

#[test]
fn version_compare_orders_numbers_first() {
    let a = Version { channel: Channel::Final, major: 1, minor: 2, patch: 3, revision: 0 };
    let b = Version { channel: Channel::Final, major: 1, minor: 3, patch: 0, revision: 0 };
    assert_eq!(a.compare(&b), std::cmp::Ordering::Less);
    assert_eq!(b.compare(&a), std::cmp::Ordering::Greater);
    assert_eq!(a.compare(&a.clone()), std::cmp::Ordering::Equal);
}

#[test]
fn version_compare_channel_order() {
    let fin = Version { channel: Channel::Final, major: 1, minor: 0, patch: 0, revision: 0 };
    let nightly = Version { channel: Channel::Nightly, major: 1, minor: 0, patch: 0, revision: 0 };
    let alpha = Version { channel: Channel::Alpha, major: 1, minor: 0, patch: 0, revision: 0 };
    let beta = Version { channel: Channel::Beta, major: 1, minor: 0, patch: 0, revision: 0 };
    assert_eq!(fin.compare(&nightly), std::cmp::Ordering::Less);
    assert_eq!(nightly.compare(&alpha), std::cmp::Ordering::Less);
    assert_eq!(alpha.compare(&beta), std::cmp::Ordering::Less);
}

#[test]
fn channel_labels() {
    assert_eq!(Channel::Final.label(), "final");
    assert_eq!(Channel::Nightly.label(), "nightly");
    assert_eq!(Channel::Alpha.label(), "alpha");
    assert_eq!(Channel::Beta.label(), "beta");
}

#[test]
fn channel_from_name_reads_known_names() {
    assert_eq!(Channel::from_name("nightly"), Channel::Nightly);
    assert_eq!(Channel::from_name("alpha"), Channel::Alpha);
    assert_eq!(Channel::from_name("beta"), Channel::Beta);
    assert_eq!(Channel::from_name("final"), Channel::Final);
}

#[test]
fn dbtype_parse_ignores_case() {
    assert_eq!(DbType::parse("RDBMS").unwrap(), DbType::Rdbms);
    assert_eq!(DbType::parse("DocumentDb").unwrap(), DbType::DocumentDb);
    assert_eq!(DbType::parse("cache").unwrap(), DbType::Cache);
    assert_eq!(DbType::parse("MessageQueue").unwrap(), DbType::MessageQueue);
}

#[test]
fn dbtype_parse_rejects_unknown() {
    let e = DbType::parse("graph").unwrap_err();
    assert_eq!(e, "'graph' is not a valid DbType");
}

#[test]
fn dbtype_labels() {
    assert_eq!(DbType::Rdbms.label(), "rdbms");
    assert_eq!(DbType::DocumentDb.label(), "documentdb");
    assert_eq!(DbType::Cache.label(), "cache");
    assert_eq!(DbType::MessageQueue.label(), "messagequeue");
}

#[test]
fn filetype_from_extension_known_and_unknown() {
    assert!(matches!(FileType::from_extension(Some("py")), FileType::Py));
    assert!(matches!(FileType::from_extension(Some("toml")), FileType::Toml));
    assert!(matches!(FileType::from_extension(Some("json")), FileType::Json));
    assert!(matches!(FileType::from_extension(Some("rs")), FileType::Unknown));
    assert!(matches!(FileType::from_extension(None), FileType::Unknown));
}

#[test]
fn lang_all_in_declaration_order() {
    let labels: Vec<&str> = LANG::all().iter().map(|l| l.label()).collect();
    assert_eq!(labels, vec!["Rust", "TS", "Python", "Shell"]);
}

#[test]
fn orm_labels() {
    assert_eq!(ORM::TypeORM.label(), "TypeORM");
    assert_eq!(ORM::SQLAlchemy.label(), "SQLAlchemy");
    assert_eq!(ORM::DjangoORM.label(), "DjangoORM");
    assert_eq!(ORM::Diesel.label(), "Diesel");
}

#[test]
fn output_type_labels() {
    assert_eq!(OutputType::String.label(), "String");
    assert_eq!(OutputType::Tuple.label(), "Tuple");
}

#[test]
fn environment_labels() {
    assert_eq!(Environment::Dev.label(), "dev");
    assert_eq!(Environment::Stage.label(), "stage");
    assert_eq!(Environment::Prod.label(), "prod");
    assert_eq!(Environment::ProdK8.label(), "prod_k8");
    assert_eq!(Environment::StageK8.label(), "stage_k8");
}

#[test]
fn link_display_and_equality() {
    let a = Link {
        internal: true,
        label: "Docs".to_string(),
        icon: "book".to_string(),
        link: "https://example.test/docs".to_string(),
    };
    let b = a.clone();
    assert_eq!(a.display_string(), "[internal: true, label: Docs, icon: book]");
    assert!(a == b);
    let mut c = a.clone();
    c.icon = "pen".to_string();
    assert!(a != c);
}

#[test]
fn split_slug_splits_at_first_slash() {
    assert_eq!(split_slug("org/name"), Some(("org".to_string(), "name".to_string())));
    assert_eq!(split_slug("a/b/c"), Some(("a".to_string(), "b/c".to_string())));
    assert_eq!(split_slug("noslash"), None);
}

#[test]
fn package_name_parts_reads_scoped_names() {
    assert_eq!(
        package_name_parts("@scope/pkg"),
        Some(("scope".to_string(), "pkg".to_string()))
    );
    assert_eq!(package_name_parts("pkg"), None);
    assert_eq!(package_name_parts("@scope/pkg/extra"), None);
    assert_eq!(package_name_parts("scope/pkg"), None);
}

#[test]
fn internal_dependencies_filters_by_prefix() {
    let deps = vec![
        "@scope/a".to_string(),
        "outside".to_string(),
        "@scope/b".to_string(),
        "@other/c".to_string(),
    ];
    let dev_deps = vec!["@scope/c".to_string(), "plain".to_string()];
    let picked = internal_dependencies("scope", &deps, &dev_deps);
    assert_eq!(
        picked,
        vec!["@scope/a".to_string(), "@scope/b".to_string(), "@scope/c".to_string()]
    );
}

#[test]
fn realtime_message_to_string_is_json() {
    let m = RealtimeMessage { topic: "builds".to_string(), payload: "done".to_string() };
    assert_eq!(m.to_string(), "{\"topic\":\"builds\",\"payload\":\"done\"}");
    let quoted = RealtimeMessage { topic: "t".to_string(), payload: "a\"b".to_string() };
    assert_eq!(quoted.to_string(), "{\"topic\":\"t\",\"payload\":\"a\\\"b\"}");
}

#[test]
fn message_response_holds_message() {
    let m = MessageResponse { message: "ok".to_string() };
    assert_eq!(m.message, "ok");
}

#[test]
fn defaults_match_the_documented_fallbacks() {
    assert_eq!(default_take_snapshots(), false);
    assert!(default_links().is_empty());
    assert!(default_references().is_empty());
    assert!(matches!(default_file_type(), FileType::Unknown));
    assert!(matches!(default_output_type(), OutputType::String));
}
