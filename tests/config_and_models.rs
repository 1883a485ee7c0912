use basic_actix_web_server_v2::config::{
    Config, ConfigError, DATABASE_URL_VAR, DEFAULT_JWT_SECRET, JWT_SECRET_VAR,
};
use basic_actix_web_server_v2::db::{insert_params, INSERT_ITEM_SQL, MAX_CONNECTIONS};
use basic_actix_web_server_v2::models::{Item, PostItem, Timestamp};

#[test]
fn missing_database_url_is_an_error() {
    let r = Config::new(None);
    assert!(matches!(r, Err(ConfigError::MissingDatabaseUrl)));
    if let Err(e) = r {
        assert_eq!(e.message(), "Failed to load DATABASE_URL from env");
    }
}

#[test]
fn present_database_url_is_kept() {
    let url = "postgres://user:pw@localhost/items".to_owned();
    let config = Config::new(Some(url.clone())).ok().unwrap();
    assert_eq!(config.get_database_url(), url.as_str());
}

#[test]
fn signing_key_defaults_and_can_be_configured() {
    let config = Config::new(Some("db".to_owned())).ok().unwrap();
    assert_eq!(config.get_jwt_secret(), DEFAULT_JWT_SECRET);
    assert_eq!(DEFAULT_JWT_SECRET, "secret");
    assert_eq!(JWT_SECRET_VAR, "JWT_SECRET");
    let kept = config.with_jwt_secret(None);
    assert_eq!(kept.get_jwt_secret(), "secret");
    let set = kept.with_jwt_secret(Some("k3y".to_owned()));
    assert_eq!(set.get_jwt_secret(), "k3y");
    assert_eq!(set.get_database_url(), "db");
}

#[test]
fn empty_database_url_is_still_present() {
    let config = Config::new(Some(String::new())).ok().unwrap();
    assert_eq!(config.get_database_url(), "");
}

#[test]
fn database_url_variable_name() {
    assert_eq!(DATABASE_URL_VAR, "DATABASE_URL");
    assert_eq!(MAX_CONNECTIONS, 5);
}

#[test]
fn post_item_getters() {
    let item = PostItem::new("widget".to_owned(), Some("a thing".to_owned()));
    assert_eq!(item.get_name(), "widget");
    assert_eq!(item.get_description(), &Some("a thing".to_owned()));
    let bare = PostItem::new("widget".to_owned(), None);
    assert_eq!(bare.get_description(), &None);
}

#[test]
fn insert_params_keep_name_and_description() {
    let item = PostItem::new("widget".to_owned(), Some("a thing".to_owned()));
    let p = insert_params(&item);
    assert_eq!(p.name, "widget");
    assert_eq!(p.description, "a thing");
    assert!(INSERT_ITEM_SQL.contains("RETURNING id"));
}

#[test]
fn insert_params_missing_description_is_empty() {
    let item = PostItem::new("widget".to_owned(), None);
    let p = insert_params(&item);
    assert_eq!(p.name, "widget");
    assert_eq!(p.description, "");
}

#[test]
fn timestamp_bounds() {
    let t = Timestamp::new(1_700_000_000, 999_999_999).unwrap();
    assert_eq!(t.secs, 1_700_000_000);
    assert_eq!(t.nanos, 999_999_999);
    assert!(Timestamp::new(0, 1_000_000_000).is_none());
    assert!(Timestamp::new(-5, 0).is_some());
}

#[test]
fn item_new_holds_fields() {
    let at = Timestamp::new(10, 20).unwrap();
    let item = Item::new(7, "widget".to_owned(), None, at);
    assert_eq!(item.id, 7);
    assert_eq!(item.name, "widget");
    assert_eq!(item.description, None);
    assert_eq!(item.created_at, at);
}
