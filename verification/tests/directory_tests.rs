use auth_directory::access::Access;
use auth_directory::config::Config;
use auth_directory::db::{AuthDB, CreateError, StorageError};
use auth_directory::schema::{MutationRoot, QueryRoot, SubscriptionRoot};

fn strings(names: &[&str]) -> Vec<String> {
    let mut v: Vec<String> = Vec::new();
    for n in names {
        v.push((*n).to_owned());
    }
    v
}

#[test]
fn account_lifecycle_scenario() {
    let mut db = AuthDB::new_sync();
    let mutation = MutationRoot;
    let query = QueryRoot;

    let id = mutation
        .create_account(
            &mut db,
            "alice".to_owned(),
            "Secret123!".to_owned(),
            "alice@example.com".to_owned(),
        )
        .unwrap();
    assert!(id > 0);

    let account = query.account(&db, id, &strings(&[])).unwrap();
    assert_eq!(account.username, "ALICE");
    assert_eq!(account.email, "alice@example.com");
    assert!(!account.salt.is_empty());
    assert!(!account.verifier.is_empty());
    assert_eq!(account.failed_logins, 0);

    assert_eq!(query.check_username(&db, "alice".to_owned()), Ok(true));

    assert_eq!(mutation.delete_account(&mut db, id), Ok(true));
    assert!(matches!(query.account(&db, id, &strings(&[])), Err(StorageError::NotFound)));
}

#[test]
fn duplicate_username_is_reported_and_leaves_the_row_alone() {
    let mut db = AuthDB::new_sync();
    let id = db.create_account("alice", "first-pass", "first@mail.com").unwrap();
    let before = db.get_account_by_id(id, &strings(&[])).unwrap();

    let second = db.create_account("ALICE", "other-pass", "second@mail.com");
    assert_eq!(second, Err(CreateError::AlreadyExists));

    let after = db.get_account_by_id(id, &strings(&[])).unwrap();
    assert_eq!(after.email, before.email);
    assert_eq!(after.salt, before.salt);
    assert_eq!(after.verifier, before.verifier);
    assert_eq!(db.get_accounts().len(), 1);
}

#[test]
fn deleting_a_missing_id_reports_false_without_error() {
    let mut db = AuthDB::new_sync();
    assert!(!db.delete_account(12345));
    let id = db.create_account("bob", "hunter2", "bob@mail.com").unwrap();
    assert!(!db.delete_account(id + 1));
    assert!(db.has_account_id(id));
}

#[test]
fn invalid_creation_input_is_rejected() {
    let mut db = AuthDB::new_sync();
    assert_eq!(
        db.create_account("", "hunter2", "a@b.c"),
        Err(CreateError::InvalidInput)
    );
    assert_eq!(
        db.create_account("alice", "hunter2", ""),
        Err(CreateError::InvalidInput)
    );
    assert_eq!(
        db.create_account("alice", "pässword", "a@b.c"),
        Err(CreateError::InvalidInput)
    );
    assert_eq!(db.get_accounts().len(), 0);
}

#[test]
fn projection_degrades_gracefully_on_unknown_fields() {
    let mut db = AuthDB::new_sync();
    let id = db.create_account("carol", "hunter2", "carol@mail.com").unwrap();
    let account = db
        .get_account_by_id(id, &strings(&["username", "unknownField"]))
        .unwrap();
    assert_eq!(account.username, "CAROL");
    assert_eq!(account.email, "");
    assert_eq!(account.id, 0);
    assert!(account.salt.is_empty());
}

#[test]
fn listing_accounts_respects_the_projection() {
    let mut db = AuthDB::new_sync();
    db.create_account("dave", "hunter2", "dave@mail.com").unwrap();
    db.create_account("erin", "hunter2", "erin@mail.com").unwrap();

    let full = db.get_accounts();
    assert_eq!(full.len(), 2);
    assert_eq!(full[0].username, "DAVE");
    assert_eq!(full[1].username, "ERIN");

    let projected = db.get_accounts_with_fields(&strings(&["email"]));
    assert_eq!(projected.len(), 2);
    assert_eq!(projected[0].email, "dave@mail.com");
    assert_eq!(projected[0].username, "");
    let wildcard = db.get_accounts_with_fields(&strings(&[]));
    assert_eq!(wildcard[0].username, "DAVE");
}

#[test]
fn username_check_is_case_insensitive_and_total() {
    let mut db = AuthDB::new_sync();
    db.create_account("frank", "hunter2", "frank@mail.com").unwrap();
    assert_eq!(db.has_account_username("frank"), Ok(true));
    assert_eq!(db.has_account_username("FRANK"), Ok(true));
    assert_eq!(db.has_account_username("grace"), Ok(false));
    assert_eq!(db.has_account_username(""), Ok(false));
    assert_eq!(db.has_account_username("überlong-name-xx"), Ok(false));
}

#[test]
fn password_rotation_replaces_only_the_credential_pair() {
    let mut db = AuthDB::new_sync();
    let id = db.create_account("heidi", "old-password", "heidi@mail.com").unwrap();
    let before = db.get_account_by_id(id, &strings(&[])).unwrap();

    let changed = db.set_username_password("heidi".to_owned(), "new-password".to_owned());
    assert_eq!(changed, Ok(true));

    let after = db.get_account_by_id(id, &strings(&[])).unwrap();
    assert_eq!(after.username, before.username);
    assert_eq!(after.email, before.email);
    assert_eq!(after.salt.len(), 32);
    assert_eq!(after.verifier.len(), 32);
    assert_ne!(after.salt, before.salt);

    let missing = db.set_username_password("nobody".to_owned(), "new-password".to_owned());
    assert_eq!(missing, Ok(false));
    assert!(db.set_username_password("".to_owned(), "x".to_owned()).is_err());
}

#[test]
fn grants_are_scoped_to_the_account_and_projected() {
    let mut db = AuthDB::new_sync();
    let id = db.create_account("ivan", "hunter2", "ivan@mail.com").unwrap();
    db.add_access(Access::new(id, 3, -1, Some("all realms".to_owned())));
    db.add_access(Access::new(id, 1, 7, None));
    db.add_access(Access::new(id + 100, 5, -1, None));

    let grants = db.access_by_user_id(id, &strings(&[])).unwrap();
    assert_eq!(grants.len(), 2);
    assert_eq!(grants[0].gmlevel(), 3);
    assert_eq!(grants[0].realmid(), -1);
    assert_eq!(grants[0].comment(), Some("all realms".to_owned()));
    assert_eq!(grants[1].gmlevel(), 1);
    assert_eq!(grants[1].realmid(), 7);

    let projected = db.access_by_user_id(id, &strings(&["gmlevel"])).unwrap();
    assert_eq!(projected[0].gmlevel(), 3);
    assert_eq!(projected[0].id(), 0);
    assert_eq!(projected[0].comment(), None);

    let account = db.get_account_by_id(id, &strings(&[])).unwrap();
    let via_account = account.access(&db, &strings(&[])).unwrap();
    assert_eq!(via_account.len(), 2);
}

#[test]
fn creation_provisions_one_summary_row_per_realm() {
    let mut db = AuthDB::new_sync();
    assert!(db.add_realm(1, "Icecrown".to_owned()));
    assert!(db.add_realm(2, "Lordaeron".to_owned()));
    assert!(!db.add_realm(1, "Duplicate".to_owned()));

    let id = db.create_account("judy", "hunter2", "judy@mail.com").unwrap();
    let rows = db.realmcharacters_by_user_id(id).unwrap();
    assert_eq!(rows.len(), 2);
    assert_eq!(rows[0].realmid(), 1);
    assert_eq!(rows[0].acctid(), id);
    assert_eq!(rows[0].numchars(), 0);
    assert_eq!(rows[0].realmname(), "Icecrown");
    assert_eq!(rows[1].realmid(), 2);
    assert_eq!(rows[1].realmname(), "Lordaeron");

    let other = db.realmcharacters_by_user_id(id + 1).unwrap();
    assert!(other.is_empty());

    let account = db.get_account_by_id(id, &strings(&[])).unwrap();
    let via_account = account.realmcharacters(&db).unwrap();
    assert_eq!(via_account.len(), 2);
}

#[test]
fn config_resolution_applies_defaults() {
    let defaults = Config::resolve(None, None, None);
    assert_eq!(defaults.host(), "127.0.0.1");
    assert_eq!(defaults.port(), 8000);
    assert!(!defaults.is_secure());

    let explicit = Config::resolve(Some("0.0.0.0".to_owned()), Some(8443), Some(true));
    assert_eq!(explicit.host(), "0.0.0.0");
    assert_eq!(explicit.port(), 8443);
    assert!(explicit.is_secure());
}

#[test]
fn subscription_emits_the_fixed_value() {
    let subscription = SubscriptionRoot;
    assert_eq!(subscription.values(), 10);
}

#[test]
fn fresh_ids_are_never_reused_after_deletion() {
    let mut db = AuthDB::new_sync();
    let first = db.create_account("kim", "hunter2", "kim@mail.com").unwrap();
    db.delete_account(first);
    let second = db.create_account("kim", "hunter2", "kim@mail.com").unwrap();
    assert_ne!(first, second);
    assert!(second > first);
}

#[test]
fn returned_entities_are_independent_copies() {
    let mut db = AuthDB::new_sync();
    let id = db.create_account("lara", "hunter2", "lara@mail.com").unwrap();
    let mut copy = db.get_account_by_id(id, &strings(&[])).unwrap();
    copy.username = "CHANGED".to_owned();
    copy.salt.clear();
    let fresh = db.get_account_by_id(id, &strings(&[])).unwrap();
    assert_eq!(fresh.username, "LARA");
    assert_eq!(fresh.salt.len(), 32);
}

#[test]
fn installing_a_pair_persists_exactly_those_bytes() {
    let mut db = AuthDB::new_sync();
    let id = db.create_account("mona", "hunter2", "mona@mail.com").unwrap();
    let salt = vec![7u8; 32];
    let verifier = vec![9u8; 32];
    assert!(db.install_credentials("MONA", salt.clone(), verifier.clone()));
    let row = db.get_account_by_id(id, &strings(&[])).unwrap();
    assert_eq!(row.salt, salt);
    assert_eq!(row.verifier, verifier);
    assert!(!db.install_credentials("NOBODY", vec![0u8; 32], vec![0u8; 32]));
}

#[test]
fn inserting_a_row_stores_the_given_pair() {
    let mut db = AuthDB::new_sync();
    let salt = vec![1u8; 32];
    let verifier = vec![2u8; 32];
    let id = db
        .insert_account(
            "NED".to_owned(),
            salt.clone(),
            verifier.clone(),
            "ned@mail.com".to_owned(),
        )
        .unwrap();
    let row = db.get_account_by_id(id, &strings(&[])).unwrap();
    assert_eq!(row.salt, salt);
    assert_eq!(row.verifier, verifier);
    let duplicate = db.insert_account(
        "NED".to_owned(),
        vec![3u8; 32],
        vec![4u8; 32],
        "other@mail.com".to_owned(),
    );
    assert_eq!(duplicate, Err(CreateError::AlreadyExists));
}
