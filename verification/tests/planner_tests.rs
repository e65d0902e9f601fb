use auth_directory::planner::{get_columns, plan_projection, projection_includes, Projection};

fn strings(names: &[&str]) -> Vec<String> {
    let mut v: Vec<String> = Vec::new();
    for n in names {
        v.push((*n).to_owned());
    }
    v
}

#[test]
fn empty_request_gives_wildcard() {
    let known = strings(&["id", "username", "email"]);
    let requested = strings(&[]);
    assert_eq!(get_columns(&known, &requested), "*");
}

#[test]
fn empty_request_gives_wildcard_even_without_known_columns() {
    let known = strings(&[]);
    let requested = strings(&[]);
    assert_eq!(get_columns(&known, &requested), "*");
}

#[test]
fn all_unknown_names_fall_back_to_wildcard() {
    let known = strings(&["id", "username", "email"]);
    let requested = strings(&["secret_column", "1; DROP TABLE account"]);
    assert_eq!(get_columns(&known, &requested), "*");
}

#[test]
fn known_subset_is_kept_exactly_in_canonical_order() {
    let known = strings(&["id", "username", "salt", "email"]);
    let requested = strings(&["email", "id"]);
    assert_eq!(get_columns(&known, &requested), "id,email");
}

#[test]
fn request_order_does_not_change_the_result() {
    let known = strings(&["id", "username", "salt", "email"]);
    let a = get_columns(&known, &strings(&["email", "id"]));
    let b = get_columns(&known, &strings(&["id", "email"]));
    assert_eq!(a, b);
}

#[test]
fn duplicate_requests_are_not_repeated() {
    let known = strings(&["id", "username"]);
    let requested = strings(&["username", "username", "username"]);
    assert_eq!(get_columns(&known, &requested), "username");
}

#[test]
fn unknown_names_are_dropped_from_a_mixed_request() {
    let known = strings(&["id", "username", "email"]);
    let requested = strings(&["username", "unknownField"]);
    assert_eq!(get_columns(&known, &requested), "username");
}

#[test]
fn single_known_column_has_no_comma() {
    let known = strings(&["id"]);
    let requested = strings(&["id"]);
    assert_eq!(get_columns(&known, &requested), "id");
}

#[test]
fn identical_inputs_give_identical_output() {
    let known = strings(&["id", "username", "salt", "email"]);
    let requested = strings(&["salt", "email", "nothere"]);
    let a = get_columns(&known, &requested);
    let b = get_columns(&known, &requested);
    assert_eq!(a, b);
    assert_eq!(a, "salt,email");
}

#[test]
fn plan_projection_resolves_the_kept_columns() {
    let known = strings(&["id", "username", "email"]);
    let plan = plan_projection(&known, &strings(&["email", "bogus"]));
    match &plan {
        Projection::Columns(cols) => {
            assert_eq!(cols.len(), 1);
            assert_eq!(cols[0], "email");
        }
        Projection::All => panic!("expected a column plan"),
    }
    assert!(projection_includes(&plan, "email"));
    assert!(!projection_includes(&plan, "id"));
    let wildcard = plan_projection(&known, &strings(&[]));
    assert!(matches!(wildcard, Projection::All));
    assert!(projection_includes(&wildcard, "id"));
}

#[test]
fn account_projection_follows_canonical_column_order() {
    let known = auth_directory::account::account_fields();
    let r = get_columns(&known, &strings(&["email", "username"]));
    assert_eq!(r, "username,email");
}
