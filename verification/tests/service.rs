use salt_store::routes::{
    get_user, health_response, join_username_password, lookup_response, put_user,
    upsert_response, LookupEvent,
};
use salt_store::schema::{create_keyspace_ddl, create_table_ddl, lookup_cql, upsert_cql};
use salt_store::store::{Credential, Store};

#[test]
fn health_is_fixed() {
    assert_eq!(health_response(), "Hi");
}

#[test]
fn lookup_absent_user() {
    let store = Store::new();
    let r = get_user(&store, &String::from("alice"));
    assert_eq!(r, "Can't find user");
}

#[test]
fn put_then_get() {
    let mut store = Store::new();
    let r = put_user(&mut store, String::from("alice"), String::from("pw1"));
    assert_eq!(r, "User Added");
    let r = get_user(&store, &String::from("alice"));
    assert_eq!(r, "alice pw1");
}

#[test]
fn put_twice_is_idempotent() {
    let mut once = Store::new();
    put_user(&mut once, String::from("alice"), String::from("pw1"));
    let mut twice = Store::new();
    put_user(&mut twice, String::from("alice"), String::from("pw1"));
    put_user(&mut twice, String::from("alice"), String::from("pw1"));
    let once_rows = once.execute_lookup(&String::from("alice"));
    let twice_rows = twice.execute_lookup(&String::from("alice"));
    assert_eq!(once_rows.len(), 1);
    assert_eq!(twice_rows.len(), 1);
    assert_eq!(once_rows[0].username, twice_rows[0].username);
    assert_eq!(once_rows[0].password, twice_rows[0].password);
    assert_eq!(get_user(&once, &String::from("alice")), "alice pw1");
    assert_eq!(get_user(&twice, &String::from("alice")), "alice pw1");
}

#[test]
fn put_overwrites_earlier_password() {
    let mut store = Store::new();
    put_user(&mut store, String::from("alice"), String::from("pw1"));
    put_user(&mut store, String::from("alice"), String::from("pw2"));
    let r = get_user(&store, &String::from("alice"));
    assert_eq!(r, "alice pw2");
    assert_ne!(r, "alice pw1");
}

#[test]
fn three_records_scenario() {
    let mut store = Store::new();
    let r = put_user(&mut store, String::from("alice"), String::from("s3cret"));
    assert_eq!(r, "User Added");
    let r = get_user(&store, &String::from("alice"));
    assert_eq!(r, "alice s3cret");
    let r = get_user(&store, &String::from("bob"));
    assert_eq!(r, "Can't find user");
}

#[test]
fn overwrite_leaves_other_users_alone() {
    let mut store = Store::new();
    put_user(&mut store, String::from("alice"), String::from("a1"));
    put_user(&mut store, String::from("bob"), String::from("b1"));
    put_user(&mut store, String::from("alice"), String::from("a2"));
    assert_eq!(get_user(&store, &String::from("alice")), "alice a2");
    assert_eq!(get_user(&store, &String::from("bob")), "bob b1");
}

#[test]
fn empty_username_and_password_are_stored_verbatim() {
    let mut store = Store::new();
    put_user(&mut store, String::from(""), String::from(""));
    assert_eq!(get_user(&store, &String::from("")), " ");
}

#[test]
fn lookup_statement_returns_at_most_one_row() {
    let mut store = Store::new();
    put_user(&mut store, String::from("alice"), String::from("pw1"));
    put_user(&mut store, String::from("alice"), String::from("pw2"));
    let rows = store.execute_lookup(&String::from("alice"));
    assert_eq!(rows.len(), 1);
    assert_eq!(rows[0].username, "alice");
    assert_eq!(rows[0].password, "pw2");
    let rows = store.execute_lookup(&String::from("carol"));
    assert_eq!(rows.len(), 0);
}

#[test]
fn lookup_response_per_outcome() {
    assert_eq!(lookup_response(&LookupEvent::NoRowSet), "Something went wrong");
    assert_eq!(lookup_response(&LookupEvent::Rows(Vec::new())), "Can't find user");
    let rows = vec![Credential {
        username: String::from("alice"),
        password: String::from("pw"),
    }];
    assert_eq!(lookup_response(&LookupEvent::Rows(rows)), "alice pw");
}

#[test]
fn lookup_response_ignores_rows_beyond_the_first() {
    let rows = vec![
        Credential {
            username: String::from("alice"),
            password: String::from("pw"),
        },
        Credential {
            username: String::from("bob"),
            password: String::from("other"),
        },
    ];
    assert_eq!(lookup_response(&LookupEvent::Rows(rows)), "alice pw");
}

#[test]
fn upsert_response_per_outcome() {
    assert_eq!(upsert_response(true), "User Added");
    assert_eq!(upsert_response(false), "Something went wrong");
}

#[test]
fn join_puts_a_single_space_between() {
    let r = join_username_password(&String::from("alice"), &String::from("s3cret"));
    assert_eq!(r, "alice s3cret");
}

#[test]
fn statement_texts() {
    assert_eq!(
        create_keyspace_ddl(),
        "CREATE KEYSPACE IF NOT EXISTS ks WITH REPLICATION = {'class' : 'SimpleStrategy', 'replication_factor' : 1}"
    );
    assert_eq!(
        create_table_ddl(),
        "CREATE TABLE IF NOT EXISTS ks.salt1 (username ASCII primary key, password ASCII)"
    );
    assert_eq!(
        lookup_cql(),
        "SELECT username, password FROM ks.salt1 WHERE username = ?"
    );
    assert_eq!(
        upsert_cql(),
        "INSERT INTO ks.salt1 (username, password) VALUES (?, ?)"
    );
}
