use itp_tldr::config::Config;
use itp_tldr::database::Database;
use itp_tldr::domain::{Domain, DomainInteraction};
use itp_tldr::error::StoreError;
use rusqlite::Connection;

const SCHEMA: &str = "
    DROP TABLE IF EXISTS ObservedDomains;
    DROP TABLE IF EXISTS SubframeUnderTopFrameDomains;
    DROP TABLE IF EXISTS SubresourceUnderTopFrameDomains;
    DROP TABLE IF EXISTS TopFrameUniqueRedirectsTo;
    CREATE TABLE ObservedDomains (
        domainID INTEGER PRIMARY KEY,
        registrableDomain TEXT NOT NULL,
        isPrevalent INTEGER NOT NULL DEFAULT 0,
        isVeryPrevalent INTEGER NOT NULL DEFAULT 0,
        timesAccessedAsFirstPartyDueToUserInteraction INTEGER NOT NULL DEFAULT 0,
        timesAccessedAsFirstPartyDueToStorageAccessAPI INTEGER NOT NULL DEFAULT 0
    );
    CREATE TABLE SubframeUnderTopFrameDomains (
        subFrameDomainID INTEGER NOT NULL,
        topFrameDomainID INTEGER NOT NULL
    );
    CREATE TABLE SubresourceUnderTopFrameDomains (
        subresourceDomainID INTEGER NOT NULL,
        topFrameDomainID INTEGER NOT NULL
    );
    CREATE TABLE TopFrameUniqueRedirectsTo (
        sourceDomainID INTEGER NOT NULL,
        toDomainID INTEGER NOT NULL
    );
";

fn path_of(test: &str) -> String {
    format!("/tmp/itp_tldr_store_{}.db", test)
}

fn writer(test: &str) -> Connection {
    let connection = Connection::open(path_of(test)).unwrap();
    connection.execute_batch(SCHEMA).unwrap();
    connection
}

fn store(test: &str, rows: &str) -> Connection {
    let connection = writer(test);
    connection.execute_batch(rows).unwrap();
    connection
}

fn open(test: &str, scope: Option<Vec<&str>>) -> Database {
    let domains = scope.map(|names| names.into_iter().map(|name| name.to_string()).collect());
    Database::connect(Config { path: Some(path_of(test)), domains }).unwrap()
}

fn pairs(list: &[Domain]) -> Vec<(i64, &str)> {
    list.iter().map(|domain| (domain.id, domain.name.as_str())).collect()
}

const THREE_DOMAINS: &str = "
    INSERT INTO ObservedDomains (domainID, registrableDomain) VALUES (1, 'a.com');
    INSERT INTO ObservedDomains (domainID, registrableDomain) VALUES (2, 'b.com');
    INSERT INTO ObservedDomains (domainID, registrableDomain) VALUES (3, 'c.com');
";

#[test]
fn connect_without_a_path_fails() {
    let opened = Database::connect(Config { path: None, domains: None });
    assert_eq!(opened.err(), Some(StoreError::Connection));
}

#[test]
fn connect_to_a_missing_file_fails_and_creates_nothing() {
    let path = "/tmp/itp_tldr_store_that_was_never_made.db".to_string();
    let opened = Database::connect(Config { path: Some(path.clone()), domains: None });
    assert_eq!(opened.err(), Some(StoreError::Connection));
    let again = Database::connect(Config { path: Some(path), domains: None });
    assert_eq!(again.err(), Some(StoreError::Connection));
}

#[test]
fn connect_to_a_store_without_the_observed_domains_fails() {
    let connection = Connection::open(path_of("no_relation")).unwrap();
    connection
        .execute_batch("DROP TABLE IF EXISTS ObservedDomains; DROP TABLE IF EXISTS Other; CREATE TABLE Other (id INTEGER);")
        .unwrap();
    drop(connection);
    let opened = Database::connect(Config { path: Some(path_of("no_relation")), domains: None });
    assert_eq!(opened.err(), Some(StoreError::Connection));
}

#[test]
fn connect_to_a_store_without_the_detail_columns_fails() {
    let connection = Connection::open(path_of("no_columns")).unwrap();
    connection
        .execute_batch(
            "DROP TABLE IF EXISTS ObservedDomains;
             CREATE TABLE ObservedDomains (domainID INTEGER PRIMARY KEY, registrableDomain TEXT);",
        )
        .unwrap();
    drop(connection);
    let opened = Database::connect(Config { path: Some(path_of("no_columns")), domains: None });
    assert_eq!(opened.err(), Some(StoreError::Connection));
}

#[test]
fn connect_keeps_the_scope_unchecked() {
    drop(store("lazy_scope", THREE_DOMAINS));
    let database = open("lazy_scope", Some(vec!["nowhere.invalid", "b.com"]));
    assert_eq!(database.domains_len(), Ok(2));
}

#[test]
fn unscoped_listing_returns_every_domain_in_store_order() {
    drop(store("three", THREE_DOMAINS));
    let database = open("three", None);
    let list = database.get_domains().unwrap();
    assert_eq!(pairs(&list), vec![(1, "a.com"), (2, "b.com"), (3, "c.com")]);
    assert_eq!(database.domains_len(), Ok(3));
}

#[test]
fn unscoped_listing_fills_id_and_name_only() {
    drop(store(
        "listing_shape",
        "INSERT INTO ObservedDomains VALUES (1, 'a.com', 1, 1, 5, 6);",
    ));
    let database = open("listing_shape", None);
    let list = database.get_domains().unwrap();
    assert_eq!(list.len(), 1);
    assert_eq!(list[0].is_prevalent(), "No");
    assert_eq!(list[0].is_very_prevalent(), "No");
    assert_eq!(list[0].first_party_interaction, 0);
    assert_eq!(list[0].first_party_store_access, 0);
}

#[test]
fn unscoped_listing_follows_the_store_not_the_names() {
    drop(store(
        "store_order",
        "INSERT INTO ObservedDomains (domainID, registrableDomain) VALUES (1, 'z.com');
         INSERT INTO ObservedDomains (domainID, registrableDomain) VALUES (2, 'm.com');
         INSERT INTO ObservedDomains (domainID, registrableDomain) VALUES (3, 'a.com');",
    ));
    let database = open("store_order", None);
    let list = database.get_domains().unwrap();
    assert_eq!(pairs(&list), vec![(1, "z.com"), (2, "m.com"), (3, "a.com")]);
}

#[test]
fn unscoped_listing_of_an_empty_store_is_empty() {
    drop(writer("empty"));
    let database = open("empty", None);
    assert!(database.get_domains().unwrap().is_empty());
    assert_eq!(database.domains_len(), Ok(0));
}

#[test]
fn unscoped_listing_skips_rows_that_do_not_decode() {
    let connection = Connection::open(path_of("undecodable")).unwrap();
    connection
        .execute_batch(
            "DROP TABLE IF EXISTS ObservedDomains;
             CREATE TABLE ObservedDomains (
                 domainID, registrableDomain, isPrevalent, isVeryPrevalent,
                 timesAccessedAsFirstPartyDueToUserInteraction,
                 timesAccessedAsFirstPartyDueToStorageAccessAPI
             );
             INSERT INTO ObservedDomains (domainID, registrableDomain) VALUES (1, 'a.com');
             INSERT INTO ObservedDomains (domainID, registrableDomain) VALUES ('not a number', 'bad-id.com');
             INSERT INTO ObservedDomains (domainID, registrableDomain) VALUES (3, NULL);
             INSERT INTO ObservedDomains (domainID, registrableDomain) VALUES (4, 'd.com');",
        )
        .unwrap();
    drop(connection);
    let database = open("undecodable", None);
    let list = database.get_domains().unwrap();
    assert_eq!(pairs(&list), vec![(1, "a.com"), (4, "d.com")]);
    assert_eq!(database.domains_len(), Ok(4));
}

#[test]
fn unscoped_listing_fails_once_the_relation_is_gone() {
    let connection = store("dropped", THREE_DOMAINS);
    let database = open("dropped", None);
    assert_eq!(database.get_domains().unwrap().len(), 3);
    connection.execute_batch("DROP TABLE ObservedDomains;").unwrap();
    assert_eq!(database.get_domains().err(), Some(StoreError::Connection));
    assert_eq!(database.domains_len(), Err(StoreError::Connection));
}

#[test]
fn unscoped_reads_see_the_store_as_it_is_now() {
    let connection = store("live", THREE_DOMAINS);
    let database = open("live", None);
    assert_eq!(database.domains_len(), Ok(3));
    connection
        .execute_batch("INSERT INTO ObservedDomains (domainID, registrableDomain) VALUES (4, 'd.com');")
        .unwrap();
    assert_eq!(database.domains_len(), Ok(4));
    assert_eq!(database.get_domains().unwrap().len(), 4);
}

#[test]
fn scoped_listing_follows_the_scope_order() {
    drop(store("scope_order", THREE_DOMAINS));
    let database = open("scope_order", Some(vec!["c.com", "a.com"]));
    let list = database.get_domains().unwrap();
    assert_eq!(pairs(&list), vec![(3, "c.com"), (1, "a.com")]);
    assert_eq!(database.domains_len(), Ok(2));
}

#[test]
fn scoped_listing_has_one_entry_for_each_scope_name() {
    drop(store("scope_repeat", THREE_DOMAINS));
    let database = open("scope_repeat", Some(vec!["b.com", "b.com", "a.com", "b.com"]));
    let list = database.get_domains().unwrap();
    assert_eq!(pairs(&list), vec![(2, "b.com"), (2, "b.com"), (1, "a.com"), (2, "b.com")]);
    assert_eq!(database.domains_len(), Ok(4));
}

#[test]
fn scoped_listing_fills_id_and_name_only() {
    drop(store(
        "scoped_shape",
        "INSERT INTO ObservedDomains VALUES (1, 'a.com', 1, 1, 5, 6);",
    ));
    let database = open("scoped_shape", Some(vec!["a.com"]));
    let list = database.get_domains().unwrap();
    assert_eq!(list.len(), 1);
    assert_eq!(list[0].is_prevalent(), "No");
    assert_eq!(list[0].is_very_prevalent(), "No");
    assert_eq!(list[0].first_party_interaction, 0);
    assert_eq!(list[0].first_party_store_access, 0);
}

#[test]
fn scoped_listing_fails_on_an_unknown_name() {
    drop(store("unknown_name", THREE_DOMAINS));
    let database = open("unknown_name", Some(vec!["b.com", "zzz.invalid"]));
    let listed = database.get_domains();
    assert_eq!(listed.err(), Some(StoreError::UnknownScopedDomain { position: 1 }));
}

#[test]
fn scoped_listing_fails_on_the_first_unknown_name() {
    drop(store("first_unknown", THREE_DOMAINS));
    let database =
        open("first_unknown", Some(vec!["a.com", "one.invalid", "b.com", "two.invalid"]));
    assert_eq!(
        database.get_domains().err(),
        Some(StoreError::UnknownScopedDomain { position: 1 })
    );
}

#[test]
fn scoped_listing_tells_a_broken_store_from_an_unknown_name() {
    let connection = store("scoped_dropped", THREE_DOMAINS);
    let database = open("scoped_dropped", Some(vec!["a.com"]));
    assert_eq!(database.get_domains().unwrap().len(), 1);
    connection.execute_batch("DROP TABLE ObservedDomains;").unwrap();
    assert_eq!(database.get_domains().err(), Some(StoreError::Connection));
}

#[test]
fn scoped_count_asks_no_store() {
    let connection = store("scoped_count", THREE_DOMAINS);
    let database = open("scoped_count", Some(vec!["a.com", "zzz.invalid", "b.com"]));
    connection.execute_batch("DROP TABLE ObservedDomains;").unwrap();
    assert_eq!(database.domains_len(), Ok(3));
}

#[test]
fn empty_scope_lists_nothing() {
    drop(store("empty_scope", THREE_DOMAINS));
    let database = open("empty_scope", Some(vec![]));
    assert!(database.get_domains().unwrap().is_empty());
    assert_eq!(database.domains_len(), Ok(0));
}

#[test]
fn info_fills_flags_and_counters() {
    drop(store(
        "info",
        "INSERT INTO ObservedDomains VALUES (1, 'a.com', 0, 0, 0, 0);
         INSERT INTO ObservedDomains VALUES (2, 'b.com', 1, 0, 17, 4);
         INSERT INTO ObservedDomains VALUES (3, 'c.com', 1, 1, 2, 0);",
    ));
    let database = open("info", None);
    let list = database.get_domains().unwrap();
    let b = database.get_info(&list[1]).unwrap();
    assert_eq!((b.id, b.name.as_str()), (2, "b.com"));
    assert_eq!(b.is_prevalent(), "Yes");
    assert_eq!(b.is_very_prevalent(), "No");
    assert_eq!(b.first_party_interaction, 17);
    assert_eq!(b.first_party_store_access, 4);
    let c = database.get_info(&list[2]).unwrap();
    assert_eq!(c.is_prevalent(), "Yes");
    assert_eq!(c.is_very_prevalent(), "Yes");
    assert_eq!(c.first_party_interaction, 2);
    assert_eq!(c.first_party_store_access, 0);
    let a = database.get_info(&list[0]).unwrap();
    assert_eq!(a.is_prevalent(), "No");
    assert_eq!(a.is_very_prevalent(), "No");
    assert!(a.same_entity(&list[0]));
}

#[test]
fn info_goes_by_the_identifier_and_keeps_the_name() {
    drop(store("info_by_id", "INSERT INTO ObservedDomains VALUES (2, 'b.com', 1, 0, 17, 4);"));
    let database = open("info_by_id", None);
    let asked = Domain::listed(2, "as the caller spelled it".to_string());
    let populated = database.get_info(&asked).unwrap();
    assert_eq!(populated.id, 2);
    assert_eq!(populated.name, "as the caller spelled it");
    assert_eq!(populated.first_party_interaction, 17);
}

#[test]
fn info_of_an_unknown_identifier_is_not_found() {
    drop(store("info_unknown", THREE_DOMAINS));
    let database = open("info_unknown", None);
    let stale = Domain::listed(99, "gone.example".to_string());
    assert_eq!(database.get_info(&stale).err(), Some(StoreError::NotFound));
}

#[test]
fn info_of_a_row_that_vanished_is_not_found() {
    let connection = store("info_vanished", THREE_DOMAINS);
    let database = open("info_vanished", None);
    let list = database.get_domains().unwrap();
    assert!(database.get_info(&list[1]).is_ok());
    connection.execute_batch("DELETE FROM ObservedDomains WHERE domainID = 2;").unwrap();
    assert_eq!(database.get_info(&list[1]).err(), Some(StoreError::NotFound));
    assert!(database.get_info(&list[0]).is_ok());
}

#[test]
fn info_from_a_broken_store_is_a_connection_error() {
    let connection = store("info_dropped", THREE_DOMAINS);
    let database = open("info_dropped", None);
    connection.execute_batch("DROP TABLE ObservedDomains;").unwrap();
    let asked = Domain::listed(1, "a.com".to_string());
    assert_eq!(database.get_info(&asked).err(), Some(StoreError::Connection));
}

#[test]
fn info_counts_a_negative_counter_as_zero() {
    drop(store("info_negative", "INSERT INTO ObservedDomains VALUES (1, 'a.com', 0, 0, -3, 8);"));
    let database = open("info_negative", None);
    let populated = database.get_info(&Domain::listed(1, "a.com".to_string())).unwrap();
    assert_eq!(populated.first_party_interaction, 0);
    assert_eq!(populated.first_party_store_access, 8);
}

#[test]
fn interaction_without_rows_is_all_zero() {
    drop(store(
        "no_interaction",
        "INSERT INTO ObservedDomains (domainID, registrableDomain) VALUES (7, 'x.com');
         INSERT INTO SubframeUnderTopFrameDomains VALUES (8, 1);
         INSERT INTO SubresourceUnderTopFrameDomains VALUES (9, 1);
         INSERT INTO TopFrameUniqueRedirectsTo VALUES (1, 10);",
    ));
    let database = open("no_interaction", None);
    let list = database.get_domains().unwrap();
    assert_eq!(pairs(&list), vec![(7, "x.com")]);
    assert_eq!(
        database.domain_interaction(&list[0]),
        DomainInteraction { iframes: 0, requests: 0, redirects: 0 }
    );
}

#[test]
fn interaction_of_an_unknown_identifier_is_all_zero() {
    drop(store("unknown_interaction", THREE_DOMAINS));
    let database = open("unknown_interaction", None);
    let stale = Domain::listed(-5, "gone.example".to_string());
    assert_eq!(
        database.domain_interaction(&stale),
        DomainInteraction { iframes: 0, requests: 0, redirects: 0 }
    );
}

#[test]
fn interaction_counts_each_relation() {
    drop(store(
        "interaction",
        "INSERT INTO ObservedDomains (domainID, registrableDomain) VALUES (7, 'x.com');
         INSERT INTO SubframeUnderTopFrameDomains VALUES (7, 1);
         INSERT INTO SubframeUnderTopFrameDomains VALUES (7, 2);
         INSERT INTO SubframeUnderTopFrameDomains VALUES (8, 2);
         INSERT INTO SubresourceUnderTopFrameDomains VALUES (7, 1);
         INSERT INTO SubresourceUnderTopFrameDomains VALUES (7, 2);
         INSERT INTO SubresourceUnderTopFrameDomains VALUES (7, 3);
         INSERT INTO TopFrameUniqueRedirectsTo VALUES (1, 7);
         INSERT INTO TopFrameUniqueRedirectsTo VALUES (7, 1);",
    ));
    let database = open("interaction", None);
    let x = Domain::listed(7, "x.com".to_string());
    assert_eq!(
        database.domain_interaction(&x),
        DomainInteraction { iframes: 2, requests: 3, redirects: 1 }
    );
}

#[test]
fn interaction_degrades_a_missing_relation_to_zero() {
    let connection = store(
        "missing_relation",
        "INSERT INTO ObservedDomains (domainID, registrableDomain) VALUES (7, 'x.com');
         INSERT INTO SubframeUnderTopFrameDomains VALUES (7, 1);
         INSERT INTO SubresourceUnderTopFrameDomains VALUES (7, 1);
         INSERT INTO SubresourceUnderTopFrameDomains VALUES (7, 2);
         INSERT INTO TopFrameUniqueRedirectsTo VALUES (1, 7);",
    );
    connection.execute_batch("DROP TABLE SubresourceUnderTopFrameDomains;").unwrap();
    drop(connection);
    let database = open("missing_relation", None);
    let x = Domain::listed(7, "x.com".to_string());
    assert_eq!(
        database.domain_interaction(&x),
        DomainInteraction { iframes: 1, requests: 0, redirects: 1 }
    );
}

#[test]
fn interaction_of_a_store_without_relations_is_all_zero() {
    let connection = store("no_relations", THREE_DOMAINS);
    connection
        .execute_batch(
            "DROP TABLE SubframeUnderTopFrameDomains;
             DROP TABLE SubresourceUnderTopFrameDomains;
             DROP TABLE TopFrameUniqueRedirectsTo;",
        )
        .unwrap();
    drop(connection);
    let database = open("no_relations", None);
    let a = Domain::listed(1, "a.com".to_string());
    assert_eq!(
        database.domain_interaction(&a),
        DomainInteraction { iframes: 0, requests: 0, redirects: 0 }
    );
}

#[test]
fn the_store_is_opened_for_reading_only() {
    drop(store("read_only", THREE_DOMAINS));
    let database = open("read_only", None);
    assert_eq!(database.domains_len(), Ok(3));
    let check = Connection::open(path_of("read_only")).unwrap();
    let count: i64 =
        check.query_row("SELECT count(*) FROM ObservedDomains", rusqlite::NO_PARAMS, |row| row.get(0)).unwrap();
    assert_eq!(count, 3);
}
