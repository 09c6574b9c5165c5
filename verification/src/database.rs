//! The read-only accessor over the observation store.

use crate::config::{names_of, scope_names, Config};
use crate::domain::{Domain, DomainInteraction};
use crate::error::StoreError;
use crate::listing::{count_scope, count_store, detail, listing, scope_count, scoped_entry, summarize};
use crate::lookup::Lookup;
use crate::sqlite::{domain_by_name, domain_rows, info_by_id, lookup_of, open_read_only, prepare, query_count};
use rusqlite::Connection;
use vstd::prelude::*;

verus! {

const OBSERVED_DOMAINS: &'static str = "SELECT domainID, registrableDomain FROM ObservedDomains";

const SCOPED_DOMAINS: &'static str =
    "SELECT domainID, registrableDomain FROM ObservedDomains WHERE registrableDomain = ?";

const DOMAINS_AMOUNT: &'static str = "SELECT count(*) FROM ObservedDomains";

const DOMAIN_INFO: &'static str =
    "SELECT isPrevalent, isVeryPrevalent, timesAccessedAsFirstPartyDueToUserInteraction, timesAccessedAsFirstPartyDueToStorageAccessAPI FROM ObservedDomains WHERE domainID = ?";

const IFRAME_DOMAIN_INFO: &'static str =
    "SELECT count(*) FROM SubframeUnderTopFrameDomains WHERE subFrameDomainID = ?";

const SUBRESOURCE_DOMAIN_INFO: &'static str =
    "SELECT count(*) FROM SubresourceUnderTopFrameDomains WHERE subresourceDomainID = ?";

const TOPFRAME_DOMAIN_REDIRECT: &'static str =
    "SELECT count(*) FROM TopFrameUniqueRedirectsTo WHERE toDomainID = ?";

/// An open observation store, with the scope that the session was started
/// with. The store itself belongs to the browser and may change between two
/// reads; the scope never does.
pub struct Database {
    connection: Connection,
    scope: Option<Vec<String>>,
}

impl Database {
    /// The names of the scope, in the order given at startup; `None` for an
    /// unscoped session.
    pub closed spec fn scope(&self) -> Option<Seq<Seq<char>>> {
        scope_names(self.scope)
    }

    /// Opens the store at the configured path for reading and keeps the
    /// configured scope as it is, unchecked against the store.
    ///
    /// Fails where no path is configured, where the file does not open, and
    /// where it lacks the observed-domains relation with its columns.
    pub fn connect(config: Config) -> (opened: Result<Database, StoreError>)
        ensures
            match opened {
                Ok(database) => config@.path is Some && database.scope() == config@.domains,
                Err(error) => error == StoreError::Connection,
            },
    {
        let Config { path, domains } = config;
        let path = match path {
            Some(path) => path,
            None => { return Err(StoreError::Connection); },
        };
        let connection = match open_read_only(path.as_str()) {
            Ok(connection) => connection,
            Err(_) => { return Err(StoreError::Connection); },
        };
        let listable = prepare(&connection, OBSERVED_DOMAINS).is_ok();
        let detailable = prepare(&connection, DOMAIN_INFO).is_ok();
        if listable && detailable {
            Ok(Database { connection, scope: domains })
        } else {
            Err(StoreError::Connection)
        }
    }

    /// Lists the domains of the session with `id` and `name` filled.
    ///
    /// With a scope: one entry for each scope name, under that name and in
    /// scope order, resolved one by one; the first name that does not resolve
    /// ends the listing with its position, and nothing is listed. Without a
    /// scope: every row of the observed-domains relation that decodes, in
    /// the order in which the store hands them out.
    pub fn get_domains(&self) -> (listed_domains: Result<Vec<Domain>, StoreError>)
        ensures
            match listed_domains {
                Ok(list) => {
                    &&& forall|i: int| 0 <= i < list.len() ==> (#[trigger] list[i]@).is_listing()
                    &&& self.scope() matches Some(names) ==> {
                        &&& list.len() == names.len()
                        &&& forall|i: int| 0 <= i < list.len() ==> (#[trigger] list[i]@).name == names[i]
                    }
                },
                Err(StoreError::UnknownScopedDomain { position }) => {
                    self.scope() matches Some(names) && position < names.len()
                },
                Err(error) => error == StoreError::Connection,
            },
            self.scope() matches Some(names) && names.len() == 0 ==> listed_domains is Ok,
    {
        match &self.scope {
            Some(scope) => {
                let mut list: Vec<Domain> = Vec::new();
                let mut position: usize = 0;
                while position < scope.len()
                    invariant
                        self.scope() == Some(names_of(scope@)),
                        position <= scope.len(),
                        list.len() == position,
                        forall|i: int| 0 <= i < list.len() ==> (#[trigger] list[i]@).is_listing(),
                        forall|i: int|
                            0 <= i < list.len() ==> (#[trigger] list[i]@).name == scope[i]@,
                    decreases scope.len() - position,
                {
                    let name = &scope[position];
                    let found = lookup_of(
                        domain_by_name(&self.connection, SCOPED_DOMAINS, name.as_str()),
                    );
                    match scoped_entry(position, name, found) {
                        Ok(domain) => list.push(domain),
                        Err(error) => { return Err(error); },
                    }
                    position += 1;
                }
                Ok(list)
            },
            None => {
                let mut statement = match prepare(&self.connection, OBSERVED_DOMAINS) {
                    Ok(statement) => statement,
                    Err(_) => { return Err(StoreError::Connection); },
                };
                match domain_rows(&mut statement) {
                    Ok(rows) => {
                        Ok(listing(rows))
                    },
                    Err(_) => Err(StoreError::Connection),
                }
            },
        }
    }

    /// Fetches the flags and counters of `domain` by its identifier and
    /// returns the record with them filled in, under the same identifier and
    /// name. A domain whose row is gone is `NotFound`.
    pub fn get_info(&self, domain: &Domain) -> (populated: Result<Domain, StoreError>)
        ensures
            match populated {
                Ok(record) => {
                    &&& record@.id == domain@.id
                    &&& record@.name == domain@.name
                    &&& record@.wf()
                },
                Err(error) => error == StoreError::NotFound || error == StoreError::Connection,
            },
    {
        let found = lookup_of(info_by_id(&self.connection, DOMAIN_INFO, domain.id));
        detail(domain, found)
    }

    /// The number of domains of the session: the size of the scope where
    /// there is one, without a query; else what the store counts.
    pub fn domains_len(&self) -> (amount: Result<i32, StoreError>)
        ensures
            match self.scope() {
                Some(names) => amount == Ok::<i32, StoreError>(scope_count(names.len()) as i32),
                None => match amount {
                    Ok(count) => count >= 0,
                    Err(error) => error == StoreError::Connection,
                },
            },
    {
        match &self.scope {
            Some(scope) => Ok(count_scope(scope)),
            None => {
                let keys: Vec<i64> = Vec::new();
                count_store(lookup_of(query_count(&self.connection, DOMAINS_AMOUNT, &keys)))
            },
        }
    }

    /// Counts, in three independent lookups, the top-frame domains that
    /// framed `domain`, that requested it as a subresource and that
    /// redirected to it. Never fails: a lookup that does not answer shows as
    /// zero and leaves the other two alone.
    pub fn domain_interaction(&self, domain: &Domain) -> (summary: DomainInteraction)
        ensures
            summary.wf(),
    {
        let iframes = self.iframed_count(domain);
        let requests = self.requests_count(domain);
        let redirects = self.redirects_count(domain);
        summarize(iframes, requests, redirects)
    }

    fn iframed_count(&self, domain: &Domain) -> Lookup<i32> {
        self.relation_count(IFRAME_DOMAIN_INFO, domain)
    }

    fn requests_count(&self, domain: &Domain) -> Lookup<i32> {
        self.relation_count(SUBRESOURCE_DOMAIN_INFO, domain)
    }

    fn redirects_count(&self, domain: &Domain) -> Lookup<i32> {
        self.relation_count(TOPFRAME_DOMAIN_REDIRECT, domain)
    }

    fn relation_count(&self, sql: &str, domain: &Domain) -> Lookup<i32> {
        let mut keys: Vec<i64> = Vec::new();
        keys.push(domain.id);
        lookup_of(query_count(&self.connection, sql, &keys))
    }
}

} // verus!
