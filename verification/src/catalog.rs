use vstd::prelude::*;

use crate::config::{opt_view, CatalogServiceConfig};
use crate::model::{DistributorSession, DpabError};
use crate::text::concat;
use vstd::string::*;

verus! {

/// The wait between two polls of the catalog service: the configured interval
/// while polls succeed; after a failure the retry interval, doubled after each
/// further failure up to the configured maximum.
pub struct PollingInterval {
    interval: u64,
    polling: u64,
    retry: u64,
    max_retry: u64,
}

impl PollingInterval {
    /// The current wait, in seconds.
    pub closed spec fn current(&self) -> u64 {
        self.interval
    }

    /// The configured polling interval.
    pub closed spec fn polling(&self) -> u64 {
        self.polling
    }

    /// The configured retry interval.
    pub closed spec fn retry(&self) -> u64 {
        self.retry
    }

    /// The configured maximum retry interval.
    pub closed spec fn max_retry(&self) -> u64 {
        self.max_retry
    }

    /// The wait that follows a failure, from the current wait `interval`.
    pub open spec fn next_interval(&self, interval: u64) -> u64 {
        if interval == self.polling() {
            self.retry()
        } else if 2 * interval <= self.max_retry() {
            (2 * interval) as u64
        } else {
            self.max_retry()
        }
    }

    /// The wait before the first poll: the configured polling interval.
    pub fn new(config: &CatalogServiceConfig) -> (r: PollingInterval)
        ensures
            r.current() == config.polling_interval_secs,
            r.polling() == config.polling_interval_secs,
            r.retry() == config.retry_interval_secs,
            r.max_retry() == config.max_retry_interval_secs,
    {
        PollingInterval {
            interval: config.polling_interval_secs,
            polling: config.polling_interval_secs,
            retry: config.retry_interval_secs,
            max_retry: config.max_retry_interval_secs,
        }
    }

    /// The wait after a failed poll, which becomes the current wait.
    pub fn update(&mut self) -> (r: u64)
        requires
            old(self).current() != old(self).polling() ==> 2 * old(self).current() <= u64::MAX,
        ensures
            r == final(self).current(),
            r == old(self).next_interval(old(self).current()),
            final(self).polling() == old(self).polling(),
            final(self).retry() == old(self).retry(),
            final(self).max_retry() == old(self).max_retry(),
    {
        if self.interval == self.polling {
            self.interval = self.retry;
        } else {
            let doubled = self.interval * 2;
            self.interval = if doubled < self.max_retry {
                doubled
            } else {
                self.max_retry
            };
        }
        self.interval
    }

    /// The current wait, in seconds.
    pub fn get(&self) -> (r: u64)
        ensures
            r == self.current(),
    {
        self.interval
    }
}

/// After a failed poll the wait is the retry interval or at most the maximum
/// retry interval: a run of failures never waits longer than those allow.
pub proof fn law_backoff_capped(p: PollingInterval)
    ensures
        p.next_interval(p.current()) == p.retry() || p.next_interval(p.current()) <= p.max_retry(),
{
}

/// The wait grows while polls keep failing, until it reaches the maximum.
pub proof fn law_backoff_grows(p: PollingInterval)
    requires
        p.current() != p.polling(),
        p.current() <= p.max_retry(),
    ensures
        p.current() <= p.next_interval(p.current()),
{
}

/// The catalog hash that the device last saw, kept in a file under a directory.
pub struct CatalogHashStorage {
    path: String,
    hash: Option<String>,
}

/// The file, under the directory `dir`, that keeps the catalog hash.
pub open spec fn hash_file(dir: Seq<char>) -> Seq<char> {
    dir + "/"@ + "apps/catalog_hash"@
}

/// The hash that a storage answers with, or the empty text.
pub open spec fn hash_or_empty(h: Option<Seq<char>>) -> Seq<char> {
    match h {
        Some(s) => s,
        None => Seq::empty(),
    }
}

impl CatalogHashStorage {
    /// The file that keeps the hash.
    pub closed spec fn file(&self) -> Seq<char> {
        self.path@
    }

    /// The hash known without reading the file, if any.
    pub closed spec fn known(&self) -> Option<Seq<char>> {
        opt_view(self.hash)
    }

    /// A storage in the directory `path`, with no hash known yet.
    pub fn new(path: String) -> (r: CatalogHashStorage)
        ensures
            r.file() == hash_file(path@),
            r.known() is None,
    {
        let a = concat(path.as_str(), "/");
        CatalogHashStorage { path: concat(a.as_str(), "apps/catalog_hash"), hash: None }
    }

    /// The file that keeps the hash.
    pub fn path(&self) -> (r: &str)
        ensures
            r@ == self.file(),
    {
        self.path.as_str()
    }

    /// Whether the hash must be read from the file before `get`.
    pub fn needs_read(&self) -> (r: bool)
        ensures
            r == self.known() is None,
    {
        self.hash.is_none()
    }

    /// The hash: the one known, else `stored` (what the file holds, when it
    /// could be read), which becomes known; empty when there is none.
    pub fn get(&mut self, stored: Option<String>) -> (r: String)
        ensures
            gets(*old(self), stored, *final(self), r),
    {
        if self.hash.is_none() {
            self.hash = stored;
        }
        match &self.hash {
            Some(h) => h.clone(),
            None => String::new(),
        }
    }

    /// Makes `hash` the known hash; the caller writes it to the file.
    pub fn set(&mut self, hash: String)
        ensures
            sets(*old(self), hash, *final(self)),
    {
        self.hash = Some(hash);
    }
}

/// What [`CatalogHashStorage::get`] does: the file stays; the known hash stays,
/// or, when none was known, `stored` becomes known; the answer is the known
/// hash, or the empty text.
pub open spec fn gets(before: CatalogHashStorage, stored: Option<String>, after: CatalogHashStorage, r: String) -> bool {
    &&& after.file() == before.file()
    &&& after.known() == (if before.known() is None { opt_view(stored) } else { before.known() })
    &&& r@ == hash_or_empty(after.known())
}

/// What [`CatalogHashStorage::set`] does: the file stays and `hash` becomes known.
pub open spec fn sets(before: CatalogHashStorage, hash: String, after: CatalogHashStorage) -> bool {
    &&& after.file() == before.file()
    &&& after.known() == Some(hash@)
}

/// A hash that was set is what the storage answers afterwards, whatever the
/// file holds: after `set(hash)`, `get` answers `hash` and keeps it.
pub proof fn law_hash_read_after_write(
    s0: CatalogHashStorage,
    hash: String,
    s1: CatalogHashStorage,
    stored: Option<String>,
    s2: CatalogHashStorage,
    r: String,
)
    requires
        sets(s0, hash, s1),
        gets(s1, stored, s2, r),
    ensures
        r@ == hash@,
        s2.known() == Some(hash@),
        s2.file() == s0.file(),
{
}

/// An application of the catalog.
pub struct AppMetadata {
    pub id: String,
    pub title: String,
    pub version: String,
    pub uri: String,
    pub data: Option<String>,
}

/// An entry of a page of the catalog.
pub struct CatalogContent {
    pub durable_app_id: String,
    pub title: String,
    pub version: String,
    pub location_uri: String,
}

/// The request for the hash of the catalog of an account and device.
pub struct GetCatalogHashRequest {
    pub account_id: String,
    pub device_id: String,
    pub firebolt_version: String,
}

/// The request for a page of the catalog with a given hash.
pub struct ListCatalogContentsRequest {
    pub catalog_hash: String,
    pub page_token: String,
}

/// Whether `a` is the catalog entry `c` as an application.
pub open spec fn app_of(c: CatalogContent, a: AppMetadata) -> bool {
    &&& a.id@ == c.durable_app_id@
    &&& a.title@ == c.title@
    &&& a.version@ == c.version@
    &&& a.uri@ == c.location_uri@
    &&& a.data is None
}

/// The catalog service client: the session it polls for, the settings and
/// the last hash seen.
pub struct CatalogService {
    pub distributor_session: Option<DistributorSession>,
    pub config: CatalogServiceConfig,
    pub catalog_hash: CatalogHashStorage,
}

impl CatalogService {
    /// A client with no session yet, keeping the hash under the configured directory.
    pub fn new(config: CatalogServiceConfig) -> (r: CatalogService)
        ensures
            r.distributor_session is None,
            r.catalog_hash.file() == hash_file(config.saved_dir@),
            r.catalog_hash.known() is None,
            r.config == config,
    {
        let catalog_hash = CatalogHashStorage::new(config.saved_dir.clone());
        CatalogService { distributor_session: None, config, catalog_hash }
    }

    /// Makes `session` the session that the catalog is polled for.
    pub fn refresh_session(&mut self, session: DistributorSession)
        ensures
            final(self).distributor_session == Some(session),
            final(self).config == old(self).config,
            final(self).catalog_hash == old(self).catalog_hash,
    {
        self.distributor_session = Some(session);
    }

    /// The request for the catalog hash; the service error without a session.
    pub fn hash_request(&self) -> (r: Result<GetCatalogHashRequest, DpabError>)
        ensures
            match self.distributor_session {
                Some(s) => r matches Ok(q) && q.account_id@ == s.account_id@ && q.device_id@ == s.device_id@
                    && q.firebolt_version@ == "0.1.0"@,
                None => r matches Err(e) && e == DpabError::ServiceError,
            },
    {
        match &self.distributor_session {
            Some(s) => Ok(
                GetCatalogHashRequest {
                    account_id: s.account_id.clone(),
                    device_id: s.device_id.clone(),
                    firebolt_version: "0.1.0".to_owned(),
                },
            ),
            None => Err(DpabError::ServiceError),
        }
    }

    /// The request for the page `page_token` of the catalog with hash
    /// `catalog_hash`; the service error without a session.
    pub fn contents_request(&self, catalog_hash: &String, page_token: &String) -> (r: Result<ListCatalogContentsRequest, DpabError>)
        ensures
            match self.distributor_session {
                Some(_) => r matches Ok(q) && q.catalog_hash@ == catalog_hash@ && q.page_token@ == page_token@,
                None => r matches Err(e) && e == DpabError::ServiceError,
            },
    {
        match &self.distributor_session {
            Some(_) => Ok(ListCatalogContentsRequest { catalog_hash: catalog_hash.clone(), page_token: page_token.clone() }),
            None => Err(DpabError::ServiceError),
        }
    }

    /// Whether `hash` differs from the last hash seen (`stored` is what the
    /// hash file holds, read when the storage needs it).
    pub fn is_new_hash(&mut self, hash: &String, stored: Option<String>) -> (r: bool)
        ensures
            final(self).distributor_session == old(self).distributor_session,
            final(self).config == old(self).config,
            final(self).catalog_hash.file() == old(self).catalog_hash.file(),
            final(self).catalog_hash.known() == (if old(self).catalog_hash.known() is None {
                opt_view(stored)
            } else {
                old(self).catalog_hash.known()
            }),
            r == (hash@ != hash_or_empty(final(self).catalog_hash.known())),
    {
        let current = self.catalog_hash.get(stored);
        *hash != current
    }

    /// Adds a page of the catalog to `catalog`; the token of the next page, or
    /// `None` when this was the last page.
    pub fn add_page(catalog: &mut Vec<AppMetadata>, contents: Vec<CatalogContent>, next_page_token: String) -> (r: Option<String>)
        ensures
            final(catalog)@.len() == old(catalog)@.len() + contents@.len(),
            forall|i: int| 0 <= i < old(catalog)@.len() ==> #[trigger] final(catalog)@[i] == old(catalog)@[i],
            forall|i: int| 0 <= i < contents@.len() ==> app_of(contents@[i], #[trigger] final(catalog)@[old(catalog)@.len() + i]),
            r == (if next_page_token@.len() == 0 { None } else { Some(next_page_token) }),
    {
        let ghost start = catalog@;
        let mut i: usize = 0;
        while i < contents.len()
            invariant
                i <= contents@.len(),
                catalog@.len() == start.len() + i,
                forall|k: int| 0 <= k < start.len() ==> #[trigger] catalog@[k] == start[k],
                forall|k: int| 0 <= k < i ==> app_of(contents@[k], #[trigger] catalog@[start.len() + k]),
            decreases contents@.len() - i,
        {
            let c = &contents[i];
            catalog.push(
                AppMetadata {
                    id: c.durable_app_id.clone(),
                    title: c.title.clone(),
                    version: c.version.clone(),
                    uri: c.location_uri.clone(),
                    data: None,
                },
            );
            i = i + 1;
        }
        if next_page_token.as_str().unicode_len() == 0 {
            None
        } else {
            Some(next_page_token)
        }
    }
}

} // verus!
