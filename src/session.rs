//! The state that the application keeps between calls to the service, and
//! how each answer changes it. A failed call leaves the loaded zones and
//! records as they were and records a message for the user.

use crate::client::CloudflareClient;
use crate::envelope::{ClientError, DnsRecord, Zone};
use crate::text::same_text;
use vstd::prelude::*;

verus! {

/// The screen that is shown.
#[derive(Clone, Copy, Debug, PartialEq, Eq, Structural)]
pub enum Page {
    TokenSetup,
    Dashboard,
    Settings,
}

/// Which write a result belongs to.
#[derive(Clone, Copy, Debug, PartialEq, Eq, Structural)]
pub enum RecordWrite {
    Create,
    Update,
    Delete,
}

/// What the application holds: the client once a token is known, the zones,
/// the selected zone, its records, and the record being edited.
pub struct Session {
    pub page: Page,
    pub client: Option<CloudflareClient>,
    pub zones: Vec<Zone>,
    pub selected_zone_index: Option<usize>,
    pub dns_records: Vec<DnsRecord>,
    pub loading: bool,
    pub error: Option<String>,
    pub editing_record: Option<DnsRecord>,
}

/// Whether `i` is the first position of a zone with id `id`.
pub open spec fn first_with_id(zones: Seq<Zone>, id: Seq<char>, i: int) -> bool {
    &&& 0 <= i < zones.len()
    &&& zones[i].id@ == id
    &&& forall|j: int| 0 <= j < i ==> zones[j].id@ != id
}

/// `prefix` followed by the text of `e`.
pub open spec fn failure_note(prefix: Seq<char>, e: ClientError) -> Seq<char> {
    prefix + e.text()
}

pub open spec fn write_prefix(w: RecordWrite) -> Seq<char> {
    match w {
        RecordWrite::Create => "Failed to create record: "@,
        RecordWrite::Update => "Failed to update record: "@,
        RecordWrite::Delete => "Failed to delete record: "@,
    }
}

fn note(prefix: &str, text: &str) -> (r: Option<String>)
    ensures
        r matches Some(m) && m@ == prefix@ + text@,
{
    let mut m = String::from_str(prefix);
    m.append(text);
    Some(m)
}

fn write_prefix_str(w: RecordWrite) -> (r: &'static str)
    ensures
        r@ == write_prefix(w),
{
    match w {
        RecordWrite::Create => "Failed to create record: ",
        RecordWrite::Update => "Failed to update record: ",
        RecordWrite::Delete => "Failed to delete record: ",
    }
}

impl Session {
    /// The selected zone, when there is a client and the selection names one
    /// of the zones.
    pub open spec fn loadable_zone(&self) -> Option<int> {
        match self.selected_zone_index {
            Some(i) => if self.client is Some && i < self.zones@.len() {
                Some(i as int)
            } else {
                None
            },
            None => None,
        }
    }

    /// The session at start-up, given the outcome of reading the stored token:
    /// with a token, the dashboard and a client for it; else the token setup.
    /// The caller loads the zones when a client is set.
    pub fn start(stored_token: Result<Option<String>, String>) -> (r: Session)
        ensures
            stored_token matches Ok(Some(t)) ==> {
                &&& r.page == Page::Dashboard
                &&& r.client matches Some(c) && c.token_view() == t@
            },
            !(stored_token matches Ok(Some(_))) ==> r.page == Page::TokenSetup && r.client is None,
            r.zones@.len() == 0,
            r.selected_zone_index is None,
            r.dns_records@.len() == 0,
            !r.loading,
            r.error is None,
            r.editing_record is None,
    {
        let (page, client) = match stored_token {
            Ok(Some(t)) => (Page::Dashboard, Some(CloudflareClient::new(t))),
            _ => (Page::TokenSetup, None),
        };
        Session {
            page,
            client,
            zones: Vec::new(),
            selected_zone_index: None,
            dns_records: Vec::new(),
            loading: false,
            error: None,
            editing_record: None,
        }
    }

    /// Marks a call as under way.
    fn begin(&mut self)
        ensures
            final(self).loading,
            final(self).error is None,
            final(self).page == old(self).page,
            final(self).client == old(self).client,
            final(self).zones == old(self).zones,
            final(self).selected_zone_index == old(self).selected_zone_index,
            final(self).dns_records == old(self).dns_records,
            final(self).editing_record == old(self).editing_record,
    {
        self.loading = true;
        self.error = None;
    }

    /// Starts loading the zones, if there is a client to load them with.
    pub fn begin_load_zones(&mut self) -> (r: bool)
        ensures
            r == old(self).client is Some,
            r ==> final(self).loading && final(self).error is None,
            !r ==> *final(self) == *old(self),
            final(self).zones == old(self).zones,
            final(self).dns_records == old(self).dns_records,
    {
        if self.client.is_none() {
            return false;
        }
        self.begin();
        true
    }

    /// Takes in the zones, or the failure to list them. Returns whether the
    /// records of the newly selected first zone are to be loaded.
    pub fn zones_loaded(&mut self, result: Result<Vec<Zone>, ClientError>) -> (r: bool)
        ensures
            !final(self).loading,
            final(self).page == old(self).page,
            final(self).client == old(self).client,
            final(self).dns_records == old(self).dns_records,
            result matches Ok(z) ==> {
                &&& final(self).zones == z
                &&& final(self).error == old(self).error
                &&& r == (z@.len() > 0 && old(self).selected_zone_index is None)
                &&& final(self).selected_zone_index == (if r {
                    Some(0usize)
                } else {
                    old(self).selected_zone_index
                })
            },
            result matches Err(e) ==> {
                &&& !r
                &&& final(self).zones == old(self).zones
                &&& final(self).selected_zone_index == old(self).selected_zone_index
                &&& final(self).error matches Some(m) && m@ == failure_note(
                    "Failed to load zones: "@,
                    e,
                )
            },
    {
        self.loading = false;
        match result {
            Ok(zones) => {
                let first = zones.len() > 0 && self.selected_zone_index.is_none();
                self.zones = zones;
                if first {
                    self.selected_zone_index = Some(0);
                }
                first
            },
            Err(e) => {
                self.error = note("Failed to load zones: ", e.message().as_str());
                false
            },
        }
    }

    /// Starts a call on the selected zone: the id of the zone, or `None` when
    /// there is no client or no zone is selected.
    fn begin_zone_call(&mut self) -> (r: Option<String>)
        ensures
            old(self).loadable_zone() matches Some(i) ==> {
                &&& r matches Some(id) && id@ == old(self).zones@[i].id@
                &&& final(self).loading && final(self).error is None
            },
            old(self).loadable_zone() is None ==> r is None && *final(self) == *old(self),
            final(self).page == old(self).page,
            final(self).client == old(self).client,
            final(self).zones == old(self).zones,
            final(self).selected_zone_index == old(self).selected_zone_index,
            final(self).dns_records == old(self).dns_records,
            final(self).editing_record == old(self).editing_record,
    {
        if self.client.is_none() {
            return None;
        }
        let i = match self.selected_zone_index {
            Some(i) => i,
            None => return None,
        };
        if i >= self.zones.len() {
            return None;
        }
        let id = self.zones[i].id.clone();
        self.begin();
        Some(id)
    }

    /// Starts loading the records of the selected zone; the id of the zone,
    /// or `None` when there is no client or no zone is selected.
    pub fn begin_load_dns_records(&mut self) -> (r: Option<String>)
        ensures
            old(self).loadable_zone() matches Some(i) ==> {
                &&& r matches Some(id) && id@ == old(self).zones@[i].id@
                &&& final(self).loading && final(self).error is None
            },
            old(self).loadable_zone() is None ==> r is None && *final(self) == *old(self),
            final(self).zones == old(self).zones,
            final(self).dns_records == old(self).dns_records,
    {
        self.begin_zone_call()
    }

    /// Starts a create, update or delete in the selected zone; the id of the
    /// zone, or `None` when there is no client or no zone is selected.
    pub fn begin_record_write(&mut self) -> (r: Option<String>)
        ensures
            old(self).loadable_zone() matches Some(i) ==> {
                &&& r matches Some(id) && id@ == old(self).zones@[i].id@
                &&& final(self).loading && final(self).error is None
            },
            old(self).loadable_zone() is None ==> r is None && *final(self) == *old(self),
            final(self).zones == old(self).zones,
            final(self).dns_records == old(self).dns_records,
            final(self).editing_record == old(self).editing_record,
    {
        self.begin_zone_call()
    }

    /// Takes in the records, or the failure to list them.
    pub fn dns_records_loaded(&mut self, result: Result<Vec<DnsRecord>, ClientError>)
        ensures
            !final(self).loading,
            final(self).page == old(self).page,
            final(self).client == old(self).client,
            final(self).zones == old(self).zones,
            final(self).selected_zone_index == old(self).selected_zone_index,
            result matches Ok(v) ==> {
                &&& final(self).dns_records == v
                &&& final(self).error == old(self).error
            },
            result matches Err(e) ==> {
                &&& final(self).dns_records == old(self).dns_records
                &&& final(self).error matches Some(m) && m@ == failure_note(
                    "Failed to load DNS records: "@,
                    e,
                )
            },
    {
        self.loading = false;
        match result {
            Ok(records) => {
                self.dns_records = records;
            },
            Err(e) => {
                self.error = note("Failed to load DNS records: ", e.message().as_str());
            },
        }
    }

    /// Starts checking a token that the user entered; an empty one is refused.
    pub fn begin_token_check(&mut self, token: &str) -> (r: bool)
        ensures
            r == (token@.len() > 0),
            r ==> final(self).loading && final(self).error is None,
            !r ==> (final(self).error matches Some(m) && m@ == "Please enter an API token"@),
            !r ==> final(self).loading == old(self).loading,
            final(self).page == old(self).page,
            final(self).client == old(self).client,
            final(self).zones == old(self).zones,
            final(self).dns_records == old(self).dns_records,
    {
        if token.is_empty() {
            self.error = Some(String::from_str("Please enter an API token"));
            return false;
        }
        self.begin();
        true
    }

    /// Takes in the outcome of checking the token. Returns whether the token
    /// is to be stored: only an active one is.
    pub fn token_checked(&mut self, verified: Result<bool, ClientError>) -> (r: bool)
        ensures
            r == (verified matches Ok(true)),
            !final(self).loading,
            verified matches Ok(false) ==> (final(self).error matches Some(m) && m@
                == "Token is not active"@),
            verified matches Err(e) ==> (final(self).error matches Some(m) && m@ == failure_note(
                "Failed to verify token: "@,
                e,
            )),
            r ==> final(self).error == old(self).error,
            final(self).page == old(self).page,
            final(self).client == old(self).client,
            final(self).zones == old(self).zones,
            final(self).selected_zone_index == old(self).selected_zone_index,
            final(self).dns_records == old(self).dns_records,
    {
        self.loading = false;
        match verified {
            Ok(true) => true,
            Ok(false) => {
                self.error = Some(String::from_str("Token is not active"));
                false
            },
            Err(e) => {
                self.error = note("Failed to verify token: ", e.message().as_str());
                false
            },
        }
    }

    /// Takes in the outcome of storing a checked token. When it was stored,
    /// the session uses it and shows the dashboard, and the caller loads the
    /// zones; a token replaced from the settings also drops what the old one
    /// had loaded. Returns whether the zones are to be loaded.
    pub fn token_stored(
        &mut self,
        token: String,
        stored: Result<(), String>,
        replacing: bool,
    ) -> (r: bool)
        ensures
            r == stored is Ok,
            stored matches Err(m) ==> {
                &&& final(self).error matches Some(n) && n@ == "Failed to store token: "@ + m@
                &&& final(self).page == old(self).page
                &&& final(self).client == old(self).client
                &&& final(self).zones == old(self).zones
                &&& final(self).selected_zone_index == old(self).selected_zone_index
                &&& final(self).dns_records == old(self).dns_records
            },
            stored is Ok ==> {
                &&& final(self).client matches Some(c) && c.token_view() == token@
                &&& final(self).page == Page::Dashboard
                &&& final(self).error == old(self).error
                &&& replacing ==> final(self).zones@.len() == 0
                    && final(self).dns_records@.len() == 0
                    && final(self).selected_zone_index is None
                &&& !replacing ==> final(self).zones == old(self).zones
                    && final(self).dns_records == old(self).dns_records
                    && final(self).selected_zone_index == old(self).selected_zone_index
            },
    {
        match stored {
            Err(m) => {
                self.error = note("Failed to store token: ", m.as_str());
                false
            },
            Ok(()) => {
                self.client = Some(CloudflareClient::new(token));
                if replacing {
                    self.zones = Vec::new();
                    self.dns_records = Vec::new();
                    self.selected_zone_index = None;
                }
                self.page = Page::Dashboard;
                true
            },
        }
    }

    /// Takes in the outcome of deleting the stored token: on success the
    /// session forgets the client and what it had loaded.
    pub fn token_cleared(&mut self, deleted: Result<(), String>)
        ensures
            deleted matches Err(m) ==> {
                &&& final(self).error matches Some(n) && n@ == "Failed to delete token: "@ + m@
                &&& final(self).page == old(self).page
                &&& final(self).client == old(self).client
                &&& final(self).zones == old(self).zones
                &&& final(self).dns_records == old(self).dns_records
            },
            deleted is Ok ==> {
                &&& final(self).client is None
                &&& final(self).zones@.len() == 0
                &&& final(self).dns_records@.len() == 0
                &&& final(self).selected_zone_index is None
                &&& final(self).page == Page::TokenSetup
            },
    {
        match deleted {
            Err(m) => {
                self.error = note("Failed to delete token: ", m.as_str());
            },
            Ok(()) => {
                self.client = None;
                self.zones = Vec::new();
                self.dns_records = Vec::new();
                self.selected_zone_index = None;
                self.page = Page::TokenSetup;
            },
        }
    }

    /// Selects the zone with the given id. Returns whether the selection
    /// changed, in which case editing stops and the caller loads its records.
    pub fn select_zone(&mut self, zone_id: &str) -> (r: bool)
        ensures
            r ==> exists|i: int|
                first_with_id(old(self).zones@, zone_id@, i) && old(self).selected_zone_index
                    != Some(i as usize) && final(self).selected_zone_index == Some(i as usize),
            r ==> final(self).editing_record is None,
            !r ==> *final(self) == *old(self),
            !r ==> forall|i: int|
                first_with_id(old(self).zones@, zone_id@, i) ==> old(self).selected_zone_index
                    == Some(i as usize),
            final(self).zones == old(self).zones,
            final(self).dns_records == old(self).dns_records,
    {
        let mut i: usize = 0;
        while i < self.zones.len()
            invariant
                *self == *old(self),
                i <= self.zones@.len(),
                forall|j: int| 0 <= j < i ==> self.zones@[j].id@ != zone_id@,
            decreases self.zones@.len() - i,
        {
            if same_text(self.zones[i].id.as_str(), zone_id) {
                if self.selected_zone_index == Some(i) {
                    return false;
                }
                assert(first_with_id(old(self).zones@, zone_id@, i as int));
                self.selected_zone_index = Some(i);
                self.editing_record = None;
                return true;
            }
            i = i + 1;
        }
        false
    }

    /// Takes in the outcome of a create, update or delete. On success editing
    /// stops (after a create or update) and the caller reloads the records;
    /// on failure the records stay as they were.
    pub fn record_written(
        &mut self,
        write: RecordWrite,
        result: Result<(), ClientError>,
    ) -> (r: bool)
        ensures
            r == result is Ok,
            !final(self).loading,
            final(self).page == old(self).page,
            final(self).client == old(self).client,
            final(self).zones == old(self).zones,
            final(self).selected_zone_index == old(self).selected_zone_index,
            final(self).dns_records == old(self).dns_records,
            result is Ok && write != RecordWrite::Delete ==> final(self).editing_record is None,
            result is Ok ==> final(self).error == old(self).error,
            result matches Err(e) ==> {
                &&& final(self).editing_record == old(self).editing_record
                &&& final(self).error matches Some(m) && m@ == failure_note(write_prefix(write), e)
            },
    {
        self.loading = false;
        match result {
            Ok(()) => {
                match write {
                    RecordWrite::Delete => {},
                    _ => {
                        self.editing_record = None;
                    },
                }
                true
            },
            Err(e) => {
                self.error = note(write_prefix_str(write), e.message().as_str());
                false
            },
        }
    }
}

} // verus!
