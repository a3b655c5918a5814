//! Connection configuration: a flat record of text fields, loaded once from a
//! named persistent store, with the all-empty record as the default when the
//! store is absent.

use vstd::prelude::*;
use crate::errors::LoadFailure;

verus! {

/// Connection configuration. Every field is plain text; the empty string is
/// the explicit "unset" sentinel. This layer performs no validation of path
/// existence or credential correctness: such failures surface later, during
/// TLS context construction or during connect.
#[derive(Debug, Clone, PartialEq, Eq)]
pub struct DatabaseConfig {
    pub client_cert_path: String,
    pub client_key_path: String,
    pub server_ca_path: String,
    pub host: String,
    pub dbname: String,
    pub user: String,
    pub password: String,
}

/// The mathematical content of a configuration record: each field as its
/// character sequence.
pub struct ConfigView {
    pub client_cert_path: Seq<char>,
    pub client_key_path: Seq<char>,
    pub server_ca_path: Seq<char>,
    pub host: Seq<char>,
    pub dbname: Seq<char>,
    pub user: Seq<char>,
    pub password: Seq<char>,
}

impl ConfigView {
    /// The record in which every field holds the empty "unset" sentinel.
    pub open spec fn unset() -> ConfigView {
        ConfigView {
            client_cert_path: Seq::<char>::empty(),
            client_key_path: Seq::<char>::empty(),
            server_ca_path: Seq::<char>::empty(),
            host: Seq::<char>::empty(),
            dbname: Seq::<char>::empty(),
            user: Seq::<char>::empty(),
            password: Seq::<char>::empty(),
        }
    }
}

impl View for DatabaseConfig {
    type V = ConfigView;

    open spec fn view(&self) -> ConfigView {
        ConfigView {
            client_cert_path: self.client_cert_path@,
            client_key_path: self.client_key_path@,
            server_ca_path: self.server_ca_path@,
            host: self.host@,
            dbname: self.dbname@,
            user: self.user@,
            password: self.password@,
        }
    }
}

impl Default for DatabaseConfig {
    /// The default configuration: every field unset.
    fn default() -> (r: Self)
        ensures
            r@ == ConfigView::unset(),
    {
        let r = DatabaseConfig {
            client_cert_path: String::new(),
            client_key_path: String::new(),
            server_ca_path: String::new(),
            host: String::new(),
            dbname: String::new(),
            user: String::new(),
            password: String::new(),
        };
        proof {
            assert(r@ =~= ConfigView::unset());
        }
        r
    }
}

/// What one read of the named persistent store observed: no store at all, a
/// well-formed configuration record, or a store that exists but cannot be
/// read or decoded.
pub enum StoreContents {
    Absent,
    Present(DatabaseConfig),
    Corrupt,
}

/// The mathematical content of one store observation.
pub enum StoreView {
    Absent,
    Present(ConfigView),
    Corrupt,
}

impl View for StoreContents {
    type V = StoreView;

    open spec fn view(&self) -> StoreView {
        match self {
            StoreContents::Absent => StoreView::Absent,
            StoreContents::Present(c) => StoreView::Present(c@),
            StoreContents::Corrupt => StoreView::Corrupt,
        }
    }
}

/// What the Configuration Loader yields for given store contents: an absent
/// store falls back to the all-unset default, a present record is taken as
/// is, and a corrupt store is a fatal load failure.
pub open spec fn spec_load_config(contents: StoreView) -> Result<ConfigView, LoadFailure> {
    match contents {
        StoreView::Absent => Ok(ConfigView::unset()),
        StoreView::Present(v) => Ok(v),
        StoreView::Corrupt => Err(LoadFailure::StoreUnreadable),
    }
}

/// The content of a loader result: the configuration's view on success.
pub open spec fn load_result_view(r: Result<DatabaseConfig, LoadFailure>) -> Result<
    ConfigView,
    LoadFailure,
> {
    match r {
        Ok(c) => Ok(c@),
        Err(e) => Err(e),
    }
}

/// The Configuration Loader. It is given what a read of the persistent store
/// observed and decides the configuration the process runs with: a missing
/// store yields the all-unset default rather than failing; a corrupt store is
/// a fatal error and the bootstrap cannot proceed without configuration.
pub fn load_config(contents: StoreContents) -> (r: Result<DatabaseConfig, LoadFailure>)
    ensures
        load_result_view(r) == spec_load_config(contents@),
{
    match contents {
        StoreContents::Absent => Ok(DatabaseConfig::default()),
        StoreContents::Present(c) => Ok(c),
        StoreContents::Corrupt => Err(LoadFailure::StoreUnreadable),
    }
}

/// Idempotence of the Configuration Loader: two loads that observe the same
/// store contents — no store mutation between them — yield equal
/// configurations.
pub proof fn lemma_load_idempotent(first: StoreContents, second: StoreContents)
    requires
        first@ == second@,
    ensures
        spec_load_config(first@) == spec_load_config(second@),
{
}

} // verus!
