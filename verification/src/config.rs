//! Application configuration and the concurrent hot-reloadable store.
//!
//! A configuration is an immutable value: OAuth client credentials, the
//! campaign to match, and the tier-output sourcing mode. The store holds
//! one whole snapshot (configuration plus resolved tier outputs) behind a
//! verified reader-writer lock; a reload builds a complete new snapshot
//! and swaps it in wholesale, or, on any failure, leaves the store
//! untouched.

use vstd::prelude::*;
use vstd::rwlock::{RwLock, RwLockPredicate};

use crate::scanner::{load_tiers, spec_load_tiers, TierEntry};

verus! {

/// The three tier-output values: what is served to a caller of each tier.
pub struct Tiers {
    pub bronze_tier: String,
    pub silver_tier: String,
    pub gold_tier: String,
}

impl Clone for Tiers {
    fn clone(&self) -> (r: Self)
        ensures
            r == *self,
    {
        Tiers {
            bronze_tier: self.bronze_tier.clone(),
            silver_tier: self.silver_tier.clone(),
            gold_tier: self.gold_tier.clone(),
        }
    }
}

/// Where the tier outputs come from: three literal strings configured
/// directly, or a media directory whose scan derives them. Exactly one
/// mode is active per deployment.
pub enum TierSource {
    Literal(Tiers),
    MediaDirectory(String),
}

impl Clone for TierSource {
    fn clone(&self) -> (r: Self)
        ensures
            r == *self,
    {
        match self {
            TierSource::Literal(t) => TierSource::Literal(t.clone()),
            TierSource::MediaDirectory(d) => TierSource::MediaDirectory(d.clone()),
        }
    }
}

/// One application configuration, replaced wholesale on reload.
pub struct AppConfig {
    pub client_id: String,
    pub client_secret: String,
    pub redirect_uri: String,
    pub campaign_id: String,
    pub source: TierSource,
}

impl AppConfig {
    /// A well-formed configuration carries non-empty OAuth client
    /// credentials.
    pub open spec fn wf(&self) -> bool {
        &&& self.client_id@.len() > 0
        &&& self.client_secret@.len() > 0
        &&& self.redirect_uri@.len() > 0
    }

    /// Checks well-formedness of a freshly parsed configuration.
    pub fn validate(&self) -> (r: bool)
        ensures
            r == self.wf(),
    {
        !self.client_id.as_str().is_empty() && !self.client_secret.as_str().is_empty()
            && !self.redirect_uri.as_str().is_empty()
    }
}

impl Clone for AppConfig {
    fn clone(&self) -> (r: Self)
        ensures
            r == *self,
    {
        AppConfig {
            client_id: self.client_id.clone(),
            client_secret: self.client_secret.clone(),
            redirect_uri: self.redirect_uri.clone(),
            campaign_id: self.campaign_id.clone(),
            source: self.source.clone(),
        }
    }
}

/// What the store holds: a configuration together with the tier outputs
/// resolved for it. Config and tiers are replaced in lockstep; a reader
/// never sees one without the other.
pub struct Snapshot {
    pub config: AppConfig,
    pub tiers: Tiers,
}

impl Snapshot {
    pub open spec fn wf(&self) -> bool {
        self.config.wf()
    }
}

impl Clone for Snapshot {
    fn clone(&self) -> (r: Self)
        ensures
            r == *self,
    {
        Snapshot { config: self.config.clone(), tiers: self.tiers.clone() }
    }
}

/// The store's lock invariant: every value the lock ever holds is a
/// well-formed snapshot.
pub struct StoreInv {}

impl RwLockPredicate<Snapshot> for StoreInv {
    open spec fn inv(self, s: Snapshot) -> bool {
        s.wf()
    }
}

/// The shared configuration store: many concurrent readers, one writer,
/// swapping one whole snapshot at a time. Built on vstd's verified
/// reader-writer lock, so a reader can never observe a torn value.
pub struct ConfigStore {
    lock: RwLock<Snapshot, StoreInv>,
}

impl ConfigStore {
    /// Creates the store with the snapshot loaded at startup.
    pub fn new(initial: Snapshot) -> Self
        requires
            initial.wf(),
    {
        ConfigStore { lock: RwLock::new(initial, Ghost(StoreInv {})) }
    }

    /// Non-blocking-for-writers snapshot read: clones the one whole
    /// snapshot the lock currently holds.
    pub fn read(&self) -> (r: Snapshot)
        ensures
            r.wf(),
    {
        let handle = self.lock.acquire_read();
        let snapshot = handle.borrow().clone();
        handle.release_read();
        snapshot
    }

    /// Atomically swaps the whole snapshot; returns the one replaced.
    /// Visible to all subsequent reads.
    pub fn replace(&self, new_snapshot: Snapshot) -> (prev: Snapshot)
        requires
            new_snapshot.wf(),
        ensures
            prev.wf(),
    {
        let (prev, handle) = self.lock.acquire_write();
        handle.release_write(new_snapshot);
        prev
    }
}

/// Why a configuration could not be built from the fields its source
/// supplied. Reading or parsing the source file fails before these are
/// reached; any such failure is fatal at startup and a logged no-op at
/// reload.
#[derive(Debug)]
pub enum ConfigError {
    /// A required OAuth credential (client id, client secret or redirect
    /// URI) is empty.
    EmptyCredential,
    /// Both sourcing modes were configured; exactly one of the literal
    /// tier outputs and the media directory may be present.
    ModeConflict,
    /// Neither a media directory nor all three literal tier outputs were
    /// configured.
    MissingTierOutputs,
}

impl ConfigError {
    /// The operator-facing description of the failure.
    pub fn message(&self) -> (r: String)
        ensures
            match *self {
                ConfigError::EmptyCredential => r@ == "Empty OAuth credential"@,
                ConfigError::ModeConflict => r@
                    == "Both literal tier outputs and a media directory are configured"@,
                ConfigError::MissingTierOutputs => r@
                    == "Neither literal tier outputs nor a media directory is configured"@,
            },
    {
        match self {
            ConfigError::EmptyCredential => "Empty OAuth credential".to_owned(),
            ConfigError::ModeConflict =>
                "Both literal tier outputs and a media directory are configured".to_owned(),
            ConfigError::MissingTierOutputs =>
                "Neither literal tier outputs nor a media directory is configured".to_owned(),
        }
    }
}

/// Builds a configuration from the fields a config source supplies. The
/// three OAuth credentials must be non-empty, and exactly one sourcing
/// mode must be present: either a media directory, or all three literal
/// tier outputs.
pub fn build_config(
    client_id: String,
    client_secret: String,
    redirect_uri: String,
    campaign_id: String,
    media_directory: Option<String>,
    bronze_output: Option<String>,
    silver_output: Option<String>,
    gold_output: Option<String>,
) -> (r: Result<AppConfig, ConfigError>)
    ensures
        ({
            let creds_ok = client_id@.len() > 0 && client_secret@.len() > 0 && redirect_uri@.len()
                > 0;
            if !creds_ok {
                r matches Err(ConfigError::EmptyCredential)
            } else {
                match media_directory {
                    Some(dir) => if bronze_output is Some || silver_output is Some || gold_output
                        is Some {
                        r matches Err(ConfigError::ModeConflict)
                    } else {
                        r == Ok::<AppConfig, ConfigError>(
                            AppConfig {
                                client_id,
                                client_secret,
                                redirect_uri,
                                campaign_id,
                                source: TierSource::MediaDirectory(dir),
                            },
                        )
                    },
                    None => match (bronze_output, silver_output, gold_output) {
                        (Some(b), Some(s), Some(g)) => r == Ok::<AppConfig, ConfigError>(
                            AppConfig {
                                client_id,
                                client_secret,
                                redirect_uri,
                                campaign_id,
                                source: TierSource::Literal(
                                    Tiers { bronze_tier: b, silver_tier: s, gold_tier: g },
                                ),
                            },
                        ),
                        _ => r matches Err(ConfigError::MissingTierOutputs),
                    },
                }
            }
        }),
        r matches Ok(cfg) ==> cfg.wf(),
{
    if client_id.as_str().is_empty() || client_secret.as_str().is_empty()
        || redirect_uri.as_str().is_empty() {
        return Err(ConfigError::EmptyCredential);
    }
    match media_directory {
        Some(dir) => {
            if bronze_output.is_some() || silver_output.is_some() || gold_output.is_some() {
                Err(ConfigError::ModeConflict)
            } else {
                Ok(
                    AppConfig {
                        client_id,
                        client_secret,
                        redirect_uri,
                        campaign_id,
                        source: TierSource::MediaDirectory(dir),
                    },
                )
            }
        },
        None => match (bronze_output, silver_output, gold_output) {
            (Some(b), Some(s), Some(g)) => Ok(
                AppConfig {
                    client_id,
                    client_secret,
                    redirect_uri,
                    campaign_id,
                    source: TierSource::Literal(
                        Tiers { bronze_tier: b, silver_tier: s, gold_tier: g },
                    ),
                },
            ),
            _ => Err(ConfigError::MissingTierOutputs),
        },
    }
}

/// What a reload cycle does once the I/O layer has read the config source
/// and, in directory mode, enumerated the media directory: the complete
/// new snapshot to install, or nothing if any step failed.
pub open spec fn spec_reload_step(parsed: Option<AppConfig>, entries: Option<Vec<TierEntry>>) -> Option<
    Snapshot,
> {
    match parsed {
        None => None,
        Some(cfg) => if !cfg.wf() {
            None
        } else {
            match cfg.source {
                TierSource::Literal(t) => Some(Snapshot { config: cfg, tiers: t }),
                TierSource::MediaDirectory(_) => match entries {
                    None => None,
                    Some(es) => match spec_load_tiers(es@) {
                        Ok(t) => Some(Snapshot { config: cfg, tiers: t }),
                        Err(_) => None,
                    },
                },
            }
        },
    }
}

/// Builds the snapshot a reload cycle should install. `parsed` is the
/// configuration the source file yielded, if reading and parsing
/// succeeded; `entries` is the media directory listing, if it was read
/// (only consulted in directory mode). Returns the complete new snapshot,
/// or `None` — meaning the cycle failed and the store must keep its prior
/// value.
pub fn reload_step(parsed: Option<AppConfig>, entries: Option<Vec<TierEntry>>) -> (r: Option<
    Snapshot,
>)
    ensures
        r == spec_reload_step(parsed, entries),
        r matches Some(s) ==> s.wf(),
{
    match parsed {
        None => None,
        Some(cfg) => {
            if !cfg.validate() {
                return None;
            }
            let source = cfg.source.clone();
            match source {
                TierSource::Literal(t) => Some(Snapshot { config: cfg, tiers: t }),
                TierSource::MediaDirectory(_) => match entries {
                    None => None,
                    Some(es) => match load_tiers(&es) {
                        Ok(t) => Some(Snapshot { config: cfg, tiers: t }),
                        Err(_) => None,
                    },
                },
            }
        },
    }
}

/// A failed reload is a no-op: if the source could not be read or parsed,
/// the parsed configuration is not well-formed, or (in directory mode)
/// the directory was unreadable or its scan failed, the reload step
/// yields no snapshot, so the store keeps its prior value and subsequent
/// requests resolve against the previously loaded configuration.
pub proof fn lemma_failed_reload_yields_no_snapshot(
    parsed: Option<AppConfig>,
    entries: Option<Vec<TierEntry>>,
)
    requires
        match parsed {
            None => true,
            Some(cfg) => !cfg.wf() || (cfg.source matches TierSource::MediaDirectory(_) && (
            match entries {
                None => true,
                Some(es) => spec_load_tiers(es@) is Err,
            })),
        },
    ensures
        spec_reload_step(parsed, entries) is None,
{
}

/// A snapshot a reader observes is whole: the store hands out a clone of
/// the single value its lock holds, so a snapshot equal to one of two
/// stored values carries that value's configuration and tier outputs
/// together — never the configuration of one and the tier outputs of the
/// other (unless the two agree).
pub proof fn lemma_snapshot_is_whole(
    observed: Snapshot,
    stored_old: Snapshot,
    stored_new: Snapshot,
)
    requires
        observed == stored_old || observed == stored_new,
    ensures
        (observed.config == stored_old.config && observed.tiers == stored_old.tiers) || (
        observed.config == stored_new.config && observed.tiers == stored_new.tiers),
{
}

} // verus!
