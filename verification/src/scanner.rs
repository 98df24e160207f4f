//! Tier directory scanner: selects, per tier, the most recently modified
//! file among those whose name carries the tier's prefix.
//!
//! Directory enumeration and metadata lookup happen outside the library;
//! the scanner receives the entries as plain (name, modification time)
//! pairs, in directory iteration order, and is verified to pick the
//! latest candidate per tier, ties keeping the first-seen entry.

use vstd::prelude::*;

use crate::config::Tiers;
use crate::text::{has_prefix, str_has_prefix};
use crate::types::Tier;

verus! {

/// One directory entry as the scanner sees it: the file name and its
/// modification time in nanoseconds since the epoch.
pub struct TierEntry {
    pub name: String,
    pub modified: u64,
}

impl Clone for TierEntry {
    fn clone(&self) -> (r: Self)
        ensures
            r == *self,
    {
        TierEntry { name: self.name.clone(), modified: self.modified }
    }
}

/// Why a directory scan failed.
#[derive(Debug)]
pub enum ScanError {
    /// No file with the tier's prefix was found after a full scan.
    MissingTier(Tier),
    /// A filesystem read failed while enumerating the directory or
    /// fetching metadata. Produced by the I/O layer outside this
    /// library; the scan is aborted rather than skipping the entry.
    Io,
}

impl ScanError {
    /// The operator-facing description of the failure.
    pub fn message(&self) -> (r: String)
        ensures
            match *self {
                ScanError::MissingTier(Tier::Bronze) => r@ == "Could not find bronze tier"@,
                ScanError::MissingTier(Tier::Silver) => r@ == "Could not find silver tier"@,
                ScanError::MissingTier(Tier::Gold) => r@ == "Could not find gold tier"@,
                ScanError::Io => r@ == "Failed to read media directory"@,
            },
    {
        match self {
            ScanError::MissingTier(Tier::Bronze) => "Could not find bronze tier".to_owned(),
            ScanError::MissingTier(Tier::Silver) => "Could not find silver tier".to_owned(),
            ScanError::MissingTier(Tier::Gold) => "Could not find gold tier".to_owned(),
            ScanError::Io => "Failed to read media directory".to_owned(),
        }
    }
}

/// Whether a file name carries any tier prefix: only such files take
/// part in the scan (and only their metadata need be fetched).
pub fn is_tier_candidate(name: &str) -> (r: bool)
    ensures
        r == (has_prefix(name@, "bronze-"@) || has_prefix(name@, "silver-"@) || has_prefix(
            name@,
            "gold-"@,
        )),
{
    str_has_prefix(name, "bronze-") || str_has_prefix(name, "silver-") || str_has_prefix(
        name,
        "gold-",
    )
}

/// The winning candidate among the entries carrying `prefix`: the entry
/// with the latest modification time, ties keeping the first-seen one.
pub open spec fn spec_candidate(entries: Seq<TierEntry>, prefix: Seq<char>) -> Option<TierEntry>
    decreases entries.len(),
{
    if entries.len() == 0 {
        None
    } else {
        let rest = spec_candidate(entries.drop_last(), prefix);
        let e = entries.last();
        if !has_prefix(e.name@, prefix) {
            rest
        } else {
            match rest {
                None => Some(e),
                Some(c) => if e.modified > c.modified {
                    Some(e)
                } else {
                    rest
                },
            }
        }
    }
}

/// The scan's result on a full entry list: the three winners, or the
/// first tier (in the order bronze, silver, gold) with no matching file.
pub open spec fn spec_load_tiers(entries: Seq<TierEntry>) -> Result<Tiers, ScanError> {
    match spec_candidate(entries, "bronze-"@) {
        None => Err(ScanError::MissingTier(Tier::Bronze)),
        Some(b) => match spec_candidate(entries, "silver-"@) {
            None => Err(ScanError::MissingTier(Tier::Silver)),
            Some(s) => match spec_candidate(entries, "gold-"@) {
                None => Err(ScanError::MissingTier(Tier::Gold)),
                Some(g) => Ok(
                    Tiers { bronze_tier: b.name, silver_tier: s.name, gold_tier: g.name },
                ),
            },
        },
    }
}

/// Keeps the later of the current candidate and a new matching entry,
/// ties keeping the current one.
fn maybe_update(candidate: &mut Option<TierEntry>, entry: &TierEntry)
    ensures
        *final(candidate) == (match *old(candidate) {
            None => Some(*entry),
            Some(c) => if entry.modified > c.modified {
                Some(*entry)
            } else {
                Some(c)
            },
        }),
{
    match candidate {
        None => {
            *candidate = Some(entry.clone());
        },
        Some(c) => {
            if entry.modified > c.modified {
                *candidate = Some(entry.clone());
            }
        },
    }
}

/// Scans the entry list and selects each tier's served artifact: the most
/// recently modified file with the tier's prefix, ties keeping the
/// first-seen file. Fails with the first tier that has no matching file.
pub fn load_tiers(entries: &Vec<TierEntry>) -> (r: Result<Tiers, ScanError>)
    ensures
        r == spec_load_tiers(entries@),
{
    let n = entries.len();
    let mut bronze_candidate: Option<TierEntry> = None;
    let mut silver_candidate: Option<TierEntry> = None;
    let mut gold_candidate: Option<TierEntry> = None;
    let mut i: usize = 0;
    proof {
        assert(entries@.subrange(0, 0) =~= Seq::<TierEntry>::empty());
    }
    while i < n
        invariant
            0 <= i <= n,
            n == entries@.len(),
            bronze_candidate == spec_candidate(entries@.subrange(0, i as int), "bronze-"@),
            silver_candidate == spec_candidate(entries@.subrange(0, i as int), "silver-"@),
            gold_candidate == spec_candidate(entries@.subrange(0, i as int), "gold-"@),
        decreases n - i,
    {
        let entry = &entries[i];
        proof {
            let next = entries@.subrange(0, i as int + 1);
            assert(next.drop_last() =~= entries@.subrange(0, i as int));
            assert(next.last() == entries@[i as int]);
        }
        if str_has_prefix(entry.name.as_str(), "bronze-") {
            maybe_update(&mut bronze_candidate, entry);
        }
        if str_has_prefix(entry.name.as_str(), "silver-") {
            maybe_update(&mut silver_candidate, entry);
        }
        if str_has_prefix(entry.name.as_str(), "gold-") {
            maybe_update(&mut gold_candidate, entry);
        }
        i = i + 1;
    }
    proof {
        assert(entries@.subrange(0, n as int) =~= entries@);
    }
    match (bronze_candidate, silver_candidate, gold_candidate) {
        (None, _, _) => Err(ScanError::MissingTier(Tier::Bronze)),
        (_, None, _) => Err(ScanError::MissingTier(Tier::Silver)),
        (_, _, None) => Err(ScanError::MissingTier(Tier::Gold)),
        (Some(b), Some(s), Some(g)) => Ok(
            Tiers { bronze_tier: b.name, silver_tier: s.name, gold_tier: g.name },
        ),
    }
}

} // verus!
