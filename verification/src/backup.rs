//! The backup record and its age logic, and the pure selection of the
//! freshest manual backup out of a listing.

use vstd::prelude::*;
use vstd::string::StringExecFns;

use crate::errors::ApiError;

verus! {

/// How a backup came to exist on the server. Only manual backups are
/// candidates for reuse, since the orchestrator itself requests manual ones.
#[derive(Clone, Copy, Debug, PartialEq, Eq, Structural)]
pub enum BackupType {
    Manual,
    Scheduled,
}

/// One remote backup artifact: an immutable snapshot fetched on each API
/// call. `created_at` is the creation time as whole seconds of UTC unix time.
#[derive(Debug, PartialEq, Eq)]
pub struct Backup {
    /// Opaque numeric identifier, unique per server; used for deletion.
    pub id: u64,
    /// Filename of the archive as stored by the server.
    pub name: String,
    /// Creation time, seconds of UTC unix time.
    pub created_at: i64,
    /// Manual or scheduled.
    pub kind: BackupType,
}

impl Clone for Backup {
    fn clone(&self) -> (r: Self)
        ensures
            r == *self,
    {
        Backup {
            id: self.id,
            name: self.name.clone(),
            created_at: self.created_at,
            kind: self.kind,
        }
    }
}

/// A backup is recent when its age `now - created_at` is non-negative and
/// strictly below the freshness threshold. A negative age (a creation time in
/// the future, under a skewed clock) counts defensively as not recent.
pub open spec fn is_recent_spec(created_at: int, now: int, max_age_secs: int) -> bool {
    created_at <= now && now - created_at < max_age_secs
}

impl Backup {
    /// Age of the backup at time `now`, in seconds. May be negative under a
    /// skewed clock.
    pub fn age(&self, now: i64) -> (r: i64)
        requires
            i64::MIN <= now - self.created_at <= i64::MAX,
        ensures
            r == now - self.created_at,
    {
        now - self.created_at
    }

    /// Whether the backup's age at time `now` is non-negative and strictly
    /// below `max_age_secs`.
    pub fn is_recent(&self, now: i64, max_age_secs: u64) -> (r: bool)
        ensures
            r == is_recent_spec(self.created_at as int, now as int, max_age_secs as int),
    {
        if self.created_at > now {
            false
        } else {
            let diff: u128 = (now as i128 - self.created_at as i128) as u128;
            diff < max_age_secs as u128
        }
    }
}

/// The backup record that a listing response's plain values stand for: the
/// kind string must be exactly `manual` or `scheduled`, anything else fails
/// to decode.
pub open spec fn backup_from_record_spec(
    id: u64,
    name: String,
    created_at: i64,
    kind: Seq<char>,
) -> Result<Backup, ApiError> {
    if kind == "manual"@ {
        Ok(Backup { id, name, created_at, kind: BackupType::Manual })
    } else if kind == "scheduled"@ {
        Ok(Backup { id, name, created_at, kind: BackupType::Scheduled })
    } else {
        Err(ApiError::Decode)
    }
}

/// Builds a backup record out of the plain values of one listing-response
/// record: its id, its archive name, its creation time as seconds of UTC
/// unix time, and its kind string, which must be exactly `manual` or
/// `scheduled` — anything else is a decode failure.
pub fn backup_from_record(id: u64, name: String, created_at: i64, kind: &String) -> (r: Result<
    Backup,
    ApiError,
>)
    ensures
        r == backup_from_record_spec(id, name, created_at, kind@),
{
    let manual = String::from_str("manual");
    let scheduled = String::from_str("scheduled");
    if *kind == manual {
        Ok(Backup { id, name, created_at, kind: BackupType::Manual })
    } else if *kind == scheduled {
        Ok(Backup { id, name, created_at, kind: BackupType::Scheduled })
    } else {
        Err(ApiError::Decode)
    }
}

/// The index of the freshest manual backup in `s`, if any manual backup is
/// there: the entry of kind `Manual` with the maximum `created_at`, ties
/// broken towards the last such entry observed.
pub open spec fn latest_manual_idx(s: Seq<Backup>) -> Option<int>
    decreases s.len(),
{
    if s.len() == 0 {
        None
    } else {
        let rest = latest_manual_idx(s.drop_last());
        let last = s[s.len() - 1];
        if last.kind == BackupType::Manual && (rest is None || last.created_at
            >= s[rest->Some_0].created_at) {
            Some(s.len() - 1)
        } else {
            rest
        }
    }
}

/// The freshest manual backup in `s`, if any manual backup is there.
pub open spec fn latest_manual_spec(s: Seq<Backup>) -> Option<Backup> {
    match latest_manual_idx(s) {
        None => None,
        Some(i) => Some(s[i]),
    }
}

/// The index returned by `latest_manual_idx` is in range and never points at
/// a scheduled backup.
pub proof fn lemma_latest_manual_idx_in_range(s: Seq<Backup>)
    ensures
        latest_manual_idx(s) matches Some(i) ==> 0 <= i < s.len() && s[i].kind
            == BackupType::Manual,
    decreases s.len(),
{
    if s.len() > 0 {
        lemma_latest_manual_idx_in_range(s.drop_last());
    }
}

/// The selection picks the freshest manual backup and ignores scheduled ones
/// entirely: it returns nothing exactly when no manual backup is in the
/// listing, and otherwise a manual entry of the listing whose creation time
/// is at least that of every manual entry.
pub proof fn lemma_latest_manual_is_freshest(s: Seq<Backup>)
    ensures
        latest_manual_spec(s) is None <==> (forall|j: int|
            0 <= j < s.len() ==> (#[trigger] s[j].kind) != BackupType::Manual),
        latest_manual_spec(s) matches Some(b) ==> b.kind == BackupType::Manual && (exists|j: int|
            0 <= j < s.len() && s[j] == b) && (forall|j: int|
            0 <= j < s.len() && (#[trigger] s[j].kind) == BackupType::Manual ==> s[j].created_at
                <= b.created_at),
    decreases s.len(),
{
    lemma_latest_manual_idx_in_range(s);
    if s.len() > 0 {
        lemma_latest_manual_is_freshest(s.drop_last());
        lemma_latest_manual_idx_in_range(s.drop_last());
        let pre = s.drop_last();
        assert(forall|j: int| 0 <= j < pre.len() ==> pre[j] == s[j]);
        if latest_manual_spec(s) is Some {
            let i = latest_manual_idx(s)->Some_0;
            assert(s[i] == latest_manual_spec(s)->Some_0);
        }
    }
}

/// Picks the freshest manual backup out of `backups`: the `Manual` entry with
/// the maximum `created_at`, ties broken towards the last one observed.
/// Scheduled entries are ignored entirely. Returns nothing when no manual
/// backup is in the listing.
pub fn latest_manual(backups: &Vec<Backup>) -> (r: Option<Backup>)
    ensures
        r == latest_manual_spec(backups@),
{
    let ghost s = backups@;
    let mut best: Option<usize> = None;
    let mut i: usize = 0;
    while i < backups.len()
        invariant
            i <= backups.len(),
            s == backups@,
            match best {
                None => latest_manual_idx(s.take(i as int)) is None,
                Some(b) => b < i && latest_manual_idx(s.take(i as int)) == Some(b as int),
            },
        decreases backups.len() - i,
    {
        proof {
            assert(s.take(i + 1).drop_last() =~= s.take(i as int));
            assert(s.take(i + 1)[i as int] == s[i as int]);
            lemma_latest_manual_idx_in_range(s.take(i as int));
        }
        let take_it = if backups[i].kind == BackupType::Manual {
            match best {
                None => true,
                Some(b) => backups[i].created_at >= backups[b].created_at,
            }
        } else {
            false
        };
        if take_it {
            best = Some(i);
        }
        i += 1;
    }
    proof {
        assert(s.take(backups@.len() as int) =~= s);
    }
    match best {
        None => None,
        Some(b) => Some(backups[b].clone()),
    }
}

} // verus!
