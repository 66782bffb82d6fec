//! Assets and their activity logs: row types and existence checks.

use vstd::prelude::*;

use crate::model::RepositoryError;
use crate::model::clone_opt_string;
use crate::store::Store;

verus! {

/// A physical asset held by a facility.
#[derive(Clone, Debug, PartialEq)]
pub struct AssetRow {
    pub id: String,
    pub serial_number: Option<String>,
    /// The catalogue entry this asset was created from, if any.
    pub catalogue_item_id: Option<String>,
}

/// A log entry recorded against an asset.
#[derive(Clone, Debug, PartialEq)]
pub struct AssetLogRow {
    pub id: String,
    pub asset_id: String,
}

/// First asset with this id, if any.
pub open spec fn find_asset(s: Seq<AssetRow>, id: Seq<char>) -> Option<AssetRow> {
    if exists|i: int| 0 <= i < s.len() && s[i].id@ == id {
        Some(s[choose|i: int| 0 <= i < s.len() && s[i].id@ == id])
    } else {
        None
    }
}

/// First asset log with this id, if any.
pub open spec fn find_asset_log(s: Seq<AssetLogRow>, id: Seq<char>) -> Option<AssetLogRow> {
    if exists|i: int| 0 <= i < s.len() && s[i].id@ == id {
        Some(s[choose|i: int| 0 <= i < s.len() && s[i].id@ == id])
    } else {
        None
    }
}

/// No two assets share an id.
pub open spec fn asset_ids_distinct(s: Seq<AssetRow>) -> bool {
    forall|i: int, j: int| 0 <= i < j < s.len() ==> s[i].id@ != s[j].id@
}

/// No two asset logs share an id.
pub open spec fn asset_log_ids_distinct(s: Seq<AssetLogRow>) -> bool {
    forall|i: int, j: int| 0 <= i < j < s.len() ==> s[i].id@ != s[j].id@
}

/// Looks an asset up by id. Never fails: the error slot exists only so the
/// signature matches the storage-backed form.
pub fn check_asset_exists(id: &String, store: &Store) -> (r: Result<
    Option<AssetRow>,
    RepositoryError,
>)
    requires
        asset_ids_distinct(store.assets@),
    ensures
        r == Ok::<Option<AssetRow>, RepositoryError>(find_asset(store.assets@, id@)),
{
    let n: usize = store.assets.len();
    let mut k: usize = 0;
    while k < n
        invariant
            n == store.assets@.len(),
            k <= n,
            asset_ids_distinct(store.assets@),
            forall|j: int| 0 <= j < k ==> store.assets@[j].id@ != id@,
        decreases n - k,
    {
        if store.assets[k].id == *id {
            return Ok(Some(AssetRow {
                id: store.assets[k].id.clone(),
                serial_number: clone_opt_string(&store.assets[k].serial_number),
                catalogue_item_id: clone_opt_string(&store.assets[k].catalogue_item_id),
            }));
        }
        k = k + 1;
    }
    Ok(None)
}

/// Looks an asset log up by id. Never fails; see [`check_asset_exists`].
pub fn check_asset_log_exists(id: &String, store: &Store) -> (r: Result<
    Option<AssetLogRow>,
    RepositoryError,
>)
    requires
        asset_log_ids_distinct(store.asset_logs@),
    ensures
        r == Ok::<Option<AssetLogRow>, RepositoryError>(find_asset_log(store.asset_logs@, id@)),
{
    let n: usize = store.asset_logs.len();
    let mut k: usize = 0;
    while k < n
        invariant
            n == store.asset_logs@.len(),
            k <= n,
            asset_log_ids_distinct(store.asset_logs@),
            forall|j: int| 0 <= j < k ==> store.asset_logs@[j].id@ != id@,
        decreases n - k,
    {
        if store.asset_logs[k].id == *id {
            return Ok(Some(AssetLogRow {
                id: store.asset_logs[k].id.clone(),
                asset_id: store.asset_logs[k].asset_id.clone(),
            }));
        }
        k = k + 1;
    }
    Ok(None)
}

} // verus!
