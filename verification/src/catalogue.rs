//! The asset catalogue: deleting a catalogue entry together with its
//! properties, refused while any asset still uses the entry.

use vstd::prelude::*;

use crate::asset::AssetRow;
use crate::store::Store;

verus! {

/// A catalogue entry assets can be created from.
#[derive(Clone, Debug, PartialEq)]
pub struct AssetCatalogueItemRow {
    pub id: String,
    pub code: String,
}

/// A property attached to one catalogue entry.
#[derive(Clone, Debug, PartialEq)]
pub struct AssetCatalogueItemPropertyRow {
    pub id: String,
    pub catalogue_item_id: String,
    pub value: String,
}

/// Why deleting a catalogue entry was refused.
#[derive(Clone, Copy, Debug, PartialEq, Eq, Structural)]
pub enum DeleteAssetCatalogueItemError {
    AssetCatalogueItemDoesNotExist,
    AssetCatalogueItemInUse,
    DatabaseError(crate::model::RepositoryError),
}

/// A catalogue entry with this id exists.
pub open spec fn catalogue_item_exists(s: Seq<AssetCatalogueItemRow>, id: Seq<char>) -> bool {
    exists|i: int| 0 <= i < s.len() && s[i].id@ == id
}

/// The asset was created from this catalogue entry.
pub open spec fn asset_uses_item(a: AssetRow, id: Seq<char>) -> bool {
    a.catalogue_item_id matches Some(c) && c@ == id
}

/// Some asset was created from this catalogue entry.
pub open spec fn catalogue_item_in_use(s: Seq<AssetRow>, id: Seq<char>) -> bool {
    exists|i: int| 0 <= i < s.len() && asset_uses_item(s[i], id)
}

/// The first precondition the delete request violates, checked in order:
/// the entry must exist, and no asset may use it.
pub open spec fn delete_catalogue_item_error(store: Store, id: Seq<char>) -> Option<
    DeleteAssetCatalogueItemError,
> {
    if !catalogue_item_exists(store.asset_catalogue_items@, id) {
        Some(DeleteAssetCatalogueItemError::AssetCatalogueItemDoesNotExist)
    } else if catalogue_item_in_use(store.assets@, id) {
        Some(DeleteAssetCatalogueItemError::AssetCatalogueItemInUse)
    } else {
        None
    }
}

/// The catalogue entries that survive deleting entry `id`.
pub open spec fn catalogue_items_without(
    s: Seq<AssetCatalogueItemRow>,
    id: Seq<char>,
) -> Seq<AssetCatalogueItemRow> {
    s.filter(|r: AssetCatalogueItemRow| r.id@ != id)
}

/// The catalogue properties that survive deleting entry `id`.
pub open spec fn properties_without(
    s: Seq<AssetCatalogueItemPropertyRow>,
    id: Seq<char>,
) -> Seq<AssetCatalogueItemPropertyRow> {
    s.filter(|r: AssetCatalogueItemPropertyRow| r.catalogue_item_id@ != id)
}

/// Every table a catalogue delete does not touch is the same in `b` as in `a`.
pub open spec fn unchanged_but_catalogue(a: Store, b: Store) -> bool {
    &&& b.invoices == a.invoices
    &&& b.invoice_lines == a.invoice_lines
    &&& b.stock_lines == a.stock_lines
    &&& b.activity_log == a.activity_log
    &&& b.names == a.names
    &&& b.name_store_joins == a.name_store_joins
    &&& b.return_reasons == a.return_reasons
    &&& b.assets == a.assets
    &&& b.asset_logs == a.asset_logs
    &&& b.vaccine_courses == a.vaccine_courses
    &&& b.programs == a.programs
    &&& b.periods == a.periods
    &&& b.program_requisition_settings == a.program_requisition_settings
    &&& b.master_list_joins == a.master_list_joins
    &&& b.rnr_forms == a.rnr_forms
    &&& b.rnr_form_lines == a.rnr_form_lines
    &&& b.requisitions == a.requisitions
    &&& b.requisition_lines == a.requisition_lines
}

/// Checks the delete preconditions and reports the first violated one.
pub fn validate(store: &Store, id: &String) -> (r: Result<(), DeleteAssetCatalogueItemError>)
    ensures
        r == match delete_catalogue_item_error(*store, id@) {
            Some(e) => Err::<(), DeleteAssetCatalogueItemError>(e),
            None => Ok::<(), DeleteAssetCatalogueItemError>(()),
        },
{
    let mut found: bool = false;
    let n: usize = store.asset_catalogue_items.len();
    let mut k: usize = 0;
    while k < n
        invariant
            n == store.asset_catalogue_items@.len(),
            k <= n,
            found == exists|j: int|
                0 <= j < k && store.asset_catalogue_items@[j].id@ == id@,
        decreases n - k,
    {
        if store.asset_catalogue_items[k].id == *id {
            found = true;
        }
        k = k + 1;
    }
    if !found {
        return Err(DeleteAssetCatalogueItemError::AssetCatalogueItemDoesNotExist);
    }
    proof {
        assert(catalogue_item_exists(store.asset_catalogue_items@, id@));
    }

    let m: usize = store.assets.len();
    let mut t: usize = 0;
    while t < m
        invariant
            m == store.assets@.len(),
            t <= m,
            catalogue_item_exists(store.asset_catalogue_items@, id@),
            forall|j: int| 0 <= j < t ==> !asset_uses_item(store.assets@[j], id@),
        decreases m - t,
    {
        match &store.assets[t].catalogue_item_id {
            Some(c) => {
                if *c == *id {
                    proof {
                        assert(asset_uses_item(store.assets@[t as int], id@));
                    }
                    return Err(DeleteAssetCatalogueItemError::AssetCatalogueItemInUse);
                }
            },
            None => {},
        }
        t = t + 1;
    }
    Ok(())
}

/// Deletes a catalogue entry and all its properties in one atomic unit.
///
/// On any error the store is left exactly as it was; on success exactly the
/// entry and its properties are gone and every other table is untouched.
pub fn delete_asset_catalogue_item(store: &mut Store, id: String) -> (r: Result<
    String,
    DeleteAssetCatalogueItemError,
>)
    ensures
        match delete_catalogue_item_error(*old(store), id@) {
            Some(e) => r == Err::<String, DeleteAssetCatalogueItemError>(e) && *final (store)
                == *old(store),
            None => {
                &&& r == Ok::<String, DeleteAssetCatalogueItemError>(id)
                &&& final (store).asset_catalogue_items@ == catalogue_items_without(
                    old(store).asset_catalogue_items@,
                    id@,
                )
                &&& final (store).asset_catalogue_item_properties@ == properties_without(
                    old(store).asset_catalogue_item_properties@,
                    id@,
                )
                &&& unchanged_but_catalogue(*old(store), *final (store))
            },
        },
{
    match validate(store, &id) {
        Ok(_) => {},
        Err(e) => {
            return Err(e);
        },
    }

    let n: usize = store.asset_catalogue_item_properties.len();
    let mut kept_props: Vec<AssetCatalogueItemPropertyRow> = Vec::new();
    let mut k: usize = 0;
    while k < n
        invariant
            n == store.asset_catalogue_item_properties@.len(),
            k <= n,
            kept_props@ == properties_without(
                store.asset_catalogue_item_properties@.subrange(0, k as int),
                id@,
            ),
        decreases n - k,
    {
        let row = &store.asset_catalogue_item_properties[k];
        proof {
            broadcast use Seq::lemma_filter_push;

            assert(store.asset_catalogue_item_properties@.subrange(0, k as int + 1)
                =~= store.asset_catalogue_item_properties@.subrange(0, k as int).push(
                store.asset_catalogue_item_properties@[k as int],
            ));
        }
        if !(row.catalogue_item_id == id) {
            kept_props.push(
                AssetCatalogueItemPropertyRow {
                    id: row.id.clone(),
                    catalogue_item_id: row.catalogue_item_id.clone(),
                    value: row.value.clone(),
                },
            );
        }
        k = k + 1;
    }
    proof {
        assert(store.asset_catalogue_item_properties@.subrange(
            0,
            store.asset_catalogue_item_properties@.len() as int,
        ) =~= store.asset_catalogue_item_properties@);
    }
    store.asset_catalogue_item_properties = kept_props;

    let m: usize = store.asset_catalogue_items.len();
    let mut kept_items: Vec<AssetCatalogueItemRow> = Vec::new();
    let mut t: usize = 0;
    while t < m
        invariant
            m == store.asset_catalogue_items@.len(),
            t <= m,
            kept_items@ == catalogue_items_without(
                store.asset_catalogue_items@.subrange(0, t as int),
                id@,
            ),
        decreases m - t,
    {
        let row = &store.asset_catalogue_items[t];
        proof {
            broadcast use Seq::lemma_filter_push;

            assert(store.asset_catalogue_items@.subrange(0, t as int + 1)
                =~= store.asset_catalogue_items@.subrange(0, t as int).push(
                store.asset_catalogue_items@[t as int],
            ));
        }
        if !(row.id == id) {
            kept_items.push(AssetCatalogueItemRow { id: row.id.clone(), code: row.code.clone() });
        }
        t = t + 1;
    }
    proof {
        assert(store.asset_catalogue_items@.subrange(0, store.asset_catalogue_items@.len() as int)
            =~= store.asset_catalogue_items@);
    }
    store.asset_catalogue_items = kept_items;

    Ok(id)
}

} // verus!
