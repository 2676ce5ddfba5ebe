//! A model of the two dictionary tables and of the statements the service
//! runs on them, and the laws those statements keep.
//!
//! Every key of the schema starts with the tenant (`PRIMARY KEY (tenant_id, id)`,
//! `UNIQUE (tenant_id, code)`, `UNIQUE (tenant_id, type_id, value)`, the foreign
//! key `(tenant_id, type_id)` with `ON DELETE CASCADE`, and the partial unique
//! index on `(tenant_id, type_id) WHERE is_default`), and every statement names
//! the tenant of the session. So each tenant's rows form tables of their own,
//! and a statement is modelled as a change of one tenant's tables.
use vstd::prelude::*;
use crate::model::{ItemModel, TypeModel, TypeRowModel};
use crate::service::{assembled_type, items_for, ItemWrite};

verus! {

/// The rows of one tenant.
pub struct TenantTables {
    pub types: Seq<TypeRowModel>,
    pub items: Seq<ItemModel>,
}

/// The rows of every tenant.
pub type Tables = Map<Seq<char>, TenantTables>;

/// Tables with no rows.
pub open spec fn no_rows() -> TenantTables {
    TenantTables { types: Seq::empty(), items: Seq::empty() }
}

/// The rows of `tenant`.
pub open spec fn tables_of(db: Tables, tenant: Seq<char>) -> TenantTables {
    if db.contains_key(tenant) {
        db[tenant]
    } else {
        no_rows()
    }
}

/// `db` after a statement of `tenant` left that tenant with the rows `rows`.
pub open spec fn after_statement(db: Tables, tenant: Seq<char>, rows: TenantTables) -> Tables {
    db.insert(tenant, rows)
}

/// A type with this id exists.
pub open spec fn has_type(t: TenantTables, id: Seq<char>) -> bool {
    exists|i: int| 0 <= i < t.types.len() && #[trigger] t.types[i].id == id
}

/// An item with this id exists.
pub open spec fn has_item(t: TenantTables, id: Seq<char>) -> bool {
    exists|j: int| 0 <= j < t.items.len() && #[trigger] t.items[j].id == id
}

/// Types have distinct ids and distinct codes.
pub open spec fn types_distinct(types: Seq<TypeRowModel>) -> bool {
    forall|i: int, k: int|
        #![trigger types[i], types[k]]
        0 <= i < types.len() && 0 <= k < types.len() && i != k ==> types[i].id != types[k].id
            && types[i].code != types[k].code
}

/// Items have distinct ids, values are distinct within a type, and a type has
/// at most one default item.
pub open spec fn items_distinct(items: Seq<ItemModel>) -> bool {
    forall|j: int, m: int|
        #![trigger items[j], items[m]]
        0 <= j < items.len() && 0 <= m < items.len() && j != m ==> {
            &&& items[j].id != items[m].id
            &&& items[j].type_id == items[m].type_id ==> items[j].value != items[m].value
            &&& items[j].is_default && items[m].is_default ==> items[j].type_id != items[m].type_id
        }
}

/// The constraints of the schema hold: ids and codes of types are unique,
/// ids of items are unique, values are unique within a type, a type has at
/// most one default item, and every item's type exists.
pub open spec fn well_formed(t: TenantTables) -> bool {
    &&& types_distinct(t.types)
    &&& items_distinct(t.items)
    &&& forall|j: int| 0 <= j < t.items.len() ==> has_type(t, #[trigger] t.items[j].type_id)
}

/// `INSERT INTO dictionary_types`: refused when the id or the code is taken.
pub open spec fn insert_type(t: TenantTables, row: TypeRowModel) -> Option<TenantTables> {
    if exists|i: int| 0 <= i < t.types.len() && (#[trigger] t.types[i].id == row.id || t.types[i].code == row.code) {
        None
    } else {
        Some(TenantTables { types: t.types.push(row), items: t.items })
    }
}

/// `row` replaces the type with its id.
pub open spec fn replace_type(types: Seq<TypeRowModel>, row: TypeRowModel) -> Seq<TypeRowModel> {
    types.map_values(|r: TypeRowModel| if r.id == row.id { row } else { r })
}

/// `UPDATE dictionary_types ... WHERE id = row.id`, with its row count: refused
/// when another type holds the new code.
pub open spec fn update_type(t: TenantTables, row: TypeRowModel) -> Option<(TenantTables, nat)> {
    if !has_type(t, row.id) {
        Some((t, 0))
    } else if exists|i: int| 0 <= i < t.types.len() && #[trigger] t.types[i].id != row.id && t.types[i].code == row.code {
        None
    } else {
        Some((TenantTables { types: replace_type(t.types, row), items: t.items }, 1))
    }
}

/// `DELETE FROM dictionary_types WHERE id = id`, with its row count; the
/// foreign key deletes the type's items with it.
pub open spec fn delete_type(t: TenantTables, id: Seq<char>) -> (TenantTables, nat) {
    (
        TenantTables {
            types: t.types.filter(|r: TypeRowModel| r.id != id),
            items: t.items.filter(|i: ItemModel| i.type_id != id),
        },
        if has_type(t, id) { 1 } else { 0 },
    )
}

/// An item that is no longer default when it belongs to `type_id` and is not `keep`.
pub open spec fn cleared(i: ItemModel, type_id: Seq<char>, keep: Option<Seq<char>>) -> ItemModel {
    if i.type_id == type_id && keep != Some(i.id) {
        ItemModel { is_default: false, ..i }
    } else {
        i
    }
}

/// `UPDATE dictionary_items SET is_default = FALSE` for the items of `type_id`,
/// except the item `keep` when there is one.
pub open spec fn clear_defaults(t: TenantTables, type_id: Seq<char>, keep: Option<Seq<char>>) -> TenantTables {
    TenantTables {
        types: t.types,
        items: t.items.map_values(|i: ItemModel| cleared(i, type_id, keep)),
    }
}

/// `INSERT INTO dictionary_items`: refused when the id is taken, the value is
/// taken within the type, the type does not exist, or the item is default
/// while its type already has a default.
pub open spec fn insert_item(t: TenantTables, item: ItemModel) -> Option<TenantTables> {
    if has_item(t, item.id) || !has_type(t, item.type_id) || exists|j: int|
        0 <= j < t.items.len() && #[trigger] t.items[j].type_id == item.type_id && (t.items[j].value
            == item.value || (item.is_default && t.items[j].is_default)) {
        None
    } else {
        Some(TenantTables { types: t.types, items: t.items.push(item) })
    }
}

/// `item` replaces the item with its id.
pub open spec fn replace_item(items: Seq<ItemModel>, item: ItemModel) -> Seq<ItemModel> {
    items.map_values(|i: ItemModel| if i.id == item.id { item } else { i })
}

/// `UPDATE dictionary_items ... WHERE id = item.id`, with its row count: refused
/// when the new type does not exist, or another item of the new type holds the
/// value or, for a default item, is default too.
pub open spec fn update_item(t: TenantTables, item: ItemModel) -> Option<(TenantTables, nat)> {
    if !has_item(t, item.id) {
        Some((t, 0))
    } else if !has_type(t, item.type_id) || exists|j: int|
        0 <= j < t.items.len() && #[trigger] t.items[j].id != item.id && t.items[j].type_id
            == item.type_id && (t.items[j].value == item.value || (item.is_default
            && t.items[j].is_default)) {
        None
    } else {
        Some((TenantTables { types: t.types, items: replace_item(t.items, item) }, 1))
    }
}

/// `DELETE FROM dictionary_items WHERE id = id`, with its row count.
pub open spec fn delete_item(t: TenantTables, id: Seq<char>) -> (TenantTables, nat) {
    (
        TenantTables { types: t.types, items: t.items.filter(|i: ItemModel| i.id != id) },
        if has_item(t, id) { 1 } else { 0 },
    )
}

/// The view the tenant reads: every type with its items.
pub open spec fn view_of(t: TenantTables) -> Seq<TypeModel> {
    t.types.map_values(|r: TypeRowModel| assembled_type(r, t.items))
}

/// The only default item of its type is `item`.
pub open spec fn sole_default(items: Seq<ItemModel>, item: ItemModel) -> bool {
    forall|j: int|
        0 <= j < items.len() && #[trigger] items[j].type_id == item.type_id && items[j].is_default
            ==> items[j] == item
}

/// A statement of one tenant leaves every other tenant's rows as they were.
pub proof fn law_statements_stay_within_tenant(db: Tables, tenant: Seq<char>, rows: TenantTables, other: Seq<char>)
    requires
        other != tenant,
    ensures
        tables_of(after_statement(db, tenant, rows), other) == tables_of(db, other),
        tables_of(after_statement(db, tenant, rows), tenant) == rows,
{
}

/// Inserting a type keeps the constraints, and the view then holds the new
/// type, with no items.
pub proof fn law_insert_type(t: TenantTables, row: TypeRowModel)
    requires
        well_formed(t),
        insert_type(t, row) is Some,
    ensures
        well_formed(insert_type(t, row)->0),
        view_of(insert_type(t, row)->0).last() == assembled_type(row, t.items),
        assembled_type(row, t.items).items == Seq::<ItemModel>::empty(),
{
    let t2 = insert_type(t, row)->0;
    assert forall|j: int| 0 <= j < t2.items.len() implies has_type(t2, #[trigger] t2.items[j].type_id) by {
        assert(has_type(t, t.items[j].type_id));
        let i = choose|i: int| 0 <= i < t.types.len() && #[trigger] t.types[i].id == t.items[j].type_id;
        assert(t2.types[i].id == t2.items[j].type_id);
    }
    assert forall|j: int| 0 <= j < t.items.len() implies #[trigger] t.items[j].type_id != row.id by {
        assert(has_type(t, t.items[j].type_id));
    }
    lemma_items_for_absent(t.items, row.id);
}

/// No item of `items` belongs to `type_id`, so none is listed for it.
pub proof fn lemma_items_for_absent(items: Seq<ItemModel>, type_id: Seq<char>)
    requires
        forall|j: int| 0 <= j < items.len() ==> #[trigger] items[j].type_id != type_id,
    ensures
        items_for(items, type_id) == Seq::<ItemModel>::empty(),
    decreases items.len(),
{
    if items.len() > 0 {
        assert(items.last().type_id != type_id);
        lemma_items_for_absent(items.drop_last(), type_id);
    }
}

/// Updating a type keeps the constraints; its row count is 1 exactly when
/// the type exists.
pub proof fn law_update_type(t: TenantTables, row: TypeRowModel)
    requires
        well_formed(t),
    ensures
        match update_type(t, row) {
            Some((t2, n)) => well_formed(t2) && n == (if has_type(t, row.id) { 1nat } else { 0nat }),
            None => true,
        },
{
    if has_type(t, row.id) && update_type(t, row) is Some {
        let t2 = TenantTables { types: replace_type(t.types, row), items: t.items };
        assert forall|i: int, k: int|
            0 <= i < t2.types.len() && 0 <= k < t2.types.len() && i != k implies #[trigger] t2.types[i].id
            != #[trigger] t2.types[k].id && t2.types[i].code != t2.types[k].code by {
            assert(t.types[i].id != t.types[k].id);
            if t.types[i].id == row.id {
                assert(t.types[k].id != row.id);
            } else if t.types[k].id == row.id {
                assert(t.types[i].id != row.id);
            }
        }
        assert forall|j: int| 0 <= j < t2.items.len() implies has_type(t2, #[trigger] t2.items[j].type_id) by {
            assert(has_type(t, t.items[j].type_id));
            let i = choose|i: int| 0 <= i < t.types.len() && #[trigger] t.types[i].id == t.items[j].type_id;
            assert(t2.types[i].id == t.types[i].id);
        }
    }
}

/// Deleting a type keeps the constraints, removes the type, and removes every
/// item of it (the cascade); its row count is 1 exactly when the type existed.
pub proof fn law_delete_type_cascades(t: TenantTables, id: Seq<char>)
    requires
        well_formed(t),
    ensures
        well_formed(delete_type(t, id).0),
        !has_type(delete_type(t, id).0, id),
        forall|j: int|
            0 <= j < delete_type(t, id).0.items.len() ==> #[trigger] delete_type(t, id).0.items[j].type_id != id,
        forall|j: int|
            0 <= j < t.items.len() && #[trigger] t.items[j].type_id != id ==> delete_type(t, id).0.items.contains(t.items[j]),
        delete_type(t, id).1 == (if has_type(t, id) { 1nat } else { 0nat }),
{
    let types_pred = |r: TypeRowModel| r.id != id;
    let items_pred = |i: ItemModel| i.type_id != id;
    let t2 = delete_type(t, id).0;
    lemma_filter_distinct_types(t.types, types_pred);
    lemma_filter_distinct_items(t.items, items_pred);
    lemma_filter_from(t.types, types_pred);
    assert forall|j: int| 0 <= j < t2.items.len() implies has_type(t2, #[trigger] t2.items[j].type_id) by {
        let item = t2.items[j];
        lemma_filter_from(t.items, items_pred);
        assert(t.items.contains(item));
        let m = choose|m: int| 0 <= m < t.items.len() && t.items[m] == item;
        assert(has_type(t, t.items[m].type_id));
        let i = choose|i: int| 0 <= i < t.types.len() && #[trigger] t.types[i].id == t.items[m].type_id;
        assert(types_pred(t.types[i]));
        assert(t2.types.contains(t.types[i]));
    }
    assert(!has_type(t2, id));
}

/// A type that exists in `t` exists in tables with the same types.
proof fn lemma_has_type_transfer(t: TenantTables, u: TenantTables, id: Seq<char>)
    requires
        u.types == t.types,
        has_type(t, id),
    ensures
        has_type(u, id),
{
    let i = choose|i: int| 0 <= i < t.types.len() && #[trigger] t.types[i].id == id;
    assert(u.types[i].id == id);
}

/// Clearing the defaults of a type keeps the constraints and leaves no default
/// in that type but `keep`; ids, types and values of items do not change.
pub proof fn lemma_clear_defaults(t: TenantTables, type_id: Seq<char>, keep: Option<Seq<char>>)
    requires
        well_formed(t),
    ensures
        well_formed(clear_defaults(t, type_id, keep)),
        clear_defaults(t, type_id, keep).types == t.types,
        clear_defaults(t, type_id, keep).items.len() == t.items.len(),
        forall|j: int|
            0 <= j < t.items.len() ==> {
                let c = #[trigger] clear_defaults(t, type_id, keep).items[j];
                &&& c.id == t.items[j].id
                &&& c.type_id == t.items[j].type_id
                &&& c.value == t.items[j].value
                &&& (c.is_default ==> t.items[j].is_default)
                &&& (c.type_id == type_id && keep != Some(c.id) ==> !c.is_default)
            },
{
    let t1 = clear_defaults(t, type_id, keep);
    assert forall|j: int, m: int|
        #![trigger t1.items[j], t1.items[m]]
        0 <= j < t1.items.len() && 0 <= m < t1.items.len() && j != m implies {
        &&& t1.items[j].id != t1.items[m].id
        &&& t1.items[j].type_id == t1.items[m].type_id ==> t1.items[j].value != t1.items[m].value
        &&& t1.items[j].is_default && t1.items[m].is_default ==> t1.items[j].type_id
            != t1.items[m].type_id
    } by {
        assert(t.items[j].id != t.items[m].id);
    }
    assert forall|j: int| 0 <= j < t1.items.len() implies has_type(t1, #[trigger] t1.items[j].type_id) by {
        assert(has_type(t, t.items[j].type_id));
        lemma_has_type_transfer(t, t1, t.items[j].type_id);
    }
}

/// The statements of a planned item creation (clearing the type's defaults
/// first exactly when the item is default) succeeds whenever its id is new,
/// its type exists and its value is new within the type: the one-default rule
/// never refuses it. It keeps the constraints, a default item is then the only
/// default of its type, and the item is listed last among its type's items.
proof fn lemma_planned_insert(t: TenantTables, write: ItemWrite)
    requires
        well_formed(t),
        write.clears_other_defaults == write.item.is_default,
    ensures
        ({
            let item = write.item@;
            let t1 = if write.clears_other_defaults { clear_defaults(t, item.type_id, None) } else { t };
            &&& (!has_item(t, item.id) && has_type(t, item.type_id) && (forall|j: int|
                0 <= j < t.items.len() && #[trigger] t.items[j].type_id == item.type_id
                    ==> t.items[j].value != item.value)) ==> insert_item(t1, item) is Some
            &&& insert_item(t1, item) matches Some(t2) ==> {
                &&& well_formed(t2)
                &&& item.is_default ==> sole_default(t2.items, item)
                &&& items_for(t2.items, item.type_id) == items_for(t1.items, item.type_id).push(item)
            }
        }),
{
    let item = write.item@;
    let clears = write.clears_other_defaults;
    let t1 = if clears { clear_defaults(t, item.type_id, None) } else { t };
    lemma_clear_defaults(t, item.type_id, None);
    assert(well_formed(t1));
    assert(has_item(t1, item.id) ==> has_item(t, item.id)) by {
        if has_item(t1, item.id) {
            let j = choose|j: int| 0 <= j < t1.items.len() && #[trigger] t1.items[j].id == item.id;
            assert(t.items[j].id == item.id);
        }
    }
    assert(has_type(t1, item.type_id) == has_type(t, item.type_id));
    if !has_item(t, item.id) && has_type(t, item.type_id) && (forall|j: int|
        0 <= j < t.items.len() && #[trigger] t.items[j].type_id == item.type_id ==> t.items[j].value
            != item.value) {
        assert forall|j: int| 0 <= j < t1.items.len() && #[trigger] t1.items[j].type_id == item.type_id
            implies !(t1.items[j].value == item.value || (item.is_default && t1.items[j].is_default)) by {
            assert(t.items[j].type_id == item.type_id);
        }
    }
    if insert_item(t1, item) is Some {
        let t2 = insert_item(t1, item)->0;
        assert(t2.items == t1.items.push(item));
        let n = t1.items.len() as int;
        assert forall|j: int, m: int|
            #![trigger t2.items[j], t2.items[m]]
            0 <= j < t2.items.len() && 0 <= m < t2.items.len() && j != m implies {
            &&& t2.items[j].id != t2.items[m].id
            &&& t2.items[j].type_id == t2.items[m].type_id ==> t2.items[j].value != t2.items[m].value
            &&& t2.items[j].is_default && t2.items[m].is_default ==> t2.items[j].type_id
                != t2.items[m].type_id
        } by {
            if j == n {
                assert(t1.items[m].id != item.id);
                assert(t1.items[m].type_id == item.type_id ==> t1.items[m].value != item.value);
            } else if m == n {
                assert(t1.items[j].id != item.id);
                assert(t1.items[j].type_id == item.type_id ==> t1.items[j].value != item.value);
            } else {
                assert(t1.items[j] == t2.items[j] && t1.items[m] == t2.items[m]);
            }
        }
        assert forall|j: int| 0 <= j < t2.items.len() implies has_type(t2, #[trigger] t2.items[j].type_id) by {
            if j < n {
                assert(has_type(t1, t1.items[j].type_id));
                lemma_has_type_transfer(t1, t2, t1.items[j].type_id);
            } else {
                lemma_has_type_transfer(t1, t2, item.type_id);
            }
        }
        if item.is_default {
            assert forall|j: int|
                0 <= j < t2.items.len() && #[trigger] t2.items[j].type_id == item.type_id
                    && t2.items[j].is_default implies t2.items[j] == item by {
                if j < n {
                    assert(t2.items[j] == t1.items[j]);
                }
            }
        }
        assert(t2.items.drop_last() =~= t1.items);
    }
}

/// The statements of a planned item update (clearing the other defaults of
/// its type first exactly when it becomes default) succeeds whenever the item
/// exists, its type exists and no other item of the type holds its value:
/// the one-default rule never refuses it. It keeps the constraints, and a
/// default item is then the only default of its type.
proof fn lemma_planned_update(t: TenantTables, write: ItemWrite)
    requires
        well_formed(t),
        write.clears_other_defaults == write.item.is_default,
    ensures
        ({
            let item = write.item@;
            let t1 = if write.clears_other_defaults {
                clear_defaults(t, item.type_id, Some(item.id))
            } else {
                t
            };
            &&& (has_item(t, item.id) && has_type(t, item.type_id) && (forall|j: int|
                0 <= j < t.items.len() && #[trigger] t.items[j].type_id == item.type_id
                    && t.items[j].id != item.id ==> t.items[j].value != item.value))
                ==> update_item(t1, item) == Some((TenantTables { types: t1.types, items: replace_item(t1.items, item) }, 1nat))
            &&& update_item(t1, item) matches Some((t2, n)) ==> {
                &&& well_formed(t2)
                &&& n == (if has_item(t, item.id) { 1nat } else { 0nat })
                &&& n == 1 && item.is_default ==> sole_default(t2.items, item)
            }
        }),
{
    let item = write.item@;
    let clears = write.clears_other_defaults;
    let t1 = if clears { clear_defaults(t, item.type_id, Some(item.id)) } else { t };
    lemma_clear_defaults(t, item.type_id, Some(item.id));
    assert(well_formed(t1));
    assert(has_item(t1, item.id) == has_item(t, item.id)) by {
        if has_item(t1, item.id) {
            let j = choose|j: int| 0 <= j < t1.items.len() && #[trigger] t1.items[j].id == item.id;
            assert(t.items[j].id == item.id);
        }
        if has_item(t, item.id) {
            let j = choose|j: int| 0 <= j < t.items.len() && #[trigger] t.items[j].id == item.id;
            assert(t1.items[j].id == item.id);
        }
    }
    assert(has_type(t1, item.type_id) == has_type(t, item.type_id));
    if has_item(t, item.id) && has_type(t, item.type_id) && (forall|j: int|
        0 <= j < t.items.len() && #[trigger] t.items[j].type_id == item.type_id && t.items[j].id
            != item.id ==> t.items[j].value != item.value) {
        assert forall|j: int|
            0 <= j < t1.items.len() && #[trigger] t1.items[j].id != item.id && t1.items[j].type_id
                == item.type_id implies !(t1.items[j].value == item.value || (item.is_default
            && t1.items[j].is_default)) by {
            assert(t.items[j].type_id == item.type_id);
        }
    }
    if has_item(t1, item.id) && update_item(t1, item) is Some {
        let t2 = TenantTables { types: t1.types, items: replace_item(t1.items, item) };
        assert forall|j: int, m: int|
            #![trigger t2.items[j], t2.items[m]]
            0 <= j < t2.items.len() && 0 <= m < t2.items.len() && j != m implies {
            &&& t2.items[j].id != t2.items[m].id
            &&& t2.items[j].type_id == t2.items[m].type_id ==> t2.items[j].value != t2.items[m].value
            &&& t2.items[j].is_default && t2.items[m].is_default ==> t2.items[j].type_id
                != t2.items[m].type_id
        } by {
            assert(t1.items[j].id != t1.items[m].id);
            if t1.items[j].id == item.id {
                assert(t1.items[m].id != item.id);
            } else if t1.items[m].id == item.id {
                assert(t1.items[j].id != item.id);
            }
        }
        assert forall|j: int| 0 <= j < t2.items.len() implies has_type(t2, #[trigger] t2.items[j].type_id) by {
            if t1.items[j].id != item.id {
                assert(has_type(t1, t1.items[j].type_id));
                lemma_has_type_transfer(t1, t2, t1.items[j].type_id);
            } else {
                lemma_has_type_transfer(t1, t2, item.type_id);
            }
        }
        if item.is_default {
            assert forall|j: int|
                0 <= j < t2.items.len() && #[trigger] t2.items[j].type_id == item.type_id
                    && t2.items[j].is_default implies t2.items[j] == item by {
                if t1.items[j].id != item.id {
                    assert(t2.items[j] == t1.items[j]);
                    assert(t1.items[j] == clear_defaults(t, item.type_id, Some(item.id)).items[j]);
                }
            }
        }
    }
}

/// The tenant's tables after a transaction: what it committed, or the tables
/// it started from when it was rolled back (`None`).
pub open spec fn after_transaction(t: TenantTables, outcome: Option<TenantTables>) -> TenantTables {
    match outcome {
        Some(t2) => t2,
        None => t,
    }
}

/// The create-item transaction: clear the defaults of the item's type when the
/// write asks for it, then insert the item; a refused statement rolls the
/// whole transaction back (`None`).
pub open spec fn create_item_transaction(t: TenantTables, write: ItemWrite) -> Option<TenantTables> {
    let item = write.item@;
    let t1 = if write.clears_other_defaults {
        clear_defaults(t, item.type_id, None)
    } else {
        t
    };
    insert_item(t1, item)
}

/// The update-item transaction: clear the other defaults of the item's type
/// when the write asks for it, then update the item; a refused statement, or an
/// update that touches no row, rolls the whole transaction back (`None`).
pub open spec fn update_item_transaction(t: TenantTables, write: ItemWrite) -> Option<TenantTables> {
    let item = write.item@;
    let t1 = if write.clears_other_defaults {
        clear_defaults(t, item.type_id, Some(item.id))
    } else {
        t
    };
    match update_item(t1, item) {
        Some((t2, n)) => if n == 1 { Some(t2) } else { None },
        None => None,
    }
}

/// Creating an item as `plan_create_item` plans it commits exactly when its id
/// is new, its type exists and no item of the type holds its value: the
/// one-default rule never refuses it. When it commits, the constraints hold, a
/// default item is the only default of its type, and the item is listed last
/// among its type's items, after the type's other items with their defaults
/// cleared when the write clears them. When it is refused, the tenant's tables are as they
/// were, other defaults included.
pub proof fn law_create_item(t: TenantTables, write: ItemWrite)
    requires
        well_formed(t),
        write.clears_other_defaults == write.item.is_default,
    ensures
        ({
            let item = write.item@;
            let outcome = create_item_transaction(t, write);
            &&& outcome is Some <==> (!has_item(t, item.id) && has_type(t, item.type_id) && (forall|j: int|
                0 <= j < t.items.len() && #[trigger] t.items[j].type_id == item.type_id
                    ==> t.items[j].value != item.value))
            &&& well_formed(after_transaction(t, outcome))
            &&& outcome is None ==> after_transaction(t, outcome) == t
            &&& outcome matches Some(t2) ==> {
                &&& item.is_default ==> sole_default(t2.items, item)
                &&& t2.items.last() == item
                &&& items_for(t2.items, item.type_id) == (if write.clears_other_defaults {
                    items_for(t.items, item.type_id).map_values(
                        |i: ItemModel| cleared(i, item.type_id, None),
                    )
                } else {
                    items_for(t.items, item.type_id)
                }).push(item)
            }
        }),
{
    let item = write.item@;
    lemma_planned_insert(t, write);
    lemma_clear_defaults(t, item.type_id, None);
    let t1 = if write.clears_other_defaults { clear_defaults(t, item.type_id, None) } else { t };
    if create_item_transaction(t, write) is Some {
        // The refusals of `insert_item` are read back in the original tables.
        assert(!has_item(t, item.id)) by {
            if has_item(t, item.id) {
                let j = choose|j: int| 0 <= j < t.items.len() && #[trigger] t.items[j].id == item.id;
                assert(t1.items[j].id == item.id);
            }
        }
        assert forall|j: int| 0 <= j < t.items.len() && #[trigger] t.items[j].type_id == item.type_id
            implies t.items[j].value != item.value by {
            assert(t1.items[j].type_id == item.type_id);
        }
        lemma_items_for_cleared(t, item.type_id, None);
    }
}

/// Clearing defaults lists the same items for every type, up to their default
/// flag; for the type being cleared nothing else changes either, so
/// `items_for` on the cleared tables is `items_for` on the originals with the
/// flags cleared.
proof fn lemma_items_for_cleared(t: TenantTables, type_id: Seq<char>, keep: Option<Seq<char>>)
    ensures
        items_for(clear_defaults(t, type_id, keep).items, type_id) == items_for(t.items, type_id).map_values(
            |i: ItemModel| cleared(i, type_id, keep),
        ),
    decreases t.items.len(),
{
    let c = clear_defaults(t, type_id, keep).items;
    if t.items.len() > 0 {
        let rest = TenantTables { types: t.types, items: t.items.drop_last() };
        lemma_items_for_cleared(rest, type_id, keep);
        assert(clear_defaults(rest, type_id, keep).items =~= c.drop_last());
        assert(c.last() == cleared(t.items.last(), type_id, keep));
        assert(items_for(t.items, type_id).map_values(|i: ItemModel| cleared(i, type_id, keep))
            =~= if t.items.last().type_id == type_id {
            items_for(t.items.drop_last(), type_id).map_values(|i: ItemModel| cleared(i, type_id, keep)).push(
                cleared(t.items.last(), type_id, keep),
            )
        } else {
            items_for(t.items.drop_last(), type_id).map_values(|i: ItemModel| cleared(i, type_id, keep))
        });
    } else {
        assert(items_for(t.items, type_id).map_values(|i: ItemModel| cleared(i, type_id, keep)) =~= Seq::<ItemModel>::empty());
    }
}

/// Updating an item as `plan_update_item` plans it commits exactly when the
/// item exists, its type exists and no other item of the type holds its value:
/// the one-default rule never refuses it. When it commits, the constraints
/// hold and a default item is the only default of its type. When it is
/// refused, or touches no row, the tenant's tables are as they were, other
/// defaults included.
pub proof fn law_update_item(t: TenantTables, write: ItemWrite)
    requires
        well_formed(t),
        write.clears_other_defaults == write.item.is_default,
    ensures
        ({
            let item = write.item@;
            let outcome = update_item_transaction(t, write);
            &&& outcome is Some <==> (has_item(t, item.id) && has_type(t, item.type_id) && (forall|j: int|
                0 <= j < t.items.len() && #[trigger] t.items[j].type_id == item.type_id
                    && t.items[j].id != item.id ==> t.items[j].value != item.value))
            &&& well_formed(after_transaction(t, outcome))
            &&& outcome is None ==> after_transaction(t, outcome) == t
            &&& outcome matches Some(t2) ==> (item.is_default ==> sole_default(t2.items, item))
        }),
{
    let item = write.item@;
    lemma_planned_update(t, write);
    lemma_clear_defaults(t, item.type_id, Some(item.id));
    let t1 = if write.clears_other_defaults {
        clear_defaults(t, item.type_id, Some(item.id))
    } else {
        t
    };
    if update_item_transaction(t, write) is Some {
        assert(has_item(t1, item.id));
        assert(has_item(t, item.id)) by {
            let j = choose|j: int| 0 <= j < t1.items.len() && #[trigger] t1.items[j].id == item.id;
            assert(t.items[j].id == item.id);
        }
        assert forall|j: int|
            0 <= j < t.items.len() && #[trigger] t.items[j].type_id == item.type_id && t.items[j].id
                != item.id implies t.items[j].value != item.value by {
            assert(t1.items[j].id != item.id && t1.items[j].type_id == item.type_id);
        }
    }
}

/// Deleting an item keeps the constraints and removes it; its row count is 1
/// exactly when the item existed.
pub proof fn law_delete_item(t: TenantTables, id: Seq<char>)
    requires
        well_formed(t),
    ensures
        well_formed(delete_item(t, id).0),
        !has_item(delete_item(t, id).0, id),
        delete_item(t, id).1 == (if has_item(t, id) { 1nat } else { 0nat }),
{
    let pred = |i: ItemModel| i.id != id;
    let t2 = delete_item(t, id).0;
    lemma_filter_distinct_items(t.items, pred);
    lemma_filter_from(t.items, pred);
    assert forall|j: int| 0 <= j < t2.items.len() implies has_type(t2, #[trigger] t2.items[j].type_id) by {
        assert(t.items.contains(t2.items[j]));
        let m = choose|m: int| 0 <= m < t.items.len() && t.items[m] == t2.items[j];
        assert(has_type(t, t.items[m].type_id));
        lemma_has_type_transfer(t, t2, t.items[m].type_id);
    }
}

/// Every element that filtering keeps comes from the filtered sequence.
pub proof fn lemma_filter_from<A>(s: Seq<A>, pred: spec_fn(A) -> bool)
    ensures
        forall|i: int| 0 <= i < s.filter(pred).len() ==> s.contains(#[trigger] s.filter(pred)[i]),
    decreases s.len(),
{
    reveal(Seq::filter);
    if s.len() > 0 {
        let rest = s.drop_last();
        lemma_filter_from(rest, pred);
        let f = s.filter(pred);
        let g = rest.filter(pred);
        assert forall|i: int| 0 <= i < f.len() implies s.contains(#[trigger] f[i]) by {
            if i < g.len() {
                assert(f[i] == g[i]);
                assert(rest.contains(g[i]));
                let k = choose|k: int| 0 <= k < rest.len() && rest[k] == g[i];
                assert(s[k] == g[i]);
            } else {
                assert(f[i] == s.last());
                assert(s[s.len() - 1] == s.last());
            }
        }
    }
}

/// Filtering keeps the types distinct.
proof fn lemma_filter_distinct_types(types: Seq<TypeRowModel>, pred: spec_fn(TypeRowModel) -> bool)
    requires
        types_distinct(types),
    ensures
        types_distinct(types.filter(pred)),
    decreases types.len(),
{
    reveal(Seq::filter);
    if types.len() > 0 {
        let rest = types.drop_last();
        lemma_filter_distinct_types(rest, pred);
        let last = types.last();
        let g = rest.filter(pred);
        assert forall|m: int| 0 <= m < g.len() implies #[trigger] g[m].id != last.id && g[m].code != last.code by {
            lemma_filter_from(rest, pred);
            assert(rest.contains(g[m]));
            let k = choose|k: int| 0 <= k < rest.len() && rest[k] == g[m];
            assert(types[k] == g[m]);
            assert(types[types.len() - 1] == last);
        }
        if pred(last) {
            let f = types.filter(pred);
            assert(f == g.push(last));
            assert forall|i: int, k: int| 0 <= i < f.len() && 0 <= k < f.len() && i != k
                implies #[trigger] f[i].id != #[trigger] f[k].id && f[i].code != f[k].code by {
                if i == f.len() - 1 {
                    assert(g[k] == f[k]);
                } else if k == f.len() - 1 {
                    assert(g[i] == f[i]);
                } else {
                    assert(g[i] == f[i] && g[k] == f[k]);
                }
            }
        } else {
            assert(types.filter(pred) == g);
        }
    }
}

/// Filtering keeps the items distinct.
proof fn lemma_filter_distinct_items(items: Seq<ItemModel>, pred: spec_fn(ItemModel) -> bool)
    requires
        items_distinct(items),
    ensures
        items_distinct(items.filter(pred)),
    decreases items.len(),
{
    reveal(Seq::filter);
    if items.len() > 0 {
        let rest = items.drop_last();
        lemma_filter_distinct_items(rest, pred);
        let last = items.last();
        let g = rest.filter(pred);
        assert forall|m: int| #![trigger g[m]] 0 <= m < g.len() implies {
            &&& g[m].id != last.id
            &&& g[m].type_id == last.type_id ==> g[m].value != last.value
            &&& g[m].is_default && last.is_default ==> g[m].type_id != last.type_id
        } by {
            lemma_filter_from(rest, pred);
            assert(rest.contains(g[m]));
            let k = choose|k: int| 0 <= k < rest.len() && rest[k] == g[m];
            assert(items[k] == g[m]);
            assert(items[items.len() - 1] == last);
        }
        if pred(last) {
            let f = items.filter(pred);
            assert(f == g.push(last));
            assert forall|j: int, m: int| 0 <= j < f.len() && 0 <= m < f.len() && j != m implies {
                &&& #[trigger] f[j].id != #[trigger] f[m].id
                &&& f[j].type_id == f[m].type_id ==> f[j].value != f[m].value
                &&& f[j].is_default && f[m].is_default ==> f[j].type_id != f[m].type_id
            } by {
                if j == f.len() - 1 {
                    assert(g[m] == f[m]);
                    assert(f[j] == last);
                } else if m == f.len() - 1 {
                    assert(g[j] == f[j]);
                    assert(f[m] == last);
                } else {
                    assert(g[j] == f[j] && g[m] == f[m]);
                }
            }
        } else {
            assert(items.filter(pred) == g);
        }
    }
}

} // verus!
