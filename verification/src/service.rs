//! What the dictionary service decides around each storage statement: the
//! records it writes, how it reads a statement's outcome, and how it assembles
//! a tenant's view from the stored rows.
use vstd::prelude::*;
use crate::error::DictionaryError;
use crate::ids::{is_record_id, new_record_id};
use crate::model::{
    duplicate_items, copy_string, CreateDictionaryItemRequest, CreateDictionaryTypeRequest,
    DictionaryItem, DictionaryItemRow, DictionaryType, DictionaryTypeRow, DictionaryView,
    ItemModel, TypeModel, TypeRowModel, UpdateDictionaryItemRequest, UpdateDictionaryTypeRequest,
};
use crate::text::{trimmed, trimmed_string};
use crate::validation::{item_check, type_check, validate_item, validate_type};

verus! {

/// The type that is stored for the given id and request fields: code, name and
/// description trimmed, and no items yet.
pub open spec fn stored_type(
    id: Seq<char>,
    code: Seq<char>,
    name: Seq<char>,
    description: Seq<char>,
    enabled: bool,
) -> TypeModel {
    TypeModel {
        id,
        code: trimmed(code),
        name: trimmed(name),
        description: trimmed(description),
        enabled,
        items: Seq::empty(),
    }
}

/// The item that is stored for the given id and request fields: value and label
/// trimmed, and default only when it is also enabled.
pub open spec fn stored_item(
    id: Seq<char>,
    type_id: Seq<char>,
    value: Seq<char>,
    label: Seq<char>,
    sort_order: i32,
    is_default: bool,
    enabled: bool,
) -> ItemModel {
    ItemModel {
        id,
        type_id,
        value: trimmed(value),
        label: trimmed(label),
        sort_order,
        is_default: is_default && enabled,
        enabled,
    }
}

/// An item to store, and whether the other defaults of its type must be
/// cleared first (in the same transaction).
#[derive(Debug, Clone, PartialEq, Eq)]
pub struct ItemWrite {
    pub clears_other_defaults: bool,
    pub item: DictionaryItem,
}

/// The type with this id that comes first in `types`.
pub open spec fn find_type(types: Seq<TypeModel>, id: Seq<char>) -> Option<TypeModel>
    decreases types.len(),
{
    if types.len() == 0 {
        None
    } else if types[0].id == id {
        Some(types[0])
    } else {
        find_type(types.drop_first(), id)
    }
}

/// The items among `items` that belong to the type `type_id`, in their order.
pub open spec fn items_for(items: Seq<ItemModel>, type_id: Seq<char>) -> Seq<ItemModel>
    decreases items.len(),
{
    if items.len() == 0 {
        Seq::empty()
    } else {
        let before = items_for(items.drop_last(), type_id);
        if items.last().type_id == type_id {
            before.push(items.last())
        } else {
            before
        }
    }
}

/// Models of a sequence of item rows.
pub open spec fn row_models(rows: Seq<DictionaryItemRow>) -> Seq<ItemModel> {
    rows.map_values(|r: DictionaryItemRow| r@)
}

/// A type row together with the items among `items` that belong to it.
pub open spec fn assembled_type(row: TypeRowModel, items: Seq<ItemModel>) -> TypeModel {
    TypeModel {
        id: row.id,
        code: row.code,
        name: row.name,
        description: row.description,
        enabled: row.enabled,
        items: items_for(items, row.id),
    }
}

/// The type stored for a request keeps the given id and the request's
/// enabled flag, holds the request's code, name and description with their
/// surrounding white space removed, and has no items.
pub proof fn law_stored_type_fields(
    id: Seq<char>,
    code: Seq<char>,
    name: Seq<char>,
    description: Seq<char>,
    enabled: bool,
)
    ensures
        stored_type(id, code, name, description, enabled).id == id,
        stored_type(id, code, name, description, enabled).code == trimmed(code),
        stored_type(id, code, name, description, enabled).name == trimmed(name),
        stored_type(id, code, name, description, enabled).description == trimmed(description),
        stored_type(id, code, name, description, enabled).enabled == enabled,
        stored_type(id, code, name, description, enabled).items.len() == 0,
{
}

/// The item stored for a request keeps the given id, type, sort order and
/// enabled flag, holds the trimmed value and label, and is default exactly
/// when the request asks for a default and the item is enabled; a default item
/// is always enabled.
pub proof fn law_stored_item_fields(
    id: Seq<char>,
    type_id: Seq<char>,
    value: Seq<char>,
    label: Seq<char>,
    sort_order: i32,
    is_default: bool,
    enabled: bool,
)
    ensures
        ({
            let i = stored_item(id, type_id, value, label, sort_order, is_default, enabled);
            &&& i.id == id
            &&& i.type_id == type_id
            &&& i.value == trimmed(value)
            &&& i.label == trimmed(label)
            &&& i.sort_order == sort_order
            &&& i.enabled == enabled
            &&& i.is_default == (is_default && enabled)
            &&& i.is_default ==> i.enabled
        }),
{
}

/// `find_type` gives a type exactly when some type has the id, and then it is
/// the first type with that id.
pub proof fn law_find_type_first_match(types: Seq<TypeModel>, id: Seq<char>)
    ensures
        find_type(types, id) is Some <==> exists|k: int| 0 <= k < types.len() && #[trigger] types[k].id == id,
        find_type(types, id) matches Some(t) ==> exists|k: int|
            0 <= k < types.len() && #[trigger] types[k].id == id && t == types[k] && forall|m: int|
                0 <= m < k ==> types[m].id != id,
    decreases types.len(),
{
    if types.len() > 0 {
        let rest = types.drop_first();
        law_find_type_first_match(rest, id);
        if types[0].id == id {
            assert(types[0].id == id);
        } else {
            if exists|k: int| 0 <= k < types.len() && #[trigger] types[k].id == id {
                let k = choose|k: int| 0 <= k < types.len() && #[trigger] types[k].id == id;
                assert(rest[k - 1].id == id);
            }
            if exists|k: int| 0 <= k < rest.len() && #[trigger] rest[k].id == id {
                let k = choose|k: int| 0 <= k < rest.len() && #[trigger] rest[k].id == id;
                assert(types[k + 1].id == id);
            }
            if find_type(rest, id) is Some {
                let t = find_type(rest, id)->0;
                let k = choose|k: int|
                    0 <= k < rest.len() && #[trigger] rest[k].id == id && t == rest[k] && forall|m: int|
                        0 <= m < k ==> rest[m].id != id;
                assert(types[k + 1] == t);
                assert forall|m: int| 0 <= m < k + 1 implies types[m].id != id by {
                    if m > 0 {
                        assert(types[m] == rest[m - 1]);
                    }
                }
            }
        }
    }
}

/// The items listed for a type are exactly the items of that type, in their
/// order.
pub proof fn law_items_for_is_filter(items: Seq<ItemModel>, type_id: Seq<char>)
    ensures
        items_for(items, type_id) == items.filter(|m: ItemModel| m.type_id == type_id),
    decreases items.len(),
{
    reveal(Seq::filter);
    if items.len() > 0 {
        law_items_for_is_filter(items.drop_last(), type_id);
    }
}

/// An assembled type keeps every field of its row and lists exactly the items
/// of its id, in their order.
pub proof fn law_assembled_type_fields(row: TypeRowModel, items: Seq<ItemModel>)
    ensures
        assembled_type(row, items).id == row.id,
        assembled_type(row, items).code == row.code,
        assembled_type(row, items).name == row.name,
        assembled_type(row, items).description == row.description,
        assembled_type(row, items).enabled == row.enabled,
        assembled_type(row, items).items == items.filter(|m: ItemModel| m.type_id == row.id),
{
    law_items_for_is_filter(items, row.id);
}

/// Builds the type to insert under the id `id`, after checking the request.
pub fn new_dictionary_type(id: String, request: &CreateDictionaryTypeRequest) -> (r: Result<
    DictionaryType,
    DictionaryError,
>)
    ensures
        match type_check(request.code@, request.name@, request.description@) {
            Ok(_) => r matches Ok(t) && t@ == stored_type(
                id@,
                request.code@,
                request.name@,
                request.description@,
                request.enabled,
            ),
            Err(e) => r == Err::<DictionaryType, DictionaryError>(e),
        },
        r matches Ok(t) ==> t.id@ == id@ && t.enabled == request.enabled && t.code@ == trimmed(
            request.code@,
        ) && t.name@ == trimmed(request.name@) && t.description@ == trimmed(request.description@)
            && t.items@.len() == 0,
{
    match validate_type(&request.code, &request.name, &request.description) {
        Err(e) => Err(e),
        Ok(()) => {
            let t = DictionaryType {
                id,
                code: trimmed_string(&request.code),
                name: trimmed_string(&request.name),
                description: trimmed_string(&request.description),
                enabled: request.enabled,
                items: Vec::new(),
            };
            assert(t@.items =~= Seq::<ItemModel>::empty());
            Ok(t)
        },
    }
}

/// Finishes a create request once an id has been drawn (`None` when the draw
/// failed): a request that fails the check is refused with its error, a valid
/// one is refused with `RecordIdUnavailable` when no id was drawn, and is
/// otherwise the type to insert under the drawn id.
pub fn type_from_draw(drawn: Option<String>, request: &CreateDictionaryTypeRequest) -> (r: Result<
    DictionaryType,
    DictionaryError,
>)
    ensures
        match type_check(request.code@, request.name@, request.description@) {
            Err(e) => r == Err::<DictionaryType, DictionaryError>(e),
            Ok(_) => match drawn {
                None => r == Err::<DictionaryType, DictionaryError>(
                    DictionaryError::RecordIdUnavailable,
                ),
                Some(id) => r matches Ok(t) && t@ == stored_type(
                    id@,
                    request.code@,
                    request.name@,
                    request.description@,
                    request.enabled,
                ),
            },
        },
        r is Ok <==> (type_check(request.code@, request.name@, request.description@) is Ok
            && drawn is Some),
        r matches Ok(t) ==> drawn matches Some(id) && t.id@ == id@ && t.enabled == request.enabled
            && t.code@ == trimmed(request.code@) && t.name@ == trimmed(request.name@)
            && t.description@ == trimmed(request.description@) && t.items@.len() == 0,
{
    match validate_type(&request.code, &request.name, &request.description) {
        Err(e) => Err(e),
        Ok(()) => match drawn {
            None => Err(DictionaryError::RecordIdUnavailable),
            Some(id) => new_dictionary_type(id, request),
        },
    }
}

/// Checks a create request and, when it passes, builds the type to insert
/// under a freshly drawn record id; fails with `RecordIdUnavailable` when no id
/// can be drawn.
pub fn plan_create_type(request: &CreateDictionaryTypeRequest) -> (r: Result<
    DictionaryType,
    DictionaryError,
>)
    ensures
        match type_check(request.code@, request.name@, request.description@) {
            Ok(_) => (r matches Ok(t) && is_record_id(t.id@) && t@ == stored_type(
                t.id@,
                request.code@,
                request.name@,
                request.description@,
                request.enabled,
            )) || r == Err::<DictionaryType, DictionaryError>(DictionaryError::RecordIdUnavailable),
            Err(e) => r == Err::<DictionaryType, DictionaryError>(e),
        },
        r matches Ok(t) ==> is_record_id(t.id@) && t.enabled == request.enabled && t.code@
            == trimmed(request.code@) && t.name@ == trimmed(request.name@) && t.description@
            == trimmed(request.description@) && t.items@.len() == 0,
{
    type_from_draw(new_record_id(), request)
}

/// Checks an update request and builds the new fields of the type `type_id`
/// (its items are filled in once the update has been stored).
pub fn prepare_type_update(type_id: &str, request: &UpdateDictionaryTypeRequest) -> (r: Result<
    DictionaryType,
    DictionaryError,
>)
    ensures
        match type_check(request.code@, request.name@, request.description@) {
            Ok(_) => r matches Ok(t) && t@ == stored_type(
                type_id@,
                request.code@,
                request.name@,
                request.description@,
                request.enabled,
            ),
            Err(e) => r == Err::<DictionaryType, DictionaryError>(e),
        },
        r matches Ok(t) ==> t.id@ == type_id@ && t.enabled == request.enabled && t.code@ == trimmed(
            request.code@,
        ) && t.name@ == trimmed(request.name@) && t.description@ == trimmed(request.description@)
            && t.items@.len() == 0,
{
    match validate_type(&request.code, &request.name, &request.description) {
        Err(e) => Err(e),
        Ok(()) => {
            let t = DictionaryType {
                id: String::from_str(type_id),
                code: trimmed_string(&request.code),
                name: trimmed_string(&request.name),
                description: trimmed_string(&request.description),
                enabled: request.enabled,
                items: Vec::new(),
            };
            assert(t@.items =~= Seq::<ItemModel>::empty());
            Ok(t)
        },
    }
}

/// Reads the outcome of a statement that must touch exactly one row of the
/// tenant: any other count means the record is missing, reported as `missing`.
pub fn expect_single_row(rows_affected: u64, missing: DictionaryError) -> (r: Result<
    (),
    DictionaryError,
>)
    ensures
        r == (if rows_affected == 1 {
            Ok::<(), DictionaryError>(())
        } else {
            Err(missing)
        }),
{
    if rows_affected == 1 {
        Ok(())
    } else {
        Err(missing)
    }
}

/// Reads the answer to "does this type belong to the tenant?".
pub fn require_type_exists(exists: bool) -> (r: Result<(), DictionaryError>)
    ensures
        r == (if exists {
            Ok::<(), DictionaryError>(())
        } else {
            Err(DictionaryError::TypeNotFound)
        }),
{
    if exists {
        Ok(())
    } else {
        Err(DictionaryError::TypeNotFound)
    }
}

/// Position of the first type with this id.
fn find_type_index(types: &Vec<DictionaryType>, id: &String) -> (r: Option<usize>)
    ensures
        match r {
            Some(i) => i < types@.len() && find_type(types@.map_values(|t: DictionaryType| t@), id@)
                == Some(types@[i as int]@),
            None => find_type(types@.map_values(|t: DictionaryType| t@), id@) == None::<TypeModel>,
        },
{
    let ghost all = types@.map_values(|t: DictionaryType| t@);
    let mut i: usize = 0;
    assert(all.skip(0) =~= all);
    while i < types.len()
        invariant
            i <= types@.len(),
            all == types@.map_values(|t: DictionaryType| t@),
            find_type(all, id@) == find_type(all.skip(i as int), id@),
        decreases types@.len() - i,
    {
        assert(all.skip(i as int)[0] == types@[i as int]@);
        if types[i].id == *id {
            return Some(i);
        }
        assert(all.skip(i as int).drop_first() =~= all.skip(i as int + 1));
        i = i + 1;
    }
    assert(all.skip(i as int).len() == 0);
    None
}

/// Completes an updated type with the items it has in the view read back after
/// the update; fails when the view no longer holds the type.
pub fn attach_items(updated: DictionaryType, refreshed: &DictionaryView) -> (r: Result<
    DictionaryType,
    DictionaryError,
>)
    ensures
        match find_type(refreshed@, updated.id@) {
            Some(t) => r matches Ok(u) && u@ == TypeModel { items: t.items, ..updated@ },
            None => r == Err::<DictionaryType, DictionaryError>(DictionaryError::UpdatedTypeMissing),
        },
        r is Ok <==> (exists|k: int|
            0 <= k < refreshed@.len() && #[trigger] refreshed@[k].id == updated.id@),
        r is Err ==> r == Err::<DictionaryType, DictionaryError>(DictionaryError::UpdatedTypeMissing),
        r matches Ok(u) ==> (exists|k: int|
            0 <= k < refreshed@.len() && #[trigger] refreshed@[k].id == updated.id@ && (forall|m: int|
                0 <= m < k ==> refreshed@[m].id != updated.id@) && u@ == (TypeModel {
                items: refreshed@[k].items,
                ..updated@
            })),
{
    proof {
        law_find_type_first_match(refreshed@, updated.id@);
    }
    match find_type_index(&refreshed.types, &updated.id) {
        None => Err(DictionaryError::UpdatedTypeMissing),
        Some(i) => {
            let items = duplicate_items(&refreshed.types[i].items);
            Ok(DictionaryType { items, ..updated })
        },
    }
}

/// Builds the item to store under the id `id`, after checking its fields.
pub fn item_write(
    id: String,
    type_id: String,
    value: &str,
    label: &str,
    sort_order: i32,
    is_default: bool,
    enabled: bool,
) -> (r: Result<ItemWrite, DictionaryError>)
    ensures
        match item_check(value@, label@, sort_order) {
            Ok(_) => r matches Ok(w) && w.item@ == stored_item(
                id@,
                type_id@,
                value@,
                label@,
                sort_order,
                is_default,
                enabled,
            ) && w.clears_other_defaults == w.item.is_default,
            Err(e) => r == Err::<ItemWrite, DictionaryError>(e),
        },
        r is Ok <==> item_check(value@, label@, sort_order) is Ok,
        r matches Ok(w) ==> w.item.id@ == id@ && w.item.type_id@ == type_id@ && w.item.value@
            == trimmed(value@) && w.item.label@ == trimmed(label@) && w.item.sort_order
            == sort_order && w.item.enabled == enabled && w.item.is_default == (is_default
            && enabled) && w.clears_other_defaults == (is_default && enabled),
{
    match validate_item(value, label, sort_order) {
        Err(e) => Err(e),
        Ok(()) => {
            let is_default = is_default && enabled;
            Ok(
                ItemWrite {
                    clears_other_defaults: is_default,
                    item: DictionaryItem {
                        id,
                        type_id,
                        value: trimmed_string(value),
                        label: trimmed_string(label),
                        sort_order,
                        is_default,
                        enabled,
                    },
                },
            )
        },
    }
}

/// Finishes an item create request once an id has been drawn (`None` when
/// the draw failed): a request that fails the check is refused with its error,
/// a valid one is refused with `RecordIdUnavailable` when no id was drawn, and
/// is otherwise the item to insert under the drawn id.
pub fn item_from_draw(drawn: Option<String>, request: &CreateDictionaryItemRequest) -> (r: Result<
    ItemWrite,
    DictionaryError,
>)
    ensures
        match item_check(request.value@, request.label@, request.sort_order) {
            Err(e) => r == Err::<ItemWrite, DictionaryError>(e),
            Ok(_) => match drawn {
                None => r == Err::<ItemWrite, DictionaryError>(
                    DictionaryError::RecordIdUnavailable,
                ),
                Some(id) => r matches Ok(w) && w.item@ == stored_item(
                    id@,
                    request.type_id@,
                    request.value@,
                    request.label@,
                    request.sort_order,
                    request.is_default,
                    request.enabled,
                ) && w.clears_other_defaults == w.item.is_default,
            },
        },
        r is Ok <==> (item_check(request.value@, request.label@, request.sort_order) is Ok
            && drawn is Some),
        r matches Ok(w) ==> drawn matches Some(id) && w.item.id@ == id@ && w.item.type_id@
            == request.type_id@ && w.item.value@ == trimmed(request.value@) && w.item.label@
            == trimmed(request.label@) && w.item.sort_order == request.sort_order
            && w.item.enabled == request.enabled && w.item.is_default == (request.is_default
            && request.enabled) && w.clears_other_defaults == w.item.is_default,
{
    match validate_item(&request.value, &request.label, request.sort_order) {
        Err(e) => Err(e),
        Ok(()) => match drawn {
            None => Err(DictionaryError::RecordIdUnavailable),
            Some(id) => item_write(
                id,
                copy_string(&request.type_id),
                &request.value,
                &request.label,
                request.sort_order,
                request.is_default,
                request.enabled,
            ),
        },
    }
}

/// Checks a create request and builds the item to insert under a freshly
/// drawn record id; fails with `RecordIdUnavailable` when no id can be drawn.
pub fn plan_create_item(request: &CreateDictionaryItemRequest) -> (r: Result<
    ItemWrite,
    DictionaryError,
>)
    ensures
        match item_check(request.value@, request.label@, request.sort_order) {
            Ok(_) => (r matches Ok(w) && is_record_id(w.item.id@) && w.item@ == stored_item(
                w.item.id@,
                request.type_id@,
                request.value@,
                request.label@,
                request.sort_order,
                request.is_default,
                request.enabled,
            ) && w.clears_other_defaults == w.item.is_default) || r == Err::<
                ItemWrite,
                DictionaryError,
            >(DictionaryError::RecordIdUnavailable),
            Err(e) => r == Err::<ItemWrite, DictionaryError>(e),
        },
        r matches Ok(w) ==> is_record_id(w.item.id@) && w.item.type_id@ == request.type_id@
            && w.item.value@ == trimmed(request.value@) && w.item.label@ == trimmed(request.label@)
            && w.item.sort_order == request.sort_order && w.item.enabled == request.enabled
            && w.item.is_default == (request.is_default && request.enabled)
            && w.clears_other_defaults == w.item.is_default,
{
    item_from_draw(new_record_id(), request)
}

/// Checks an update request and builds the new state of the item `item_id`.
pub fn plan_update_item(item_id: &str, request: &UpdateDictionaryItemRequest) -> (r: Result<
    ItemWrite,
    DictionaryError,
>)
    ensures
        match item_check(request.value@, request.label@, request.sort_order) {
            Ok(_) => r matches Ok(w) && w.item@ == stored_item(
                item_id@,
                request.type_id@,
                request.value@,
                request.label@,
                request.sort_order,
                request.is_default,
                request.enabled,
            ) && w.clears_other_defaults == w.item.is_default,
            Err(e) => r == Err::<ItemWrite, DictionaryError>(e),
        },
        r is Ok <==> item_check(request.value@, request.label@, request.sort_order) is Ok,
        r matches Ok(w) ==> w.item.id@ == item_id@ && w.item.type_id@ == request.type_id@
            && w.item.value@ == trimmed(request.value@) && w.item.label@ == trimmed(request.label@)
            && w.item.sort_order == request.sort_order && w.item.enabled == request.enabled
            && w.item.is_default == (request.is_default && request.enabled)
            && w.clears_other_defaults == w.item.is_default,
{
    item_write(
        String::from_str(item_id),
        copy_string(&request.type_id),
        &request.value,
        &request.label,
        request.sort_order,
        request.is_default,
        request.enabled,
    )
}

proof fn lemma_items_for_step(rows: Seq<DictionaryItemRow>, j: int, type_id: Seq<char>)
    requires
        0 <= j < rows.len(),
    ensures
        items_for(row_models(rows.take(j + 1)), type_id) == (if rows[j].type_id@ == type_id {
            items_for(row_models(rows.take(j)), type_id).push(rows[j]@)
        } else {
            items_for(row_models(rows.take(j)), type_id)
        }),
{
    assert(row_models(rows.take(j + 1)).drop_last() =~= row_models(rows.take(j)));
    assert(row_models(rows.take(j + 1)).last() == rows[j]@);
}

/// The items of `rows` that belong to the type `type_id`, in row order.
fn collect_items(rows: &Vec<DictionaryItemRow>, type_id: &String) -> (r: Vec<DictionaryItem>)
    ensures
        r@.map_values(|i: DictionaryItem| i@) == items_for(row_models(rows@), type_id@),
{
    let mut r: Vec<DictionaryItem> = Vec::new();
    let mut j: usize = 0;
    while j < rows.len()
        invariant
            j <= rows@.len(),
            r@.map_values(|i: DictionaryItem| i@) == items_for(
                row_models(rows@.take(j as int)),
                type_id@,
            ),
        decreases rows@.len() - j,
    {
        proof {
            lemma_items_for_step(rows@, j as int, type_id@);
        }
        if rows[j].type_id == *type_id {
            let ghost before = r@;
            let item = rows[j].to_item();
            r.push(item);
            assert(r@ == before.push(item));
            assert(r@.map_values(|i: DictionaryItem| i@) =~= before.map_values(
                |i: DictionaryItem| i@,
            ).push(item@));
        }
        j = j + 1;
    }
    assert(rows@.take(j as int) =~= rows@);
    r
}

/// Assembles a tenant's view from its stored rows: one type per type row, in
/// row order, each with the item rows that name it, in row order.
pub fn assemble_view(type_rows: Vec<DictionaryTypeRow>, item_rows: Vec<DictionaryItemRow>) -> (r:
    DictionaryView)
    ensures
        r@.len() == type_rows@.len(),
        forall|i: int|
            0 <= i < type_rows@.len() ==> #[trigger] r@[i] == assembled_type(
                type_rows@[i]@,
                row_models(item_rows@),
            ),
        forall|i: int|
            0 <= i < type_rows@.len() ==> {
                &&& #[trigger] r@[i].id == type_rows@[i].id@
                &&& r@[i].code == type_rows@[i].code@
                &&& r@[i].name == type_rows@[i].name@
                &&& r@[i].description == type_rows@[i].description@
                &&& r@[i].enabled == type_rows@[i].enabled
                &&& r@[i].items == row_models(item_rows@).filter(
                    |m: ItemModel| m.type_id == type_rows@[i].id@,
                )
            },
{
    let mut types: Vec<DictionaryType> = Vec::new();
    let mut i: usize = 0;
    while i < type_rows.len()
        invariant
            i <= type_rows@.len(),
            types@.len() == i,
            forall|k: int|
                0 <= k < i ==> #[trigger] types@[k]@ == assembled_type(
                    type_rows@[k]@,
                    row_models(item_rows@),
                ),
        decreases type_rows@.len() - i,
    {
        let row = &type_rows[i];
        let items = collect_items(&item_rows, &row.id);
        let t = DictionaryType {
            id: copy_string(&row.id),
            code: copy_string(&row.code),
            name: copy_string(&row.name),
            description: copy_string(&row.description),
            enabled: row.enabled,
            items,
        };
        types.push(t);
        i = i + 1;
    }
    proof {
        assert forall|k: int| 0 <= k < type_rows@.len() implies #[trigger] types@[k]@.items
            == row_models(item_rows@).filter(|m: ItemModel| m.type_id == type_rows@[k].id@) by {
            law_assembled_type_fields(type_rows@[k]@, row_models(item_rows@));
        }
    }
    let r = DictionaryView { types };
    assert forall|k: int| 0 <= k < type_rows@.len() implies #[trigger] r@[k] == types@[k]@ by {}
    r
}

} // verus!
