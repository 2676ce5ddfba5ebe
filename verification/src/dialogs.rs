//! The drafts that the type and item editors start from and what they submit.
use vstd::prelude::*;
use crate::model::{
    copy_string, CreateDictionaryItemRequest, CreateDictionaryTypeRequest, DictionaryItem,
    DictionaryType, UpdateDictionaryItemRequest, UpdateDictionaryTypeRequest,
};

verus! {

/// The draft the type editor opens with: the fields of the edited type, or an
/// empty enabled type when a new one is created.
pub fn type_draft(value: Option<&DictionaryType>) -> (r: UpdateDictionaryTypeRequest)
    ensures
        match value {
            Some(t) => r.code@ == t.code@ && r.name@ == t.name@ && r.description@ == t.description@
                && r.enabled == t.enabled,
            None => r.code@.len() == 0 && r.name@.len() == 0 && r.description@.len() == 0
                && r.enabled,
        },
{
    match value {
        Some(t) => UpdateDictionaryTypeRequest {
            code: copy_string(&t.code),
            name: copy_string(&t.name),
            description: copy_string(&t.description),
            enabled: t.enabled,
        },
        None => UpdateDictionaryTypeRequest {
            code: String::new(),
            name: String::new(),
            description: String::new(),
            enabled: true,
        },
    }
}

/// The draft the item editor opens with, for an item of the type `type_id`:
/// the fields of the edited item, or an empty enabled non-default item with
/// sort order 0 when a new one is created.
pub fn item_draft(type_id: String, value: Option<&DictionaryItem>) -> (r: UpdateDictionaryItemRequest)
    ensures
        r.type_id == type_id,
        match value {
            Some(i) => r.value@ == i.value@ && r.label@ == i.label@ && r.sort_order == i.sort_order
                && r.is_default == i.is_default && r.enabled == i.enabled,
            None => r.value@.len() == 0 && r.label@.len() == 0 && r.sort_order == 0
                && !r.is_default && r.enabled,
        },
{
    match value {
        Some(i) => UpdateDictionaryItemRequest {
            type_id,
            value: copy_string(&i.value),
            label: copy_string(&i.label),
            sort_order: i.sort_order,
            is_default: i.is_default,
            enabled: i.enabled,
        },
        None => UpdateDictionaryItemRequest {
            type_id,
            value: String::new(),
            label: String::new(),
            sort_order: 0,
            is_default: false,
            enabled: true,
        },
    }
}

/// The create request a new type's draft is submitted as.
pub fn create_type_request(draft: UpdateDictionaryTypeRequest) -> (r: CreateDictionaryTypeRequest)
    ensures
        r.code == draft.code,
        r.name == draft.name,
        r.description == draft.description,
        r.enabled == draft.enabled,
{
    CreateDictionaryTypeRequest {
        code: draft.code,
        name: draft.name,
        description: draft.description,
        enabled: draft.enabled,
    }
}

/// The create request a new item's draft is submitted as.
pub fn create_item_request(draft: UpdateDictionaryItemRequest) -> (r: CreateDictionaryItemRequest)
    ensures
        r.type_id == draft.type_id,
        r.value == draft.value,
        r.label == draft.label,
        r.sort_order == draft.sort_order,
        r.is_default == draft.is_default,
        r.enabled == draft.enabled,
{
    CreateDictionaryItemRequest {
        type_id: draft.type_id,
        value: draft.value,
        label: draft.label,
        sort_order: draft.sort_order,
        is_default: draft.is_default,
        enabled: draft.enabled,
    }
}

} // verus!
