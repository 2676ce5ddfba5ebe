//! Requests and views shared by the dictionary client and server, the rows
//! that storage returns, and their mathematical models.
use vstd::prelude::*;

verus! {

/// All dictionary types of one tenant, each with its items.
#[derive(Debug, Clone, PartialEq, Eq)]
pub struct DictionaryView {
    pub types: Vec<DictionaryType>,
}

/// A dictionary type and the items that belong to it.
#[derive(Debug, Clone, PartialEq, Eq)]
pub struct DictionaryType {
    pub id: String,
    pub code: String,
    pub name: String,
    pub description: String,
    pub enabled: bool,
    pub items: Vec<DictionaryItem>,
}

/// One entry of a dictionary type.
#[derive(Debug, Clone, PartialEq, Eq)]
pub struct DictionaryItem {
    pub id: String,
    pub type_id: String,
    pub value: String,
    pub label: String,
    pub sort_order: i32,
    pub is_default: bool,
    pub enabled: bool,
}

/// Request body that creates a dictionary type. It carries no tenant: the
/// tenant always comes from the session.
#[derive(Debug, Clone, PartialEq, Eq)]
pub struct CreateDictionaryTypeRequest {
    pub code: String,
    pub name: String,
    pub description: String,
    pub enabled: bool,
}

/// Request body that replaces the fields of a dictionary type.
#[derive(Debug, Clone, PartialEq, Eq)]
pub struct UpdateDictionaryTypeRequest {
    pub code: String,
    pub name: String,
    pub description: String,
    pub enabled: bool,
}

/// Request body that creates a dictionary item.
#[derive(Debug, Clone, PartialEq, Eq)]
pub struct CreateDictionaryItemRequest {
    pub type_id: String,
    pub value: String,
    pub label: String,
    pub sort_order: i32,
    pub is_default: bool,
    pub enabled: bool,
}

/// Request body that replaces the fields of a dictionary item.
#[derive(Debug, Clone, PartialEq, Eq)]
pub struct UpdateDictionaryItemRequest {
    pub type_id: String,
    pub value: String,
    pub label: String,
    pub sort_order: i32,
    pub is_default: bool,
    pub enabled: bool,
}

/// Envelope of every successful response body.
#[derive(Debug, Clone, PartialEq, Eq)]
pub struct DictionaryResponse<T> {
    pub data: T,
}

/// Body of every failed response.
#[derive(Debug, Clone, PartialEq, Eq)]
pub struct DictionaryErrorResponse {
    pub error: String,
}

/// A `dictionary_types` row of one tenant, as storage returns it.
#[derive(Debug, Clone, PartialEq, Eq)]
pub struct DictionaryTypeRow {
    pub id: String,
    pub code: String,
    pub name: String,
    pub description: String,
    pub enabled: bool,
}

/// A `dictionary_items` row of one tenant, as storage returns it.
#[derive(Debug, Clone, PartialEq, Eq)]
pub struct DictionaryItemRow {
    pub id: String,
    pub type_id: String,
    pub value: String,
    pub label: String,
    pub sort_order: i32,
    pub is_default: bool,
    pub enabled: bool,
}

/// Model of a dictionary item.
pub struct ItemModel {
    pub id: Seq<char>,
    pub type_id: Seq<char>,
    pub value: Seq<char>,
    pub label: Seq<char>,
    pub sort_order: i32,
    pub is_default: bool,
    pub enabled: bool,
}

/// Model of a dictionary type without its items.
pub struct TypeRowModel {
    pub id: Seq<char>,
    pub code: Seq<char>,
    pub name: Seq<char>,
    pub description: Seq<char>,
    pub enabled: bool,
}

/// Model of a dictionary type with its items.
pub struct TypeModel {
    pub id: Seq<char>,
    pub code: Seq<char>,
    pub name: Seq<char>,
    pub description: Seq<char>,
    pub enabled: bool,
    pub items: Seq<ItemModel>,
}

impl View for DictionaryItem {
    type V = ItemModel;

    open spec fn view(&self) -> ItemModel {
        ItemModel {
            id: self.id@,
            type_id: self.type_id@,
            value: self.value@,
            label: self.label@,
            sort_order: self.sort_order,
            is_default: self.is_default,
            enabled: self.enabled,
        }
    }
}

impl View for DictionaryItemRow {
    type V = ItemModel;

    open spec fn view(&self) -> ItemModel {
        ItemModel {
            id: self.id@,
            type_id: self.type_id@,
            value: self.value@,
            label: self.label@,
            sort_order: self.sort_order,
            is_default: self.is_default,
            enabled: self.enabled,
        }
    }
}

impl View for DictionaryTypeRow {
    type V = TypeRowModel;

    open spec fn view(&self) -> TypeRowModel {
        TypeRowModel {
            id: self.id@,
            code: self.code@,
            name: self.name@,
            description: self.description@,
            enabled: self.enabled,
        }
    }
}

/// Models of a sequence of items.
pub open spec fn item_models(items: Seq<DictionaryItem>) -> Seq<ItemModel> {
    items.map_values(|i: DictionaryItem| i@)
}

impl View for DictionaryType {
    type V = TypeModel;

    open spec fn view(&self) -> TypeModel {
        TypeModel {
            id: self.id@,
            code: self.code@,
            name: self.name@,
            description: self.description@,
            enabled: self.enabled,
            items: item_models(self.items@),
        }
    }
}

/// Models of a sequence of types.
pub open spec fn type_models(types: Seq<DictionaryType>) -> Seq<TypeModel> {
    types.map_values(|t: DictionaryType| t@)
}

impl View for DictionaryView {
    type V = Seq<TypeModel>;

    open spec fn view(&self) -> Seq<TypeModel> {
        type_models(self.types@)
    }
}

/// A copy of `s` with the same characters.
pub fn copy_string(s: &String) -> (r: String)
    ensures
        r@ == s@,
{
    s.clone()
}

impl DictionaryItem {
    /// A copy of this item.
    pub fn duplicate(&self) -> (r: DictionaryItem)
        ensures
            r@ == self@,
    {
        DictionaryItem {
            id: copy_string(&self.id),
            type_id: copy_string(&self.type_id),
            value: copy_string(&self.value),
            label: copy_string(&self.label),
            sort_order: self.sort_order,
            is_default: self.is_default,
            enabled: self.enabled,
        }
    }
}

impl DictionaryItemRow {
    /// The item that this row stores.
    pub fn to_item(&self) -> (r: DictionaryItem)
        ensures
            r@ == self@,
    {
        DictionaryItem {
            id: copy_string(&self.id),
            type_id: copy_string(&self.type_id),
            value: copy_string(&self.value),
            label: copy_string(&self.label),
            sort_order: self.sort_order,
            is_default: self.is_default,
            enabled: self.enabled,
        }
    }
}

/// Copies of a sequence of items.
pub fn duplicate_items(items: &Vec<DictionaryItem>) -> (r: Vec<DictionaryItem>)
    ensures
        item_models(r@) == item_models(items@),
{
    let mut r: Vec<DictionaryItem> = Vec::new();
    let mut i: usize = 0;
    while i < items.len()
        invariant
            i <= items@.len(),
            item_models(r@) == item_models(items@.take(i as int)),
        decreases items@.len() - i,
    {
        let ghost before = r@;
        let d = items[i].duplicate();
        r.push(d);
        assert(r@ == before.push(d));
        assert(item_models(before).len() == i);
        assert(item_models(r@).len() == i + 1);
        assert(item_models(r@)[i as int] == d@);
        assert forall|k: int| 0 <= k < i + 1 implies #[trigger] item_models(r@)[k] == item_models(
            items@.take(i as int + 1),
        )[k] by {
            if k < i {
                assert(item_models(before)[k] == item_models(items@.take(i as int))[k]);
            }
        }
        assert(item_models(r@) =~= item_models(items@.take(i as int + 1)));
        i = i + 1;
    }
    assert(items@.take(i as int) =~= items@);
    r
}

impl DictionaryType {
    /// A copy of this type with copies of its items.
    pub fn duplicate(&self) -> (r: DictionaryType)
        ensures
            r@ == self@,
    {
        DictionaryType {
            id: copy_string(&self.id),
            code: copy_string(&self.code),
            name: copy_string(&self.name),
            description: copy_string(&self.description),
            enabled: self.enabled,
            items: duplicate_items(&self.items),
        }
    }
}

} // verus!
