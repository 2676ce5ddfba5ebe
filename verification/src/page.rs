//! What the dictionary page shows: which type is selected, which types match
//! the search, which items match the status filter, and how items sort.
use vstd::prelude::*;
use crate::model::{item_models, type_models, DictionaryItem, DictionaryType, ItemModel, TypeModel};
use crate::text::{chars_of, contains_seq};

verus! {

/// What `str::to_lowercase` returns for `s`.
pub uninterp spec fn lowercase(s: Seq<char>) -> Seq<char>;

/// Calls `str::to_lowercase`, which maps every character to its Unicode
/// lowercase form. Its result is named by `lowercase`; the Unicode mapping
/// itself is not written out here.
#[verifier::external_body]
fn to_lowercase(s: &str) -> (r: String)
    ensures
        r@ == lowercase(s@),
{
    s.to_lowercase()
}

/// Whether `haystack` holds `needle` as a contiguous run (`str::contains`).
pub fn contains_str(haystack: &str, needle: &str) -> (r: bool)
    ensures
        r == contains_seq(haystack@, needle@),
{
    let h = chars_of(haystack);
    let n = chars_of(needle);
    if n.len() == 0 {
        assert(haystack@.subrange(0, 0int + needle@.len()) =~= needle@);
        return true;
    }
    if n.len() > h.len() {
        return false;
    }
    let last = h.len() - n.len();
    let mut i: usize = 0;
    while i <= last
        invariant
            1 <= n@.len(),
            h@.len() <= usize::MAX,
            h@ == haystack@,
            n@ == needle@,
            last == h@.len() - n@.len(),
            n@.len() <= h@.len(),
            forall|j: int| 0 <= j < i ==> #[trigger] h@.subrange(j, j + n@.len()) != n@,
        decreases last + 1 - i,
    {
        let mut k: usize = 0;
        while k < n.len() && h[i + k] == n[k]
            invariant
                h@ == haystack@,
                n@ == needle@,
                i + n@.len() <= h@.len(),
                h@.len() <= usize::MAX,
                i <= last,
                last == h@.len() - n@.len(),
                k <= n@.len(),
                forall|q: int| 0 <= q < k ==> h@[i + q] == #[trigger] n@[q],
            decreases n@.len() - k,
        {
            k = k + 1;
        }
        if k == n.len() {
            assert(h@.subrange(i as int, i + n@.len()) =~= n@);
            return true;
        }
        assert(h@.subrange(i as int, i + n@.len())[k as int] != n@[k as int]);
        i = i + 1;
    }
    assert forall|j: int|
        0 <= j && j + needle@.len() <= haystack@.len() implies #[trigger] haystack@.subrange(
        j,
        j + needle@.len(),
    ) != needle@ by {
        assert(j < i);
    }
    false
}

/// The text the type search runs over: name, a space, code.
pub open spec fn type_search_text(t: TypeModel) -> Seq<char> {
    t.name + " "@ + t.code
}

/// A type matches the search when its lowercased search text holds the
/// lowercased search.
pub open spec fn matches_search(t: TypeModel, search: Seq<char>) -> bool {
    contains_seq(lowercase(type_search_text(t)), lowercase(search))
}

/// The types of `types` that match `search`, in order.
pub open spec fn types_matching(types: Seq<TypeModel>, search: Seq<char>) -> Seq<TypeModel>
    decreases types.len(),
{
    if types.len() == 0 {
        Seq::empty()
    } else {
        let before = types_matching(types.drop_last(), search);
        if matches_search(types.last(), search) {
            before.push(types.last())
        } else {
            before
        }
    }
}

/// Whether a type whose lowercased search text is `text_lowered` matches the
/// lowercased search `search_lowered`.
pub fn type_text_matches(text_lowered: &str, search_lowered: &str) -> (r: bool)
    ensures
        r == contains_seq(text_lowered@, search_lowered@),
{
    contains_str(text_lowered, search_lowered)
}

/// The types that match the search box, in order.
pub fn filter_types(types: &Vec<DictionaryType>, search: &str) -> (r: Vec<DictionaryType>)
    ensures
        type_models(r@) == types_matching(type_models(types@), search@),
        type_models(r@) == type_models(types@).filter(|t: TypeModel| matches_search(t, search@)),
{
    proof {
        law_type_search(type_models(types@), search@);
    }
    let search_lowered = to_lowercase(search);
    let mut r: Vec<DictionaryType> = Vec::new();
    let mut i: usize = 0;
    while i < types.len()
        invariant
            i <= types@.len(),
            search_lowered@ == lowercase(search@),
            type_models(r@) == types_matching(type_models(types@.take(i as int)), search@),
        decreases types@.len() - i,
    {
        let t = &types[i];
        let text = t.name.clone().concat(" ").concat(t.code.as_str());
        let text_lowered = to_lowercase(text.as_str());
        assert(text@ == type_search_text(t@));
        assert(type_models(types@.take(i as int + 1)).drop_last() =~= type_models(
            types@.take(i as int),
        ));
        assert(type_models(types@.take(i as int + 1)).last() == t@);
        if type_text_matches(text_lowered.as_str(), search_lowered.as_str()) {
            let ghost before = r@;
            let d = t.duplicate();
            r.push(d);
            assert(type_models(r@) =~= type_models(before).push(d@));
        }
        i = i + 1;
    }
    assert(types@.take(i as int) =~= types@);
    r
}

/// Whether the status filter `status` shows an item that is `enabled`:
/// `all` shows every item, `enabled` the enabled ones, anything else the
/// disabled ones.
pub open spec fn status_shows(status: Seq<char>, enabled: bool) -> bool {
    status == "all"@ || enabled == (status == "enabled"@)
}

/// The items of `items` that the status filter shows, in order.
pub open spec fn items_shown(items: Seq<ItemModel>, status: Seq<char>) -> Seq<ItemModel>
    decreases items.len(),
{
    if items.len() == 0 {
        Seq::empty()
    } else {
        let before = items_shown(items.drop_last(), status);
        if status_shows(status, items.last().enabled) {
            before.push(items.last())
        } else {
            before
        }
    }
}

/// The status filter `all` shows every item, `enabled` exactly the enabled
/// items, and any other value exactly the disabled items; what it shows is the
/// items it accepts, in their order.
pub proof fn law_status_filter(items: Seq<ItemModel>, status: Seq<char>)
    ensures
        items_shown(items, status) == items.filter(|i: ItemModel| status_shows(status, i.enabled)),
        status == "all"@ ==> items_shown(items, status) == items,
        forall|enabled: bool| #[trigger] status_shows("all"@, enabled),
        forall|enabled: bool| #[trigger] status_shows("enabled"@, enabled) == enabled,
        forall|other: Seq<char>, enabled: bool|
            other != "all"@ && other != "enabled"@ ==> #[trigger] status_shows(other, enabled) == !enabled,
    decreases items.len(),
{
    assert("all"@ != "enabled"@) by {
        reveal_strlit("all");
        reveal_strlit("enabled");
        assert("all"@.len() != "enabled"@.len());
    }
    reveal(Seq::filter);
    if items.len() > 0 {
        law_status_filter(items.drop_last(), status);
        if status == "all"@ {
            assert(items.drop_last().push(items.last()) =~= items);
        }
    } else {
        if status == "all"@ {
            assert(items =~= Seq::<ItemModel>::empty());
        }
    }
}

/// The types that match the search are exactly the types whose lowercased
/// name-and-code text holds the lowercased search, in their order.
pub proof fn law_type_search(types: Seq<TypeModel>, search: Seq<char>)
    ensures
        types_matching(types, search) == types.filter(|t: TypeModel| matches_search(t, search)),
    decreases types.len(),
{
    reveal(Seq::filter);
    if types.len() > 0 {
        law_type_search(types.drop_last(), search);
    }
}

/// The items of the selected type that the status filter shows, in order.
pub fn filter_items_by_status(items: &Vec<DictionaryItem>, status: &str) -> (r: Vec<DictionaryItem>)
    ensures
        item_models(r@) == items_shown(item_models(items@), status@),
        item_models(r@) == item_models(items@).filter(
            |i: ItemModel| status_shows(status@, i.enabled),
        ),
{
    proof {
        law_status_filter(item_models(items@), status@);
    }
    let status = String::from_str(status);
    let all = status == String::from_str("all");
    let enabled_only = status == String::from_str("enabled");
    let mut r: Vec<DictionaryItem> = Vec::new();
    let mut i: usize = 0;
    while i < items.len()
        invariant
            i <= items@.len(),
            all == (status@ == "all"@),
            enabled_only == (status@ == "enabled"@),
            item_models(r@) == items_shown(item_models(items@.take(i as int)), status@),
        decreases items@.len() - i,
    {
        let item = &items[i];
        assert(item_models(items@.take(i as int + 1)).drop_last() =~= item_models(
            items@.take(i as int),
        ));
        assert(item_models(items@.take(i as int + 1)).last() == item@);
        if all || item.enabled == enabled_only {
            let ghost before = r@;
            let d = item.duplicate();
            r.push(d);
            assert(item_models(r@) =~= item_models(before).push(d@));
        }
        i = i + 1;
    }
    assert(items@.take(i as int) =~= items@);
    r
}

/// Which type the page shows: the first whose id is `selected_id`, else the
/// first type, else none.
pub fn selected_type_index(types: &Vec<DictionaryType>, selected_id: &String) -> (r: Option<usize>)
    ensures
        match r {
            Some(i) => i < types@.len() && (if exists|k: int|
                0 <= k < types@.len() && #[trigger] types@[k].id@ == selected_id@ {
                types@[i as int].id@ == selected_id@ && forall|k: int|
                    0 <= k < i ==> #[trigger] types@[k].id@ != selected_id@
            } else {
                i == 0
            }),
            None => types@.len() == 0,
        },
{
    let mut i: usize = 0;
    while i < types.len()
        invariant
            i <= types@.len(),
            forall|k: int| 0 <= k < i ==> #[trigger] types@[k].id@ != selected_id@,
        decreases types@.len() - i,
    {
        if types[i].id == *selected_id {
            return Some(i);
        }
        i = i + 1;
    }
    if types.len() == 0 {
        None
    } else {
        Some(0)
    }
}

/// How a table column aligns its cells.
#[derive(Debug, Clone, Copy, PartialEq, Eq, Structural)]
pub enum ColumnAlign {
    Start,
    End,
}

/// A column of the item table: its key, title, width in pixels and alignment.
#[derive(Debug, Clone, PartialEq, Eq)]
pub struct ColumnEntry {
    pub key: String,
    pub title: String,
    pub width: u32,
    pub align: ColumnAlign,
}

/// The column `c` has this key, title, width and alignment.
pub open spec fn is_column(c: ColumnEntry, key: Seq<char>, title: Seq<char>, width: u32, align: ColumnAlign) -> bool {
    c.key@ == key && c.title@ == title && c.width == width && c.align == align
}

fn column(key: &str, title: &str, width: u32, align: ColumnAlign) -> (c: ColumnEntry)
    ensures
        is_column(c, key@, title@, width, align),
{
    ColumnEntry { key: String::from_str(key), title: String::from_str(title), width, align }
}

/// The columns of the item table: label, value, order (aligned to the end),
/// status and actions.
pub fn item_table_columns() -> (r: Vec<ColumnEntry>)
    ensures
        r@.len() == 5,
        is_column(r@[0], "label"@, "显示标签"@, 180, ColumnAlign::Start),
        is_column(r@[1], "value"@, "字典值"@, 160, ColumnAlign::Start),
        is_column(r@[2], "order"@, "排序"@, 100, ColumnAlign::End),
        is_column(r@[3], "status"@, "状态"@, 150, ColumnAlign::Start),
        is_column(r@[4], "actions"@, "操作"@, 100, ColumnAlign::Start),
{
    let mut r: Vec<ColumnEntry> = Vec::new();
    r.push(column("label", "显示标签", 180, ColumnAlign::Start));
    r.push(column("value", "字典值", 160, ColumnAlign::Start));
    r.push(column("order", "排序", 100, ColumnAlign::End));
    r.push(column("status", "状态", 150, ColumnAlign::Start));
    r.push(column("actions", "操作", 100, ColumnAlign::Start));
    r
}

/// The choices of the status filter, as (value, label) pairs: all, enabled,
/// disabled.
pub fn status_filter_options() -> (r: Vec<(String, String)>)
    ensures
        r@.len() == 3,
        r@[0].0@ == "all"@ && r@[0].1@ == "全部状态"@,
        r@[1].0@ == "enabled"@ && r@[1].1@ == "启用"@,
        r@[2].0@ == "disabled"@ && r@[2].1@ == "停用"@,
{
    let mut r: Vec<(String, String)> = Vec::new();
    r.push((String::from_str("all"), String::from_str("全部状态")));
    r.push((String::from_str("enabled"), String::from_str("启用")));
    r.push((String::from_str("disabled"), String::from_str("停用")));
    r
}

/// A key the item table sorts by.
#[derive(Debug, Clone, PartialEq, Eq)]
pub enum SortValue {
    Number(i64),
    Text(String),
}

/// What the item table sorts by for the column `key`: the sort order for
/// `order`, the value for `value`, the label otherwise.
pub fn item_sort_value(item: &DictionaryItem, key: &str) -> (r: SortValue)
    ensures
        match r {
            SortValue::Number(n) => key@ == "order"@ && n == item.sort_order as i64,
            SortValue::Text(t) => key@ != "order"@ && t@ == (if key@ == "value"@ {
                item.value@
            } else {
                item.label@
            }),
        },
{
    let key = String::from_str(key);
    if key == String::from_str("order") {
        SortValue::Number(item.sort_order as i64)
    } else if key == String::from_str("value") {
        SortValue::Text(item.value.clone())
    } else {
        SortValue::Text(item.label.clone())
    }
}

/// The text the item table searches: label, a space, value.
pub fn item_search_text(item: &DictionaryItem) -> (r: String)
    ensures
        r@ == item.label@ + " "@ + item.value@,
{
    item.label.clone().concat(" ").concat(item.value.as_str())
}

} // verus!
