use aio_plugin_dictionary::client::{
    default_api_base, endpoint_url, item_resource_path, type_resource_path,
};
use aio_plugin_dictionary::dialogs::{create_item_request, create_type_request, item_draft, type_draft};
use aio_plugin_dictionary::model::{DictionaryItem, DictionaryType};
use aio_plugin_dictionary::page::{
    contains_str, filter_items_by_status, item_table_columns, status_filter_options, ColumnAlign, filter_types, item_search_text, item_sort_value,
    selected_type_index, type_text_matches, SortValue,
};
use aio_plugin_dictionary::plugin::DictionaryPlugin;

fn dictionary_type(id: &str, code: &str, name: &str, items: Vec<DictionaryItem>) -> DictionaryType {
    DictionaryType {
        id: id.to_owned(),
        code: code.to_owned(),
        name: name.to_owned(),
        description: "说明".to_owned(),
        enabled: true,
        items,
    }
}

fn item(id: &str, label: &str, value: &str, enabled: bool) -> DictionaryItem {
    DictionaryItem {
        id: id.to_owned(),
        type_id: "t".to_owned(),
        value: value.to_owned(),
        label: label.to_owned(),
        sort_order: 7,
        is_default: false,
        enabled,
    }
}

#[test]
fn contributes_dictionary_under_system_management_tree() {
    let pages = DictionaryPlugin.pages();

    assert_eq!(pages.len(), 1);
    assert_eq!(pages[0].scene.id, "system");
    assert_eq!(pages[0].menu_path.len(), 1);
    assert_eq!(pages[0].menu_path[0].id, "system-management");
    assert_eq!(pages[0].required_permission.as_deref(), Some("dictionary:manage"));
}

#[test]
fn dictionary_page_entry_details() {
    let page = &DictionaryPlugin.pages()[0];
    assert_eq!(page.id, "dictionary-management");
    assert_eq!(page.label, "字典管理");
    assert_eq!(page.icon.as_deref(), Some("book-open"));
    assert_eq!(page.scene.label, "系统");
    assert_eq!(page.menu_path[0].label, "系统管理");
    assert_eq!(page.menu_path[0].icon.as_deref(), Some("settings"));
}

#[test]
fn endpoint_drops_trailing_slashes_of_the_base() {
    assert_eq!(endpoint_url("http://host:1//", "/api/dictionaries"), "http://host:1/api/dictionaries");
    assert_eq!(endpoint_url("http://host:1", "/api"), "http://host:1/api");
    assert_eq!(endpoint_url("///", "/api"), "/api");
    assert_eq!(endpoint_url(&default_api_base(), "/x"), "http://127.0.0.1:4173/x");
}

#[test]
fn resource_paths() {
    assert_eq!(type_resource_path("abc"), "/api/dictionaries/types/abc");
    assert_eq!(item_resource_path("i-1"), "/api/dictionaries/items/i-1");
}

#[test]
fn substring_search() {
    assert!(contains_str("订单状态 order-status", "status"));
    assert!(contains_str("abc", ""));
    assert!(contains_str("", ""));
    assert!(!contains_str("", "a"));
    assert!(!contains_str("abc", "abcd"));
    assert!(contains_str("aab", "ab"));
    assert!(!contains_str("abc", "ac"));
    assert!(type_text_matches("订单状态 order-status", "单状"));
}

#[test]
fn type_search_is_case_insensitive_over_name_and_code() {
    let types = vec![
        dictionary_type("1", "order-status", "订单状态", vec![]),
        dictionary_type("2", "Gender", "性别", vec![]),
        dictionary_type("3", "pay", "支付方式", vec![]),
    ];
    let ids = |found: Vec<DictionaryType>| found.into_iter().map(|t| t.id).collect::<Vec<_>>();
    assert_eq!(ids(filter_types(&types, "")), vec!["1", "2", "3"]);
    assert_eq!(ids(filter_types(&types, "ORDER")), vec!["1"]);
    assert_eq!(ids(filter_types(&types, "gender")), vec!["2"]);
    assert_eq!(ids(filter_types(&types, "支付")), vec!["3"]);
    assert_eq!(ids(filter_types(&types, "态 or")), vec!["1"]);
    assert!(filter_types(&types, "missing").is_empty());
}

#[test]
fn status_filter() {
    let items = vec![item("a", "A", "a", true), item("b", "B", "b", false), item("c", "C", "c", true)];
    let ids = |found: Vec<DictionaryItem>| found.into_iter().map(|i| i.id).collect::<Vec<_>>();
    assert_eq!(ids(filter_items_by_status(&items, "all")), vec!["a", "b", "c"]);
    assert_eq!(ids(filter_items_by_status(&items, "enabled")), vec!["a", "c"]);
    assert_eq!(ids(filter_items_by_status(&items, "disabled")), vec!["b"]);
}

#[test]
fn selection_falls_back_to_the_first_type() {
    let types = vec![
        dictionary_type("1", "a", "A", vec![]),
        dictionary_type("2", "b", "B", vec![]),
    ];
    assert_eq!(selected_type_index(&types, &"2".to_owned()), Some(1));
    assert_eq!(selected_type_index(&types, &"".to_owned()), Some(0));
    assert_eq!(selected_type_index(&types, &"9".to_owned()), Some(0));
    assert_eq!(selected_type_index(&vec![], &"1".to_owned()), None);
}

#[test]
fn item_sorting_and_search_text() {
    let i = item("a", "已支付", "paid", true);
    assert_eq!(item_sort_value(&i, "order"), SortValue::Number(7));
    assert_eq!(item_sort_value(&i, "value"), SortValue::Text("paid".to_owned()));
    assert_eq!(item_sort_value(&i, "label"), SortValue::Text("已支付".to_owned()));
    assert_eq!(item_sort_value(&i, "status"), SortValue::Text("已支付".to_owned()));
    assert_eq!(item_search_text(&i), "已支付 paid");
}

#[test]
fn editor_drafts() {
    let t = dictionary_type("1", "order-status", "订单状态", vec![]);
    let draft = type_draft(Some(&t));
    assert_eq!(draft.code, "order-status");
    assert_eq!(draft.name, "订单状态");
    assert_eq!(draft.description, "说明");
    assert!(draft.enabled);
    let blank = type_draft(None);
    assert!(blank.code.is_empty() && blank.name.is_empty() && blank.description.is_empty());
    assert!(blank.enabled);
    let create = create_type_request(draft);
    assert_eq!(create.code, "order-status");

    let i = DictionaryItem { is_default: true, enabled: false, ..item("x", "标签", "v", false) };
    let draft = item_draft("t9".to_owned(), Some(&i));
    assert_eq!(draft.type_id, "t9");
    assert_eq!((draft.value.as_str(), draft.label.as_str()), ("v", "标签"));
    assert_eq!(draft.sort_order, 7);
    assert!(draft.is_default && !draft.enabled);
    let blank = item_draft("t9".to_owned(), None);
    assert!(blank.value.is_empty() && blank.label.is_empty());
    assert_eq!(blank.sort_order, 0);
    assert!(!blank.is_default && blank.enabled);
    let create = create_item_request(blank);
    assert_eq!(create.type_id, "t9");
    assert!(create.enabled);
}

#[test]
fn item_table_layout() {
    let columns = item_table_columns();
    let keys: Vec<_> = columns.iter().map(|c| (c.key.as_str(), c.title.as_str(), c.width)).collect();
    assert_eq!(
        keys,
        vec![("label", "显示标签", 180), ("value", "字典值", 160), ("order", "排序", 100), ("status", "状态", 150), ("actions", "操作", 100)]
    );
    assert_eq!(columns[2].align, ColumnAlign::End);
    assert_eq!(columns[0].align, ColumnAlign::Start);
    let options = status_filter_options();
    assert_eq!(options[0], ("all".to_owned(), "全部状态".to_owned()));
    assert_eq!(options[1], ("enabled".to_owned(), "启用".to_owned()));
    assert_eq!(options[2], ("disabled".to_owned(), "停用".to_owned()));
}
