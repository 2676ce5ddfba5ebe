use aio_plugin_dictionary::error::DictionaryError;
use aio_plugin_dictionary::model::{
    CreateDictionaryItemRequest, CreateDictionaryTypeRequest, DictionaryItem, DictionaryItemRow,
    DictionaryType, DictionaryTypeRow, DictionaryView, UpdateDictionaryItemRequest,
    UpdateDictionaryTypeRequest,
};
use aio_plugin_dictionary::service::{
    assemble_view, attach_items, expect_single_row, item_write, new_dictionary_type,
    plan_create_item, plan_create_type, plan_update_item, prepare_type_update,
    require_type_exists,
};

fn is_record_id(id: &str) -> bool {
    id.len() == 32 && id.chars().all(|c| c.is_ascii_digit() || ('a'..='f').contains(&c))
}

fn type_request(code: &str, name: &str, description: &str) -> CreateDictionaryTypeRequest {
    CreateDictionaryTypeRequest {
        code: code.to_owned(),
        name: name.to_owned(),
        description: description.to_owned(),
        enabled: true,
    }
}

fn item(id: &str, type_id: &str, value: &str, sort_order: i32, is_default: bool) -> DictionaryItem {
    DictionaryItem {
        id: id.to_owned(),
        type_id: type_id.to_owned(),
        value: value.to_owned(),
        label: value.to_uppercase(),
        sort_order,
        is_default,
        enabled: true,
    }
}

fn item_row(id: &str, type_id: &str, value: &str, sort_order: i32, is_default: bool) -> DictionaryItemRow {
    DictionaryItemRow {
        id: id.to_owned(),
        type_id: type_id.to_owned(),
        value: value.to_owned(),
        label: value.to_uppercase(),
        sort_order,
        is_default,
        enabled: true,
    }
}

fn type_row(id: &str, code: &str) -> DictionaryTypeRow {
    DictionaryTypeRow {
        id: id.to_owned(),
        code: code.to_owned(),
        name: code.to_uppercase(),
        description: String::new(),
        enabled: true,
    }
}

#[test]
fn created_type_is_trimmed_and_gets_a_fresh_id() {
    let created = plan_create_type(&type_request(" order-status ", " 订单状态\t", " 订单生命周期 ")).unwrap();
    assert!(is_record_id(&created.id), "{}", created.id);
    assert_eq!(created.code, "order-status");
    assert_eq!(created.name, "订单状态");
    assert_eq!(created.description, "订单生命周期");
    assert!(created.enabled);
    assert!(created.items.is_empty());
    let other = plan_create_type(&type_request("order-status", "订单状态", "")).unwrap();
    assert_ne!(created.id, other.id);
}

#[test]
fn created_type_refused_with_the_first_failed_rule() {
    assert_eq!(
        plan_create_type(&type_request("订单", "订单状态", "")),
        Err(DictionaryError::TypeCodeCharacters)
    );
    assert_eq!(
        new_dictionary_type("id".to_owned(), &type_request("ab", "", "")),
        Err(DictionaryError::TypeNameLength)
    );
}

#[test]
fn new_type_keeps_the_given_id() {
    let t = new_dictionary_type("abc".to_owned(), &type_request("ab", "名", "")).unwrap();
    assert_eq!(t.id, "abc");
    assert_eq!(t.code, "ab");
}

#[test]
fn type_update_keeps_the_id_and_attaches_refreshed_items() {
    let request = UpdateDictionaryTypeRequest {
        code: " status ".to_owned(),
        name: "状态".to_owned(),
        description: "  ".to_owned(),
        enabled: false,
    };
    let updated = prepare_type_update("t1", &request).unwrap();
    assert_eq!(updated.id, "t1");
    assert_eq!(updated.code, "status");
    assert_eq!(updated.description, "");
    assert!(!updated.enabled);
    let refreshed = DictionaryView {
        types: vec![
            DictionaryType { id: "t0".into(), code: "a".into(), name: "a".into(), description: String::new(), enabled: true, items: vec![item("x", "t0", "x", 1, false)] },
            DictionaryType { id: "t1".into(), code: "old".into(), name: "旧".into(), description: String::new(), enabled: true, items: vec![item("i1", "t1", "paid", 20, true)] },
        ],
    };
    let done = attach_items(updated.clone(), &refreshed).unwrap();
    assert_eq!(done.code, "status");
    assert_eq!(done.name, "状态");
    assert_eq!(done.items, vec![item("i1", "t1", "paid", 20, true)]);
    let empty = DictionaryView { types: vec![] };
    assert_eq!(attach_items(updated, &empty), Err(DictionaryError::UpdatedTypeMissing));
}

#[test]
fn statements_must_touch_exactly_one_row() {
    assert_eq!(expect_single_row(1, DictionaryError::TypeNotFound), Ok(()));
    assert_eq!(expect_single_row(0, DictionaryError::TypeNotFound), Err(DictionaryError::TypeNotFound));
    assert_eq!(expect_single_row(2, DictionaryError::ItemNotFound), Err(DictionaryError::ItemNotFound));
    assert_eq!(require_type_exists(true), Ok(()));
    assert_eq!(require_type_exists(false), Err(DictionaryError::TypeNotFound));
}

#[test]
fn only_an_enabled_item_becomes_default_and_then_clears_the_others() {
    let w = item_write("i".into(), "t".into(), " pending ", " 待处理 ", 10, true, true).unwrap();
    assert!(w.item.is_default);
    assert!(w.clears_other_defaults);
    assert_eq!(w.item.value, "pending");
    assert_eq!(w.item.label, "待处理");
    let w = item_write("i".into(), "t".into(), "paid", "已支付", 20, true, false).unwrap();
    assert!(!w.item.is_default);
    assert!(!w.clears_other_defaults);
    assert!(!w.item.enabled);
    let w = item_write("i".into(), "t".into(), "paid", "已支付", 20, false, true).unwrap();
    assert!(!w.item.is_default && !w.clears_other_defaults);
    assert_eq!(
        item_write("i".into(), "t".into(), "paid", "已支付", i32::MAX, true, true),
        Err(DictionaryError::SortOrderOutOfRange)
    );
}

#[test]
fn second_default_item_clears_the_first() {
    // Mirrors creating "pending" then "paid" as defaults of one type: both
    // writes clear the type's other defaults before they are stored.
    let first = plan_create_item(&CreateDictionaryItemRequest {
        type_id: "t".into(),
        value: "pending".into(),
        label: "待处理".into(),
        sort_order: 10,
        is_default: true,
        enabled: true,
    })
    .unwrap();
    let second = plan_create_item(&CreateDictionaryItemRequest {
        type_id: "t".into(),
        value: "paid".into(),
        label: "已支付".into(),
        sort_order: 20,
        is_default: true,
        enabled: true,
    })
    .unwrap();
    assert!(is_record_id(&first.item.id) && is_record_id(&second.item.id));
    assert_ne!(first.item.id, second.item.id);
    assert!(first.clears_other_defaults && second.clears_other_defaults);
    assert_eq!(second.item.type_id, "t");
}

#[test]
fn item_update_keeps_the_id() {
    let w = plan_update_item(
        "i9",
        &UpdateDictionaryItemRequest {
            type_id: "t2".into(),
            value: " v ".into(),
            label: "l".into(),
            sort_order: -5,
            is_default: true,
            enabled: true,
        },
    )
    .unwrap();
    assert_eq!(w.item.id, "i9");
    assert_eq!(w.item.type_id, "t2");
    assert_eq!(w.item.value, "v");
    assert_eq!(w.item.sort_order, -5);
    assert!(w.clears_other_defaults);
    let refused = plan_update_item(
        "i9",
        &UpdateDictionaryItemRequest {
            type_id: "t2".into(),
            value: "v".into(),
            label: " ".into(),
            sort_order: 0,
            is_default: false,
            enabled: true,
        },
    );
    assert_eq!(refused, Err(DictionaryError::ItemLabelLength));
}

#[test]
fn view_groups_items_under_their_types_in_row_order() {
    let view = assemble_view(
        vec![type_row("t2", "b"), type_row("t1", "a"), type_row("t3", "c")],
        vec![
            item_row("i1", "t1", "x", 1, false),
            item_row("i2", "t2", "y", 1, true),
            item_row("i3", "t1", "z", 2, true),
            item_row("i4", "gone", "w", 0, false),
        ],
    );
    assert_eq!(view.types.len(), 3);
    assert_eq!(view.types[0].id, "t2");
    assert_eq!(view.types[0].code, "b");
    assert_eq!(view.types[0].name, "B");
    assert_eq!(view.types[0].items, vec![item("i2", "t2", "y", 1, true)]);
    assert_eq!(
        view.types[1].items,
        vec![item("i1", "t1", "x", 1, false), item("i3", "t1", "z", 2, true)]
    );
    assert!(view.types[2].items.is_empty());
    assert!(assemble_view(vec![], vec![item_row("i1", "t1", "x", 1, false)]).types.is_empty());
}
