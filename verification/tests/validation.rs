use aio_plugin_dictionary::error::DictionaryError;
use aio_plugin_dictionary::text::{code_char, trim, white_space};
use aio_plugin_dictionary::validation::{validate_item, validate_type};

#[test]
fn validates_portable_type_codes() {
    assert!(validate_type("order.status", "订单状态", "").is_ok());
    assert!(validate_type("订单", "订单状态", "").is_err());
    assert!(validate_type("x", "订单状态", "").is_err());
}

#[test]
fn validates_item_bounds() {
    assert!(validate_item("paid", "已支付", 10).is_ok());
    assert!(validate_item("", "已支付", 10).is_err());
    assert!(validate_item("paid", "已支付", i32::MAX).is_err());
}

#[test]
fn white_space_agrees_with_std_for_every_char() {
    for code in 0u32..=0x10FFFF {
        if let Some(c) = char::from_u32(code) {
            assert_eq!(white_space(c), c.is_whitespace(), "U+{code:04X}");
        }
    }
}

#[test]
fn code_char_accepts_ascii_alphanumerics_and_three_marks() {
    for code in 0u32..=0x10FFFF {
        if let Some(c) = char::from_u32(code) {
            let expected = c.is_ascii_alphanumeric() || matches!(c, '-' | '_' | '.');
            assert_eq!(code_char(c), expected, "U+{code:04X}");
        }
    }
}

#[test]
fn trim_agrees_with_std() {
    let samples = [
        "",
        "   ",
        "  order-status  ",
        "\t\n订单\u{3000}",
        "\u{A0}\u{2028}x y\u{85}",
        "a",
        " a ",
        "\u{200B}zero-width\u{200B}",
    ];
    for s in samples {
        assert_eq!(trim(s), s.trim(), "{s:?}");
    }
}

#[test]
fn trim_twice_is_trim_once() {
    for s in ["  a b  ", "\u{3000}订单\u{3000}", "", "   "] {
        assert_eq!(trim(trim(s)), trim(s));
    }
}

#[test]
fn type_code_length_counts_bytes_before_characters() {
    // One CJK character is three bytes: long enough, but not a code character.
    assert_eq!(validate_type("订", "名称", ""), Err(DictionaryError::TypeCodeCharacters));
    assert_eq!(validate_type("订单", "名称", ""), Err(DictionaryError::TypeCodeCharacters));
    assert_eq!(validate_type("x", "名称", ""), Err(DictionaryError::TypeCodeLength));
    assert_eq!(validate_type("  x  ", "名称", ""), Err(DictionaryError::TypeCodeLength));
    assert_eq!(validate_type("  ab  ", "名称", ""), Ok(()));
    assert_eq!(validate_type(&"a".repeat(64), "名称", ""), Ok(()));
    assert_eq!(validate_type(&"a".repeat(65), "名称", ""), Err(DictionaryError::TypeCodeLength));
    assert_eq!(validate_type("a b", "名称", ""), Err(DictionaryError::TypeCodeCharacters));
    assert_eq!(validate_type("A-Z_0.9", "名称", ""), Ok(()));
}

#[test]
fn type_name_and_description_bounds() {
    assert_eq!(validate_type("ab", "   ", ""), Err(DictionaryError::TypeNameLength));
    assert_eq!(validate_type("ab", &"名".repeat(80), ""), Ok(()));
    assert_eq!(validate_type("ab", &"名".repeat(81), ""), Err(DictionaryError::TypeNameLength));
    assert_eq!(validate_type("ab", "名", &"说".repeat(500)), Ok(()));
    assert_eq!(
        validate_type("ab", "名", &"说".repeat(501)),
        Err(DictionaryError::TypeDescriptionTooLong)
    );
    // The description is counted before trimming.
    assert_eq!(
        validate_type("ab", "名", &" ".repeat(501)),
        Err(DictionaryError::TypeDescriptionTooLong)
    );
    // The code is checked first.
    assert_eq!(validate_type("x", "", &" ".repeat(501)), Err(DictionaryError::TypeCodeLength));
}

#[test]
fn item_value_label_and_order_bounds() {
    assert_eq!(validate_item(&"v".repeat(255), "l", 0), Ok(()));
    assert_eq!(validate_item(&"v".repeat(256), "l", 0), Err(DictionaryError::ItemValueLength));
    assert_eq!(validate_item("  ", "l", 0), Err(DictionaryError::ItemValueLength));
    assert_eq!(validate_item("v", &"标".repeat(120), 0), Ok(()));
    assert_eq!(validate_item("v", &"标".repeat(121), 0), Err(DictionaryError::ItemLabelLength));
    assert_eq!(validate_item("v", "", 0), Err(DictionaryError::ItemLabelLength));
    assert_eq!(validate_item("v", "l", -1_000_000), Ok(()));
    assert_eq!(validate_item("v", "l", 1_000_000), Ok(()));
    assert_eq!(validate_item("v", "l", -1_000_001), Err(DictionaryError::SortOrderOutOfRange));
    assert_eq!(validate_item("v", "l", 1_000_001), Err(DictionaryError::SortOrderOutOfRange));
    assert_eq!(validate_item("", "", i32::MIN), Err(DictionaryError::ItemValueLength));
}

#[test]
fn error_messages() {
    let cases = [
        (DictionaryError::TypeCodeLength, "类型编码长度必须为 2 到 64 个字符"),
        (DictionaryError::TypeCodeCharacters, "类型编码只能包含字母、数字、连字符、下划线和点"),
        (DictionaryError::TypeNameLength, "类型名称长度必须为 1 到 80 个字符"),
        (DictionaryError::TypeDescriptionTooLong, "类型说明不能超过 500 个字符"),
        (DictionaryError::ItemValueLength, "字典值长度必须为 1 到 255 个字符"),
        (DictionaryError::ItemLabelLength, "字典标签长度必须为 1 到 120 个字符"),
        (DictionaryError::SortOrderOutOfRange, "排序值超出允许范围"),
        (DictionaryError::TypeNotFound, "字典类型不存在或不属于当前租户"),
        (DictionaryError::UpdatedTypeMissing, "更新后的字典类型不存在"),
        (DictionaryError::ItemNotFound, "字典项不存在或不属于当前租户"),
        (DictionaryError::RecordIdUnavailable, "无法生成记录标识"),
    ];
    for (error, text) in cases {
        assert_eq!(error.message(), text);
    }
}

#[test]
fn stored_fields_validate_again() {
    let code = "  order-status ";
    let name = "\u{3000}订单状态 ";
    let description = " 订单生命周期 ";
    assert!(validate_type(code, name, description).is_ok());
    assert!(validate_type(trim(code), trim(name), trim(description)).is_ok());
    assert!(validate_item(" paid ", " 已支付", 20).is_ok());
    assert!(validate_item(trim(" paid "), trim(" 已支付"), 20).is_ok());
}
