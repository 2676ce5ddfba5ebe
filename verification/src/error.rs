//! The ways a dictionary request is refused.
use vstd::prelude::*;

verus! {

/// Why the dictionary service refused a request.
#[derive(Debug, Clone, Copy, PartialEq, Eq, Structural)]
pub enum DictionaryError {
    /// The trimmed type code is not 2 to 64 bytes long.
    TypeCodeLength,
    /// The trimmed type code holds a character other than an ASCII letter or
    /// digit, `-`, `_` or `.`.
    TypeCodeCharacters,
    /// The trimmed type name is empty or longer than 80 characters.
    TypeNameLength,
    /// The type description is longer than 500 characters.
    TypeDescriptionTooLong,
    /// The trimmed item value is empty or longer than 255 characters.
    ItemValueLength,
    /// The trimmed item label is empty or longer than 120 characters.
    ItemLabelLength,
    /// The sort order lies outside `-1_000_000..=1_000_000`.
    SortOrderOutOfRange,
    /// No type with this id belongs to the tenant.
    TypeNotFound,
    /// The type was updated but is gone when it is read back.
    UpdatedTypeMissing,
    /// No item with this id belongs to the tenant.
    ItemNotFound,
    /// The system's random source failed, so no id could be drawn for a new record.
    RecordIdUnavailable,
}

impl DictionaryError {
    /// The text shown to the user for this error.
    pub open spec fn message_text(self) -> Seq<char> {
        match self {
            DictionaryError::TypeCodeLength => "类型编码长度必须为 2 到 64 个字符"@,
            DictionaryError::TypeCodeCharacters => "类型编码只能包含字母、数字、连字符、下划线和点"@,
            DictionaryError::TypeNameLength => "类型名称长度必须为 1 到 80 个字符"@,
            DictionaryError::TypeDescriptionTooLong => "类型说明不能超过 500 个字符"@,
            DictionaryError::ItemValueLength => "字典值长度必须为 1 到 255 个字符"@,
            DictionaryError::ItemLabelLength => "字典标签长度必须为 1 到 120 个字符"@,
            DictionaryError::SortOrderOutOfRange => "排序值超出允许范围"@,
            DictionaryError::TypeNotFound => "字典类型不存在或不属于当前租户"@,
            DictionaryError::UpdatedTypeMissing => "更新后的字典类型不存在"@,
            DictionaryError::ItemNotFound => "字典项不存在或不属于当前租户"@,
            DictionaryError::RecordIdUnavailable => "无法生成记录标识"@,
        }
    }

    /// The text shown to the user for this error.
    pub fn message(&self) -> (m: String)
        ensures
            m@ == self.message_text(),
    {
        match self {
            DictionaryError::TypeCodeLength => String::from_str("类型编码长度必须为 2 到 64 个字符"),
            DictionaryError::TypeCodeCharacters => String::from_str(
                "类型编码只能包含字母、数字、连字符、下划线和点",
            ),
            DictionaryError::TypeNameLength => String::from_str("类型名称长度必须为 1 到 80 个字符"),
            DictionaryError::TypeDescriptionTooLong => String::from_str(
                "类型说明不能超过 500 个字符",
            ),
            DictionaryError::ItemValueLength => String::from_str("字典值长度必须为 1 到 255 个字符"),
            DictionaryError::ItemLabelLength => String::from_str(
                "字典标签长度必须为 1 到 120 个字符",
            ),
            DictionaryError::SortOrderOutOfRange => String::from_str("排序值超出允许范围"),
            DictionaryError::TypeNotFound => String::from_str("字典类型不存在或不属于当前租户"),
            DictionaryError::UpdatedTypeMissing => String::from_str("更新后的字典类型不存在"),
            DictionaryError::ItemNotFound => String::from_str("字典项不存在或不属于当前租户"),
            DictionaryError::RecordIdUnavailable => String::from_str("无法生成记录标识"),
        }
    }
}

} // verus!
