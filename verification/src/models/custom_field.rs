//! Custom field metadata and helper types.
//!
//! Numeric field values are carried as their decimal text, exactly as the
//! wire format renders them.

use vstd::prelude::*;

verus! {

/// Supported custom field value kinds.
#[derive(Debug, Clone, Copy, PartialEq, Eq, Structural)]
pub enum CustomFieldType {
    /// Plain text.
    Text,
    /// Numeric value.
    Number,
    /// Single enum option.
    Enum,
    /// Multiple enum options.
    MultiEnum,
    /// Date (or date range).
    Date,
    /// People reference field.
    People,
    /// Percentage field.
    Percent,
    /// Currency amount field.
    Currency,
    /// Catch-all for newer types not explicitly handled.
    Unknown,
}

impl Default for CustomFieldType {
    /// Text is the default field kind.
    fn default() -> (r: CustomFieldType)
        ensures
            r == CustomFieldType::Text,
    {
        CustomFieldType::Text
    }
}

/// Enumeration option metadata.
#[derive(Debug, Clone, PartialEq, Eq)]
pub struct CustomFieldEnumOption {
    /// Globally unique identifier.
    pub gid: String,
    /// Option display name.
    pub name: String,
    /// Optional colour slug.
    pub color: Option<String>,
    /// Whether the option is enabled.
    pub enabled: Option<bool>,
    /// Resource type marker.
    pub resource_type: Option<String>,
}

/// Date-based custom field payload.
#[derive(Debug, Clone, PartialEq, Eq)]
pub struct CustomFieldDateValue {
    /// Single date value (YYYY-MM-DD).
    pub date: Option<String>,
    /// Start date for ranges.
    pub start_on: Option<String>,
    /// Due date for ranges.
    pub due_on: Option<String>,
}

/// Fully hydrated custom field value record returned on tasks.
#[derive(Debug, Clone, PartialEq, Eq)]
pub struct CustomField {
    /// Globally unique identifier.
    pub gid: String,
    /// Human readable name.
    pub name: String,
    /// Resource type marker.
    pub resource_type: Option<String>,
    /// Field type.
    pub field_type: CustomFieldType,
    /// Optional description/tooltip.
    pub description: Option<String>,
    /// Whether the field is enabled.
    pub enabled: Option<bool>,
    /// Formatted value shown in the UI.
    pub display_value: Option<String>,
    /// Raw text value for text fields.
    pub text_value: Option<String>,
    /// Numeric value for number fields, as decimal text.
    pub number_value: Option<String>,
    /// Percent value for percentage fields, as decimal text.
    pub percent_value: Option<String>,
    /// ISO currency code when applicable.
    pub currency_code: Option<String>,
    /// Selected enum option.
    pub enum_value: Option<CustomFieldEnumOption>,
    /// Selected enum options for multi-select fields.
    pub multi_enum_values: Vec<CustomFieldEnumOption>,
    /// Date payload for date fields.
    pub date_value: Option<CustomFieldDateValue>,
    /// People references for people fields.
    pub people_value: Vec<String>,
}

} // verus!
