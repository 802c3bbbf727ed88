use crate::tui::widgets::path_hint::{PathHintState, PathHintView};
use vstd::prelude::*;
use vstd::string::*;

verus! {

/// What kind of text a field takes.
#[derive(Debug, PartialEq)]
pub enum FieldType {
    /// Any text.
    Normal,
    /// A path, for which completions are offered.
    Path(PathHintState),
}

/// Mathematical value of a [`FieldType`].
pub enum FieldTypeView {
    Normal,
    Path(PathHintView),
}

impl View for FieldType {
    type V = FieldTypeView;

    open spec fn view(&self) -> FieldTypeView {
        match self {
            FieldType::Normal => FieldTypeView::Normal,
            FieldType::Path(state) => FieldTypeView::Path(state@),
        }
    }
}

impl Default for FieldType {
    fn default() -> (t: FieldType)
        ensures
            t@ == FieldTypeView::Normal,
    {
        FieldType::Normal
    }
}

/// One input field of a form: its text, where the cursor stands in it
/// (counted in characters), and how it is shown.
#[derive(Debug)]
pub struct FieldState {
    pub value: String,
    pub cursor: usize,
    pub is_selected: bool,
    pub is_editing: bool,
    pub is_only_numbers: bool,
    pub field_type: FieldType,
}

/// Mathematical value of a [`FieldState`].
pub struct FieldStateView {
    pub value: Seq<char>,
    pub cursor: nat,
    pub is_selected: bool,
    pub is_editing: bool,
    pub is_only_numbers: bool,
    pub field_type: FieldTypeView,
}

impl View for FieldState {
    type V = FieldStateView;

    open spec fn view(&self) -> FieldStateView {
        FieldStateView {
            value: self.value@,
            cursor: self.cursor as nat,
            is_selected: self.is_selected,
            is_editing: self.is_editing,
            is_only_numbers: self.is_only_numbers,
            field_type: self.field_type@,
        }
    }
}

/// Whether `c` is one of the digits `0` to `9`.
pub open spec fn is_digit(c: char) -> bool {
    '0' <= c <= '9'
}

/// Whether a field takes the character `c` where it stands. A field for
/// numbers takes digits only, and none once its text begins with a zero.
pub open spec fn takes(field: FieldStateView, c: char) -> bool {
    !field.is_only_numbers || (is_digit(c) && !(field.value.len() > 0 && field.value[0] == '0'))
}

impl Default for FieldState {
    fn default() -> (field: FieldState)
        ensures
            field@ == (FieldStateView {
                value: Seq::empty(),
                cursor: 0,
                is_selected: false,
                is_editing: false,
                is_only_numbers: false,
                field_type: FieldTypeView::Normal,
            }),
    {
        FieldState {
            value: String::new(),
            cursor: 0,
            is_selected: false,
            is_editing: false,
            is_only_numbers: false,
            field_type: FieldType::Normal,
        }
    }
}

impl FieldState {
    /// A field that holds `value`, with the cursor behind its last character,
    /// and is not being edited.
    pub fn new(value: &str, is_selected: bool, is_only_numbers: bool, field_type: FieldType) -> (field:
        FieldState)
        ensures
            field@ == (FieldStateView {
                value: value@,
                cursor: value@.len(),
                is_selected,
                is_editing: false,
                is_only_numbers,
                field_type: field_type@,
            }),
    {
        FieldState {
            value: String::from_str(value),
            cursor: value.unicode_len(),
            is_selected,
            is_editing: false,
            is_only_numbers,
            field_type,
        }
    }

    /// The text of the field.
    pub fn get(&self) -> (value: &str)
        ensures
            value@ == self@.value,
    {
        self.value.as_str()
    }

    /// Whether the field takes the character `c` where it stands.
    pub fn accepts(&self, c: char) -> (b: bool)
        ensures
            b == takes(self@, c),
    {
        if !self.is_only_numbers {
            return true;
        }
        if !('0' <= c && c <= '9') {
            return false;
        }
        let text = self.value.as_str();
        !(text.unicode_len() > 0 && text.get_char(0) == '0')
    }
}

} // verus!
