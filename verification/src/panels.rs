//! The panels around the canvas: the operator panel and its search, the
//! console panel, the property panel, and the context menu of an operator.

use vstd::prelude::*;
use crate::catalog::{first_with_id, operators_model, OperatorInUseList};
use crate::text::{blank, contains_text, is_blank, lowercase, occurs_in, same_text, to_lowercase};

verus! {

/// Whether the operator panel is shown.
#[derive(Debug)]
pub struct OperatorPanelShowState(pub bool);

impl OperatorPanelShowState {
    pub fn new() -> (s: Self)
        ensures
            s.0,
    {
        OperatorPanelShowState(true)
    }

    pub fn toggle(&mut self)
        ensures
            final(self).0 == !old(self).0,
    {
        self.0 = !self.0;
    }

    pub fn state(&self) -> (b: bool)
        ensures
            b == self.0,
    {
        self.0
    }
}

/// Whether the console panel is shown.
#[derive(Debug)]
pub struct ConsolePanelShowState(pub bool);

impl ConsolePanelShowState {
    pub fn new() -> (s: Self)
        ensures
            s.0,
    {
        ConsolePanelShowState(true)
    }

    pub fn toggle(&mut self)
        ensures
            final(self).0 == !old(self).0,
    {
        self.0 = !self.0;
    }

    pub fn state(&self) -> (b: bool)
        ensures
            b == self.0,
    {
        self.0
    }
}

/// Which property form the property panel shows.
#[derive(Clone, Copy, Debug, PartialEq, Eq, Structural)]
pub enum PropertyType {
    Unset,
    ReadCsv,
    ReplaceMissingValue,
}

/// Whether the property panel is shown, and for which operator.
#[derive(Debug)]
pub struct PropertyPanelShowState {
    pub state: bool,
    pub op_id: Option<u128>,
    pub op_entity: Option<u64>,
    pub property_type: PropertyType,
}

pub open spec fn panel_cleared(p: PropertyPanelShowState) -> bool {
    &&& !p.state
    &&& p.op_id is None
    &&& p.op_entity is None
    &&& p.property_type == PropertyType::Unset
}

/// The property form for the operator named `name`.
pub open spec fn property_type_of(name: Seq<char>) -> PropertyType {
    if name == "Read CSV"@ {
        PropertyType::ReadCsv
    } else if name == "Replace missing value"@ {
        PropertyType::ReplaceMissingValue
    } else {
        PropertyType::Unset
    }
}

impl PropertyPanelShowState {
    pub fn new() -> (s: Self)
        ensures
            panel_cleared(s),
    {
        PropertyPanelShowState {
            state: false,
            op_id: None,
            op_entity: None,
            property_type: PropertyType::Unset,
        }
    }

    pub fn reset(&mut self)
        ensures
            panel_cleared(*final(self)),
    {
        self.state = false;
        self.op_id = None;
        self.op_entity = None;
        self.property_type = PropertyType::Unset;
    }

    pub fn toggle(&mut self)
        ensures
            *final(self) == (PropertyPanelShowState { state: !old(self).state, ..*old(self) }),
    {
        self.state = !self.state;
    }

    pub fn show(&mut self)
        ensures
            *final(self) == (PropertyPanelShowState { state: true, ..*old(self) }),
    {
        self.state = true;
    }

    pub fn hide_panel(&mut self)
        ensures
            *final(self) == (PropertyPanelShowState { state: false, ..*old(self) }),
    {
        self.state = false;
    }

    pub fn state(&self) -> (b: bool)
        ensures
            b == self.state,
    {
        self.state
    }

    /// "Properties" was chosen in the context menu of the operator `op_id`
    /// (entity `entity`, named `name`): the panel opens on it, with the
    /// form that fits its name.
    pub fn open_for(&mut self, op_id: u128, entity: u64, name: &str)
        ensures
            final(self).state,
            final(self).op_id == Some(op_id),
            final(self).op_entity == Some(entity),
            final(self).property_type == property_type_of(name@),
    {
        self.show();
        self.op_id = Some(op_id);
        self.op_entity = Some(entity);
        self.property_type = if same_text(name, "Read CSV") {
            PropertyType::ReadCsv
        } else if same_text(name, "Replace missing value") {
            PropertyType::ReplaceMissingValue
        } else {
            PropertyType::Unset
        };
    }

    /// The id of the property form to show, or `None` when the panel has
    /// no form to show.
    pub fn container_id(&self) -> (id: Option<&'static str>)
        ensures
            self.property_type == PropertyType::ReadCsv ==> (id matches Some(s) && s@
                == "read-csv-property-container"@),
            self.property_type == PropertyType::ReplaceMissingValue ==> (id matches Some(s) && s@
                == "replace-missing-value-property-container"@),
            self.property_type == PropertyType::Unset ==> id is None,
    {
        match self.property_type {
            PropertyType::ReadCsv => Some("read-csv-property-container"),
            PropertyType::ReplaceMissingValue => Some("replace-missing-value-property-container"),
            PropertyType::Unset => None,
        }
    }
}

/// The operator whose context menu was opened, by id.
#[derive(Debug)]
pub struct RightClickedOperatorBox(pub Option<u128>);

/// "Delete" was chosen in the context menu of the operator `op_id`: the
/// property panel closes, the context menu forgets the operator, and the
/// first operator in use with that id is taken out of the list.
pub fn forget_deleted_operator(
    op_id: u128,
    panel: &mut PropertyPanelShowState,
    right_clicked: &mut RightClickedOperatorBox,
    in_use: &mut OperatorInUseList,
)
    ensures
        *final(panel) == (PropertyPanelShowState { state: false, ..*old(panel) }),
        final(right_clicked).0 is None,
        match first_with_id(operators_model(old(in_use).0@), op_id) {
            Some(i) => operators_model(final(in_use).0@) == operators_model(old(in_use).0@).remove(i),
            None => operators_model(final(in_use).0@) == operators_model(old(in_use).0@),
        },
{
    panel.hide_panel();
    right_clicked.0 = None;
    in_use.remove_by_id(op_id);
}

/// Whether the operator named `name` is listed for the search text
/// `search`: its lower-case name contains the lower-case search text, or
/// that text is blank.
pub fn operator_matches_search(name: &str, search: &str) -> (shown: bool)
    ensures
        shown == (occurs_in(lowercase(search@), lowercase(name@)) || blank(lowercase(search@))),
{
    let search_text = to_lowercase(search);
    let lower_name = to_lowercase(name);
    lowered_name_matches(lower_name.as_str(), search_text.as_str())
}

/// Whether a name already in lower case is listed for a search text already
/// in lower case: the name contains the text, or the text is blank.
pub fn lowered_name_matches(lower_name: &str, lower_search: &str) -> (shown: bool)
    ensures
        shown == (occurs_in(lower_search@, lower_name@) || blank(lower_search@)),
{
    contains_text(lower_name, lower_search) || is_blank(lower_search)
}

} // verus!
