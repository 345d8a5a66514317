//! The property edits that the property panel makes on an operator: the
//! attribute checkboxes of "Select Attributes", the strategy selectors of
//! "Replace missing value", and the target selector of "Linear Regression".

use vstd::prelude::*;
use crate::operator::{Operator, OperatorKind, OperatorModel};
use crate::property::{
    copy_map, copy_value, insert_entry, lookup, PropertyMap, PropertyModel, PropertyValue,
};
use crate::text::{blank, is_blank, same_text, strip_prefix_text};

verus! {

broadcast use vstd::std_specs::vec::group_vec_axioms;

pub open spec fn selected_attributes_key() -> Seq<char> {
    "selected_attributes"@
}

pub open spec fn missing_value_key() -> Seq<char> {
    "columns_with_missing_value"@
}

pub open spec fn target_key() -> Seq<char> {
    "target"@
}

/// The class that the strategy selector of a column carries, before the
/// column's name.
pub open spec fn strategy_selector_prefix() -> Seq<char> {
    "missing-value-replace-with-"@
}

/// The column whose strategy selector carries the class `class`: what
/// follows the selector prefix, or `None` for a class without it. A column
/// name may itself hold '-'.
pub fn missing_value_column_of(class: &str) -> (column: Option<String>)
    ensures
        match column {
            Some(c) => class@ == strategy_selector_prefix() + c@,
            None => !(exists|c: Seq<char>| class@ == strategy_selector_prefix() + c),
        },
{
    proof {
        reveal_strlit("missing-value-replace-with-");
    }
    let r = strip_prefix_text(class, "missing-value-replace-with-");
    proof {
        let p = strategy_selector_prefix();
        match &r {
            Some(c) => {
                assert(class@ =~= p + c@);
            },
            None => {
                if exists|c: Seq<char>| class@ == p + c {
                    let c = choose|c: Seq<char>| class@ == p + c;
                    assert(class@.subrange(0, p.len() as int) =~= p);
                }
            },
        }
    }
    r
}

/// `items` with the attribute `name` added at the end, unless it is there.
pub open spec fn with_attribute(items: Seq<PropertyModel>, name: Seq<char>) -> Seq<PropertyModel> {
    if items.contains(PropertyModel::Text(name)) {
        items
    } else {
        items.push(PropertyModel::Text(name))
    }
}

/// `items` without any entry that is the attribute `name`.
pub open spec fn without_attribute(items: Seq<PropertyModel>, name: Seq<char>) -> Seq<
    PropertyModel,
> {
    items.filter(|m: PropertyModel| m != PropertyModel::Text(name))
}

/// The list of attributes `columns`, as text values.
pub open spec fn attribute_list(columns: Seq<String>) -> Seq<PropertyModel> {
    Seq::new(columns.len(), |i: int| PropertyModel::Text(columns[i]@))
}

/// The strategy map that gives each of `columns` the empty strategy, set in
/// order (a name that repeats keeps one entry).
pub open spec fn blank_strategies(columns: Seq<String>) -> Seq<(Seq<char>, PropertyModel)>
    decreases columns.len(),
{
    if columns.len() == 0 {
        Seq::empty()
    } else {
        insert_entry(
            blank_strategies(columns.drop_last()),
            columns.last()@,
            PropertyModel::Text(Seq::empty()),
        )
    }
}

/// `op` with its properties replaced by `props`.
pub open spec fn with_properties(
    op: OperatorModel,
    props: Seq<(Seq<char>, PropertyModel)>,
) -> OperatorModel {
    OperatorModel { properties: props, ..op }
}

/// What checking the box of attribute `name` does to `op`.
pub open spec fn select_attribute_effect(op: OperatorModel, name: Seq<char>) -> OperatorModel {
    if op.kind == OperatorKind::SelectAttributes {
        match lookup(op.properties, selected_attributes_key()) {
            Some(PropertyModel::List(items)) => with_properties(
                op,
                insert_entry(
                    op.properties,
                    selected_attributes_key(),
                    PropertyModel::List(with_attribute(items, name)),
                ),
            ),
            _ => op,
        }
    } else {
        op
    }
}

/// What clearing the box of attribute `name` does to `op`.
pub open spec fn deselect_attribute_effect(op: OperatorModel, name: Seq<char>) -> OperatorModel {
    if op.kind == OperatorKind::SelectAttributes {
        match lookup(op.properties, selected_attributes_key()) {
            Some(PropertyModel::List(items)) => with_properties(
                op,
                insert_entry(
                    op.properties,
                    selected_attributes_key(),
                    PropertyModel::List(without_attribute(items, name)),
                ),
            ),
            _ => op,
        }
    } else {
        op
    }
}

fn list_model_of(v: &Vec<PropertyValue>) -> (ghost_unit: ())
    ensures
        PropertyValue::List(*v)@ == PropertyModel::List(Seq::new(v@.len(), |i: int| v@[i]@)),
{
    proof {
        let m = PropertyValue::List(*v)@;
        assert(m matches PropertyModel::List(s) && s =~= Seq::new(v@.len(), |i: int| v@[i]@));
    }
}

fn is_attribute(v: &PropertyValue, name: &String) -> (b: bool)
    ensures
        b == (v@ == PropertyModel::Text(name@)),
{
    match v {
        PropertyValue::String(s) => same_text(s.as_str(), name.as_str()),
        _ => false,
    }
}

impl Operator {
    /// The attribute checkbox `name` was checked: a "Select Attributes"
    /// operator adds `name` to `selected_attributes` unless it is listed.
    pub fn select_attribute(&mut self, name: &String)
        ensures
            final(self)@ == select_attribute_effect(old(self)@, name@),
    {
        if self.kind != OperatorKind::SelectAttributes {
            return;
        }
        let new_value = match self.properties.get("selected_attributes") {
            Some(PropertyValue::List(attrs)) => {
                let ghost items = Seq::new(attrs@.len(), |i: int| attrs@[i]@);
                let _ = list_model_of(attrs);
                let mut out: Vec<PropertyValue> = Vec::new();
                let mut found = false;
                let mut i: usize = 0;
                while i < attrs.len()
                    invariant
                        i <= attrs@.len(),
                        out@.len() == i,
                        items == Seq::new(attrs@.len(), |k: int| attrs@[k]@),
                        forall|k: int| 0 <= k < i ==> (#[trigger] out@[k])@ == items[k],
                        found == exists|k: int| 0 <= k < i && items[k] == PropertyModel::Text(name@),
                    decreases attrs@.len() - i,
                {
                    let ghost prev_found = found;
                    let hit = is_attribute(&attrs[i], name);
                    if hit {
                        found = true;
                    }
                    out.push(copy_value(&attrs[i]));
                    proof {
                        assert(items[i as int] == attrs@[i as int]@);
                        if hit {
                            assert(items[i as int] == PropertyModel::Text(name@));
                        } else {
                            assert forall|k: int| 0 <= k < i + 1 && items[k] == PropertyModel::Text(name@) implies k < i by {}
                        }
                    }
                    i = i + 1;
                }
                if !found {
                    out.push(PropertyValue::String(name.clone()));
                }
                let _ = list_model_of(&out);
                proof {
                    let target = with_attribute(items, name@);
                    if found {
                        let k = choose|k: int| 0 <= k < attrs@.len() && items[k] == PropertyModel::Text(name@);
                        assert(items.contains(PropertyModel::Text(name@)));
                        assert(Seq::new(out@.len(), |k: int| out@[k]@) =~= target);
                    } else {
                        assert(!items.contains(PropertyModel::Text(name@)));
                        assert(Seq::new(out@.len(), |k: int| out@[k]@) =~= target);
                    }
                }
                Some(PropertyValue::List(out))
            },
            _ => None,
        };
        if let Some(v) = new_value {
            self.properties.insert(String::from_str("selected_attributes"), v);
        }
    }

    /// The attribute checkbox `name` was cleared: a "Select Attributes"
    /// operator drops `name` from `selected_attributes`.
    pub fn deselect_attribute(&mut self, name: &String)
        ensures
            final(self)@ == deselect_attribute_effect(old(self)@, name@),
    {
        if self.kind != OperatorKind::SelectAttributes {
            return;
        }
        let new_value = match self.properties.get("selected_attributes") {
            Some(PropertyValue::List(attrs)) => {
                let ghost items = Seq::new(attrs@.len(), |i: int| attrs@[i]@);
                let ghost pred = |m: PropertyModel| m != PropertyModel::Text(name@);
                let _ = list_model_of(attrs);
                let mut out: Vec<PropertyValue> = Vec::new();
                let mut i: usize = 0;
                while i < attrs.len()
                    invariant
                        i <= attrs@.len(),
                        items == Seq::new(attrs@.len(), |k: int| attrs@[k]@),
                        pred == (|m: PropertyModel| m != PropertyModel::Text(name@)),
                        Seq::new(out@.len(), |k: int| out@[k]@) == items.take(i as int).filter(
                            pred,
                        ),
                    decreases attrs@.len() - i,
                {
                    let ghost before = Seq::new(out@.len(), |k: int| out@[k]@);
                    proof {
                        reveal_with_fuel(Seq::filter, 1);
                        assert(items.take(i + 1).drop_last() =~= items.take(i as int));
                        assert(items.take(i + 1).last() == items[i as int]);
                    }
                    if !is_attribute(&attrs[i], name) {
                        out.push(copy_value(&attrs[i]));
                        assert(Seq::new(out@.len(), |k: int| out@[k]@) =~= before.push(
                            items[i as int],
                        ));
                    } else {
                        assert(Seq::new(out@.len(), |k: int| out@[k]@) =~= before);
                    }
                    i = i + 1;
                }
                let _ = list_model_of(&out);
                assert(items.take(attrs@.len() as int) =~= items);
                Some(PropertyValue::List(out))
            },
            _ => None,
        };
        if let Some(v) = new_value {
            self.properties.insert(String::from_str("selected_attributes"), v);
        }
    }

    /// The columns of the pre-read table are known: an operator with a
    /// `selected_attributes` property gets all of them selected.
    pub fn select_all_attributes(&mut self, columns: &Vec<String>)
        ensures
            final(self)@ == (if lookup(old(self)@.properties, selected_attributes_key()) is Some {
                with_properties(
                    old(self)@,
                    insert_entry(
                        old(self)@.properties,
                        selected_attributes_key(),
                        PropertyModel::List(attribute_list(columns@)),
                    ),
                )
            } else {
                old(self)@
            }),
    {
        if !self.properties.contains_key("selected_attributes") {
            return;
        }
        let mut out: Vec<PropertyValue> = Vec::new();
        let mut i: usize = 0;
        while i < columns.len()
            invariant
                i <= columns@.len(),
                out@.len() == i,
                forall|k: int| 0 <= k < i ==> (#[trigger] out@[k])@ == PropertyModel::Text(
                    columns@[k]@,
                ),
            decreases columns@.len() - i,
        {
            out.push(PropertyValue::String(columns[i].clone()));
            i = i + 1;
        }
        let _ = list_model_of(&out);
        assert(Seq::new(out@.len(), |k: int| out@[k]@) =~= attribute_list(columns@));
        self.properties.insert(String::from_str("selected_attributes"), PropertyValue::List(out));
    }

    /// The strategy selector of column `column` changed to `strategy`. A
    /// "Replace missing value" operator records it in
    /// `columns_with_missing_value`; the answer is `false` when such an
    /// operator lacks that property, which ends the walk over operators.
    pub fn set_missing_value_strategy(&mut self, column: &String, strategy: &String) -> (keep_going:
        bool)
        ensures
            old(self)@.kind != OperatorKind::ReplaceMissingValue ==> keep_going && final(self)@
                == old(self)@,
            old(self)@.kind == OperatorKind::ReplaceMissingValue ==> match lookup(
                old(self)@.properties,
                missing_value_key(),
            ) {
                None => !keep_going && final(self)@ == old(self)@,
                Some(PropertyModel::Dict(m)) => keep_going && final(self)@ == with_properties(
                    old(self)@,
                    insert_entry(
                        old(self)@.properties,
                        missing_value_key(),
                        PropertyModel::Dict(
                            insert_entry(m, column@, PropertyModel::Text(strategy@)),
                        ),
                    ),
                ),
                Some(_) => keep_going && final(self)@ == old(self)@,
            },
    {
        if self.kind != OperatorKind::ReplaceMissingValue {
            return true;
        }
        let new_value = match self.properties.get("columns_with_missing_value") {
            None => {
                return false;
            },
            Some(PropertyValue::Dict(m)) => {
                let mut m2 = copy_map(m);
                m2.insert(column.clone(), PropertyValue::String(strategy.clone()));
                Some(PropertyValue::Dict(m2))
            },
            Some(_) => None,
        };
        if let Some(v) = new_value {
            self.properties.insert(String::from_str("columns_with_missing_value"), v);
        }
        true
    }

    /// The pre-read table has missing values in `dirty`: an operator with a
    /// `columns_with_missing_value` property gets one entry per such column,
    /// each with the empty strategy.
    pub fn reset_missing_value_columns(&mut self, dirty: &Vec<String>)
        ensures
            final(self)@ == (if lookup(old(self)@.properties, missing_value_key()) is Some {
                with_properties(
                    old(self)@,
                    insert_entry(
                        old(self)@.properties,
                        missing_value_key(),
                        PropertyModel::Dict(blank_strategies(dirty@)),
                    ),
                )
            } else {
                old(self)@
            }),
    {
        if !self.properties.contains_key("columns_with_missing_value") {
            return;
        }
        let mut m = PropertyMap::new();
        let mut i: usize = 0;
        while i < dirty.len()
            invariant
                i <= dirty@.len(),
                m@ == blank_strategies(dirty@.take(i as int)),
            decreases dirty@.len() - i,
        {
            proof {
                assert(dirty@.take(i + 1).drop_last() =~= dirty@.take(i as int));
                assert(dirty@.take(i + 1).last() == dirty@[i as int]);
            }
            m.insert(dirty[i].clone(), PropertyValue::String(String::new()));
            i = i + 1;
        }
        assert(dirty@.take(dirty@.len() as int) =~= dirty@);
        self.properties.insert(String::from_str("columns_with_missing_value"), PropertyValue::Dict(m));
    }

    /// The target selector changed to `data`: an operator whose `target`
    /// property holds text takes `data` as its target, unless `data` is
    /// blank.
    pub fn set_regression_target(&mut self, data: &String)
        ensures
            final(self)@ == (match lookup(old(self)@.properties, target_key()) {
                Some(PropertyModel::Text(_)) => if blank(data@) {
                    old(self)@
                } else {
                    with_properties(
                        old(self)@,
                        insert_entry(old(self)@.properties, target_key(), PropertyModel::Text(data@)),
                    )
                },
                _ => old(self)@,
            }),
    {
        let is_text = match self.properties.get("target") {
            Some(PropertyValue::String(_)) => true,
            _ => false,
        };
        if is_text && !is_blank(data.as_str()) {
            self.properties.insert(String::from_str("target"), PropertyValue::String(data.clone()));
        }
    }
}

} // verus!
