//! Operators: the boxes of a pipeline. Each has an id, a kind, the data it
//! takes in and hands on, the operator that runs after it, and its
//! properties. Also the built-in operator catalog, the list of operators in
//! use, and the property edits that the property panel makes.

use vstd::prelude::*;
use crate::data::{DataModel, DataValue};
use crate::property::{PropertyMap, PropertyModel};

verus! {

broadcast use vstd::std_specs::vec::group_vec_axioms;

#[derive(Clone, Copy, Debug, PartialEq, Eq, Structural)]
pub enum OperatorCategory {
    IO,
    Cleaning,
    MachineLearning,
    DeepLearning,
}

#[derive(Clone, Copy, Debug, PartialEq, Eq, Structural)]
pub enum OperatorKind {
    ReadCSV,
    ReadExcel,
    AppendCSV,
    SelectAttributes,
    SaveCSVOrExcel,
    ReplaceMissingValue,
    NormalizerAndEncoder,
    TrainTestSplit,
    LinearRegression,
}

/// An operator. Operators form a chain through `next_operator`: the entity
/// of the operator that runs after this one.
#[derive(Debug)]
pub struct Operator {
    pub id: u128,
    pub name: String,
    pub input: DataValue,
    pub output: DataValue,
    pub category: OperatorCategory,
    pub kind: OperatorKind,
    pub entity: Option<u64>,
    pub next_operator: Option<u64>,
    pub next_operator_id: Option<u128>,
    pub is_first_operator: bool,
    pub properties: PropertyMap,
}

pub struct OperatorModel {
    pub id: u128,
    pub name: Seq<char>,
    pub input: DataModel,
    pub output: DataModel,
    pub category: OperatorCategory,
    pub kind: OperatorKind,
    pub entity: Option<u64>,
    pub next_operator: Option<u64>,
    pub next_operator_id: Option<u128>,
    pub is_first_operator: bool,
    pub properties: Seq<(Seq<char>, PropertyModel)>,
}

impl View for Operator {
    type V = OperatorModel;

    open spec fn view(&self) -> OperatorModel {
        OperatorModel {
            id: self.id,
            name: self.name@,
            input: self.input@,
            output: self.output@,
            category: self.category,
            kind: self.kind,
            entity: self.entity,
            next_operator: self.next_operator,
            next_operator_id: self.next_operator_id,
            is_first_operator: self.is_first_operator,
            properties: self.properties@,
        }
    }
}

/// A fresh operator as `Operator::new` builds it: not placed, not chained,
/// not first.
pub open spec fn fresh_operator(
    id: u128,
    name: Seq<char>,
    kind: OperatorKind,
    input: DataModel,
    output: DataModel,
    category: OperatorCategory,
    properties: Seq<(Seq<char>, PropertyModel)>,
) -> OperatorModel {
    OperatorModel {
        id,
        name,
        input,
        output,
        category,
        kind,
        entity: None,
        next_operator: None,
        next_operator_id: None,
        is_first_operator: false,
        properties,
    }
}

/// A random version-4 UUID, as its 128-bit value (`uuid::Uuid::new_v4`
/// followed by `Uuid::as_u128`). Its version nibble is 4 and its variant
/// bits are `10`; the other bits come from the system's random source, so
/// nothing more is stated of them.
#[verifier::external_body]
pub(crate) fn new_random_id() -> (id: u128)
    ensures
        (id >> 76u128) & 0xfu128 == 4u128,
        (id >> 62u128) & 0x3u128 == 2u128,
{
    uuid::Uuid::new_v4().as_u128()
}

impl Operator {
    /// A new operator with a random id, not placed on the canvas, not
    /// chained, and not the first of a chain.
    pub fn new(
        name: &str,
        kind: OperatorKind,
        input: DataValue,
        output: DataValue,
        category: OperatorCategory,
        properties: PropertyMap,
    ) -> (op: Operator)
        ensures
            op@ == fresh_operator(op.id, name@, kind, input@, output@, category, properties@),
            (op.id >> 76u128) & 0xfu128 == 4u128,
    {
        Operator {
            id: new_random_id(),
            name: String::from_str(name),
            kind,
            input,
            output,
            category,
            properties,
            next_operator: None,
            next_operator_id: None,
            is_first_operator: false,
            entity: None,
        }
    }

    /// A new operator from an existing operator with a new id: every other
    /// field is the same as `op`'s.
    pub fn new_from(op: &Operator) -> (new_op: Operator)
        ensures
            new_op@ == (OperatorModel { id: new_op.id, ..op@ }),
            (new_op.id >> 76u128) & 0xfu128 == 4u128,
    {
        let mut new_op = op.clone();
        new_op.id = new_random_id();
        new_op
    }

    /// Whether the operator takes input, and so gets an input button on the
    /// canvas (an operator whose input is `Empty` starts a chain).
    pub fn has_input_port(&self) -> (b: bool)
        ensures
            b == !(self@.input is Empty),
    {
        !self.input.is_empty()
    }
}

impl Clone for Operator {
    fn clone(&self) -> (r: Self)
        ensures
            r@ == self@,
    {
        Operator {
            id: self.id,
            name: self.name.clone(),
            input: self.input.clone(),
            output: self.output.clone(),
            category: self.category,
            kind: self.kind,
            entity: self.entity,
            next_operator: self.next_operator,
            next_operator_id: self.next_operator_id,
            is_first_operator: self.is_first_operator,
            properties: self.properties.clone(),
        }
    }
}

} // verus!
