//! The built-in operators, the catalog that the operator panel lists, and
//! the list of operators placed on the canvas.

use vstd::prelude::*;
use crate::data::{empty_table, DataModel, DataValue, TableInfo};
use crate::operator::{fresh_operator, Operator, OperatorCategory, OperatorKind, OperatorModel};
use crate::property::{PropertyMap, PropertyModel, PropertyValue};

verus! {

broadcast use vstd::std_specs::vec::group_vec_axioms;

/// The f32 80.0, as bits: the default share of rows that goes to the
/// training set.
pub const EIGHTY_PERCENT_BITS: u32 = 0x42a0_0000u32;

/// `m` with one more entry, under a name it does not hold yet.
fn with_entry(m: PropertyMap, key: &str, value: PropertyValue) -> (r: PropertyMap)
    requires
        forall|i: int| 0 <= i < m@.len() ==> #[trigger] m@[i].0 != key@,
    ensures
        r@ == m@.push((key@, value@)),
{
    let mut m = m;
    let ghost before = m@;
    let ghost vv = value@;
    m.insert(String::from_str(key), value);
    assert(!(exists|i: int| 0 <= i < before.len() && #[trigger] before[i].0 == key@));
    m
}

fn empty_text() -> (v: PropertyValue)
    ensures
        v@ == PropertyModel::Text(Seq::empty()),
{
    PropertyValue::String(String::new())
}

fn empty_table_value() -> (v: DataValue)
    ensures
        v@ == DataModel::Table(empty_table()),
{
    DataValue::Table(TableInfo::empty())
}

pub open spec fn text_property(key: Seq<char>, value: Seq<char>) -> (Seq<char>, PropertyModel) {
    (key, PropertyModel::Text(value))
}

pub open spec fn read_csv_model(id: u128) -> OperatorModel {
    fresh_operator(
        id,
        "Read CSV"@,
        OperatorKind::ReadCSV,
        DataModel::Empty,
        DataModel::Table(empty_table()),
        OperatorCategory::IO,
        seq![text_property("file_path"@, Seq::empty())],
    )
}

pub open spec fn read_excel_model(id: u128) -> OperatorModel {
    fresh_operator(
        id,
        "Read Excel"@,
        OperatorKind::ReadExcel,
        DataModel::Empty,
        DataModel::Table(empty_table()),
        OperatorCategory::IO,
        seq![text_property("file_path"@, Seq::empty())],
    )
}

pub open spec fn save_csv_or_excel_model(id: u128) -> OperatorModel {
    fresh_operator(
        id,
        "Save to CSV or Excel"@,
        OperatorKind::SaveCSVOrExcel,
        DataModel::Table(empty_table()),
        DataModel::Empty,
        OperatorCategory::IO,
        seq![
            text_property("file_path"@, Seq::empty()),
            text_property("file_name"@, Seq::empty()),
            text_property("file_type"@, Seq::empty()),
        ],
    )
}

pub open spec fn append_csv_model(id: u128) -> OperatorModel {
    fresh_operator(
        id,
        "Append CSV"@,
        OperatorKind::AppendCSV,
        DataModel::Table(empty_table()),
        DataModel::Table(empty_table()),
        OperatorCategory::IO,
        seq![text_property("another_csv_file_path"@, Seq::empty())],
    )
}

pub open spec fn replace_missing_value_model(id: u128) -> OperatorModel {
    fresh_operator(
        id,
        "Replace missing value"@,
        OperatorKind::ReplaceMissingValue,
        DataModel::Table(empty_table()),
        DataModel::Table(empty_table()),
        OperatorCategory::Cleaning,
        seq![("columns_with_missing_value"@, PropertyModel::Dict(Seq::empty()))],
    )
}

pub open spec fn select_attributes_model(id: u128) -> OperatorModel {
    fresh_operator(
        id,
        "Select Attributes"@,
        OperatorKind::SelectAttributes,
        DataModel::Table(empty_table()),
        DataModel::Table(empty_table()),
        OperatorCategory::Cleaning,
        seq![("selected_attributes"@, PropertyModel::List(Seq::empty()))],
    )
}

pub open spec fn normalizer_and_encoder_model(id: u128) -> OperatorModel {
    fresh_operator(
        id,
        "Normalizer & Encoder"@,
        OperatorKind::NormalizerAndEncoder,
        DataModel::Table(empty_table()),
        DataModel::Table(empty_table()),
        OperatorCategory::MachineLearning,
        seq![
            text_property("normalization_method"@, "min-max"@),
            ("apply_normalization"@, PropertyModel::Bool(true)),
            ("apply_one_hot_encoding"@, PropertyModel::Bool(true)),
        ],
    )
}

pub open spec fn train_test_split_model(id: u128) -> OperatorModel {
    fresh_operator(
        id,
        "Train & Test split"@,
        OperatorKind::TrainTestSplit,
        DataModel::Table(empty_table()),
        DataModel::Table(empty_table()),
        OperatorCategory::MachineLearning,
        seq![
            ("train_set_percent"@, PropertyModel::Float(EIGHTY_PERCENT_BITS)),
            ("shuffle"@, PropertyModel::Bool(true)),
        ],
    )
}

pub open spec fn linear_regression_model(id: u128) -> OperatorModel {
    fresh_operator(
        id,
        "Linear Regression"@,
        OperatorKind::LinearRegression,
        DataModel::Table(empty_table()),
        DataModel::Table(empty_table()),
        OperatorCategory::MachineLearning,
        seq![text_property("target"@, Seq::empty())],
    )
}

/// "Read CSV": reads the CSV file named by `file_path` into a table.
pub fn read_csv_operator() -> (op: Operator)
    ensures
        op@ == read_csv_model(op.id),
{
    let props = with_entry(PropertyMap::new(), "file_path", empty_text());
    Operator::new(
        "Read CSV",
        OperatorKind::ReadCSV,
        DataValue::Empty,
        empty_table_value(),
        OperatorCategory::IO,
        props,
    )
}

/// "Read Excel": reads the Excel file named by `file_path` into a table.
pub fn read_excel_operator() -> (op: Operator)
    ensures
        op@ == read_excel_model(op.id),
{
    let props = with_entry(PropertyMap::new(), "file_path", empty_text());
    Operator::new(
        "Read Excel",
        OperatorKind::ReadExcel,
        DataValue::Empty,
        empty_table_value(),
        OperatorCategory::IO,
        props,
    )
}

/// "Save to CSV or Excel": writes its input table to a file.
pub fn save_csv_or_excel_operator() -> (op: Operator)
    ensures
        op@ == save_csv_or_excel_model(op.id),
{
    proof {
        reveal_strlit("file_path");
        reveal_strlit("file_name");
        reveal_strlit("file_type");
    }
    let props = with_entry(PropertyMap::new(), "file_path", empty_text());
    assert("file_path"@[5] != "file_name"@[5]);
    let props = with_entry(props, "file_name", empty_text());
    assert("file_path"@[5] != "file_type"@[5]);
    assert("file_name"@[5] != "file_type"@[5]);
    let props = with_entry(props, "file_type", empty_text());
    assert(props@ =~= seq![
        text_property("file_path"@, Seq::empty()),
        text_property("file_name"@, Seq::empty()),
        text_property("file_type"@, Seq::empty()),
    ]);
    Operator::new(
        "Save to CSV or Excel",
        OperatorKind::SaveCSVOrExcel,
        empty_table_value(),
        DataValue::Empty,
        OperatorCategory::IO,
        props,
    )
}

/// "Append CSV": appends the rows of the CSV file named by
/// `another_csv_file_path` to its input table.
pub fn append_csv_operator() -> (op: Operator)
    ensures
        op@ == append_csv_model(op.id),
{
    let props = with_entry(PropertyMap::new(), "another_csv_file_path", empty_text());
    Operator::new(
        "Append CSV",
        OperatorKind::AppendCSV,
        empty_table_value(),
        empty_table_value(),
        OperatorCategory::IO,
        props,
    )
}

/// "Replace missing value": fills the nulls of the columns named in
/// `columns_with_missing_value`, each with its own strategy.
pub fn replace_missing_value_operator() -> (op: Operator)
    ensures
        op@ == replace_missing_value_model(op.id),
{
    let inner = PropertyMap::new();
    let props = with_entry(
        PropertyMap::new(),
        "columns_with_missing_value",
        PropertyValue::Dict(inner),
    );
    Operator::new(
        "Replace missing value",
        OperatorKind::ReplaceMissingValue,
        empty_table_value(),
        empty_table_value(),
        OperatorCategory::Cleaning,
        props,
    )
}

/// "Select Attributes": keeps the columns listed in `selected_attributes`.
pub fn select_attributes_operator() -> (op: Operator)
    ensures
        op@ == select_attributes_model(op.id),
{
    let empty: Vec<PropertyValue> = Vec::new();
    let v = PropertyValue::List(empty);
    assert(v@ == PropertyModel::List(Seq::empty())) by {
        let m = v@;
        assert(m matches PropertyModel::List(s) && s =~= Seq::<PropertyModel>::empty());
    }
    let props = with_entry(PropertyMap::new(), "selected_attributes", v);
    Operator::new(
        "Select Attributes",
        OperatorKind::SelectAttributes,
        empty_table_value(),
        empty_table_value(),
        OperatorCategory::Cleaning,
        props,
    )
}

/// "Normalizer & Encoder": rescales numeric columns and one-hot encodes
/// categorical and string columns.
pub fn normalizer_and_encoder_operator() -> (op: Operator)
    ensures
        op@ == normalizer_and_encoder_model(op.id),
{
    proof {
        reveal_strlit("normalization_method");
        reveal_strlit("apply_normalization");
        reveal_strlit("apply_one_hot_encoding");
    }
    let props = with_entry(
        PropertyMap::new(),
        "normalization_method",
        PropertyValue::String(String::from_str("min-max")),
    );
    assert("normalization_method"@.len() != "apply_normalization"@.len());
    let props = with_entry(props, "apply_normalization", PropertyValue::Bool(true));
    assert("normalization_method"@.len() != "apply_one_hot_encoding"@.len());
    assert("apply_normalization"@.len() != "apply_one_hot_encoding"@.len());
    let props = with_entry(props, "apply_one_hot_encoding", PropertyValue::Bool(true));
    assert(props@ =~= seq![
        text_property("normalization_method"@, "min-max"@),
        ("apply_normalization"@, PropertyModel::Bool(true)),
        ("apply_one_hot_encoding"@, PropertyModel::Bool(true)),
    ]);
    Operator::new(
        "Normalizer & Encoder",
        OperatorKind::NormalizerAndEncoder,
        empty_table_value(),
        empty_table_value(),
        OperatorCategory::MachineLearning,
        props,
    )
}

/// "Train & Test split": hands on the training rows, and sends the test
/// rows aside.
pub fn train_test_split_operator() -> (op: Operator)
    ensures
        op@ == train_test_split_model(op.id),
{
    proof {
        reveal_strlit("train_set_percent");
        reveal_strlit("shuffle");
    }
    let props = with_entry(
        PropertyMap::new(),
        "train_set_percent",
        PropertyValue::Float(EIGHTY_PERCENT_BITS),
    );
    assert("train_set_percent"@.len() != "shuffle"@.len());
    let props = with_entry(props, "shuffle", PropertyValue::Bool(true));
    assert(props@ =~= seq![
        ("train_set_percent"@, PropertyModel::Float(EIGHTY_PERCENT_BITS)),
        ("shuffle"@, PropertyModel::Bool(true)),
    ]);
    Operator::new(
        "Train & Test split",
        OperatorKind::TrainTestSplit,
        empty_table_value(),
        empty_table_value(),
        OperatorCategory::MachineLearning,
        props,
    )
}

/// "Linear Regression": fits a linear model of the `target` column on the
/// other columns.
pub fn linear_regression_operator() -> (op: Operator)
    ensures
        op@ == linear_regression_model(op.id),
{
    let props = with_entry(PropertyMap::new(), "target", empty_text());
    Operator::new(
        "Linear Regression",
        OperatorKind::LinearRegression,
        empty_table_value(),
        empty_table_value(),
        OperatorCategory::MachineLearning,
        props,
    )
}

/// The operators that the operator panel offers, in the order it lists
/// them.
pub open spec fn default_catalog(ops: Seq<OperatorModel>) -> bool {
    &&& ops.len() == 8
    &&& ops[0] == read_csv_model(ops[0].id)
    &&& ops[1] == append_csv_model(ops[1].id)
    &&& ops[2] == select_attributes_model(ops[2].id)
    &&& ops[3] == save_csv_or_excel_model(ops[3].id)
    &&& ops[4] == replace_missing_value_model(ops[4].id)
    &&& ops[5] == normalizer_and_encoder_model(ops[5].id)
    &&& ops[6] == train_test_split_model(ops[6].id)
    &&& ops[7] == linear_regression_model(ops[7].id)
}

/// The operators that the operator panel offers.
#[derive(Debug)]
pub struct OperatorList(pub Vec<Operator>);

/// The operators placed on the canvas.
#[derive(Debug)]
pub struct OperatorInUseList(pub Vec<Operator>);

pub open spec fn operators_model(ops: Seq<Operator>) -> Seq<OperatorModel> {
    Seq::new(ops.len(), |i: int| ops[i]@)
}

impl OperatorList {
    fn create_default_operators() -> (ops: Vec<Operator>)
        ensures
            default_catalog(operators_model(ops@)),
    {
        let mut ops: Vec<Operator> = Vec::new();
        ops.push(read_csv_operator());
        ops.push(append_csv_operator());
        ops.push(select_attributes_operator());
        ops.push(save_csv_or_excel_operator());
        ops.push(replace_missing_value_operator());
        ops.push(normalizer_and_encoder_operator());
        ops.push(train_test_split_operator());
        ops.push(linear_regression_operator());
        ops
    }

    /// The catalog of built-in operators.
    pub fn new() -> (list: OperatorList)
        ensures
            default_catalog(operators_model(list.0@)),
    {
        OperatorList(OperatorList::create_default_operators())
    }
}

/// Position of the first operator of `ops` with id `id`.
pub open spec fn first_with_id(ops: Seq<OperatorModel>, id: u128) -> Option<int> {
    if exists|i: int| 0 <= i < ops.len() && #[trigger] ops[i].id == id {
        Some(
            choose|i: int|
                0 <= i < ops.len() && #[trigger] ops[i].id == id && forall|j: int|
                    0 <= j < i ==> ops[j].id != id,
        )
    } else {
        None
    }
}

impl OperatorInUseList {
    /// An empty list.
    pub fn new() -> (list: OperatorInUseList)
        ensures
            list.0@.len() == 0,
    {
        OperatorInUseList(Vec::new())
    }

    /// Takes out the first operator with id `id`, when there is one; the
    /// others keep their order.
    pub fn remove_by_id(&mut self, id: u128)
        ensures
            match first_with_id(operators_model(old(self).0@), id) {
                Some(i) => operators_model(final(self).0@) == operators_model(old(self).0@).remove(i),
                None => operators_model(final(self).0@) == operators_model(old(self).0@),
            },
    {
        let ghost before = operators_model(self.0@);
        let mut i: usize = 0;
        while i < self.0.len()
            invariant
                i <= self.0@.len(),
                operators_model(self.0@) == before,
                before == operators_model(old(self).0@),
                forall|j: int| 0 <= j < i ==> self.0@[j].id != id,
            decreases self.0@.len() - i,
        {
            if self.0[i].id == id {
                let ghost old_v = self.0@;
                self.0.remove(i);
                proof {
                    assert(before[i as int] == old_v[i as int]@);
                    assert(before[i as int].id == id);
                    assert(forall|j: int| 0 <= j < i ==> before[j] == old_v[j]@);
                    assert(exists|k: int|
                        0 <= k < before.len() && #[trigger] before[k].id == id && forall|j: int|
                            0 <= j < k ==> before[j].id != id);
                    let k = choose|k: int|
                        0 <= k < before.len() && #[trigger] before[k].id == id && forall|j: int|
                            0 <= j < k ==> before[j].id != id;
                    assert(forall|j: int| 0 <= j < i ==> before[j].id != id);
                    assert(k == i) by {
                        if k < i {
                            assert(before[k].id != id);
                        } else if k > i {
                            assert(before[i as int].id != id);
                        }
                    }
                    assert(operators_model(self.0@) =~= before.remove(i as int));
                    assert(first_with_id(before, id) == Some(i as int));
                }
                return;
            }
            i = i + 1;
        }
        assert forall|k: int| 0 <= k < before.len() implies #[trigger] before[k].id != id by {
            assert(before[k] == self.0@[k]@);
        }
    }
}

} // verus!
