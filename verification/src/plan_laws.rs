//! What the operator plans promise of every input, stated in terms of the
//! table's columns and the properties alone: which columns a regression is
//! fitted on, how each strategy text fills a column, which columns the
//! normalizer touches, that selected columns exist, and how many rows an
//! append gives.

use vstd::prelude::*;
use crate::data::{find_column, ColumnKind, DataModel, TableModel};
use crate::plans::{
    append_rows_result, clean_target, columns_where, feature_names, fill_plan, fill_step,
    first_missing_column, normalizer_plan_holds, regression_plan_holds, select_plan_holds,
    text_items, texts_model, FillModel, FillStep, NormalizationMethod,
};
use crate::property::{lookup, PropertyModel};
use crate::text::trimmed;

verus! {

/// The name of a column.
pub open spec fn name_of() -> spec_fn((Seq<char>, ColumnKind)) -> Seq<char> {
    |c: (Seq<char>, ColumnKind)| c.0
}

/// A numeric column whose trimmed name is not `target`.
pub open spec fn numeric_other_than(target: Seq<char>) -> spec_fn((Seq<char>, ColumnKind)) -> bool {
    |c: (Seq<char>, ColumnKind)| c.1 == ColumnKind::Numeric && trimmed(c.0) != target
}

/// A numeric column.
pub open spec fn numeric_column() -> spec_fn((Seq<char>, ColumnKind)) -> bool {
    |c: (Seq<char>, ColumnKind)| c.1 == ColumnKind::Numeric
}

/// A categorical or string column.
pub open spec fn encodable_column() -> spec_fn((Seq<char>, ColumnKind)) -> bool {
    |c: (Seq<char>, ColumnKind)| c.1 == ColumnKind::Categorical || c.1 == ColumnKind::Text
}

proof fn lemma_features_are_filter(cols: Seq<(Seq<char>, ColumnKind)>, target: Seq<char>)
    ensures
        feature_names(cols, target) == cols.filter(numeric_other_than(target)).map_values(name_of()),
    decreases cols.len(),
{
    reveal_with_fuel(Seq::filter, 1);
    if cols.len() > 0 {
        let d = cols.drop_last();
        lemma_features_are_filter(d, target);
        let fd = d.filter(numeric_other_than(target));
        assert(cols.drop_last() == d);
        if numeric_other_than(target)(cols.last()) {
            assert(cols.filter(numeric_other_than(target)) == fd.push(cols.last()));
            assert(fd.push(cols.last()).map_values(name_of()) =~= fd.map_values(name_of()).push(
                cols.last().0,
            ));
        } else {
            assert(cols.filter(numeric_other_than(target)) == fd);
        }
    } else {
        assert(cols.filter(numeric_other_than(target)).map_values(name_of()) =~= Seq::empty());
    }
}

proof fn lemma_columns_where_is_filter(cols: Seq<(Seq<char>, ColumnKind)>, numeric: bool)
    ensures
        numeric ==> columns_where(cols, numeric) == cols.filter(numeric_column()).map_values(
            name_of(),
        ),
        !numeric ==> columns_where(cols, numeric) == cols.filter(encodable_column()).map_values(
            name_of(),
        ),
    decreases cols.len(),
{
    reveal_with_fuel(Seq::filter, 1);
    let p = if numeric {
        numeric_column()
    } else {
        encodable_column()
    };
    if cols.len() > 0 {
        let d = cols.drop_last();
        lemma_columns_where_is_filter(d, numeric);
        let fd = d.filter(p);
        assert(cols.drop_last() == d);
        if p(cols.last()) {
            assert(cols.filter(p) == fd.push(cols.last()));
            assert(fd.push(cols.last()).map_values(name_of()) =~= fd.map_values(name_of()).push(
                cols.last().0,
            ));
        } else {
            assert(cols.filter(p) == fd);
        }
    } else {
        assert(cols.filter(p).map_values(name_of()) =~= Seq::empty());
    }
}

/// The column found for `name` is the first one with that name.
proof fn lemma_find_first(cols: Seq<(Seq<char>, ColumnKind)>, name: Seq<char>, j: int)
    requires
        0 <= j < cols.len(),
        cols[j].0 == name,
        forall|k: int| 0 <= k < j ==> cols[k].0 != name,
    ensures
        find_column(cols, name) == Some(cols[j].1),
    decreases j,
{
    if j > 0 {
        let d = cols.drop_first();
        assert forall|k: int| 0 <= k < j - 1 implies d[k].0 != name by {
            assert(d[k] == cols[k + 1]);
        }
        assert(d[j - 1] == cols[j]);
        lemma_find_first(d, name, j - 1);
        assert(cols[0].0 != name);
    }
}

/// A column is found for `name` exactly when some column has that name.
proof fn lemma_find_exists(cols: Seq<(Seq<char>, ColumnKind)>, name: Seq<char>)
    ensures
        find_column(cols, name) is Some <==> exists|j: int| 0 <= j < cols.len() && #[trigger] cols[j].0 == name,
    decreases cols.len(),
{
    if cols.len() > 0 {
        let d = cols.drop_first();
        lemma_find_exists(d, name);
        if cols[0].0 != name {
            if exists|j: int| 0 <= j < cols.len() && #[trigger] cols[j].0 == name {
                let j = choose|j: int| 0 <= j < cols.len() && #[trigger] cols[j].0 == name;
                assert(d[j - 1] == cols[j]);
            }
            if exists|j: int| 0 <= j < d.len() && #[trigger] d[j].0 == name {
                let j = choose|j: int| 0 <= j < d.len() && #[trigger] d[j].0 == name;
                assert(cols[j + 1] == d[j]);
            }
        }
    }
}

proof fn lemma_no_missing(names: Seq<Seq<char>>, cols: Seq<(Seq<char>, ColumnKind)>)
    ensures
        first_missing_column(names, cols) is None <==> forall|i: int|
            #![trigger names[i]]
            0 <= i < names.len() ==> exists|j: int| 0 <= j < cols.len() && #[trigger] cols[j].0
                == names[i],
    decreases names.len(),
{
    if names.len() > 0 {
        let d = names.drop_last();
        lemma_no_missing(d, cols);
        lemma_find_exists(cols, names.last());
        if first_missing_column(names, cols) is None {
            assert forall|i: int| #![trigger names[i]] 0 <= i < names.len() implies exists|j: int|
                0 <= j < cols.len() && #[trigger] cols[j].0 == names[i] by {
                if i < d.len() {
                    assert(d[i] == names[i]);
                }
            }
        } else {
            if first_missing_column(d, cols) is Some {
                let i = choose|i: int|
                    #![trigger d[i]]
                    0 <= i < d.len() && !exists|j: int|
                        0 <= j < cols.len() && #[trigger] cols[j].0 == d[i];
                assert(d[i] == names[i]);
            } else {
                assert(names[names.len() - 1] == names.last());
            }
        }
    }
}

/// A regression is fitted on exactly the numeric columns of the table whose
/// trimmed name differs from the target, in table order; and it is planned
/// whenever the target is non-empty text naming a numeric column (the first
/// column with that name) and at least one such feature column exists.
pub proof fn law_regression_features(
    input: DataModel,
    props: Seq<(Seq<char>, PropertyModel)>,
    r: Result<crate::plans::RegressionPlan, String>,
)
    requires
        regression_plan_holds(input, props, r),
    ensures
        r is Ok ==> input is Table,
        match (input, r) {
            (DataModel::Table(t), Ok(p)) => texts_model(p.features@) == t.columns.filter(
                numeric_other_than(p.target@),
            ).map_values(name_of()),
            _ => true,
        },
        match (input, lookup(props, "target"@)) {
            (DataModel::Table(t), Some(PropertyModel::Text(s))) => (s.len() > 0 && t.columns.filter(
                numeric_other_than(clean_target(s)),
            ).len() > 0 && exists|j: int|
                0 <= j < t.columns.len() && t.columns[j] == (clean_target(s), ColumnKind::Numeric)
                    && forall|k: int| 0 <= k < j ==> t.columns[k].0 != clean_target(s)) ==> r is Ok,
            _ => true,
        },
{
    if let DataModel::Table(t) = input {
        if let Some(PropertyModel::Text(s)) = lookup(props, "target"@) {
            let target = clean_target(s);
            lemma_features_are_filter(t.columns, target);
            if exists|j: int|
                0 <= j < t.columns.len() && t.columns[j] == (target, ColumnKind::Numeric) && forall|
                    k: int,
                | 0 <= k < j ==> t.columns[k].0 != target {
                let j = choose|j: int|
                    0 <= j < t.columns.len() && t.columns[j] == (target, ColumnKind::Numeric)
                        && forall|k: int| 0 <= k < j ==> t.columns[k].0 != target;
                lemma_find_first(t.columns, target, j);
            }
        }
    }
}

/// The strategy texts differ from one another.
proof fn lemma_strategy_texts_differ()
    ensures
        "Forward Fill"@ != "Null"@ && "Forward Fill"@ != ""@ && "Forward Fill"@ != "Mean"@
            && "Forward Fill"@ != "Average"@ && "Forward Fill"@ != "Max"@ && "Forward Fill"@
            != "Min"@,
        "Backward Fill"@ != "Null"@ && "Backward Fill"@ != ""@ && "Backward Fill"@ != "Mean"@
            && "Backward Fill"@ != "Average"@ && "Backward Fill"@ != "Max"@ && "Backward Fill"@
            != "Min"@ && "Backward Fill"@ != "Forward Fill"@,
        "Mode"@ != "Null"@ && "Mode"@ != ""@ && "Mode"@ != "Mean"@ && "Mode"@ != "Average"@
            && "Mode"@ != "Max"@ && "Mode"@ != "Min"@ && "Mode"@ != "Forward Fill"@ && "Mode"@
            != "Backward Fill"@,
{
    reveal_strlit("Forward Fill");
    reveal_strlit("Backward Fill");
    reveal_strlit("Mode");
    reveal_strlit("Null");
    reveal_strlit("");
    reveal_strlit("Mean");
    reveal_strlit("Average");
    reveal_strlit("Max");
    reveal_strlit("Min");
    assert("Forward Fill"@.len() == 12);
    assert("Backward Fill"@.len() == 13);
    assert("Average"@.len() == 7);
    assert("Mode"@.len() == 4 && "Null"@.len() == 4 && "Mean"@.len() == 4);
    assert("Max"@.len() == 3 && "Min"@.len() == 3 && ""@.len() == 0);
    assert("Mode"@[0] != "Null"@[0]);
    assert("Mode"@[1] != "Mean"@[1]);
}

/// How a strategy text fills a column that the table has: "Forward Fill",
/// "Backward Fill" and "Mode" fill as they say, "Null" and "" leave the
/// column, and any other text that is no aggregate fills with that text.
/// None of these depends on the column's kind: the same strategy on a
/// column of another table, of any kind, gives the same fill.
pub proof fn law_fill_strategies(
    t1: TableModel,
    t2: TableModel,
    column: Seq<char>,
    strategy: Seq<char>,
)
    requires
        find_column(t1.columns, column) is Some,
        find_column(t2.columns, column) is Some,
        strategy != "Mean"@ && strategy != "Average"@ && strategy != "Max"@ && strategy != "Min"@,
    ensures
        fill_step(t1, column, strategy) == fill_step(t2, column, strategy),
        strategy == "Forward Fill"@ ==> fill_step(t1, column, strategy) == FillStep::Fill(
            FillModel::ForwardFill,
        ),
        strategy == "Backward Fill"@ ==> fill_step(t1, column, strategy) == FillStep::Fill(
            FillModel::BackwardFill,
        ),
        strategy == "Mode"@ ==> fill_step(t1, column, strategy) == FillStep::Fill(FillModel::Mode),
        strategy == "Null"@ || strategy == ""@ ==> fill_step(t1, column, strategy) == FillStep::Skip,
        strategy != "Null"@ && strategy != ""@ && strategy != "Forward Fill"@ && strategy
            != "Backward Fill"@ && strategy != "Mode"@ ==> fill_step(t1, column, strategy)
            == FillStep::Fill(FillModel::Literal(strategy)),
{
    lemma_strategy_texts_differ();
    reveal_strlit("Forward Fill");
    reveal_strlit("Backward Fill");
    reveal_strlit("Mode");
    reveal_strlit("Null");
    reveal_strlit("");
    reveal_strlit("Mean");
    reveal_strlit("Average");
    reveal_strlit("Max");
    reveal_strlit("Min");
}

/// A plan of "Replace missing value" that succeeds holds, for each entry of
/// the strategy map whose text fills its column, that column with that
/// fill.
pub proof fn law_fill_plan_keeps_each_fill(
    table: TableModel,
    entries: Seq<(Seq<char>, PropertyModel)>,
    j: int,
    s: Seq<char>,
    f: FillModel,
)
    requires
        fill_plan(table, entries) is Ok,
        0 <= j < entries.len(),
        entries[j].1 == PropertyModel::Text(s),
        fill_step(table, entries[j].0, s) == FillStep::Fill(f),
    ensures
        fill_plan(table, entries)->Ok_0.contains((entries[j].0, f)),
    decreases entries.len(),
{
    let d = entries.drop_last();
    if fill_plan(table, d) is Err {
        assert(fill_plan(table, entries) is Err);
    }
    let prev = fill_plan(table, d)->Ok_0;
    let all = fill_plan(table, entries)->Ok_0;
    if j == entries.len() - 1 {
        assert(entries.last() == entries[j]);
        assert(all == prev.push((entries[j].0, f)));
        assert(all[prev.len() as int] == (entries[j].0, f));
    } else {
        assert(d[j] == entries[j]);
        law_fill_plan_keeps_each_fill(table, d, j, s, f);
        let k = choose|k: int| 0 <= k < prev.len() && prev[k] == (entries[j].0, f);
        assert(all == prev || exists|x| all == prev.push(x));
        if all != prev {
            let x = choose|x| all == prev.push(x);
            assert(all[k] == prev[k]);
        }
    }
}

/// An entry "Forward Fill" (or "Backward Fill", or "Mode") for a column that
/// the table has, of any kind, puts that fill for that column in the plan.
pub proof fn law_named_fills_in_plan(
    table: TableModel,
    entries: Seq<(Seq<char>, PropertyModel)>,
    j: int,
)
    requires
        fill_plan(table, entries) is Ok,
        0 <= j < entries.len(),
        find_column(table.columns, entries[j].0) is Some,
    ensures
        entries[j].1 == PropertyModel::Text("Forward Fill"@) ==> fill_plan(table, entries)->Ok_0.contains(
            (entries[j].0, FillModel::ForwardFill),
        ),
        entries[j].1 == PropertyModel::Text("Backward Fill"@) ==> fill_plan(table, entries)->Ok_0.contains(
            (entries[j].0, FillModel::BackwardFill),
        ),
        entries[j].1 == PropertyModel::Text("Mode"@) ==> fill_plan(table, entries)->Ok_0.contains(
            (entries[j].0, FillModel::Mode),
        ),
{
    reveal_strlit("Forward Fill");
    reveal_strlit("Backward Fill");
    reveal_strlit("Mode");
    reveal_strlit("Mean");
    reveal_strlit("Average");
    reveal_strlit("Max");
    reveal_strlit("Min");
    lemma_strategy_texts_differ();
    let c = entries[j].0;
    if entries[j].1 == PropertyModel::Text("Forward Fill"@) {
        law_fill_strategies(table, table, c, "Forward Fill"@);
        law_fill_plan_keeps_each_fill(table, entries, j, "Forward Fill"@, FillModel::ForwardFill);
    }
    if entries[j].1 == PropertyModel::Text("Backward Fill"@) {
        law_fill_strategies(table, table, c, "Backward Fill"@);
        law_fill_plan_keeps_each_fill(table, entries, j, "Backward Fill"@, FillModel::BackwardFill);
    }
    if entries[j].1 == PropertyModel::Text("Mode"@) {
        law_fill_strategies(table, table, c, "Mode"@);
        law_fill_plan_keeps_each_fill(table, entries, j, "Mode"@, FillModel::Mode);
    }
}

/// "Normalizer & Encoder" rescales all the numeric columns of the table,
/// in order, unless `apply_normalization` is the boolean false, and then
/// none; it encodes all the categorical and string columns unless
/// `apply_one_hot_encoding` is the boolean false, and then none. It uses
/// z-scores exactly when `normalization_method` is the text "z-score".
pub proof fn law_normalizer_flags(
    input: DataModel,
    props: Seq<(Seq<char>, PropertyModel)>,
    r: Option<crate::plans::NormalizerPlan>,
)
    requires
        normalizer_plan_holds(input, props, r),
    ensures
        (input is Table) <==> (r is Some),
        match (input, r) {
            (DataModel::Table(t), Some(p)) => {
                &&& lookup(props, "apply_normalization"@) == Some(PropertyModel::Bool(false))
                    ==> p.normalize_columns@.len() == 0
                &&& lookup(props, "apply_normalization"@) != Some(PropertyModel::Bool(false))
                    ==> texts_model(p.normalize_columns@) == t.columns.filter(
                    numeric_column(),
                ).map_values(name_of())
                &&& lookup(props, "apply_one_hot_encoding"@) == Some(PropertyModel::Bool(false))
                    ==> p.encode_columns@.len() == 0
                &&& lookup(props, "apply_one_hot_encoding"@) != Some(PropertyModel::Bool(false))
                    ==> texts_model(p.encode_columns@) == t.columns.filter(
                    encodable_column(),
                ).map_values(name_of())
                &&& (p.method == NormalizationMethod::ZScore) <==> lookup(
                    props,
                    "normalization_method"@,
                ) == Some(PropertyModel::Text("z-score"@))
            },
            _ => true,
        },
{
    if let DataModel::Table(t) = input {
        lemma_columns_where_is_filter(t.columns, true);
        lemma_columns_where_is_filter(t.columns, false);
    }
}

/// Every column that a successful plan of "Select Attributes" keeps is a
/// column of the input table, and the plan succeeds with the listed names,
/// in order, whenever every listed name is a column.
pub proof fn law_selected_columns_exist(
    input: DataModel,
    props: Seq<(Seq<char>, PropertyModel)>,
    r: Result<Vec<String>, String>,
)
    requires
        select_plan_holds(input, props, r),
    ensures
        match (input, r) {
            (DataModel::Table(t), Ok(v)) => forall|i: int|
                #![trigger v@[i]]
                0 <= i < v@.len() ==> exists|j: int|
                    0 <= j < t.columns.len() && #[trigger] t.columns[j].0 == v@[i]@,
            _ => true,
        },
        match (input, lookup(props, "selected_attributes"@)) {
            (DataModel::Table(t), Some(PropertyModel::List(items))) => (forall|i: int|
                #![trigger text_items(items)[i]]
                0 <= i < text_items(items).len() ==> exists|j: int|
                    0 <= j < t.columns.len() && #[trigger] t.columns[j].0 == text_items(items)[i])
                ==> (r matches Ok(v) && texts_model(v@) == text_items(items)),
            _ => true,
        },
{
    if let DataModel::Table(t) = input {
        if let Some(PropertyModel::List(items)) = lookup(props, "selected_attributes"@) {
            let names = text_items(items);
            lemma_no_missing(names, t.columns);
            if let Ok(v) = r {
                assert forall|i: int| #![trigger v@[i]] 0 <= i < v@.len() implies exists|j: int|
                    0 <= j < t.columns.len() && #[trigger] t.columns[j].0 == v@[i]@ by {
                    assert(texts_model(v@)[i] == v@[i]@);
                    assert(names[i] == v@[i]@);
                }
            }
        }
    }
}

/// Appending succeeds exactly when the two tables have the same columns,
/// and then gives those columns with all the rows of both tables.
pub proof fn law_append_rows(a: TableModel, b: TableModel)
    ensures
        (append_rows_result(a, b) is Ok) <==> a.columns == b.columns,
        match append_rows_result(a, b) {
            Ok(t) => t.columns == a.columns && t.height == a.height + b.height,
            Err(_) => true,
        },
{
}

} // verus!
