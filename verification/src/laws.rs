//! Properties that hold across calls: what the property edits, the plans,
//! the console sessions and the connection state promise of every input.

use vstd::prelude::*;
use crate::canvas::first_connection;
use crate::data::{find_column, ColumnKind, TableModel};
use crate::edits::{
    select_attribute_effect, deselect_attribute_effect, selected_attributes_key, with_attribute,
    without_attribute,
};
use crate::log::{added_message, ConsoleLog, LogModel};
use crate::operator::{OperatorKind, OperatorModel};
use crate::plans::{
    columns_where, encodable_columns, feature_names, kind_kept, numeric_columns, fill_plan, fill_step, is_encodable, is_numeric,
    FillModel, FillStep,
};
use crate::property::{distinct_keys, insert_entry, lookup, lemma_insert_entry, PropertyModel};
use crate::text::trimmed;

verus! {

/// Checking an attribute box lists the attribute exactly once more than
/// nothing: afterwards the list holds it, and checking it again changes
/// nothing.
pub proof fn law_select_attribute_idempotent(op: OperatorModel, name: Seq<char>)
    requires
        distinct_keys(op.properties),
    ensures
        select_attribute_effect(select_attribute_effect(op, name), name) == select_attribute_effect(
            op,
            name,
        ),
        op.kind == OperatorKind::SelectAttributes && lookup(op.properties, selected_attributes_key()) is Some
            && lookup(op.properties, selected_attributes_key())->0 is List ==> (lookup(
            select_attribute_effect(op, name).properties,
            selected_attributes_key(),
        ) matches Some(PropertyModel::List(items)) && items.contains(PropertyModel::Text(name))),
{
    let once = select_attribute_effect(op, name);
    if op.kind == OperatorKind::SelectAttributes {
        match lookup(op.properties, selected_attributes_key()) {
            Some(PropertyModel::List(items)) => {
                let items2 = with_attribute(items, name);
                lemma_insert_entry(op.properties, selected_attributes_key(), PropertyModel::List(items2));
                assert(items2.contains(PropertyModel::Text(name))) by {
                    if !items.contains(PropertyModel::Text(name)) {
                        assert(items2[items.len() as int] == PropertyModel::Text(name));
                    }
                }
                assert(with_attribute(items2, name) == items2);
                let p1 = once.properties;
                lemma_insert_entry(p1, selected_attributes_key(), PropertyModel::List(items2));
                lemma_insert_same(op.properties, selected_attributes_key(), PropertyModel::List(items2));
            },
            _ => {},
        }
    }
}

/// Setting a name twice to the same value is setting it once.
pub proof fn lemma_insert_same(
    e: Seq<(Seq<char>, PropertyModel)>,
    key: Seq<char>,
    v: PropertyModel,
)
    requires
        distinct_keys(e),
    ensures
        insert_entry(insert_entry(e, key, v), key, v) == insert_entry(e, key, v),
{
    let once = insert_entry(e, key, v);
    lemma_insert_entry(e, key, v);
    if exists|i: int| 0 <= i < e.len() && #[trigger] e[i].0 == key {
        let i = choose|i: int| 0 <= i < e.len() && #[trigger] e[i].0 == key;
        assert(once[i].0 == key);
        let j = choose|j: int| 0 <= j < once.len() && #[trigger] once[j].0 == key;
        assert(j == i) by {
            if j != i {
                assert(distinct_keys(once));
            }
        }
        assert(once.update(j, (key, v)) =~= once);
    } else {
        assert(once[e.len() as int].0 == key);
        let j = choose|j: int| 0 <= j < once.len() && #[trigger] once[j].0 == key;
        assert(j == e.len()) by {
            if j != e.len() {
                assert(once[j] == e[j]);
            }
        }
        assert(once.update(j, (key, v)) =~= once);
    }
}

/// Clearing an attribute box leaves no entry for that attribute.
pub proof fn law_deselect_attribute_removes(op: OperatorModel, name: Seq<char>)
    requires
        distinct_keys(op.properties),
    ensures
        op.kind == OperatorKind::SelectAttributes && lookup(op.properties, selected_attributes_key()) is Some
            && lookup(op.properties, selected_attributes_key())->0 is List ==> (lookup(
            deselect_attribute_effect(op, name).properties,
            selected_attributes_key(),
        ) matches Some(PropertyModel::List(items)) && !items.contains(PropertyModel::Text(name))),
{
    if op.kind == OperatorKind::SelectAttributes {
        match lookup(op.properties, selected_attributes_key()) {
            Some(PropertyModel::List(items)) => {
                let pred = |m: PropertyModel| m != PropertyModel::Text(name);
                let kept = without_attribute(items, name);
                lemma_insert_entry(op.properties, selected_attributes_key(), PropertyModel::List(kept));
                broadcast use vstd::seq_lib::group_filter_ensures;

                if kept.contains(PropertyModel::Text(name)) {
                    let k = choose|k: int| 0 <= k < kept.len() && kept[k] == PropertyModel::Text(name);
                    assert(pred(kept[k]));
                }
            },
            _ => {},
        }
    }
}

/// A plan of "Replace missing value" only fills columns that the table
/// has, and fills with a mean, a maximum or a minimum only numeric columns.
pub proof fn law_fill_plan_respects_columns(
    table: TableModel,
    entries: Seq<(Seq<char>, PropertyModel)>,
)
    ensures
        fill_plan(table, entries) is Ok ==> forall|i: int|
            0 <= i < fill_plan(table, entries)->Ok_0.len() ==> find_column(
                table.columns,
                (#[trigger] fill_plan(table, entries)->Ok_0[i]).0,
            ) is Some && (fill_plan(table, entries)->Ok_0[i].1 is Mean || fill_plan(
                table,
                entries,
            )->Ok_0[i].1 is Max || fill_plan(table, entries)->Ok_0[i].1 is Min ==> find_column(
                table.columns,
                fill_plan(table, entries)->Ok_0[i].0,
            ) == Some(ColumnKind::Numeric)),
    decreases entries.len(),
{
    if entries.len() > 0 {
        law_fill_plan_respects_columns(table, entries.drop_last());
        match fill_plan(table, entries.drop_last()) {
            Ok(prev) => match entries.last().1 {
                PropertyModel::Text(s) => {
                    let step = fill_step(table, entries.last().0, s);
                    if let FillStep::Fill(f) = step {
                        let plan = prev.push((entries.last().0, f));
                        assert forall|i: int| 0 <= i < plan.len() implies find_column(
                            table.columns,
                            #[trigger] plan[i].0,
                        ) is Some && (plan[i].1 is Mean || plan[i].1 is Max || plan[i].1 is Min
                            ==> find_column(table.columns, plan[i].0) == Some(
                            ColumnKind::Numeric,
                        )) by {
                            if i < prev.len() {
                                assert(plan[i] == prev[i]);
                            }
                        }
                    }
                },
                _ => {},
            },
            Err(_) => {},
        }
    }
}

/// Every feature of a regression is a numeric column of the table, and the
/// target is never among them.
pub proof fn law_target_not_a_feature(cols: Seq<(Seq<char>, ColumnKind)>, target: Seq<char>)
    ensures
        forall|i: int|
            0 <= i < feature_names(cols, target).len() ==> trimmed(
                #[trigger] feature_names(cols, target)[i],
            ) != target && cols.contains((feature_names(cols, target)[i], ColumnKind::Numeric)),
    decreases cols.len(),
{
    if cols.len() > 0 {
        let d = cols.drop_last();
        law_target_not_a_feature(d, target);
        let prev = feature_names(d, target);
        let f = feature_names(cols, target);
        assert forall|i: int| 0 <= i < f.len() implies trimmed(#[trigger] f[i]) != target
            && cols.contains((f[i], ColumnKind::Numeric)) by {
            if i < prev.len() {
                assert(f[i] == prev[i]);
                let j = choose|j: int| 0 <= j < d.len() && d[j] == (prev[i], ColumnKind::Numeric);
                assert(cols[j] == d[j]);
            } else {
                assert(cols[cols.len() - 1] == cols.last());
                assert(cols.last() == (f[i], ColumnKind::Numeric));
            }
        }
    }
}

/// The columns that "Normalizer & Encoder" rescales are numeric columns of
/// the table, and the ones it encodes are categorical or string columns, so
/// no column is both rescaled and encoded.
pub proof fn law_normalizer_columns_by_kind(cols: Seq<(Seq<char>, ColumnKind)>)
    ensures
        forall|i: int|
            0 <= i < numeric_columns(cols).len() ==> cols.contains(
                (#[trigger] numeric_columns(cols)[i], ColumnKind::Numeric),
            ),
        forall|i: int|
            0 <= i < encodable_columns(cols).len() ==> cols.contains(
                (#[trigger] encodable_columns(cols)[i], ColumnKind::Categorical),
            ) || cols.contains((encodable_columns(cols)[i], ColumnKind::Text)),
{
    lemma_columns_where_from(cols, true);
    lemma_columns_where_from(cols, false);
}

proof fn lemma_columns_where_from(cols: Seq<(Seq<char>, ColumnKind)>, numeric: bool)
    ensures
        numeric ==> forall|i: int|
            0 <= i < columns_where(cols, numeric).len() ==> cols.contains(
                (#[trigger] columns_where(cols, numeric)[i], ColumnKind::Numeric),
            ),
        !numeric ==> forall|i: int|
            0 <= i < columns_where(cols, numeric).len() ==> cols.contains(
                (#[trigger] columns_where(cols, numeric)[i], ColumnKind::Categorical),
            ) || cols.contains((columns_where(cols, numeric)[i], ColumnKind::Text)),
    decreases cols.len(),
{
    if cols.len() > 0 {
        let d = cols.drop_last();
        lemma_columns_where_from(d, numeric);
        let prev = columns_where(d, numeric);
        let all = columns_where(cols, numeric);
        let last = cols.last();
        assert(cols[cols.len() - 1] == last);
        if kind_kept(numeric, last.1) {
            assert(all == prev.push(last.0));
        } else {
            assert(all == prev);
        }
        assert forall|i: int| 0 <= i < all.len() implies (numeric ==> cols.contains(
            (#[trigger] all[i], ColumnKind::Numeric),
        )) && (!numeric ==> cols.contains((all[i], ColumnKind::Categorical)) || cols.contains(
            (all[i], ColumnKind::Text),
        )) by {
            if i < prev.len() {
                assert(all[i] == prev[i]);
                if numeric {
                    let j = choose|j: int| 0 <= j < d.len() && d[j] == (prev[i], ColumnKind::Numeric);
                    assert(cols[j] == d[j]);
                } else if d.contains((prev[i], ColumnKind::Categorical)) {
                    let j = choose|j: int| 0 <= j < d.len() && d[j] == (prev[i], ColumnKind::Categorical);
                    assert(cols[j] == d[j]);
                } else {
                    let j = choose|j: int| 0 <= j < d.len() && d[j] == (prev[i], ColumnKind::Text);
                    assert(cols[j] == d[j]);
                }
            } else {
                assert(all[i] == last.0);
                assert(last == (last.0, last.1));
            }
        }
    }
}

/// `after` opened a new session on `before`: the next key, empty.
pub open spec fn session_opened(before: ConsoleLog, after: ConsoleLog) -> bool {
    &&& after.last_key_count == before.last_key_count + 1
    &&& after.sessions() == before.sessions().insert(after.last_key_count, Seq::empty())
}

/// A message logged right after a new session opens is the whole of that
/// session, and every earlier session stays as it was.
pub proof fn law_new_session_then_message(
    before: ConsoleLog,
    mid: ConsoleLog,
    after: ConsoleLog,
    m: LogModel,
)
    requires
        session_opened(before, mid),
        added_message(mid, after, m),
    ensures
        after.sessions()[after.last_key_count] == seq![m],
        forall|k: usize|
            k != after.last_key_count && before.sessions().contains_key(k) ==> after.sessions()[k]
                == before.sessions()[k],
{
    assert(mid.wf());
    assert(Seq::<LogModel>::empty().push(m) =~= seq![m]);
}

/// A connection recorded under an id that no earlier connection has is the
/// one that removing the hovered connection with that id takes out, and
/// taking it out leaves the connections as they were before it was made.
pub proof fn law_connect_then_remove(
    before: Seq<(u128, u64, u64)>,
    id: u128,
    out_entity: u64,
    in_entity: u64,
)
    requires
        forall|j: int| 0 <= j < before.len() ==> #[trigger] before[j].0 != id,
    ensures
        first_connection(before.push((id, out_entity, in_entity)), id) == Some(before.len() as int),
        before.push((id, out_entity, in_entity)).remove(before.len() as int) == before,
{
    let after = before.push((id, out_entity, in_entity));
    let n = before.len() as int;
    assert(after[n].0 == id);
    assert(forall|j: int| 0 <= j < n ==> after[j] == before[j]);
    let k = choose|k: int|
        0 <= k < after.len() && #[trigger] after[k].0 == id && forall|j: int|
            0 <= j < k ==> after[j].0 != id;
    assert(k == n) by {
        if k < n {
            assert(after[k] == before[k]);
        }
    }
    assert(after.remove(n) =~= before);
}

} // verus!
