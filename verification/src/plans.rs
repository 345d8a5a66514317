//! What each operator kind does when it runs, decided from its input and its
//! properties: which file to read or write, which columns to keep, fill,
//! rescale or encode, how to split the rows, and which columns a regression
//! uses. The data-frame engine then carries the plan out on the cells. Each
//! refusal comes with the message that the console shows.

use vstd::prelude::*;
use crate::data::{find_column, ColumnKind, DataModel, DataValue, TableInfo, TableModel};
use crate::property::{lookup, PropertyMap, PropertyModel, PropertyValue};
use crate::text::{same_text, trim, remove_char, trimmed, without_char};

verus! {

broadcast use vstd::std_specs::vec::group_vec_axioms;

// ---------------------------------------------------------------------------
// Replace missing value

/// How the nulls of one column are filled.
#[derive(Debug)]
pub enum FillStrategy {
    /// The column's mean ("Mean" or "Average").
    Mean,
    /// The column's largest value.
    Max,
    /// The column's smallest value.
    Min,
    /// The last non-null value before the gap.
    ForwardFill,
    /// The next non-null value after the gap.
    BackwardFill,
    /// The column's most frequent value ("Mode"), for a column of any kind.
    Mode,
    /// A fixed text ("Unknown", or any other strategy text as it stands).
    Literal(String),
}

pub enum FillModel {
    Mean,
    Max,
    Min,
    ForwardFill,
    BackwardFill,
    Mode,
    Literal(Seq<char>),
}

impl View for FillStrategy {
    type V = FillModel;

    open spec fn view(&self) -> FillModel {
        match self {
            FillStrategy::Mean => FillModel::Mean,
            FillStrategy::Max => FillModel::Max,
            FillStrategy::Min => FillModel::Min,
            FillStrategy::ForwardFill => FillModel::ForwardFill,
            FillStrategy::BackwardFill => FillModel::BackwardFill,
            FillStrategy::Mode => FillModel::Mode,
            FillStrategy::Literal(s) => FillModel::Literal(s@),
        }
    }
}

/// One column to fill, and how.
#[derive(Debug)]
pub struct ColumnFill {
    pub column: String,
    pub strategy: FillStrategy,
}

impl View for ColumnFill {
    type V = (Seq<char>, FillModel);

    open spec fn view(&self) -> (Seq<char>, FillModel) {
        (self.column@, self.strategy@)
    }
}

/// What one (column, strategy) entry comes to.
pub enum FillStep {
    Skip,
    Fill(FillModel),
    Fail(Seq<char>),
}

pub open spec fn column_not_found_message(column: Seq<char>) -> Seq<char> {
    "[Replace Missing Value] Column '"@ + column + "' not found"@
}

pub open spec fn non_numeric_message(strategy: Seq<char>, column: Seq<char>) -> Seq<char> {
    "[Replace Missing Value] Cannot use '"@ + strategy + "' on non-numeric column '"@ + column
        + "'"@
}

pub open spec fn is_aggregate(strategy: Seq<char>) -> bool {
    strategy == "Mean"@ || strategy == "Average"@ || strategy == "Max"@ || strategy == "Min"@
}

/// The fill for column `column` of `table` under strategy text `strategy`.
pub open spec fn fill_step(table: TableModel, column: Seq<char>, strategy: Seq<char>) -> FillStep {
    match find_column(table.columns, column) {
        None => FillStep::Fail(column_not_found_message(column)),
        Some(kind) => if strategy == "Null"@ || strategy == ""@ {
            FillStep::Skip
        } else if is_aggregate(strategy) {
            if kind != ColumnKind::Numeric {
                FillStep::Fail(non_numeric_message(strategy, column))
            } else if strategy == "Max"@ {
                FillStep::Fill(FillModel::Max)
            } else if strategy == "Min"@ {
                FillStep::Fill(FillModel::Min)
            } else {
                FillStep::Fill(FillModel::Mean)
            }
        } else if strategy == "Forward Fill"@ {
            FillStep::Fill(FillModel::ForwardFill)
        } else if strategy == "Backward Fill"@ {
            FillStep::Fill(FillModel::BackwardFill)
        } else if strategy == "Mode"@ {
            FillStep::Fill(FillModel::Mode)
        } else {
            FillStep::Fill(FillModel::Literal(strategy))
        },
    }
}

/// The fills for the strategy entries `entries`, taken in order; the first
/// entry that fails decides the error. An entry whose value is not text is
/// passed over.
pub open spec fn fill_plan(
    table: TableModel,
    entries: Seq<(Seq<char>, PropertyModel)>,
) -> Result<Seq<(Seq<char>, FillModel)>, Seq<char>>
    decreases entries.len(),
{
    if entries.len() == 0 {
        Ok(Seq::empty())
    } else {
        match fill_plan(table, entries.drop_last()) {
            Err(e) => Err(e),
            Ok(prev) => match entries.last().1 {
                PropertyModel::Text(s) => match fill_step(table, entries.last().0, s) {
                    FillStep::Skip => Ok(prev),
                    FillStep::Fill(f) => Ok(prev.push((entries.last().0, f))),
                    FillStep::Fail(e) => Err(e),
                },
                _ => Ok(prev),
            },
        }
    }
}

/// What "Replace missing value" does with `input` and `props`.
pub open spec fn missing_value_plan(input: DataModel, props: Seq<(Seq<char>, PropertyModel)>) -> Result<
    Seq<(Seq<char>, FillModel)>,
    Seq<char>,
> {
    match input {
        DataModel::Table(t) => match lookup(props, "columns_with_missing_value"@) {
            Some(PropertyModel::Dict(m)) => fill_plan(t, m),
            _ => Err("[Replace Missing Value] Configuration property missing"@),
        },
        _ => Err("[Replace Missing Value] Input is not a Table"@),
    }
}

pub open spec fn fills_model(v: Seq<ColumnFill>) -> Seq<(Seq<char>, FillModel)> {
    Seq::new(v.len(), |i: int| v[i]@)
}

fn fill_for(table: &TableInfo, column: &String, strategy: &String) -> (r: Result<Option<FillStrategy>, String>)
    ensures
        match fill_step(table@, column@, strategy@) {
            FillStep::Skip => r matches Ok(None),
            FillStep::Fill(f) => r matches Ok(Some(s)) && s@ == f,
            FillStep::Fail(e) => r matches Err(m) && m@ == e,
        },
{
    let kind = match table.column_kind(column.as_str()) {
        Some(k) => k,
        None => {
            let m = String::from_str("[Replace Missing Value] Column '").concat(column.as_str()).concat(
                "' not found",
            );
            return Err(m);
        },
    };
    let st = strategy.as_str();
    if same_text(st, "Null") || same_text(st, "") {
        return Ok(None);
    }
    let is_max = same_text(st, "Max");
    let is_min = same_text(st, "Min");
    if same_text(st, "Mean") || same_text(st, "Average") || is_max || is_min {
        if kind != ColumnKind::Numeric {
            let m = String::from_str("[Replace Missing Value] Cannot use '").concat(st).concat(
                "' on non-numeric column '",
            ).concat(column.as_str()).concat("'");
            return Err(m);
        }
        if is_max {
            return Ok(Some(FillStrategy::Max));
        } else if is_min {
            return Ok(Some(FillStrategy::Min));
        } else {
            return Ok(Some(FillStrategy::Mean));
        }
    }
    if same_text(st, "Forward Fill") {
        Ok(Some(FillStrategy::ForwardFill))
    } else if same_text(st, "Backward Fill") {
        Ok(Some(FillStrategy::BackwardFill))
    } else if same_text(st, "Mode") {
        Ok(Some(FillStrategy::Mode))
    } else {
        Ok(Some(FillStrategy::Literal(strategy.clone())))
    }
}

fn plan_fills(table: &TableInfo, m: &PropertyMap) -> (r: Result<Vec<ColumnFill>, String>)
    ensures
        match fill_plan(table@, m@) {
            Ok(p) => r matches Ok(v) && fills_model(v@) == p,
            Err(e) => r matches Err(x) && x@ == e,
        },
{
    let mut out: Vec<ColumnFill> = Vec::new();
    let n = m.len();
    let mut i: usize = 0;
    assert(m@.take(0).len() == 0);
    assert(fills_model(out@) =~= Seq::<(Seq<char>, FillModel)>::empty());
    while i < n
        invariant
            n == m@.len(),
            i <= n,
            fill_plan(table@, m@.take(i as int)) == Ok::<Seq<(Seq<char>, FillModel)>, Seq<char>>(
                fills_model(out@),
            ),
        decreases n - i,
    {
        proof {
            assert(m@.take(i + 1).drop_last() =~= m@.take(i as int));
            assert(m@.take(i + 1).last() == m@[i as int]);
        }
        let key = m.key_at(i);
        match m.value_at(i) {
            PropertyValue::String(strategy) => {
                match fill_for(table, key, strategy) {
                    Err(e) => {
                        proof {
                            lemma_fill_plan_err_stays(table@, m@, i as int + 1);
                        }
                        return Err(e);
                    },
                    Ok(None) => {},
                    Ok(Some(s)) => {
                        let ghost before = fills_model(out@);
                        out.push(ColumnFill { column: key.clone(), strategy: s });
                        assert(fills_model(out@) =~= before.push(out@.last()@));
                    },
                }
            },
            _ => {},
        }
        i = i + 1;
    }
    assert(m@.take(n as int) =~= m@);
    Ok(out)
}

proof fn lemma_fill_plan_err_stays(
    table: TableModel,
    e: Seq<(Seq<char>, PropertyModel)>,
    k: int,
)
    requires
        0 <= k <= e.len(),
        fill_plan(table, e.take(k)) is Err,
    ensures
        fill_plan(table, e) == fill_plan(table, e.take(k)),
    decreases e.len() - k,
{
    if k < e.len() {
        assert(e.take(k + 1).drop_last() =~= e.take(k));
        lemma_fill_plan_err_stays(table, e, k + 1);
    } else {
        assert(e.take(k) =~= e);
    }
}

/// The plan of "Replace missing value": which columns to fill and how, or
/// the error that stops the run. The input must be a table and the
/// `columns_with_missing_value` property a map; each entry whose strategy is
/// text must name a column of the table, and "Mean", "Average", "Max" and
/// "Min" need a numeric column; "Mode" fills with the most frequent value
/// of a column of any kind. "Null" and "" leave a column as it is.
pub fn plan_missing_value_replacement(input: &DataValue, properties: &PropertyMap) -> (r: Result<
    Vec<ColumnFill>,
    String,
>)
    ensures
        match missing_value_plan(input@, properties@) {
            Ok(p) => r matches Ok(v) && fills_model(v@) == p,
            Err(e) => r matches Err(x) && x@ == e,
        },
{
    let table = match input {
        DataValue::Table(t) => t,
        _ => {
            return Err(String::from_str("[Replace Missing Value] Input is not a Table"));
        },
    };
    match properties.get("columns_with_missing_value") {
        Some(PropertyValue::Dict(m)) => plan_fills(table, m),
        _ => Err(String::from_str("[Replace Missing Value] Configuration property missing")),
    }
}

// ---------------------------------------------------------------------------
// Read CSV, Read Excel, Append CSV

/// The file that "Read CSV" reads: its `file_path` property, which must be
/// text.
pub fn read_csv_path(properties: &PropertyMap) -> (r: Result<String, String>)
    ensures
        match lookup(properties@, "file_path"@) {
            Some(PropertyModel::Text(p)) => r matches Ok(s) && s@ == p,
            _ => r matches Err(e) && e@ == "[Read CSV] Failed to read CSV file"@,
        },
{
    match properties.get("file_path") {
        Some(PropertyValue::String(s)) => Ok(s.clone()),
        _ => Err(String::from_str("[Read CSV] Failed to read CSV file")),
    }
}

/// The workbook that "Read Excel" reads: its `file_path` property, which
/// must be text.
pub fn read_excel_path(properties: &PropertyMap) -> (r: Result<String, String>)
    ensures
        match lookup(properties@, "file_path"@) {
            Some(PropertyModel::Text(p)) => r matches Ok(s) && s@ == p,
            _ => r matches Err(e) && e@ == "[Read Excel] Failed to read Excel file"@,
        },
{
    match properties.get("file_path") {
        Some(PropertyValue::String(s)) => Ok(s.clone()),
        _ => Err(String::from_str("[Read Excel] Failed to read Excel file")),
    }
}

/// The file whose rows "Append CSV" appends to its input table: its
/// `another_csv_file_path` property. The input must be a table and the
/// property text, checked in that order.
pub fn plan_append_csv(input: &DataValue, properties: &PropertyMap) -> (r: Result<String, String>)
    ensures
        match input@ {
            DataModel::Table(_) => match lookup(properties@, "another_csv_file_path"@) {
                Some(PropertyModel::Text(p)) => r matches Ok(s) && s@ == p,
                _ => r matches Err(e) && e@ == "[Append CSV] Failed to read CSV file"@,
            },
            _ => r matches Err(e) && e@ == "[Append CSV] Input is not a Table"@,
        },
{
    if !input.is_table() {
        return Err(String::from_str("[Append CSV] Input is not a Table"));
    }
    match properties.get("another_csv_file_path") {
        Some(PropertyValue::String(s)) => Ok(s.clone()),
        _ => Err(String::from_str("[Append CSV] Failed to read CSV file")),
    }
}

/// The table that appending the rows of `other` below `input` gives: the
/// columns of `input`, and the rows of both. The two tables must have the
/// same column names and kinds in the same order.
pub open spec fn append_rows_result(input: TableModel, other: TableModel) -> Result<TableModel, Seq<char>> {
    if input.columns != other.columns {
        Err("[Append CSV] The columns of the appended file do not match"@)
    } else {
        Ok(TableModel { columns: input.columns, height: input.height + other.height })
    }
}

/// Checks that the table read from the other file can be stacked below the
/// input table, and gives the shape of the result.
pub fn append_rows(input: &TableInfo, other: &TableInfo) -> (r: Result<TableInfo, String>)
    requires
        input.height + other.height <= usize::MAX,
    ensures
        match append_rows_result(input@, other@) {
            Ok(t) => r matches Ok(x) && x@ == t,
            Err(e) => r matches Err(x) && x@ == e,
        },
{
    let n = input.columns.len();
    if n != other.columns.len() {
        assert(input@.columns.len() != other@.columns.len());
        return Err(String::from_str("[Append CSV] The columns of the appended file do not match"));
    }
    let mut i: usize = 0;
    while i < n
        invariant
            n == input.columns@.len(),
            n == other.columns@.len(),
            i <= n,
            forall|k: int| 0 <= k < i ==> input@.columns[k] == other@.columns[k],
        decreases n - i,
    {
        if input.columns[i].kind != other.columns[i].kind || !same_text(
            input.columns[i].name.as_str(),
            other.columns[i].name.as_str(),
        ) {
            assert(input@.columns[i as int] != other@.columns[i as int]);
            return Err(String::from_str("[Append CSV] The columns of the appended file do not match"));
        }
        i = i + 1;
    }
    assert(input@.columns =~= other@.columns);
    let t = TableInfo { columns: input.columns.clone(), height: input.height + other.height };
    proof {
        assert(t@.columns =~= input@.columns) by {
            assert forall|k: int| 0 <= k < t.columns@.len() implies t.columns@[k]@ == input.columns@[k]@ by {
            }
        }
    }
    Ok(t)
}

// ---------------------------------------------------------------------------
// Save to CSV or Excel

#[derive(Clone, Copy, Debug, PartialEq, Eq, Structural)]
pub enum SaveFormat {
    Csv,
    Excel,
}

/// Where and how "Save to CSV or Excel" writes.
#[derive(Debug)]
pub struct SavePlan {
    /// The `file_type` property, as chosen ("Csv" or "Excel").
    pub file_type: String,
    /// The destination folder (`file_path`).
    pub directory: String,
    /// The file name with its extension: `file_name` followed by ".csv" or
    /// ".xlsx".
    pub file_name: String,
    pub format: SaveFormat,
}

pub open spec fn save_plan_holds(
    props: Seq<(Seq<char>, PropertyModel)>,
    r: Result<SavePlan, String>,
) -> bool {
    let prefix = "[Save to Csv or Excel] "@;
    match lookup(props, "file_type"@) {
        Some(PropertyModel::Text(ty)) => match lookup(props, "file_path"@) {
            Some(PropertyModel::Text(dir)) => match lookup(props, "file_name"@) {
                Some(PropertyModel::Text(name)) => if name.len() == 0 {
                    r matches Err(e) && e@ == "[Save to Csv or Excel] Invalid file name"@
                } else {
                    r matches Ok(p) && p.file_type@ == ty && p.directory@ == dir && (if ty
                        == "Csv"@ {
                        p.format == SaveFormat::Csv && p.file_name@ == name + ".csv"@
                    } else {
                        p.format == SaveFormat::Excel && p.file_name@ == name + ".xlsx"@
                    })
                },
                _ => r matches Err(e) && e@ == "[Save to Csv or Excel] Invalid file name"@,
            },
            _ => r matches Err(e) && e@ == "[Save to Csv or Excel] Invalid destination"@,
        },
        _ => r matches Err(e) && e@ == "[Save to Csv or Excel] Invalid file type"@,
    }
}

/// The plan of "Save to CSV or Excel": `file_type`, `file_path` and
/// `file_name` must be text, checked in that order, and the file name must
/// not be empty. A "Csv" file type writes a ".csv" file; any other writes
/// an ".xlsx" file.
pub fn plan_save_csv_or_excel(properties: &PropertyMap) -> (r: Result<SavePlan, String>)
    ensures
        save_plan_holds(properties@, r),
{
    let file_type = match properties.get("file_type") {
        Some(PropertyValue::String(s)) => s,
        _ => {
            return Err(String::from_str("[Save to Csv or Excel] Invalid file type"));
        },
    };
    let file_path = match properties.get("file_path") {
        Some(PropertyValue::String(s)) => s,
        _ => {
            return Err(String::from_str("[Save to Csv or Excel] Invalid destination"));
        },
    };
    let file_name = match properties.get("file_name") {
        Some(PropertyValue::String(s)) => s,
        _ => {
            return Err(String::from_str("[Save to Csv or Excel] Invalid file name"));
        },
    };
    if file_name.as_str().is_empty() {
        return Err(String::from_str("[Save to Csv or Excel] Invalid file name"));
    }
    if same_text(file_type.as_str(), "Csv") {
        Ok(
            SavePlan {
                file_type: file_type.clone(),
                directory: file_path.clone(),
                file_name: file_name.clone().concat(".csv"),
                format: SaveFormat::Csv,
            },
        )
    } else {
        Ok(
            SavePlan {
                file_type: file_type.clone(),
                directory: file_path.clone(),
                file_name: file_name.clone().concat(".xlsx"),
                format: SaveFormat::Excel,
            },
        )
    }
}

/// The data to save must be a table; otherwise the save fails with this
/// message (the CSV and the Excel writer say the same).
pub fn check_table_to_save(input: &DataValue) -> (r: Result<(), String>)
    ensures
        (input@ is Table) <==> r is Ok,
        r matches Err(e) ==> e@ == "[Save to Csv or Excel] Failed to save to Csv"@,
{
    if input.is_table() {
        Ok(())
    } else {
        Err(String::from_str("[Save to Csv or Excel] Failed to save to Csv"))
    }
}

// ---------------------------------------------------------------------------
// Select Attributes

/// The text items of `items`, in order; other items are passed over.
pub open spec fn text_items(items: Seq<PropertyModel>) -> Seq<Seq<char>>
    decreases items.len(),
{
    if items.len() == 0 {
        Seq::empty()
    } else {
        match items.last() {
            PropertyModel::Text(s) => text_items(items.drop_last()).push(s),
            _ => text_items(items.drop_last()),
        }
    }
}

pub open spec fn texts_model(v: Seq<String>) -> Seq<Seq<char>> {
    Seq::new(v.len(), |i: int| v[i]@)
}

/// The text items of a list value, in order (other items are passed over).
pub fn string_items(items: &Vec<PropertyValue>) -> (r: Vec<String>)
    ensures
        texts_model(r@) == text_items(Seq::new(items@.len(), |i: int| items@[i]@)),
{
    let ghost all = Seq::new(items@.len(), |i: int| items@[i]@);
    let mut out: Vec<String> = Vec::new();
    let mut i: usize = 0;
    assert(texts_model(out@) =~= text_items(all.take(0)));
    while i < items.len()
        invariant
            i <= items@.len(),
            all == Seq::new(items@.len(), |k: int| items@[k]@),
            texts_model(out@) == text_items(all.take(i as int)),
        decreases items@.len() - i,
    {
        proof {
            assert(all.take(i + 1).drop_last() =~= all.take(i as int));
            assert(all.take(i + 1).last() == items@[i as int]@);
        }
        let ghost before = texts_model(out@);
        match &items[i] {
            PropertyValue::String(s) => {
                out.push(s.clone());
                assert(texts_model(out@) =~= before.push(s@));
            },
            _ => {},
        }
        i = i + 1;
    }
    assert(all.take(items@.len() as int) =~= all);
    out
}

/// The first of `names` that is no column of `cols`, if any.
pub open spec fn first_missing_column(names: Seq<Seq<char>>, cols: Seq<(Seq<char>, ColumnKind)>) -> Option<
    Seq<char>,
>
    decreases names.len(),
{
    if names.len() == 0 {
        None
    } else {
        match first_missing_column(names.drop_last(), cols) {
            Some(n) => Some(n),
            None => if find_column(cols, names.last()) is None {
                Some(names.last())
            } else {
                None
            },
        }
    }
}

pub open spec fn missing_column_message(name: Seq<char>) -> Seq<char> {
    "[Select Attributes] Failed to select columns: column '"@ + name + "' not found"@
}

/// `r` is what "Select Attributes" plans for `input` and `props`.
pub open spec fn select_plan_holds(
    input: DataModel,
    props: Seq<(Seq<char>, PropertyModel)>,
    r: Result<Vec<String>, String>,
) -> bool {
    match input {
        DataModel::Table(t) => match lookup(props, "selected_attributes"@) {
            Some(PropertyModel::List(items)) => match first_missing_column(text_items(items), t.columns) {
                None => r matches Ok(v) && texts_model(v@) == text_items(items),
                Some(n) => r matches Err(e) && e@ == missing_column_message(n),
            },
            _ => r matches Err(e) && e@ == "[Select Attributes] Configuration property missing"@,
        },
        _ => r matches Err(e) && e@ == "[Select Attributes] Input is not a Table"@,
    }
}

/// The plan of "Select Attributes": the names of the columns to keep, in
/// the order of `selected_attributes`. The input must be a table, the
/// property a list, and each name on it a column of the table; the first
/// name that is no column is refused.
pub fn plan_select_attributes(input: &DataValue, properties: &PropertyMap) -> (r: Result<
    Vec<String>,
    String,
>)
    ensures
        select_plan_holds(input@, properties@, r),
{
    let table = match input {
        DataValue::Table(t) => t,
        _ => {
            return Err(String::from_str("[Select Attributes] Input is not a Table"));
        },
    };
    match properties.get("selected_attributes") {
        Some(PropertyValue::List(items)) => {
            proof {
                let m = PropertyValue::List(*items)@;
                assert(m matches PropertyModel::List(s) && s =~= Seq::new(
                    items@.len(),
                    |i: int| items@[i]@,
                ));
            }
            let names = string_items(items);
            let ghost all = texts_model(names@);
            let ghost im = Seq::new(items@.len(), |k: int| items@[k]@);
            assert(lookup(properties@, "selected_attributes"@) == Some(PropertyModel::List(im)));
            let ghost cols = table@.columns;
            let mut i: usize = 0;
            assert(all.take(0).len() == 0);
            while i < names.len()
                invariant
                    i <= names@.len(),
                    all == texts_model(names@),
                    all == text_items(im),
                    lookup(properties@, "selected_attributes"@) == Some(PropertyModel::List(im)),
                    input@ == DataModel::Table(table@),
                    cols == table@.columns,
                    first_missing_column(all.take(i as int), cols) is None,
                decreases names@.len() - i,
            {
                proof {
                    assert(all.take(i + 1).drop_last() =~= all.take(i as int));
                    assert(all.take(i + 1).last() == names@[i as int]@);
                }
                if table.column_kind(names[i].as_str()).is_none() {
                    proof {
                        lemma_first_missing_stays(all, cols, i + 1);
                    }
                    let m = String::from_str("[Select Attributes] Failed to select columns: column '")
                        .concat(names[i].as_str()).concat("' not found");
                    assert(first_missing_column(all.take(i + 1), cols) == Some(all[i as int]));
                    return Err(m);
                }
                i = i + 1;
            }
            assert(all.take(names@.len() as int) =~= all);
            Ok(names)
        },
        _ => Err(String::from_str("[Select Attributes] Configuration property missing")),
    }
}

proof fn lemma_first_missing_stays(names: Seq<Seq<char>>, cols: Seq<(Seq<char>, ColumnKind)>, k: int)
    requires
        0 <= k <= names.len(),
        first_missing_column(names.take(k), cols) is Some,
    ensures
        first_missing_column(names, cols) == first_missing_column(names.take(k), cols),
    decreases names.len() - k,
{
    if k < names.len() {
        assert(names.take(k + 1).drop_last() =~= names.take(k));
        lemma_first_missing_stays(names, cols, k + 1);
    } else {
        assert(names.take(k) =~= names);
    }
}

// ---------------------------------------------------------------------------
// Normalizer & Encoder

#[derive(Clone, Copy, Debug, PartialEq, Eq, Structural)]
pub enum NormalizationMethod {
    /// (x - min) / (max - min)
    MinMax,
    /// (x - mean) / std
    ZScore,
}

/// What "Normalizer & Encoder" does: which columns it rescales and how, and
/// which it one-hot encodes.
#[derive(Debug)]
pub struct NormalizerPlan {
    pub method: NormalizationMethod,
    pub normalize_columns: Vec<String>,
    pub encode_columns: Vec<String>,
}

/// The names of the columns of `cols` that are numeric (`numeric`) or
/// categorical or string (`!numeric`), in order.
pub open spec fn columns_where(cols: Seq<(Seq<char>, ColumnKind)>, numeric: bool) -> Seq<
    Seq<char>,
>
    decreases cols.len(),
{
    if cols.len() == 0 {
        Seq::empty()
    } else if kind_kept(numeric, cols.last().1) {
        columns_where(cols.drop_last(), numeric).push(cols.last().0)
    } else {
        columns_where(cols.drop_last(), numeric)
    }
}

pub open spec fn kind_kept(numeric: bool, k: ColumnKind) -> bool {
    if numeric {
        is_numeric(k)
    } else {
        is_encodable(k)
    }
}

pub open spec fn is_numeric(k: ColumnKind) -> bool {
    k == ColumnKind::Numeric
}

pub open spec fn is_encodable(k: ColumnKind) -> bool {
    k == ColumnKind::Categorical || k == ColumnKind::Text
}

/// The names of the numeric columns, in order.
pub open spec fn numeric_columns(cols: Seq<(Seq<char>, ColumnKind)>) -> Seq<Seq<char>> {
    columns_where(cols, true)
}

/// The names of the categorical and string columns, in order.
pub open spec fn encodable_columns(cols: Seq<(Seq<char>, ColumnKind)>) -> Seq<Seq<char>> {
    columns_where(cols, false)
}

pub open spec fn flag_or_true(props: Seq<(Seq<char>, PropertyModel)>, key: Seq<char>) -> bool {
    match lookup(props, key) {
        Some(PropertyModel::Bool(b)) => b,
        _ => true,
    }
}

pub open spec fn method_of(props: Seq<(Seq<char>, PropertyModel)>) -> NormalizationMethod {
    match lookup(props, "normalization_method"@) {
        Some(PropertyModel::Text(m)) => if m == "z-score"@ {
            NormalizationMethod::ZScore
        } else {
            NormalizationMethod::MinMax
        },
        _ => NormalizationMethod::MinMax,
    }
}

fn columns_of_kind(table: &TableInfo, numeric: bool) -> (r: Vec<String>)
    ensures
        numeric ==> texts_model(r@) == numeric_columns(table@.columns),
        !numeric ==> texts_model(r@) == encodable_columns(table@.columns),
{
    let ghost cols = table@.columns;
    let ghost keep = numeric;
    let mut out: Vec<String> = Vec::new();
    let mut i: usize = 0;
    assert(texts_model(out@) =~= columns_where(cols.take(0), keep));
    while i < table.columns.len()
        invariant
            i <= table.columns@.len(),
            cols == table@.columns,
            cols.len() == table.columns@.len(),
            keep == numeric,
            texts_model(out@) == columns_where(cols.take(i as int), keep),
        decreases table.columns@.len() - i,
    {
        proof {
            assert(cols.take(i + 1).drop_last() =~= cols.take(i as int));
            assert(cols.take(i + 1).last() == cols[i as int]);
        }
        let kind = table.columns[i].kind;
        let take = if numeric {
            kind == ColumnKind::Numeric
        } else {
            kind == ColumnKind::Categorical || kind == ColumnKind::Text
        };
        let ghost before = texts_model(out@);
        if take {
            out.push(table.columns[i].name.clone());
            assert(texts_model(out@) =~= before.push(cols[i as int].0));
        }
        i = i + 1;
    }
    assert(cols.take(table.columns@.len() as int) =~= cols);
    out
}

/// `r` is what "Normalizer & Encoder" plans for `input` and `props`.
pub open spec fn normalizer_plan_holds(
    input: DataModel,
    props: Seq<(Seq<char>, PropertyModel)>,
    r: Option<NormalizerPlan>,
) -> bool {
    match input {
        DataModel::Table(t) => r matches Some(p) && p.method == method_of(props) && (if flag_or_true(
            props,
            "apply_normalization"@,
        ) {
            texts_model(p.normalize_columns@) == numeric_columns(t.columns)
        } else {
            p.normalize_columns@.len() == 0
        }) && (if flag_or_true(props, "apply_one_hot_encoding"@) {
            texts_model(p.encode_columns@) == encodable_columns(t.columns)
        } else {
            p.encode_columns@.len() == 0
        }),
        _ => r is None,
    }
}

/// The plan of "Normalizer & Encoder", or `None` when the input is not a
/// table. `normalization_method` "z-score" picks z-scores and anything else
/// min-max; `apply_normalization` and `apply_one_hot_encoding` default to
/// true when not a boolean. Numeric columns are rescaled; categorical and
/// string columns are encoded.
pub fn plan_normalizer_and_encoder(input: &DataValue, properties: &PropertyMap) -> (r: Option<
    NormalizerPlan,
>)
    ensures
        normalizer_plan_holds(input@, properties@, r),
{
    let table = match input {
        DataValue::Table(t) => t,
        _ => {
            return None;
        },
    };
    let method = match properties.get("normalization_method") {
        Some(PropertyValue::String(m)) => if same_text(m.as_str(), "z-score") {
            NormalizationMethod::ZScore
        } else {
            NormalizationMethod::MinMax
        },
        _ => NormalizationMethod::MinMax,
    };
    let apply_norm = match properties.get("apply_normalization") {
        Some(PropertyValue::Bool(b)) => *b,
        _ => true,
    };
    let apply_encode = match properties.get("apply_one_hot_encoding") {
        Some(PropertyValue::Bool(b)) => *b,
        _ => true,
    };
    let normalize_columns = if apply_norm {
        columns_of_kind(table, true)
    } else {
        Vec::new()
    };
    let encode_columns = if apply_encode {
        columns_of_kind(table, false)
    } else {
        Vec::new()
    };
    Some(NormalizerPlan { method, normalize_columns, encode_columns })
}

// ---------------------------------------------------------------------------
// Train & Test split

/// What "Train & Test split" does with a valid input.
#[derive(Debug)]
pub enum SplitPlan {
    /// The table has no row: it is handed on as it is.
    Unchanged,
    /// Split the `total_rows` rows: the first share (in percent, as f32
    /// bits) goes on as the training set, the rest is set aside as the test
    /// set; the rows are shuffled first when `shuffle` holds.
    Split { percent_bits: u32, shuffle: bool, total_rows: usize },
}

/// The plan of "Train & Test split": `train_set_percent` must be a float
/// and `shuffle` a boolean, checked in that order, and the input a table.
pub fn plan_train_test_split(input: &DataValue, properties: &PropertyMap) -> (r: Result<
    SplitPlan,
    String,
>)
    ensures
        match lookup(properties@, "train_set_percent"@) {
            Some(PropertyModel::Float(bits)) => match lookup(properties@, "shuffle"@) {
                Some(PropertyModel::Bool(sh)) => match input@ {
                    DataModel::Table(t) => if t.height == 0 {
                        r matches Ok(SplitPlan::Unchanged)
                    } else {
                        r matches Ok(SplitPlan::Split { percent_bits, shuffle, total_rows })
                            && percent_bits == bits && shuffle == sh && total_rows == t.height
                    },
                    _ => r matches Err(e) && e@ == "[Train & Test split] Input is not a Table"@,
                },
                _ => r matches Err(e) && e@
                    == "[Train & Test split] shuffle property missing"@,
            },
            _ => r matches Err(e) && e@
                == "[Train & Test split] train_set_percent property missing"@,
        },
{
    let percent_bits = match properties.get("train_set_percent") {
        Some(PropertyValue::Float(b)) => *b,
        _ => {
            return Err(String::from_str("[Train & Test split] train_set_percent property missing"));
        },
    };
    let shuffle = match properties.get("shuffle") {
        Some(PropertyValue::Bool(b)) => *b,
        _ => {
            return Err(String::from_str("[Train & Test split] shuffle property missing"));
        },
    };
    let table = match input {
        DataValue::Table(t) => t,
        _ => {
            return Err(String::from_str("[Train & Test split] Input is not a Table"));
        },
    };
    if table.height == 0 {
        Ok(SplitPlan::Unchanged)
    } else {
        Ok(SplitPlan::Split { percent_bits, shuffle, total_rows: table.height })
    }
}

// ---------------------------------------------------------------------------
// Linear Regression

/// The columns of a regression: the target, and the features it is fitted
/// on.
#[derive(Debug)]
pub struct RegressionPlan {
    pub target: String,
    pub features: Vec<String>,
}

/// The target name as the regression uses it: trimmed, then without
/// carriage returns and double quotes.
pub open spec fn clean_target(s: Seq<char>) -> Seq<char> {
    without_char(without_char(trimmed(s), '\r'), '"')
}

/// The names of the numeric columns whose trimmed name differs from
/// `target`, in order: the features a regression is fitted on.
pub open spec fn feature_names(cols: Seq<(Seq<char>, ColumnKind)>, target: Seq<char>) -> Seq<
    Seq<char>,
>
    decreases cols.len(),
{
    if cols.len() == 0 {
        Seq::empty()
    } else if cols.last().1 == ColumnKind::Numeric && trimmed(cols.last().0) != target {
        feature_names(cols.drop_last(), target).push(cols.last().0)
    } else {
        feature_names(cols.drop_last(), target)
    }
}

pub open spec fn regression_plan_holds(
    input: DataModel,
    props: Seq<(Seq<char>, PropertyModel)>,
    r: Result<RegressionPlan, String>,
) -> bool {
    match input {
        DataModel::Table(t) => match lookup(props, "target"@) {
            Some(PropertyModel::Text(s)) if s.len() > 0 => {
                let target = clean_target(s);
                let features = feature_names(t.columns, target);
                if features.len() == 0 {
                    r matches Err(e) && e@ == "[LR] No valid feature columns found"@
                } else {
                    match find_column(t.columns, target) {
                        None => r matches Err(e) && e@ == "[LR] Target column '"@ + target
                            + "' not found"@,
                        Some(k) => if k != ColumnKind::Numeric {
                            r matches Err(e) && e@ == "[LR] Target column '"@ + target
                                + "' is not numeric"@
                        } else {
                            r matches Ok(p) && p.target@ == target && texts_model(p.features@)
                                == features
                        },
                    }
                }
            },
            _ => r matches Err(e) && e@ == "[LR] Target column not specified"@,
        },
        _ => r matches Err(e) && e@ == "[LR] Input is not a table"@,
    }
}

/// The plan of "Linear Regression": the input must be a table and `target`
/// non-empty text. The target is cleaned of surrounding white space,
/// carriage returns and double quotes; every numeric column whose trimmed
/// name differs from it is a feature, and there must be at least one. The
/// cleaned target must then name a numeric column of the table.
pub fn plan_linear_regression(input: &DataValue, properties: &PropertyMap) -> (r: Result<
    RegressionPlan,
    String,
>)
    ensures
        regression_plan_holds(input@, properties@, r),
{
    let table = match input {
        DataValue::Table(t) => t,
        _ => {
            return Err(String::from_str("[LR] Input is not a table"));
        },
    };
    let target_name = match properties.get("target") {
        Some(PropertyValue::String(s)) => if s.as_str().is_empty() {
            return Err(String::from_str("[LR] Target column not specified"));
        } else {
            s
        },
        _ => {
            return Err(String::from_str("[LR] Target column not specified"));
        },
    };
    let trimmed_target = trim(target_name.as_str());
    let no_cr = remove_char(trimmed_target.as_str(), '\r');
    let target = remove_char(no_cr.as_str(), '"');
    let ghost cols = table@.columns;
    let mut features: Vec<String> = Vec::new();
    let mut i: usize = 0;
    assert(texts_model(features@) =~= feature_names(cols.take(0), target@));
    while i < table.columns.len()
        invariant
            i <= table.columns@.len(),
            cols == table@.columns,
            cols.len() == table.columns@.len(),
            texts_model(features@) == feature_names(cols.take(i as int), target@),
        decreases table.columns@.len() - i,
    {
        proof {
            assert(cols.take(i + 1).drop_last() =~= cols.take(i as int));
            assert(cols.take(i + 1).last() == cols[i as int]);
        }
        let name = &table.columns[i].name;
        let t = trim(name.as_str());
        let ghost before = texts_model(features@);
        if table.columns[i].kind == ColumnKind::Numeric && !same_text(t.as_str(), target.as_str()) {
            features.push(name.clone());
            assert(texts_model(features@) =~= before.push(cols[i as int].0));
        }
        i = i + 1;
    }
    assert(cols.take(table.columns@.len() as int) =~= cols);
    if features.len() == 0 {
        return Err(String::from_str("[LR] No valid feature columns found"));
    }
    match table.column_kind(target.as_str()) {
        None => Err(String::from_str("[LR] Target column '").concat(target.as_str()).concat("' not found")),
        Some(k) => if k != ColumnKind::Numeric {
            Err(String::from_str("[LR] Target column '").concat(target.as_str()).concat("' is not numeric"))
        } else {
            Ok(RegressionPlan { target, features })
        },
    }
}

} // verus!
