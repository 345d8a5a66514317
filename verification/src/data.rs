//! The data that flows from one operator to the next. A table is held by
//! what the operators decide on: its column names and kinds, and its number
//! of rows; its cells stay with the data-frame engine that computes on them.

use vstd::prelude::*;
use crate::text::same_text;

verus! {

broadcast use vstd::std_specs::vec::group_vec_axioms;

/// The class of a column's data type that the operators tell apart.
#[derive(Clone, Copy, Debug, PartialEq, Eq, Structural)]
pub enum ColumnKind {
    /// An integer or floating-point column.
    Numeric,
    /// A string column.
    Text,
    /// A categorical column.
    Categorical,
    /// Any other data type (dates, booleans, lists, ...).
    Other,
}

/// One column of a table: its name and the class of its data type.
#[derive(Debug)]
pub struct ColumnInfo {
    pub name: String,
    pub kind: ColumnKind,
}

/// The shape of a table: its columns in order, and its number of rows.
#[derive(Debug)]
pub struct TableInfo {
    pub columns: Vec<ColumnInfo>,
    pub height: usize,
}

/// The data an operator takes in or hands on.
#[derive(Debug)]
pub enum DataValue {
    Empty,
    Csv(String),
    FilePath(String),
    Table(TableInfo),
    Model,
    Error,
}

pub struct TableModel {
    pub columns: Seq<(Seq<char>, ColumnKind)>,
    pub height: nat,
}

pub enum DataModel {
    Empty,
    Csv(Seq<char>),
    FilePath(Seq<char>),
    Table(TableModel),
    Model,
    Error,
}

impl View for ColumnInfo {
    type V = (Seq<char>, ColumnKind);

    open spec fn view(&self) -> (Seq<char>, ColumnKind) {
        (self.name@, self.kind)
    }
}

impl View for TableInfo {
    type V = TableModel;

    open spec fn view(&self) -> TableModel {
        TableModel {
            columns: Seq::new(self.columns@.len(), |i: int| self.columns@[i]@),
            height: self.height as nat,
        }
    }
}

impl View for DataValue {
    type V = DataModel;

    open spec fn view(&self) -> DataModel {
        match self {
            DataValue::Empty => DataModel::Empty,
            DataValue::Csv(s) => DataModel::Csv(s@),
            DataValue::FilePath(s) => DataModel::FilePath(s@),
            DataValue::Table(t) => DataModel::Table(t@),
            DataValue::Model => DataModel::Model,
            DataValue::Error => DataModel::Error,
        }
    }
}

/// The table with no column and no row.
pub open spec fn empty_table() -> TableModel {
    TableModel { columns: Seq::empty(), height: 0 }
}

/// The kind of the first column of `cols` named `name`.
pub open spec fn find_column(cols: Seq<(Seq<char>, ColumnKind)>, name: Seq<char>) -> Option<
    ColumnKind,
>
    decreases cols.len(),
{
    if cols.len() == 0 {
        None
    } else if cols[0].0 == name {
        Some(cols[0].1)
    } else {
        find_column(cols.drop_first(), name)
    }
}

impl TableInfo {
    /// The kind of the column named `name` (the first one, should two share
    /// the name), or `None` when the table has no such column.
    pub fn column_kind(&self, name: &str) -> (k: Option<ColumnKind>)
        ensures
            k == find_column(self@.columns, name@),
    {
        let ghost cols = self@.columns;
        assert(cols.skip(0) =~= cols);
        let mut i: usize = 0;
        while i < self.columns.len()
            invariant
                i <= self.columns@.len(),
                cols == self@.columns,
                cols.len() == self.columns@.len(),
                find_column(cols, name@) == find_column(cols.skip(i as int), name@),
            decreases self.columns@.len() - i,
        {
            proof {
                assert(cols.skip(i as int)[0] == cols[i as int]);
                assert(cols.skip(i as int).drop_first() =~= cols.skip(i + 1));
            }
            if same_text(self.columns[i].name.as_str(), name) {
                return Some(self.columns[i].kind);
            }
            i = i + 1;
        }
        assert(cols.skip(i as int).len() == 0);
        None
    }

    /// A table with no column and no row (`DataFrame::empty`).
    pub fn empty() -> (t: TableInfo)
        ensures
            t@ == empty_table(),
    {
        let t = TableInfo { columns: Vec::new(), height: 0 };
        assert(t@.columns =~= Seq::<(Seq<char>, ColumnKind)>::empty());
        t
    }

    /// The column names, in order.
    pub fn column_names(&self) -> (names: Vec<String>)
        ensures
            names@.len() == self@.columns.len(),
            forall|i: int| 0 <= i < names@.len() ==> #[trigger] names@[i]@ == self@.columns[i].0,
    {
        let mut names: Vec<String> = Vec::new();
        let mut i: usize = 0;
        while i < self.columns.len()
            invariant
                i <= self.columns@.len(),
                names@.len() == i,
                forall|k: int| 0 <= k < i ==> #[trigger] names@[k]@ == self.columns@[k].name@,
            decreases self.columns@.len() - i,
        {
            names.push(self.columns[i].name.clone());
            i = i + 1;
        }
        names
    }
}

impl Clone for ColumnInfo {
    fn clone(&self) -> (r: Self)
        ensures
            r@ == self@,
    {
        ColumnInfo { name: self.name.clone(), kind: self.kind }
    }
}

impl Clone for TableInfo {
    fn clone(&self) -> (r: Self)
        ensures
            r@ == self@,
    {
        let mut columns: Vec<ColumnInfo> = Vec::new();
        let mut i: usize = 0;
        while i < self.columns.len()
            invariant
                i <= self.columns@.len(),
                columns@.len() == i,
                forall|k: int| 0 <= k < i ==> #[trigger] columns@[k]@ == self.columns@[k]@,
            decreases self.columns@.len() - i,
        {
            columns.push(self.columns[i].clone());
            i = i + 1;
        }
        let r = TableInfo { columns, height: self.height };
        assert(r@.columns =~= self@.columns);
        r
    }
}

impl Clone for DataValue {
    fn clone(&self) -> (r: Self)
        ensures
            r@ == self@,
    {
        match self {
            DataValue::Empty => DataValue::Empty,
            DataValue::Csv(s) => DataValue::Csv(s.clone()),
            DataValue::FilePath(s) => DataValue::FilePath(s.clone()),
            DataValue::Table(t) => DataValue::Table(t.clone()),
            DataValue::Model => DataValue::Model,
            DataValue::Error => DataValue::Error,
        }
    }
}

impl DataValue {
    /// Whether this is `Empty` (no data).
    pub fn is_empty(&self) -> (b: bool)
        ensures
            b == (self@ is Empty),
    {
        match self {
            DataValue::Empty => true,
            _ => false,
        }
    }

    /// Whether this is `Error`.
    pub fn is_error(&self) -> (b: bool)
        ensures
            b == (self@ is Error),
    {
        match self {
            DataValue::Error => true,
            _ => false,
        }
    }

    /// Whether this is a `Table`.
    pub fn is_table(&self) -> (b: bool)
        ensures
            b == (self@ is Table),
    {
        match self {
            DataValue::Table(_) => true,
            _ => false,
        }
    }
}

} // verus!
