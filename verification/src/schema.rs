//! What is known of databases, tables and columns.

use crate::strings::{lowercase_text, lowercased, same_text};
use vstd::prelude::*;
use vstd::string::*;

verus! {

#[derive(Debug, Clone)]
pub struct TableInfo {
    pub name: String,
    pub table_type: String,
    pub column_count: i32,
    pub estimated_size: Option<i64>,
}

impl TableInfo {
    /// A base table of this name, with nothing else known of it.
    pub fn new(name: String) -> (info: Self)
        ensures
            info.name@ == name@,
            info.table_type@ == "BASE TABLE"@,
            info.column_count == 0,
            info.estimated_size is None,
    {
        Self { name, table_type: "BASE TABLE".to_owned(), column_count: 0, estimated_size: None }
    }

    /// Whether this is a view.
    pub fn is_view(&self) -> (view: bool)
        ensures
            view == (self.table_type@ == "VIEW"@),
    {
        same_text(self.table_type.as_str(), "VIEW")
    }

    /// Whether this is a base table.
    pub fn is_table(&self) -> (table: bool)
        ensures
            table == (self.table_type@ == "BASE TABLE"@),
    {
        same_text(self.table_type.as_str(), "BASE TABLE")
    }

    /// The name behind the sign of a view or of a table.
    pub fn get_display_name(&self) -> (line: String)
        ensures
            line@ == if self.table_type@ == "VIEW"@ {
                "📊 "@ + self.name@
            } else {
                "📋 "@ + self.name@
            },
    {
        let mut line = if self.is_view() {
            "📊 ".to_owned()
        } else {
            "📋 ".to_owned()
        };
        line.append(self.name.as_str());
        line
    }
}

#[derive(Debug, Clone)]
pub struct DatabaseInfo {
    pub name: String,
    pub path: String,
    pub is_memory: bool,
    pub tables: Vec<TableInfo>,
}

impl DatabaseInfo {
    /// A database without tables. It lives in memory where its path is
    /// `:memory:` or empty.
    pub fn new(name: String, path: String) -> (info: Self)
        ensures
            info.name@ == name@,
            info.path@ == path@,
            info.is_memory == (path@ == ":memory:"@ || path@.len() == 0),
            info.tables@.len() == 0,
    {
        let is_memory = same_text(path.as_str(), ":memory:") || path.as_str().unicode_len() == 0;
        Self { name, path, is_memory, tables: Vec::new() }
    }
}

#[derive(Debug, Clone)]
pub struct DatabaseSchema {
    pub name: String,
    pub tables: Vec<TableInfo>,
    pub views: Vec<TableInfo>,
    pub version: String,
}

impl DatabaseSchema {
    /// A schema without tables or views.
    pub fn new(name: String) -> (schema: Self)
        ensures
            schema.name@ == name@,
            schema.tables@.len() == 0,
            schema.views@.len() == 0,
            schema.version@.len() == 0,
    {
        Self { name, tables: Vec::new(), views: Vec::new(), version: String::new() }
    }

    /// Adds a table to the tables, or to the views where it is a view.
    pub fn add_table(&mut self, table: TableInfo)
        ensures
            final(self).name == old(self).name,
            final(self).version == old(self).version,
            table.table_type@ == "VIEW"@ ==> final(self).views@ == old(self).views@.push(table)
                && final(self).tables@ == old(self).tables@,
            table.table_type@ != "VIEW"@ ==> final(self).tables@ == old(self).tables@.push(table)
                && final(self).views@ == old(self).views@,
    {
        if table.is_view() {
            self.views.push(table);
        } else {
            self.tables.push(table);
        }
    }

    /// The tables, then the views.
    pub fn get_all_tables(&self) -> (all: Vec<&TableInfo>)
        ensures
            all@.len() == self.tables@.len() + self.views@.len(),
            forall|i: int| 0 <= i < self.tables@.len() ==> *all@[i] == self.tables@[i],
            forall|i: int|
                0 <= i < self.views@.len() ==> *all@[self.tables@.len() + i] == self.views@[i],
    {
        let mut all: Vec<&TableInfo> = Vec::new();
        let mut i: usize = 0;
        while i < self.tables.len()
            invariant
                i <= self.tables.len(),
                all@.len() == i,
                forall|k: int| 0 <= k < i ==> *all@[k] == self.tables@[k],
            decreases self.tables.len() - i,
        {
            all.push(&self.tables[i]);
            i += 1;
        }
        let mut j: usize = 0;
        while j < self.views.len()
            invariant
                j <= self.views.len(),
                all@.len() == self.tables@.len() + j,
                forall|k: int| 0 <= k < self.tables@.len() ==> *all@[k] == self.tables@[k],
                forall|k: int| 0 <= k < j ==> *all@[self.tables@.len() + k] == self.views@[k],
            decreases self.views.len() - j,
        {
            all.push(&self.views[j]);
            j += 1;
        }
        all
    }

    /// The first table of this name, else the first view of this name.
    pub fn find_table(&self, name: &str) -> (found: Option<&TableInfo>)
        ensures
            match found {
                Some(table) => table.name@ == name@ && (exists|i: int|
                    0 <= i < self.tables@.len() && self.tables@[i] == *table && forall|k: int|
                        0 <= k < i ==> self.tables@[k].name@ != name@) || (forall|k: int|
                    0 <= k < self.tables@.len() ==> self.tables@[k].name@ != name@) && exists|
                    i: int,
                |
                    0 <= i < self.views@.len() && self.views@[i] == *table && forall|k: int|
                        0 <= k < i ==> self.views@[k].name@ != name@,
                None => (forall|k: int| 0 <= k < self.tables@.len() ==> self.tables@[k].name@
                    != name@) && forall|k: int|
                    0 <= k < self.views@.len() ==> self.views@[k].name@ != name@,
            },
    {
        let mut i: usize = 0;
        while i < self.tables.len()
            invariant
                i <= self.tables.len(),
                forall|k: int| 0 <= k < i ==> self.tables@[k].name@ != name@,
            decreases self.tables.len() - i,
        {
            if same_text(self.tables[i].name.as_str(), name) {
                return Some(&self.tables[i]);
            }
            i += 1;
        }
        let mut j: usize = 0;
        while j < self.views.len()
            invariant
                j <= self.views.len(),
                forall|k: int| 0 <= k < self.tables@.len() ==> self.tables@[k].name@ != name@,
                forall|k: int| 0 <= k < j ==> self.views@[k].name@ != name@,
            decreases self.views.len() - j,
        {
            if same_text(self.views[j].name.as_str(), name) {
                return Some(&self.views[j]);
            }
            j += 1;
        }
        None
    }

    /// The number of tables and views together.
    pub fn table_count(&self) -> (count: usize)
        requires
            self.tables@.len() + self.views@.len() <= usize::MAX,
        ensures
            count == self.tables@.len() + self.views@.len(),
    {
        self.tables.len() + self.views.len()
    }
}

#[derive(Debug, Clone)]
pub struct ColumnSchema {
    pub name: String,
    pub data_type: String,
    pub is_nullable: bool,
    pub is_primary_key: bool,
    pub is_foreign_key: bool,
    pub default_value: Option<String>,
    pub comment: Option<String>,
}

/// The type of a column with its marks behind it: primary key, foreign
/// key, not null.
pub open spec fn display_type_for(
    data_type: Seq<char>,
    is_primary_key: bool,
    is_foreign_key: bool,
    is_nullable: bool,
) -> Seq<char> {
    data_type + (if is_primary_key {
        " PK"@
    } else {
        Seq::empty()
    }) + (if is_foreign_key {
        " FK"@
    } else {
        Seq::empty()
    }) + (if !is_nullable {
        " NOT NULL"@
    } else {
        Seq::empty()
    })
}

/// The sign for a type of column, given the name of the type in lower
/// case.
pub open spec fn icon_named(data_type: Seq<char>) -> Seq<char> {
    if data_type == "integer"@ || data_type == "int"@ || data_type == "bigint"@ || data_type
        == "smallint"@ {
        "🔢"@
    } else if data_type == "decimal"@ || data_type == "numeric"@ || data_type == "float"@
        || data_type == "double"@ {
        "💰"@
    } else if data_type == "varchar"@ || data_type == "text"@ || data_type == "char"@
        || data_type == "string"@ {
        "📝"@
    } else if data_type == "boolean"@ || data_type == "bool"@ {
        "✅"@
    } else if data_type == "date"@ || data_type == "datetime"@ || data_type == "timestamp"@ {
        "📅"@
    } else if data_type == "blob"@ || data_type == "binary"@ {
        "📦"@
    } else {
        "❓"@
    }
}

impl ColumnSchema {
    /// A nullable column without keys, default or comment.
    pub fn new(name: String, data_type: String) -> (column: Self)
        ensures
            column.name@ == name@,
            column.data_type@ == data_type@,
            column.is_nullable,
            !column.is_primary_key,
            !column.is_foreign_key,
            column.default_value is None,
            column.comment is None,
    {
        Self {
            name,
            data_type,
            is_nullable: true,
            is_primary_key: false,
            is_foreign_key: false,
            default_value: None,
            comment: None,
        }
    }

    /// The type with its marks.
    pub fn get_display_type(&self) -> (display: String)
        ensures
            display@ == display_type_for(
                self.data_type@,
                self.is_primary_key,
                self.is_foreign_key,
                self.is_nullable,
            ),
    {
        let mut display = self.data_type.clone();
        if self.is_primary_key {
            display.append(" PK");
        }
        if self.is_foreign_key {
            display.append(" FK");
        }
        if !self.is_nullable {
            display.append(" NOT NULL");
        }
        assert(display@ =~= display_type_for(
            self.data_type@,
            self.is_primary_key,
            self.is_foreign_key,
            self.is_nullable,
        ));
        display
    }

    /// The sign for the type of the column, whatever the case of its
    /// letters.
    pub fn get_icon(&self) -> (icon: &'static str)
        ensures
            icon@ == icon_named(lowercased(self.data_type@)),
    {
        let lower = lowercase_text(self.data_type.as_str());
        let t = lower.as_str();
        if same_text(t, "integer") || same_text(t, "int") || same_text(t, "bigint") || same_text(
            t,
            "smallint",
        ) {
            "🔢"
        } else if same_text(t, "decimal") || same_text(t, "numeric") || same_text(t, "float")
            || same_text(t, "double") {
            "💰"
        } else if same_text(t, "varchar") || same_text(t, "text") || same_text(t, "char")
            || same_text(t, "string") {
            "📝"
        } else if same_text(t, "boolean") || same_text(t, "bool") {
            "✅"
        } else if same_text(t, "date") || same_text(t, "datetime") || same_text(t, "timestamp") {
            "📅"
        } else if same_text(t, "blob") || same_text(t, "binary") {
            "📦"
        } else {
            "❓"
        }
    }
}

#[derive(Debug, Clone)]
pub struct TableSchema {
    pub table_info: TableInfo,
    pub columns: Vec<ColumnSchema>,
    pub indexes: Vec<String>,
    pub foreign_keys: Vec<String>,
}

impl TableSchema {
    /// The schema of a table without columns, indexes or foreign keys.
    pub fn new(table_info: TableInfo) -> (schema: Self)
        ensures
            schema.table_info == table_info,
            schema.columns@.len() == 0,
            schema.indexes@.len() == 0,
            schema.foreign_keys@.len() == 0,
    {
        Self { table_info, columns: Vec::new(), indexes: Vec::new(), foreign_keys: Vec::new() }
    }

    /// Adds a column behind those that are there.
    pub fn add_column(&mut self, column: ColumnSchema)
        ensures
            final(self).columns@ == old(self).columns@.push(column),
            final(self).table_info == old(self).table_info,
            final(self).indexes == old(self).indexes,
            final(self).foreign_keys == old(self).foreign_keys,
    {
        self.columns.push(column);
    }

    /// The columns of the primary key, in order.
    pub fn get_primary_key_columns(&self) -> (keys: Vec<&ColumnSchema>)
        ensures
            keys@.map_values(|c: &ColumnSchema| *c) == self.columns@.filter(
                |c: ColumnSchema| c.is_primary_key,
            ),
    {
        let ghost keep = |c: ColumnSchema| c.is_primary_key;
        let ghost plain = |c: &ColumnSchema| *c;
        let mut keys: Vec<&ColumnSchema> = Vec::new();
        let mut i: usize = 0;
        proof {
            reveal(Seq::filter);
            assert(self.columns@.take(0).filter(keep) =~= Seq::<ColumnSchema>::empty());
            assert(keys@.map_values(plain) =~= Seq::<ColumnSchema>::empty());
        }
        while i < self.columns.len()
            invariant
                i <= self.columns.len(),
                keep == |c: ColumnSchema| c.is_primary_key,
                plain == |c: &ColumnSchema| *c,
                keys@.map_values(plain) == self.columns@.take(i as int).filter(keep),
            decreases self.columns.len() - i,
        {
            let ghost done = self.columns@.take(i as int);
            let ghost kept = keys@.map_values(plain);
            proof {
                assert(self.columns@.take(i + 1) =~= done.push(self.columns@[i as int]));
                done.lemma_filter_push(self.columns@[i as int], keep);
            }
            if self.columns[i].is_primary_key {
                keys.push(&self.columns[i]);
                assert(keys@.map_values(plain) =~= kept.push(self.columns@[i as int]));
            }
            i += 1;
        }
        assert(self.columns@.take(i as int) =~= self.columns@);
        keys
    }

    /// The columns that are foreign keys, in order.
    pub fn get_foreign_key_columns(&self) -> (keys: Vec<&ColumnSchema>)
        ensures
            keys@.map_values(|c: &ColumnSchema| *c) == self.columns@.filter(
                |c: ColumnSchema| c.is_foreign_key,
            ),
    {
        let ghost keep = |c: ColumnSchema| c.is_foreign_key;
        let ghost plain = |c: &ColumnSchema| *c;
        let mut keys: Vec<&ColumnSchema> = Vec::new();
        let mut i: usize = 0;
        proof {
            reveal(Seq::filter);
            assert(self.columns@.take(0).filter(keep) =~= Seq::<ColumnSchema>::empty());
            assert(keys@.map_values(plain) =~= Seq::<ColumnSchema>::empty());
        }
        while i < self.columns.len()
            invariant
                i <= self.columns.len(),
                keep == |c: ColumnSchema| c.is_foreign_key,
                plain == |c: &ColumnSchema| *c,
                keys@.map_values(plain) == self.columns@.take(i as int).filter(keep),
            decreases self.columns.len() - i,
        {
            let ghost done = self.columns@.take(i as int);
            let ghost kept = keys@.map_values(plain);
            proof {
                assert(self.columns@.take(i + 1) =~= done.push(self.columns@[i as int]));
                done.lemma_filter_push(self.columns@[i as int], keep);
            }
            if self.columns[i].is_foreign_key {
                keys.push(&self.columns[i]);
                assert(keys@.map_values(plain) =~= kept.push(self.columns@[i as int]));
            }
            i += 1;
        }
        assert(self.columns@.take(i as int) =~= self.columns@);
        keys
    }
}

} // verus!
