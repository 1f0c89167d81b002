//! The lists on the left: the database dropdown, closed and open, and
//! the table list.

use crate::controller::{App, Catalog};
use crate::names::Name;
use crate::schema::TableInfo;
use crate::state::{lemma_model_scalars, lemma_model_texts};
use crate::strings::same_text;
use crate::render::Area;
use vstd::prelude::*;
use vstd::string::*;

verus! {

/// The greatest height of the open dropdown, borders included.
pub const MAX_DROPDOWN_HEIGHT: u16 = 10;

/// Lines of the open dropdown that hold no entry: its two borders.
pub const DROPDOWN_BORDER_HEIGHT: u16 = 2;

/// How an entry of a list stands out.
#[derive(Debug, Clone, Copy, PartialEq, Eq, Structural)]
pub enum ListEmphasis {
    /// The entry that is marked.
    Selected,
    /// The entry that is in use, where it is not the marked one.
    Current,
    Plain,
}

/// One entry of a list as it is drawn.
#[derive(Debug, Clone, PartialEq, Eq)]
pub struct ListLine {
    pub text: String,
    pub emphasis: ListEmphasis,
}

/// An entry of a list as contracts see it.
pub ghost struct ListLineModel {
    pub text: Seq<char>,
    pub emphasis: ListEmphasis,
}

impl DeepView for ListLine {
    type V = ListLineModel;

    open spec fn deep_view(&self) -> ListLineModel {
        ListLineModel { text: self.text@, emphasis: self.emphasis }
    }
}

/// How an entry stands out.
pub open spec fn emphasis_of_entry(marked: bool, current: bool) -> ListEmphasis {
    if marked {
        ListEmphasis::Selected
    } else if current {
        ListEmphasis::Current
    } else {
        ListEmphasis::Plain
    }
}

/// The sign before an entry: a dot for the one in use.
pub open spec fn current_sign(current: bool) -> Seq<char> {
    if current {
        "● "@
    } else {
        "  "@
    }
}

/// The closed dropdown: the current database in brackets.
pub open spec fn dropdown_label(current_database: Option<Name>) -> Seq<char> {
    "DB: ["@ + (match current_database {
        Some(name) => name,
        None => "none"@,
    }) + "]"@
}

/// The entry of the database `name` at position `i` of the open dropdown.
pub open spec fn database_line(name: Name, i: int, marked: usize, current: Option<Name>) -> ListLineModel {
    ListLineModel {
        text: current_sign(current == Some(name)) + "🗄️  "@ + name,
        emphasis: emphasis_of_entry(i == marked, current == Some(name)),
    }
}

/// The entry of a table at position `i` of the table list.
pub open spec fn table_line(
    name: Name,
    table_type: Seq<char>,
    i: int,
    marked: usize,
    selected: Option<Name>,
) -> ListLineModel {
    ListLineModel {
        text: current_sign(selected == Some(name)) + (if table_type == "VIEW"@ {
            "[v]"@
        } else {
            "[t]"@
        }) + " "@ + name,
        emphasis: emphasis_of_entry(i == marked, selected == Some(name)),
    }
}

/// The place of the open dropdown: right below `anchor`, as wide as it,
/// high enough for the databases and its borders, within the greatest
/// height and within what the screen has left below.
pub open spec fn dropdown_area_for(anchor: Area, databases: nat, screen: Area) -> Area {
    let y = anchor.y + anchor.height;
    let wanted = if databases + DROPDOWN_BORDER_HEIGHT >= MAX_DROPDOWN_HEIGHT {
        MAX_DROPDOWN_HEIGHT as int
    } else {
        databases + DROPDOWN_BORDER_HEIGHT
    };
    let room = if screen.height >= y {
        screen.height - y
    } else {
        0
    };
    Area {
        x: anchor.x,
        y: y as u16,
        width: anchor.width,
        height: if wanted <= room {
            wanted as u16
        } else {
            room as u16
        },
    }
}

/// Whether `selected` is the text `name`.
fn is_named(selected: &Option<String>, name: &str) -> (same: bool)
    ensures
        same == (selected.deep_view() == Some(name@)),
{
    match selected {
        Some(text) => same_text(text.as_str(), name),
        None => false,
    }
}

/// The sign before an entry and how the entry stands out.
fn start_line(marked: bool, current: bool) -> (start: (String, ListEmphasis))
    ensures
        start.0@ == current_sign(current),
        start.1 == emphasis_of_entry(marked, current),
{
    (
        if current {
            "● ".to_owned()
        } else {
            "  ".to_owned()
        },
        if marked {
            ListEmphasis::Selected
        } else if current {
            ListEmphasis::Current
        } else {
            ListEmphasis::Plain
        },
    )
}

/// The closed dropdown.
pub fn write_dropdown_label(current_database: &Option<String>) -> (label: String)
    ensures
        label@ == dropdown_label(current_database.deep_view()),
{
    let mut label = "DB: [".to_owned();
    match current_database {
        Some(name) => label.append(name.as_str()),
        None => label.append("none"),
    }
    label.append("]");
    label
}

/// The place of the open dropdown.
pub fn dropdown_area(anchor: Area, databases: usize, screen: Area) -> (area: Area)
    requires
        anchor.y + anchor.height <= u16::MAX,
    ensures
        area == dropdown_area_for(anchor, databases as nat, screen),
{
    let y = anchor.y + anchor.height;
    let wanted: u16 = if databases >= (MAX_DROPDOWN_HEIGHT - DROPDOWN_BORDER_HEIGHT) as usize {
        MAX_DROPDOWN_HEIGHT
    } else {
        databases as u16 + DROPDOWN_BORDER_HEIGHT
    };
    let room = screen.height.saturating_sub(y);
    Area {
        x: anchor.x,
        y,
        width: anchor.width,
        height: if wanted <= room {
            wanted
        } else {
            room
        },
    }
}

impl App {
    /// The entries of the open dropdown.
    pub fn dropdown_lines(&self, catalog: &Catalog) -> (lines: Vec<ListLine>)
        ensures
            lines.deep_view() == Seq::new(
                catalog.deep_view().databases.len(),
                |i: int|
                    database_line(
                        catalog.deep_view().databases[i],
                        i,
                        self@.state.dropdown_selected_index,
                        catalog.deep_view().current_database,
                    ),
            ),
    {
        proof {
            lemma_model_scalars(&self.state);
        }
        let mut lines: Vec<ListLine> = Vec::new();
        let mut i: usize = 0;
        while i < catalog.databases.len()
            invariant
                i <= catalog.databases.len(),
                lines.len() == i,
                forall|k: int|
                    0 <= k < i ==> (#[trigger] lines[k]).deep_view() == database_line(
                        catalog.deep_view().databases[k],
                        k,
                        self.state.dropdown_selected_index,
                        catalog.deep_view().current_database,
                    ),
            decreases catalog.databases.len() - i,
        {
            let name = catalog.databases[i].as_str();
            assert(catalog.deep_view().databases[i as int] == name@);
            let current = is_named(&catalog.current_database, name);
            let (mut text, emphasis) = start_line(i == self.state.dropdown_selected_index, current);
            text.append("🗄️  ");
            text.append(name);
            lines.push(ListLine { text, emphasis });
            i += 1;
        }
        assert(lines.deep_view() =~= Seq::new(
            catalog.deep_view().databases.len(),
            |i: int|
                database_line(
                    catalog.deep_view().databases[i],
                    i,
                    self@.state.dropdown_selected_index,
                    catalog.deep_view().current_database,
                ),
        ));
        lines
    }

    /// The entries of the table list.
    pub fn table_lines(&self, tables: &Vec<TableInfo>) -> (lines: Vec<ListLine>)
        ensures
            lines.deep_view() == Seq::new(
                tables@.len(),
                |i: int|
                    table_line(
                        tables@[i].name@,
                        tables@[i].table_type@,
                        i,
                        self@.selected_table_index,
                        self@.state.selected_table,
                    ),
            ),
    {
        proof {
            lemma_model_texts(&self.state);
        }
        let mut lines: Vec<ListLine> = Vec::new();
        let mut i: usize = 0;
        while i < tables.len()
            invariant
                i <= tables.len(),
                lines.len() == i,
                self@.state.selected_table == self.state.selected_table.deep_view(),
                forall|k: int|
                    0 <= k < i ==> (#[trigger] lines[k]).deep_view() == table_line(
                        tables@[k].name@,
                        tables@[k].table_type@,
                        k,
                        self.selected_table_index,
                        self@.state.selected_table,
                    ),
            decreases tables.len() - i,
        {
            let name = tables[i].name.as_str();
            let current = is_named(&self.state.selected_table, name);
            let (mut text, emphasis) = start_line(i == self.selected_table_index, current);
            if tables[i].is_view() {
                text.append("[v]");
            } else {
                text.append("[t]");
            }
            text.append(" ");
            text.append(name);
            lines.push(ListLine { text, emphasis });
            i += 1;
        }
        assert(lines.deep_view() =~= Seq::new(
            tables@.len(),
            |i: int|
                table_line(
                    tables@[i].name@,
                    tables@[i].table_type@,
                    i,
                    self@.selected_table_index,
                    self@.state.selected_table,
                ),
        ));
        lines
    }
}

} // verus!
