//! The texts of the status bar, of the table viewer and of the windows
//! that ask for a name or a confirmation.

use crate::focus::{AppState, DeleteConfirmationModel, DeleteConfirmationState, TableCreationStep};
use crate::notify::NotificationType;
use crate::query::{QueryResult, QueryResultModel};
use crate::sort::{direction_keyword, order_term, SortColumnSpec, SortDirection, SortKey};
use crate::state::basics::status_display;
use crate::state::{lemma_model_scalars, lemma_model_texts, model_of, ApplicationState, StateModel};
use crate::strings::{decimal, decimal_text, join_texts, joined, next_decimal_text};
use crate::table::inner_size;
use crate::text::{truncate_text, truncated};
use vstd::prelude::*;
use vstd::string::*;

verus! {

/// Columns of a text area that hold no text: borders and padding.
pub const TEXT_CHROME_WIDTH: u16 = 4;

/// Columns of a notification that hold no message: borders and sign.
pub const NOTIFICATION_CHROME_WIDTH: u16 = 6;

/// Characters of a query that the window for a view name shows.
pub const SQL_PREVIEW_WIDTH: usize = 100;

/// What `{:?}` writes for an optional text.
pub uninterp spec fn debug_of(value: Option<Seq<char>>) -> Seq<char>;

/// The `Debug` form of an optional text, as `std` writes it. The contract
/// only names the result.
#[verifier::external_body]
pub(crate) fn debug_text(value: &Option<String>) -> (text: String)
    ensures
        text@ == debug_of(value.deep_view()),
{
    format!("{:?}", value)
}

/// The input as it is shown: an underscore in place of an empty one.
pub open spec fn shown_input(text: Seq<char>) -> Seq<char> {
    if text.len() == 0 {
        "_"@
    } else {
        text
    }
}

/// The sign of a category of notification.
pub open spec fn notification_icon(kind: NotificationType) -> Seq<char> {
    match kind {
        NotificationType::Success => "✅"@,
        NotificationType::Error => "❌"@,
        NotificationType::Info => "ℹ️"@,
    }
}

/// What the table viewer shows.
#[derive(Debug, Clone, PartialEq, Eq)]
pub enum ViewerContent {
    /// The table, under this title.
    Table { title: String },
    /// A message, under this title.
    Message { content: String, title: String },
}

/// What the table viewer shows, as contracts see it.
pub ghost enum ViewerContentModel {
    Table { title: Seq<char> },
    Message { content: Seq<char>, title: Seq<char> },
}

impl DeepView for ViewerContent {
    type V = ViewerContentModel;

    open spec fn deep_view(&self) -> ViewerContentModel {
        match self {
            ViewerContent::Table { title } => ViewerContentModel::Table { title: title@ },
            ViewerContent::Message { content, title } => ViewerContentModel::Message {
                content: content@,
                title: title@,
            },
        }
    }
}

/// The sort chain as the title of the table tells it.
pub open spec fn sort_info(chain: Seq<SortKey>) -> Seq<char> {
    if chain.len() == 0 {
        Seq::empty()
    } else {
        " - Sorted by: "@ + joined(chain.map_values(|k: SortKey| order_term(k)), ", "@)
    }
}

impl StateModel {
    /// The text of the table status: the selected row and column among
    /// those of the data, each counted from one.
    pub open spec fn table_status(self) -> Seq<char> {
        match self.table_data {
            Some(data) => "Row: "@ + decimal((self.selected_row + 1) as nat) + " of "@ + decimal(
                data.rows.len(),
            ) + " | Col: "@ + decimal(
                match self.visible_index() {
                    Some(i) => (i + 1) as nat,
                    None => 1,
                },
            ) + " of "@ + decimal(data.columns.len()) + " | ←→↑↓ navigate"@,
            None => "No table data"@,
        }
    }

    /// The column that the filter input names, in brackets.
    pub open spec fn search_context(self) -> Seq<char> {
        match (self.search_column, self.table_data) {
            (Some(i), Some(data)) => if i < data.columns.len() {
                " ["@ + data.columns[i as int] + "]"@
            } else {
                Seq::empty()
            },
            _ => Seq::empty(),
        }
    }

    /// The line of the filter input, with the cursor at its end.
    pub open spec fn search_display(self) -> Seq<char> {
        "Filter"@ + self.search_context() + ": "@ + self.search_text + "_"@
    }

    /// The title of the table.
    pub open spec fn table_title(self, table: Seq<char>, data: QueryResultModel) -> Seq<char> {
        "Table: "@ + table + " ("@ + decimal(data.row_count as nat) + " rows)"@ + sort_info(
            self.sort_columns,
        )
    }

    /// What the table viewer shows: the step of the creation wizard, or
    /// the table, or what is missing for the table to be shown.
    pub open spec fn viewer_content(self) -> ViewerContentModel {
        if self.current_state == AppState::ImportWizard && self.is_creating_table {
            match self.table_creation_step {
                TableCreationStep::EnteringTableName => ViewerContentModel::Message {
                    content: "Create New Table\n\nTable name: "@ + shown_input(self.new_table_name)
                        + "\n\nType the table name and press Enter to continue\nPress Esc to cancel"@,
                    title: "Import Wizard - Table Name"@,
                },
                TableCreationStep::SelectingFile => ViewerContentModel::Message {
                    content: "Create New Table: '"@ + self.new_table_name
                        + "'\n\nSelect a file to import data from:\n• CSV files (.csv)\n• JSON files (.json)\n• Parquet files (.parquet)\n\nPress Esc to cancel"@,
                    title: "Import Wizard - File Selection"@,
                },
                TableCreationStep::ImportingData => ViewerContentModel::Message {
                    content: "Create New Table: '"@ + self.new_table_name
                        + "'\n\nImporting data...\n\nPlease wait while the data is being imported."@,
                    title: "Import Wizard - Importing"@,
                },
            }
        } else {
            match (self.selected_database, self.selected_table) {
                (Some(database), Some(table)) => match self.table_data {
                    Some(data) => ViewerContentModel::Table {
                        title: self.table_title(table, data),
                    },
                    None => ViewerContentModel::Message {
                        content: "Database: "@ + database + "\nTable: "@ + table
                            + "\n\nLoading table data...\n\nPress Enter on table to load data or wait for auto-load"@,
                        title: "Table Viewer"@,
                    },
                },
                _ => ViewerContentModel::Message {
                    content: "Select a database and table to view data\n\nNavigation:\n• Use Tab/Shift+Tab to switch panels\n• Use ↑↓ to navigate lists\n• Press Enter to select items\n• Press i to import data\n• Press h for help\n• Press q or Esc to quit\n\nDebug:\nDatabase: "@
                        + debug_of(self.selected_database) + "\nTable: "@ + debug_of(
                        self.selected_table,
                    ),
                    title: "Main Content [3]"@,
                },
            }
        }
    }

    /// The text of the window that asks for the name of a new database.
    pub open spec fn database_name_prompt(self) -> Seq<char> {
        "Create New Database\n\nName: "@ + shown_input(self.new_database_name)
            + "\n\nPress Enter to create, Esc to cancel"@
    }

    /// The text of the window that asks for the file to save to.
    pub open spec fn save_filename_prompt(self, current_database: Option<Seq<char>>) -> Seq<char> {
        "Save Database '"@ + (match current_database {
            Some(name) => name,
            None => "none"@,
        }) + "' to File\n\nFilename: "@ + shown_input(self.save_filename)
            + "\n\n(.db extension will be added if not present)\nPress Enter to save, Esc to cancel"@
    }

    /// The text of the window that asks before something is deleted.
    pub open spec fn delete_prompt(self) -> Seq<char> {
        "⚠️  Delete Confirmation\n\nDelete "@ + (match self.delete_confirmation {
            DeleteConfirmationModel::Database(name) => "database '"@ + name,
            DeleteConfirmationModel::Table(name) => "table '"@ + name,
            DeleteConfirmationModel::Inactive => "item 'unknown"@,
        }) + "'?\nThis action cannot be undone!\n\nPress 'd' to confirm, Esc to cancel"@
    }

    /// The query of the view that is about to be made, cut down to what
    /// the window has room for; a stand-in where there is none.
    pub open spec fn sql_preview(self) -> Seq<char> {
        let table = match self.selected_table {
            Some(name) => name,
            None => "unknown"@,
        };
        match self.view_sql(table) {
            Some(sql) => "\nSQL: "@ + truncated(sql, SQL_PREVIEW_WIDTH as nat),
            None => "\nSQL: SELECT * FROM table"@,
        }
    }

    /// The text of the window that asks for the name of a view.
    pub open spec fn view_name_prompt(self) -> Seq<char> {
        "Save View from Table '"@ + (match self.selected_table {
            Some(name) => name,
            None => "unknown"@,
        }) + "'\n\nView name: "@ + shown_input(self.new_view_name) + self.sql_preview()
            + "\n\nPress Enter to create view, Esc to cancel"@
    }

    /// The latest notification as it is drawn in a box of the given
    /// width: its category, and its sign before its message, cut to fit.
    pub open spec fn notification_line(self, width: u16) -> Option<(NotificationType, Seq<char>)> {
        if self.notifications.len() == 0 {
            None
        } else {
            let latest = self.notifications.last();
            Some(
                (
                    latest.notification_type,
                    notification_icon(latest.notification_type) + " "@ + truncated(
                        latest.message,
                        inner_size(width, NOTIFICATION_CHROME_WIDTH),
                    ),
                ),
            )
        }
    }
}

/// The input as it is shown.
fn show_input(text: &str) -> (shown: &str)
    ensures
        shown@ == shown_input(text@),
{
    if text.unicode_len() == 0 {
        "_"
    } else {
        text
    }
}

/// The sort chain as the title of the table tells it.
pub fn write_sort_info(chain: &Vec<SortColumnSpec>) -> (info: String)
    ensures
        info@ == sort_info(chain.deep_view()),
{
    if chain.len() == 0 {
        return String::new();
    }
    let ghost term = |k: SortKey| order_term(k);
    let mut parts: Vec<String> = Vec::new();
    let mut i: usize = 0;
    while i < chain.len()
        invariant
            i <= chain.len(),
            term == |k: SortKey| order_term(k),
            parts.deep_view() == chain.deep_view().take(i as int).map_values(term),
        decreases chain.len() - i,
    {
        let ghost done = parts.deep_view();
        let mut part = chain[i].column_name.clone();
        part.append(" ");
        match chain[i].direction {
            SortDirection::Ascending => part.append("ASC"),
            SortDirection::Descending => part.append("DESC"),
        }
        proof {
            reveal_strlit(" ");
            reveal_strlit("ASC");
            reveal_strlit("DESC");
            assert(" "@ =~= seq![' ']);
            assert("ASC"@ =~= direction_keyword(SortDirection::Ascending));
            assert("DESC"@ =~= direction_keyword(SortDirection::Descending));
            assert(part@ =~= order_term(chain.deep_view()[i as int]));
        }
        parts.push(part);
        proof {
            let next = chain.deep_view().take(i + 1).map_values(term);
            assert(parts.deep_view() =~= done.push(order_term(chain.deep_view()[i as int])));
            assert(next =~= done.push(next.last()));
        }
        i += 1;
    }
    assert(chain.deep_view().take(i as int) =~= chain.deep_view());
    let mut info = " - Sorted by: ".to_owned();
    info.append(join_texts(&parts, ", ").as_str());
    info
}

impl ApplicationState {
    /// Takes note of the height of the table area at this draw.
    pub fn note_table_area_height(&mut self, height: u16)
        ensures
            final(self)@ == (StateModel { last_table_area_height: height, ..old(self)@ }),
    {
        proof {
            reveal(model_of);
        }
        self.last_table_area_height = height;
    }

    /// The text of the table status.
    pub fn table_status_text(&self) -> (text: String)
        ensures
            text@ == self@.table_status(),
    {
        proof {
            lemma_model_scalars(self);
            lemma_model_texts(self);
        }
        match &self.table_data {
            Some(data) => {
                let mut text = "Row: ".to_owned();
                text.append(next_decimal_text(self.selected_row).as_str());
                text.append(" of ");
                text.append(decimal_text(data.rows.len()).as_str());
                text.append(" | Col: ");
                match self.get_selected_visible_index() {
                    Some(i) => text.append(next_decimal_text(i).as_str()),
                    None => text.append(decimal_text(1).as_str()),
                }
                text.append(" of ");
                text.append(decimal_text(data.columns.len()).as_str());
                text.append(" | ←→↑↓ navigate");
                assert(text@ =~= self@.table_status());
                text
            },
            None => "No table data".to_owned(),
        }
    }

    /// The text of the table status, cut to fit an area of the given
    /// width.
    pub fn table_status_line(&self, area_width: u16) -> (line: String)
        ensures
            line@ == truncated(self@.table_status(), inner_size(area_width, TEXT_CHROME_WIDTH)),
    {
        truncate_text(
            self.table_status_text().as_str(),
            crate::table::inner(area_width, TEXT_CHROME_WIDTH),
        )
    }

    /// The status line, cut to fit an area of the given width.
    pub fn left_status_line(&self, area_width: u16) -> (line: String)
        ensures
            line@ == truncated(status_display(self@), inner_size(area_width, TEXT_CHROME_WIDTH)),
    {
        truncate_text(
            self.get_status_display().as_str(),
            crate::table::inner(area_width, TEXT_CHROME_WIDTH),
        )
    }

    /// The line of the filter input, cut to fit an area of the given
    /// width.
    pub fn search_input_line(&self, area_width: u16) -> (line: String)
        ensures
            line@ == truncated(self@.search_display(), inner_size(area_width, TEXT_CHROME_WIDTH)),
    {
        proof {
            lemma_model_scalars(self);
            lemma_model_texts(self);
        }
        let mut display = "Filter".to_owned();
        if let (Some(column_index), Some(data)) = (&self.search_column, &self.table_data) {
            if *column_index < data.columns.len() {
                assert(data.deep_view().columns[*column_index as int]
                    == data.columns[*column_index as int]@);
                display.append(" [");
                display.append(data.columns[*column_index].as_str());
                display.append("]");
            }
        }
        assert(display@ =~= "Filter"@ + self@.search_context());
        display.append(": ");
        display.append(self.search_text.as_str());
        display.append("_");
        truncate_text(display.as_str(), crate::table::inner(area_width, TEXT_CHROME_WIDTH))
    }

    /// The title of the table.
    pub fn table_title(&self, table: &str, data: &QueryResult) -> (title: String)
        ensures
            title@ == self@.table_title(table@, data.deep_view()),
    {
        proof {
            reveal(model_of);
        }
        let mut title = "Table: ".to_owned();
        title.append(table);
        title.append(" (");
        title.append(decimal_text(data.row_count).as_str());
        title.append(" rows)");
        title.append(write_sort_info(&self.sort_columns).as_str());
        assert(title@ =~= self@.table_title(table@, data.deep_view()));
        title
    }

    /// What the creation wizard shows in the table viewer.
    fn wizard_content(&self) -> (content: ViewerContent)
        requires
            self@.current_state == AppState::ImportWizard && self@.is_creating_table,
        ensures
            content.deep_view() == self@.viewer_content(),
    {
        proof {
            lemma_model_scalars(self);
            lemma_model_texts(self);
        }
        match self.table_creation_step {
            TableCreationStep::EnteringTableName => {
                let mut content = "Create New Table\n\nTable name: ".to_owned();
                content.append(show_input(self.new_table_name.as_str()));
                content.append(
                    "\n\nType the table name and press Enter to continue\nPress Esc to cancel",
                );
                ViewerContent::Message { content, title: "Import Wizard - Table Name".to_owned() }
            },
            TableCreationStep::SelectingFile => {
                let mut content = "Create New Table: '".to_owned();
                content.append(self.new_table_name.as_str());
                content.append(
                    "'\n\nSelect a file to import data from:\n• CSV files (.csv)\n• JSON files (.json)\n• Parquet files (.parquet)\n\nPress Esc to cancel",
                );
                ViewerContent::Message {
                    content,
                    title: "Import Wizard - File Selection".to_owned(),
                }
            },
            TableCreationStep::ImportingData => {
                let mut content = "Create New Table: '".to_owned();
                content.append(self.new_table_name.as_str());
                content.append(
                    "'\n\nImporting data...\n\nPlease wait while the data is being imported.",
                );
                ViewerContent::Message { content, title: "Import Wizard - Importing".to_owned() }
            },
        }
    }

    /// What the table viewer shows.
    pub fn viewer_content(&self) -> (content: ViewerContent)
        ensures
            content.deep_view() == self@.viewer_content(),
    {
        proof {
            lemma_model_scalars(self);
            lemma_model_texts(self);
        }
        if self.current_state == AppState::ImportWizard && self.is_creating_table {
            return self.wizard_content();
        }
        match (&self.selected_database, &self.selected_table) {
            (Some(database), Some(table)) => match &self.table_data {
                Some(data) => ViewerContent::Table { title: self.table_title(table.as_str(), data) },
                None => {
                    let mut content = "Database: ".to_owned();
                    content.append(database.as_str());
                    content.append("\nTable: ");
                    content.append(table.as_str());
                    content.append(
                        "\n\nLoading table data...\n\nPress Enter on table to load data or wait for auto-load",
                    );
                    ViewerContent::Message { content, title: "Table Viewer".to_owned() }
                },
            },
            _ => {
                let mut content =
                    "Select a database and table to view data\n\nNavigation:\n• Use Tab/Shift+Tab to switch panels\n• Use ↑↓ to navigate lists\n• Press Enter to select items\n• Press i to import data\n• Press h for help\n• Press q or Esc to quit\n\nDebug:\nDatabase: ".to_owned();
                content.append(debug_text(&self.selected_database).as_str());
                content.append("\nTable: ");
                content.append(debug_text(&self.selected_table).as_str());
                ViewerContent::Message { content, title: "Main Content [3]".to_owned() }
            },
        }
    }

    /// The text of the window that asks for the name of a new database.
    pub fn database_name_prompt(&self) -> (text: String)
        ensures
            text@ == self@.database_name_prompt(),
    {
        proof {
            lemma_model_texts(self);
        }
        let mut text = "Create New Database\n\nName: ".to_owned();
        text.append(show_input(self.new_database_name.as_str()));
        text.append("\n\nPress Enter to create, Esc to cancel");
        text
    }

    /// The text of the window that asks for the file to save to.
    pub fn save_filename_prompt(&self, current_database: &Option<String>) -> (text: String)
        ensures
            text@ == self@.save_filename_prompt(current_database.deep_view()),
    {
        proof {
            lemma_model_texts(self);
        }
        let mut text = "Save Database '".to_owned();
        match current_database {
            Some(name) => text.append(name.as_str()),
            None => text.append("none"),
        }
        text.append("' to File\n\nFilename: ");
        text.append(show_input(self.save_filename.as_str()));
        text.append(
            "\n\n(.db extension will be added if not present)\nPress Enter to save, Esc to cancel",
        );
        text
    }

    /// The text of the window that asks before something is deleted.
    pub fn delete_prompt(&self) -> (text: String)
        ensures
            text@ == self@.delete_prompt(),
    {
        proof {
            lemma_model_texts(self);
        }
        let mut text = "⚠️  Delete Confirmation\n\nDelete ".to_owned();
        match &self.delete_confirmation {
            DeleteConfirmationState::Database(name) => {
                text.append("database '");
                text.append(name.as_str());
            },
            DeleteConfirmationState::Table(name) => {
                text.append("table '");
                text.append(name.as_str());
            },
            DeleteConfirmationState::Inactive => {
                text.append("item 'unknown");
            },
        }
        text.append("'?\nThis action cannot be undone!\n\nPress 'd' to confirm, Esc to cancel");
        assert(text@ =~= self@.delete_prompt());
        text
    }

    /// The query of the view that is about to be made, cut down to what
    /// the window has room for.
    pub fn sql_preview(&self) -> (text: String)
        ensures
            text@ == self@.sql_preview(),
    {
        proof {
            lemma_model_texts(self);
        }
        let sql = match &self.selected_table {
            Some(name) => self.generate_view_sql(name.as_str()),
            None => self.generate_view_sql("unknown"),
        };
        match sql {
            Some(query) => {
                let mut text = "\nSQL: ".to_owned();
                text.append(truncate_text(query.as_str(), SQL_PREVIEW_WIDTH).as_str());
                text
            },
            None => "\nSQL: SELECT * FROM table".to_owned(),
        }
    }

    /// The text of the window that asks for the name of a view.
    pub fn view_name_prompt(&self) -> (text: String)
        ensures
            text@ == self@.view_name_prompt(),
    {
        proof {
            lemma_model_texts(self);
        }
        let mut text = "Save View from Table '".to_owned();
        match &self.selected_table {
            Some(name) => text.append(name.as_str()),
            None => text.append("unknown"),
        }
        text.append("'\n\nView name: ");
        text.append(show_input(self.new_view_name.as_str()));
        text.append(self.sql_preview().as_str());
        text.append("\n\nPress Enter to create view, Esc to cancel");
        assert(text@ =~= self@.view_name_prompt());
        text
    }

    /// The latest notification as it is drawn in a box of the given
    /// width.
    pub fn notification_line(&self, width: u16) -> (line: Option<(NotificationType, String)>)
        ensures
            match line {
                Some((kind, text)) => self@.notification_line(width) == Some((kind, text@)),
                None => self@.notification_line(width) is None,
            },
    {
        proof {
            reveal(model_of);
        }
        if self.notifications.len() == 0 {
            return None;
        }
        let latest = &self.notifications[self.notifications.len() - 1];
        let mut text = match latest.notification_type {
            NotificationType::Success => "✅".to_owned(),
            NotificationType::Error => "❌".to_owned(),
            NotificationType::Info => "ℹ️".to_owned(),
        };
        text.append(" ");
        text.append(
            truncate_text(
                latest.message.as_str(),
                crate::table::inner(width, NOTIFICATION_CHROME_WIDTH),
            ).as_str(),
        );
        assert(self.notifications.deep_view().last() == latest.deep_view());
        Some((latest.notification_type, text))
    }
}

} // verus!
