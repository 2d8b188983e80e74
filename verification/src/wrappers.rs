//! The full-screen widgets that a command can show.
//!
//! Nothing here draws. A [`Session`] says which widget is to be shown, where,
//! and how the terminal is prepared and left; the functions of this module
//! build the session of each widget, and [`Session::report`] and
//! [`Session::value`] say what is printed and handed back once the caller has
//! shown the widget and knows what the user answered.

use crate::text::{joined, debug_option, debug_option_text};
use vstd::prelude::*;

verus! {

/// One entry of an item list.
pub struct Item {
    pub title: String,
    pub subtitle: String,
}

pub struct ItemView {
    pub title: Seq<char>,
    pub subtitle: Seq<char>,
}

impl DeepView for Item {
    type V = ItemView;

    open spec fn deep_view(&self) -> ItemView {
        ItemView { title: self.title@, subtitle: self.subtitle@ }
    }
}

impl View for Item {
    type V = ItemView;

    open spec fn view(&self) -> ItemView {
        self.deep_view()
    }
}

/// A widget with everything that is needed to build it.
#[allow(inconsistent_fields)]
pub enum Widget {
    /// A one-line text input.
    TextInput {
        placeholder: Option<String>,
        padding: usize,
        initial_text: String,
        label: String,
        helper_text: Option<String>,
        prefix: String,
    },
    /// A multi-line text area.
    TextArea { label: String, helper_text: Option<String>, visible_lines: usize },
    /// A spinner next to a message, in the colour given by its three channels.
    Spinner { red: u8, green: u8, blue: u8, message: String, style: String },
    /// A table with a cursor row.
    Table {
        headers: Vec<String>,
        rows: Vec<Vec<String>>,
        selected_row: usize,
        padding: usize,
        visible_lines: usize,
    },
    /// A countdown.
    Timer { secs: u64, nanos: u32 },
    /// A stopwatch.
    StopWatch,
    /// A scrollable view of the text file at `file_path`, under `header`.
    Viewport { header: String, file_path: String, height: usize, width: usize, padding: usize },
    /// A list of items to choose one from.
    ItemList { title: String, items: Vec<Item> },
    /// A menu of entries to choose one from.
    Menu { title: String, subtitle: String, items: Vec<String> },
}

#[allow(inconsistent_fields)]
pub enum WidgetView {
    TextInput {
        placeholder: Option<Seq<char>>,
        padding: usize,
        initial_text: Seq<char>,
        label: Seq<char>,
        helper_text: Option<Seq<char>>,
        prefix: Seq<char>,
    },
    TextArea { label: Seq<char>, helper_text: Option<Seq<char>>, visible_lines: usize },
    Spinner { red: u8, green: u8, blue: u8, message: Seq<char>, style: Seq<char> },
    Table {
        headers: Seq<Seq<char>>,
        rows: Seq<Seq<Seq<char>>>,
        selected_row: usize,
        padding: usize,
        visible_lines: usize,
    },
    Timer { secs: u64, nanos: u32 },
    StopWatch,
    Viewport {
        header: Seq<char>,
        file_path: Seq<char>,
        height: usize,
        width: usize,
        padding: usize,
    },
    ItemList { title: Seq<char>, items: Seq<ItemView> },
    Menu { title: Seq<char>, subtitle: Seq<char>, items: Seq<Seq<char>> },
}

impl View for Widget {
    type V = WidgetView;

    open spec fn view(&self) -> WidgetView {
        match *self {
            Widget::TextInput { placeholder, padding, initial_text, label, helper_text, prefix } => {
                WidgetView::TextInput {
                    placeholder: placeholder.deep_view(),
                    padding,
                    initial_text: initial_text@,
                    label: label@,
                    helper_text: helper_text.deep_view(),
                    prefix: prefix@,
                }
            },
            Widget::TextArea { label, helper_text, visible_lines } => WidgetView::TextArea {
                label: label@,
                helper_text: helper_text.deep_view(),
                visible_lines,
            },
            Widget::Spinner { red, green, blue, message, style } => WidgetView::Spinner {
                red,
                green,
                blue,
                message: message@,
                style: style@,
            },
            Widget::Table { headers, rows, selected_row, padding, visible_lines } => {
                WidgetView::Table {
                    headers: headers.deep_view(),
                    rows: rows.deep_view(),
                    selected_row,
                    padding,
                    visible_lines,
                }
            },
            Widget::Timer { secs, nanos } => WidgetView::Timer { secs, nanos },
            Widget::StopWatch => WidgetView::StopWatch,
            Widget::Viewport { header, file_path, height, width, padding } => {
                WidgetView::Viewport {
                    header: header@,
                    file_path: file_path@,
                    height,
                    width,
                    padding,
                }
            },
            Widget::ItemList { title, items } => WidgetView::ItemList {
                title: title@,
                items: items.deep_view(),
            },
            Widget::Menu { title, subtitle, items } => WidgetView::Menu {
                title: title@,
                subtitle: subtitle@,
                items: items.deep_view(),
            },
        }
    }
}

/// One widget on the screen: the widget, the column and row of its top left
/// corner, and what is done to the terminal around it.
pub struct Session {
    pub widget: Widget,
    pub x: u16,
    pub y: u16,
    /// The terminal is in raw mode while the widget is shown.
    pub raw_mode: bool,
    /// The screen is cleared before the widget is shown.
    pub clear_before: bool,
    /// The screen is cleared when the widget has closed.
    pub clear_after: bool,
}

pub struct SessionView {
    pub widget: WidgetView,
    pub x: u16,
    pub y: u16,
    pub raw_mode: bool,
    pub clear_before: bool,
    pub clear_after: bool,
}

impl View for Session {
    type V = SessionView;

    open spec fn view(&self) -> SessionView {
        SessionView {
            widget: self.widget@,
            x: self.x,
            y: self.y,
            raw_mode: self.raw_mode,
            clear_before: self.clear_before,
            clear_after: self.clear_after,
        }
    }
}

/// A session in raw mode at column 5, row 5, on a screen cleared beforehand.
pub open spec fn framed(widget: WidgetView) -> SessionView {
    SessionView { widget, x: 5, y: 5, raw_mode: true, clear_before: true, clear_after: false }
}

/// A session in raw mode at column 5, row 5, whose screen is cleared afterwards.
pub open spec fn listed(widget: WidgetView) -> SessionView {
    SessionView { widget, x: 5, y: 5, raw_mode: true, clear_before: false, clear_after: true }
}

/// The session of an input form.
pub open spec fn input_form_view(
    placeholder: Seq<char>,
    initial_text: Seq<char>,
    label: Seq<char>,
) -> SessionView {
    framed(
        WidgetView::TextInput {
            placeholder: Some(placeholder),
            padding: 2,
            initial_text,
            label,
            helper_text: Some("Ctrl+C to exit"@),
            prefix: ">"@,
        },
    )
}

/// The session of a text area.
pub open spec fn text_area_view(label: Seq<char>, visible_lines: usize) -> SessionView {
    framed(
        WidgetView::TextArea { label, helper_text: Some("Press ESC to exit."@), visible_lines },
    )
}

/// The session of a loader: at column 10, row 10, outside raw mode, on a
/// screen that is cleared afterwards.
pub open spec fn loader_view(message: Seq<char>, style: Seq<char>) -> SessionView {
    SessionView {
        widget: WidgetView::Spinner { red: 0, green: 255, blue: 255, message, style },
        x: 10,
        y: 10,
        raw_mode: false,
        clear_before: false,
        clear_after: true,
    }
}

/// The session of a table.
pub open spec fn table_view(headers: Seq<Seq<char>>, rows: Seq<Seq<Seq<char>>>) -> SessionView {
    framed(WidgetView::Table { headers, rows, selected_row: 0, padding: 3, visible_lines: 5 })
}

/// The session of a countdown.
pub open spec fn timer_view(secs: u64, nanos: u32) -> SessionView {
    framed(WidgetView::Timer { secs, nanos })
}

/// The session of a stopwatch.
pub open spec fn stopwatch_view() -> SessionView {
    framed(WidgetView::StopWatch)
}

/// The session of a viewport.
pub open spec fn viewport_view(file_path: Seq<char>) -> SessionView {
    framed(
        WidgetView::Viewport {
            header: last_segment(file_path),
            file_path,
            height: 20,
            width: 100,
            padding: 6,
        },
    )
}

/// The session of an item list.
pub open spec fn item_list_view(list: Seq<ItemView>, list_title: Seq<char>) -> SessionView {
    listed(WidgetView::ItemList { title: list_title, items: list })
}

/// The session of a menu.
pub open spec fn menu_list_view(
    list: Seq<Seq<char>>,
    list_title: Seq<char>,
    list_sub_title: Seq<char>,
) -> SessionView {
    listed(WidgetView::Menu { title: list_title, subtitle: list_sub_title, items: list })
}

/// The line that a widget leaves on the terminal when it has closed with
/// `reply`: the text area echoes what was entered, the lists what was chosen,
/// and the spinner says that it is done.
pub open spec fn report_text(widget: WidgetView, reply: Option<Seq<char>>) -> Option<Seq<char>> {
    match widget {
        WidgetView::TextArea { .. } => Some("Input value: "@ + debug_option_text(reply)),
        WidgetView::Spinner { .. } => Some("Operation completed."@),
        WidgetView::ItemList { .. } => Some("List: "@ + debug_option_text(reply)),
        WidgetView::Menu { .. } => Some("List: "@ + debug_option_text(reply)),
        _ => None,
    }
}

/// What a widget hands back when it has closed with `reply`: the text input
/// a sentence about what was entered, the lists what was chosen, and every
/// other widget nothing.
pub open spec fn value_text(widget: WidgetView, reply: Option<Seq<char>>) -> Option<Seq<char>> {
    match widget {
        WidgetView::TextInput { .. } => Some("Input value: "@ + debug_option_text(reply)),
        WidgetView::ItemList { .. } => reply,
        WidgetView::Menu { .. } => reply,
        _ => None,
    }
}

impl Session {
    /// The line to print when the widget has closed with `reply`, if there is one.
    pub fn report(&self, reply: &Option<String>) -> (line: Option<String>)
        ensures
            line.deep_view() == report_text(self@.widget, reply.deep_view()),
    {
        match &self.widget {
            Widget::TextArea { .. } => {
                let shown = debug_option(reply);
                Some(joined("Input value: ", shown.as_str()))
            },
            Widget::Spinner { .. } => Some("Operation completed.".to_owned()),
            Widget::ItemList { .. } => {
                let shown = debug_option(reply);
                Some(joined("List: ", shown.as_str()))
            },
            Widget::Menu { .. } => {
                let shown = debug_option(reply);
                Some(joined("List: ", shown.as_str()))
            },
            _ => None,
        }
    }

    /// What the widget hands back when it has closed with `reply`.
    pub fn value(&self, reply: Option<String>) -> (value: Option<String>)
        ensures
            value.deep_view() == value_text(self@.widget, reply.deep_view()),
    {
        match &self.widget {
            Widget::TextInput { .. } => {
                let shown = debug_option(&reply);
                Some(joined("Input value: ", shown.as_str()))
            },
            Widget::ItemList { .. } => reply,
            Widget::Menu { .. } => reply,
            _ => None,
        }
    }
}

/// Describes an input form: a text input with two columns of padding, the
/// prompt `>` and a hint on how to leave.
pub fn input_form(placeholder: &str, initial_text: &str, label: &str) -> (session: Session)
    ensures
        session@ == input_form_view(placeholder@, initial_text@, label@),
{
    Session {
        widget: Widget::TextInput {
            placeholder: Some(placeholder.to_owned()),
            padding: 2,
            initial_text: initial_text.to_owned(),
            label: label.to_owned(),
            helper_text: Some("Ctrl+C to exit".to_owned()),
            prefix: ">".to_owned(),
        },
        x: 5,
        y: 5,
        raw_mode: true,
        clear_before: true,
        clear_after: false,
    }
}

/// Describes a text area that shows `visible_lines` lines at a time.
pub fn text_area(label: &str, visible_lines: usize) -> (session: Session)
    ensures
        session@ == text_area_view(label@, visible_lines),
{
    Session {
        widget: Widget::TextArea {
            label: label.to_owned(),
            helper_text: Some("Press ESC to exit.".to_owned()),
            visible_lines,
        },
        x: 5,
        y: 5,
        raw_mode: true,
        clear_before: true,
        clear_after: false,
    }
}

/// Describes a loader: a cyan spinner in the given style, next to `message`.
pub fn loader(message: String, style: String) -> (session: Session)
    ensures
        session@ == loader_view(message@, style@),
{
    Session {
        widget: Widget::Spinner { red: 0, green: 255, blue: 255, message, style },
        x: 10,
        y: 10,
        raw_mode: false,
        clear_before: false,
        clear_after: true,
    }
}

/// Describes a countdown of `secs` seconds and `nanos` nanoseconds.
pub fn timer(secs: u64, nanos: u32) -> (session: Session)
    ensures
        session@ == timer_view(secs, nanos),
{
    Session {
        widget: Widget::Timer { secs, nanos },
        x: 5,
        y: 5,
        raw_mode: true,
        clear_before: true,
        clear_after: false,
    }
}

/// Describes a stopwatch.
pub fn stopwatch() -> (session: Session)
    ensures
        session@ == stopwatch_view(),
{
    Session {
        widget: Widget::StopWatch,
        x: 5,
        y: 5,
        raw_mode: true,
        clear_before: true,
        clear_after: false,
    }
}

/// Describes an item list under `list_title`.
pub fn item_list(list: Vec<Item>, list_title: String) -> (session: Session)
    ensures
        session@ == item_list_view(list.deep_view(), list_title@),
{
    Session {
        widget: Widget::ItemList { title: list_title, items: list },
        x: 5,
        y: 5,
        raw_mode: true,
        clear_before: false,
        clear_after: true,
    }
}

/// Describes a menu under `list_title` and `list_sub_title`.
pub fn menu_list(list: Vec<String>, list_title: String, list_sub_title: String) -> (session:
    Session)
    ensures
        session@ == menu_list_view(list.deep_view(), list_title@, list_sub_title@),
{
    Session {
        widget: Widget::Menu { title: list_title, subtitle: list_sub_title, items: list },
        x: 5,
        y: 5,
        raw_mode: true,
        clear_before: false,
        clear_after: true,
    }
}

/// Owned copies of `items`, in the same order.
fn owned(items: &Vec<&'static str>) -> (copies: Vec<String>)
    ensures
        copies.deep_view() == items.deep_view(),
{
    let mut copies: Vec<String> = Vec::new();
    let mut i: usize = 0;
    while i < items.len()
        invariant
            i <= items.len(),
            copies.len() == i,
            forall|k: int| 0 <= k < i ==> copies[k]@ == items[k]@,
        decreases items.len() - i,
    {
        copies.push(items[i].to_owned());
        i += 1;
    }
    assert(copies.deep_view() =~= items.deep_view());
    copies
}

/// Describes a table: the cursor on the first row, three columns of
/// padding, five rows in sight.
pub fn table(headers: Vec<&'static str>, rows: Vec<Vec<&'static str>>) -> (session: Session)
    ensures
        session@ == table_view(headers.deep_view(), rows.deep_view()),
{
    let headers_owned = owned(&headers);
    let mut rows_owned: Vec<Vec<String>> = Vec::new();
    let mut i: usize = 0;
    while i < rows.len()
        invariant
            i <= rows.len(),
            rows_owned.len() == i,
            forall|k: int| 0 <= k < i ==> rows_owned[k].deep_view() == rows[k].deep_view(),
        decreases rows.len() - i,
    {
        rows_owned.push(owned(&rows[i]));
        i += 1;
    }
    assert(rows_owned.deep_view() =~= rows.deep_view());
    Session {
        widget: Widget::Table {
            headers: headers_owned,
            rows: rows_owned,
            selected_row: 0,
            padding: 3,
            visible_lines: 5,
        },
        x: 5,
        y: 5,
        raw_mode: true,
        clear_before: true,
        clear_after: false,
    }
}

/// Where the last segment of `path` starts: behind its last `/`, or at 0
/// where it has none.
pub open spec fn segment_start(path: Seq<char>) -> int
    decreases path.len(),
{
    if path.len() == 0 {
        0
    } else if path.last() == '/' {
        path.len() as int
    } else {
        segment_start(path.drop_last())
    }
}

/// What follows the last `/` of `path`; all of `path` where it has none.
pub open spec fn last_segment(path: Seq<char>) -> Seq<char> {
    path.subrange(segment_start(path), path.len() as int)
}

/// The last segment of `path`, the name under which a file is shown.
pub fn file_name(path: &str) -> (name: String)
    ensures
        name@ == last_segment(path@),
{
    broadcast use vstd::string::axiom_spec_iter;

    let n = path.unicode_len();
    let mut start: usize = 0;
    let mut i: usize = 0;
    for c in it: path.chars()
        invariant
            it.seq() == path@,
            n == path@.len(),
            i == it.index(),
            start <= i,
            start == segment_start(path@.take(i as int)),
    {
        assert(path@.take(i + 1).drop_last() =~= path@.take(i as int));
        i += 1;
        if c == '/' {
            start = i;
        }
    }
    assert(path@.take(n as int) =~= path@);
    path.substring_char(start, n).to_owned()
}

/// Describes a viewport on the text file at `file_path`: the file's name as
/// the header, 20 lines of 100 columns in sight, six columns of padding.
pub fn viewport(file_path: String) -> (session: Session)
    ensures
        session@ == viewport_view(file_path@),
{
    let header = file_name(file_path.as_str());
    Session {
        widget: Widget::Viewport { header, file_path, height: 20, width: 100, padding: 6 },
        x: 5,
        y: 5,
        raw_mode: true,
        clear_before: true,
        clear_after: false,
    }
}

} // verus!
