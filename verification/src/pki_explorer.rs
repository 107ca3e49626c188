//! The interactive session: what a key does to it, and what it shows.

use crate::selection::first_selection;
use crate::selection::next_selection;
use crate::selection::on_list;
use crate::selection::previous_selection;
use crate::text::colored;
use crate::text::lines_view;
use crate::text::plain_line;
use crate::text::single;
use crate::text::Color;
use crate::text::Line;
use crate::text::LineView;
use crate::text::Span;
use crate::text::SpanView;
use crate::timestamp::clock;
use crate::timestamp::Timestamp;
use crate::x509::records_view;
use crate::x509::X509View;
use crate::x509::X509;
use crate::x509_tui::X509TUIList;
use vstd::prelude::*;
use vstd::string::StringExecFns;

verus! {

/// The share of the screen's height that the header takes, in percent.
pub const HEADER_PERCENT: u16 = 5;

/// The share of the screen's height that list and detail pane take.
pub const CONTENT_PERCENT: u16 = 90;

/// The share of the screen's height that the footer takes.
pub const FOOTER_PERCENT: u16 = 5;

/// The share of the content's width that the list takes.
pub const LIST_PERCENT: u16 = 30;

/// The share of the content's width that the detail pane takes.
pub const DETAIL_PERCENT: u16 = 70;

/// The mark in front of the selected item of the list.
pub const HIGHLIGHT_SYMBOL: &'static str = ">";

/// Shown in the detail pane where the scan found no certificate.
pub const NO_CERTIFICATES: &'static str =
    "This path contains no valid X509 certificates. Please use -p to specifiy a path.";

/// Shown in the detail pane where the selection names no record.
pub const STALE_SELECTION: &'static str = "Couldn't parse the X509 TUI item.";

/// Shown in the detail pane where nothing is selected.
pub const NO_SELECTION: &'static str = "No X509 selected.";

/// A key of the keyboard, as far as the session tells keys apart.
#[derive(Clone, Copy, Debug, PartialEq, Eq, Structural)]
pub enum KeyCode {
    Char(char),
    Esc,
    Up,
    Down,
    Other,
}

/// What happened to a key.
#[derive(Clone, Copy, Debug, PartialEq, Eq, Structural)]
pub enum KeyEventKind {
    Press,
    Repeat,
    Release,
}

/// An event of the keyboard.
#[derive(Clone, Copy, Debug, PartialEq, Eq, Structural)]
pub struct KeyEvent {
    pub code: KeyCode,
    pub kind: KeyEventKind,
}

/// What a key asks of the session.
#[derive(Clone, Copy, Debug, PartialEq, Eq, Structural)]
pub enum Command {
    Quit,
    SelectNext,
    SelectPrevious,
    Ignore,
}

/// The command that a key event stands for. Only a key that is pressed
/// counts: `q` and Escape quit, the arrows up and down move the selection,
/// and every other key is ignored.
pub open spec fn command_of(key: KeyEvent) -> Command {
    if key.kind != KeyEventKind::Press {
        Command::Ignore
    } else {
        match key.code {
            KeyCode::Char(c) => if c == 'q' {
                Command::Quit
            } else {
                Command::Ignore
            },
            KeyCode::Esc => Command::Quit,
            KeyCode::Up => Command::SelectPrevious,
            KeyCode::Down => Command::SelectNext,
            KeyCode::Other => Command::Ignore,
        }
    }
}

/// Tells which command a key event stands for.
pub fn command(key: KeyEvent) -> (r: Command)
    ensures
        r == command_of(key),
{
    match key.kind {
        KeyEventKind::Press => match key.code {
            KeyCode::Char(c) => if c == 'q' {
                Command::Quit
            } else {
                Command::Ignore
            },
            KeyCode::Esc => Command::Quit,
            KeyCode::Up => Command::SelectPrevious,
            KeyCode::Down => Command::SelectNext,
            KeyCode::Other => Command::Ignore,
        },
        _ => Command::Ignore,
    }
}

/// The session: the records that the scan found, the selection over them,
/// the directory that was scanned, and whether the user has quit.
pub struct PKIExplorerApp {
    done: bool,
    x509_tui_list: X509TUIList,
    workdir: String,
}

/// The session as a mathematical value.
pub struct PKIExplorerAppView {
    pub done: bool,
    pub items: Seq<X509View>,
    pub selected: Option<usize>,
    pub workdir: Seq<char>,
}

impl View for PKIExplorerApp {
    type V = PKIExplorerAppView;

    closed spec fn view(&self) -> PKIExplorerAppView {
        PKIExplorerAppView {
            done: self.done,
            items: self.x509_tui_list@.items,
            selected: self.x509_tui_list@.selected,
            workdir: self.workdir@,
        }
    }
}

impl PKIExplorerAppView {
    /// The selection names one of the records, and is absent exactly when
    /// there is none.
    pub open spec fn wf(self) -> bool {
        on_list(self.selected, self.items.len())
    }

    /// The session after a key event: a quit command ends it, and nothing
    /// else does; a move of the selection leaves everything else as it was.
    pub open spec fn handled(self, key: KeyEvent) -> PKIExplorerAppView {
        match command_of(key) {
            Command::Quit => PKIExplorerAppView { done: true, ..self },
            Command::SelectNext => PKIExplorerAppView {
                selected: next_selection(self.selected, self.items.len()),
                ..self
            },
            Command::SelectPrevious => PKIExplorerAppView {
                selected: previous_selection(self.selected, self.items.len()),
                ..self
            },
            Command::Ignore => self,
        }
    }

    /// The session after a run of key events, first to last.
    pub open spec fn handled_all(self, keys: Seq<KeyEvent>) -> PKIExplorerAppView
        decreases keys.len(),
    {
        if keys.len() == 0 {
            self
        } else {
            self.handled_all(keys.drop_last()).handled(keys.last())
        }
    }

    /// The footer: it names the directory that was scanned.
    pub open spec fn footer(self) -> LineView {
        plain_line("currently exploring the directory: "@ + self.workdir, true)
    }

    /// The list pane: one line for each record, with its subject.
    pub open spec fn list(self) -> Seq<LineView> {
        self.items.map_values(|record: X509View| list_item(record))
    }

    /// The detail pane at the instant `now`.
    pub open spec fn detail(self, now: Timestamp) -> Seq<LineView> {
        detail(self.items, self.selected, now)
    }
}

/// The header: the name of the program, then how to use it.
pub open spec fn header() -> Seq<LineView> {
    seq![
        single(
            SpanView { text: "pki-explorer"@, color: Some(Color::LightBlue), bold: true },
            true,
        ),
        plain_line("use the arrow keys to move; press 'q' to exit; use '-h' for help"@, true),
    ]
}

/// The line of a record in the list pane.
pub open spec fn list_item(record: X509View) -> LineView {
    single(colored(record.subject, Color::GreenAccent), false)
}

/// The detail pane for a list of records and a selection over it, at the
/// instant `now`: a notice where there is no record at all; the lines of
/// the selected record where the selection names one; a notice rather than
/// a fault where it names none of them; and a notice where nothing is
/// selected.
pub open spec fn detail(items: Seq<X509View>, selected: Option<usize>, now: Timestamp) -> Seq<
    LineView,
> {
    if items.len() == 0 {
        seq![plain_line(NO_CERTIFICATES@, true)]
    } else {
        match selected {
            Some(index) => if index < items.len() {
                items[index as int].default_lines(now)
            } else {
                seq![plain_line(STALE_SELECTION@, false)]
            },
            None => seq![plain_line(NO_SELECTION@, false)],
        }
    }
}

/// Everything that one redraw shows.
pub struct Screen {
    pub header: Vec<Line>,
    pub list: Vec<Line>,
    pub selected: Option<usize>,
    pub detail: Vec<Line>,
    pub footer: Line,
}

/// A screen as a mathematical value.
pub struct ScreenView {
    pub header: Seq<LineView>,
    pub list: Seq<LineView>,
    pub selected: Option<usize>,
    pub detail: Seq<LineView>,
    pub footer: LineView,
}

impl View for Screen {
    type V = ScreenView;

    open spec fn view(&self) -> ScreenView {
        ScreenView {
            header: lines_view(self.header@),
            list: lines_view(self.list@),
            selected: self.selected,
            detail: lines_view(self.detail@),
            footer: self.footer@,
        }
    }
}

impl PKIExplorerAppView {
    /// The whole screen at the instant `now`: list and detail pane are
    /// always shown together, between header and footer.
    pub open spec fn screen(self, now: Timestamp) -> ScreenView {
        ScreenView {
            header: header(),
            list: self.list(),
            selected: self.selected,
            detail: self.detail(now),
            footer: self.footer(),
        }
    }
}

fn one_line(line: Line) -> (r: Vec<Line>)
    ensures
        lines_view(r@) == seq![line@],
{
    let mut r: Vec<Line> = Vec::new();
    r.push(line);
    assert(lines_view(r@) =~= seq![line@]);
    r
}

/// Makes the header.
pub fn header_lines() -> (r: Vec<Line>)
    ensures
        lines_view(r@) == header(),
{
    let mut r: Vec<Line> = Vec::new();
    r.push(
        Line::single(
            Span { text: "pki-explorer".to_string(), color: Some(Color::LightBlue), bold: true },
            true,
        ),
    );
    r.push(
        Line::plain(
            "use the arrow keys to move; press 'q' to exit; use '-h' for help".to_string(),
            true,
        ),
    );
    assert(lines_view(r@) =~= header());
    r
}

/// Makes the list pane for the records given.
pub fn list_lines(items: &Vec<X509>) -> (r: Vec<Line>)
    ensures
        lines_view(r@) == records_view(items@).map_values(|record: X509View| list_item(record)),
{
    let mut r: Vec<Line> = Vec::new();
    let mut i: usize = 0;
    while i < items.len()
        invariant
            i <= items.len(),
            r.len() == i,
            forall|j: int| 0 <= j < i ==> (#[trigger] r@[j])@ == list_item(items@[j]@),
        decreases items.len() - i,
    {
        let subject = items[i].get_subject().clone();
        r.push(Line::single(Span::colored(subject, Color::GreenAccent), false));
        i += 1;
    }
    assert(lines_view(r@) =~= records_view(items@).map_values(
        |record: X509View| list_item(record),
    ));
    r
}

/// Makes the detail pane for the records and the selection given, at the
/// instant `now`. No selection makes it fault, on the list or off it.
pub fn detail_lines(items: &Vec<X509>, selected: Option<usize>, now: &Timestamp) -> (r: Vec<Line>)
    ensures
        lines_view(r@) == detail(records_view(items@), selected, *now),
{
    if items.len() == 0 {
        one_line(Line::plain(NO_CERTIFICATES.to_string(), true))
    } else {
        match selected {
            Some(index) => {
                if index < items.len() {
                    items[index].get_lines_at(now)
                } else {
                    one_line(Line::plain(STALE_SELECTION.to_string(), false))
                }
            },
            None => one_line(Line::plain(NO_SELECTION.to_string(), false)),
        }
    }
}

impl PKIExplorerApp {
    /// Opens the session on the records that a scan of `workdir` has found.
    /// The session runs, and the first record is selected where there is
    /// one.
    pub fn new(x509s: Vec<X509>, workdir: String) -> (r: Self)
        ensures
            r@ == (PKIExplorerAppView {
                done: false,
                items: records_view(x509s@),
                selected: first_selection(x509s@.len()),
                workdir: workdir@,
            }),
            r@.wf(),
    {
        PKIExplorerApp { done: false, x509_tui_list: X509TUIList::new(x509s), workdir }
    }

    /// Tells whether the user has quit.
    pub fn is_done(&self) -> (r: bool)
        ensures
            r == self@.done,
    {
        self.done
    }

    /// The index of the record that is selected: the index of one of the
    /// records, and none exactly when there is no record.
    pub fn selected(&self) -> (r: Option<usize>)
        ensures
            r == self@.selected,
            self@.wf(),
    {
        self.x509_tui_list.selected()
    }

    /// The records, in the order of their discovery.
    pub fn items(&self) -> (r: &Vec<X509>)
        ensures
            records_view(r@) == self@.items,
    {
        self.x509_tui_list.items()
    }

    /// Takes a key event. A quit command ends the session, whatever is
    /// selected, and nothing else ends it; the arrows move the selection,
    /// which stays on the list; every other event changes nothing.
    pub fn handle_key(&mut self, key: KeyEvent)
        ensures
            final(self)@ == old(self)@.handled(key),
            final(self)@.done == (old(self)@.done || command_of(key) == Command::Quit),
            final(self)@.wf(),
    {
        proof {
            use_type_invariant(&self.x509_tui_list);
            self.x509_tui_list.lemma_selection_on_list();
        }
        match command(key) {
            Command::Quit => {
                self.done = true;
            },
            Command::SelectNext => {
                self.x509_tui_list.select_next();
            },
            Command::SelectPrevious => {
                self.x509_tui_list.select_previous();
            },
            Command::Ignore => {},
        }
    }

    /// Makes the footer.
    pub fn footer_line(&self) -> (r: Line)
        ensures
            r@ == self@.footer(),
    {
        let mut text = "currently exploring the directory: ".to_string();
        text.append(self.workdir.as_str());
        Line::plain(text, true)
    }

    /// Makes the whole screen at the instant `now`.
    pub fn screen_at(&self, now: &Timestamp) -> (r: Screen)
        ensures
            r@ == self@.screen(*now),
    {
        Screen {
            header: header_lines(),
            list: list_lines(self.x509_tui_list.items()),
            selected: self.x509_tui_list.selected(),
            detail: detail_lines(self.x509_tui_list.items(), self.x509_tui_list.selected(), now),
            footer: self.footer_line(),
        }
    }

    /// Makes the whole screen at the clock's present reading. Whatever the
    /// reading, it is the screen for some instant.
    pub fn screen(&self) -> (r: Screen)
        ensures
            exists|now: Timestamp| r@ == #[trigger] self@.screen(now),
    {
        let now = clock();
        self.screen_at(&now)
    }
}

/// A quit command ends the session, whatever is selected and whether or
/// not there is any record; and a session that has not ended is ended by no
/// other event.
pub proof fn lemma_quit_ends_the_session(session: PKIExplorerAppView, key: KeyEvent)
    ensures
        command_of(key) == Command::Quit ==> session.handled(key).done,
        command_of(key) != Command::Quit ==> session.handled(key).done == session.done,
{
}

/// A session has ended after a run of key events exactly when it had ended
/// before or one of the events was a quit command.
pub proof fn lemma_only_quit_ends_the_session(session: PKIExplorerAppView, keys: Seq<KeyEvent>)
    ensures
        session.handled_all(keys).done <==> session.done || exists|i: int|
            0 <= i < keys.len() && command_of(#[trigger] keys[i]) == Command::Quit,
    decreases keys.len(),
{
    if keys.len() > 0 {
        let before = keys.drop_last();
        lemma_only_quit_ends_the_session(session, before);
        lemma_quit_ends_the_session(session.handled_all(before), keys.last());
        if session.handled_all(keys).done && !session.done {
            if command_of(keys.last()) == Command::Quit {
                assert(command_of(keys[keys.len() - 1]) == Command::Quit);
            } else {
                let i = choose|i: int|
                    0 <= i < before.len() && command_of(#[trigger] before[i]) == Command::Quit;
                assert(command_of(keys[i]) == Command::Quit);
            }
        }
        if exists|i: int| 0 <= i < keys.len() && command_of(#[trigger] keys[i]) == Command::Quit {
            let i = choose|i: int|
                0 <= i < keys.len() && command_of(#[trigger] keys[i]) == Command::Quit;
            if i < before.len() {
                assert(command_of(before[i]) == Command::Quit);
            }
        }
    }
}

/// No run of key events changes the records or the directory of a session,
/// and none moves the selection off the list: it names a record as long as
/// there is one, and is absent exactly when there is none.
pub proof fn lemma_selection_stays_on_the_list(session: PKIExplorerAppView, keys: Seq<KeyEvent>)
    requires
        session.wf(),
        session.items.len() <= usize::MAX,
    ensures
        session.handled_all(keys).wf(),
        session.handled_all(keys).items == session.items,
        session.handled_all(keys).workdir == session.workdir,
        session.handled_all(keys).selected is None <==> session.items.len() == 0,
    decreases keys.len(),
{
    if keys.len() > 0 {
        lemma_selection_stays_on_the_list(session, keys.drop_last());
    }
}

/// The panes fill the screen: header, content and footer share its height,
/// list and detail pane share the content's width, and neither of the two
/// is ever without room.
pub proof fn lemma_panes_fill_the_screen()
    ensures
        HEADER_PERCENT + CONTENT_PERCENT + FOOTER_PERCENT == 100,
        LIST_PERCENT + DETAIL_PERCENT == 100,
        0 < LIST_PERCENT < 100,
        0 < DETAIL_PERCENT < 100,
        0 < CONTENT_PERCENT,
{
}

/// A session without records shows the notice that none was found, at
/// every instant and whatever its selection.
pub proof fn lemma_empty_session_says_so(session: PKIExplorerAppView, now: Timestamp)
    requires
        session.items.len() == 0,
    ensures
        session.detail(now) == seq![plain_line(NO_CERTIFICATES@, true)],
        session.list().len() == 0,
{
}

} // verus!
