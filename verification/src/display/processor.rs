//! The selection state machine behind the history screen.  It owns the
//! table data and the current selection, reacts to the events of the
//! screen, and tells the screen what to show next.

use vstd::prelude::*;
use crate::config::{Content, OutputChoice};
use crate::display::table_view::{Table, kept, padded_to};
use crate::entities::FormattedAction;

verus! {

/// Events sent to the processor.
#[derive(Debug)]
pub enum Msg {
    /// Stop and hand back the selection.
    ExtractState,
    /// The table selection changed.
    Selection(Option<FormattedAction>),
    /// A table row was submitted.
    TableSubmit(Option<FormattedAction>),
    /// The filter text changed.
    Filter(String),
    /// The filter was submitted.
    FilterSubmit,
    /// A new output kind was chosen.
    SelectKind(OutputChoice),
    /// A command line was submitted.
    CommandSubmit(Option<String>),
    /// The output kind selector was asked for.
    ShowOutputSelector,
    /// Jump back to the selected action.
    JumpToSelection,
    /// Jump to the previous match.
    JumpToPrevMatch,
    /// Jump to the next match.
    JumpToNextMatch,
}

/// What the user selected on the history screen.
#[derive(Debug)]
pub struct UserSelection {
    pub action: Option<FormattedAction>,
    pub kind: Option<OutputChoice>,
}

/// What the screen has to do after an event.
#[derive(Debug)]
pub enum Effect {
    /// Nothing.
    Nothing,
    /// Show the selected action in the command line, as `content` asks.
    ShowCommand { action: Option<FormattedAction>, content: Content },
    /// Show `entries` in the table and select row `select`, if any; the
    /// screen then reports the selected row back as a `Selection`.
    RefreshTable { entries: Vec<FormattedAction>, select: Option<usize> },
    /// Open the output kind selector on the current choice.
    ShowOutputSelector(OutputChoice),
    /// Leave the screen.
    Quit,
    /// Hand back the final selection; the processor is done.
    Finish(UserSelection),
}

/// The processor's state.
pub struct Processor {
    formatted_action: Option<FormattedAction>,
    output_kind: OutputChoice,
    table: Table,
}

/// The row selected after showing `len` rows: the requested one, or the
/// last; none for an empty table.
pub open spec fn row_to_select(len: nat, requested: Option<usize>) -> Option<usize> {
    if len == 0 {
        None
    } else {
        match requested {
            Some(r) => Some(r),
            None => Some((len - 1) as usize),
        }
    }
}

/// The processor can handle the event without an arithmetic overflow or
/// an unimplemented step: jumping to the selection needs an id above
/// zero, and jumping to a match is only handled without a selection.
pub open spec fn handles(current: Option<FormattedAction>, msg: Msg) -> bool {
    match msg {
        Msg::JumpToSelection => current matches Some(a) ==> a.id > 0,
        Msg::JumpToPrevMatch | Msg::JumpToNextMatch => current is None,
        _ => true,
    }
}

/// What `Processor::step` does with `msg` in a state with selected action
/// `action`, output kind `kind` and table `content` shown on `rows` rows:
/// the new action and kind, and the effect `r`.
pub open spec fn step_post(
    action: Option<FormattedAction>,
    kind: OutputChoice,
    content: Seq<FormattedAction>,
    rows: usize,
    msg: Msg,
    new_action: Option<FormattedAction>,
    new_kind: OutputChoice,
    r: Effect,
) -> bool {
    match msg {
        Msg::Selection(sel) | Msg::TableSubmit(sel) => {
            &&& new_action == sel
            &&& new_kind == kind
            &&& r == (Effect::ShowCommand { action: sel, content: kind.content })
        },
        Msg::FilterSubmit => {
            &&& new_action == action
            &&& new_kind == kind
            &&& r == Effect::Quit
        },
        Msg::CommandSubmit(f) => {
            &&& new_kind == kind
            &&& r == Effect::Quit
            &&& new_action matches Some(a) && {
                let name: Seq<char> = match f { Some(s) => s@, None => Seq::empty() };
                &&& a.name@ == name
                &&& action matches Some(o) ==> a == FormattedAction { name: a.name, ..o }
                &&& action is None ==> {
                    &&& a.annotation is None
                    &&& a.id == 0
                    &&& a.epic is None
                    &&& a.kind@ == "shell"@
                    &&& a.location is None
                }
            }
        },
        Msg::Filter(f) => {
            &&& new_action == action
            &&& new_kind == kind
            &&& r matches Effect::RefreshTable { entries, select } && {
                &&& padded_to(entries@, kept(content, Some(f@)), rows as nat)
                &&& select == row_to_select(entries@.len(), None)
            }
        },
        Msg::JumpToSelection => {
            &&& new_action == action
            &&& new_kind == kind
            &&& r matches Effect::RefreshTable { entries, select } && {
                &&& padded_to(entries@, kept(content, None), rows as nat)
                &&& select == row_to_select(entries@.len(), match action {
                    Some(a) => Some((a.id - 1) as usize),
                    None => None,
                })
            }
        },
        Msg::JumpToPrevMatch | Msg::JumpToNextMatch => {
            &&& new_action == action
            &&& new_kind == kind
            &&& r == Effect::Nothing
        },
        Msg::ShowOutputSelector => {
            &&& new_action == action
            &&& new_kind == kind
            &&& r == Effect::ShowOutputSelector(kind)
        },
        Msg::SelectKind(k) => {
            &&& new_action == action
            &&& new_kind == k
            &&& r == (Effect::ShowCommand { action, content: k.content })
        },
        Msg::ExtractState => {
            &&& new_action == action
            &&& new_kind == kind
            &&& r == Effect::Finish(UserSelection {
                action,
                kind: Some(kind),
            })
        },
    }
}

impl Processor {
    /// The selected action.
    pub closed spec fn spec_action(&self) -> Option<FormattedAction> {
        self.formatted_action
    }

    /// The chosen output kind.
    pub closed spec fn spec_kind(&self) -> OutputChoice {
        self.output_kind
    }

    /// The table entries.
    pub closed spec fn spec_content(&self) -> Seq<FormattedAction> {
        self.table.spec_content()
    }

    /// The table rows.
    pub closed spec fn spec_rows(&self) -> usize {
        self.table.spec_rows()
    }

    /// A processor over `table` with no selection and output kind `kind`.
    pub fn new(table: Table, kind: OutputChoice) -> (r: Processor)
        ensures
            r.spec_action() == None::<FormattedAction>,
            r.spec_kind() == kind,
            r.spec_content() == table.spec_content(),
            r.spec_rows() == table.spec_rows(),
    {
        Processor { formatted_action: None, output_kind: kind, table }
    }

    fn update_ui(&self) -> (r: Effect)
        ensures
            r == (Effect::ShowCommand { action: self.spec_action(), content: self.spec_kind().content }),
    {
        let action = match &self.formatted_action {
            Some(a) => Some(a.clone()),
            None => None,
        };
        Effect::ShowCommand { action, content: self.output_kind.content }
    }

    fn select_action(&mut self, selection: Option<FormattedAction>) -> (r: Effect)
        ensures
            final(self).spec_action() == selection,
            final(self).spec_kind() == old(self).spec_kind(),
            final(self).spec_content() == old(self).spec_content(),
            final(self).spec_rows() == old(self).spec_rows(),
            r == (Effect::ShowCommand { action: selection, content: old(self).spec_kind().content }),
    {
        self.formatted_action = selection;
        self.update_ui()
    }

    fn submit_command(&mut self, f: Option<String>)
        ensures
            final(self).spec_action() matches Some(a) && {
                let name: Seq<char> = match f { Some(s) => s@, None => Seq::empty() };
                &&& a.name@ == name
                &&& old(self).spec_action() matches Some(o) ==> a == FormattedAction { name: a.name, ..o }
                &&& old(self).spec_action() is None ==> {
                    &&& a.annotation is None
                    &&& a.id == 0
                    &&& a.epic is None
                    &&& a.kind@ == "shell"@
                    &&& a.location is None
                }
            },
            final(self).spec_kind() == old(self).spec_kind(),
            final(self).spec_content() == old(self).spec_content(),
            final(self).spec_rows() == old(self).spec_rows(),
    {
        let name = match f {
            Some(s) => s,
            None => String::new(),
        };
        let current = self.formatted_action.take();
        let updated = match current {
            Some(a) => FormattedAction { name, ..a },
            None => FormattedAction {
                name,
                kind: String::from_str("shell"),
                id: 0,
                annotation: None,
                epic: None,
                location: None,
            },
        };
        self.formatted_action = Some(updated);
    }

    fn filter(&mut self, f: Option<String>, selected_row: Option<usize>) -> (r: Effect)
        ensures
            final(self).spec_action() == old(self).spec_action(),
            final(self).spec_kind() == old(self).spec_kind(),
            final(self).spec_content() == old(self).spec_content(),
            final(self).spec_rows() == old(self).spec_rows(),
            r matches Effect::RefreshTable { entries: content, select } && {
                &&& padded_to(
                    content@,
                    kept(old(self).spec_content(), match f { Some(s) => Some(s@), None => None }),
                    old(self).spec_rows() as nat,
                )
                &&& select == row_to_select(content@.len(), selected_row)
            },
    {
        let content = self.table.filter(match &f { Some(s) => Some(s.as_str()), None => None });
        let n = content.len();
        let select = if n > 0 {
            match selected_row {
                Some(r) => Some(r),
                None => Some(n - 1),
            }
        } else {
            None
        };
        Effect::RefreshTable { entries: content, select }
    }

    /// Handles one event and tells the screen what to do.
    pub fn step(&mut self, msg: Msg) -> (r: Effect)
        requires
            handles(old(self).spec_action(), msg),
        ensures
            final(self).spec_content() == old(self).spec_content(),
            final(self).spec_rows() == old(self).spec_rows(),
            step_post(
                old(self).spec_action(),
                old(self).spec_kind(),
                old(self).spec_content(),
                old(self).spec_rows(),
                msg,
                final(self).spec_action(),
                final(self).spec_kind(),
                r,
            ),
    {
        match msg {
            Msg::Selection(selection) => self.select_action(selection),
            Msg::TableSubmit(f) => self.select_action(f),
            Msg::FilterSubmit => Effect::Quit,
            Msg::CommandSubmit(f) => {
                self.submit_command(f);
                Effect::Quit
            },
            Msg::Filter(f) => self.filter(Some(f), None),
            Msg::JumpToSelection => {
                let current_id = match &self.formatted_action {
                    Some(a) => Some(a.id - 1),
                    None => None,
                };
                self.filter(None, current_id)
            },
            Msg::JumpToNextMatch | Msg::JumpToPrevMatch => Effect::Nothing,
            Msg::ShowOutputSelector => Effect::ShowOutputSelector(self.output_kind),
            Msg::SelectKind(k) => {
                self.output_kind = k;
                self.update_ui()
            },
            Msg::ExtractState => {
                let action = match &self.formatted_action {
                    Some(a) => Some(a.clone()),
                    None => None,
                };
                Effect::Finish(UserSelection { action, kind: Some(self.output_kind) })
            },
        }
    }
}

/// The state handed back at the end is the action selected last, with the
/// output kind in force.
pub proof fn law_extract_reports_selection(
    action: Option<FormattedAction>,
    kind: OutputChoice,
    content: Seq<FormattedAction>,
    rows: usize,
    sel: Option<FormattedAction>,
    action1: Option<FormattedAction>,
    kind1: OutputChoice,
    r1: Effect,
    action2: Option<FormattedAction>,
    kind2: OutputChoice,
    r2: Effect,
)
    requires
        step_post(action, kind, content, rows, Msg::Selection(sel), action1, kind1, r1),
        step_post(action1, kind1, content, rows, Msg::ExtractState, action2, kind2, r2),
    ensures
        r2 == Effect::Finish(UserSelection { action: sel, kind: Some(kind) }),
{
}

/// The state handed back at the end carries the output kind chosen last,
/// with the selection unchanged.
pub proof fn law_extract_reports_kind(
    action: Option<FormattedAction>,
    kind: OutputChoice,
    content: Seq<FormattedAction>,
    rows: usize,
    choice: OutputChoice,
    action1: Option<FormattedAction>,
    kind1: OutputChoice,
    r1: Effect,
    action2: Option<FormattedAction>,
    kind2: OutputChoice,
    r2: Effect,
)
    requires
        step_post(action, kind, content, rows, Msg::SelectKind(choice), action1, kind1, r1),
        step_post(action1, kind1, content, rows, Msg::ExtractState, action2, kind2, r2),
    ensures
        r2 == Effect::Finish(UserSelection { action, kind: Some(choice) }),
{
}

/// Filtering, jumping and opening the output selector change neither the
/// selected action nor the output kind.
pub proof fn law_table_events_keep_selection(
    action: Option<FormattedAction>,
    kind: OutputChoice,
    content: Seq<FormattedAction>,
    rows: usize,
    msg: Msg,
    action1: Option<FormattedAction>,
    kind1: OutputChoice,
    r: Effect,
)
    requires
        msg is Filter || msg is FilterSubmit || msg is JumpToSelection || msg is JumpToPrevMatch
            || msg is JumpToNextMatch || msg is ShowOutputSelector,
        step_post(action, kind, content, rows, msg, action1, kind1, r),
    ensures
        action1 == action,
        kind1 == kind,
{
}

} // verus!
