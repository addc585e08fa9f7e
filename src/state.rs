use vstd::prelude::*;
use crate::catalog::{
    help_body, help_for, hint_for, mode_hint, HelpType, InputMode, NORMAL_HINT,
};
use crate::error::PtuiError;
use crate::input::{Key, KeyInput};
use crate::names::{sort_strings, texts, texts_sorted};
use crate::records::{Folder, Model};
use crate::selection::{
    first_selection, last_selection, next_selection, previous_selection, CollectionState,
    SelectableCollection, StatefulTable,
};
use crate::text::{EditState, TextField};

verus! {

pub const NO_FOLDER_SELECTED: &'static str = "No folder selected";

pub const NO_MODEL_SELECTED: &'static str = "No model selected";

pub const NO_TENANT_SELECTED: &'static str = "No tenant selected";

/// The abstract state of the controller.
pub struct StateModel {
    pub mode: InputMode,
    /// The mode that leaving the help panel returns to.
    pub previous_mode: InputMode,
    pub status_line: Seq<char>,
    pub help_text: Seq<char>,
    pub display_help: bool,
    pub display_tenants: bool,
    pub search: EditState,
    pub folders: CollectionState<Folder>,
    pub models: CollectionState<Model>,
    pub tenants: CollectionState<String>,
    pub active_tenant: Option<Seq<char>>,
    pub active_folder: Option<Seq<char>>,
    pub active_model: Option<Seq<char>>,
}

impl StateModel {
    /// The help panel never returns to itself, the cursor stays in the
    /// search text, and every selection names an item.
    pub open spec fn wf(self) -> bool {
        &&& self.previous_mode != InputMode::Help
        &&& self.search.wf()
        &&& self.folders.wf()
        &&& self.models.wf()
        &&& self.tenants.wf()
    }
}

/// What the controller asks of the world around it after a key press.
#[derive(Clone, Debug, PartialEq, Eq)]
pub enum Action {
    /// Nothing to do.
    Nothing,
    /// Leave the event loop.
    Quit,
    /// Run a search for the text.
    Search(String),
    /// Read the models of the folder with this id, and hand them to
    /// `State::models_loaded`.
    ListModels(u32),
    /// Start a session for the tenant, read its folders, and hand them to
    /// `State::folders_loaded`.
    OpenSession(String),
}

/// The abstract value of an `Action`.
pub enum Request {
    Nothing,
    Quit,
    Search(Seq<char>),
    ListModels(u32),
    OpenSession(Seq<char>),
}

impl View for Action {
    type V = Request;

    open spec fn view(&self) -> Request {
        match self {
            Action::Nothing => Request::Nothing,
            Action::Quit => Request::Quit,
            Action::Search(s) => Request::Search(s@),
            Action::ListModels(id) => Request::ListModels(*id),
            Action::OpenSession(s) => Request::OpenSession(s@),
        }
    }
}

pub open spec fn string_opt_view(o: Option<String>) -> Option<Seq<char>> {
    match o {
        Some(s) => Some(s@),
        None => None,
    }
}

pub open spec fn empty_collection<T>() -> CollectionState<T> {
    CollectionState { items: Seq::empty(), selected: None }
}

/// The state on entering `mode`: the mode that was active is remembered for
/// the help panel to return to (the help panel itself is never remembered),
/// and the status line shows the new mode's hint.
pub open spec fn enter_mode(s: StateModel, mode: InputMode) -> StateModel {
    StateModel {
        mode,
        previous_mode: if s.mode == InputMode::Help {
            s.previous_mode
        } else {
            s.mode
        },
        status_line: mode_hint(mode),
        ..s
    }
}

/// The state with the help panel showing `topic`.
pub open spec fn with_help(s: StateModel, topic: HelpType) -> StateModel {
    StateModel { help_text: help_body(topic), display_help: true, ..s }
}

/// The state after opening the help panel on `topic`.
pub open spec fn open_help(s: StateModel, topic: HelpType) -> StateModel {
    enter_mode(with_help(s, topic), InputMode::Help)
}

/// The state after a collection of folders came from the backend service,
/// or after reading it failed.
pub open spec fn with_folders(s: StateModel, folders: Option<Seq<Folder>>) -> StateModel {
    match folders {
        Some(items) => StateModel { folders: CollectionState { items, selected: None }, ..s },
        None => StateModel { folders: empty_collection(), ..s },
    }
}

/// The state after the models of the active folder came from the backend
/// service, or after reading them failed.
pub open spec fn with_models(s: StateModel, models: Option<Seq<Model>>) -> StateModel {
    match models {
        Some(items) => StateModel { models: CollectionState { items, selected: None }, ..s },
        None => StateModel { models: empty_collection(), active_folder: None, ..s },
    }
}

/// What a key does to the search text: a character typed without control or
/// alt goes in at the cursor, and the editing keys do what their names say.
pub open spec fn edit_text(e: EditState, k: KeyInput) -> EditState {
    match k.key {
        Key::Char(c) => if !k.ctrl && !k.alt {
            e.insert_char(c)
        } else {
            e
        },
        Key::Backspace => e.backspace(),
        Key::Delete => e.delete(),
        Key::Left => e.left(),
        Key::Right => e.right(),
        Key::Home => e.home(),
        Key::End => e.end(),
        _ => e,
    }
}

/// Control-h, which opens the help panel where `h` is text.
pub open spec fn is_help_chord(k: KeyInput) -> bool {
    k.key == Key::Char('h') && k.ctrl && !k.alt
}

pub open spec fn select_folder(s: StateModel, selected: Option<usize>) -> StateModel {
    StateModel { folders: CollectionState { items: s.folders.items, selected }, ..s }
}

pub open spec fn select_model(s: StateModel, selected: Option<usize>) -> StateModel {
    StateModel { models: CollectionState { items: s.models.items, selected }, ..s }
}

pub open spec fn select_tenant(s: StateModel, selected: Option<usize>) -> StateModel {
    StateModel { tenants: CollectionState { items: s.tenants.items, selected }, ..s }
}

/// Enter in the folder list: the selected folder becomes the active one;
/// with nothing selected there is no active folder and no models.
pub open spec fn choose_folder(s: StateModel) -> StateModel {
    match s.folders.selected {
        Some(i) => StateModel { active_folder: Some(s.folders.items[i as int].name@), ..s },
        None => StateModel {
            active_folder: None,
            models: empty_collection(),
            status_line: NO_FOLDER_SELECTED@,
            ..s
        },
    }
}

/// Enter in the model table: the selected model becomes the active one.
pub open spec fn choose_model(s: StateModel) -> StateModel {
    match s.models.selected {
        Some(i) => StateModel { active_model: Some(s.models.items[i as int].uuid@), ..s },
        None => StateModel { status_line: NO_MODEL_SELECTED@, ..s },
    }
}

/// Enter in the tenant picker: the selected tenant becomes the active one,
/// the picker closes and the controller returns to `Normal`.
pub open spec fn choose_tenant(s: StateModel) -> StateModel {
    match s.tenants.selected {
        Some(i) => enter_mode(
            StateModel {
                active_tenant: Some(s.tenants.items[i as int]@),
                display_tenants: false,
                ..s
            },
            InputMode::Normal,
        ),
        None => StateModel { active_tenant: None, status_line: NO_TENANT_SELECTED@, ..s },
    }
}

/// The state after the key `k` in state `s`.
pub open spec fn step(s: StateModel, k: KeyInput) -> StateModel {
    match s.mode {
        InputMode::Normal => match k.key {
            Key::Char('q') => s,
            Key::Char('f') | Key::Tab => enter_mode(s, InputMode::Folder),
            Key::Char('s') => enter_mode(s, InputMode::Search),
            Key::Char('m') => enter_mode(s, InputMode::Model),
            Key::Char('c') => enter_mode(s, InputMode::Match),
            Key::Char('h') => open_help(s, HelpType::General),
            Key::Char('t') => enter_mode(
                StateModel { display_tenants: true, ..s },
                InputMode::Tenant,
            ),
            _ => StateModel { status_line: NORMAL_HINT@, ..s },
        },
        InputMode::Search => if k.key == Key::Esc {
            enter_mode(s, InputMode::Normal)
        } else if k.key == Key::Enter {
            s
        } else if is_help_chord(k) {
            open_help(s, HelpType::Search)
        } else {
            StateModel { search: edit_text(s.search, k), ..s }
        },
        InputMode::Folder => match k.key {
            Key::Esc => enter_mode(s, InputMode::Normal),
            Key::Tab => enter_mode(s, InputMode::Model),
            Key::Char('h') => open_help(s, HelpType::Folder),
            Key::Up => select_folder(s, previous_selection(s.folders.selected, s.folders.items.len())),
            Key::Down => select_folder(s, next_selection(s.folders.selected, s.folders.items.len())),
            Key::Home => select_folder(s, first_selection(s.folders.items.len())),
            Key::End => select_folder(s, last_selection(s.folders.items.len())),
            Key::Enter => choose_folder(s),
            _ => s,
        },
        InputMode::Model => match k.key {
            Key::Esc => enter_mode(s, InputMode::Normal),
            Key::Tab => enter_mode(s, InputMode::Folder),
            Key::Char('h') => open_help(s, HelpType::Model),
            Key::Up => select_model(s, previous_selection(s.models.selected, s.models.items.len())),
            Key::Down => select_model(s, next_selection(s.models.selected, s.models.items.len())),
            Key::Enter => choose_model(s),
            _ => s,
        },
        InputMode::Match => match k.key {
            Key::Esc => enter_mode(s, InputMode::Normal),
            Key::Char('h') => open_help(s, HelpType::Match),
            _ => s,
        },
        InputMode::Help => enter_mode(StateModel { display_help: false, ..s }, s.previous_mode),
        InputMode::Tenant => match k.key {
            Key::Esc => enter_mode(
                StateModel { display_tenants: false, ..s },
                InputMode::Normal,
            ),
            Key::Char('h') => open_help(s, HelpType::Tenant),
            Key::Up => select_tenant(s, previous_selection(s.tenants.selected, s.tenants.items.len())),
            Key::Down => select_tenant(s, next_selection(s.tenants.selected, s.tenants.items.len())),
            Key::Home => select_tenant(s, first_selection(s.tenants.items.len())),
            Key::End => select_tenant(s, last_selection(s.tenants.items.len())),
            Key::Enter => choose_tenant(s),
            _ => s,
        },
    }
}

/// What the controller asks for after the key `k` in state `s`.
pub open spec fn step_request(s: StateModel, k: KeyInput) -> Request {
    match s.mode {
        InputMode::Normal => if k.key == Key::Char('q') {
            Request::Quit
        } else {
            Request::Nothing
        },
        InputMode::Search => if k.key == Key::Enter {
            Request::Search(s.search.text)
        } else {
            Request::Nothing
        },
        InputMode::Folder => if k.key == Key::Enter && s.folders.selected is Some {
            Request::ListModels(s.folders.items[s.folders.selected->0 as int].id)
        } else {
            Request::Nothing
        },
        InputMode::Tenant => if k.key == Key::Enter && s.tenants.selected is Some {
            Request::OpenSession(s.tenants.items[s.tenants.selected->0 as int]@)
        } else {
            Request::Nothing
        },
        _ => Request::Nothing,
    }
}

/// Every key keeps the controller's state well formed.
pub proof fn lemma_step_keeps_wf(s: StateModel, k: KeyInput)
    requires
        s.wf(),
    ensures
        step(s, k).wf(),
{
    crate::text::lemma_cursor_stays_in_bounds(s.search, 'a', Seq::empty());
    if let Key::Char(c) = k.key {
        crate::text::lemma_cursor_stays_in_bounds(s.search, c, Seq::empty());
    }
    crate::selection::lemma_selection_stays_valid(s.folders.selected, s.folders.items.len());
    crate::selection::lemma_selection_stays_valid(s.models.selected, s.models.items.len());
    crate::selection::lemma_selection_stays_valid(s.tenants.selected, s.tenants.items.len());
}

/// Opening the help panel from any other mode and then pressing any key
/// returns to the mode that was active before, with the panel hidden.
pub proof fn lemma_help_returns(s: StateModel, open: KeyInput, any: KeyInput)
    requires
        s.wf(),
        s.mode != InputMode::Help,
        step(s, open).mode == InputMode::Help,
    ensures
        step(step(s, open), any).mode == s.mode,
        !step(step(s, open), any).display_help,
{
}

/// The controller: the active mode, the lists and the search field, and the
/// flags and texts that the screen shows.
#[derive(Debug)]
pub struct State {
    mode: InputMode,
    previous_mode: InputMode,
    search_field: TextField,
    folder_list: SelectableCollection<Folder>,
    models_table: StatefulTable<Model>,
    status_line: String,
    help_text: String,
    display_help: bool,
    display_tenants: bool,
    tenants: SelectableCollection<String>,
    active_tenant: Option<String>,
    active_folder: Option<String>,
    active_model: Option<String>,
}

impl View for State {
    type V = StateModel;

    closed spec fn view(&self) -> StateModel {
        StateModel {
            mode: self.mode,
            previous_mode: self.previous_mode,
            status_line: self.status_line@,
            help_text: self.help_text@,
            display_help: self.display_help,
            display_tenants: self.display_tenants,
            search: self.search_field@,
            folders: self.folder_list@,
            models: self.models_table@,
            tenants: self.tenants@,
            active_tenant: string_opt_view(self.active_tenant),
            active_folder: string_opt_view(self.active_folder),
            active_model: string_opt_view(self.active_model),
        }
    }
}

impl State {
    /// The names of the model table's columns.
    pub closed spec fn model_columns(&self) -> Seq<String> {
        self.models_table.column_names()
    }

    /// A controller that starts by asking for a tenant.
    pub fn new() -> (r: State)
        ensures
            r@ == (StateModel {
                mode: InputMode::Tenant,
                previous_mode: InputMode::Tenant,
                status_line: Seq::empty(),
                help_text: Seq::empty(),
                display_help: false,
                display_tenants: true,
                search: EditState { text: Seq::empty(), cursor: 0 },
                folders: empty_collection(),
                models: empty_collection(),
                tenants: empty_collection(),
                active_tenant: None,
                active_folder: None,
                active_model: None,
            }),
            r@.wf(),
            r.model_columns().len() == 3,
            r.model_columns()[0]@ == "Name"@,
            r.model_columns()[1]@ == "Status"@,
            r.model_columns()[2]@ == "UUID"@,
    {
        let mut columns: Vec<String> = Vec::new();
        columns.push(String::from_str("Name"));
        columns.push(String::from_str("Status"));
        columns.push(String::from_str("UUID"));
        let r = State {
            mode: InputMode::Tenant,
            previous_mode: InputMode::Tenant,
            search_field: TextField::new(),
            folder_list: SelectableCollection::new(),
            models_table: StatefulTable::with_columns(columns),
            status_line: String::new(),
            help_text: String::new(),
            display_help: false,
            display_tenants: true,
            tenants: SelectableCollection::new(),
            active_tenant: None,
            active_folder: None,
            active_model: None,
        };
        assert(r@.folders.items =~= Seq::<Folder>::empty());
        assert(r@.models.items =~= Seq::<Model>::empty());
        assert(r@.tenants.items =~= Seq::<String>::empty());
        r
    }

    /// Switches to `mode`; see `enter_mode`.
    pub fn change_mode(&mut self, mode: InputMode)
        ensures
            final(self)@ == enter_mode(old(self)@, mode),
            final(self).model_columns() == old(self).model_columns(),
    {
        if self.mode != InputMode::Help {
            self.previous_mode = self.mode;
        }
        self.mode = mode;
        self.status_line = hint_for(mode);
    }

    /// Shows the help panel on `help_type`.
    pub fn set_help(&mut self, help_type: HelpType)
        ensures
            final(self)@ == with_help(old(self)@, help_type),
            final(self).model_columns() == old(self).model_columns(),
    {
        self.help_text = help_for(help_type);
        self.display_help = true;
    }

    pub fn hide_help(&mut self)
        ensures
            final(self)@ == (StateModel { display_help: false, ..old(self)@ }),
            final(self).model_columns() == old(self).model_columns(),
    {
        self.display_help = false;
    }

    /// Whether the help panel shows.
    pub fn show_help(&self) -> (r: bool)
        ensures
            r == self@.display_help,
    {
        self.display_help
    }

    /// Empties the folder list.
    pub fn clear_folders(&mut self)
        ensures
            final(self)@ == (StateModel { folders: empty_collection(), ..old(self)@ }),
            final(self).model_columns() == old(self).model_columns(),
    {
        self.folder_list.clear();
        assert(self.folder_list@.items =~= Seq::<Folder>::empty());
    }

    /// Adds a folder at the end of the folder list.
    pub fn add_folder(&mut self, folder: Folder)
        requires
            old(self)@.wf(),
        ensures
            final(self)@ == (StateModel {
                folders: CollectionState {
                    items: old(self)@.folders.items.push(folder),
                    selected: old(self)@.folders.selected,
                },
                ..old(self)@
            }),
            final(self)@.wf(),
            final(self).model_columns() == old(self).model_columns(),
    {
        self.folder_list.push(folder);
    }
}

/// Applies an editing key to the search field.
fn edit_field(field: &mut TextField, k: KeyInput)
    requires
        old(field)@.wf(),
    ensures
        final(field)@ == edit_text(old(field)@, k),
{
    match k.key {
        Key::Char(c) => {
            if !k.ctrl && !k.alt {
                field.insert_character(c);
            }
        },
        Key::Backspace => field.backspace(),
        Key::Delete => field.delete(),
        Key::Left => field.left(),
        Key::Right => field.right(),
        Key::Home => field.home(),
        Key::End => field.end(),
        _ => {},
    }
}

impl State {
    /// Handles one key press: changes the state as `step` says and returns
    /// what `step_request` says is to be done.
    pub fn handle(&mut self, input: KeyInput) -> (r: Action)
        requires
            old(self)@.wf(),
        ensures
            final(self)@ == step(old(self)@, input),
            r@ == step_request(old(self)@, input),
            final(self)@.wf(),
            final(self).model_columns() == old(self).model_columns(),
    {
        proof {
            lemma_step_keeps_wf(self@, input);
        }
        match self.mode {
            InputMode::Normal => self.handle_normal(input),
            InputMode::Search => self.handle_search(input),
            InputMode::Folder => self.handle_folder(input),
            InputMode::Model => self.handle_model(input),
            InputMode::Match => self.handle_match(input),
            InputMode::Help => {
                let previous_mode = self.previous_mode;
                self.hide_help();
                self.change_mode(previous_mode);
                Action::Nothing
            },
            InputMode::Tenant => self.handle_tenant(input),
        }
    }

    fn handle_normal(&mut self, input: KeyInput) -> (r: Action)
        requires
            old(self)@.wf(),
            old(self)@.mode == InputMode::Normal,
        ensures
            final(self)@ == step(old(self)@, input),
            r@ == step_request(old(self)@, input),
            final(self).model_columns() == old(self).model_columns(),
    {
        match input.key {
            Key::Char('q') => {
                return Action::Quit;
            },
            Key::Char('f') | Key::Tab => self.change_mode(InputMode::Folder),
            Key::Char('s') => self.change_mode(InputMode::Search),
            Key::Char('m') => self.change_mode(InputMode::Model),
            Key::Char('c') => self.change_mode(InputMode::Match),
            Key::Char('h') => {
                self.set_help(HelpType::General);
                self.change_mode(InputMode::Help);
            },
            Key::Char('t') => {
                self.display_tenants = true;
                self.change_mode(InputMode::Tenant);
            },
            _ => {
                self.status_line = String::from_str(NORMAL_HINT);
            },
        }
        Action::Nothing
    }

    fn handle_search(&mut self, input: KeyInput) -> (r: Action)
        requires
            old(self)@.wf(),
            old(self)@.mode == InputMode::Search,
        ensures
            final(self)@ == step(old(self)@, input),
            r@ == step_request(old(self)@, input),
            final(self).model_columns() == old(self).model_columns(),
    {
        if input.key == Key::Esc {
            self.change_mode(InputMode::Normal);
            Action::Nothing
        } else if input.key == Key::Enter {
            Action::Search(self.search_field.text())
        } else if input.key == Key::Char('h') && input.ctrl && !input.alt {
            self.set_help(HelpType::Search);
            self.change_mode(InputMode::Help);
            Action::Nothing
        } else {
            edit_field(&mut self.search_field, input);
            Action::Nothing
        }
    }

    fn handle_folder(&mut self, input: KeyInput) -> (r: Action)
        requires
            old(self)@.wf(),
            old(self)@.mode == InputMode::Folder,
        ensures
            final(self)@ == step(old(self)@, input),
            r@ == step_request(old(self)@, input),
            final(self).model_columns() == old(self).model_columns(),
    {
        match input.key {
            Key::Esc => self.change_mode(InputMode::Normal),
            Key::Tab => self.change_mode(InputMode::Model),
            Key::Char('h') => {
                self.set_help(HelpType::Folder);
                self.change_mode(InputMode::Help);
            },
            Key::Up => self.folder_list.previous(),
            Key::Down => self.folder_list.next(),
            Key::Home => self.folder_list.first(),
            Key::End => self.folder_list.last(),
            Key::Enter => {
                match self.folder_list.selected_item() {
                    Some(folder) => {
                        let id: u32 = folder.id;
                        self.active_folder = Some(folder.name.clone());
                        return Action::ListModels(id);
                    },
                    None => {
                        self.active_folder = None;
                        self.models_table.clear();
                        self.status_line = String::from_str(NO_FOLDER_SELECTED);
                        assert(self@.models.items =~= Seq::<Model>::empty());
                    },
                }
            },
            _ => {},
        }
        Action::Nothing
    }

    fn handle_model(&mut self, input: KeyInput) -> (r: Action)
        requires
            old(self)@.wf(),
            old(self)@.mode == InputMode::Model,
        ensures
            final(self)@ == step(old(self)@, input),
            r@ == step_request(old(self)@, input),
            final(self).model_columns() == old(self).model_columns(),
    {
        match input.key {
            Key::Esc => self.change_mode(InputMode::Normal),
            Key::Tab => self.change_mode(InputMode::Folder),
            Key::Char('h') => {
                self.set_help(HelpType::Model);
                self.change_mode(InputMode::Help);
            },
            Key::Up => self.models_table.previous(),
            Key::Down => self.models_table.next(),
            Key::Enter => {
                match self.models_table.selected_row() {
                    Some(model) => {
                        self.active_model = Some(model.uuid.clone());
                    },
                    None => {
                        self.status_line = String::from_str(NO_MODEL_SELECTED);
                    },
                }
            },
            _ => {},
        }
        Action::Nothing
    }

    fn handle_match(&mut self, input: KeyInput) -> (r: Action)
        requires
            old(self)@.wf(),
            old(self)@.mode == InputMode::Match,
        ensures
            final(self)@ == step(old(self)@, input),
            r@ == step_request(old(self)@, input),
            final(self).model_columns() == old(self).model_columns(),
    {
        match input.key {
            Key::Esc => self.change_mode(InputMode::Normal),
            Key::Char('h') => {
                self.set_help(HelpType::Match);
                self.change_mode(InputMode::Help);
            },
            _ => {},
        }
        Action::Nothing
    }

    fn handle_tenant(&mut self, input: KeyInput) -> (r: Action)
        requires
            old(self)@.wf(),
            old(self)@.mode == InputMode::Tenant,
        ensures
            final(self)@ == step(old(self)@, input),
            r@ == step_request(old(self)@, input),
            final(self).model_columns() == old(self).model_columns(),
    {
        match input.key {
            Key::Esc => {
                self.display_tenants = false;
                self.change_mode(InputMode::Normal);
            },
            Key::Char('h') => {
                self.set_help(HelpType::Tenant);
                self.change_mode(InputMode::Help);
            },
            Key::Up => self.tenants.previous(),
            Key::Down => self.tenants.next(),
            Key::Home => self.tenants.first(),
            Key::End => self.tenants.last(),
            Key::Enter => {
                match self.tenants.selected_item() {
                    Some(tenant) => {
                        let name = tenant.clone();
                        self.active_tenant = Some(tenant.clone());
                        self.display_tenants = false;
                        self.change_mode(InputMode::Normal);
                        return Action::OpenSession(name);
                    },
                    None => {
                        self.active_tenant = None;
                        self.status_line = String::from_str(NO_TENANT_SELECTED);
                    },
                }
            },
            _ => {},
        }
        Action::Nothing
    }
}

impl State {
    /// Adds tenants to choose from and puts the whole list in the order of
    /// `str`; the selected index stays, and the model table empties.
    pub fn initialize(&mut self, tenant_names: Vec<String>)
        requires
            old(self)@.wf(),
        ensures
            final(self)@ == (StateModel {
                tenants: CollectionState {
                    items: final(self)@.tenants.items,
                    selected: old(self)@.tenants.selected,
                },
                models: empty_collection(),
                ..old(self)@
            }),
            texts(final(self)@.tenants.items).to_multiset() == texts(
                old(self)@.tenants.items + tenant_names@,
            ).to_multiset(),
            texts_sorted(texts(final(self)@.tenants.items)),
            final(self)@.wf(),
            final(self).model_columns() == old(self).model_columns(),
    {
        let selected = self.tenants.selected();
        let mut names = self.tenants.take_items();
        let mut added = tenant_names;
        names.append(&mut added);
        sort_strings(&mut names);
        self.tenants.replace_all(names);
        self.tenants.select(selected);
        self.models_table.clear();
        assert(self@.models.items =~= Seq::<Model>::empty());
    }

    /// Takes the folders that the backend service listed for the tenant, or
    /// `None` when listing them failed: the folder list then empties.
    pub fn folders_loaded(&mut self, folders: Option<Vec<Folder>>)
        requires
            old(self)@.wf(),
        ensures
            final(self)@ == with_folders(
                old(self)@,
                match folders {
                    Some(v) => Some(v@),
                    None => None,
                },
            ),
            final(self)@.wf(),
            final(self).model_columns() == old(self).model_columns(),
    {
        match folders {
            Some(v) => {
                self.folder_list.replace_all(v);
            },
            None => {
                self.folder_list.clear();
                assert(self@.folders.items =~= Seq::<Folder>::empty());
            },
        }
    }

    /// Takes the models that the backend service listed for the active
    /// folder, or `None` when listing them failed: there is then no active
    /// folder and the model table empties.
    pub fn models_loaded(&mut self, models: Option<Vec<Model>>)
        requires
            old(self)@.wf(),
        ensures
            final(self)@ == with_models(
                old(self)@,
                match models {
                    Some(v) => Some(v@),
                    None => None,
                },
            ),
            final(self)@.wf(),
            final(self).model_columns() == old(self).model_columns(),
    {
        match models {
            Some(v) => {
                self.models_table.replace_rows(v);
            },
            None => {
                self.active_folder = None;
                self.models_table.clear();
                assert(self@.models.items =~= Seq::<Model>::empty());
            },
        }
    }

    /// The tenant to open a session for: the active one, which must have
    /// been chosen.
    pub fn session_tenant(&self) -> (r: Result<String, PtuiError>)
        ensures
            self@.active_tenant is Some <==> r is Ok,
            r is Ok ==> r->Ok_0@ == self@.active_tenant->0,
            r is Err ==> r->Err_0 is TenantNotSelected,
    {
        match &self.active_tenant {
            Some(t) => Ok(t.clone()),
            None => Err(PtuiError::TenantNotSelected),
        }
    }
}

impl State {
    pub fn mode(&self) -> (r: InputMode)
        ensures
            r == self@.mode,
    {
        self.mode
    }

    pub fn previous_mode(&self) -> (r: InputMode)
        ensures
            r == self@.previous_mode,
    {
        self.previous_mode
    }

    pub fn status_line(&self) -> (r: &String)
        ensures
            r@ == self@.status_line,
    {
        &self.status_line
    }

    pub fn help_text(&self) -> (r: &String)
        ensures
            r@ == self@.help_text,
    {
        &self.help_text
    }

    /// Whether the tenant picker shows.
    pub fn display_tenants(&self) -> (r: bool)
        ensures
            r == self@.display_tenants,
    {
        self.display_tenants
    }

    pub fn search_field(&self) -> (r: &TextField)
        ensures
            r@ == self@.search,
    {
        &self.search_field
    }

    pub fn folder_list(&self) -> (r: &SelectableCollection<Folder>)
        ensures
            r@ == self@.folders,
    {
        &self.folder_list
    }

    pub fn models_table(&self) -> (r: &StatefulTable<Model>)
        ensures
            r@ == self@.models,
            r.column_names() == self.model_columns(),
    {
        &self.models_table
    }

    pub fn tenants(&self) -> (r: &SelectableCollection<String>)
        ensures
            r@ == self@.tenants,
    {
        &self.tenants
    }

    pub fn active_tenant(&self) -> (r: &Option<String>)
        ensures
            string_opt_view(*r) == self@.active_tenant,
    {
        &self.active_tenant
    }

    pub fn active_folder(&self) -> (r: &Option<String>)
        ensures
            string_opt_view(*r) == self@.active_folder,
    {
        &self.active_folder
    }

    pub fn active_model(&self) -> (r: &Option<String>)
        ensures
            string_opt_view(*r) == self@.active_model,
    {
        &self.active_model
    }
}

} // verus!
