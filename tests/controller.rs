use ptui::catalog::{
    help_for, hint_for, HelpType, InputMode, FOLDER_HINT, FOLDER_MODE_HELP, NORMAL_HINT,
    NORMAL_MODE_HELP, SEARCH_MODE_HELP,
};
use ptui::error::PtuiError;
use ptui::input::{Key, KeyInput};
use ptui::records::{Folder, Model, ModelState};
use ptui::state::{Action, State};

fn press(state: &mut State, key: Key) -> Action {
    state.handle(KeyInput::plain(key))
}

fn ch(state: &mut State, c: char) -> Action {
    press(state, Key::Char(c))
}

fn normal_state() -> State {
    let mut state = State::new();
    press(&mut state, Key::Esc);
    assert_eq!(state.mode(), InputMode::Normal);
    state
}

fn folder(id: u32, name: &str) -> Folder {
    Folder { id, name: String::from(name) }
}

fn model(uuid: &str, name: &str) -> Model {
    Model { uuid: String::from(uuid), name: String::from(name), state: ModelState::Ready }
}

#[test]
fn starts_in_tenant_selection() {
    let state = State::new();
    assert_eq!(state.mode(), InputMode::Tenant);
    assert_eq!(state.previous_mode(), InputMode::Tenant);
    assert!(state.display_tenants());
    assert!(!state.show_help());
    let columns: Vec<&str> = state.models_table().columns().iter().map(|c| c.as_str()).collect();
    assert_eq!(columns, vec!["Name", "Status", "UUID"]);
}

#[test]
fn folder_then_help_then_any_key() {
    let mut state = normal_state();
    assert_eq!(ch(&mut state, 'f'), Action::Nothing);
    assert_eq!(state.mode(), InputMode::Folder);
    assert_eq!(state.previous_mode(), InputMode::Normal);
    assert_eq!(state.status_line(), FOLDER_HINT);

    ch(&mut state, 'h');
    assert_eq!(state.mode(), InputMode::Help);
    assert_eq!(state.previous_mode(), InputMode::Folder);
    assert!(state.show_help());
    assert_eq!(state.help_text(), FOLDER_MODE_HELP);

    press(&mut state, Key::Down);
    assert_eq!(state.mode(), InputMode::Folder);
    assert!(!state.show_help());
}

#[test]
fn enter_without_folder_selection_reports_it() {
    let mut state = normal_state();
    ch(&mut state, 'f');
    assert_eq!(press(&mut state, Key::Enter), Action::Nothing);
    assert_eq!(state.status_line(), "No folder selected");
    assert!(state.models_table().rows().is_empty());
    assert_eq!(state.mode(), InputMode::Folder);
    assert_eq!(state.active_folder(), &None);
}

#[test]
fn help_returns_to_each_mode() {
    let openers: Vec<(char, InputMode)> = vec![
        ('f', InputMode::Folder),
        ('m', InputMode::Model),
        ('c', InputMode::Match),
        ('t', InputMode::Tenant),
    ];
    for (opener, mode) in openers {
        let mut state = normal_state();
        ch(&mut state, opener);
        assert_eq!(state.mode(), mode);
        ch(&mut state, 'h');
        assert_eq!(state.mode(), InputMode::Help);
        ch(&mut state, 'x');
        assert_eq!(state.mode(), mode);
        assert!(!state.show_help());
    }

    let mut state = normal_state();
    ch(&mut state, 'h');
    assert_eq!(state.help_text(), NORMAL_MODE_HELP);
    press(&mut state, Key::Esc);
    assert_eq!(state.mode(), InputMode::Normal);

    let mut state = normal_state();
    ch(&mut state, 's');
    state.handle(KeyInput::with_ctrl(Key::Char('h')));
    assert_eq!(state.mode(), InputMode::Help);
    assert_eq!(state.help_text(), SEARCH_MODE_HELP);
    press(&mut state, Key::Enter);
    assert_eq!(state.mode(), InputMode::Search);
}

#[test]
fn normal_mode_keys() {
    let mut state = normal_state();
    assert_eq!(ch(&mut state, 'q'), Action::Quit);
    assert_eq!(state.mode(), InputMode::Normal);
    ch(&mut state, 'z');
    assert_eq!(state.status_line(), NORMAL_HINT);
    press(&mut state, Key::Tab);
    assert_eq!(state.mode(), InputMode::Folder);
    press(&mut state, Key::Tab);
    assert_eq!(state.mode(), InputMode::Model);
    press(&mut state, Key::Tab);
    assert_eq!(state.mode(), InputMode::Folder);
    press(&mut state, Key::Esc);
    ch(&mut state, 't');
    assert_eq!(state.mode(), InputMode::Tenant);
    assert!(state.display_tenants());
}

#[test]
fn search_edits_and_submits_the_text() {
    let mut state = normal_state();
    ch(&mut state, 's');
    assert_eq!(state.mode(), InputMode::Search);
    for c in "bolt".chars() {
        ch(&mut state, c);
    }
    ch(&mut state, 'h');
    press(&mut state, Key::Left);
    press(&mut state, Key::Backspace);
    press(&mut state, Key::Home);
    press(&mut state, Key::Delete);
    state.handle(KeyInput::with_ctrl(Key::Char('x')));
    assert_eq!(state.search_field().text(), "olh");
    assert_eq!(press(&mut state, Key::Enter), Action::Search(String::from("olh")));
    press(&mut state, Key::Esc);
    assert_eq!(state.mode(), InputMode::Normal);
    assert_eq!(state.search_field().text(), "olh");
}

#[test]
fn tenant_choice_opens_a_session() {
    let mut state = State::new();
    state.initialize(vec![String::from("west"), String::from("east"), String::from("north")]);
    assert_eq!(
        state.tenants().items(),
        &vec![String::from("east"), String::from("north"), String::from("west")]
    );
    assert_eq!(state.session_tenant(), Err(PtuiError::TenantNotSelected));

    press(&mut state, Key::Enter);
    assert_eq!(state.status_line(), "No tenant selected");
    assert_eq!(state.mode(), InputMode::Tenant);

    press(&mut state, Key::End);
    press(&mut state, Key::Up);
    assert_eq!(press(&mut state, Key::Enter), Action::OpenSession(String::from("north")));
    assert_eq!(state.mode(), InputMode::Normal);
    assert!(!state.display_tenants());
    assert_eq!(state.active_tenant(), &Some(String::from("north")));
    assert_eq!(state.session_tenant(), Ok(String::from("north")));
}

#[test]
fn folder_choice_lists_its_models() {
    let mut state = normal_state();
    state.folders_loaded(Some(vec![folder(7, "gears"), folder(9, "bolts")]));
    ch(&mut state, 'f');
    press(&mut state, Key::Down);
    press(&mut state, Key::Down);
    assert_eq!(press(&mut state, Key::Enter), Action::ListModels(9));
    assert_eq!(state.active_folder(), &Some(String::from("bolts")));

    state.models_loaded(Some(vec![model("u1", "m1"), model("u2", "m2")]));
    assert_eq!(state.models_table().rows().len(), 2);
    press(&mut state, Key::Tab);
    assert_eq!(state.mode(), InputMode::Model);
    press(&mut state, Key::Enter);
    assert_eq!(state.status_line(), "No model selected");
    press(&mut state, Key::Up);
    press(&mut state, Key::Up);
    press(&mut state, Key::Enter);
    assert_eq!(state.active_model(), &Some(String::from("u2")));

    state.models_loaded(None);
    assert!(state.models_table().rows().is_empty());
    assert_eq!(state.active_folder(), &None);

    state.folders_loaded(None);
    assert!(state.folder_list().is_empty());
}

#[test]
fn folder_list_moves_and_grows() {
    let mut state = normal_state();
    state.add_folder(folder(1, "a"));
    state.add_folder(folder(2, "b"));
    ch(&mut state, 'f');
    press(&mut state, Key::End);
    assert_eq!(state.folder_list().selected(), Some(1));
    press(&mut state, Key::Down);
    assert_eq!(state.folder_list().selected(), Some(0));
    press(&mut state, Key::Up);
    assert_eq!(state.folder_list().selected(), Some(1));
    press(&mut state, Key::Home);
    assert_eq!(state.folder_list().selected(), Some(0));
    state.clear_folders();
    assert!(state.folder_list().is_empty());
    assert_eq!(state.folder_list().selected(), None);
}

#[test]
fn change_mode_never_remembers_help() {
    let mut state = normal_state();
    state.set_help(HelpType::Match);
    state.change_mode(InputMode::Help);
    assert_eq!(state.previous_mode(), InputMode::Normal);
    state.hide_help();
    state.change_mode(InputMode::Match);
    assert_eq!(state.previous_mode(), InputMode::Normal);
    assert_eq!(state.status_line(), &hint_for(InputMode::Match));
    assert!(!state.show_help());
}

#[test]
fn catalog_texts() {
    assert_eq!(hint_for(InputMode::Help), "Press any key to exit the help");
    assert_eq!(help_for(HelpType::Folder), FOLDER_MODE_HELP);
    assert_eq!(InputMode::Model.label(), "Model ");
    assert_eq!(InputMode::Tenant.label(), "Tenant");
    assert_eq!(ModelState::Indexing.label(), "indexing");
}

#[test]
fn error_messages() {
    assert_eq!(PtuiError::TenantNotSelected.message(), "Tenant not selected");
    assert_eq!(
        PtuiError::ConfigurationError { cause: Some(String::from("no file")) }.message(),
        "Configuration error occurred: no file"
    );
    assert_eq!(
        PtuiError::ConfigurationError { cause: None }.message(),
        "Configuration error occurred"
    );
    assert_eq!(PtuiError::InputError.message(), "Error occurred while receiving user input");
}

#[test]
fn model_state_names_round_trip() {
    for state in [ModelState::Received, ModelState::Indexing, ModelState::Ready] {
        assert_eq!(ModelState::from_label(&state.label()), Some(state));
    }
    assert_eq!(ModelState::from_label("finished"), None);
    assert_eq!(ModelState::from_label("Ready"), None);
}

#[test]
fn initialize_adds_to_the_tenants_already_listed() {
    let mut state = State::new();
    state.initialize(vec![String::from("west"), String::from("east")]);
    press(&mut state, Key::Down);
    assert_eq!(state.tenants().selected(), Some(0));
    state.initialize(vec![String::from("north"), String::from("alpha")]);
    assert_eq!(
        state.tenants().items(),
        &vec![
            String::from("alpha"),
            String::from("east"),
            String::from("north"),
            String::from("west")
        ]
    );
    assert_eq!(state.tenants().selected(), Some(0));
    assert!(state.models_table().rows().is_empty());
    assert_eq!(state.mode(), InputMode::Tenant);
}
