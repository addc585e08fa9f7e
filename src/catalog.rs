use vstd::prelude::*;

verus! {

/// The interaction modes; each decides which keys mean what.
#[derive(Clone, Copy, Debug, PartialEq, Eq, Structural)]
pub enum InputMode {
    Normal,
    Search,
    Folder,
    Model,
    Match,
    Help,
    Tenant,
}

/// The topics of the help panel, one for each mode that offers help.
#[derive(Clone, Copy, Debug, PartialEq, Eq, Structural)]
pub enum HelpType {
    General,
    Search,
    Folder,
    Model,
    Match,
    Tenant,
}

pub const NORMAL_HINT: &'static str = "Press <h> for help or <q> to exit";

pub const SEARCH_HINT: &'static str = "Press <Esc> to return to Normal mode or <Ctrl-h> for help";

pub const FOLDER_HINT: &'static str =
    "Press <Esc> to return to Normal mode, <h> for help, or <Tab> for Model mode";

pub const MODEL_HINT: &'static str =
    "Press <Esc> to return to Normal mode, <h> for help, or <Tab> for Folder mode";

pub const MATCH_HINT: &'static str = "Press <Esc> to return to Normal mode, <h> for help";

pub const HELP_HINT: &'static str = "Press any key to exit the help";

pub const TENANT_HINT: &'static str =
    "Select and press <Enter> to specify a tenant, or press <Esc> to cancel";

pub const NORMAL_MODE_HELP: &'static str = r#"
Normal Mode:

<q>    Exit the program
<t>    Select Physna tenant
<f>    Switch to Folder mode
<m>    Switch to Model mode

Press any key to exit this help
"#;

pub const SEARCH_MODE_HELP: &'static str = r#"
Search Mode:

<Esc>          Exit to Normal mode
<Backspace>    Delete the character left of the cursor
<Left Arrow>   Move cursor left
<Right Arrow>  Move cursor right
<Home>         Go to beginning of line
<End>          Go to end of line
<Delete>       Delete character under cursor
<Enter>        Execute search
"#;

pub const FOLDER_MODE_HELP: &'static str = r#"
Folder Mode:

<Esc>    Exit to Normal mode
<r>      Reload the list of folders
"#;

pub const MODEL_MODE_HELP: &'static str = r#"
Model Mode:

<Esc>    Exit to Normal mode
<r>      Reload the list of models
"#;

pub const MATCH_MODE_HELP: &'static str = r#"
Match Mode:

<Esc>    Exit to Normal mode
<r>      Regenerate matches
"#;

pub const TENANT_MODE_HELP: &'static str = r#"
Tenant Mode:

<Esc>    Exit to Normal mode
<r>      Regenerate matches
"#;

/// The status line shown on entering a mode.
pub open spec fn mode_hint(mode: InputMode) -> Seq<char> {
    match mode {
        InputMode::Normal => NORMAL_HINT@,
        InputMode::Search => SEARCH_HINT@,
        InputMode::Folder => FOLDER_HINT@,
        InputMode::Model => MODEL_HINT@,
        InputMode::Match => MATCH_HINT@,
        InputMode::Help => HELP_HINT@,
        InputMode::Tenant => TENANT_HINT@,
    }
}

/// The body of the help panel for a topic.
pub open spec fn help_body(topic: HelpType) -> Seq<char> {
    match topic {
        HelpType::General => NORMAL_MODE_HELP@,
        HelpType::Search => SEARCH_MODE_HELP@,
        HelpType::Folder => FOLDER_MODE_HELP@,
        HelpType::Model => MODEL_MODE_HELP@,
        HelpType::Match => MATCH_MODE_HELP@,
        HelpType::Tenant => TENANT_MODE_HELP@,
    }
}

/// The status line shown on entering `mode`.
pub fn hint_for(mode: InputMode) -> (r: String)
    ensures
        r@ == mode_hint(mode),
{
    match mode {
        InputMode::Normal => String::from_str(NORMAL_HINT),
        InputMode::Search => String::from_str(SEARCH_HINT),
        InputMode::Folder => String::from_str(FOLDER_HINT),
        InputMode::Model => String::from_str(MODEL_HINT),
        InputMode::Match => String::from_str(MATCH_HINT),
        InputMode::Help => String::from_str(HELP_HINT),
        InputMode::Tenant => String::from_str(TENANT_HINT),
    }
}

/// The body of the help panel for `topic`.
pub fn help_for(topic: HelpType) -> (r: String)
    ensures
        r@ == help_body(topic),
{
    match topic {
        HelpType::General => String::from_str(NORMAL_MODE_HELP),
        HelpType::Search => String::from_str(SEARCH_MODE_HELP),
        HelpType::Folder => String::from_str(FOLDER_MODE_HELP),
        HelpType::Model => String::from_str(MODEL_MODE_HELP),
        HelpType::Match => String::from_str(MATCH_MODE_HELP),
        HelpType::Tenant => String::from_str(TENANT_MODE_HELP),
    }
}

impl InputMode {
    /// The mode's name as the status bar shows it, padded to six characters.
    pub fn label(&self) -> (r: String)
        ensures
            r@ == mode_label(*self),
    {
        match self {
            InputMode::Normal => String::from_str("Normal"),
            InputMode::Search => String::from_str("Search"),
            InputMode::Folder => String::from_str("Folder"),
            InputMode::Model => String::from_str("Model "),
            InputMode::Match => String::from_str("Match "),
            InputMode::Help => String::from_str("Help  "),
            InputMode::Tenant => String::from_str("Tenant"),
        }
    }
}

pub open spec fn mode_label(mode: InputMode) -> Seq<char> {
    match mode {
        InputMode::Normal => "Normal"@,
        InputMode::Search => "Search"@,
        InputMode::Folder => "Folder"@,
        InputMode::Model => "Model "@,
        InputMode::Match => "Match "@,
        InputMode::Help => "Help  "@,
        InputMode::Tenant => "Tenant"@,
    }
}

} // verus!
