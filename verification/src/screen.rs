//! What a screen shows of a state: a title, a message, the input line where
//! a text is asked for, and the error indicator in words. Drawing it is left
//! to the caller.

use vstd::prelude::*;
use vstd::string::*;
use crate::app::{App, Notice};
use crate::error::{InputError, SchemaError};
use crate::field_type::{menu_text, menu_text_spec};
use crate::input::CARET_MARK;
use crate::text::{decimal_digits, decimal_text};
use crate::wizard::{takes_text, AppSpec, AppState, NoticeSpec, Step};

verus! {

/// What a screen shows.
#[derive(Clone, Debug, PartialEq, Eq)]
pub struct Screen {
    /// Where the application stands.
    pub state: AppState,
    /// The step of the wizard.
    pub step: Step,
    pub title: String,
    pub message: String,
    /// The input line with the caret mark, at the steps that ask for a text.
    pub input: Option<String>,
    /// The error indicator in words, where there is one.
    pub notice: Option<String>,
}

/// What a screen shows, as a description.
#[verifier::ext_equal]
pub struct ScreenSpec {
    pub state: AppState,
    pub step: Step,
    pub title: Seq<char>,
    pub message: Seq<char>,
    pub input: Option<Seq<char>>,
    pub notice: Option<Seq<char>>,
}

/// What a text that may be absent stands for.
pub open spec fn text_view(text: Option<String>) -> Option<Seq<char>> {
    match text {
        Some(t) => Some(t@),
        None => None,
    }
}

impl View for Screen {
    type V = ScreenSpec;

    open spec fn view(&self) -> ScreenSpec {
        ScreenSpec {
            state: self.state,
            step: self.step,
            title: self.title@,
            message: self.message@,
            input: text_view(self.input),
            notice: text_view(self.notice),
        }
    }
}

/// The words for an input that was not accepted.
pub open spec fn input_error_text(e: InputError) -> Seq<char> {
    match e {
        InputError::EmptyName => "Please enter a name."@,
        InputError::InvalidCount => "Please enter a whole number from 0 to 255."@,
        InputError::UnknownType => "Please choose one of the listed types."@,
    }
}

/// The words for a schema that cannot become a table.
pub open spec fn schema_error_text(e: SchemaError) -> Seq<char> {
    match e {
        SchemaError::EmptySchema => "The observation has no fields."@,
        SchemaError::InvalidIdentifier =>
            "Names must begin with a letter or an underscore and hold only letters, digits and underscores."@,
        SchemaError::DuplicateField => "Two fields have the same name."@,
    }
}

/// The words of an error indicator.
pub open spec fn notice_text(notice: NoticeSpec) -> Seq<char> {
    match notice {
        NoticeSpec::Input(e) => input_error_text(e),
        NoticeSpec::Schema(e) => schema_error_text(e),
        NoticeSpec::Storage(message) => "The database reported: "@ + message,
    }
}

/// The title of the screen.
pub open spec fn title_text(state: AppState) -> Seq<char> {
    match state {
        AppState::StartMenu => " ObSt Main Menu "@,
        AppState::NewObservation => " New Observation "@,
        AppState::AddObservation => " Add Observation "@,
    }
}

/// The message of the review: the statement to confirm, or the word that
/// the observation cannot be stored.
pub open spec fn review_text(statement: Seq<char>) -> Seq<char> {
    if statement.len() == 0 {
        "This observation cannot be stored as it stands."@
    } else {
        "Please confirm this SQL statement to see if you have made any mistakes. \n "@ + statement
            + "\nIf you are satisfied, press enter to update the database."@
    }
}

/// The message of a step of the wizard.
pub open spec fn step_text(v: AppSpec) -> Seq<char> {
    match v.step {
        Step::CollectName =>
            "\nYou will now be able to add a new observation to the database.\nStarting off, give your observation a name."@,
        Step::CollectDateFlag => "\nDo you intend to track the date for your observation? (Y/n)"@,
        Step::CollectFieldCount => "\nHow many correlated variables do you want to observe?"@,
        Step::CollectFieldName(index) => "\nPlease name variable "@ + decimal_digits(
            (index + 1) as nat,
        ),
        Step::CollectFieldType(_) =>
            "\nPlease declare the type of the variable by typing in the corresponding number.\n"@
                + menu_text_spec(),
        Step::Review => review_text(v.sql_statement),
        Step::Committed => Seq::empty(),
        Step::Cancelled => Seq::empty(),
    }
}

/// The message of the screen.
pub open spec fn message_text(v: AppSpec) -> Seq<char> {
    match v.state {
        AppState::StartMenu =>
            "\nWelcome to the ObSt Observation tracking tool!\n\nPress one of the following keys to enter the corresponding submenus:\n1) Create a new observation\n2) Add to an existing observation\nq) Quit the TUI"@,
        AppState::NewObservation => step_text(v),
        AppState::AddObservation => "\nAdding to an existing observation is not available yet.\nq) Back to the main menu"@,
    }
}

/// What the screen shows of a state. The input line is shown at the steps
/// of the wizard that ask for a text, and nowhere else.
pub open spec fn screen_spec(v: AppSpec) -> ScreenSpec {
    ScreenSpec {
        state: v.state,
        step: v.step,
        title: title_text(v.state),
        message: message_text(v),
        input: if v.state == AppState::NewObservation && takes_text(v.step) {
            Some(v.input.push(CARET_MARK))
        } else {
            None
        },
        notice: match v.notice {
            Some(n) => Some(notice_text(n)),
            None => None,
        },
    }
}

impl Notice {
    /// The error indicator in words.
    pub fn message(&self) -> (text: String)
        ensures
            text@ == notice_text(self@),
    {
        match self {
            Notice::Input(e) => {
                match e {
                    InputError::EmptyName => String::from_str("Please enter a name."),
                    InputError::InvalidCount => String::from_str(
                        "Please enter a whole number from 0 to 255.",
                    ),
                    InputError::UnknownType => String::from_str(
                        "Please choose one of the listed types.",
                    ),
                }
            },
            Notice::Schema(e) => {
                match e {
                    SchemaError::EmptySchema => String::from_str("The observation has no fields."),
                    SchemaError::InvalidIdentifier => String::from_str(
                        "Names must begin with a letter or an underscore and hold only letters, digits and underscores.",
                    ),
                    SchemaError::DuplicateField => String::from_str(
                        "Two fields have the same name.",
                    ),
                }
            },
            Notice::Storage(e) => {
                let mut text = String::from_str("The database reported: ");
                text.append(e.message.as_str());
                text
            },
        }
    }
}

impl App {
    /// The title of the screen.
    fn title(&self) -> (text: String)
        ensures
            text@ == title_text(self@.state),
    {
        match self.state() {
            AppState::StartMenu => String::from_str(" ObSt Main Menu "),
            AppState::NewObservation => String::from_str(" New Observation "),
            AppState::AddObservation => String::from_str(" Add Observation "),
        }
    }

    /// The message of the current step of the wizard.
    fn step_message(&self) -> (text: String)
        requires
            self.wf(),
        ensures
            text@ == step_text(self@),
    {
        match self.step() {
            Step::CollectName => String::from_str(
                "\nYou will now be able to add a new observation to the database.\nStarting off, give your observation a name.",
            ),
            Step::CollectDateFlag => String::from_str(
                "\nDo you intend to track the date for your observation? (Y/n)",
            ),
            Step::CollectFieldCount => String::from_str(
                "\nHow many correlated variables do you want to observe?",
            ),
            Step::CollectFieldName(index) => {
                let mut text = String::from_str("\nPlease name variable ");
                let number = decimal_text(index + 1);
                text.append(number.as_str());
                text
            },
            Step::CollectFieldType(_) => {
                let mut text = String::from_str(
                    "\nPlease declare the type of the variable by typing in the corresponding number.\n",
                );
                let menu = menu_text();
                text.append(menu.as_str());
                text
            },
            Step::Review => {
                let statement = self.sql_statement();
                if statement.as_str().unicode_len() == 0 {
                    String::from_str("This observation cannot be stored as it stands.")
                } else {
                    let mut text = String::from_str(
                        "Please confirm this SQL statement to see if you have made any mistakes. \n ",
                    );
                    text.append(statement.as_str());
                    text.append("\nIf you are satisfied, press enter to update the database.");
                    text
                }
            },
            Step::Committed => String::new(),
            Step::Cancelled => String::new(),
        }
    }

    /// What the screen shows of the current state.
    pub fn screen(&self) -> (screen: Screen)
        requires
            self.wf(),
        ensures
            screen@ == screen_spec(self@),
    {
        let state = self.state();
        let step = self.step();
        let message = match state {
            AppState::StartMenu => String::from_str(
                "\nWelcome to the ObSt Observation tracking tool!\n\nPress one of the following keys to enter the corresponding submenus:\n1) Create a new observation\n2) Add to an existing observation\nq) Quit the TUI",
            ),
            AppState::NewObservation => self.step_message(),
            AppState::AddObservation => String::from_str(
                "\nAdding to an existing observation is not available yet.\nq) Back to the main menu",
            ),
        };
        let asks_text = match step {
            Step::CollectName | Step::CollectFieldCount | Step::CollectFieldName(_) => true,
            _ => false,
        };
        let input = if state == AppState::NewObservation && asks_text {
            Some(self.input().display())
        } else {
            None
        };
        let notice = match self.notice() {
            Some(n) => Some(n.message()),
            None => None,
        };
        Screen { state, step, title: self.title(), message, input, notice }
    }
}

} // verus!
