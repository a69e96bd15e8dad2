use obst::app::{Action, App, Notice};
use obst::error::{InputError, SchemaError, StorageError};
use obst::wizard::{AppState, InputEvent, Step};

fn type_text(app: &mut App, text: &str) {
    for c in text.chars() {
        let event = if c == '\n' { InputEvent::Confirm } else { InputEvent::Character(c) };
        assert_eq!(app.handle_event(event), Action::Continue);
    }
}

#[test]
fn main_menu_screen() {
    let screen = App::default().screen();
    assert_eq!(screen.state, AppState::StartMenu);
    assert_eq!(screen.title, " ObSt Main Menu ");
    assert_eq!(
        screen.message,
        "\nWelcome to the ObSt Observation tracking tool!\n\nPress one of the following keys to enter the corresponding submenus:\n1) Create a new observation\n2) Add to an existing observation\nq) Quit the TUI"
    );
    assert_eq!(screen.input, None);
    assert_eq!(screen.notice, None);
}

#[test]
fn append_screen() {
    let mut app = App::default();
    type_text(&mut app, "2");
    let screen = app.screen();
    assert_eq!(screen.state, AppState::AddObservation);
    assert_eq!(screen.title, " Add Observation ");
    assert_eq!(screen.input, None);
}

#[test]
fn name_screen_shows_the_input_with_the_caret() {
    let mut app = App::default();
    type_text(&mut app, "1");
    let screen = app.screen();
    assert_eq!(screen.state, AppState::NewObservation);
    assert_eq!(screen.step, Step::CollectName);
    assert_eq!(screen.title, " New Observation ");
    assert_eq!(
        screen.message,
        "\nYou will now be able to add a new observation to the database.\nStarting off, give your observation a name."
    );
    assert_eq!(screen.input, Some("_".to_string()));
    type_text(&mut app, "Temp");
    assert_eq!(app.screen().input, Some("Temp_".to_string()));
}

#[test]
fn date_screen_has_no_input_line() {
    let mut app = App::default();
    type_text(&mut app, "1t\n");
    let screen = app.screen();
    assert_eq!(screen.step, Step::CollectDateFlag);
    assert_eq!(
        screen.message,
        "\nDo you intend to track the date for your observation? (Y/n)"
    );
    assert_eq!(screen.input, None);
}

#[test]
fn field_screens_number_the_variables_from_one() {
    let mut app = App::default();
    type_text(&mut app, "1t\nn");
    assert_eq!(
        app.screen().message,
        "\nHow many correlated variables do you want to observe?"
    );
    type_text(&mut app, "12");
    assert_eq!(app.screen().input, Some("12_".to_string()));
    type_text(&mut app, "\n");
    for i in 0..12 {
        let screen = app.screen();
        assert_eq!(screen.step, Step::CollectFieldName(i));
        assert_eq!(screen.message, format!("\nPlease name variable {}", i + 1));
        assert_eq!(screen.input, Some("_".to_string()));
        type_text(&mut app, &format!("v{}\n", i));
        let screen = app.screen();
        assert_eq!(screen.step, Step::CollectFieldType(i));
        assert_eq!(
            screen.message,
            "\nPlease declare the type of the variable by typing in the corresponding number.\n1) Integer 2) Float 3) Boolean 4) Timestamp"
        );
        assert_eq!(screen.input, None);
        type_text(&mut app, "1");
    }
    assert_eq!(app.step(), Step::Review);
}

#[test]
fn review_screen_shows_the_statement() {
    let mut app = App::default();
    type_text(&mut app, "1Temperature\ny1\nreading\n2");
    let screen = app.screen();
    assert_eq!(screen.step, Step::Review);
    assert_eq!(
        screen.message,
        "Please confirm this SQL statement to see if you have made any mistakes. \n CREATE TABLE IF NOT EXISTS Temperature (Date TIMESTAMP, reading FLOAT);\nIf you are satisfied, press enter to update the database."
    );
    assert_eq!(screen.input, None);
    assert_eq!(screen.notice, None);
}

#[test]
fn review_screen_of_a_schema_that_cannot_be_stored() {
    let mut app = App::default();
    type_text(&mut app, "1t\nn0\n");
    let screen = app.screen();
    assert_eq!(screen.step, Step::Review);
    assert_eq!(screen.message, "This observation cannot be stored as it stands.");
    assert_eq!(screen.notice, Some("The observation has no fields.".to_string()));
}

#[test]
fn screens_show_the_error_indicator_in_words() {
    let mut app = App::default();
    type_text(&mut app, "1\n");
    assert_eq!(app.screen().notice, Some("Please enter a name.".to_string()));
    type_text(&mut app, "t\nn");
    assert_eq!(app.screen().notice, None);
    type_text(&mut app, "abc\n");
    assert_eq!(
        app.screen().notice,
        Some("Please enter a whole number from 0 to 255.".to_string())
    );
    type_text(&mut app, "1\nx\n9");
    assert_eq!(
        app.screen().notice,
        Some("Please choose one of the listed types.".to_string())
    );
    type_text(&mut app, "1");
    assert!(matches!(app.handle_event(InputEvent::Confirm), Action::Submit(_)));
    app.storage_completed(Err(StorageError { message: "no such directory".to_string() }));
    assert_eq!(
        app.screen().notice,
        Some("The database reported: no such directory".to_string())
    );
}

#[test]
fn every_notice_has_its_words() {
    assert_eq!(Notice::Input(InputError::EmptyName).message(), "Please enter a name.");
    assert_eq!(
        Notice::Input(InputError::InvalidCount).message(),
        "Please enter a whole number from 0 to 255."
    );
    assert_eq!(
        Notice::Input(InputError::UnknownType).message(),
        "Please choose one of the listed types."
    );
    assert_eq!(
        Notice::Schema(SchemaError::EmptySchema).message(),
        "The observation has no fields."
    );
    assert_eq!(
        Notice::Schema(SchemaError::InvalidIdentifier).message(),
        "Names must begin with a letter or an underscore and hold only letters, digits and underscores."
    );
    assert_eq!(
        Notice::Schema(SchemaError::DuplicateField).message(),
        "Two fields have the same name."
    );
    assert_eq!(
        Notice::Storage(StorageError { message: "x".to_string() }).message(),
        "The database reported: x"
    );
}
