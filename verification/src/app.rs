//! The application state and the code that moves it: the wizard's steps as
//! methods, and the function that takes one event and says what is to be done.
//! Nothing here touches the store or the terminal; the caller shows the state,
//! reads the next event, and sends what `Action::Submit` hands over.

use vstd::prelude::*;
use vstd::string::*;
use crate::compiler::{compile, CreateTableRequest};
use crate::error::{InputError, SchemaError, StorageError};
use crate::field_type::{from_storage_name, type_for, FieldType};
use crate::input::InputBuffer;
use crate::schema::{FieldDefinition, ObservationSchema};
use crate::text::{digit_of, parse_decimal};
use crate::wizard::{
    after_add_amount, after_add_date, after_add_name, after_append_input_vector,
    after_character, after_confirmation, after_declared_type, after_event, after_field_name,
    after_prepare_sql, after_select_type, after_send_sql, after_skip_date,
    after_storage_completed, ended, entering, fresh, is_consistent,
    lemma_add_amount_keeps_consistency, lemma_add_name_keeps_consistency,
    lemma_date_answer_keeps_consistency, lemma_declared_type_keeps_consistency,
    lemma_event_keeps_consistency, lemma_field_name_keeps_consistency,
    lemma_fresh_is_consistent, lemma_prepare_sql_keeps_consistency,
    lemma_review_keeps_consistency, ActionSpec, AppSpec, AppState, InputEvent, NoticeSpec, Step,
    FIELD_COUNT_BOUND,
};

verus! {

/// What the error indicator shows.
#[derive(Clone, Debug, PartialEq, Eq)]
pub enum Notice {
    /// The last input was not accepted.
    Input(InputError),
    /// The schema under review cannot become a table.
    Schema(SchemaError),
    /// The store failed.
    Storage(StorageError),
}

impl View for Notice {
    type V = NoticeSpec;

    open spec fn view(&self) -> NoticeSpec {
        match self {
            Notice::Input(e) => NoticeSpec::Input(*e),
            Notice::Schema(e) => NoticeSpec::Schema(*e),
            Notice::Storage(e) => NoticeSpec::Storage(e@),
        }
    }
}

/// What an error indicator that may be absent stands for.
pub open spec fn notice_view(notice: Option<Notice>) -> Option<NoticeSpec> {
    match notice {
        Some(n) => Some(n@),
        None => None,
    }
}

/// What the caller has to do after an event.
#[derive(Debug, PartialEq, Eq)]
pub enum Action {
    /// Nothing but showing the new state and taking the next event.
    Continue,
    /// Hand the request to the store, then report with `storage_completed`.
    Submit(CreateTableRequest),
}

impl View for Action {
    type V = ActionSpec;

    open spec fn view(&self) -> ActionSpec {
        match self {
            Action::Continue => ActionSpec::Continue,
            Action::Submit(request) => ActionSpec::Submit(request@),
        }
    }
}

/// What the store reports of a request, as a description.
pub open spec fn outcome_view(outcome: Result<(), StorageError>) -> Result<(), Seq<char>> {
    match outcome {
        Ok(_) => Ok(()),
        Err(e) => Err(e@),
    }
}

/// The application: where it stands, and the observation that the wizard
/// has collected so far.
#[derive(Debug)]
pub struct App {
    state: AppState,
    step: Step,
    observation: ObservationSchema,
    date_tracked: bool,
    items: usize,
    input: InputBuffer,
    pending_name: String,
    notice: Option<Notice>,
    sql_statement: String,
    quit: bool,
}

impl View for App {
    type V = AppSpec;

    closed spec fn view(&self) -> AppSpec {
        AppSpec {
            state: self.state,
            step: self.step,
            observation: self.observation@,
            date_tracked: self.date_tracked,
            items: self.items as nat,
            input: self.input@,
            pending_name: self.pending_name@,
            notice: notice_view(self.notice),
            sql_statement: self.sql_statement@,
            quit: self.quit,
        }
    }
}

impl App {
    /// The state is consistent in the sense of `is_consistent`. `default`
    /// makes such a state and every method keeps it, so this holds of every
    /// `App` there is.
    pub open spec fn wf(&self) -> bool {
        is_consistent(self@)
    }

    /// The application as it starts: idle, with nothing collected.
    pub fn default() -> (app: App)
        ensures
            app@ == fresh(),
            app.wf(),
    {
        proof {
            lemma_fresh_is_consistent();
        }
        App {
            state: AppState::StartMenu,
            step: Step::CollectName,
            observation: ObservationSchema::new(),
            date_tracked: false,
            items: 0,
            input: InputBuffer::new(),
            pending_name: String::new(),
            notice: None,
            sql_statement: String::new(),
            quit: false,
        }
    }

    /// Where the application stands.
    pub fn state(&self) -> (state: AppState)
        ensures
            state == self@.state,
    {
        self.state
    }

    /// The step of the wizard.
    pub fn step(&self) -> (step: Step)
        ensures
            step == self@.step,
    {
        self.step
    }

    /// The observation as far as it has been collected.
    pub fn observation(&self) -> (schema: &ObservationSchema)
        ensures
            schema@ == self@.observation,
    {
        &self.observation
    }

    /// The number of fields that the user announced.
    pub fn items(&self) -> (count: usize)
        ensures
            count == self@.items,
    {
        self.items
    }

    /// The text typed in the current step.
    pub fn input(&self) -> (input: &InputBuffer)
        ensures
            input@ == self@.input,
    {
        &self.input
    }

    /// The error indicator.
    pub fn notice(&self) -> (notice: &Option<Notice>)
        ensures
            notice_view(*notice) == self@.notice,
    {
        &self.notice
    }

    /// The statement shown for review.
    pub fn sql_statement(&self) -> (text: &String)
        ensures
            text@ == self@.sql_statement,
    {
        &self.sql_statement
    }

    /// Whether the user has quit.
    pub fn should_quit(&self) -> (quit: bool)
        ensures
            quit == self@.quit,
    {
        self.quit
    }

    /// Starts over: the state becomes the fresh one.
    pub fn reset(&mut self)
        ensures
            final(self)@ == fresh(),
            final(self).wf(),
    {
        *self = App::default();
    }

    /// Clears the input; nothing else changes.
    pub fn reset_input(&mut self)
        requires
            old(self).wf(),
        ensures
            final(self)@ == (AppSpec { input: Seq::empty(), ..old(self)@ }),
            final(self).wf(),
    {
        self.input.clear();
    }

    /// Sets the statement and the error indicator from the schema under
    /// review; at any other step nothing changes.
    pub fn prepare_sql(&mut self)
        ensures
            final(self)@ == after_prepare_sql(old(self)@),
            old(self).wf() ==> final(self).wf(),
    {
        proof {
            if self.wf() {
                lemma_prepare_sql_keeps_consistency(self@);
            }
        }
        if self.state == AppState::NewObservation && self.step == Step::Review {
            match compile(&self.observation) {
                Ok(request) => {
                    self.sql_statement = request.statement();
                    self.notice = None;
                },
                Err(e) => {
                    self.sql_statement = String::new();
                    self.notice = Some(Notice::Schema(e));
                },
            }
        }
    }

    /// Moves on to a step.
    fn enter(&mut self, step: Step)
        ensures
            final(self)@ == entering(old(self)@, step),
    {
        self.step = step;
        self.input.clear();
        self.notice = None;
        self.prepare_sql();
    }

    /// Confirms the observation's name. An empty input is refused with
    /// `EmptyName`; any other becomes the name, and the date question follows.
    pub fn new_observation_add_name(&mut self)
        requires
            old(self).wf(),
        ensures
            final(self)@ == after_add_name(old(self)@),
            final(self).wf(),
    {
        proof {
            lemma_add_name_keeps_consistency(self@);
        }
        if self.state == AppState::NewObservation && self.step == Step::CollectName {
            if self.input.is_empty() {
                self.notice = Some(Notice::Input(InputError::EmptyName));
            } else {
                self.observation.name = self.input.snapshot();
                self.enter(Step::CollectDateFlag);
            }
        }
    }

    /// Answers yes to the date question: the date field becomes the first
    /// field of the observation, and the field count follows.
    pub fn new_observation_add_date(&mut self)
        requires
            old(self).wf(),
        ensures
            final(self)@ == after_add_date(old(self)@),
            final(self).wf(),
    {
        proof {
            lemma_date_answer_keeps_consistency(self@);
        }
        if self.state == AppState::NewObservation && self.step == Step::CollectDateFlag {
            self.observation.push_field(FieldDefinition::date());
            self.date_tracked = true;
            self.enter(Step::CollectFieldCount);
        }
    }

    /// Answers no to the date question: the field count follows.
    pub fn new_observation_skip_date(&mut self)
        requires
            old(self).wf(),
        ensures
            final(self)@ == after_skip_date(old(self)@),
            final(self).wf(),
    {
        proof {
            lemma_date_answer_keeps_consistency(self@);
        }
        if self.state == AppState::NewObservation && self.step == Step::CollectDateFlag {
            self.enter(Step::CollectFieldCount);
        }
    }

    /// Confirms the field count. The input must be a decimal number below
    /// `FIELD_COUNT_BOUND`; then the first field's name follows, or the
    /// review if the count is zero. Any other input is refused with
    /// `InvalidCount`, and the input is cleared for another try.
    pub fn new_observation_add_amount(&mut self)
        requires
            old(self).wf(),
        ensures
            final(self)@ == after_add_amount(old(self)@),
            final(self).wf(),
    {
        proof {
            lemma_add_amount_keeps_consistency(self@);
        }
        if self.state == AppState::NewObservation && self.step == Step::CollectFieldCount {
            match parse_decimal(self.input.chars(), FIELD_COUNT_BOUND) {
                Some(count) => {
                    self.items = count;
                    let next = if count > 0 {
                        Step::CollectFieldName(0)
                    } else {
                        Step::Review
                    };
                    self.enter(next);
                },
                None => {
                    self.input.clear();
                    self.notice = Some(Notice::Input(InputError::InvalidCount));
                },
            }
        }
    }

    /// Confirms the name of the current field. An empty input is refused
    /// with `EmptyName`; any other is kept, and the field's type follows.
    pub fn new_observation_add_field_name(&mut self)
        requires
            old(self).wf(),
        ensures
            final(self)@ == after_field_name(old(self)@),
            final(self).wf(),
    {
        proof {
            lemma_field_name_keeps_consistency(self@);
        }
        if self.state == AppState::NewObservation {
            if let Step::CollectFieldName(index) = self.step {
                if self.input.is_empty() {
                    self.notice = Some(Notice::Input(InputError::EmptyName));
                } else {
                    self.pending_name = self.input.snapshot();
                    self.enter(Step::CollectFieldType(index));
                }
            }
        }
    }

    /// Declares the type of the current field. A type completes the field,
    /// which joins the observation behind the others; the next field's name
    /// follows, or the review after the last field. No type is refused with
    /// `UnknownType`. At a step that asks for no type nothing changes.
    pub fn new_observation_declare_type(&mut self, declared: Option<FieldType>)
        requires
            old(self).wf(),
        ensures
            final(self)@ == after_declared_type(old(self)@, declared),
            final(self).wf(),
    {
        proof {
            lemma_declared_type_keeps_consistency(self@, declared);
        }
        if self.state == AppState::NewObservation {
            if let Step::CollectFieldType(index) = self.step {
                match declared {
                    Some(field_type) => {
                        let name = self.pending_name.clone();
                        self.pending_name = String::new();
                        self.observation.push_field(FieldDefinition { name, field_type });
                        let next = if index + 1 < self.items {
                            Step::CollectFieldName(index + 1)
                        } else {
                            Step::Review
                        };
                        self.enter(next);
                    },
                    None => {
                        self.notice = Some(Notice::Input(InputError::UnknownType));
                    },
                }
            }
        }
    }

    /// Declares the type of the current field by its selector in the menu.
    pub fn new_observation_select_type(&mut self, selector: usize)
        requires
            old(self).wf(),
        ensures
            final(self)@ == after_select_type(old(self)@, selector as nat),
            final(self).wf(),
    {
        let declared = match type_for(selector) {
            Ok(field_type) => Some(field_type),
            Err(_) => None,
        };
        self.new_observation_declare_type(declared);
    }

    /// With no type given, confirms the name of the current field; with a
    /// type given by its storage name, declares the type of the current field.
    pub fn append_input_vector(&mut self, datatype: Option<&str>)
        requires
            old(self).wf(),
        ensures
            final(self)@ == after_append_input_vector(
                old(self)@,
                match datatype {
                    Some(declared) => Some(declared@),
                    None => None,
                },
            ),
            final(self).wf(),
    {
        match datatype {
            Some(declared) => {
                self.new_observation_declare_type(from_storage_name(declared));
            },
            None => {
                self.new_observation_add_field_name();
            },
        }
    }

    /// Confirms the review: compiles the observation and hands out the
    /// request to submit. An observation that does not compile gives its
    /// error in the indicator and no request. The state is kept either way.
    pub fn send_sql(&mut self) -> (action: Action)
        requires
            old(self).wf(),
        ensures
            (final(self)@, action@) == after_send_sql(old(self)@),
            final(self).wf(),
    {
        proof {
            lemma_review_keeps_consistency(self@, Ok(()));
        }
        if self.state == AppState::NewObservation && self.step == Step::Review {
            match compile(&self.observation) {
                Ok(request) => {
                    self.notice = None;
                    Action::Submit(request)
                },
                Err(e) => {
                    self.notice = Some(Notice::Schema(e));
                    Action::Continue
                },
            }
        } else {
            Action::Continue
        }
    }

    /// Takes the store's report on the request that the review submitted.
    /// Success commits the wizard: the application is idle again and the
    /// collected data discarded. A failure is shown with its message, and
    /// everything collected is kept for another try.
    pub fn storage_completed(&mut self, outcome: Result<(), StorageError>)
        requires
            old(self).wf(),
        ensures
            final(self)@ == after_storage_completed(old(self)@, outcome_view(outcome)),
            final(self).wf(),
    {
        proof {
            lemma_review_keeps_consistency(self@, outcome_view(outcome));
        }
        if self.state == AppState::NewObservation && self.step == Step::Review {
            match outcome {
                Ok(_) => {
                    self.end(Step::Committed);
                },
                Err(e) => {
                    self.notice = Some(Notice::Storage(e));
                },
            }
        }
    }

    /// Ends the wizard: the application is idle again and nothing is kept.
    fn end(&mut self, how: Step)
        ensures
            final(self)@ == ended(how),
    {
        *self = App::default();
        self.step = how;
    }

    /// Takes a confirmation, by the step at which it arrives.
    pub fn new_observation_process_confirmation(&mut self) -> (action: Action)
        requires
            old(self).wf(),
        ensures
            (final(self)@, action@) == after_confirmation(old(self)@),
            final(self).wf(),
    {
        if self.state != AppState::NewObservation {
            return Action::Continue;
        }
        match self.step {
            Step::CollectName => {
                self.new_observation_add_name();
                Action::Continue
            },
            Step::CollectDateFlag => {
                self.new_observation_add_date();
                Action::Continue
            },
            Step::CollectFieldCount => {
                self.new_observation_add_amount();
                Action::Continue
            },
            Step::CollectFieldName(_) => {
                self.new_observation_add_field_name();
                Action::Continue
            },
            Step::Review => self.send_sql(),
            _ => Action::Continue,
        }
    }

    /// Takes a character typed inside the wizard.
    fn type_character(&mut self, c: char)
        requires
            old(self).wf(),
        ensures
            final(self)@ == after_character(old(self)@, c),
            final(self).wf(),
    {
        proof {
            lemma_event_keeps_consistency(self@, InputEvent::Character(c));
        }
        if self.state != AppState::NewObservation {
            return ;
        }
        match self.step {
            Step::CollectName | Step::CollectFieldCount | Step::CollectFieldName(_) => {
                if c != ' ' {
                    self.input.insert(c);
                }
            },
            Step::CollectDateFlag => {
                if c == 'y' {
                    self.new_observation_add_date();
                } else if c == 'n' {
                    self.new_observation_skip_date();
                }
            },
            Step::CollectFieldType(_) => {
                let selector = match digit_of(c) {
                    Some(d) => d,
                    None => 0,
                };
                self.new_observation_select_type(selector);
            },
            _ => {},
        }
    }

    /// Takes one event and says what the caller has to do. Only a confirmed
    /// review of an observation that compiles gives a request to submit;
    /// cancelling the wizard discards what was collected and gives none.
    pub fn handle_event(&mut self, event: InputEvent) -> (action: Action)
        requires
            old(self).wf(),
        ensures
            (final(self)@, action@) == after_event(old(self)@, event),
            final(self).wf(),
            event is Cancel ==> action is Continue,
    {
        proof {
            lemma_event_keeps_consistency(self@, event);
        }
        if self.quit {
            return Action::Continue;
        }
        if let InputEvent::Quit = event {
            self.quit = true;
            return Action::Continue;
        }
        match self.state {
            AppState::StartMenu => {
                match event {
                    InputEvent::Character(c) => {
                        if c == '1' {
                            *self = App::default();
                            self.state = AppState::NewObservation;
                        } else if c == '2' {
                            *self = App::default();
                            self.state = AppState::AddObservation;
                        } else if c == 'q' {
                            self.quit = true;
                        }
                    },
                    InputEvent::Cancel => {
                        self.quit = true;
                    },
                    _ => {},
                }
                Action::Continue
            },
            AppState::AddObservation => {
                match event {
                    InputEvent::Character(c) => {
                        if c == 'q' {
                            *self = App::default();
                        }
                    },
                    InputEvent::Cancel => {
                        *self = App::default();
                    },
                    _ => {},
                }
                Action::Continue
            },
            AppState::NewObservation => {
                match event {
                    InputEvent::Cancel => {
                        self.end(Step::Cancelled);
                        Action::Continue
                    },
                    InputEvent::Confirm => self.new_observation_process_confirmation(),
                    InputEvent::Backspace => {
                        match self.step {
                            Step::CollectName | Step::CollectFieldCount | Step::CollectFieldName(
                                _,
                            ) => {
                                self.input.backspace();
                            },
                            _ => {},
                        }
                        Action::Continue
                    },
                    InputEvent::Character(c) => {
                        self.type_character(c);
                        Action::Continue
                    },
                    InputEvent::Quit => Action::Continue,
                }
            },
        }
    }
}

} // verus!
