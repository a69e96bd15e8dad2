//! The definition wizard as a state machine: its steps, the events it
//! consumes, and what each event makes of a state. Everything here is a
//! description; `crate::app` holds the code that follows it.

use vstd::prelude::*;
use crate::compiler::{compile_spec, statement_text, RequestSpec};
use crate::error::{InputError, SchemaError};
use crate::field_type::{from_storage_name_spec, type_for_spec, FieldType};
use crate::schema::{date_field_spec, FieldSpec, SchemaSpec};
use crate::text::{
    decimal_digits, digit_char, digit_value, is_digit, lemma_decimal_digits_denote,
    parse_decimal_spec,
};

verus! {

/// The bound of the field count: an observation has fewer user fields than this.
pub const FIELD_COUNT_BOUND: usize = 256;

/// Where the application stands.
#[derive(Clone, Copy, Debug, PartialEq, Eq, Structural)]
pub enum AppState {
    /// Idle, showing the main menu.
    StartMenu,
    /// Inside the wizard that defines a new observation.
    NewObservation,
    /// Inside the screen that adds to an existing observation.
    AddObservation,
}

/// The step of the wizard. The steps come in this order; the two field steps
/// repeat once for each field, with the field's index.
#[derive(Clone, Copy, Debug, PartialEq, Eq, Structural)]
pub enum Step {
    CollectName,
    CollectDateFlag,
    CollectFieldCount,
    CollectFieldName(usize),
    CollectFieldType(usize),
    Review,
    /// The table was created; the wizard is over and its data discarded.
    Committed,
    /// The user cancelled; the wizard is over and its data discarded.
    Cancelled,
}

/// One input of the user.
#[derive(Clone, Copy, Debug, PartialEq, Eq, Structural)]
pub enum InputEvent {
    Character(char),
    Backspace,
    Confirm,
    Cancel,
    Quit,
}

/// What the error indicator shows, as a description.
#[verifier::ext_equal]
pub enum NoticeSpec {
    Input(InputError),
    Schema(SchemaError),
    Storage(Seq<char>),
}

/// What the caller has to do after an event, as a description.
#[verifier::ext_equal]
pub enum ActionSpec {
    /// Nothing but showing the new state and taking the next event.
    Continue,
    /// Hand the request to the store and report the outcome.
    Submit(RequestSpec),
}

/// The state of the application, as a description.
#[verifier::ext_equal]
pub struct AppSpec {
    pub state: AppState,
    pub step: Step,
    /// The schema as far as it has been collected.
    pub observation: SchemaSpec,
    /// Whether the schema begins with the date field.
    pub date_tracked: bool,
    /// The number of fields that the user announced.
    pub items: nat,
    /// The text typed in the current step.
    pub input: Seq<char>,
    /// The name of the field whose type is being asked for.
    pub pending_name: Seq<char>,
    /// The error indicator.
    pub notice: Option<NoticeSpec>,
    /// The statement shown for review.
    pub sql_statement: Seq<char>,
    pub quit: bool,
}

/// The state in which the application starts: idle, with nothing collected.
pub open spec fn fresh() -> AppSpec {
    AppSpec {
        state: AppState::StartMenu,
        step: Step::CollectName,
        observation: SchemaSpec { name: Seq::empty(), fields: Seq::empty() },
        date_tracked: false,
        items: 0,
        input: Seq::empty(),
        pending_name: Seq::empty(),
        notice: None,
        sql_statement: Seq::empty(),
        quit: false,
    }
}

/// The state at the beginning of a wizard.
pub open spec fn started() -> AppSpec {
    AppSpec { state: AppState::NewObservation, ..fresh() }
}

/// The state after a wizard has ended in the given way: idle again, with
/// nothing kept of what was collected.
pub open spec fn ended(how: Step) -> AppSpec {
    AppSpec { step: how, ..fresh() }
}

/// The wizard is running and stands at the given step.
pub open spec fn in_step(v: AppSpec, step: Step) -> bool {
    v.state == AppState::NewObservation && v.step == step
}

/// The steps in which the user types a text.
pub open spec fn takes_text(step: Step) -> bool {
    step is CollectName || step is CollectFieldCount || step is CollectFieldName
}

/// The step after the field count `count` was accepted.
pub open spec fn step_after_count(count: nat) -> Step {
    if count > 0 {
        Step::CollectFieldName(0)
    } else {
        Step::Review
    }
}

/// The step after the type of the field `index` was accepted, out of `count` fields.
pub open spec fn step_after_field_type(index: usize, count: nat) -> Step {
    if index + 1 < count {
        Step::CollectFieldName((index + 1) as usize)
    } else {
        Step::Review
    }
}

/// The statement shown for a schema under review: the statement of its
/// request, or nothing where the schema cannot be compiled.
pub open spec fn review_statement(schema: SchemaSpec) -> Seq<char> {
    match compile_spec(schema) {
        Ok(request) => statement_text(request),
        Err(_) => Seq::empty(),
    }
}

/// The error indicator for a schema under review.
pub open spec fn review_notice(schema: SchemaSpec) -> Option<NoticeSpec> {
    match compile_spec(schema) {
        Ok(_) => None,
        Err(e) => Some(NoticeSpec::Schema(e)),
    }
}

/// Preparing the statement: under review, the statement and the error
/// indicator are set from the schema; at any other step nothing changes.
pub open spec fn after_prepare_sql(v: AppSpec) -> AppSpec {
    if in_step(v, Step::Review) {
        AppSpec {
            sql_statement: review_statement(v.observation),
            notice: review_notice(v.observation),
            ..v
        }
    } else {
        v
    }
}

/// Moving on to a step: the input and the error indicator are cleared, and
/// on reaching the review the statement is prepared.
pub open spec fn entering(v: AppSpec, step: Step) -> AppSpec {
    after_prepare_sql(AppSpec { step, input: Seq::empty(), notice: None, ..v })
}

/// Staying at the step with an error shown.
pub open spec fn refused(v: AppSpec, e: InputError) -> AppSpec {
    AppSpec { notice: Some(NoticeSpec::Input(e)), ..v }
}

/// Confirming the name of the observation.
pub open spec fn after_add_name(v: AppSpec) -> AppSpec {
    if !in_step(v, Step::CollectName) {
        v
    } else if v.input.len() == 0 {
        refused(v, InputError::EmptyName)
    } else {
        entering(
            AppSpec {
                observation: SchemaSpec { name: v.input, fields: v.observation.fields },
                ..v
            },
            Step::CollectDateFlag,
        )
    }
}

/// Answering yes to the date question: the date field becomes the first field.
pub open spec fn after_add_date(v: AppSpec) -> AppSpec {
    if !in_step(v, Step::CollectDateFlag) {
        v
    } else {
        entering(
            AppSpec {
                observation: SchemaSpec {
                    name: v.observation.name,
                    fields: v.observation.fields.push(date_field_spec()),
                },
                date_tracked: true,
                ..v
            },
            Step::CollectFieldCount,
        )
    }
}

/// Answering no to the date question.
pub open spec fn after_skip_date(v: AppSpec) -> AppSpec {
    if !in_step(v, Step::CollectDateFlag) {
        v
    } else {
        entering(v, Step::CollectFieldCount)
    }
}

/// Confirming the field count. A text that is no decimal number below the
/// bound is refused, and the input is cleared for another try.
pub open spec fn after_add_amount(v: AppSpec) -> AppSpec {
    if !in_step(v, Step::CollectFieldCount) {
        v
    } else {
        match parse_decimal_spec(v.input, FIELD_COUNT_BOUND as nat) {
            Some(count) => entering(AppSpec { items: count, ..v }, step_after_count(count)),
            None => AppSpec { input: Seq::empty(), ..refused(v, InputError::InvalidCount) },
        }
    }
}

/// Confirming the name of a field.
pub open spec fn after_field_name(v: AppSpec) -> AppSpec {
    if v.state == AppState::NewObservation && v.step is CollectFieldName {
        if v.input.len() == 0 {
            refused(v, InputError::EmptyName)
        } else {
            entering(
                AppSpec { pending_name: v.input, ..v },
                Step::CollectFieldType(v.step->CollectFieldName_0),
            )
        }
    } else {
        v
    }
}

/// Giving the type of the field that was named last. The field joins the
/// schema behind the others.
pub open spec fn after_typed_field(v: AppSpec, field_type: FieldType) -> AppSpec {
    if v.state == AppState::NewObservation && v.step is CollectFieldType {
        entering(
            AppSpec {
                observation: SchemaSpec {
                    name: v.observation.name,
                    fields: v.observation.fields.push(
                        FieldSpec { name: v.pending_name, field_type },
                    ),
                },
                pending_name: Seq::empty(),
                ..v
            },
            step_after_field_type(v.step->CollectFieldType_0, v.items),
        )
    } else {
        v
    }
}

/// Declaring the type of a field, where a type is expected: a type is
/// accepted, no type is refused as unknown.
pub open spec fn after_declared_type(v: AppSpec, declared: Option<FieldType>) -> AppSpec {
    if v.state == AppState::NewObservation && v.step is CollectFieldType {
        match declared {
            Some(t) => after_typed_field(v, t),
            None => refused(v, InputError::UnknownType),
        }
    } else {
        v
    }
}

/// Giving the type of a field by its storage name.
pub open spec fn after_field_type(v: AppSpec, declared: Seq<char>) -> AppSpec {
    after_declared_type(v, from_storage_name_spec(declared))
}

/// Giving the type of a field by its selector in the menu.
pub open spec fn after_select_type(v: AppSpec, selector: nat) -> AppSpec {
    after_declared_type(v, type_for_spec(selector))
}

/// Confirming a field's name (no type given) or giving a field's type.
pub open spec fn after_append_input_vector(v: AppSpec, datatype: Option<Seq<char>>) -> AppSpec {
    match datatype {
        Some(declared) => after_field_type(v, declared),
        None => after_field_name(v),
    }
}

/// Confirming the review. A schema that compiles gives the request to
/// submit; any other gives its error and no request. The state is kept
/// either way: the wizard is committed only when the store has succeeded.
pub open spec fn after_send_sql(v: AppSpec) -> (AppSpec, ActionSpec) {
    if !in_step(v, Step::Review) {
        (v, ActionSpec::Continue)
    } else {
        match compile_spec(v.observation) {
            Ok(request) => (AppSpec { notice: None, ..v }, ActionSpec::Submit(request)),
            Err(e) => (AppSpec { notice: Some(NoticeSpec::Schema(e)), ..v }, ActionSpec::Continue),
        }
    }
}

/// The store reporting on the request that the review submitted: success
/// commits the wizard; a failure is shown and the state kept, so that the
/// review can be confirmed again.
pub open spec fn after_storage_completed(v: AppSpec, outcome: Result<(), Seq<char>>) -> AppSpec {
    if !in_step(v, Step::Review) {
        v
    } else {
        match outcome {
            Ok(_) => ended(Step::Committed),
            Err(message) => AppSpec { notice: Some(NoticeSpec::Storage(message)), ..v },
        }
    }
}

/// A confirmation, by the step at which it arrives.
pub open spec fn after_confirmation(v: AppSpec) -> (AppSpec, ActionSpec) {
    if v.state != AppState::NewObservation {
        (v, ActionSpec::Continue)
    } else {
        match v.step {
            Step::CollectName => (after_add_name(v), ActionSpec::Continue),
            Step::CollectDateFlag => (after_add_date(v), ActionSpec::Continue),
            Step::CollectFieldCount => (after_add_amount(v), ActionSpec::Continue),
            Step::CollectFieldName(_) => (after_field_name(v), ActionSpec::Continue),
            Step::Review => after_send_sql(v),
            _ => (v, ActionSpec::Continue),
        }
    }
}

/// The selector that a typed character stands for; 0, which is no selector,
/// for a character that is no digit.
pub open spec fn selector_of(c: char) -> nat {
    if is_digit(c) {
        digit_value(c)
    } else {
        0
    }
}

/// The input with its last character taken away, if it has one.
pub open spec fn without_last(input: Seq<char>) -> Seq<char> {
    if input.len() == 0 {
        input
    } else {
        input.drop_last()
    }
}

/// A character typed inside the wizard.
pub open spec fn after_character(v: AppSpec, c: char) -> AppSpec {
    if v.state != AppState::NewObservation {
        v
    } else if takes_text(v.step) {
        if c == ' ' {
            v
        } else {
            AppSpec { input: v.input.push(c), ..v }
        }
    } else if v.step is CollectDateFlag {
        if c == 'y' {
            after_add_date(v)
        } else if c == 'n' {
            after_skip_date(v)
        } else {
            v
        }
    } else if v.step is CollectFieldType {
        after_select_type(v, selector_of(c))
    } else {
        v
    }
}

/// An event in the main menu.
pub open spec fn after_menu_event(v: AppSpec, event: InputEvent) -> AppSpec {
    match event {
        InputEvent::Character(c) => if c == '1' {
            started()
        } else if c == '2' {
            AppSpec { state: AppState::AddObservation, ..fresh() }
        } else if c == 'q' {
            AppSpec { quit: true, ..v }
        } else {
            v
        },
        InputEvent::Cancel => AppSpec { quit: true, ..v },
        _ => v,
    }
}

/// An event in the screen that adds to an observation.
pub open spec fn after_append_event(v: AppSpec, event: InputEvent) -> AppSpec {
    match event {
        InputEvent::Character(c) => if c == 'q' {
            fresh()
        } else {
            v
        },
        InputEvent::Cancel => fresh(),
        _ => v,
    }
}

/// An event inside the wizard.
pub open spec fn after_wizard_event(v: AppSpec, event: InputEvent) -> (AppSpec, ActionSpec) {
    match event {
        InputEvent::Cancel => (ended(Step::Cancelled), ActionSpec::Continue),
        InputEvent::Confirm => after_confirmation(v),
        InputEvent::Backspace => if takes_text(v.step) {
            (AppSpec { input: without_last(v.input), ..v }, ActionSpec::Continue)
        } else {
            (v, ActionSpec::Continue)
        },
        InputEvent::Character(c) => (after_character(v, c), ActionSpec::Continue),
        InputEvent::Quit => (AppSpec { quit: true, ..v }, ActionSpec::Continue),
    }
}

/// What an event makes of a state, and what the caller has to do then.
pub open spec fn after_event(v: AppSpec, event: InputEvent) -> (AppSpec, ActionSpec) {
    if v.quit {
        (v, ActionSpec::Continue)
    } else if event is Quit {
        (AppSpec { quit: true, ..v }, ActionSpec::Continue)
    } else {
        match v.state {
            AppState::StartMenu => (after_menu_event(v, event), ActionSpec::Continue),
            AppState::AddObservation => (after_append_event(v, event), ActionSpec::Continue),
            AppState::NewObservation => after_wizard_event(v, event),
        }
    }
}

/// How many fields the schema holds at a step: the date field if it is
/// tracked, and one field for each field index that the wizard has left behind.
pub open spec fn fields_expected(v: AppSpec) -> nat {
    let dated: nat = if v.date_tracked {
        1
    } else {
        0
    };
    let done: nat = match v.step {
        Step::CollectFieldName(i) => i as nat,
        Step::CollectFieldType(i) => i as nat,
        Step::Review => v.items,
        _ => 0,
    };
    dated + done
}

/// Nothing is collected yet: no name, no field, no count, no statement.
pub open spec fn nothing_collected(v: AppSpec) -> bool {
    &&& v.observation.name.len() == 0
    &&& v.observation.fields.len() == 0
    &&& !v.date_tracked
    &&& v.items == 0
    &&& v.pending_name.len() == 0
    &&& v.sql_statement.len() == 0
}

/// Nothing is collected, typed or shown: the state differs from the fresh
/// one at most in where the application stands and in whether it has quit.
pub open spec fn is_blank(v: AppSpec) -> bool {
    &&& nothing_collected(v)
    &&& v.input.len() == 0
    &&& v.notice is None
}

/// What holds of every state that the application reaches: the schema holds
/// exactly the fields collected so far, never a part of one, and what does
/// not belong to the current step is empty.
pub open spec fn is_consistent(v: AppSpec) -> bool {
    &&& v.items < FIELD_COUNT_BOUND
    &&& v.observation.fields.len() == fields_expected(v)
    &&& v.date_tracked ==> v.observation.fields[0] == date_field_spec()
    &&& forall|i: int|
        0 <= i < v.observation.fields.len() ==> (#[trigger] v.observation.fields[i]).name.len() > 0
    &&& match v.step {
        Step::CollectName => nothing_collected(v),
        Step::CollectDateFlag => !v.date_tracked && v.items == 0,
        Step::CollectFieldCount => v.items == 0,
        Step::CollectFieldName(i) => i < v.items,
        Step::CollectFieldType(i) => i < v.items && v.pending_name.len() > 0,
        Step::Review => true,
        Step::Committed => is_blank(v),
        Step::Cancelled => is_blank(v),
    }
    &&& match v.state {
        AppState::NewObservation => !(v.step is Committed) && !(v.step is Cancelled) && (v.step
            is CollectName || v.observation.name.len() > 0),
        _ => is_blank(v) && (v.step is CollectName || v.step is Committed || v.step is Cancelled),
    }
    &&& !(v.step is CollectFieldType) ==> v.pending_name.len() == 0
    &&& !takes_text(v.step) ==> v.input.len() == 0
    &&& if v.step is Review {
        v.sql_statement == review_statement(v.observation)
    } else {
        v.sql_statement.len() == 0
    }
}

/// One field collected from beginning to end: its name typed and confirmed,
/// then its type given.
pub open spec fn after_field(v: AppSpec, field: FieldSpec) -> AppSpec {
    after_typed_field(after_field_name(AppSpec { input: field.name, ..v }), field.field_type)
}

/// Several fields collected one after the other.
pub open spec fn after_fields(v: AppSpec, fields: Seq<FieldSpec>) -> AppSpec
    decreases fields.len(),
{
    if fields.len() == 0 {
        v
    } else {
        after_field(after_fields(v, fields.drop_last()), fields.last())
    }
}

/// The fresh state and the state at the beginning of a wizard are consistent,
/// and so is the state after a wizard has ended.
pub proof fn lemma_fresh_is_consistent()
    ensures
        is_consistent(fresh()),
        is_consistent(started()),
        is_consistent(ended(Step::Committed)),
        is_consistent(ended(Step::Cancelled)),
{
}

/// Preparing the statement keeps a state consistent.
pub proof fn lemma_prepare_sql_keeps_consistency(v: AppSpec)
    requires
        is_consistent(v),
    ensures
        is_consistent(after_prepare_sql(v)),
{
}

/// Confirming the observation's name keeps a state consistent.
pub proof fn lemma_add_name_keeps_consistency(v: AppSpec)
    requires
        is_consistent(v),
    ensures
        is_consistent(after_add_name(v)),
{
}

/// Either answer to the date question keeps a state consistent.
pub proof fn lemma_date_answer_keeps_consistency(v: AppSpec)
    requires
        is_consistent(v),
    ensures
        is_consistent(after_add_date(v)),
        is_consistent(after_skip_date(v)),
{
    reveal_strlit("Date");
}

/// Confirming the field count keeps a state consistent.
pub proof fn lemma_add_amount_keeps_consistency(v: AppSpec)
    requires
        is_consistent(v),
    ensures
        is_consistent(after_add_amount(v)),
{
}

/// Confirming a field's name keeps a state consistent.
pub proof fn lemma_field_name_keeps_consistency(v: AppSpec)
    requires
        is_consistent(v),
    ensures
        is_consistent(after_field_name(v)),
{
}

/// Declaring a field's type keeps a state consistent.
pub proof fn lemma_declared_type_keeps_consistency(v: AppSpec, declared: Option<FieldType>)
    requires
        is_consistent(v),
    ensures
        is_consistent(after_declared_type(v, declared)),
{
}

/// Confirming the review, and the store's report on it, keep a state consistent.
pub proof fn lemma_review_keeps_consistency(v: AppSpec, outcome: Result<(), Seq<char>>)
    requires
        is_consistent(v),
    ensures
        is_consistent(after_send_sql(v).0),
        is_consistent(after_storage_completed(v, outcome)),
{
}

/// Every event keeps a state consistent: whatever the user does, the schema
/// never holds a part of a field, and no field index is collected twice.
pub proof fn lemma_event_keeps_consistency(v: AppSpec, event: InputEvent)
    requires
        is_consistent(v),
    ensures
        is_consistent(after_event(v, event).0),
{
    lemma_add_name_keeps_consistency(v);
    lemma_date_answer_keeps_consistency(v);
    lemma_add_amount_keeps_consistency(v);
    lemma_field_name_keeps_consistency(v);
    lemma_review_keeps_consistency(v, Ok(()));
    match event {
        InputEvent::Character(c) => {
            lemma_declared_type_keeps_consistency(v, type_for_spec(selector_of(c)));
        },
        _ => {},
    }
}

/// Every count below the bound can be typed: its decimal notation is
/// accepted as that count.
pub proof fn lemma_every_count_is_accepted(count: nat)
    requires
        count < FIELD_COUNT_BOUND,
    ensures
        parse_decimal_spec(decimal_digits(count), FIELD_COUNT_BOUND as nat) == Some(count),
{
    lemma_decimal_digits_denote(count);
}

/// The events that collect the fields are the steps of which
/// `lemma_each_field_is_collected_once` speaks: a confirmation at the field
/// count is the accepting of the count, a confirmation at a field's name is
/// the confirming of the name, and the digit of a type's selector, typed at a
/// field's type, is the giving of that type.
pub proof fn lemma_events_collect_the_fields(v: AppSpec, field_type: FieldType)
    requires
        v.state == AppState::NewObservation,
        !v.quit,
    ensures
        v.step is CollectFieldCount ==> after_event(v, InputEvent::Confirm) == (
            after_add_amount(v),
            ActionSpec::Continue,
        ),
        v.step is CollectFieldName ==> after_event(v, InputEvent::Confirm) == (
            after_field_name(v),
            ActionSpec::Continue,
        ),
        v.step is CollectFieldType ==> after_event(
            v,
            InputEvent::Character(digit_char(field_type.selector_spec())),
        ) == (after_typed_field(v, field_type), ActionSpec::Continue),
{
}

/// Where the wizard stands after a field count was accepted and some of the
/// announced fields were collected.
proof fn lemma_fields_collected(v: AppSpec, count: nat, given: Seq<FieldSpec>)
    requires
        is_consistent(v),
        in_step(v, Step::CollectFieldCount),
        parse_decimal_spec(v.input, FIELD_COUNT_BOUND as nat) == Some(count),
        given.len() <= count,
        forall|i: int| 0 <= i < given.len() ==> (#[trigger] given[i]).name.len() > 0,
    ensures
        ({
            let w = after_fields(after_add_amount(v), given);
            &&& is_consistent(w)
            &&& w.state == AppState::NewObservation
            &&& w.items == count
            &&& w.date_tracked == v.date_tracked
            &&& w.observation.name == v.observation.name
            &&& w.observation.fields == v.observation.fields + given
            &&& w.step == if given.len() == count {
                Step::Review
            } else {
                Step::CollectFieldName(given.len() as usize)
            }
        }),
    decreases given.len(),
{
    lemma_add_amount_keeps_consistency(v);
    if given.len() > 0 {
        let field = given.last();
        lemma_fields_collected(v, count, given.drop_last());
        let before = after_fields(after_add_amount(v), given.drop_last());
        let typed = AppSpec { input: field.name, ..before };
        lemma_field_name_keeps_consistency(typed);
        lemma_declared_type_keeps_consistency(after_field_name(typed), Some(field.field_type));
    }
}

/// After a field count `count` was accepted, the wizard asks for exactly
/// `count` fields, one after the other, and then stands at the review: for
/// every field given, it stands at that field's name step before the field,
/// at that field's type step once the name is confirmed, and at the next
/// field's name step, or at the review after the last field, once the type is
/// given. The schema then holds the fields that it held before, followed by
/// the fields given, in their order. The fields' names are not empty, since
/// an empty name is not accepted.
pub proof fn lemma_each_field_is_collected_once(v: AppSpec, count: nat, given: Seq<FieldSpec>)
    requires
        is_consistent(v),
        in_step(v, Step::CollectFieldCount),
        parse_decimal_spec(v.input, FIELD_COUNT_BOUND as nat) == Some(count),
        given.len() <= count,
        forall|i: int| 0 <= i < given.len() ==> (#[trigger] given[i]).name.len() > 0,
    ensures
        count < FIELD_COUNT_BOUND,
        forall|k: int|
            0 <= k < given.len() ==> {
                let before = after_fields(after_add_amount(v), #[trigger] given.take(k));
                &&& before.step == Step::CollectFieldName(k as usize)
                &&& after_field_name(AppSpec { input: given[k].name, ..before }).step
                    == Step::CollectFieldType(k as usize)
            },
        ({
            let w = after_fields(after_add_amount(v), given);
            &&& is_consistent(w)
            &&& w.items == count
            &&& w.observation.fields == v.observation.fields + given
            &&& w.step == if given.len() == count {
                Step::Review
            } else {
                Step::CollectFieldName(given.len() as usize)
            }
        }),
{
    lemma_fields_collected(v, count, given);
    assert forall|k: int| 0 <= k < given.len() implies {
        let before = after_fields(after_add_amount(v), #[trigger] given.take(k));
        &&& before.step == Step::CollectFieldName(k as usize)
        &&& after_field_name(AppSpec { input: given[k].name, ..before }).step
            == Step::CollectFieldType(k as usize)
    } by {
        lemma_fields_collected(v, count, given.take(k));
    }
}

/// Cancelling the wizard, at whatever step it stands, gives no request, and
/// leaves the application idle with nothing kept of what was collected.
pub proof fn lemma_cancel_submits_nothing(v: AppSpec)
    requires
        v.state == AppState::NewObservation,
    ensures
        after_event(v, InputEvent::Cancel).1 == ActionSpec::Continue,
        !v.quit ==> after_event(v, InputEvent::Cancel).0 == ended(Step::Cancelled),
        is_consistent(ended(Step::Cancelled)),
{
}

/// A request is submitted on one occasion only: the review is confirmed, and
/// the observation under review compiles to that request. No other event
/// and no other step gives a request.
pub proof fn lemma_submit_only_on_confirmed_review(v: AppSpec, event: InputEvent)
    ensures
        after_event(v, event).1 matches ActionSpec::Submit(request) ==> {
            &&& in_step(v, Step::Review)
            &&& event == InputEvent::Confirm
            &&& compile_spec(v.observation) == Ok::<RequestSpec, SchemaError>(request)
        },
{
}

/// An event changes the schema in one way at most: it leaves the schema as
/// it is, or sets its name and nothing else, or appends exactly one field and
/// nothing else, or discards the schema as a whole. It never sets the name
/// and appends a field at once, and never appends two fields.
pub proof fn lemma_event_changes_one_thing(v: AppSpec, event: InputEvent)
    ensures
        ({
            let before = v.observation;
            let after = after_event(v, event).0.observation;
            ||| after == before
            ||| after.fields == before.fields && in_step(v, Step::CollectName)
            ||| after.name == before.name && after.fields.len() == before.fields.len() + 1
                && after.fields.drop_last() == before.fields
            ||| after.name.len() == 0 && after.fields.len() == 0
        }),
{
}

} // verus!
