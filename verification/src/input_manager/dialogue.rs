//! The dialogue between user and editor, as mathematics: what each line of
//! input does to the state and what the editor answers.
use super::operation::{catalog, help_line, help_text, lemma_catalog_help_text};
use super::{EffectView, LogLevel, Pending, State};
use crate::text::{decimal_text, index_of, join_text, single_char_of};
use vstd::prelude::*;

verus! {

/// The message `text` at level `level`.
pub open spec fn log(level: LogLevel, text: Seq<char>) -> EffectView {
    EffectView::Log { level, text }
}

/// The state that holds `elements` and awaits a command.
pub open spec fn idle(elements: Seq<Seq<char>>) -> State {
    State { elements, pending: Pending::Command }
}

/// The state that holds `elements` and awaits `pending`.
pub open spec fn awaiting(elements: Seq<Seq<char>>, pending: Pending) -> State {
    State { elements, pending }
}

/// The complaint about a command line that is not one character.
pub open spec fn invalid_input_text() -> Seq<char> {
    "Invalid input. Please enter a single character."@
}

/// The complaint about the unknown command `c`.
pub open spec fn not_found_text(c: char) -> Seq<char> {
    "operation \""@.push(c) + "\" not found. Type 'h' to see available options."@
}

/// The complaint about the index `index` where `bound` is the highest valid
/// one.
pub open spec fn out_of_bounds_text(index: nat, bound: nat) -> Seq<char> {
    "Given index "@ + decimal_text(index) + " is outside of bounds ("@ + decimal_text(bound)
        + ")"@
}

/// The message that shows `elements`: all of them on one line, separated by
/// a comma and a space, in quotation marks.
pub open spec fn listing_text(elements: Seq<Seq<char>>) -> Seq<char> {
    "current elements:\n\""@ + join_text(elements, ", "@) + "\""@
}

/// The message that shows the fixed catalog of commands.
pub open spec fn help_message_text() -> Seq<char> {
    "Should be one of \n"@ + help_text(catalog())
}

/// What listing `elements` shows: the elements, or that there are none.
pub open spec fn listing(elements: Seq<Seq<char>>) -> Seq<EffectView> {
    if elements.len() == 0 {
        seq![log(LogLevel::Info, "The list is currently empty."@)]
    } else {
        seq![log(LogLevel::Info, listing_text(elements))]
    }
}

/// The command `c` starts a creation: the editor asks for the new element.
pub open spec fn create_asked(elements: Seq<Seq<char>>) -> (State, Seq<EffectView>) {
    (awaiting(elements, Pending::NewElement), seq![log(LogLevel::Info, "create new element"@)])
}

/// The line `input` arrives as the new element: it goes to the end.
pub open spec fn created(elements: Seq<Seq<char>>, input: Seq<char>) -> (State, Seq<EffectView>) {
    (idle(elements.push(input)), seq![log(LogLevel::Success, "Created sucessfully!"@)])
}

/// The command `d` starts a deletion: with no elements the editor says so
/// and asks nothing; otherwise it shows the elements and awaits an index.
pub open spec fn delete_asked(elements: Seq<Seq<char>>) -> (State, Seq<EffectView>) {
    if elements.len() == 0 {
        (idle(elements), seq![log(LogLevel::Info, "No elements to delete"@)])
    } else {
        (
            awaiting(elements, Pending::DeleteIndex),
            seq![log(LogLevel::Info, "delete an element at given index"@)] + listing(elements),
        )
    }
}

/// The command `u` starts an update: with no elements the editor says so and
/// asks nothing; otherwise it shows the elements and awaits an index.
pub open spec fn update_asked(elements: Seq<Seq<char>>) -> (State, Seq<EffectView>) {
    if elements.len() == 0 {
        (idle(elements), seq![log(LogLevel::Info, "No elements to update"@)])
    } else {
        (
            awaiting(elements, Pending::UpdateIndex),
            seq![log(LogLevel::Info, "update an element at given index"@)] + listing(elements),
        )
    }
}

/// What reading an index from `input` answers: a complaint if it writes
/// none.
pub open spec fn index_refusal(input: Seq<char>) -> Seq<EffectView> {
    if index_of(input) is None {
        seq![log(LogLevel::Error, "not an integer"@)]
    } else {
        Seq::empty()
    }
}

/// Whether `index` is at most the highest valid index of the non-empty
/// `elements`.
pub open spec fn in_bounds(elements: Seq<Seq<char>>, index: usize) -> bool {
    index <= elements.len() - 1
}

/// What checking `index` against the non-empty `elements` answers: a
/// complaint that names the index and the highest valid one, if it is beyond.
pub open spec fn bounds_refusal(elements: Seq<Seq<char>>, index: usize) -> Seq<EffectView> {
    if in_bounds(elements, index) {
        Seq::empty()
    } else {
        seq![
            log(
                LogLevel::Error,
                out_of_bounds_text(index as nat, (elements.len() - 1) as nat),
            ),
        ]
    }
}

/// The index that `input` picks among `elements`, if it writes one and that
/// one is in bounds.
pub open spec fn picked(elements: Seq<Seq<char>>, input: Seq<char>) -> Option<usize> {
    match index_of(input) {
        Some(index) => if in_bounds(elements, index) {
            Some(index)
        } else {
            None
        },
        None => None,
    }
}

/// What the editor answers to `input` as an index into the non-empty
/// `elements`: nothing if it picks one of them, else the complaint.
pub open spec fn refusal(elements: Seq<Seq<char>>, input: Seq<char>) -> Seq<EffectView> {
    match index_of(input) {
        Some(index) => bounds_refusal(elements, index),
        None => index_refusal(input),
    }
}

/// The line `input` arrives as the index to delete at: the element it picks
/// leaves, without a word; if it picks none the editor complains and nothing
/// changes.
pub open spec fn deleted(elements: Seq<Seq<char>>, input: Seq<char>) -> (State, Seq<EffectView>) {
    match picked(elements, input) {
        Some(index) => (idle(elements.remove(index as int)), Seq::empty()),
        None => (idle(elements), refusal(elements, input)),
    }
}

/// The line `input` arrives as the index to update at: the editor asks for
/// the new text of the element it picks; if it picks none the update is over.
pub open spec fn update_picked(elements: Seq<Seq<char>>, input: Seq<char>) -> (
    State,
    Seq<EffectView>,
) {
    match picked(elements, input) {
        Some(index) => (
            awaiting(elements, Pending::UpdateValue { index }),
            seq![log(LogLevel::Info, "Enter new value:"@)],
        ),
        None => (idle(elements), refusal(elements, input)),
    }
}

/// The line `input` arrives as the new text of the element at `index`.
pub open spec fn updated(elements: Seq<Seq<char>>, index: usize, input: Seq<char>) -> (
    State,
    Seq<EffectView>,
) {
    (idle(elements.update(index as int, input)), seq![log(LogLevel::Success, "Value Updated!"@)])
}

/// What the command `c` does while the editor holds `elements`.
pub open spec fn commanded(elements: Seq<Seq<char>>, c: char) -> (State, Seq<EffectView>) {
    match c {
        'c' => create_asked(elements),
        'd' => delete_asked(elements),
        'u' => update_asked(elements),
        'l' => (idle(elements), listing(elements)),
        'h' => (idle(elements), seq![log(LogLevel::Info, help_message_text())]),
        'x' => (idle(elements), seq![EffectView::ClearScreen]),
        _ => (idle(elements), seq![log(LogLevel::Error, not_found_text(c))]),
    }
}

/// The line `input` arrives as a command: it must be exactly one character.
pub open spec fn command_read(elements: Seq<Seq<char>>, input: Seq<char>) -> (
    State,
    Seq<EffectView>,
) {
    match single_char_of(input) {
        Some(c) => commanded(elements, c),
        None => (idle(elements), seq![log(LogLevel::Error, invalid_input_text())]),
    }
}

/// One step of the dialogue: the state after the line `input`, already
/// trimmed, arrives in state `state`, and what the editor answers.
pub open spec fn step(state: State, input: Seq<char>) -> (State, Seq<EffectView>) {
    match state.pending {
        Pending::Command => command_read(state.elements, input),
        Pending::NewElement => created(state.elements, input),
        Pending::DeleteIndex => deleted(state.elements, input),
        Pending::UpdateIndex => update_picked(state.elements, input),
        Pending::UpdateValue { index } => updated(state.elements, index, input),
    }
}

/// The state after the lines `lines`, each already trimmed, have arrived one
/// after the other in state `state`.
pub open spec fn run(state: State, lines: Seq<Seq<char>>) -> State
    decreases lines.len(),
{
    if lines.len() == 0 {
        state
    } else {
        run(step(state, lines.first()).0, lines.drop_first())
    }
}

/// The lines that create the elements `values` one after the other: for each
/// of them the command `c`, then its text.
pub open spec fn creation_lines(values: Seq<Seq<char>>) -> Seq<Seq<char>>
    decreases values.len(),
{
    if values.len() == 0 {
        Seq::empty()
    } else {
        seq![seq!['c'], values.first()] + creation_lines(values.drop_first())
    }
}

/// Creating elements one after the other appends them in the order given:
/// every creation makes the list one longer, and what was there stays where
/// it was.
pub proof fn lemma_creations_append(elements: Seq<Seq<char>>, values: Seq<Seq<char>>)
    ensures
        run(idle(elements), creation_lines(values)) == idle(elements + values),
        (elements + values).len() == elements.len() + values.len(),
    decreases values.len(),
{
    if values.len() > 0 {
        let lines = creation_lines(values);
        let rest = creation_lines(values.drop_first());
        let asked = awaiting(elements, Pending::NewElement);
        let longer = idle(elements.push(values.first()));
        assert(lines.drop_first().drop_first() == rest);
        assert(run(idle(elements), lines) == run(asked, lines.drop_first()));
        assert(run(asked, lines.drop_first()) == run(longer, rest));
        lemma_creations_append(elements.push(values.first()), values.drop_first());
        assert(elements.push(values.first()) + values.drop_first() == elements + values);
    }
}

/// Deleting at a valid index removes exactly the element there: the list
/// gets one shorter, the elements before the index stay, and those behind it
/// move down by one. The editor says nothing and awaits a command again.
pub proof fn lemma_delete_removes_one(elements: Seq<Seq<char>>, input: Seq<char>, index: usize)
    requires
        index_of(input) == Some(index),
        index < elements.len(),
    ensures
        step(awaiting(elements, Pending::DeleteIndex), input) == (
            idle(elements.remove(index as int)),
            Seq::<EffectView>::empty(),
        ),
        elements.remove(index as int).len() == elements.len() - 1,
        forall|i: int| 0 <= i < index ==> elements.remove(index as int)[i] == elements[i],
        forall|i: int|
            index <= i < elements.len() - 1 ==> elements.remove(index as int)[i] == elements[i + 1],
{
}

/// Updating at a valid index replaces the element there and no other: the
/// editor asks for the new text, and once it has arrived the list is as long
/// as before, holds the new text at the index and the old elements
/// everywhere else.
pub proof fn lemma_update_replaces_one(
    elements: Seq<Seq<char>>,
    input: Seq<char>,
    index: usize,
    value: Seq<char>,
)
    requires
        index_of(input) == Some(index),
        index < elements.len(),
    ensures
        step(awaiting(elements, Pending::UpdateIndex), input) == (
            awaiting(elements, Pending::UpdateValue { index }),
            seq![log(LogLevel::Info, "Enter new value:"@)],
        ),
        step(awaiting(elements, Pending::UpdateValue { index }), value) == (
            idle(elements.update(index as int, value)),
            seq![log(LogLevel::Success, "Value Updated!"@)],
        ),
        elements.update(index as int, value).len() == elements.len(),
        elements.update(index as int, value)[index as int] == value,
        forall|i: int|
            0 <= i < elements.len() && i != index ==> elements.update(index as int, value)[i]
                == elements[i],
{
}

/// Deleting from an empty list changes nothing and asks for no index: the
/// editor says that there is nothing to delete and awaits a command again,
/// so whatever line comes next, the list is still empty after it.
pub proof fn lemma_delete_on_empty(next: Seq<char>)
    ensures
        step(idle(Seq::empty()), seq!['d']) == (
            idle(Seq::empty()),
            seq![log(LogLevel::Info, "No elements to delete"@)],
        ),
        run(idle(Seq::empty()), seq![seq!['d'], next]).elements == Seq::<Seq<char>>::empty(),
{
    let lines = seq![seq!['d'], next];
    let empty = idle(Seq::empty());
    let after = step(empty, next).0;
    assert(run(empty, lines) == run(empty, lines.drop_first()));
    assert(run(empty, lines.drop_first()) == run(after, lines.drop_first().drop_first()));
}

/// Updating in an empty list changes nothing and asks for no index: the
/// editor says that there is nothing to update and awaits a command again,
/// so whatever line comes next, the list is still empty after it.
pub proof fn lemma_update_on_empty(next: Seq<char>)
    ensures
        step(idle(Seq::empty()), seq!['u']) == (
            idle(Seq::empty()),
            seq![log(LogLevel::Info, "No elements to update"@)],
        ),
        run(idle(Seq::empty()), seq![seq!['u'], next]).elements == Seq::<Seq<char>>::empty(),
{
    let lines = seq![seq!['u'], next];
    let empty = idle(Seq::empty());
    let after = step(empty, next).0;
    assert(run(empty, lines) == run(empty, lines.drop_first()));
    assert(run(empty, lines.drop_first()) == run(after, lines.drop_first().drop_first()));
}

/// An index beyond the last element changes nothing, for a deletion and for
/// an update alike: the editor complains, naming that index and the highest
/// valid one, and awaits a command again.
pub proof fn lemma_index_out_of_bounds(elements: Seq<Seq<char>>, input: Seq<char>, index: usize)
    requires
        elements.len() > 0,
        index_of(input) == Some(index),
        index > elements.len() - 1,
    ensures
        step(awaiting(elements, Pending::DeleteIndex), input) == (
            idle(elements),
            seq![
                log(
                    LogLevel::Error,
                    out_of_bounds_text(index as nat, (elements.len() - 1) as nat),
                ),
            ],
        ),
        step(awaiting(elements, Pending::UpdateIndex), input) == (
            idle(elements),
            seq![
                log(
                    LogLevel::Error,
                    out_of_bounds_text(index as nat, (elements.len() - 1) as nat),
                ),
            ],
        ),
{
}

/// A line that writes no index changes nothing, for a deletion and for an
/// update alike: the editor complains that it is no integer and awaits a
/// command again.
pub proof fn lemma_index_not_an_integer(elements: Seq<Seq<char>>, input: Seq<char>)
    requires
        index_of(input) is None,
    ensures
        step(awaiting(elements, Pending::DeleteIndex), input) == (
            idle(elements),
            seq![log(LogLevel::Error, "not an integer"@)],
        ),
        step(awaiting(elements, Pending::UpdateIndex), input) == (
            idle(elements),
            seq![log(LogLevel::Error, "not an integer"@)],
        ),
{
}

/// Every step keeps the state well formed.
pub proof fn lemma_step_keeps_well_formed(state: State, input: Seq<char>)
    requires
        state.well_formed(),
    ensures
        step(state, input).0.well_formed(),
{
}

/// The help command changes nothing and shows the whole catalog: every
/// command of it, one per line, in the catalog's order.
pub proof fn lemma_help_shows_catalog(elements: Seq<Seq<char>>)
    ensures
        step(idle(elements), seq!['h']) == (
            idle(elements),
            seq![log(LogLevel::Info, "Should be one of \n"@ + help_text(catalog()))],
        ),
        help_text(catalog()) == help_line(catalog()[0]) + "\n"@ + help_line(catalog()[1]) + "\n"@
            + help_line(catalog()[2]) + "\n"@ + help_line(catalog()[3]) + "\n"@ + help_line(
            catalog()[4],
        ) + "\n"@ + help_line(catalog()[5]),
{
    lemma_catalog_help_text();
}

/// A command line never changes the elements, whatever it says: only the
/// line that answers a creation, a deletion or an update does.
pub proof fn lemma_command_keeps_elements(elements: Seq<Seq<char>>, input: Seq<char>)
    ensures
        step(idle(elements), input).0.elements == elements,
{
}

} // verus!
