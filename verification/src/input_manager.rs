//! The editor's state and its reaction to each line of input.
//!
//! The editor never reads or prints. `InputManager::process_operation` takes
//! one line, changes the state and returns the `Effect`s that the caller is
//! to carry out before it reads the next line. A command that needs an
//! answer from the user is therefore split at each line it asks for:
//! `create_element`, `delete_element` and `update_element` start a command
//! and say what is awaited; `create_with`, `delete_at`, `update_at` and
//! `update_with` go on with the line that answers. What every line does is
//! defined once, as mathematics, in [`dialogue`]; the functions here are
//! proved to do exactly that.
use crate::paint::{
    blue, blue_of, bold, bold_of, green, green_of, hue_of, is_bold, red, red_of, shown,
    styled_of, text_of, Hue,
};
use crate::text::{
    index_of, join, parse_index, push_decimal, single_char, trimmed, trimmed_text,
};
use colored::ColoredString;
use dialogue::{
    bounds_refusal, command_read, create_asked, created, delete_asked, deleted,
    help_message_text, idle, in_bounds, index_refusal, listing, log, step, update_asked,
    update_picked, updated,
};
use operation::{catalog, Operations};
use vstd::prelude::*;

pub mod dialogue;
pub mod operation;

verus! {

/// How a message to the user is meant: as a success, as plain information or
/// as an error.
#[derive(Debug, Clone, Copy, PartialEq, Eq, Structural)]
pub enum LogLevel {
    Success,
    Info,
    Error,
}

impl LogLevel {
    /// The word that tags a message of this level.
    pub open spec fn tag(self) -> Seq<char> {
        match self {
            LogLevel::Success => "Success"@,
            LogLevel::Info => "Info"@,
            LogLevel::Error => "Error"@,
        }
    }

    /// The colour of this level: green for a success, blue for information,
    /// red for an error.
    pub open spec fn hue(self) -> Hue {
        match self {
            LogLevel::Success => Hue::Green,
            LogLevel::Info => Hue::Blue,
            LogLevel::Error => Hue::Red,
        }
    }

    /// The styled form of `text` at this level: bold, and in the level's
    /// colour.
    pub open spec fn painted(self, text: Seq<char>) -> ColoredString {
        match self {
            LogLevel::Success => green_of(bold_of(text)),
            LogLevel::Info => blue_of(bold_of(text)),
            LogLevel::Error => red_of(bold_of(text)),
        }
    }

    /// The line that shows a message of this level, where `shown` is the
    /// message as the terminal is to receive it: the tag in square brackets,
    /// a space, the message.
    pub open spec fn line(self, shown: Seq<char>) -> Seq<char> {
        "["@ + self.tag() + "] "@ + shown
    }

    /// Styles `message` for this level: the result holds the message, is
    /// bold and has the level's colour.
    pub fn to_color(&self, message: &str) -> (painted: ColoredString)
        ensures
            painted == self.painted(message@),
            text_of(painted) == message@,
            is_bold(painted),
            hue_of(painted) == Some(self.hue()),
    {
        match self {
            LogLevel::Success => green(bold(message)),
            LogLevel::Info => blue(bold(message)),
            LogLevel::Error => red(bold(message)),
        }
    }

    /// The word that tags a message of this level.
    pub fn to_string(&self) -> (tag: String)
        ensures
            tag@ == self.tag(),
    {
        match self {
            LogLevel::Success => String::from_str("Success"),
            LogLevel::Info => String::from_str("Info"),
            LogLevel::Error => String::from_str("Error"),
        }
    }

    /// Puts this level's tag in front of `shown`, a message that is already
    /// in the form the terminal is to receive.
    pub fn tag_line(&self, shown: &str) -> (line: String)
        ensures
            line@ == self.line(shown@),
    {
        let mut line = String::from_str("[");
        line.append(self.to_string().as_str());
        line.append("] ");
        line.append(shown);
        line
    }

    /// The line to print for `message` at this level: the tag, then the
    /// message, either as it is or styled with escape sequences, as the
    /// terminal and the environment allow.
    pub fn prompt_line(&self, message: &str) -> (line: String)
        ensures
            line@ == self.line(message@) || line@ == self.line(styled_of(message@, self.hue())),
    {
        let painted = self.to_color(message);
        let styled = shown(&painted);
        self.tag_line(styled.as_str())
    }
}

/// Something the caller is to do for the editor, in the order given.
#[derive(Debug, PartialEq, Eq)]
pub enum Effect {
    /// Print `text` as a message of level `level`.
    Log { level: LogLevel, text: String },
    /// Clear the terminal.
    ClearScreen,
}

/// An `Effect` with its text as a sequence of characters.
pub enum EffectView {
    Log { level: LogLevel, text: Seq<char> },
    ClearScreen,
}

impl View for Effect {
    type V = EffectView;

    open spec fn view(&self) -> EffectView {
        match self {
            Effect::Log { level, text } => EffectView::Log { level: *level, text: text@ },
            Effect::ClearScreen => EffectView::ClearScreen,
        }
    }
}

impl DeepView for Effect {
    type V = EffectView;

    open spec fn deep_view(&self) -> EffectView {
        self@
    }
}

/// What the editor takes the next line of input to be.
#[derive(Debug, Clone, Copy, PartialEq, Eq, Structural)]
pub enum Pending {
    /// A command.
    Command,
    /// The text of the element that is being created.
    NewElement,
    /// The index of the element to delete.
    DeleteIndex,
    /// The index of the element to update.
    UpdateIndex,
    /// The new text of the element at `index`.
    UpdateValue { index: usize },
}

/// The editor as the contracts see it: the elements in order, and what the
/// next line of input is taken to be.
pub struct State {
    pub elements: Seq<Seq<char>>,
    pub pending: Pending,
}

impl State {
    /// Whether the awaited input makes sense for the elements: an index is
    /// awaited only while there are elements, and a new text only for an
    /// element that exists.
    pub open spec fn well_formed(self) -> bool {
        match self.pending {
            Pending::Command | Pending::NewElement => true,
            Pending::DeleteIndex | Pending::UpdateIndex => self.elements.len() > 0,
            Pending::UpdateValue { index } => index < self.elements.len(),
        }
    }
}


/// The list editor: its elements, its catalog of commands, and what it takes
/// the next line of input to be.
pub struct InputManager {
    inputs: Vec<String>,
    viable_operations: Operations,
    pending: Pending,
}

impl View for InputManager {
    type V = State;

    closed spec fn view(&self) -> State {
        State { elements: self.inputs.deep_view(), pending: self.pending }
    }
}

/// Adds `effect` to `out`.
fn emit(out: &mut Vec<Effect>, effect: Effect)
    ensures
        final(out).deep_view() == old(out).deep_view().push(effect@),
{
    out.push(effect);
}

/// Adds to `out` the message `message` at level `level`.
pub fn prompt_output(out: &mut Vec<Effect>, level: LogLevel, message: String)
    ensures
        final(out).deep_view() == old(out).deep_view().push(log(level, message@)),
{
    emit(out, Effect::Log { level, text: message });
}

impl InputManager {
    /// Whether the editor still holds the fixed catalog of commands.
    pub closed spec fn holds_catalog(&self) -> bool {
        self.viable_operations@ == catalog()
    }

    /// The invariant of the editor: it holds the fixed catalog, and the input
    /// it awaits makes sense for its elements.
    pub open spec fn inv(&self) -> bool {
        self.holds_catalog() && self@.well_formed()
    }

    /// An editor without elements that awaits a command.
    pub fn new() -> (manager: Self)
        ensures
            manager.inv(),
            manager@ == idle(Seq::empty()),
    {
        let manager = InputManager {
            inputs: Vec::new(),
            viable_operations: Operations::new(),
            pending: Pending::Command,
        };
        assert(manager@.elements =~= Seq::empty());
        manager
    }

    /// The elements, in order.
    pub fn elements(&self) -> (elements: &Vec<String>)
        ensures
            elements.deep_view() == self@.elements,
    {
        &self.inputs
    }

    /// What the next line of input is taken to be.
    pub fn pending(&self) -> (pending: Pending)
        ensures
            pending == self@.pending,
    {
        self.pending
    }

    /// What to show the user before reading a line.
    pub fn prompt(&self) -> (text: &'static str)
        ensures
            text@ == "> "@,
    {
        "> "
    }

    /// Reads `input` as an index; complains to `out` if it writes none.
    pub fn read_index(&self, input: &str, out: &mut Vec<Effect>) -> (index: Option<usize>)
        ensures
            index == index_of(input@),
            final(out).deep_view() == old(out).deep_view() + index_refusal(input@),
    {
        let index = parse_index(input);
        if index.is_none() {
            prompt_output(out, LogLevel::Error, String::from_str("not an integer"));
        }
        index
    }

    /// Whether `index` is at most the highest valid index; complains to `out`
    /// if it is beyond, naming both. The editor must hold an element.
    pub fn is_in_bounds(&self, index: usize, out: &mut Vec<Effect>) -> (is_in_bounds: bool)
        requires
            self@.elements.len() > 0,
        ensures
            is_in_bounds == in_bounds(self@.elements, index),
            final(out).deep_view() == old(out).deep_view() + bounds_refusal(self@.elements, index),
    {
        let bounds = self.inputs.len() - 1;
        let is_in_bounds = index <= bounds;
        if !is_in_bounds {
            let mut text = String::from_str("Given index ");
            push_decimal(&mut text, index);
            text.append(" is outside of bounds (");
            push_decimal(&mut text, bounds);
            text.append(")");
            prompt_output(out, LogLevel::Error, text);
        }
        is_in_bounds
    }

    /// Shows the elements: all on one line, or that there are none.
    pub fn list_elements(&self, out: &mut Vec<Effect>)
        ensures
            final(out).deep_view() == old(out).deep_view() + listing(self@.elements),
    {
        if self.inputs.is_empty() {
            prompt_output(out, LogLevel::Info, String::from_str("The list is currently empty."));
        } else {
            let inputs = join(&self.inputs, ", ");
            let mut text = String::from_str("current elements:\n\"");
            text.append(inputs.as_str());
            text.append("\"");
            prompt_output(out, LogLevel::Info, text);
        }
    }

    /// Shows the catalog of commands, one per line.
    pub fn print_help(&self, out: &mut Vec<Effect>)
        requires
            self.inv(),
        ensures
            final(out).deep_view() == old(out).deep_view().push(
                log(LogLevel::Info, help_message_text()),
            ),
    {
        let operations = self.viable_operations.list_operations();
        let mut text = String::from_str("Should be one of \n");
        text.append(operations.as_str());
        prompt_output(out, LogLevel::Info, text);
    }

    /// Asks the caller to clear the terminal.
    pub fn clear_screen(&self, out: &mut Vec<Effect>)
        ensures
            final(out).deep_view() == old(out).deep_view().push(EffectView::ClearScreen),
    {
        emit(out, Effect::ClearScreen);
    }

    /// Starts a creation: asks for the new element and awaits it.
    pub fn create_element(&mut self, out: &mut Vec<Effect>)
        requires
            old(self).inv(),
        ensures
            final(self).inv(),
            final(self)@ == create_asked(old(self)@.elements).0,
            final(out).deep_view() == old(out).deep_view() + create_asked(old(self)@.elements).1,
    {
        prompt_output(out, LogLevel::Info, String::from_str("create new element"));
        self.pending = Pending::NewElement;
    }

    /// Completes a creation: `value` becomes the last element.
    pub fn create_with(&mut self, value: &str, out: &mut Vec<Effect>)
        requires
            old(self).inv(),
        ensures
            final(self).inv(),
            final(self)@ == created(old(self)@.elements, value@).0,
            final(out).deep_view() == old(out).deep_view() + created(
                old(self)@.elements,
                value@,
            ).1,
    {
        self.pending = Pending::Command;
        self.inputs.push(value.to_owned());
        prompt_output(out, LogLevel::Success, String::from_str("Created sucessfully!"));
        assert(self@.elements =~= old(self)@.elements.push(value@));
    }

    /// Starts a deletion. Without elements it says so and asks nothing;
    /// otherwise it shows the elements and awaits an index.
    pub fn delete_element(&mut self, out: &mut Vec<Effect>)
        requires
            old(self).inv(),
        ensures
            final(self).inv(),
            final(self)@ == delete_asked(old(self)@.elements).0,
            final(out).deep_view() == old(out).deep_view() + delete_asked(old(self)@.elements).1,
    {
        if self.inputs.is_empty() {
            self.pending = Pending::Command;
            prompt_output(out, LogLevel::Info, String::from_str("No elements to delete"));
        } else {
            self.pending = Pending::DeleteIndex;
            prompt_output(
                out,
                LogLevel::Info,
                String::from_str("delete an element at given index"),
            );
            self.list_elements(out);
        }
    }

    /// Completes a deletion with `input`, the line read for the index. The
    /// element that it picks leaves; if it picks none the editor complains
    /// and nothing changes. The editor must hold an element.
    pub fn delete_at(&mut self, input: &str, out: &mut Vec<Effect>)
        requires
            old(self).inv(),
            old(self)@.elements.len() > 0,
        ensures
            final(self).inv(),
            final(self)@ == deleted(old(self)@.elements, input@).0,
            final(out).deep_view() == old(out).deep_view() + deleted(
                old(self)@.elements,
                input@,
            ).1,
    {
        self.pending = Pending::Command;
        let element_index = self.read_index(input, out);
        if let Some(index) = element_index {
            if self.is_in_bounds(index, out) {
                self.inputs.remove(index);
                assert(self@.elements =~= old(self)@.elements.remove(index as int));
            }
        }
    }

    /// Starts an update. Without elements it says so and asks nothing;
    /// otherwise it shows the elements and awaits an index.
    pub fn update_element(&mut self, out: &mut Vec<Effect>)
        requires
            old(self).inv(),
        ensures
            final(self).inv(),
            final(self)@ == update_asked(old(self)@.elements).0,
            final(out).deep_view() == old(out).deep_view() + update_asked(old(self)@.elements).1,
    {
        if self.inputs.is_empty() {
            self.pending = Pending::Command;
            prompt_output(out, LogLevel::Info, String::from_str("No elements to update"));
        } else {
            self.pending = Pending::UpdateIndex;
            prompt_output(
                out,
                LogLevel::Info,
                String::from_str("update an element at given index"),
            );
            self.list_elements(out);
        }
    }

    /// Goes on with an update with `input`, the line read for the index. For
    /// the element that it picks the editor asks for the new text and awaits
    /// it; if it picks none the editor complains and the update is over. The
    /// editor must hold an element.
    pub fn update_at(&mut self, input: &str, out: &mut Vec<Effect>)
        requires
            old(self).inv(),
            old(self)@.elements.len() > 0,
        ensures
            final(self).inv(),
            final(self)@ == update_picked(old(self)@.elements, input@).0,
            final(out).deep_view() == old(out).deep_view() + update_picked(
                old(self)@.elements,
                input@,
            ).1,
    {
        self.pending = Pending::Command;
        let element_index = self.read_index(input, out);
        if let Some(index) = element_index {
            if self.is_in_bounds(index, out) {
                prompt_output(out, LogLevel::Info, String::from_str("Enter new value:"));
                self.pending = Pending::UpdateValue { index };
            }
        }
    }

    /// Completes an update: `value` replaces the element at `index`, which
    /// must exist.
    pub fn update_with(&mut self, index: usize, value: &str, out: &mut Vec<Effect>)
        requires
            old(self).inv(),
            index < old(self)@.elements.len(),
        ensures
            final(self).inv(),
            final(self)@ == updated(old(self)@.elements, index, value@).0,
            final(out).deep_view() == old(out).deep_view() + updated(
                old(self)@.elements,
                index,
                value@,
            ).1,
    {
        self.pending = Pending::Command;
        self.inputs[index] = value.to_owned();
        prompt_output(out, LogLevel::Success, String::from_str("Value Updated!"));
        assert(self@.elements =~= old(self)@.elements.update(index as int, value@));
    }

    /// Runs the command that `input` names: exactly one character, and one
    /// of the catalog's triggers.
    pub fn run_command(&mut self, input: &str, out: &mut Vec<Effect>)
        requires
            old(self).inv(),
        ensures
            final(self).inv(),
            final(self)@ == command_read(old(self)@.elements, input@).0,
            final(out).deep_view() == old(out).deep_view() + command_read(
                old(self)@.elements,
                input@,
            ).1,
    {
        self.pending = Pending::Command;
        match single_char(input) {
            Some(user_operation) => match user_operation {
                'c' => self.create_element(out),
                'd' => self.delete_element(out),
                'u' => self.update_element(out),
                'l' => self.list_elements(out),
                'h' => self.print_help(out),
                'x' => self.clear_screen(out),
                _ => {
                    let mut text = String::from_str("operation \"");
                    text.push(user_operation);
                    text.append("\" not found. Type 'h' to see available options.");
                    prompt_output(out, LogLevel::Error, text);
                },
            },
            None => {
                prompt_output(
                    out,
                    LogLevel::Error,
                    String::from_str("Invalid input. Please enter a single character."),
                );
            },
        }
    }

    /// Takes one line of input, already trimmed, as what the editor awaits,
    /// and returns what the caller is to do in answer, in order.
    pub fn process_input(&mut self, input: &str) -> (effects: Vec<Effect>)
        requires
            old(self).inv(),
        ensures
            final(self).inv(),
            final(self)@ == step(old(self)@, input@).0,
            effects.deep_view() == step(old(self)@, input@).1,
    {
        let mut out: Vec<Effect> = Vec::new();
        match self.pending {
            Pending::Command => self.run_command(input, &mut out),
            Pending::NewElement => self.create_with(input, &mut out),
            Pending::DeleteIndex => self.delete_at(input, &mut out),
            Pending::UpdateIndex => self.update_at(input, &mut out),
            Pending::UpdateValue { index } => self.update_with(index, input, &mut out),
        }
        out
    }

    /// Takes one line of input as it was read: trims it, takes it as what
    /// the editor awaits, and returns what the caller is to do in answer, in
    /// order.
    pub fn process_operation(&mut self, line: &str) -> (effects: Vec<Effect>)
        requires
            old(self).inv(),
        ensures
            final(self).inv(),
            final(self)@ == step(old(self)@, trimmed_text(line@)).0,
            effects.deep_view() == step(old(self)@, trimmed_text(line@)).1,
    {
        let input = trimmed(line);
        self.process_input(input.as_str())
    }
}

} // verus!
