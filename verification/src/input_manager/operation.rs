//! The catalog of commands the editor understands.
use crate::text::{join, join_text};
use vstd::prelude::*;

verus! {

/// One command: the character that triggers it and what it does, in words.
#[derive(Debug, PartialEq, Eq)]
pub struct Operation {
    pub operation_char: char,
    pub description: String,
}

impl View for Operation {
    type V = (char, Seq<char>);

    open spec fn view(&self) -> (char, Seq<char>) {
        (self.operation_char, self.description@)
    }
}

impl DeepView for Operation {
    type V = (char, Seq<char>);

    open spec fn deep_view(&self) -> (char, Seq<char>) {
        self@
    }
}

impl Operation {
    /// The command triggered by `operation` and described by `description`.
    pub fn new(operation: char, description: &str) -> (entry: Self)
        ensures
            entry@ == (operation, description@),
    {
        Operation { operation_char: operation, description: description.to_owned() }
    }
}

/// The commands of the editor, in the order in which help shows them.
#[derive(Debug, PartialEq, Eq)]
pub struct Operations {
    pub operations: Vec<Operation>,
}

impl View for Operations {
    type V = Seq<(char, Seq<char>)>;

    open spec fn view(&self) -> Seq<(char, Seq<char>)> {
        self.operations.deep_view()
    }
}

/// The fixed catalog: create, update, delete, list, help and clear screen.
pub open spec fn catalog() -> Seq<(char, Seq<char>)> {
    seq![
        ('c', "create a new element"@),
        ('u', "update an element"@),
        ('d', "delete an element"@),
        ('l', "list all elements"@),
        ('h', "list help"@),
        ('x', "clear screen"@),
    ]
}

/// The help line of one command: its trigger in parentheses, a space, its
/// description.
pub open spec fn help_line(entry: (char, Seq<char>)) -> Seq<char> {
    "("@.push(entry.0) + ") "@ + entry.1
}

/// The help text of `entries`: one help line per command, in order, with a
/// line break between each two.
pub open spec fn help_text(entries: Seq<(char, Seq<char>)>) -> Seq<char> {
    join_text(entries.map_values(|entry: (char, Seq<char>)| help_line(entry)), "\n"@)
}

/// No two commands of the fixed catalog share a trigger character.
pub proof fn lemma_catalog_triggers_differ()
    ensures
        forall|i: int, j: int|
            0 <= i < j < catalog().len() ==> (#[trigger] catalog()[i]).0 != (#[trigger] catalog()[j]).0,
{
}

impl Operations {
    /// The fixed catalog.
    pub fn new() -> (ops: Self)
        ensures
            ops@ == catalog(),
    {
        let create = Operation::new('c', "create a new element");
        let update = Operation::new('u', "update an element");
        let delete = Operation::new('d', "delete an element");
        let list = Operation::new('l', "list all elements");
        let help = Operation::new('h', "list help");
        let clear = Operation::new('x', "clear screen");
        let mut operations: Vec<Operation> = Vec::new();
        operations.push(create);
        operations.push(update);
        operations.push(delete);
        operations.push(list);
        operations.push(help);
        operations.push(clear);
        Operations { operations }
    }

    /// The help text of these commands.
    pub fn list_operations(&self) -> (text: String)
        ensures
            text@ == help_text(self@),
    {
        let ghost lines_wanted = self@.map_values(|entry: (char, Seq<char>)| help_line(entry));
        let mut lines: Vec<String> = Vec::new();
        let mut i: usize = 0;
        while i < self.operations.len()
            invariant
                i <= self.operations.len(),
                lines_wanted == self@.map_values(|entry: (char, Seq<char>)| help_line(entry)),
                lines.deep_view() == lines_wanted.take(i as int),
            decreases self.operations.len() - i,
        {
            let operation = &self.operations[i];
            let mut line = String::from_str("(");
            line.push(operation.operation_char);
            line.append(") ");
            line.append(operation.description.as_str());
            let ghost before = lines.deep_view();
            lines.push(line);
            assert(lines.deep_view() =~= before.push(line@));
            i += 1;
        }
        assert(lines_wanted.take(i as int) == lines_wanted);
        join(&lines, "\n")
    }
}

/// Help shows the commands one per line, in their order: a further command
/// at the end adds a line break and its own help line behind the others.
pub proof fn lemma_help_text_grows(entries: Seq<(char, Seq<char>)>, entry: (char, Seq<char>))
    ensures
        help_text(entries.push(entry)) == if entries.len() == 0 {
            help_line(entry)
        } else {
            help_text(entries) + "\n"@ + help_line(entry)
        },
{
    let lines = entries.map_values(|e: (char, Seq<char>)| help_line(e));
    let longer = entries.push(entry).map_values(|e: (char, Seq<char>)| help_line(e));
    assert(longer.drop_last() == lines);
    assert(longer.last() == help_line(entry));
}

/// The help text of the fixed catalog: the six commands, one per line, in
/// the order create, update, delete, list, help, clear screen.
pub proof fn lemma_catalog_help_text()
    ensures
        help_text(catalog()) == help_line(catalog()[0]) + "\n"@ + help_line(catalog()[1]) + "\n"@
            + help_line(catalog()[2]) + "\n"@ + help_line(catalog()[3]) + "\n"@ + help_line(
            catalog()[4],
        ) + "\n"@ + help_line(catalog()[5]),
{
    let all = catalog();
    assert(all.take(1) == Seq::<(char, Seq<char>)>::empty().push(all[0]));
    assert(all.take(2) == all.take(1).push(all[1]));
    assert(all.take(3) == all.take(2).push(all[2]));
    assert(all.take(4) == all.take(3).push(all[3]));
    assert(all.take(5) == all.take(4).push(all[4]));
    assert(all == all.take(5).push(all[5]));
    lemma_help_text_grows(Seq::empty(), all[0]);
    lemma_help_text_grows(all.take(1), all[1]);
    lemma_help_text_grows(all.take(2), all[2]);
    lemma_help_text_grows(all.take(3), all[3]);
    lemma_help_text_grows(all.take(4), all[4]);
    lemma_help_text_grows(all.take(5), all[5]);
}

} // verus!
