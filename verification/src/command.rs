//! Administrative commands for the workload's console.
use vstd::prelude::*;
use crate::text::{
    debug_quoted, join2, lemma_without_line_breaks, quoted_text, strip_line_breaks,
    without_line_breaks, LINE_BREAK,
};

verus! {

/// A command written to the container's attached input stream.
#[derive(Debug, PartialEq, Eq)]
pub enum MCServerCommands {
    /// Grant operator rights to the named player.
    OP(String),
}

/// What a command is, with its text as a sequence of characters.
pub ghost enum CommandModel {
    OP(Seq<char>),
}

impl View for MCServerCommands {
    type V = CommandModel;

    open spec fn view(&self) -> CommandModel {
        match self {
            MCServerCommands::OP(name) => CommandModel::OP(name@),
        }
    }
}

impl CommandModel {
    /// The line the console reads: the command's word, the name without any
    /// line break it may hold, and the one line break that ends the line.
    pub open spec fn wire_text(self) -> Seq<char> {
        match self {
            CommandModel::OP(name) => "/op "@ + without_line_breaks(name) + "\n"@,
        }
    }

    /// How a command reads in a diagnostic: the variant's name and its
    /// argument, quoted.
    pub open spec fn diagnostic_text(self) -> Seq<char> {
        match self {
            CommandModel::OP(name) => "OP("@ + debug_quoted(name) + ")"@,
        }
    }
}

impl Clone for MCServerCommands {
    fn clone(&self) -> (r: Self)
        ensures
            r@ == self@,
    {
        match self {
            MCServerCommands::OP(name) => MCServerCommands::OP(name.clone()),
        }
    }
}

impl MCServerCommands {
    /// The text written to the console for this command: always one line.
    /// A line break inside the name would start a second command, so none is
    /// written.
    pub fn to_string(&self) -> (r: String)
        ensures
            r@ == self@.wire_text(),
    {
        match self {
            MCServerCommands::OP(name) => {
                let shown = strip_line_breaks(name.as_str());
                let mut line = join2("/op ", shown.as_str());
                line.append("\n");
                line
            },
        }
    }

    /// The command as it is shown in diagnostics.
    pub fn diagnostic(&self) -> (r: String)
        ensures
            r@ == self@.diagnostic_text(),
    {
        match self {
            MCServerCommands::OP(name) => {
                let quoted = quoted_text(name.as_str());
                let mut out = join2("OP(", quoted.as_str());
                out.append(")");
                out
            },
        }
    }
}

/// The console text of every command is a single line: it starts with the
/// command's word, its last character is a line break, and no character
/// before the last is one. Where the name holds no line break, the text is
/// the word, the name as it is and the line break.
pub proof fn lemma_wire_text_is_one_line(name: Seq<char>)
    ensures
        ({
            let text = CommandModel::OP(name).wire_text();
            &&& text.len() >= 5
            &&& text.take(4) == "/op "@
            &&& text.last() == LINE_BREAK
            &&& forall|i: int| 0 <= i < text.len() - 1 ==> text[i] != LINE_BREAK
        }),
        (forall|i: int| 0 <= i < name.len() ==> name[i] != LINE_BREAK) ==> CommandModel::OP(
            name,
        ).wire_text() == "/op "@ + name + "\n"@,
{
    reveal_strlit("/op ");
    reveal_strlit("\n");
    lemma_without_line_breaks(name);
    let text = CommandModel::OP(name).wire_text();
    let kept = without_line_breaks(name);
    assert(text.take(4) =~= "/op "@);
    assert forall|i: int| 0 <= i < text.len() - 1 implies text[i] != LINE_BREAK by {
        if i >= 4 {
            assert(text[i] == kept[i - 4]);
        }
    }
}

} // verus!
