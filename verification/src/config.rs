//! The command line's view of the game: the optional `add` command and the
//! question it describes.

use crate::bank::Questions;
use crate::model::{Choice, ChoiceView, Question, QuestionView};
use crate::text::{pieces, split, texts, trim, trimmed};
use vstd::prelude::*;
use vstd::string::*;

verus! {

/// The arguments of one run: a command, or none to play.
#[derive(Debug)]
pub struct Args {
    pub command: Option<Command>,
}

/// The commands besides playing.
#[derive(Debug)]
pub enum Command {
    /// Add a question to the bank: its text, its choices separated by commas,
    /// and the position of the right choice, counted from zero.
    Add { question: String, choices: String, answer: usize },
}

/// Why a question could not be built.
#[derive(Debug, Clone, Copy, PartialEq, Eq, Structural)]
pub enum ConfigError {
    /// The answer does not point at one of the `count` choices.
    InvalidArgument { answer: usize, count: usize },
}

/// The labels that a choices text holds: the pieces between the commas of the
/// text without the white space at its ends.
pub open spec fn labels_of(choices: Seq<char>) -> Seq<Seq<char>> {
    pieces(trimmed(choices), ',')
}

/// The choices made of `labels`, the one at `answer` marked correct and no
/// other.
pub open spec fn marked(labels: Seq<Seq<char>>, answer: nat) -> Seq<ChoiceView> {
    Seq::new(labels.len(), |i: int| ChoiceView { text: labels[i], correct: i == answer })
}

/// The question that an `add` command describes, the first choice
/// highlighted.
pub open spec fn described(question: Seq<char>, choices: Seq<char>, answer: nat) -> QuestionView {
    QuestionView {
        question: trimmed(question),
        choices: marked(labels_of(choices), answer),
        index: 0,
    }
}

/// Builds the question that an `add` command describes. The answer has to
/// point at one of the choices; otherwise the command is rejected.
pub fn add_to_question(question: String, choices: String, answer: usize) -> (built: Result<
    Question,
    ConfigError,
>)
    ensures
        match built {
            Ok(q) => {
                &&& answer < labels_of(choices@).len()
                &&& q@ == described(question@, choices@, answer as nat)
                &&& q@.well_formed()
            },
            Err(e) => {
                &&& answer >= labels_of(choices@).len()
                &&& e == (ConfigError::InvalidArgument {
                    answer,
                    count: labels_of(choices@).len() as usize,
                })
            },
        },
{
    let choices_text = trim(choices.as_str());
    let question_text = trim(question.as_str());
    let labels = split(choices_text.as_str(), ',');
    let n: usize = labels.len();
    assert(texts(labels@).len() == n);
    if answer >= n {
        return Err(ConfigError::InvalidArgument { answer, count: n });
    }
    let ghost wanted = marked(labels_of(choices@), answer as nat);
    let mut built: Vec<Choice> = Vec::new();
    let mut i: usize = 0;
    while i < n
        invariant
            n == labels.len(),
            i <= n,
            texts(labels@) == labels_of(choices@),
            wanted == marked(labels_of(choices@), answer as nat),
            built@.map_values(|c: Choice| c@) == wanted.take(i as int),
        decreases n - i,
    {
        let ghost before = built@.map_values(|c: Choice| c@);
        built.push(Choice { text: labels[i].clone(), correct: i == answer });
        assert(texts(labels@)[i as int] == labels@[i as int]@);
        assert(built@.map_values(|c: Choice| c@) == before.push(wanted[i as int]));
        assert(wanted.take(i + 1) == wanted.take(i as int).push(wanted[i as int]));
        i += 1;
    }
    assert(wanted.take(n as int) == wanted);
    Ok(Question { question: question_text, choices: built, index: 0 })
}

impl Command {
    /// Carries the command out on `bank`: an `add` appends the question it
    /// describes, or leaves the bank alone where the description is rejected.
    pub fn apply(self, bank: &mut Questions) -> (done: Result<(), ConfigError>)
        ensures
            match self {
                Command::Add { question, choices, answer } => match done {
                    Ok(_) => {
                        &&& answer < labels_of(choices@).len()
                        &&& final(bank)@ == old(bank)@.push(
                            described(question@, choices@, answer as nat),
                        )
                    },
                    Err(e) => {
                        &&& answer >= labels_of(choices@).len()
                        &&& final(bank)@ == old(bank)@
                        &&& e == (ConfigError::InvalidArgument {
                            answer,
                            count: labels_of(choices@).len() as usize,
                        })
                    },
                },
            },
    {
        match self {
            Command::Add { question, choices, answer } => {
                match add_to_question(question, choices, answer) {
                    Ok(q) => {
                        bank.add_question(q);
                        Ok(())
                    },
                    Err(e) => Err(e),
                }
            },
        }
    }
}

} // verus!
