//! The question bank: every known question, in the order they were added.

use crate::chance::random_below;
use crate::model::{Choice, ChoiceView, Question, QuestionView};
use vstd::prelude::*;
use vstd::string::*;

verus! {

/// The collection of all known questions.
#[derive(Debug)]
pub struct Questions {
    pub questions: Vec<Question>,
}

impl View for Questions {
    type V = Seq<QuestionView>;

    open spec fn view(&self) -> Seq<QuestionView> {
        self.questions@.map_values(|q: Question| q@)
    }
}

impl Clone for Questions {
    fn clone(&self) -> (copy: Questions)
        ensures
            copy@ == self@,
    {
        let mut questions: Vec<Question> = Vec::new();
        let n: usize = self.questions.len();
        let mut i: usize = 0;
        while i < n
            invariant
                n == self.questions.len(),
                i <= n,
                questions@.map_values(|q: Question| q@) == self@.take(i as int),
            decreases n - i,
        {
            let ghost before = questions@.map_values(|q: Question| q@);
            questions.push(self.questions[i].clone());
            assert(questions@.map_values(|q: Question| q@) == before.push(self@[i as int]));
            assert(self@.take(i + 1) == self@.take(i as int).push(self@[i as int]));
            i += 1;
        }
        assert(self@.take(n as int) == self@);
        Questions { questions }
    }
}

/// The directory in which `user`'s bank is kept.
pub open spec fn directory_of(user: Seq<char>) -> Seq<char> {
    "/home/"@ + user + "/.enc/"@
}

/// The file in which `user`'s bank is kept.
pub open spec fn file_of(user: Seq<char>) -> Seq<char> {
    directory_of(user) + "questions.json"@
}

/// The path of the directory in which `user`'s bank is kept.
pub fn storage_directory(user: &str) -> (path: String)
    ensures
        path@ == directory_of(user@),
{
    let mut path = String::from_str("/home/");
    path.append(user);
    path.append("/.enc/");
    path
}

/// The path of the file in which `user`'s bank is kept.
pub fn storage_file(user: &str) -> (path: String)
    ensures
        path@ == file_of(user@),
{
    let mut path = storage_directory(user);
    path.append("questions.json");
    path
}

/// What is shown in place of a question when the bank has none to offer.
pub open spec fn unavailable() -> QuestionView {
    QuestionView {
        question: "No questions available"@,
        choices: seq![ChoiceView { text: "Try again"@, correct: false }],
        index: 0,
    }
}

/// The question that position `pick` of `bank` puts on the screen: the stored
/// question with its highlight back on the first choice. A position outside
/// the bank, or a stored question without choices, gives [`unavailable`].
pub open spec fn chosen(bank: Seq<QuestionView>, pick: int) -> QuestionView {
    if 0 <= pick < bank.len() && bank[pick].choices.len() > 0 {
        QuestionView { index: 0, ..bank[pick] }
    } else {
        unavailable()
    }
}

/// Whether `q` is what some position of `bank` puts on the screen; of an empty
/// bank, whether it is [`unavailable`].
pub open spec fn draws(bank: Seq<QuestionView>, q: QuestionView) -> bool {
    if bank.len() == 0 {
        q == unavailable()
    } else {
        exists|pick: int| 0 <= pick < bank.len() && q == #[trigger] chosen(bank, pick)
    }
}

impl Questions {
    /// A bank without questions.
    pub fn empty() -> (bank: Questions)
        ensures
            bank@ == Seq::<QuestionView>::empty(),
    {
        let bank = Questions { questions: Vec::new() };
        assert(bank@ == Seq::<QuestionView>::empty());
        bank
    }

    /// Settles what a load attempt yielded: the bank that was read, or an
    /// empty one where nothing usable was.
    pub fn or_empty(loaded: Option<Questions>) -> (bank: Questions)
        ensures
            bank@ == match loaded {
                Some(read) => read@,
                None => Seq::<QuestionView>::empty(),
            },
    {
        match loaded {
            Some(read) => read,
            None => Questions::empty(),
        }
    }

    /// Appends `question` to the bank.
    pub fn add_question(&mut self, question: Question)
        ensures
            final(self)@ == old(self)@.push(question@),
    {
        self.questions.push(question);
        assert(self@ == old(self)@.push(question@));
    }

    /// The stand-in for a question that cannot be had.
    pub fn placeholder() -> (q: Question)
        ensures
            q@ == unavailable(),
            q@.well_formed(),
    {
        let mut choices: Vec<Choice> = Vec::new();
        choices.push(Choice { text: String::from_str("Try again"), correct: false });
        let q = Question { question: String::from_str("No questions available"), choices, index: 0 };
        assert(q@.choices == unavailable().choices);
        q
    }

    /// The question that `position` puts on the screen.
    pub fn pick(&self, position: usize) -> (q: Question)
        ensures
            q@ == chosen(self@, position as int),
            q@.well_formed(),
    {
        if position < self.questions.len() && self.questions[position].choices.len() > 0 {
            let mut q = self.questions[position].clone();
            q.index = 0;
            q
        } else {
            Questions::placeholder()
        }
    }

    /// A question drawn uniformly at random from the bank.
    ///
    /// Which one is up to chance; the contract says what holds of every draw.
    pub fn pick_random(&self) -> (q: Question)
        ensures
            draws(self@, q@),
            q@.well_formed(),
    {
        let n: usize = self.questions.len();
        if n == 0 {
            Questions::placeholder()
        } else {
            let position: usize = random_below(n);
            self.pick(position)
        }
    }
}

} // verus!
