//! Choices, questions and the running score.

use vstd::prelude::*;

verus! {

/// One answer of a question: its label, and whether it is the right one.
#[derive(Debug)]
pub struct Choice {
    pub text: String,
    pub correct: bool,
}

/// What a [`Choice`] means in contracts.
pub struct ChoiceView {
    pub text: Seq<char>,
    pub correct: bool,
}

impl View for Choice {
    type V = ChoiceView;

    open spec fn view(&self) -> ChoiceView {
        ChoiceView { text: self.text@, correct: self.correct }
    }
}

/// A prompt, its answers in display order, and the highlighted answer.
#[derive(Debug)]
pub struct Question {
    pub question: String,
    pub choices: Vec<Choice>,
    pub index: usize,
}

/// What a [`Question`] means in contracts.
pub struct QuestionView {
    pub question: Seq<char>,
    pub choices: Seq<ChoiceView>,
    pub index: nat,
}

impl QuestionView {
    /// There is at least one choice and the selection points at one.
    pub open spec fn well_formed(self) -> bool {
        self.index < self.choices.len()
    }

    /// Whether the highlighted choice is marked correct.
    pub open spec fn current_is_correct(self) -> bool
        recommends
            self.well_formed(),
    {
        self.choices[self.index as int].correct
    }

    /// The question with the selection one place earlier, the first choice
    /// wrapping to the last.
    pub open spec fn up(self) -> QuestionView
        recommends
            self.well_formed(),
    {
        QuestionView {
            index: if self.index == 0 {
                (self.choices.len() - 1) as nat
            } else {
                (self.index - 1) as nat
            },
            ..self
        }
    }

    /// The question with the selection one place later, the last choice
    /// wrapping to the first.
    pub open spec fn down(self) -> QuestionView
        recommends
            self.well_formed(),
    {
        QuestionView {
            index: if self.index + 1 == self.choices.len() {
                0
            } else {
                self.index + 1
            },
            ..self
        }
    }
}

/// Moving the highlight up and then down, or down and then up, leaves it where
/// it was, at the ends of the list as well as inside it.
pub proof fn lemma_up_and_down_cancel(q: QuestionView)
    requires
        q.well_formed(),
    ensures
        q.up().down() == q,
        q.down().up() == q,
{
}

/// From the first choice the highlight moves up to the last, and from the last
/// choice it moves down to the first.
pub proof fn lemma_moves_wrap_around(q: QuestionView)
    requires
        q.well_formed(),
    ensures
        q.index == 0 ==> q.up().index == q.choices.len() - 1,
        q.index == q.choices.len() - 1 ==> q.down().index == 0,
{
}

/// Moving the highlight is counting modulo the number of choices, and changes
/// nothing but the highlight.
pub proof fn lemma_moves_are_modular(q: QuestionView)
    requires
        q.well_formed(),
    ensures
        q.up().index == (q.index + q.choices.len() - 1) % (q.choices.len() as int),
        q.down().index == (q.index + 1) as int % (q.choices.len() as int),
        q.up().well_formed(),
        q.down().well_formed(),
        q.up().question == q.question && q.up().choices == q.choices,
        q.down().question == q.question && q.down().choices == q.choices,
{
    let n = q.choices.len() as int;
    if q.index == 0 {
        assert((n - 1) % n == n - 1) by {
            vstd::arithmetic::div_mod::lemma_small_mod((n - 1) as nat, n as nat);
        }
    } else {
        assert((q.index + n - 1) % n == q.index - 1) by {
            vstd::arithmetic::div_mod::lemma_mod_add_multiples_vanish(q.index - 1, n);
            vstd::arithmetic::div_mod::lemma_small_mod((q.index - 1) as nat, n as nat);
        }
    }
    if q.index + 1 == n {
        assert(n % n == 0) by {
            vstd::arithmetic::div_mod::lemma_mod_self_0(n);
        }
    } else {
        assert((q.index + 1) as int % n == q.index + 1) by {
            vstd::arithmetic::div_mod::lemma_small_mod((q.index + 1) as nat, n as nat);
        }
    }
}

impl Clone for Choice {
    fn clone(&self) -> (copy: Choice)
        ensures
            copy@ == self@,
    {
        Choice { text: self.text.clone(), correct: self.correct }
    }
}

impl Clone for Question {
    fn clone(&self) -> (copy: Question)
        ensures
            copy@ == self@,
    {
        let mut choices: Vec<Choice> = Vec::new();
        let n: usize = self.choices.len();
        let mut i: usize = 0;
        while i < n
            invariant
                n == self.choices.len(),
                i <= n,
                choices@.map_values(|c: Choice| c@) == self@.choices.take(i as int),
            decreases n - i,
        {
            let ghost before = choices@.map_values(|c: Choice| c@);
            choices.push(self.choices[i].clone());
            assert(choices@.map_values(|c: Choice| c@) == before.push(self@.choices[i as int]));
            assert(self@.choices.take(i + 1) == self@.choices.take(i as int).push(
                self@.choices[i as int],
            ));
            i += 1;
        }
        assert(self@.choices.take(n as int) == self@.choices);
        Question { question: self.question.clone(), choices, index: self.index }
    }
}

impl View for Question {
    type V = QuestionView;

    open spec fn view(&self) -> QuestionView {
        QuestionView {
            question: self.question@,
            choices: self.choices@.map_values(|c: Choice| c@),
            index: self.index as nat,
        }
    }
}

impl Question {
    /// Whether the highlighted choice is the right answer.
    pub fn cmp(&self) -> (correct: bool)
        requires
            self@.well_formed(),
        ensures
            correct == self@.current_is_correct(),
    {
        self.choices[self.index].correct
    }

    /// Moves the highlight one choice up; from the first choice it goes to the
    /// last.
    pub fn up(&mut self)
        requires
            old(self)@.well_formed(),
        ensures
            final(self)@ == old(self)@.up(),
            final(self)@.well_formed(),
            old(self)@.index == 0 ==> final(self)@.index == old(self)@.choices.len() - 1,
            old(self)@.index > 0 ==> final(self)@.index == old(self)@.index - 1,
    {
        if self.index == 0 {
            self.index = self.choices.len() - 1;
        } else {
            self.index -= 1
        }
    }

    /// Moves the highlight one choice down; from the last choice it goes to
    /// the first.
    pub fn down(&mut self)
        requires
            old(self)@.well_formed(),
        ensures
            final(self)@ == old(self)@.down(),
            final(self)@.well_formed(),
            old(self)@.index == old(self)@.choices.len() - 1 ==> final(self)@.index == 0,
            old(self)@.index < old(self)@.choices.len() - 1 ==> final(self)@.index == old(
                self,
            )@.index + 1,
    {
        if self.index == self.choices.len() - 1 {
            self.index = 0
        } else {
            self.index += 1
        }
    }
}

/// The number of right answers given so far.
#[derive(Debug, Clone, Copy)]
pub struct Score {
    pub score: u32,
}

impl Score {
    /// A score of zero.
    pub fn new() -> (score: Score)
        ensures
            score.score == 0,
    {
        Score { score: 0 }
    }

    /// Counts one more right answer.
    pub fn inc(&mut self)
        requires
            old(self).score < u32::MAX,
        ensures
            final(self).score == old(self).score + 1,
    {
        self.score += 1;
    }
}

} // verus!
