//! The screen controller: the menu/game state machine, what a key does to it,
//! and the description of what is to be drawn.

use crate::bank::{draws, Questions};
use crate::model::{Choice, ChoiceView, Question, QuestionView, Score};
use crate::text::{decimal, decimal_text};
use vstd::prelude::*;
use vstd::string::*;

verus! {

/// The name shown in the title.
pub const GAME_NAME: &'static str = "ENCARD";

/// Where the screen is: on the menu or in the game. `Exit` is kept in reserve:
/// nothing moves the screen into it.
#[derive(Debug, Clone, Copy, PartialEq, Eq, Structural)]
pub enum State {
    Menu,
    Exit,
    Game,
}

/// A key, as far as the game tells keys apart.
#[derive(Debug, Clone, Copy, PartialEq, Eq, Structural)]
pub enum Key {
    Esc,
    Up,
    Down,
    Enter,
    Other,
}

/// What a key event asks of the screen.
#[derive(Debug, Clone, Copy, PartialEq, Eq, Structural)]
pub enum Action {
    Quit,
    MoveUp,
    MoveDown,
    Confirm,
    Ignore,
}

/// What the loop around the screen has to do next.
#[derive(Debug, Clone, Copy, PartialEq, Eq, Structural)]
pub enum Step {
    /// Draw again and wait for the next key.
    Continue,
    /// Read the question bank and hand it to [`Screen::confirm`].
    LoadBank,
    /// Leave the loop and restore the terminal.
    Quit,
    /// End the process at once.
    Terminate,
}

/// The action that a key event stands for. The release of a key stands for
/// nothing, so that a terminal which reports both press and release does not
/// fire twice.
pub open spec fn action_of(key: Key, released: bool) -> Action {
    if released {
        Action::Ignore
    } else {
        match key {
            Key::Esc => Action::Quit,
            Key::Up => Action::MoveUp,
            Key::Down => Action::MoveDown,
            Key::Enter => Action::Confirm,
            Key::Other => Action::Ignore,
        }
    }
}

/// Maps a key event to its action.
pub fn action_for_key(key: Key, released: bool) -> (action: Action)
    ensures
        action == action_of(key, released),
{
    if released {
        Action::Ignore
    } else {
        match key {
            Key::Esc => Action::Quit,
            Key::Up => Action::MoveUp,
            Key::Down => Action::MoveDown,
            Key::Enter => Action::Confirm,
            Key::Other => Action::Ignore,
        }
    }
}

/// The whole of what the player sees and has achieved.
#[derive(Debug)]
pub struct Screen {
    pub state: State,
    pub question: Question,
    pub score: Score,
}

/// What a [`Screen`] means in contracts.
pub struct ScreenView {
    pub state: State,
    pub question: QuestionView,
    pub score: nat,
}

/// One line of the choice list as it is to be drawn.
#[derive(Debug)]
pub struct Line {
    pub text: String,
    pub highlighted: bool,
}

/// What a [`Line`] means in contracts.
pub struct LineView {
    pub text: Seq<char>,
    pub highlighted: bool,
}

impl View for Line {
    type V = LineView;

    open spec fn view(&self) -> LineView {
        LineView { text: self.text@, highlighted: self.highlighted }
    }
}

/// What is to be drawn: the title of the frame, the prompt inside it, and the
/// choices below it, top to bottom.
#[derive(Debug)]
pub struct Picture {
    pub title: String,
    pub prompt: String,
    pub lines: Vec<Line>,
}

/// What a [`Picture`] means in contracts.
pub struct PictureView {
    pub title: Seq<char>,
    pub prompt: Seq<char>,
    pub lines: Seq<LineView>,
}

impl View for Picture {
    type V = PictureView;

    open spec fn view(&self) -> PictureView {
        PictureView {
            title: self.title@,
            prompt: self.prompt@,
            lines: self.lines@.map_values(|l: Line| l@),
        }
    }
}

/// The title for a score: the game's name and the score in decimal, set off
/// by dashes.
pub open spec fn title_of(score: nat) -> Seq<char> {
    " "@ + GAME_NAME@ + " -------- "@ + decimal(score) + " "@
}

/// The screen a game starts on.
pub open spec fn menu() -> ScreenView {
    ScreenView {
        state: State::Menu,
        question: QuestionView {
            question: "Welcome to English card game!"@,
            choices: seq![
                ChoiceView { text: "Play"@, correct: false },
                ChoiceView { text: "Exit"@, correct: false },
            ],
            index: 0,
        },
        score: 0,
    }
}

impl ScreenView {
    /// The question on the screen can be navigated and answered.
    pub open spec fn well_formed(self) -> bool {
        self.question.well_formed()
    }

    /// Whether the highlighted answer, if confirmed now, earns a point.
    pub open spec fn scores(self) -> bool {
        self.state == State::Game && self.question.current_is_correct()
    }

    /// Whether the screen begins a game if confirmed now.
    pub open spec fn begins(self) -> bool {
        self.state == State::Menu && self.question.index == 0
    }

    /// Whether confirming now brings up a question.
    pub open spec fn turns_page(self) -> bool {
        self.begins() || self.state == State::Game
    }

    /// Whether confirming now ends the process: the menu with any entry but
    /// the first highlighted.
    pub open spec fn leaves(self) -> bool {
        self.state == State::Menu && self.question.index != 0
    }

    /// Whether the screen can take every action: its question is well formed,
    /// and the score has room for the point that confirming may earn.
    pub open spec fn ready(self) -> bool {
        &&& self.well_formed()
        &&& self.turns_page() && self.question.current_is_correct() ==> self.score < u32::MAX
    }

    /// The screen after the highlighted answer was submitted and `next` came
    /// up: one point more if the answer was right. Outside a game nothing is
    /// submitted.
    pub open spec fn submitted(self, next: QuestionView) -> ScreenView {
        if self.state == State::Game {
            ScreenView {
                state: State::Game,
                question: next,
                score: if self.question.current_is_correct() {
                    self.score + 1
                } else {
                    self.score
                },
            }
        } else {
            self
        }
    }

    /// The screen after the menu's first entry was confirmed and `next` came
    /// up: the game is on. On any other screen nothing begins.
    pub open spec fn started(self, next: QuestionView) -> ScreenView {
        if self.begins() {
            ScreenView { state: State::Game, ..self }.submitted(next)
        } else {
            self
        }
    }

    /// The screen after the highlighted choice was confirmed and `next` came
    /// up: the menu begins the game, a game takes the answer.
    pub open spec fn confirmed(self, next: QuestionView) -> ScreenView {
        match self.state {
            State::Menu => self.started(next),
            State::Game => self.submitted(next),
            State::Exit => self,
        }
    }

    /// The screen after `action`, as far as it needs no question bank.
    pub open spec fn moved(self, action: Action) -> ScreenView {
        match action {
            Action::MoveUp => ScreenView { question: self.question.up(), ..self },
            Action::MoveDown => ScreenView { question: self.question.down(), ..self },
            _ => self,
        }
    }

    /// What the loop has to do after `action`.
    pub open spec fn step_after(self, action: Action) -> Step {
        match action {
            Action::Quit => Step::Quit,
            Action::Confirm => if self.leaves() {
                Step::Terminate
            } else if self.turns_page() {
                Step::LoadBank
            } else {
                Step::Continue
            },
            _ => Step::Continue,
        }
    }

    /// The screen after a run of submissions, `nexts` coming up one after the
    /// other.
    pub open spec fn replayed(self, nexts: Seq<QuestionView>) -> ScreenView
        decreases nexts.len(),
    {
        if nexts.len() == 0 {
            self
        } else {
            self.replayed(nexts.drop_last()).submitted(nexts.last())
        }
    }

    /// What is to be drawn for this screen: exactly the highlighted choice is
    /// marked.
    pub open spec fn picture(self) -> PictureView {
        PictureView {
            title: title_of(self.score),
            prompt: self.question.question,
            lines: Seq::new(
                self.question.choices.len(),
                |i: int|
                    LineView {
                        text: self.question.choices[i].text,
                        highlighted: i == self.question.index,
                    },
            ),
        }
    }
}

/// A right answer submitted in a game earns exactly one point, and a wrong one
/// leaves the score as it is; either way the next question comes up.
pub proof fn lemma_submission_counts(s: ScreenView, next: QuestionView)
    requires
        s.state == State::Game,
    ensures
        s.question.current_is_correct() ==> s.submitted(next).score == s.score + 1,
        !s.question.current_is_correct() ==> s.submitted(next).score == s.score,
        s.submitted(next).question == next,
        s.submitted(next).state == State::Game,
{
}

/// Over any run of submissions the score never goes down, and it goes up by
/// at most one for each of them.
pub proof fn lemma_score_never_decreases(s: ScreenView, nexts: Seq<QuestionView>)
    ensures
        s.score <= s.replayed(nexts).score <= s.score + nexts.len(),
    decreases nexts.len(),
{
    if nexts.len() > 0 {
        lemma_score_never_decreases(s, nexts.drop_last());
    }
}

/// Confirming the menu with its first entry highlighted begins the game with
/// the next question on the screen; with any other entry it ends the process
/// and the screen never enters the game.
pub proof fn lemma_menu_confirmed(s: ScreenView, next: QuestionView)
    requires
        s.state == State::Menu,
    ensures
        s.question.index == 0 ==> s.confirmed(next).state == State::Game && s.confirmed(
            next,
        ).question == next && s.step_after(Action::Confirm) == Step::LoadBank,
        s.question.index != 0 ==> s.confirmed(next) == s && s.step_after(Action::Confirm)
            == Step::Terminate,
{
}

/// Begun from the opening screen, the game starts without a point.
pub proof fn lemma_opening_game(next: QuestionView)
    ensures
        menu().confirmed(next) == (ScreenView { state: State::Game, question: next, score: 0 }),
{
}

impl View for Screen {
    type V = ScreenView;

    open spec fn view(&self) -> ScreenView {
        ScreenView { state: self.state, question: self.question@, score: self.score.score as nat }
    }
}

impl Clone for Screen {
    fn clone(&self) -> (copy: Screen)
        ensures
            copy@ == self@,
    {
        Screen { state: self.state, question: self.question.clone(), score: self.score }
    }
}

impl Screen {
    /// The opening screen: the menu with "Play" highlighted and no points.
    pub fn new_menu() -> (screen: Screen)
        ensures
            screen@ == menu(),
            screen@.well_formed(),
    {
        let mut choices: Vec<Choice> = Vec::new();
        choices.push(Choice { text: String::from_str("Play"), correct: false });
        choices.push(Choice { text: String::from_str("Exit"), correct: false });
        let screen = Screen {
            state: State::Menu,
            question: Question {
                question: String::from_str("Welcome to English card game!"),
                choices,
                index: 0,
            },
            score: Score::new(),
        };
        assert(screen@.question.choices == menu().question.choices);
        screen
    }

    /// Tells whether the screen can take every action. It can whenever it was
    /// reached from [`Screen::new_menu`] by the functions of this type alone,
    /// short of a full score; a caller that sets the fields itself asks here.
    pub fn is_ready(&self) -> (ready: bool)
        ensures
            ready == self@.ready(),
    {
        if self.question.index >= self.question.choices.len() {
            return false;
        }
        let turns_page = match self.state {
            State::Menu => self.question.index == 0,
            State::Game => true,
            State::Exit => false,
        };
        !(turns_page && self.question.cmp()) || self.score.score < u32::MAX
    }

    /// Submits the highlighted answer and puts `next` on the screen. In a game
    /// a right answer earns one point; outside a game nothing happens.
    pub fn advance(&mut self, next: Question)
        requires
            old(self)@.well_formed(),
            next@.well_formed(),
            old(self)@.scores() ==> old(self)@.score < u32::MAX,
        ensures
            final(self)@ == old(self)@.submitted(next@),
            final(self)@.well_formed(),
            old(self)@.scores() ==> final(self)@.score == old(self)@.score + 1,
            !old(self)@.scores() ==> final(self)@.score == old(self)@.score,
    {
        if self.state != State::Game {
            return ;
        }
        if self.question.cmp() {
            self.score.inc();
        }
        self.question = next;
    }

    /// Submits the highlighted answer and puts a question drawn at random from
    /// `bank` on the screen. Which question comes up is up to chance; the rest
    /// is as [`Screen::advance`] says.
    pub fn update(&mut self, bank: &Questions)
        requires
            old(self)@.well_formed(),
            old(self)@.scores() ==> old(self)@.score < u32::MAX,
        ensures
            final(self)@ == old(self)@.submitted(final(self)@.question),
            old(self)@.state == State::Game ==> draws(bank@, final(self)@.question),
            final(self)@.well_formed(),
            old(self)@.scores() ==> final(self)@.score == old(self)@.score + 1,
            !old(self)@.scores() ==> final(self)@.score == old(self)@.score,
    {
        if self.state != State::Game {
            return ;
        }
        let next = bank.pick_random();
        self.advance(next);
    }

    /// Confirms the menu. With the first entry highlighted the game begins and
    /// a question drawn from `bank` comes up; with any other entry the answer
    /// is [`Step::Terminate`] and the screen stays as it is. Off the menu
    /// nothing happens.
    pub fn start_game(&mut self, bank: &Questions) -> (step: Step)
        requires
            old(self)@.well_formed(),
            old(self)@.begins() && old(self)@.question.current_is_correct() ==> old(self)@.score
                < u32::MAX,
        ensures
            final(self)@ == old(self)@.started(final(self)@.question),
            old(self)@.begins() ==> final(self)@.state == State::Game && draws(
                bank@,
                final(self)@.question,
            ),
            final(self)@.well_formed(),
            step == if old(self)@.leaves() {
                Step::Terminate
            } else {
                Step::Continue
            },
    {
        if self.state != State::Menu {
            return Step::Continue;
        }
        if self.question.index == 0 {
            self.state = State::Game;
            self.update(bank);
            Step::Continue
        } else {
            Step::Terminate
        }
    }

    /// Applies `action` as far as the screen can on its own, and says what the
    /// loop has to do next: moving the highlight is done here; quitting and
    /// confirming are handed back, the latter as a request for the bank where
    /// a question has to come up.
    pub fn react(&mut self, action: Action) -> (step: Step)
        requires
            old(self)@.well_formed(),
        ensures
            final(self)@ == old(self)@.moved(action),
            final(self)@.well_formed(),
            step == old(self)@.step_after(action),
    {
        match action {
            Action::Quit => Step::Quit,
            Action::MoveUp => {
                self.question.up();
                Step::Continue
            },
            Action::MoveDown => {
                self.question.down();
                Step::Continue
            },
            Action::Confirm => match self.state {
                State::Menu => if self.question.index == 0 {
                    Step::LoadBank
                } else {
                    Step::Terminate
                },
                State::Game => Step::LoadBank,
                State::Exit => Step::Continue,
            },
            Action::Ignore => Step::Continue,
        }
    }

    /// Confirms the highlighted choice now that `bank` is at hand: on the menu
    /// as [`Screen::start_game`] does, in a game as [`Screen::update`] does.
    pub fn confirm(&mut self, bank: &Questions) -> (step: Step)
        requires
            old(self)@.ready(),
        ensures
            final(self)@ == old(self)@.confirmed(final(self)@.question),
            old(self)@.turns_page() ==> final(self)@.state == State::Game && draws(
                bank@,
                final(self)@.question,
            ),
            final(self)@.well_formed(),
            step == if old(self)@.leaves() {
                Step::Terminate
            } else {
                Step::Continue
            },
    {
        match self.state {
            State::Menu => self.start_game(bank),
            State::Game => {
                self.update(bank);
                Step::Continue
            },
            State::Exit => Step::Continue,
        }
    }

    /// The title line for `score`.
    pub fn title(score: u32) -> (title: String)
        ensures
            title@ == title_of(score as nat),
    {
        let mut title = String::from_str(" ");
        title.append(GAME_NAME);
        title.append(" -------- ");
        let number = decimal_text(score);
        title.append(number.as_str());
        title.append(" ");
        title
    }

    /// Describes what is to be drawn: the title with the score, the prompt,
    /// and every choice with a mark on the highlighted one.
    pub fn draw(&self) -> (picture: Picture)
        ensures
            picture@ == self@.picture(),
    {
        let mut lines: Vec<Line> = Vec::new();
        let n: usize = self.question.choices.len();
        let mut i: usize = 0;
        while i < n
            invariant
                n == self.question.choices.len(),
                i <= n,
                lines@.map_values(|l: Line| l@) == self@.picture().lines.take(i as int),
            decreases n - i,
        {
            let ghost before = lines@.map_values(|l: Line| l@);
            lines.push(
                Line {
                    text: self.question.choices[i].text.clone(),
                    highlighted: i == self.question.index,
                },
            );
            assert(lines@.map_values(|l: Line| l@) == before.push(
                self@.picture().lines[i as int],
            ));
            assert(self@.picture().lines.take(i + 1) == self@.picture().lines.take(i as int).push(
                self@.picture().lines[i as int],
            ));
            i += 1;
        }
        assert(self@.picture().lines.take(n as int) == self@.picture().lines);
        Picture {
            title: Screen::title(self.score.score),
            prompt: self.question.question.clone(),
            lines,
        }
    }
}

} // verus!
