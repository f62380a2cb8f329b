use encard::bank::Questions;
use encard::model::{Choice, Question};

fn question(prompt: &str, labels: &[&str], right: usize, index: usize) -> Question {
    Question {
        question: prompt.to_string(),
        choices: labels
            .iter()
            .enumerate()
            .map(|(i, l)| Choice { text: l.to_string(), correct: i == right })
            .collect(),
        index,
    }
}

fn three() -> Questions {
    Questions {
        questions: vec![
            question("first", &["a", "b"], 0, 1),
            question("second", &["c", "d", "e"], 2, 0),
            question("third", &["f"], 0, 0),
        ],
    }
}

#[test]
fn empty_bank_has_no_questions() {
    assert_eq!(Questions::empty().questions.len(), 0);
}

#[test]
fn or_empty_keeps_what_was_read() {
    let bank = Questions::or_empty(Some(three()));
    assert_eq!(bank.questions.len(), 3);
    assert_eq!(bank.questions[1].question, "second");
}

#[test]
fn or_empty_falls_back_to_the_empty_bank() {
    assert_eq!(Questions::or_empty(None).questions.len(), 0);
}

#[test]
fn add_question_appends_at_the_end() {
    let mut bank = three();
    bank.add_question(question("fourth", &["g", "h"], 1, 0));
    assert_eq!(bank.questions.len(), 4);
    assert_eq!(bank.questions[0].question, "first");
    assert_eq!(bank.questions[3].question, "fourth");
    assert!(bank.questions[3].choices[1].correct);
}

#[test]
fn pick_resets_the_highlight() {
    let q = three().pick(0);
    assert_eq!(q.question, "first");
    assert_eq!(q.index, 0);
    assert_eq!(q.choices.len(), 2);
    assert!(q.choices[0].correct);
}

#[test]
fn pick_leaves_the_bank_as_it_was() {
    let bank = three();
    let _ = bank.pick(0);
    assert_eq!(bank.questions[0].index, 1);
}

#[test]
fn pick_outside_the_bank_gives_the_placeholder() {
    let q = three().pick(3);
    assert_eq!(q.question, "No questions available");
    assert_eq!(q.choices.len(), 1);
    assert_eq!(q.choices[0].text, "Try again");
    assert!(!q.choices[0].correct);
    assert_eq!(q.index, 0);
}

#[test]
fn pick_of_a_question_without_choices_gives_the_placeholder() {
    let bank = Questions { questions: vec![question("hollow", &[], 0, 0)] };
    let q = bank.pick(0);
    assert_eq!(q.question, "No questions available");
    assert_eq!(q.choices.len(), 1);
}

#[test]
fn pick_random_of_an_empty_bank_gives_the_placeholder() {
    let q = Questions::empty().pick_random();
    assert_eq!(q.question, "No questions available");
    assert_eq!(q.choices.len(), 1);
    assert!(!q.cmp());
}

#[test]
fn pick_random_draws_from_the_bank() {
    let bank = three();
    for _ in 0..200 {
        let q = bank.pick_random();
        assert!(["first", "second", "third"].contains(&q.question.as_str()));
        assert_eq!(q.index, 0);
    }
}

#[test]
fn pick_random_of_one_question_is_that_question() {
    let bank = Questions { questions: vec![question("only", &["x", "y"], 1, 1)] };
    for _ in 0..20 {
        let q = bank.pick_random();
        assert_eq!(q.question, "only");
        assert_eq!(q.index, 0);
    }
}

#[test]
fn pick_random_reaches_every_question() {
    let bank = three();
    let mut seen = [false; 3];
    for _ in 0..2000 {
        let q = bank.pick_random();
        match q.question.as_str() {
            "first" => seen[0] = true,
            "second" => seen[1] = true,
            "third" => seen[2] = true,
            other => panic!("unexpected question {}", other),
        }
    }
    assert_eq!(seen, [true, true, true]);
}

#[test]
fn bank_clone_copies_every_question() {
    let bank = three();
    let copy = bank.clone();
    assert_eq!(copy.questions.len(), 3);
    assert_eq!(copy.questions[0].index, 1);
    assert_eq!(copy.questions[2].question, "third");
}

#[test]
fn storage_paths_lie_under_the_users_home() {
    assert_eq!(encard::bank::storage_directory("alice"), "/home/alice/.enc/");
    assert_eq!(encard::bank::storage_file("alice"), "/home/alice/.enc/questions.json");
}

#[test]
fn storage_paths_take_any_user_name() {
    assert_eq!(encard::bank::storage_directory(""), "/home//.enc/");
    assert_eq!(encard::bank::storage_file("j\u{f6}rg"), "/home/j\u{f6}rg/.enc/questions.json");
}
