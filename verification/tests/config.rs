use encard::bank::Questions;
use encard::config::{add_to_question, Args, Command, ConfigError};

#[test]
fn add_to_question_builds_the_described_question() {
    let q = add_to_question("  What is 2+2? ".to_string(), "3,4,5".to_string(), 1).unwrap();
    assert_eq!(q.question, "What is 2+2?");
    assert_eq!(q.index, 0);
    let got: Vec<(String, bool)> = q.choices.iter().map(|c| (c.text.clone(), c.correct)).collect();
    assert_eq!(
        got,
        vec![("3".to_string(), false), ("4".to_string(), true), ("5".to_string(), false)]
    );
}

#[test]
fn add_to_question_marks_first_and_last() {
    let q = add_to_question("q".to_string(), "a,b,c".to_string(), 0).unwrap();
    let marks: Vec<bool> = q.choices.iter().map(|c| c.correct).collect();
    assert_eq!(marks, vec![true, false, false]);
    let q = add_to_question("q".to_string(), "a,b,c".to_string(), 2).unwrap();
    let marks: Vec<bool> = q.choices.iter().map(|c| c.correct).collect();
    assert_eq!(marks, vec![false, false, true]);
}

#[test]
fn add_to_question_rejects_an_answer_past_the_choices() {
    let r = add_to_question("q".to_string(), "a,b,c".to_string(), 3);
    assert_eq!(r.unwrap_err(), ConfigError::InvalidArgument { answer: 3, count: 3 });
    let r = add_to_question("q".to_string(), "a,b,c".to_string(), usize::MAX);
    assert_eq!(r.unwrap_err(), ConfigError::InvalidArgument { answer: usize::MAX, count: 3 });
}

#[test]
fn add_to_question_with_empty_choices_has_one_empty_choice() {
    let q = add_to_question("q".to_string(), "".to_string(), 0).unwrap();
    assert_eq!(q.choices.len(), 1);
    assert_eq!(q.choices[0].text, "");
    assert!(q.choices[0].correct);
    let r = add_to_question("q".to_string(), "".to_string(), 1);
    assert_eq!(r.unwrap_err(), ConfigError::InvalidArgument { answer: 1, count: 1 });
}

#[test]
fn add_to_question_trims_the_choices_text_only_at_its_ends() {
    let q = add_to_question("q".to_string(), "  a , b  ".to_string(), 1).unwrap();
    let labels: Vec<&str> = q.choices.iter().map(|c| c.text.as_str()).collect();
    assert_eq!(labels, vec!["a ", " b"]);
}

#[test]
fn add_to_question_keeps_special_characters() {
    let q = add_to_question(
        " \"quoted\" \u{2014} na\u{ef}ve? ".to_string(),
        "\u{6771}\u{4eac},\"x\",d\u{e9}j\u{e0}".to_string(),
        2,
    )
    .unwrap();
    assert_eq!(q.question, "\"quoted\" \u{2014} na\u{ef}ve?");
    let labels: Vec<&str> = q.choices.iter().map(|c| c.text.as_str()).collect();
    assert_eq!(labels, vec!["\u{6771}\u{4eac}", "\"x\"", "d\u{e9}j\u{e0}"]);
    assert!(q.choices[2].correct);
}

#[test]
fn add_command_appends_to_the_bank() {
    let mut bank = Questions::empty();
    let args = Args {
        command: Some(Command::Add {
            question: " One? ".to_string(),
            choices: "yes,no".to_string(),
            answer: 0,
        }),
    };
    let done = args.command.unwrap().apply(&mut bank);
    assert_eq!(done, Ok(()));
    assert_eq!(bank.questions.len(), 1);
    assert_eq!(bank.questions[0].question, "One?");
    assert_eq!(bank.questions[0].choices.len(), 2);
    assert!(bank.questions[0].choices[0].correct);
    assert!(!bank.questions[0].choices[1].correct);
}

#[test]
fn rejected_add_command_leaves_the_bank_alone() {
    let mut bank = Questions::empty();
    let command = Command::Add {
        question: "One?".to_string(),
        choices: "yes,no".to_string(),
        answer: 2,
    };
    let done = command.apply(&mut bank);
    assert_eq!(done, Err(ConfigError::InvalidArgument { answer: 2, count: 2 }));
    assert_eq!(bank.questions.len(), 0);
}
