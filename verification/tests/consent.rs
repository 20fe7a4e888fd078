use flovyn_sdk::worker::consent::{consent_next, consent_start, ConsentStep};

/// Drive a round over hooks that answer `answers`; the outcome and how many
/// hooks were asked.
fn run(answers: &[bool]) -> (bool, usize) {
    let mut asked = 0;
    let mut step = consent_start(answers.len());
    loop {
        match step {
            ConsentStep::Decided(b) => return (b, asked),
            ConsentStep::Ask(i) => {
                asked += 1;
                step = consent_next(i, answers.len(), answers[i]);
            }
        }
    }
}

#[test]
fn test_consent_without_hooks_is_yes() {
    assert_eq!(consent_start(0), ConsentStep::Decided(true));
    assert_eq!(run(&[]), (true, 0));
}

#[test]
fn test_consent_all_accept() {
    assert_eq!(run(&[true, true]), (true, 2));
}

#[test]
fn test_consent_first_refusal_decides() {
    assert_eq!(run(&[true, false, true]), (false, 2));
    assert_eq!(run(&[false, true]), (false, 1));
}

#[test]
fn test_consent_steps() {
    assert_eq!(consent_start(3), ConsentStep::Ask(0));
    assert_eq!(consent_next(0, 3, true), ConsentStep::Ask(1));
    assert_eq!(consent_next(2, 3, true), ConsentStep::Decided(true));
    assert_eq!(consent_next(1, 3, false), ConsentStep::Decided(false));
}
