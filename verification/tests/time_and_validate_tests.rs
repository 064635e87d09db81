use rismidi::{NoteDuration, SimpleTime, TimeDuration, Tuplet, ValidationMode};

#[test]
fn straight_removes_tuplets() {
    assert_eq!(
        NoteDuration::new(1, 4).triplet().straight(),
        NoteDuration::new(1, 4)
    );
}

#[test]
fn no_dots_is_the_default() {
    assert_eq!(NoteDuration::new(1, 8).dotted(0), NoteDuration::new(1, 8));
}

#[test]
fn triplet_is_three_against_two() {
    assert_eq!(
        NoteDuration::new(1, 4).triplet(),
        NoteDuration::new(1, 4).tuplet(Tuplet {
            num_regular_notes: 2,
            num_tuplet_notes: 3,
        })
    );
}

#[test]
fn dots_survive_tuplet_changes() {
    assert_eq!(
        NoteDuration::new(3, 8).dotted(2).triplet().straight(),
        NoteDuration::new(3, 8).dotted(2)
    );
}

#[test]
fn simple_time_distinguishes_free_and_sync() {
    let free = SimpleTime::Free(TimeDuration::from_millis(200));
    let sync = SimpleTime::Sync(NoteDuration::new(1, 4));
    assert_ne!(free, sync);
    assert_eq!(free, SimpleTime::Free(TimeDuration::from_millis(200)));
}

#[test]
fn validation_mode_cli_args() {
    assert_eq!(ValidationMode::Basic.cli_args(), Vec::<String>::new());
    assert_eq!(ValidationMode::Extensive.cli_args(), vec!["-e".to_string()]);
    assert_eq!(
        ValidationMode::SingleSuite("scan".to_string()).cli_args(),
        vec!["-suite".to_string(), "scan".to_string()]
    );
}
