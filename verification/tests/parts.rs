use dexter::clock::elapsed;
use dexter::order::draw_order;
use dexter::{Experiment, ExperimentResult, MatchType, SubjectResult};

#[test]
fn classification_of_each_pair_of_verdicts() {
    assert_eq!(MatchType::classify(false, true), MatchType::Match);
    assert_eq!(MatchType::classify(false, false), MatchType::NoMatch);
    assert_eq!(MatchType::classify(true, false), MatchType::Ignored);
    assert_eq!(MatchType::classify(true, true), MatchType::Ignored);
}

#[test]
fn elapsed_is_the_difference_of_the_readings() {
    assert_eq!(elapsed(5, 12), 7);
    assert_eq!(elapsed(0, u64::MAX), u64::MAX);
    assert_eq!(elapsed(1_000_000_000, 1_000_000_001), 1);
}

#[test]
fn elapsed_is_nothing_where_the_clock_did_not_advance() {
    assert_eq!(elapsed(3, 3), 0);
    assert_eq!(elapsed(12, 5), 0);
    assert_eq!(elapsed(u64::MAX, 0), 0);
}

#[test]
fn subject_result_keeps_duration_and_value() {
    let value = String::from("abc");
    let subject = SubjectResult::new(42, &value);
    assert_eq!(subject.duration, 42);
    assert_eq!(subject.result, "abc");
    assert_eq!(value, "abc");
}

#[test]
fn experiment_result_keeps_its_four_parts() {
    let result = ExperimentResult::new(
        "parts",
        SubjectResult::new(1, &10u32),
        SubjectResult::new(2, &String::from("ten")),
        MatchType::NoMatch,
    );
    assert_eq!(result.name, "parts");
    assert_eq!(result.current.duration, 1);
    assert_eq!(result.current.result, 10);
    assert_eq!(result.new.duration, 2);
    assert_eq!(result.new.result, "ten");
    assert_eq!(result.match_type, MatchType::NoMatch);
}

#[test]
fn drawn_order_names_each_path_once() {
    let mut current_first = false;
    let mut new_first = false;
    for _ in 0..200 {
        let order = draw_order();
        assert!(order == [0, 1] || order == [1, 0]);
        if order[0] == 0 {
            current_first = true;
        } else {
            new_first = true;
        }
    }
    assert!(current_first);
    assert!(new_first);
}

#[test]
fn description_without_hooks() {
    let experiment: Experiment<Vec<char>, String, String> = Experiment::new(
        "experiment",
        |a: &Vec<char>| a.iter().collect(),
        |a: &Vec<char>| a.iter().collect(),
    );
    assert_eq!(
        experiment.describe(),
        "Experiment { name: \"experiment\", current: \"Fn(...)\", new: \"Fn(...)\", \
         setup: \"None\", run_if: \"None\", ignore_if: \"None\" }"
    );
}

#[test]
fn description_tells_which_hooks_are_attached() {
    let experiment: Experiment<u32, u32, u32> =
        Experiment::new("hooks", |a: &u32| *a, |a: &u32| *a).setup(|a| a + 1).ignore_if(|a| *a == 0);
    assert_eq!(
        experiment.describe(),
        "Experiment { name: \"hooks\", current: \"Fn(...)\", new: \"Fn(...)\", \
         setup: \"Some(Fn(...))\", run_if: \"None\", ignore_if: \"Some(Fn(...))\" }"
    );
    let experiment = experiment.run_if(|a| *a > 0);
    assert_eq!(
        experiment.describe(),
        "Experiment { name: \"hooks\", current: \"Fn(...)\", new: \"Fn(...)\", \
         setup: \"Some(Fn(...))\", run_if: \"Some(Fn(...))\", ignore_if: \"Some(Fn(...))\" }"
    );
}

#[test]
fn description_escapes_the_name() {
    let experiment: Experiment<u32, u32, u32> =
        Experiment::new("a \"b\"\n", |a: &u32| *a, |a: &u32| *a);
    assert_eq!(
        experiment.describe(),
        "Experiment { name: \"a \\\"b\\\"\\n\", current: \"Fn(...)\", new: \"Fn(...)\", \
         setup: \"None\", run_if: \"None\", ignore_if: \"None\" }"
    );
}
