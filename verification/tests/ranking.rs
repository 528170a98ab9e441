use uknd::gamedata::CalDate;
use uknd::gamedata::Category;
use uknd::gamedata::DateStamp;
use uknd::gamedata::Difficulty;
use uknd::gamedata::Level;
use uknd::gamedata::Run;
use uknd::gamedata::Track;
use uknd::rank::RankError;
use uknd::rank::rank;

fn date(year: u16, month: u8, day: u8) -> DateStamp {
    DateStamp { date: Some(CalDate { year, month, day }), time: None, offset: None }
}

fn run(runner: &str, igt_ms: u32, difficulty: Difficulty) -> Run {
    Run {
        runner: runner.to_owned(),
        track: Track::Level(Level::L1_1),
        igt_ms,
        category: Category::Any,
        submission_date: date(2023, 1, 15),
        difficulty,
        patch_release_date: "2022-08-11".to_owned(),
        proof_url: "https://example.invalid/p".to_owned(),
    }
}

#[test]
fn harder_difficulty_wins_at_equal_time() {
    let runs = vec![run("A", 5000, Difficulty::Standard), run("B", 5000, Difficulty::Violent)];
    let out = rank(&runs, &Track::Level(Level::L1_1), Category::Any).unwrap();
    assert_eq!(out.len(), 2);
    assert_eq!(out[0].0, 1);
    assert_eq!(out[0].1.runner, "B");
    assert_eq!(out[1].0, 2);
    assert_eq!(out[1].1.runner, "A");
}

#[test]
fn faster_time_ranks_first() {
    let runs = vec![run("A", 7000, Difficulty::UltrakillMustDie), run("B", 5000, Difficulty::Harmless)];
    let out = rank(&runs, &Track::Level(Level::L1_1), Category::Any).unwrap();
    assert_eq!(out[0].1.runner, "B");
    assert_eq!(out[1].1.runner, "A");
}

#[test]
fn newer_patch_breaks_time_and_difficulty_tie() {
    let mut a = run("A", 5000, Difficulty::Standard);
    a.patch_release_date = "2022-01-01".to_owned();
    let mut b = run("B", 5000, Difficulty::Standard);
    b.patch_release_date = "2023-01-01".to_owned();
    let runs = vec![a, b];
    let out = rank(&runs, &Track::Level(Level::L1_1), Category::Any).unwrap();
    assert_eq!(out[0].1.runner, "B");
}

#[test]
fn earlier_submission_breaks_remaining_tie() {
    let mut a = run("A", 5000, Difficulty::Standard);
    a.submission_date = date(2023, 6, 1);
    let mut b = run("B", 5000, Difficulty::Standard);
    b.submission_date = date(2023, 5, 1);
    let runs = vec![a, b];
    let out = rank(&runs, &Track::Level(Level::L1_1), Category::Any).unwrap();
    assert_eq!(out[0].1.runner, "B");
}

#[test]
fn runner_name_is_final_tiebreak() {
    let runs = vec![run("Zed", 5000, Difficulty::Standard), run("Amy", 5000, Difficulty::Standard)];
    let out = rank(&runs, &Track::Level(Level::L1_1), Category::Any).unwrap();
    assert_eq!(out[0].1.runner, "Amy");
    assert_eq!(out[1].1.runner, "Zed");
}

#[test]
fn p_run_qualifies_for_any_but_nomo_does_not() {
    let mut p = run("P-runner", 4000, Difficulty::Standard);
    p.category = Category::P;
    let mut nomo = run("NoMo-runner", 3000, Difficulty::Standard);
    nomo.category = Category::NoMo;
    let any = run("Any-runner", 5000, Difficulty::Standard);
    let runs = vec![p, nomo, any];
    let track = Track::Level(Level::L1_1);

    let under_any = rank(&runs, &track, Category::Any).unwrap();
    let names: Vec<&str> = under_any.iter().map(|(_, r)| r.runner.as_str()).collect();
    assert_eq!(names, ["P-runner", "Any-runner"]);

    let under_p = rank(&runs, &track, Category::P).unwrap();
    let names: Vec<&str> = under_p.iter().map(|(_, r)| r.runner.as_str()).collect();
    assert_eq!(names, ["P-runner"]);

    let under_nomo = rank(&runs, &track, Category::NoMo).unwrap();
    let names: Vec<&str> = under_nomo.iter().map(|(_, r)| r.runner.as_str()).collect();
    assert_eq!(names, ["NoMo-runner"]);
}

#[test]
fn other_tracks_are_filtered_out() {
    let mut other = run("Other", 1000, Difficulty::Standard);
    other.track = Track::Level(Level::L2_2);
    let runs = vec![run("A", 5000, Difficulty::Standard), other];
    let out = rank(&runs, &Track::Level(Level::L1_1), Category::Any).unwrap();
    assert_eq!(out.len(), 1);
    assert_eq!(out[0].1.runner, "A");
}

#[test]
fn duplicate_runs_are_reported_not_ranked() {
    let runs = vec![run("A", 5000, Difficulty::Standard), run("A", 5000, Difficulty::Standard)];
    assert_eq!(rank(&runs, &Track::Level(Level::L1_1), Category::Any).unwrap_err(), RankError::DuplicateRecord);
}

#[test]
fn runs_differing_only_in_category_collide() {
    // The category is not a ranking field, so two otherwise identical
    // runs under Any selection are a data-integrity error.
    let mut p = run("A", 5000, Difficulty::Standard);
    p.category = Category::P;
    let any = run("A", 5000, Difficulty::Standard);
    let runs = vec![p, any];
    assert_eq!(rank(&runs, &Track::Level(Level::L1_1), Category::Any).unwrap_err(), RankError::DuplicateRecord);
}

#[test]
fn ranking_twice_gives_identical_output() {
    let runs = vec![
        run("A", 5000, Difficulty::Standard),
        run("B", 5000, Difficulty::Violent),
        run("C", 1000, Difficulty::Harmless),
        run("D", 9000, Difficulty::UltrakillMustDie),
    ];
    let track = Track::Level(Level::L1_1);
    let once = rank(&runs, &track, Category::Any).unwrap();
    let twice = rank(&runs, &track, Category::Any).unwrap();
    assert_eq!(once.len(), twice.len());
    for (x, y) in once.iter().zip(twice.iter()) {
        assert_eq!(x.0, y.0);
        assert_eq!(x.1.runner, y.1.runner);
        assert_eq!(x.1.igt_ms, y.1.igt_ms);
        assert_eq!(x.1.difficulty, y.1.difficulty);
        assert_eq!(x.1.patch_release_date, y.1.patch_release_date);
        assert_eq!(x.1.submission_date, y.1.submission_date);
    }
    let names: Vec<&str> = once.iter().map(|(_, r)| r.runner.as_str()).collect();
    assert_eq!(names, ["C", "B", "A", "D"]);
    let ranks: Vec<usize> = once.iter().map(|(i, _)| *i).collect();
    assert_eq!(ranks, [1, 2, 3, 4]);
}

#[test]
fn runner_tiebreak_compares_unicode_scalars() {
    // 'B' precedes 'a' by scalar value, so case decides before letters.
    let runs = vec![run("apple", 5000, Difficulty::Standard), run("Banana", 5000, Difficulty::Standard)];
    let out = rank(&runs, &Track::Level(Level::L1_1), Category::Any).unwrap();
    assert_eq!(out[0].1.runner, "Banana");
    assert_eq!(out[1].1.runner, "apple");
}

#[test]
fn absent_date_sorts_before_any_date() {
    let mut a = run("A", 5000, Difficulty::Standard);
    a.submission_date = DateStamp { date: None, time: None, offset: None };
    let b = run("B", 5000, Difficulty::Standard);
    let runs = vec![b, a];
    let out = rank(&runs, &Track::Level(Level::L1_1), Category::Any).unwrap();
    assert_eq!(out[0].1.runner, "A");
}

#[test]
fn rank_of_empty_collection_is_empty() {
    let runs: Vec<Run> = Vec::new();
    let out = rank(&runs, &Track::Fullgame, Category::Any).unwrap();
    assert!(out.is_empty());
}
