use uknd::decode::Field;
use uknd::decode::LoadError;
use uknd::decode::Tier;
use uknd::gamedata::Act;
use uknd::gamedata::Category;
use uknd::gamedata::Difficulty;
use uknd::gamedata::Layer;
use uknd::gamedata::Level;
use uknd::gamedata::Track;
use uknd::loader::load_runs;
use uknd::loader::parse_toml;

fn level_run(runner: &str, code: &str, igt: u64) -> String {
    format!(
        "[[runs]]\nrunner = \"{}\"\ntrack = \"{}\"\nigt_ms = {}\ncategory = \"Any\"\nsubmission_date = 2023-01-15\ndifficulty = \"Standard\"\npatch_release_date = \"2022-08-11\"\nproof = \"https://example.invalid/a\"\n",
        runner, code, igt
    )
}

#[test]
fn missing_runs_key_is_missing_section() {
    let doc = "something_else = 1\n";
    assert_eq!(load_runs(doc).unwrap_err(), LoadError::MissingSection);
    assert_eq!(parse_toml(doc).unwrap_err(), LoadError::MissingSection);
}

#[test]
fn empty_runs_list_is_empty() {
    let doc = "runs = []\n";
    assert_eq!(load_runs(doc).unwrap_err(), LoadError::Empty);
    // The parser itself accepts an empty list; only loading reports it.
    assert_eq!(parse_toml(doc).map(|v| v.len()), Ok(0));
}

#[test]
fn invalid_toml_is_syntax() {
    assert_eq!(load_runs("runs = [\n").unwrap_err(), LoadError::Syntax);
}

#[test]
fn runs_not_a_list_is_malformed() {
    assert_eq!(load_runs("runs = 3\n").unwrap_err(), LoadError::MalformedRecord(Tier::Document, Field::Runs));
}

#[test]
fn unknown_category_is_malformed_record() {
    let doc = "[[runs]]\nrunner = \"A\"\ntrack = \"1-1\"\nigt_ms = 5000\ncategory = \"Speedy\"\nsubmission_date = 2023-01-15\ndifficulty = \"Standard\"\npatch_release_date = \"p\"\nproof = \"u\"\n";
    assert_eq!(load_runs(doc).unwrap_err(), LoadError::MalformedRecord(Tier::Level, Field::Category));
}

#[test]
fn level_run_decodes() {
    let doc = level_run("Alice", "0-5", 61234);
    let runs = load_runs(&doc).unwrap();
    assert_eq!(runs.len(), 1);
    let r = &runs[0];
    assert_eq!(r.runner, "Alice");
    assert!(matches!(r.track, Track::Level(Level::L0_5)));
    assert_eq!(r.igt_ms, 61234);
    assert_eq!(r.category, Category::Any);
    assert_eq!(r.difficulty, Difficulty::Standard);
    let d = r.submission_date.date.unwrap();
    assert_eq!((d.year, d.month, d.day), (2023, 1, 15));
    assert!(r.submission_date.time.is_none());
    assert_eq!(r.patch_release_date, "2022-08-11");
    assert_eq!(r.proof_url, "https://example.invalid/a");
}

#[test]
fn unknown_level_code_is_malformed_track() {
    let doc = level_run("Alice", "9-9", 1);
    assert_eq!(load_runs(&doc).unwrap_err(), LoadError::MalformedRecord(Tier::Level, Field::Track));
}

#[test]
fn custom_level_decodes() {
    let doc = "[[runs]]\nrunner = \"A\"\ntrack = { Custom = \"Sandbox Gauntlet\" }\nigt_ms = 5\ncategory = \"P\"\nsubmission_date = 2023-01-15\ndifficulty = \"Brutal\"\npatch_release_date = \"p\"\nproof = \"u\"\n";
    let runs = load_runs(doc).unwrap();
    match &runs[0].track {
        Track::Level(Level::Custom(name)) => assert_eq!(name, "Sandbox Gauntlet"),
        other => panic!("wrong track {other:?}"),
    }
}

#[test]
fn ukmd_alias_decodes() {
    let doc = level_run("A", "1-1", 1).replace("\"Standard\"", "\"UKMD\"");
    let runs = load_runs(&doc).unwrap();
    assert_eq!(runs[0].difficulty, Difficulty::UltrakillMustDie);
    let doc = level_run("A", "1-1", 1).replace("\"Standard\"", "\"Ultrakill Must Die\"");
    let runs = load_runs(&doc).unwrap();
    assert_eq!(runs[0].difficulty, Difficulty::UltrakillMustDie);
    // The variant's bare name is not an accepted spelling.
    let doc = level_run("A", "1-1", 1).replace("\"Standard\"", "\"UltrakillMustDie\"");
    assert_eq!(load_runs(&doc).unwrap_err(), LoadError::MalformedRecord(Tier::Level, Field::Difficulty));
}

#[test]
fn act_and_layer_aliases_decode() {
    let doc = "[[runs]]\nrunner = \"A\"\ntrack = \"ActII\"\nigt_ms = 1\ncategory = \"Any\"\nsubmission_date = 2023-01-15\ndifficulty = \"Standard\"\npatch_release_date = \"p\"\nproof = \"u\"\nlayers = []\n";
    let runs = parse_toml(doc).unwrap();
    assert!(matches!(runs[0].track, Track::Act(Act::II)));
    let doc = "[[runs]]\nrunner = \"A\"\ntrack = \"MouthOfHell\"\nigt_ms = 1\ncategory = \"Any\"\nsubmission_date = 2023-01-15\ndifficulty = \"Standard\"\npatch_release_date = \"p\"\nproof = \"u\"\nlevels = []\n";
    let runs = parse_toml(doc).unwrap();
    assert!(matches!(runs[0].track, Track::Layer(Layer::MouthOfHell)));
}

#[test]
fn igt_out_of_range_is_malformed() {
    let doc = level_run("A", "1-1", u64::from(u32::MAX) + 1);
    assert_eq!(load_runs(&doc).unwrap_err(), LoadError::MalformedRecord(Tier::Level, Field::IgtMs));
    let doc = level_run("A", "1-1", u64::from(u32::MAX));
    assert_eq!(load_runs(&doc).unwrap()[0].igt_ms, u32::MAX);
}

#[test]
fn missing_field_names_first_absent_field() {
    let doc = "[[runs]]\ntrack = \"1-1\"\nigt_ms = 5\ncategory = \"Any\"\nsubmission_date = 2023-01-15\ndifficulty = \"Standard\"\npatch_release_date = \"p\"\nproof = \"u\"\n";
    assert_eq!(load_runs(doc).unwrap_err(), LoadError::MalformedRecord(Tier::Level, Field::Runner));
}

#[test]
fn layer_run_decodes_with_children_first() {
    let doc = "[[runs]]\nrunner = \"L\"\ntrack = \"Limbo\"\nigt_ms = 9000\ncategory = \"Any\"\nsubmission_date = 2023-02-01\ndifficulty = \"Violent\"\npatch_release_date = \"p\"\nproof = \"u\"\n[[runs.levels]]\nrunner = \"L\"\ntrack = \"1-1\"\nigt_ms = 4000\ncategory = \"Any\"\nsubmission_date = 2023-02-01\ndifficulty = \"Violent\"\npatch_release_date = \"p\"\nproof = \"u\"\n[[runs.levels]]\nrunner = \"L\"\ntrack = \"1-2\"\nigt_ms = 5000\ncategory = \"Any\"\nsubmission_date = 2023-02-01\ndifficulty = \"Violent\"\npatch_release_date = \"p\"\nproof = \"u\"\n";
    let runs = load_runs(doc).unwrap();
    assert_eq!(runs.len(), 3);
    assert!(matches!(runs[0].track, Track::Level(Level::L1_1)));
    assert!(matches!(runs[1].track, Track::Level(Level::L1_2)));
    assert!(matches!(runs[2].track, Track::Layer(Layer::Limbo)));
}

#[test]
fn fullgame_run_flattens_every_node() {
    // One act with one layer with two levels: 1 + 1 + 1 + 2 = 5 records.
    let doc = "[[runs]]\nrunner = \"F\"\nigt_ms = 100000\ncategory = \"Any\"\nsubmission_date = 2023-03-01\ndifficulty = \"Standard\"\npatch_release_date = \"p\"\nproof = \"u\"\n[[runs.acts]]\nrunner = \"F\"\ntrack = \"Act 1\"\nigt_ms = 50000\ncategory = \"Any\"\nsubmission_date = 2023-03-01\ndifficulty = \"Standard\"\npatch_release_date = \"p\"\nproof = \"u\"\n[[runs.acts.layers]]\nrunner = \"F\"\ntrack = \"Mouth Of Hell\"\nigt_ms = 20000\ncategory = \"Any\"\nsubmission_date = 2023-03-01\ndifficulty = \"Standard\"\npatch_release_date = \"p\"\nproof = \"u\"\n[[runs.acts.layers.levels]]\nrunner = \"F\"\ntrack = \"0-1\"\nigt_ms = 8000\ncategory = \"Any\"\nsubmission_date = 2023-03-01\ndifficulty = \"Standard\"\npatch_release_date = \"p\"\nproof = \"u\"\n[[runs.acts.layers.levels]]\nrunner = \"F\"\ntrack = \"0-2\"\nigt_ms = 12000\ncategory = \"Any\"\nsubmission_date = 2023-03-01\ndifficulty = \"Standard\"\npatch_release_date = \"p\"\nproof = \"u\"\n";
    let runs = load_runs(doc).unwrap();
    assert_eq!(runs.len(), 5);
    assert!(matches!(runs[0].track, Track::Level(Level::L0_1)));
    assert!(matches!(runs[1].track, Track::Level(Level::L0_2)));
    assert!(matches!(runs[2].track, Track::Layer(Layer::MouthOfHell)));
    assert!(matches!(runs[3].track, Track::Act(Act::I)));
    assert!(matches!(runs[4].track, Track::Fullgame));
}

#[test]
fn nested_error_fails_whole_load() {
    let doc = "[[runs]]\nrunner = \"L\"\ntrack = \"Limbo\"\nigt_ms = 9000\ncategory = \"Any\"\nsubmission_date = 2023-02-01\ndifficulty = \"Violent\"\npatch_release_date = \"p\"\nproof = \"u\"\n[[runs.levels]]\nrunner = \"L\"\ntrack = \"1-1\"\nigt_ms = 4000\ncategory = \"NoSuch\"\nsubmission_date = 2023-02-01\ndifficulty = \"Violent\"\npatch_release_date = \"p\"\nproof = \"u\"\n";
    assert_eq!(load_runs(doc).unwrap_err(), LoadError::MalformedRecord(Tier::Level, Field::Category));
}

#[test]
fn two_top_level_runs_concatenate() {
    let doc = format!("{}{}", level_run("A", "1-1", 1000), level_run("B", "2-2", 2000));
    let runs = load_runs(&doc).unwrap();
    assert_eq!(runs.len(), 2);
    assert_eq!(runs[0].runner, "A");
    assert_eq!(runs[1].runner, "B");
}

#[test]
fn submission_datetime_with_time_decodes() {
    let doc = level_run("A", "1-1", 1).replace("2023-01-15", "2023-01-15T10:20:30Z");
    let runs = load_runs(&doc).unwrap();
    let stamp = runs[0].submission_date;
    let t = stamp.time.unwrap();
    assert_eq!((t.hour, t.minute, t.second), (10, 20, Some(30)));
    assert!(matches!(stamp.offset, Some(uknd::gamedata::UtcOffset::Zulu)));
}
