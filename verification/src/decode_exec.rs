//! Executable form of the hierarchical decoder, each function proved
//! equal to its specification in [`crate::decode`].

use vstd::prelude::*;

use crate::decode::Field;
use crate::decode::LoadError;
use crate::decode::Tier;
use crate::decode::act_of_value;
use crate::decode::category_of_value;
use crate::decode::dec_act_seq;
use crate::decode::dec_fullgame_node;
use crate::decode::dec_layer_seq;
use crate::decode::dec_level_node;
use crate::decode::dec_level_seq;
use crate::decode::dec_node;
use crate::decode::dec_node_seq;
use crate::decode::dec_run_at;
use crate::decode::difficulty_of_value;
use crate::decode::get_category;
use crate::decode::get_date;
use crate::decode::get_difficulty;
use crate::decode::get_igt;
use crate::decode::get_str_field;
use crate::decode::layer_of_value;
use crate::decode::level_of_code;
use crate::decode::level_of_value;
use crate::document::DocValue;
use crate::document::table_get;
use crate::document::table_lookup;
use crate::gamedata::Act;
use crate::gamedata::Category;
use crate::gamedata::DateStamp;
use crate::gamedata::Difficulty;
use crate::gamedata::Layer;
use crate::gamedata::Level;
use crate::gamedata::Run;
use crate::gamedata::Track;
use crate::text::str_eq;

verus! {

/// Read the string field under `key`, implementing [`get_str_field`].
fn read_str_field(e: &Vec<(String, DocValue)>, key: &str) -> (r: Option<String>)
    ensures
        r == get_str_field(e@, key@),
{
    match table_lookup(e, key) {
        Some(DocValue::Str(s)) => Some(s.clone()),
        _ => None,
    }
}

/// Read the in-game time, implementing [`get_igt`].
fn read_igt(e: &Vec<(String, DocValue)>) -> (r: Option<u32>)
    ensures
        r == get_igt(e@),
{
    match table_lookup(e, "igt_ms") {
        Some(DocValue::Int(i)) => if 0 <= *i && *i <= u32::MAX as i64 {
            Some(*i as u32)
        } else {
            None
        },
        _ => None,
    }
}

/// Read the submission timestamp, implementing [`get_date`].
fn read_date(e: &Vec<(String, DocValue)>) -> (r: Option<DateStamp>)
    ensures
        r == get_date(e@),
{
    match table_lookup(e, "submission_date") {
        Some(DocValue::Date(d)) => Some(*d),
        _ => None,
    }
}

/// Decode a category value, implementing [`category_of_value`].
fn decode_category(v: &DocValue) -> (r: Option<Category>)
    ensures
        r == category_of_value(*v),
{
    match v {
        DocValue::Str(s) => {
            let s = s.as_str();
            if str_eq(s, "P") {
                Some(Category::P)
            } else if str_eq(s, "Any") {
                Some(Category::Any)
            } else if str_eq(s, "NoMo") {
                Some(Category::NoMo)
            } else {
                None
            }
        },
        _ => None,
    }
}

/// Decode a difficulty value, implementing [`difficulty_of_value`].
fn decode_difficulty(v: &DocValue) -> (r: Option<Difficulty>)
    ensures
        r == difficulty_of_value(*v),
{
    match v {
        DocValue::Str(s) => {
            let s = s.as_str();
            if str_eq(s, "Harmless") {
                Some(Difficulty::Harmless)
            } else if str_eq(s, "Lenient") {
                Some(Difficulty::Lenient)
            } else if str_eq(s, "Standard") {
                Some(Difficulty::Standard)
            } else if str_eq(s, "Violent") {
                Some(Difficulty::Violent)
            } else if str_eq(s, "Brutal") {
                Some(Difficulty::Brutal)
            } else if str_eq(s, "Ultrakill Must Die") || str_eq(s, "UKMD") {
                Some(Difficulty::UltrakillMustDie)
            } else {
                None
            }
        },
        _ => None,
    }
}

/// Decode a zone-stage code, implementing [`level_of_code`].
fn decode_level_code(s: &str) -> (r: Option<Level>)
    ensures
        r == level_of_code(s@),
{
    if str_eq(s, "0-1") {
        Some(Level::L0_1)
    } else if str_eq(s, "0-2") {
        Some(Level::L0_2)
    } else if str_eq(s, "0-3") {
        Some(Level::L0_3)
    } else if str_eq(s, "0-4") {
        Some(Level::L0_4)
    } else if str_eq(s, "0-5") {
        Some(Level::L0_5)
    } else if str_eq(s, "1-1") {
        Some(Level::L1_1)
    } else if str_eq(s, "1-2") {
        Some(Level::L1_2)
    } else if str_eq(s, "1-3") {
        Some(Level::L1_3)
    } else if str_eq(s, "1-4") {
        Some(Level::L1_4)
    } else if str_eq(s, "2-1") {
        Some(Level::L2_1)
    } else if str_eq(s, "2-2") {
        Some(Level::L2_2)
    } else if str_eq(s, "2-3") {
        Some(Level::L2_3)
    } else if str_eq(s, "2-4") {
        Some(Level::L2_4)
    } else if str_eq(s, "3-1") {
        Some(Level::L3_1)
    } else if str_eq(s, "3-2") {
        Some(Level::L3_2)
    } else if str_eq(s, "P-1") {
        Some(Level::LP_1)
    } else if str_eq(s, "4-1") {
        Some(Level::L4_1)
    } else if str_eq(s, "4-2") {
        Some(Level::L4_2)
    } else if str_eq(s, "4-3") {
        Some(Level::L4_3)
    } else if str_eq(s, "4-4") {
        Some(Level::L4_4)
    } else if str_eq(s, "5-1") {
        Some(Level::L5_1)
    } else if str_eq(s, "5-2") {
        Some(Level::L5_2)
    } else if str_eq(s, "5-3") {
        Some(Level::L5_3)
    } else if str_eq(s, "5-4") {
        Some(Level::L5_4)
    } else if str_eq(s, "6-1") {
        Some(Level::L6_1)
    } else if str_eq(s, "6-2") {
        Some(Level::L6_2)
    } else if str_eq(s, "P-2") {
        Some(Level::LP_2)
    } else if str_eq(s, "7-1") {
        Some(Level::L7_1)
    } else if str_eq(s, "7-2") {
        Some(Level::L7_2)
    } else if str_eq(s, "7-3") {
        Some(Level::L7_3)
    } else if str_eq(s, "7-4") {
        Some(Level::L7_4)
    } else {
        None
    }
}

/// Decode a level value, implementing [`level_of_value`].
fn decode_level(v: &DocValue) -> (r: Option<Level>)
    ensures
        r == level_of_value(*v),
{
    match v {
        DocValue::Str(s) => decode_level_code(s.as_str()),
        DocValue::Table(e) => match table_lookup(e, "Custom") {
            Some(DocValue::Str(name)) => Some(Level::Custom(name.clone())),
            _ => None,
        },
        _ => None,
    }
}

/// Decode a layer value, implementing [`layer_of_value`].
fn decode_layer(v: &DocValue) -> (r: Option<Layer>)
    ensures
        r == layer_of_value(*v),
{
    match v {
        DocValue::Str(s) => {
            let s = s.as_str();
            if str_eq(s, "MouthOfHell") || str_eq(s, "Mouth Of Hell") {
                Some(Layer::MouthOfHell)
            } else if str_eq(s, "Limbo") {
                Some(Layer::Limbo)
            } else if str_eq(s, "Lust") {
                Some(Layer::Lust)
            } else if str_eq(s, "Gluttony") {
                Some(Layer::Gluttony)
            } else if str_eq(s, "Greed") {
                Some(Layer::Greed)
            } else if str_eq(s, "Wrath") {
                Some(Layer::Wrath)
            } else if str_eq(s, "Heresy") {
                Some(Layer::Heresy)
            } else if str_eq(s, "Violence") {
                Some(Layer::Violence)
            } else {
                None
            }
        },
        _ => None,
    }
}

/// Decode an act value, implementing [`act_of_value`].
fn decode_act(v: &DocValue) -> (r: Option<Act>)
    ensures
        r == act_of_value(*v),
{
    match v {
        DocValue::Str(s) => {
            let s = s.as_str();
            if str_eq(s, "I") || str_eq(s, "Act1") || str_eq(s, "Act 1") || str_eq(s, "ActI")
                || str_eq(s, "Act I") || str_eq(s, "InfiniteHyperdeath") || str_eq(
                s,
                "Infinite Hyperdeath",
            ) {
                Some(Act::I)
            } else if str_eq(s, "II") || str_eq(s, "Act2") || str_eq(s, "Act 2") || str_eq(
                s,
                "ActII",
            ) || str_eq(s, "Act II") || str_eq(s, "ImperfectHatred") || str_eq(
                s,
                "Imperfect Hatred",
            ) {
                Some(Act::II)
            } else {
                None
            }
        },
        _ => None,
    }
}

/// Decode the seven common run fields, implementing [`dec_run_at`].
fn decode_run_at(e: &Vec<(String, DocValue)>, tier: Tier, track: Track) -> (r: Result<
    Run,
    LoadError,
>)
    ensures
        r == dec_run_at(e@, tier, track),
{
    let runner = match read_str_field(e, "runner") {
        None => {
            return Err(LoadError::MalformedRecord(tier, Field::Runner));
        },
        Some(x) => x,
    };
    let igt = match read_igt(e) {
        None => {
            return Err(LoadError::MalformedRecord(tier, Field::IgtMs));
        },
        Some(x) => x,
    };
    let cat = match table_lookup(e, "category") {
        None => {
            return Err(LoadError::MalformedRecord(tier, Field::Category));
        },
        Some(v) => match decode_category(v) {
            None => {
                return Err(LoadError::MalformedRecord(tier, Field::Category));
            },
            Some(x) => x,
        },
    };
    proof {
        assert(get_category(e@) == Some(cat));
    }
    let date = match read_date(e) {
        None => {
            return Err(LoadError::MalformedRecord(tier, Field::SubmissionDate));
        },
        Some(x) => x,
    };
    let diff = match table_lookup(e, "difficulty") {
        None => {
            return Err(LoadError::MalformedRecord(tier, Field::Difficulty));
        },
        Some(v) => match decode_difficulty(v) {
            None => {
                return Err(LoadError::MalformedRecord(tier, Field::Difficulty));
            },
            Some(x) => x,
        },
    };
    proof {
        assert(get_difficulty(e@) == Some(diff));
    }
    let patch = match read_str_field(e, "patch_release_date") {
        None => {
            return Err(LoadError::MalformedRecord(tier, Field::PatchReleaseDate));
        },
        Some(x) => x,
    };
    let pr = match read_str_field(e, "proof") {
        None => {
            return Err(LoadError::MalformedRecord(tier, Field::Proof));
        },
        Some(x) => x,
    };
    Ok(
        Run {
            runner,
            track,
            igt_ms: igt,
            category: cat,
            submission_date: date,
            difficulty: diff,
            patch_release_date: patch,
            proof_url: pr,
        },
    )
}

/// Decode one leaf level node, implementing [`dec_level_node`].
fn decode_level_node(v: &DocValue) -> (r: Result<Run, LoadError>)
    ensures
        r == dec_level_node(*v),
{
    match v {
        DocValue::Table(e) => match table_lookup(e, "track") {
            None => Err(LoadError::MalformedRecord(Tier::Level, Field::Track)),
            Some(tv) => match decode_level(tv) {
                None => Err(LoadError::MalformedRecord(Tier::Level, Field::Track)),
                Some(l) => decode_run_at(e, Tier::Level, Track::Level(l)),
            },
        },
        _ => Err(LoadError::MalformedRecord(Tier::Level, Field::Record)),
    }
}

/// Decode the level nodes from position `i` on, implementing
/// [`dec_level_seq`].
fn decode_level_seq(vs: &Vec<DocValue>, i: usize) -> (r: Result<Vec<Run>, LoadError>)
    requires
        i <= vs.len(),
    ensures
        match r {
            Ok(out) => dec_level_seq(vs@, i as int) == Ok::<Seq<Run>, LoadError>(out@),
            Err(er) => dec_level_seq(vs@, i as int) == Err::<Seq<Run>, LoadError>(er),
        },
    decreases vs.len() - i,
{
    if i == vs.len() {
        let out: Vec<Run> = Vec::new();
        proof {
            assert(out@ =~= Seq::<Run>::empty());
        }
        Ok(out)
    } else {
        match decode_level_node(&vs[i]) {
            Err(er) => Err(er),
            Ok(run) => match decode_level_seq(vs, i + 1) {
                Err(er) => Err(er),
                Ok(mut rest) => {
                    let ghost spec_run = run;
                    let ghost spec_rest = rest@;
                    let mut out: Vec<Run> = Vec::new();
                    out.push(run);
                    out.append(&mut rest);
                    proof {
                        assert(out@ =~= seq![spec_run] + spec_rest);
                    }
                    Ok(out)
                },
            },
        }
    }
}

/// Decode one layer node, implementing [`dec_layer_node`].
fn decode_layer_node(v: &DocValue) -> (r: Result<Vec<Run>, LoadError>)
    ensures
        match r {
            Ok(out) => crate::decode::dec_layer_node(*v) == Ok::<Seq<Run>, LoadError>(out@),
            Err(er) => crate::decode::dec_layer_node(*v) == Err::<Seq<Run>, LoadError>(er),
        },
{
    match v {
        DocValue::Table(e) => match table_lookup(e, "track") {
            None => Err(LoadError::MalformedRecord(Tier::Layer, Field::Track)),
            Some(tv) => match decode_layer(tv) {
                None => Err(LoadError::MalformedRecord(Tier::Layer, Field::Track)),
                Some(ly) => match decode_run_at(e, Tier::Layer, Track::Layer(ly)) {
                    Err(er) => Err(er),
                    Ok(own) => match table_lookup(e, "levels") {
                        Some(DocValue::Array(children)) => match decode_level_seq(children, 0) {
                            Err(er) => Err(er),
                            Ok(mut runs) => {
                                runs.push(own);
                                Ok(runs)
                            },
                        },
                        _ => Err(LoadError::MalformedRecord(Tier::Layer, Field::Levels)),
                    },
                },
            },
        },
        _ => Err(LoadError::MalformedRecord(Tier::Layer, Field::Record)),
    }
}

/// Decode the layer nodes from position `i` on, implementing
/// [`dec_layer_seq`].
fn decode_layer_seq(vs: &Vec<DocValue>, i: usize) -> (r: Result<Vec<Run>, LoadError>)
    requires
        i <= vs.len(),
    ensures
        match r {
            Ok(out) => dec_layer_seq(vs@, i as int) == Ok::<Seq<Run>, LoadError>(out@),
            Err(er) => dec_layer_seq(vs@, i as int) == Err::<Seq<Run>, LoadError>(er),
        },
    decreases vs.len() - i,
{
    if i == vs.len() {
        let out: Vec<Run> = Vec::new();
        proof {
            assert(out@ =~= Seq::<Run>::empty());
        }
        Ok(out)
    } else {
        match decode_layer_node(&vs[i]) {
            Err(er) => Err(er),
            Ok(mut runs) => match decode_layer_seq(vs, i + 1) {
                Err(er) => Err(er),
                Ok(mut rest) => {
                    let ghost spec_runs = runs@;
                    let ghost spec_rest = rest@;
                    runs.append(&mut rest);
                    proof {
                        assert(runs@ =~= spec_runs + spec_rest);
                    }
                    Ok(runs)
                },
            },
        }
    }
}

/// Decode one act node, implementing [`crate::decode::dec_act_node`].
fn decode_act_node(v: &DocValue) -> (r: Result<Vec<Run>, LoadError>)
    ensures
        match r {
            Ok(out) => crate::decode::dec_act_node(*v) == Ok::<Seq<Run>, LoadError>(out@),
            Err(er) => crate::decode::dec_act_node(*v) == Err::<Seq<Run>, LoadError>(er),
        },
{
    match v {
        DocValue::Table(e) => match table_lookup(e, "track") {
            None => Err(LoadError::MalformedRecord(Tier::Act, Field::Track)),
            Some(tv) => match decode_act(tv) {
                None => Err(LoadError::MalformedRecord(Tier::Act, Field::Track)),
                Some(a) => match decode_run_at(e, Tier::Act, Track::Act(a)) {
                    Err(er) => Err(er),
                    Ok(own) => match table_lookup(e, "layers") {
                        Some(DocValue::Array(children)) => match decode_layer_seq(children, 0) {
                            Err(er) => Err(er),
                            Ok(mut runs) => {
                                runs.push(own);
                                Ok(runs)
                            },
                        },
                        _ => Err(LoadError::MalformedRecord(Tier::Act, Field::Layers)),
                    },
                },
            },
        },
        _ => Err(LoadError::MalformedRecord(Tier::Act, Field::Record)),
    }
}

/// Decode the act nodes from position `i` on, implementing
/// [`dec_act_seq`].
fn decode_act_seq(vs: &Vec<DocValue>, i: usize) -> (r: Result<Vec<Run>, LoadError>)
    requires
        i <= vs.len(),
    ensures
        match r {
            Ok(out) => dec_act_seq(vs@, i as int) == Ok::<Seq<Run>, LoadError>(out@),
            Err(er) => dec_act_seq(vs@, i as int) == Err::<Seq<Run>, LoadError>(er),
        },
    decreases vs.len() - i,
{
    if i == vs.len() {
        let out: Vec<Run> = Vec::new();
        proof {
            assert(out@ =~= Seq::<Run>::empty());
        }
        Ok(out)
    } else {
        match decode_act_node(&vs[i]) {
            Err(er) => Err(er),
            Ok(mut runs) => match decode_act_seq(vs, i + 1) {
                Err(er) => Err(er),
                Ok(mut rest) => {
                    let ghost spec_runs = runs@;
                    let ghost spec_rest = rest@;
                    runs.append(&mut rest);
                    proof {
                        assert(runs@ =~= spec_runs + spec_rest);
                    }
                    Ok(runs)
                },
            },
        }
    }
}

/// Decode one full-game node, implementing [`dec_fullgame_node`].
fn decode_fullgame_node(v: &DocValue) -> (r: Result<Vec<Run>, LoadError>)
    ensures
        match r {
            Ok(out) => dec_fullgame_node(*v) == Ok::<Seq<Run>, LoadError>(out@),
            Err(er) => dec_fullgame_node(*v) == Err::<Seq<Run>, LoadError>(er),
        },
{
    match v {
        DocValue::Table(e) => match decode_run_at(e, Tier::Fullgame, Track::Fullgame) {
            Err(er) => Err(er),
            Ok(own) => match table_lookup(e, "acts") {
                Some(DocValue::Array(children)) => match decode_act_seq(children, 0) {
                    Err(er) => Err(er),
                    Ok(mut runs) => {
                        runs.push(own);
                        Ok(runs)
                    },
                },
                _ => Err(LoadError::MalformedRecord(Tier::Fullgame, Field::Acts)),
            },
        },
        _ => Err(LoadError::MalformedRecord(Tier::Fullgame, Field::Record)),
    }
}

/// Decode one top-level submission node, implementing [`dec_node`].
fn decode_node(v: &DocValue) -> (r: Result<Vec<Run>, LoadError>)
    ensures
        match r {
            Ok(out) => dec_node(*v) == Ok::<Seq<Run>, LoadError>(out@),
            Err(er) => dec_node(*v) == Err::<Seq<Run>, LoadError>(er),
        },
{
    match v {
        DocValue::Table(e) => {
            if table_lookup(e, "acts").is_some() {
                decode_fullgame_node(v)
            } else if table_lookup(e, "layers").is_some() {
                decode_act_node(v)
            } else if table_lookup(e, "levels").is_some() {
                decode_layer_node(v)
            } else {
                match decode_level_node(v) {
                    Err(er) => Err(er),
                    Ok(run) => {
                        let ghost spec_run = run;
                        let mut out: Vec<Run> = Vec::new();
                        out.push(run);
                        proof {
                            assert(out@ =~= seq![spec_run]);
                        }
                        Ok(out)
                    },
                }
            }
        },
        _ => Err(LoadError::MalformedRecord(Tier::Level, Field::Record)),
    }
}

/// Decode the top-level nodes from position `i` on, implementing
/// [`dec_node_seq`].
pub(crate) fn decode_node_seq(vs: &Vec<DocValue>, i: usize) -> (r: Result<Vec<Run>, LoadError>)
    requires
        i <= vs.len(),
    ensures
        match r {
            Ok(out) => dec_node_seq(vs@, i as int) == Ok::<Seq<Run>, LoadError>(out@),
            Err(er) => dec_node_seq(vs@, i as int) == Err::<Seq<Run>, LoadError>(er),
        },
    decreases vs.len() - i,
{
    if i == vs.len() {
        let out: Vec<Run> = Vec::new();
        proof {
            assert(out@ =~= Seq::<Run>::empty());
        }
        Ok(out)
    } else {
        match decode_node(&vs[i]) {
            Err(er) => Err(er),
            Ok(mut runs) => match decode_node_seq(vs, i + 1) {
                Err(er) => Err(er),
                Ok(mut rest) => {
                    let ghost spec_runs = runs@;
                    let ghost spec_rest = rest@;
                    runs.append(&mut rest);
                    proof {
                        assert(runs@ =~= spec_runs + spec_rest);
                    }
                    Ok(runs)
                },
            },
        }
    }
}

} // verus!
