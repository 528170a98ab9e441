//! Hierarchical decoder: validates one nested submission document and
//! flattens it into per-track run records.
//!
//! A submission node is a table. Its shape is decided by which
//! sub-collection key is present, trying `acts` (a full-game run), then
//! `layers` (an act run), then `levels` (a layer run), and falling back
//! to a leaf level run; reversing that order would misclassify ambiguous
//! nodes. Within a node the fields are validated in a fixed order —
//! track, runner, igt_ms, category, submission_date, difficulty,
//! patch_release_date, proof, then the sub-collection — and the first
//! field that is missing, ill-typed or outside its domain names the
//! error. A node decodes to its children's runs in document order
//! followed by one run for the node itself; a node either decodes
//! whole or fails the whole load.
//!
//! The aggregate consistency between a coarse run and its constituent
//! runs — a compatible category, a time consistent with the sum of the
//! parts — is advisory: the decoder records what the document states
//! and does not reject an inconsistent aggregate.

use vstd::prelude::*;

use crate::document::DocValue;
use crate::document::table_get;
use crate::document::table_lookup;
use crate::gamedata::Act;
use crate::gamedata::Category;
use crate::gamedata::DateStamp;
use crate::gamedata::Difficulty;
use crate::gamedata::Layer;
use crate::gamedata::Level;
use crate::gamedata::Run;
use crate::gamedata::Track;
verus! {

/// The hierarchy tier of the submission node an error arose in;
/// `Document` stands for the document's top level.
#[derive(Debug, Clone, Copy, PartialEq, Eq, Structural)]
pub enum Tier {
    Document,
    Fullgame,
    Act,
    Layer,
    Level,
}

/// The field of a submission node an error arose in; `Record` stands
/// for a node that is not a table at all.
#[derive(Debug, Clone, Copy, PartialEq, Eq, Structural)]
pub enum Field {
    Runner,
    Track,
    IgtMs,
    Category,
    SubmissionDate,
    Difficulty,
    PatchReleaseDate,
    Proof,
    Acts,
    Layers,
    Levels,
    Runs,
    Record,
}

/// Why a document failed to load: not valid TOML at all, no top-level
/// `runs` collection, a node that fails validation, or a document that
/// yields no runs.
#[derive(Debug, Clone, Copy, PartialEq, Eq, Structural)]
pub enum LoadError {
    Syntax,
    MissingSection,
    Empty,
    MalformedRecord(Tier, Field),
}

/// The string under `key`, if the table holds one there.
pub open spec fn get_str_field(e: Seq<(String, DocValue)>, key: Seq<char>) -> Option<String> {
    match table_get(e, key) {
        Some(DocValue::Str(s)) => Some(s),
        _ => None,
    }
}

/// The in-game time under `igt_ms`, if the table holds an integer there
/// that fits an unsigned 32-bit count of milliseconds.
pub open spec fn get_igt(e: Seq<(String, DocValue)>) -> Option<u32> {
    match table_get(e, "igt_ms"@) {
        Some(DocValue::Int(i)) => if 0 <= i && i <= u32::MAX {
            Some(i as u32)
        } else {
            None
        },
        _ => None,
    }
}

/// The timestamp under `submission_date`, if the table holds one.
pub open spec fn get_date(e: Seq<(String, DocValue)>) -> Option<DateStamp> {
    match table_get(e, "submission_date"@) {
        Some(DocValue::Date(d)) => Some(d),
        _ => None,
    }
}

/// The category a string value names, if it is in the closed set.
pub open spec fn category_of_value(v: DocValue) -> Option<Category> {
    match v {
        DocValue::Str(s) => if s@ == "P"@ {
            Some(Category::P)
        } else if s@ == "Any"@ {
            Some(Category::Any)
        } else if s@ == "NoMo"@ {
            Some(Category::NoMo)
        } else {
            None
        },
        _ => None,
    }
}

/// The category under `category`, if valid.
pub open spec fn get_category(e: Seq<(String, DocValue)>) -> Option<Category> {
    match table_get(e, "category"@) {
        Some(v) => category_of_value(v),
        None => None,
    }
}

/// The difficulty a string value names; the hardest difficulty is
/// written `Ultrakill Must Die` or abbreviated `UKMD`.
pub open spec fn difficulty_of_value(v: DocValue) -> Option<Difficulty> {
    match v {
        DocValue::Str(s) => if s@ == "Harmless"@ {
            Some(Difficulty::Harmless)
        } else if s@ == "Lenient"@ {
            Some(Difficulty::Lenient)
        } else if s@ == "Standard"@ {
            Some(Difficulty::Standard)
        } else if s@ == "Violent"@ {
            Some(Difficulty::Violent)
        } else if s@ == "Brutal"@ {
            Some(Difficulty::Brutal)
        } else if s@ == "Ultrakill Must Die"@ || s@ == "UKMD"@ {
            Some(Difficulty::UltrakillMustDie)
        } else {
            None
        },
        _ => None,
    }
}

/// The difficulty under `difficulty`, if valid.
pub open spec fn get_difficulty(e: Seq<(String, DocValue)>) -> Option<Difficulty> {
    match table_get(e, "difficulty"@) {
        Some(v) => difficulty_of_value(v),
        None => None,
    }
}

/// The named level a zone-stage code denotes, if any.
pub open spec fn level_of_code(s: Seq<char>) -> Option<Level> {
    if s == "0-1"@ {
        Some(Level::L0_1)
    } else if s == "0-2"@ {
        Some(Level::L0_2)
    } else if s == "0-3"@ {
        Some(Level::L0_3)
    } else if s == "0-4"@ {
        Some(Level::L0_4)
    } else if s == "0-5"@ {
        Some(Level::L0_5)
    } else if s == "1-1"@ {
        Some(Level::L1_1)
    } else if s == "1-2"@ {
        Some(Level::L1_2)
    } else if s == "1-3"@ {
        Some(Level::L1_3)
    } else if s == "1-4"@ {
        Some(Level::L1_4)
    } else if s == "2-1"@ {
        Some(Level::L2_1)
    } else if s == "2-2"@ {
        Some(Level::L2_2)
    } else if s == "2-3"@ {
        Some(Level::L2_3)
    } else if s == "2-4"@ {
        Some(Level::L2_4)
    } else if s == "3-1"@ {
        Some(Level::L3_1)
    } else if s == "3-2"@ {
        Some(Level::L3_2)
    } else if s == "P-1"@ {
        Some(Level::LP_1)
    } else if s == "4-1"@ {
        Some(Level::L4_1)
    } else if s == "4-2"@ {
        Some(Level::L4_2)
    } else if s == "4-3"@ {
        Some(Level::L4_3)
    } else if s == "4-4"@ {
        Some(Level::L4_4)
    } else if s == "5-1"@ {
        Some(Level::L5_1)
    } else if s == "5-2"@ {
        Some(Level::L5_2)
    } else if s == "5-3"@ {
        Some(Level::L5_3)
    } else if s == "5-4"@ {
        Some(Level::L5_4)
    } else if s == "6-1"@ {
        Some(Level::L6_1)
    } else if s == "6-2"@ {
        Some(Level::L6_2)
    } else if s == "P-2"@ {
        Some(Level::LP_2)
    } else if s == "7-1"@ {
        Some(Level::L7_1)
    } else if s == "7-2"@ {
        Some(Level::L7_2)
    } else if s == "7-3"@ {
        Some(Level::L7_3)
    } else if s == "7-4"@ {
        Some(Level::L7_4)
    } else {
        None
    }
}

/// The level a value denotes: a zone-stage code string, or a table whose
/// `Custom` entry names a level outside the fixed list.
pub open spec fn level_of_value(v: DocValue) -> Option<Level> {
    match v {
        DocValue::Str(s) => level_of_code(s@),
        DocValue::Table(e) => match table_get(e@, "Custom"@) {
            Some(DocValue::Str(name)) => Some(Level::Custom(name)),
            _ => None,
        },
        _ => None,
    }
}

/// The layer a string value names; the first layer may be written with
/// or without spaces.
pub open spec fn layer_of_value(v: DocValue) -> Option<Layer> {
    match v {
        DocValue::Str(s) => if s@ == "MouthOfHell"@ || s@ == "Mouth Of Hell"@ {
            Some(Layer::MouthOfHell)
        } else if s@ == "Limbo"@ {
            Some(Layer::Limbo)
        } else if s@ == "Lust"@ {
            Some(Layer::Lust)
        } else if s@ == "Gluttony"@ {
            Some(Layer::Gluttony)
        } else if s@ == "Greed"@ {
            Some(Layer::Greed)
        } else if s@ == "Wrath"@ {
            Some(Layer::Wrath)
        } else if s@ == "Heresy"@ {
            Some(Layer::Heresy)
        } else if s@ == "Violence"@ {
            Some(Layer::Violence)
        } else {
            None
        },
        _ => None,
    }
}

/// The act a string value names, under any of its accepted spellings.
pub open spec fn act_of_value(v: DocValue) -> Option<Act> {
    match v {
        DocValue::Str(s) => if s@ == "I"@ || s@ == "Act1"@ || s@ == "Act 1"@ || s@ == "ActI"@ || s@
            == "Act I"@ || s@ == "InfiniteHyperdeath"@ || s@ == "Infinite Hyperdeath"@ {
            Some(Act::I)
        } else if s@ == "II"@ || s@ == "Act2"@ || s@ == "Act 2"@ || s@ == "ActII"@ || s@
            == "Act II"@ || s@ == "ImperfectHatred"@ || s@ == "Imperfect Hatred"@ {
            Some(Act::II)
        } else {
            None
        },
        _ => None,
    }
}

/// Decode the seven run fields every node carries, in order, and build
/// the record for the node itself against the already-decoded `track`.
pub open spec fn dec_run_at(e: Seq<(String, DocValue)>, tier: Tier, track: Track) -> Result<
    Run,
    LoadError,
> {
    match get_str_field(e, "runner"@) {
        None => Err(LoadError::MalformedRecord(tier, Field::Runner)),
        Some(runner) => match get_igt(e) {
            None => Err(LoadError::MalformedRecord(tier, Field::IgtMs)),
            Some(igt) => match get_category(e) {
                None => Err(LoadError::MalformedRecord(tier, Field::Category)),
                Some(cat) => match get_date(e) {
                    None => Err(LoadError::MalformedRecord(tier, Field::SubmissionDate)),
                    Some(date) => match get_difficulty(e) {
                        None => Err(LoadError::MalformedRecord(tier, Field::Difficulty)),
                        Some(diff) => match get_str_field(e, "patch_release_date"@) {
                            None => Err(
                                LoadError::MalformedRecord(tier, Field::PatchReleaseDate),
                            ),
                            Some(patch) => match get_str_field(e, "proof"@) {
                                None => Err(LoadError::MalformedRecord(tier, Field::Proof)),
                                Some(pr) => Ok(
                                    Run {
                                        runner,
                                        track,
                                        igt_ms: igt,
                                        category: cat,
                                        submission_date: date,
                                        difficulty: diff,
                                        patch_release_date: patch,
                                        proof_url: pr,
                                    },
                                ),
                            },
                        },
                    },
                },
            },
        },
    }
}

/// Decode one leaf level node into its single run.
pub open spec fn dec_level_node(v: DocValue) -> Result<Run, LoadError> {
    match v {
        DocValue::Table(e) => match table_get(e@, "track"@) {
            None => Err(LoadError::MalformedRecord(Tier::Level, Field::Track)),
            Some(tv) => match level_of_value(tv) {
                None => Err(LoadError::MalformedRecord(Tier::Level, Field::Track)),
                Some(l) => dec_run_at(e@, Tier::Level, Track::Level(l)),
            },
        },
        _ => Err(LoadError::MalformedRecord(Tier::Level, Field::Record)),
    }
}

/// Decode the level nodes of `vs` from position `i` on, one run each,
/// in document order.
pub open spec fn dec_level_seq(vs: Seq<DocValue>, i: int) -> Result<Seq<Run>, LoadError>
    decreases vs.len() - i,
{
    if i < 0 || i >= vs.len() {
        Ok(Seq::empty())
    } else {
        match dec_level_node(vs[i]) {
            Err(er) => Err(er),
            Ok(r) => match dec_level_seq(vs, i + 1) {
                Err(er) => Err(er),
                Ok(rest) => Ok(seq![r] + rest),
            },
        }
    }
}

/// Decode one layer node: its level runs in document order, then one
/// run for the layer itself.
pub open spec fn dec_layer_node(v: DocValue) -> Result<Seq<Run>, LoadError> {
    match v {
        DocValue::Table(e) => match table_get(e@, "track"@) {
            None => Err(LoadError::MalformedRecord(Tier::Layer, Field::Track)),
            Some(tv) => match layer_of_value(tv) {
                None => Err(LoadError::MalformedRecord(Tier::Layer, Field::Track)),
                Some(ly) => match dec_run_at(e@, Tier::Layer, Track::Layer(ly)) {
                    Err(er) => Err(er),
                    Ok(own) => match table_get(e@, "levels"@) {
                        Some(DocValue::Array(children)) => match dec_level_seq(children@, 0) {
                            Err(er) => Err(er),
                            Ok(runs) => Ok(runs.push(own)),
                        },
                        _ => Err(LoadError::MalformedRecord(Tier::Layer, Field::Levels)),
                    },
                },
            },
        },
        _ => Err(LoadError::MalformedRecord(Tier::Layer, Field::Record)),
    }
}

/// Decode the layer nodes of `vs` from position `i` on, concatenating
/// their runs in document order.
pub open spec fn dec_layer_seq(vs: Seq<DocValue>, i: int) -> Result<Seq<Run>, LoadError>
    decreases vs.len() - i,
{
    if i < 0 || i >= vs.len() {
        Ok(Seq::empty())
    } else {
        match dec_layer_node(vs[i]) {
            Err(er) => Err(er),
            Ok(rs) => match dec_layer_seq(vs, i + 1) {
                Err(er) => Err(er),
                Ok(rest) => Ok(rs + rest),
            },
        }
    }
}

/// Decode one act node: its layers' runs in document order, then one
/// run for the act itself.
pub open spec fn dec_act_node(v: DocValue) -> Result<Seq<Run>, LoadError> {
    match v {
        DocValue::Table(e) => match table_get(e@, "track"@) {
            None => Err(LoadError::MalformedRecord(Tier::Act, Field::Track)),
            Some(tv) => match act_of_value(tv) {
                None => Err(LoadError::MalformedRecord(Tier::Act, Field::Track)),
                Some(a) => match dec_run_at(e@, Tier::Act, Track::Act(a)) {
                    Err(er) => Err(er),
                    Ok(own) => match table_get(e@, "layers"@) {
                        Some(DocValue::Array(children)) => match dec_layer_seq(children@, 0) {
                            Err(er) => Err(er),
                            Ok(runs) => Ok(runs.push(own)),
                        },
                        _ => Err(LoadError::MalformedRecord(Tier::Act, Field::Layers)),
                    },
                },
            },
        },
        _ => Err(LoadError::MalformedRecord(Tier::Act, Field::Record)),
    }
}

/// Decode the act nodes of `vs` from position `i` on, concatenating
/// their runs in document order.
pub open spec fn dec_act_seq(vs: Seq<DocValue>, i: int) -> Result<Seq<Run>, LoadError>
    decreases vs.len() - i,
{
    if i < 0 || i >= vs.len() {
        Ok(Seq::empty())
    } else {
        match dec_act_node(vs[i]) {
            Err(er) => Err(er),
            Ok(rs) => match dec_act_seq(vs, i + 1) {
                Err(er) => Err(er),
                Ok(rest) => Ok(rs + rest),
            },
        }
    }
}

/// Decode one full-game node: its acts' runs in document order, then
/// one run for the full game itself. A full-game node carries no
/// `track` field.
pub open spec fn dec_fullgame_node(v: DocValue) -> Result<Seq<Run>, LoadError> {
    match v {
        DocValue::Table(e) => match dec_run_at(e@, Tier::Fullgame, Track::Fullgame) {
            Err(er) => Err(er),
            Ok(own) => match table_get(e@, "acts"@) {
                Some(DocValue::Array(children)) => match dec_act_seq(children@, 0) {
                    Err(er) => Err(er),
                    Ok(runs) => Ok(runs.push(own)),
                },
                _ => Err(LoadError::MalformedRecord(Tier::Fullgame, Field::Acts)),
            },
        },
        _ => Err(LoadError::MalformedRecord(Tier::Fullgame, Field::Record)),
    }
}

/// Decode one top-level submission node, picking its shape by which
/// sub-collection key is present: `acts`, then `layers`, then `levels`,
/// then a leaf level run.
pub open spec fn dec_node(v: DocValue) -> Result<Seq<Run>, LoadError> {
    match v {
        DocValue::Table(e) => if table_get(e@, "acts"@) is Some {
            dec_fullgame_node(v)
        } else if table_get(e@, "layers"@) is Some {
            dec_act_node(v)
        } else if table_get(e@, "levels"@) is Some {
            dec_layer_node(v)
        } else {
            match dec_level_node(v) {
                Err(er) => Err(er),
                Ok(r) => Ok(seq![r]),
            }
        },
        _ => Err(LoadError::MalformedRecord(Tier::Level, Field::Record)),
    }
}

/// Decode the top-level nodes of `vs` from position `i` on,
/// concatenating their runs in document order.
pub open spec fn dec_node_seq(vs: Seq<DocValue>, i: int) -> Result<Seq<Run>, LoadError>
    decreases vs.len() - i,
{
    if i < 0 || i >= vs.len() {
        Ok(Seq::empty())
    } else {
        match dec_node(vs[i]) {
            Err(er) => Err(er),
            Ok(rs) => match dec_node_seq(vs, i + 1) {
                Err(er) => Err(er),
                Ok(rest) => Ok(rs + rest),
            },
        }
    }
}

} // verus!
