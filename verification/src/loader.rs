//! Repository loader: parses a raw TOML document into validated run
//! records, or a structured failure. Stateless and side-effect-free;
//! every call decodes the document it is given from scratch.

use vstd::prelude::*;

use crate::decode::Field;
use crate::decode::LoadError;
use crate::decode::Tier;
use crate::decode::dec_node_seq;
use crate::decode_exec::decode_node_seq;
use crate::document::DocValue;
use crate::document::parse_document;
use crate::document::parsed_doc;
use crate::document::table_get;
use crate::document::table_lookup;
use crate::gamedata::Run;

verus! {

/// What parsing a document yields: the flat run records of every node
/// under the top-level `runs` list, in document order, or the first
/// failure.
pub open spec fn spec_parse_runs(doc: Seq<char>) -> Result<Seq<Run>, LoadError> {
    match parsed_doc(doc) {
        None => Err(LoadError::Syntax),
        Some(root) => match root {
            DocValue::Table(e) => match table_get(e@, "runs"@) {
                None => Err(LoadError::MissingSection),
                Some(DocValue::Array(nodes)) => dec_node_seq(nodes@, 0),
                Some(_) => Err(LoadError::MalformedRecord(Tier::Document, Field::Runs)),
            },
            _ => Err(LoadError::Syntax),
        },
    }
}

/// What loading a document yields: the parsed run records, with an
/// empty collection reported as [`LoadError::Empty`] rather than as a
/// valid leaderboard.
pub open spec fn spec_load_runs(doc: Seq<char>) -> Result<Seq<Run>, LoadError> {
    match spec_parse_runs(doc) {
        Ok(runs) => if runs.len() == 0 {
            Err(LoadError::Empty)
        } else {
            Ok(runs)
        },
        Err(er) => Err(er),
    }
}

/// Parse a TOML document into the flat run records of its `runs` list,
/// implementing [`spec_parse_runs`]. Fails with [`LoadError::Syntax`]
/// on text that is not a TOML document, [`LoadError::MissingSection`]
/// when the top-level `runs` key is absent, and
/// [`LoadError::MalformedRecord`] on the first node or field that fails
/// validation; an empty `runs` list parses to an empty collection.
pub fn parse_toml(toml_data: &str) -> (r: Result<Vec<Run>, LoadError>)
    ensures
        match r {
            Ok(out) => spec_parse_runs(toml_data@) == Ok::<Seq<Run>, LoadError>(out@),
            Err(er) => spec_parse_runs(toml_data@) == Err::<Seq<Run>, LoadError>(er),
        },
{
    match parse_document(toml_data) {
        None => Err(LoadError::Syntax),
        Some(root) => match root {
            DocValue::Table(e) => match table_lookup(&e, "runs") {
                None => Err(LoadError::MissingSection),
                Some(DocValue::Array(nodes)) => decode_node_seq(nodes, 0),
                Some(_) => Err(LoadError::MalformedRecord(Tier::Document, Field::Runs)),
            },
            _ => Err(LoadError::Syntax),
        },
    }
}

/// Load a document into run records, implementing [`spec_load_runs`]:
/// as [`parse_toml`], except that a document yielding no runs at all
/// fails with [`LoadError::Empty`] — an empty leaderboard is always a
/// data problem, never a valid steady state.
pub fn load_runs(toml_data: &str) -> (r: Result<Vec<Run>, LoadError>)
    ensures
        match r {
            Ok(out) => spec_load_runs(toml_data@) == Ok::<Seq<Run>, LoadError>(out@) && out@.len()
                > 0,
            Err(er) => spec_load_runs(toml_data@) == Err::<Seq<Run>, LoadError>(er),
        },
{
    match parse_toml(toml_data) {
        Ok(runs) => if runs.len() == 0 {
            Err(LoadError::Empty)
        } else {
            Ok(runs)
        },
        Err(er) => Err(er),
    }
}

} // verus!
