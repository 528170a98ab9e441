//! Core data model: the track hierarchy (level, layer, act, full game),
//! run categories and difficulties, submission dates, and the flattened
//! run record.

use vstd::prelude::*;

use crate::text::chars_cmp;
use crate::text::int_cmp;
use crate::text::lemma_chars_cmp_eq;
use crate::text::str_cmp;

verus! {

/// Combine two comparison steps: the second decides only on a tie.
pub open spec fn ord_then(a: core::cmp::Ordering, b: core::cmp::Ordering) -> core::cmp::Ordering {
    match a {
        core::cmp::Ordering::Equal => b,
        _ => a,
    }
}

/// One playable level, identified by its zone-stage code, plus an open
/// `Custom` variant for community content outside the fixed list.
#[allow(non_camel_case_types)]
#[derive(Debug)]
pub enum Level {
    L0_1,
    L0_2,
    L0_3,
    L0_4,
    L0_5,
    L1_1,
    L1_2,
    L1_3,
    L1_4,
    L2_1,
    L2_2,
    L2_3,
    L2_4,
    L3_1,
    L3_2,
    LP_1,
    L4_1,
    L4_2,
    L4_3,
    L4_4,
    L5_1,
    L5_2,
    L5_3,
    L5_4,
    L6_1,
    L6_2,
    LP_2,
    L7_1,
    L7_2,
    L7_3,
    L7_4,
    Custom(String),
}

/// Position of a level in declaration order; every `Custom` level sits
/// after all named levels.
pub open spec fn level_index(l: Level) -> int {
    match l {
        Level::L0_1 => 0,
        Level::L0_2 => 1,
        Level::L0_3 => 2,
        Level::L0_4 => 3,
        Level::L0_5 => 4,
        Level::L1_1 => 5,
        Level::L1_2 => 6,
        Level::L1_3 => 7,
        Level::L1_4 => 8,
        Level::L2_1 => 9,
        Level::L2_2 => 10,
        Level::L2_3 => 11,
        Level::L2_4 => 12,
        Level::L3_1 => 13,
        Level::L3_2 => 14,
        Level::LP_1 => 15,
        Level::L4_1 => 16,
        Level::L4_2 => 17,
        Level::L4_3 => 18,
        Level::L4_4 => 19,
        Level::L5_1 => 20,
        Level::L5_2 => 21,
        Level::L5_3 => 22,
        Level::L5_4 => 23,
        Level::L6_1 => 24,
        Level::L6_2 => 25,
        Level::LP_2 => 26,
        Level::L7_1 => 27,
        Level::L7_2 => 28,
        Level::L7_3 => 29,
        Level::L7_4 => 30,
        Level::Custom(_) => 31,
    }
}

/// Three-way comparison of levels: declaration order between named
/// levels, custom levels after all named ones and lexicographic among
/// themselves.
pub open spec fn level_cmp(a: Level, b: Level) -> core::cmp::Ordering {
    match (a, b) {
        (Level::Custom(x), Level::Custom(y)) => chars_cmp(x@, y@),
        _ => int_cmp(level_index(a), level_index(b)),
    }
}

impl Level {
    /// Position of this level in declaration order (`Custom` levels all
    /// share the position after the named ones).
    pub fn index(&self) -> (r: u8)
        ensures
            r as int == level_index(*self),
    {
        match self {
            Level::L0_1 => 0,
            Level::L0_2 => 1,
            Level::L0_3 => 2,
            Level::L0_4 => 3,
            Level::L0_5 => 4,
            Level::L1_1 => 5,
            Level::L1_2 => 6,
            Level::L1_3 => 7,
            Level::L1_4 => 8,
            Level::L2_1 => 9,
            Level::L2_2 => 10,
            Level::L2_3 => 11,
            Level::L2_4 => 12,
            Level::L3_1 => 13,
            Level::L3_2 => 14,
            Level::LP_1 => 15,
            Level::L4_1 => 16,
            Level::L4_2 => 17,
            Level::L4_3 => 18,
            Level::L4_4 => 19,
            Level::L5_1 => 20,
            Level::L5_2 => 21,
            Level::L5_3 => 22,
            Level::L5_4 => 23,
            Level::L6_1 => 24,
            Level::L6_2 => 25,
            Level::LP_2 => 26,
            Level::L7_1 => 27,
            Level::L7_2 => 28,
            Level::L7_3 => 29,
            Level::L7_4 => 30,
            Level::Custom(_) => 31,
        }
    }

    /// Three-way comparison implementing [`level_cmp`].
    pub fn cmp(&self, other: &Level) -> (r: core::cmp::Ordering)
        ensures
            r == level_cmp(*self, *other),
    {
        match (self, other) {
            (Level::Custom(x), Level::Custom(y)) => str_cmp(x.as_str(), y.as_str()),
            _ => {
                let a = self.index();
                let b = other.index();
                if a < b {
                    core::cmp::Ordering::Less
                } else if a > b {
                    core::cmp::Ordering::Greater
                } else {
                    core::cmp::Ordering::Equal
                }
            },
        }
    }
}

impl Clone for Level {
    /// Cloning preserves the level exactly.
    fn clone(&self) -> (r: Self)
        ensures
            r == *self,
    {
        match self {
            Level::L0_1 => Level::L0_1,
            Level::L0_2 => Level::L0_2,
            Level::L0_3 => Level::L0_3,
            Level::L0_4 => Level::L0_4,
            Level::L0_5 => Level::L0_5,
            Level::L1_1 => Level::L1_1,
            Level::L1_2 => Level::L1_2,
            Level::L1_3 => Level::L1_3,
            Level::L1_4 => Level::L1_4,
            Level::L2_1 => Level::L2_1,
            Level::L2_2 => Level::L2_2,
            Level::L2_3 => Level::L2_3,
            Level::L2_4 => Level::L2_4,
            Level::L3_1 => Level::L3_1,
            Level::L3_2 => Level::L3_2,
            Level::LP_1 => Level::LP_1,
            Level::L4_1 => Level::L4_1,
            Level::L4_2 => Level::L4_2,
            Level::L4_3 => Level::L4_3,
            Level::L4_4 => Level::L4_4,
            Level::L5_1 => Level::L5_1,
            Level::L5_2 => Level::L5_2,
            Level::L5_3 => Level::L5_3,
            Level::L5_4 => Level::L5_4,
            Level::L6_1 => Level::L6_1,
            Level::L6_2 => Level::L6_2,
            Level::LP_2 => Level::LP_2,
            Level::L7_1 => Level::L7_1,
            Level::L7_2 => Level::L7_2,
            Level::L7_3 => Level::L7_3,
            Level::L7_4 => Level::L7_4,
            Level::Custom(s) => Level::Custom(s.clone()),
        }
    }
}

/// The human-readable title of a level: its zone-stage code and display
/// name, or the bare name of a custom level.
pub open spec fn level_label(l: Level) -> Seq<char> {
    match l {
        Level::L0_1 => "0-1: Into The Fire"@,
        Level::L0_2 => "0-2: The Meatgrinder"@,
        Level::L0_3 => "0-3: Double Down"@,
        Level::L0_4 => "0-4: A One Machine Army"@,
        Level::L0_5 => "0-5: Cerberus"@,
        Level::L1_1 => "1-1: Heart Of The Sunrise"@,
        Level::L1_2 => "1-2: The Burning World"@,
        Level::L1_3 => "1-3: Halls Of Sacred Remains"@,
        Level::L1_4 => "1-4: Clair De Lune"@,
        Level::L2_1 => "2-1: Bridgerunner"@,
        Level::L2_2 => "2-2: Death At 20,000 Volts"@,
        Level::L2_3 => "2-3: Sheer Heart Attack"@,
        Level::L2_4 => "2-4: Court Of The Corpse King"@,
        Level::L3_1 => "3-1: Belly Of The Beast"@,
        Level::L3_2 => "3-2: In The Flesh"@,
        Level::LP_1 => "P-1: Soul Survivor"@,
        Level::L4_1 => "4-1: Slaves To Power"@,
        Level::L4_2 => "4-2: God Damn The Sun"@,
        Level::L4_3 => "4-3: A Shot In The Dark"@,
        Level::L4_4 => "4-4: Clair De Soleil"@,
        Level::L5_1 => "5-1: In The Wake Of Poseidon"@,
        Level::L5_2 => "5-2: Waves Of The Starless Sea"@,
        Level::L5_3 => "5-3: Ship Of Fools"@,
        Level::L5_4 => "5-4: Leviathan"@,
        Level::L6_1 => "6-1: Cry For The Weeper"@,
        Level::L6_2 => "6-2: Aesthetics Of Hate"@,
        Level::LP_2 => "P-2: Wait Of The World"@,
        Level::L7_1 => "7-1: Garden Of Forking Paths"@,
        Level::L7_2 => "7-2: Light Up The Night"@,
        Level::L7_3 => "7-3: No Sound, No Memory"@,
        Level::L7_4 => "7-4: ...Like Antennas To Heaven"@,
        Level::Custom(s) => s@,
    }
}

impl Level {
    /// Render the human-readable title implementing [`level_label`].
    pub fn label(&self) -> (r: String)
        ensures
            r@ == level_label(*self),
    {
        match self {
            Level::L0_1 => "0-1: Into The Fire".to_owned(),
            Level::L0_2 => "0-2: The Meatgrinder".to_owned(),
            Level::L0_3 => "0-3: Double Down".to_owned(),
            Level::L0_4 => "0-4: A One Machine Army".to_owned(),
            Level::L0_5 => "0-5: Cerberus".to_owned(),
            Level::L1_1 => "1-1: Heart Of The Sunrise".to_owned(),
            Level::L1_2 => "1-2: The Burning World".to_owned(),
            Level::L1_3 => "1-3: Halls Of Sacred Remains".to_owned(),
            Level::L1_4 => "1-4: Clair De Lune".to_owned(),
            Level::L2_1 => "2-1: Bridgerunner".to_owned(),
            Level::L2_2 => "2-2: Death At 20,000 Volts".to_owned(),
            Level::L2_3 => "2-3: Sheer Heart Attack".to_owned(),
            Level::L2_4 => "2-4: Court Of The Corpse King".to_owned(),
            Level::L3_1 => "3-1: Belly Of The Beast".to_owned(),
            Level::L3_2 => "3-2: In The Flesh".to_owned(),
            Level::LP_1 => "P-1: Soul Survivor".to_owned(),
            Level::L4_1 => "4-1: Slaves To Power".to_owned(),
            Level::L4_2 => "4-2: God Damn The Sun".to_owned(),
            Level::L4_3 => "4-3: A Shot In The Dark".to_owned(),
            Level::L4_4 => "4-4: Clair De Soleil".to_owned(),
            Level::L5_1 => "5-1: In The Wake Of Poseidon".to_owned(),
            Level::L5_2 => "5-2: Waves Of The Starless Sea".to_owned(),
            Level::L5_3 => "5-3: Ship Of Fools".to_owned(),
            Level::L5_4 => "5-4: Leviathan".to_owned(),
            Level::L6_1 => "6-1: Cry For The Weeper".to_owned(),
            Level::L6_2 => "6-2: Aesthetics Of Hate".to_owned(),
            Level::LP_2 => "P-2: Wait Of The World".to_owned(),
            Level::L7_1 => "7-1: Garden Of Forking Paths".to_owned(),
            Level::L7_2 => "7-2: Light Up The Night".to_owned(),
            Level::L7_3 => "7-3: No Sound, No Memory".to_owned(),
            Level::L7_4 => "7-4: ...Like Antennas To Heaven".to_owned(),
            Level::Custom(s) => s.clone(),
        }
    }
}

/// One world-section of the game, ordered by declaration.
#[derive(Debug, Clone, Copy, PartialEq, Eq, Structural)]
pub enum Layer {
    MouthOfHell,
    Limbo,
    Lust,
    Gluttony,
    Greed,
    Wrath,
    Heresy,
    Violence,
}

/// Position of a layer in declaration order.
pub open spec fn layer_index(l: Layer) -> int {
    match l {
        Layer::MouthOfHell => 0,
        Layer::Limbo => 1,
        Layer::Lust => 2,
        Layer::Gluttony => 3,
        Layer::Greed => 4,
        Layer::Wrath => 5,
        Layer::Heresy => 6,
        Layer::Violence => 7,
    }
}

impl Layer {
    /// Position of this layer in declaration order.
    pub fn index(&self) -> (r: u8)
        ensures
            r as int == layer_index(*self),
    {
        match self {
            Layer::MouthOfHell => 0,
            Layer::Limbo => 1,
            Layer::Lust => 2,
            Layer::Gluttony => 3,
            Layer::Greed => 4,
            Layer::Wrath => 5,
            Layer::Heresy => 6,
            Layer::Violence => 7,
        }
    }
}

/// The human-readable name of a layer.
pub open spec fn layer_label(l: Layer) -> Seq<char> {
    match l {
        Layer::MouthOfHell => "Mouth Of Hell"@,
        Layer::Limbo => "Limbo"@,
        Layer::Lust => "Lust"@,
        Layer::Gluttony => "Gluttony"@,
        Layer::Greed => "Greed"@,
        Layer::Wrath => "Wrath"@,
        Layer::Heresy => "Heresy"@,
        Layer::Violence => "Violence"@,
    }
}

impl Layer {
    /// Render the human-readable name implementing [`layer_label`].
    pub fn label(&self) -> (r: String)
        ensures
            r@ == layer_label(*self),
    {
        match self {
            Layer::MouthOfHell => "Mouth Of Hell".to_owned(),
            Layer::Limbo => "Limbo".to_owned(),
            Layer::Lust => "Lust".to_owned(),
            Layer::Gluttony => "Gluttony".to_owned(),
            Layer::Greed => "Greed".to_owned(),
            Layer::Wrath => "Wrath".to_owned(),
            Layer::Heresy => "Heresy".to_owned(),
            Layer::Violence => "Violence".to_owned(),
        }
    }
}

/// One of the game's major acts, ordered by declaration.
#[derive(Debug, Clone, Copy, PartialEq, Eq, Structural)]
pub enum Act {
    I,
    II,
}

/// Position of an act in declaration order.
pub open spec fn act_index(a: Act) -> int {
    match a {
        Act::I => 0,
        Act::II => 1,
    }
}

impl Act {
    /// Position of this act in declaration order.
    pub fn index(&self) -> (r: u8)
        ensures
            r as int == act_index(*self),
    {
        match self {
            Act::I => 0,
            Act::II => 1,
        }
    }
}

/// The human-readable name of an act.
pub open spec fn act_label(a: Act) -> Seq<char> {
    match a {
        Act::I => "Act 1: Infinite Hyperdeath"@,
        Act::II => "Act 2: Imperfect Hatred"@,
    }
}

impl Act {
    /// Render the human-readable name implementing [`act_label`].
    pub fn label(&self) -> (r: String)
        ensures
            r@ == act_label(*self),
    {
        match self {
            Act::I => "Act 1: Infinite Hyperdeath".to_owned(),
            Act::II => "Act 2: Imperfect Hatred".to_owned(),
        }
    }
}

/// The granularity a run is measured against: one level, one layer, one
/// act, or the full game.
#[derive(Debug)]
pub enum Track {
    Fullgame,
    Act(Act),
    Layer(Layer),
    Level(Level),
}

/// Hierarchy tier of a track; a coarser granularity ranks above a finer
/// one, the full game above all.
pub open spec fn track_tier(t: Track) -> int {
    match t {
        Track::Level(_) => 0,
        Track::Layer(_) => 1,
        Track::Act(_) => 2,
        Track::Fullgame => 3,
    }
}

/// Total three-way comparison of tracks: by tier first, then by the
/// wrapped variant's own order within a tier.
pub open spec fn track_cmp(a: Track, b: Track) -> core::cmp::Ordering {
    match (a, b) {
        (Track::Act(x), Track::Act(y)) => int_cmp(act_index(x), act_index(y)),
        (Track::Layer(x), Track::Layer(y)) => int_cmp(layer_index(x), layer_index(y)),
        (Track::Level(x), Track::Level(y)) => level_cmp(x, y),
        _ => int_cmp(track_tier(a), track_tier(b)),
    }
}

/// Two tracks compare `Equal` under [`track_cmp`] exactly when they name
/// the same place: same variant, and for custom levels the same name.
pub proof fn lemma_track_cmp_eq(a: Track, b: Track)
    ensures
        track_cmp(a, b) == core::cmp::Ordering::Equal <==> track_eq(a, b),
{
    if let (Track::Level(Level::Custom(x)), Track::Level(Level::Custom(y))) = (a, b) {
        lemma_chars_cmp_eq(x@, y@);
    }
}

/// Whether two tracks name the same place; custom level names are
/// compared by their characters.
pub open spec fn track_eq(a: Track, b: Track) -> bool {
    match (a, b) {
        (Track::Fullgame, Track::Fullgame) => true,
        (Track::Act(x), Track::Act(y)) => x == y,
        (Track::Layer(x), Track::Layer(y)) => x == y,
        (Track::Level(Level::Custom(x)), Track::Level(Level::Custom(y))) => x@ == y@,
        (Track::Level(x), Track::Level(y)) => !(x is Custom) && !(y is Custom) && level_index(x)
            == level_index(y),
        _ => false,
    }
}

impl Track {
    /// Tier-only three-way comparison: all tracks of the same granularity
    /// compare `Equal`; otherwise the coarser granularity is greater.
    pub fn shallow_cmp(&self, other: &Self) -> (r: core::cmp::Ordering)
        ensures
            r == int_cmp(track_tier(*self), track_tier(*other)),
    {
        let a = self.tier();
        let b = other.tier();
        if a < b {
            core::cmp::Ordering::Less
        } else if a > b {
            core::cmp::Ordering::Greater
        } else {
            core::cmp::Ordering::Equal
        }
    }

    /// Hierarchy tier of this track.
    pub fn tier(&self) -> (r: u8)
        ensures
            r as int == track_tier(*self),
    {
        match self {
            Track::Level(_) => 0,
            Track::Layer(_) => 1,
            Track::Act(_) => 2,
            Track::Fullgame => 3,
        }
    }

    /// Total three-way comparison implementing [`track_cmp`].
    pub fn cmp(&self, other: &Self) -> (r: core::cmp::Ordering)
        ensures
            r == track_cmp(*self, *other),
    {
        match (self, other) {
            (Track::Act(x), Track::Act(y)) => {
                let a = x.index();
                let b = y.index();
                if a < b {
                    core::cmp::Ordering::Less
                } else if a > b {
                    core::cmp::Ordering::Greater
                } else {
                    core::cmp::Ordering::Equal
                }
            },
            (Track::Layer(x), Track::Layer(y)) => {
                let a = x.index();
                let b = y.index();
                if a < b {
                    core::cmp::Ordering::Less
                } else if a > b {
                    core::cmp::Ordering::Greater
                } else {
                    core::cmp::Ordering::Equal
                }
            },
            (Track::Level(x), Track::Level(y)) => x.cmp(y),
            _ => self.shallow_cmp(other),
        }
    }

    /// Whether this track names the same place as `other`.
    pub fn same_track(&self, other: &Self) -> (r: bool)
        ensures
            r == track_eq(*self, *other),
    {
        proof {
            lemma_track_cmp_eq(*self, *other);
        }
        match self.cmp(other) {
            core::cmp::Ordering::Equal => true,
            _ => false,
        }
    }
}

/// The human-readable label of a track: the wrapped variant's label, or
/// `Fullgame` for the whole game.
pub open spec fn track_label(t: Track) -> Seq<char> {
    match t {
        Track::Level(l) => level_label(l),
        Track::Layer(l) => layer_label(l),
        Track::Act(a) => act_label(a),
        Track::Fullgame => "Fullgame"@,
    }
}

impl Track {
    /// Render the human-readable label implementing [`track_label`].
    pub fn label(&self) -> (r: String)
        ensures
            r@ == track_label(*self),
    {
        match self {
            Track::Level(l) => l.label(),
            Track::Layer(l) => l.label(),
            Track::Act(a) => a.label(),
            Track::Fullgame => "Fullgame".to_owned(),
        }
    }
}

impl Clone for Track {
    /// Cloning preserves the track exactly.
    fn clone(&self) -> (r: Self)
        ensures
            r == *self,
    {
        match self {
            Track::Fullgame => Track::Fullgame,
            Track::Act(a) => Track::Act(*a),
            Track::Layer(l) => Track::Layer(*l),
            Track::Level(l) => Track::Level(l.clone()),
        }
    }
}

/// The rule-set a run was performed under. `P` is the most restrictive
/// category; a `P` run also qualifies for the `Any` leaderboard. `NoMo`
/// is disjoint from both.
#[derive(Debug, Clone, Copy, PartialEq, Eq, Structural)]
pub enum Category {
    P,
    Any,
    NoMo,
}

/// The game difficulty a run was performed on, totally ordered from
/// easiest to hardest; a harder difficulty wins a ranking tie.
#[derive(Debug, Clone, Copy, PartialEq, Eq, Structural)]
pub enum Difficulty {
    Harmless,
    Lenient,
    Standard,
    Violent,
    Brutal,
    UltrakillMustDie,
}

/// The display name of a category.
pub open spec fn category_label(c: Category) -> Seq<char> {
    match c {
        Category::P => "P"@,
        Category::Any => "Any"@,
        Category::NoMo => "NoMo"@,
    }
}

impl Category {
    /// Render the display name implementing [`category_label`].
    pub fn label(&self) -> (r: String)
        ensures
            r@ == category_label(*self),
    {
        match self {
            Category::P => "P".to_owned(),
            Category::Any => "Any".to_owned(),
            Category::NoMo => "NoMo".to_owned(),
        }
    }
}

/// The display name of a difficulty.
pub open spec fn difficulty_label(d: Difficulty) -> Seq<char> {
    match d {
        Difficulty::Harmless => "Harmless"@,
        Difficulty::Lenient => "Lenient"@,
        Difficulty::Standard => "Standard"@,
        Difficulty::Violent => "Violent"@,
        Difficulty::Brutal => "Brutal"@,
        Difficulty::UltrakillMustDie => "UltrakillMustDie"@,
    }
}

/// Position of a difficulty in the easiest-to-hardest order.
pub open spec fn difficulty_index(d: Difficulty) -> int {
    match d {
        Difficulty::Harmless => 0,
        Difficulty::Lenient => 1,
        Difficulty::Standard => 2,
        Difficulty::Violent => 3,
        Difficulty::Brutal => 4,
        Difficulty::UltrakillMustDie => 5,
    }
}

impl Difficulty {
    /// Render the display name implementing [`difficulty_label`].
    pub fn label(&self) -> (r: String)
        ensures
            r@ == difficulty_label(*self),
    {
        match self {
            Difficulty::Harmless => "Harmless".to_owned(),
            Difficulty::Lenient => "Lenient".to_owned(),
            Difficulty::Standard => "Standard".to_owned(),
            Difficulty::Violent => "Violent".to_owned(),
            Difficulty::Brutal => "Brutal".to_owned(),
            Difficulty::UltrakillMustDie => "UltrakillMustDie".to_owned(),
        }
    }

    /// Position of this difficulty in the easiest-to-hardest order.
    pub fn index(&self) -> (r: u8)
        ensures
            r as int == difficulty_index(*self),
    {
        match self {
            Difficulty::Harmless => 0,
            Difficulty::Lenient => 1,
            Difficulty::Standard => 2,
            Difficulty::Violent => 3,
            Difficulty::Brutal => 4,
            Difficulty::UltrakillMustDie => 5,
        }
    }
}

/// A calendar date as it appears in a submission document.
#[derive(Debug, Clone, Copy, PartialEq, Eq)]
pub struct CalDate {
    pub year: u16,
    pub month: u8,
    pub day: u8,
}

/// A time of day as it appears in a submission document; seconds and
/// nanoseconds may be absent.
#[derive(Debug, Clone, Copy, PartialEq, Eq)]
pub struct TimeOfDay {
    pub hour: u8,
    pub minute: u8,
    pub second: Option<u8>,
    pub nanosecond: Option<u32>,
}

/// A UTC offset attached to a submission time.
#[derive(Debug, Clone, Copy, PartialEq, Eq)]
pub enum UtcOffset {
    Zulu,
    Minutes(i16),
}

/// A submission timestamp; every part may be only partially known.
#[derive(Debug, Clone, Copy, PartialEq, Eq)]
pub struct DateStamp {
    pub date: Option<CalDate>,
    pub time: Option<TimeOfDay>,
    pub offset: Option<UtcOffset>,
}

/// Three-way comparison of calendar dates: year, then month, then day.
pub open spec fn cal_date_cmp(a: CalDate, b: CalDate) -> core::cmp::Ordering {
    ord_then(
        int_cmp(a.year as int, b.year as int),
        ord_then(int_cmp(a.month as int, b.month as int), int_cmp(a.day as int, b.day as int)),
    )
}

/// Three-way comparison of optional integers; an absent value precedes
/// any present one.
pub open spec fn opt_int_cmp(a: Option<int>, b: Option<int>) -> core::cmp::Ordering {
    match (a, b) {
        (None, None) => core::cmp::Ordering::Equal,
        (None, Some(_)) => core::cmp::Ordering::Less,
        (Some(_), None) => core::cmp::Ordering::Greater,
        (Some(x), Some(y)) => int_cmp(x, y),
    }
}

/// Lift an optional `u8` to an optional mathematical integer.
pub open spec fn opt_u8_int(a: Option<u8>) -> Option<int> {
    match a {
        None => None,
        Some(x) => Some(x as int),
    }
}

/// Lift an optional `u32` to an optional mathematical integer.
pub open spec fn opt_u32_int(a: Option<u32>) -> Option<int> {
    match a {
        None => None,
        Some(x) => Some(x as int),
    }
}

/// Three-way comparison of times of day: hour, minute, then the optional
/// second and nanosecond parts, an absent part preceding a present one.
pub open spec fn time_cmp(a: TimeOfDay, b: TimeOfDay) -> core::cmp::Ordering {
    ord_then(
        int_cmp(a.hour as int, b.hour as int),
        ord_then(
            int_cmp(a.minute as int, b.minute as int),
            ord_then(
                opt_int_cmp(opt_u8_int(a.second), opt_u8_int(b.second)),
                opt_int_cmp(opt_u32_int(a.nanosecond), opt_u32_int(b.nanosecond)),
            ),
        ),
    )
}

/// Three-way comparison of UTC offsets: `Zulu` before any explicit
/// offset, explicit offsets by their minutes.
pub open spec fn offset_cmp(a: UtcOffset, b: UtcOffset) -> core::cmp::Ordering {
    match (a, b) {
        (UtcOffset::Zulu, UtcOffset::Zulu) => core::cmp::Ordering::Equal,
        (UtcOffset::Zulu, UtcOffset::Minutes(_)) => core::cmp::Ordering::Less,
        (UtcOffset::Minutes(_), UtcOffset::Zulu) => core::cmp::Ordering::Greater,
        (UtcOffset::Minutes(x), UtcOffset::Minutes(y)) => int_cmp(x as int, y as int),
    }
}

/// Three-way comparison of submission timestamps: date, then time, then
/// offset, an absent part preceding a present one.
pub open spec fn date_stamp_cmp(a: DateStamp, b: DateStamp) -> core::cmp::Ordering {
    ord_then(
        match (a.date, b.date) {
            (None, None) => core::cmp::Ordering::Equal,
            (None, Some(_)) => core::cmp::Ordering::Less,
            (Some(_), None) => core::cmp::Ordering::Greater,
            (Some(x), Some(y)) => cal_date_cmp(x, y),
        },
        ord_then(
            match (a.time, b.time) {
                (None, None) => core::cmp::Ordering::Equal,
                (None, Some(_)) => core::cmp::Ordering::Less,
                (Some(_), None) => core::cmp::Ordering::Greater,
                (Some(x), Some(y)) => time_cmp(x, y),
            },
            match (a.offset, b.offset) {
                (None, None) => core::cmp::Ordering::Equal,
                (None, Some(_)) => core::cmp::Ordering::Less,
                (Some(_), None) => core::cmp::Ordering::Greater,
                (Some(x), Some(y)) => offset_cmp(x, y),
            },
        ),
    )
}

/// Three-way comparison of two integers, executable form.
fn cmp_u32(a: u32, b: u32) -> (r: core::cmp::Ordering)
    ensures
        r == int_cmp(a as int, b as int),
{
    if a < b {
        core::cmp::Ordering::Less
    } else if a > b {
        core::cmp::Ordering::Greater
    } else {
        core::cmp::Ordering::Equal
    }
}

impl DateStamp {
    /// Three-way comparison implementing [`date_stamp_cmp`].
    pub fn cmp(&self, other: &Self) -> (r: core::cmp::Ordering)
        ensures
            r == date_stamp_cmp(*self, *other),
    {
        let d = match (&self.date, &other.date) {
            (None, None) => core::cmp::Ordering::Equal,
            (None, Some(_)) => core::cmp::Ordering::Less,
            (Some(_), None) => core::cmp::Ordering::Greater,
            (Some(x), Some(y)) => {
                let o = cmp_u32(x.year as u32, y.year as u32);
                let o = match o {
                    core::cmp::Ordering::Equal => cmp_u32(x.month as u32, y.month as u32),
                    _ => o,
                };
                match o {
                    core::cmp::Ordering::Equal => cmp_u32(x.day as u32, y.day as u32),
                    _ => o,
                }
            },
        };
        if !matches!(d, core::cmp::Ordering::Equal) {
            return d;
        }
        let t = match (&self.time, &other.time) {
            (None, None) => core::cmp::Ordering::Equal,
            (None, Some(_)) => core::cmp::Ordering::Less,
            (Some(_), None) => core::cmp::Ordering::Greater,
            (Some(x), Some(y)) => {
                let o = cmp_u32(x.hour as u32, y.hour as u32);
                let o = match o {
                    core::cmp::Ordering::Equal => cmp_u32(x.minute as u32, y.minute as u32),
                    _ => o,
                };
                let o = match o {
                    core::cmp::Ordering::Equal => match (&x.second, &y.second) {
                        (None, None) => core::cmp::Ordering::Equal,
                        (None, Some(_)) => core::cmp::Ordering::Less,
                        (Some(_), None) => core::cmp::Ordering::Greater,
                        (Some(sx), Some(sy)) => cmp_u32(*sx as u32, *sy as u32),
                    },
                    _ => o,
                };
                match o {
                    core::cmp::Ordering::Equal => match (&x.nanosecond, &y.nanosecond) {
                        (None, None) => core::cmp::Ordering::Equal,
                        (None, Some(_)) => core::cmp::Ordering::Less,
                        (Some(_), None) => core::cmp::Ordering::Greater,
                        (Some(nx), Some(ny)) => cmp_u32(*nx, *ny),
                    },
                    _ => o,
                }
            },
        };
        if !matches!(t, core::cmp::Ordering::Equal) {
            return t;
        }
        match (&self.offset, &other.offset) {
            (None, None) => core::cmp::Ordering::Equal,
            (None, Some(_)) => core::cmp::Ordering::Less,
            (Some(_), None) => core::cmp::Ordering::Greater,
            (Some(x), Some(y)) => match (x, y) {
                (UtcOffset::Zulu, UtcOffset::Zulu) => core::cmp::Ordering::Equal,
                (UtcOffset::Zulu, UtcOffset::Minutes(_)) => core::cmp::Ordering::Less,
                (UtcOffset::Minutes(_), UtcOffset::Zulu) => core::cmp::Ordering::Greater,
                (UtcOffset::Minutes(mx), UtcOffset::Minutes(my)) => {
                    if *mx < *my {
                        core::cmp::Ordering::Less
                    } else if *mx > *my {
                        core::cmp::Ordering::Greater
                    } else {
                        core::cmp::Ordering::Equal
                    }
                },
            },
        }
    }
}

/// The canonical flattened record of one timed submission. A run is
/// produced by the decoder and never mutated afterward.
#[derive(Debug)]
pub struct Run {
    pub runner: String,
    pub track: Track,
    pub igt_ms: u32,
    pub category: Category,
    pub submission_date: DateStamp,
    pub difficulty: Difficulty,
    pub patch_release_date: String,
    pub proof_url: String,
}

impl Clone for Run {
    /// Cloning preserves the record exactly.
    fn clone(&self) -> (r: Self)
        ensures
            r == *self,
    {
        Run {
            runner: self.runner.clone(),
            track: self.track.clone(),
            igt_ms: self.igt_ms,
            category: self.category,
            submission_date: self.submission_date,
            difficulty: self.difficulty,
            patch_release_date: self.patch_release_date.clone(),
            proof_url: self.proof_url.clone(),
        }
    }
}

} // verus!
