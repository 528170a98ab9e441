use std::cmp::Ordering;

use uknd::gamedata::Act;
use uknd::gamedata::Category;
use uknd::gamedata::Difficulty;
use uknd::gamedata::Layer;
use uknd::gamedata::Level;
use uknd::gamedata::Track;
use uknd::rank::track_options;
use uknd::text::format_igt;

#[test]
fn level_labels_read_as_titles() {
    assert_eq!(Level::L0_1.label(), "0-1: Into The Fire");
    assert_eq!(Level::L2_2.label(), "2-2: Death At 20,000 Volts");
    assert_eq!(Level::LP_2.label(), "P-2: Wait Of The World");
    assert_eq!(Level::L7_4.label(), "7-4: ...Like Antennas To Heaven");
    assert_eq!(Level::Custom("My Map".to_owned()).label(), "My Map");
}

#[test]
fn layer_act_track_labels() {
    assert_eq!(Layer::MouthOfHell.label(), "Mouth Of Hell");
    assert_eq!(Layer::Violence.label(), "Violence");
    assert_eq!(Act::I.label(), "Act 1: Infinite Hyperdeath");
    assert_eq!(Act::II.label(), "Act 2: Imperfect Hatred");
    assert_eq!(Track::Fullgame.label(), "Fullgame");
    assert_eq!(Track::Layer(Layer::Lust).label(), "Lust");
    assert_eq!(Category::NoMo.label(), "NoMo");
    assert_eq!(Difficulty::UltrakillMustDie.label(), "UltrakillMustDie");
}

#[test]
fn track_order_is_fullgame_down_to_level() {
    let fg = Track::Fullgame;
    let act = Track::Act(Act::II);
    let layer = Track::Layer(Layer::Limbo);
    let level = Track::Level(Level::L1_1);
    assert_eq!(fg.cmp(&act), Ordering::Greater);
    assert_eq!(act.cmp(&layer), Ordering::Greater);
    assert_eq!(layer.cmp(&level), Ordering::Greater);
    assert_eq!(level.cmp(&fg), Ordering::Less);
    assert_eq!(fg.cmp(&Track::Fullgame), Ordering::Equal);
    assert_eq!(
        Track::Act(Act::I).cmp(&Track::Act(Act::II)),
        Ordering::Less
    );
    assert_eq!(
        Track::Level(Level::L0_1).cmp(&Track::Level(Level::L7_4)),
        Ordering::Less
    );
    // Custom levels sit after every named level and compare lexically.
    assert_eq!(
        Track::Level(Level::L7_4).cmp(&Track::Level(Level::Custom("A".to_owned()))),
        Ordering::Less
    );
    assert_eq!(
        Track::Level(Level::Custom("A".to_owned())).cmp(&Track::Level(Level::Custom(
            "B".to_owned()
        ))),
        Ordering::Less
    );
}

#[test]
fn shallow_cmp_sees_only_tiers() {
    let a = Track::Act(Act::I);
    let b = Track::Act(Act::II);
    assert_eq!(a.shallow_cmp(&b), Ordering::Equal);
    assert_eq!(Track::Fullgame.shallow_cmp(&a), Ordering::Greater);
    assert_eq!(
        Track::Level(Level::L0_1).shallow_cmp(&Track::Layer(Layer::Lust)),
        Ordering::Less
    );
    assert_eq!(
        Track::Level(Level::L0_1).shallow_cmp(&Track::Level(Level::L7_4)),
        Ordering::Equal
    );
}

#[test]
fn igt_formats_zero_padded() {
    assert_eq!(format_igt(0), "00:00:000");
    assert_eq!(format_igt(61_234), "01:01:234");
    assert_eq!(format_igt(5_000), "00:05:000");
    assert_eq!(format_igt(3_599_999), "59:59:999");
    // Minutes keep growing past two digits.
    assert_eq!(format_igt(6_000_000), "100:00:000");
    assert_eq!(format_igt(999), "00:00:999");
    assert_eq!(format_igt(1_001), "00:01:001");
}

#[test]
fn track_options_orders_and_dedups() {
    let tracks = vec![
        Track::Level(Level::L1_1),
        Track::Level(Level::L1_1),
        Track::Fullgame,
        Track::Layer(Layer::Limbo),
        Track::Level(Level::L1_1),
        Track::Act(Act::I),
        Track::Fullgame,
    ];
    let options = track_options(&tracks);
    // Coarsest tier first, document order within a tier, adjacent
    // repeats collapsed.
    let labels: Vec<String> = options.iter().map(Track::label).collect();
    assert_eq!(
        labels,
        [
            "Fullgame",
            "Act 1: Infinite Hyperdeath",
            "Limbo",
            "1-1: Heart Of The Sunrise",
        ]
    );
}
