//! Demo documents: the scenes the example app and the screenshot harness
//! both mount, with the stable names each one is filed and shown under.
use vstd::prelude::*;

use crate::guitar::BendFlow;

verus! {

/// Which demo document to build.
#[derive(Clone, Copy, Debug, PartialEq, Eq, Structural)]
pub enum Scene {
    /// A sung phrase: scoops into each note, vibrato that grows.
    Phrase,
    /// A long note divided into Q zones, each with its own effective
    /// pitch center.
    Zones,
    /// The same phrase read under Maqam Rast.
    Microtonal,
    /// Pressure dimension active, showing the fixed two-semitone dimension box.
    Pressure,
    /// All three MPE dimensions overlaid at once.
    AllDimensions,
    /// Two sounding notes sharing a member channel — ownership is
    /// undecidable and the editor says so.
    Ambiguous,
    /// An empty document.
    Empty,
    /// A drum groove — triangle heads on named kit lanes.
    Drums,
    /// A guitar riff on a string roll: fret numbers, per-string colour,
    /// articulation badges and legato ties.
    Guitar,
    /// The same riff with its bend flow in a dimension below the roll
    /// instead of on the string rows.
    GuitarLane,
    /// The same riff with both at once.
    GuitarBoth,
    /// A sung line carrying lyric syllables.
    Lyrics,
    /// Orchestral: held notes with CC1 and CC11 riding behind them.
    Orchestral,
    /// Long held notes across several rows — material a razor can
    /// slice through.
    Held,
    /// A part whose note density changes across it — sixteenths at the
    /// start, held notes at the end.
    Density,
    /// Unpitched audio: hits on spectral bands rather than notes on a
    /// scale.
    Percussive,
    /// A riff as it arrives from a Guitar Pro import — the file's own
    /// tuning driving the rows, bends as per-note curves.
    GuitarPro,
    /// The kit with flams: two-handed pieces opened, grace notes
    /// drawn small and slashed, principals badged.
    Flams,
}

/// Stable file-name stem for screenshots.
pub open spec fn scene_slug(s: Scene) -> Seq<char> {
    match s {
        Scene::Phrase => "01-phrase"@,
        Scene::Zones => "02-zones"@,
        Scene::Microtonal => "03-microtonal"@,
        Scene::Pressure => "04-pressure"@,
        Scene::AllDimensions => "05-all-lanes"@,
        Scene::Ambiguous => "06-ambiguous"@,
        Scene::Empty => "07-empty"@,
        Scene::Drums => "25-drums"@,
        Scene::Guitar => "26-guitar"@,
        Scene::GuitarLane => "26b-guitar-bend-dimension"@,
        Scene::GuitarBoth => "26c-guitar-bend-both"@,
        Scene::Lyrics => "27-lyrics"@,
        Scene::Orchestral => "21-orchestral"@,
        Scene::Held => "19-held"@,
        Scene::Density => "16-density"@,
        Scene::Percussive => "28-percussive"@,
        Scene::GuitarPro => "29-guitar-pro"@,
        Scene::Flams => "46-flams"@,
    }
}

/// The name a scene is offered under.
pub open spec fn scene_label(s: Scene) -> Seq<char> {
    match s {
        Scene::Phrase => "Sung phrase"@,
        Scene::Zones => "Q zones"@,
        Scene::Microtonal => "Maqam Rast"@,
        Scene::Pressure => "Pressure dimension"@,
        Scene::AllDimensions => "All lanes"@,
        Scene::Ambiguous => "Channel conflict"@,
        Scene::Empty => "Empty"@,
        Scene::Drums => "Drum groove"@,
        Scene::Guitar => "Guitar riff"@,
        Scene::GuitarLane => "Guitar — bend dimension"@,
        Scene::GuitarBoth => "Guitar — row + dimension"@,
        Scene::Lyrics => "Vocal lyrics"@,
        Scene::Orchestral => "Orchestral CC"@,
        Scene::Held => "Held notes"@,
        Scene::Density => "Mixed density"@,
        Scene::Percussive => "Unpitched audio"@,
        Scene::GuitarPro => "Guitar Pro import"@,
        Scene::Flams => "Drum flams"@,
    }
}

/// The first three characters of each scene's slug; no two scenes share
/// them.
pub open spec fn slug_key(s: Scene) -> (char, char, char) {
    match s {
        Scene::Phrase => ('0', '1', '-'),
        Scene::Zones => ('0', '2', '-'),
        Scene::Microtonal => ('0', '3', '-'),
        Scene::Pressure => ('0', '4', '-'),
        Scene::AllDimensions => ('0', '5', '-'),
        Scene::Ambiguous => ('0', '6', '-'),
        Scene::Empty => ('0', '7', '-'),
        Scene::Drums => ('2', '5', '-'),
        Scene::Guitar => ('2', '6', '-'),
        Scene::GuitarLane => ('2', '6', 'b'),
        Scene::GuitarBoth => ('2', '6', 'c'),
        Scene::Lyrics => ('2', '7', '-'),
        Scene::Orchestral => ('2', '1', '-'),
        Scene::Held => ('1', '9', '-'),
        Scene::Density => ('1', '6', '-'),
        Scene::Percussive => ('2', '8', '-'),
        Scene::GuitarPro => ('2', '9', '-'),
        Scene::Flams => ('4', '6', '-'),
    }
}

impl Scene {
    /// Every scene, in the order the picker lists them.
    pub const ALL: [Scene; 18] = [
        Scene::Phrase,
        Scene::Zones,
        Scene::Microtonal,
        Scene::Pressure,
        Scene::AllDimensions,
        Scene::Ambiguous,
        Scene::Empty,
        Scene::Density,
        Scene::Held,
        Scene::Orchestral,
        Scene::Drums,
        Scene::Guitar,
        Scene::GuitarLane,
        Scene::GuitarBoth,
        Scene::Lyrics,
        Scene::Percussive,
        Scene::GuitarPro,
        Scene::Flams,
    ];

    /// Stable file-name stem for screenshots.
    pub fn slug(&self) -> (s: &'static str)
        ensures
            s@ == scene_slug(*self),
    {
        match self {
            Scene::Phrase => "01-phrase",
            Scene::Zones => "02-zones",
            Scene::Microtonal => "03-microtonal",
            Scene::Pressure => "04-pressure",
            Scene::AllDimensions => "05-all-lanes",
            Scene::Ambiguous => "06-ambiguous",
            Scene::Empty => "07-empty",
            Scene::Drums => "25-drums",
            Scene::Guitar => "26-guitar",
            Scene::GuitarLane => "26b-guitar-bend-dimension",
            Scene::GuitarBoth => "26c-guitar-bend-both",
            Scene::Lyrics => "27-lyrics",
            Scene::Orchestral => "21-orchestral",
            Scene::Held => "19-held",
            Scene::Density => "16-density",
            Scene::Percussive => "28-percussive",
            Scene::GuitarPro => "29-guitar-pro",
            Scene::Flams => "46-flams",
        }
    }

    pub fn label(&self) -> (s: &'static str)
        ensures
            s@ == scene_label(*self),
    {
        match self {
            Scene::Phrase => "Sung phrase",
            Scene::Zones => "Q zones",
            Scene::Microtonal => "Maqam Rast",
            Scene::Pressure => "Pressure dimension",
            Scene::AllDimensions => "All lanes",
            Scene::Ambiguous => "Channel conflict",
            Scene::Empty => "Empty",
            Scene::Drums => "Drum groove",
            Scene::Guitar => "Guitar riff",
            Scene::GuitarLane => "Guitar — bend dimension",
            Scene::GuitarBoth => "Guitar — row + dimension",
            Scene::Lyrics => "Vocal lyrics",
            Scene::Orchestral => "Orchestral CC",
            Scene::Held => "Held notes",
            Scene::Density => "Mixed density",
            Scene::Percussive => "Unpitched audio",
            Scene::GuitarPro => "Guitar Pro import",
            Scene::Flams => "Drum flams",
        }
    }

    /// Which bend-flow variant this scene mounts.
    ///
    /// Lives on the scene so the runnable example and the screenshots
    /// cannot disagree about which picture is which.
    pub fn bend_flow(&self) -> (f: BendFlow)
        ensures
            f == (match *self {
                Scene::GuitarLane => BendFlow::Lane,
                Scene::GuitarBoth => BendFlow::Both,
                _ => BendFlow::OnRow,
            }),
    {
        match self {
            Scene::GuitarLane => BendFlow::Lane,
            Scene::GuitarBoth => BendFlow::Both,
            _ => BendFlow::OnRow,
        }
    }
}

/// Each slug starts with its scene's key.
proof fn slug_starts_with_key(s: Scene)
    ensures
        scene_slug(s).len() >= 3,
        (scene_slug(s)[0], scene_slug(s)[1], scene_slug(s)[2]) == slug_key(s),
{
    reveal_strlit("01-phrase");
    reveal_strlit("02-zones");
    reveal_strlit("03-microtonal");
    reveal_strlit("04-pressure");
    reveal_strlit("05-all-lanes");
    reveal_strlit("06-ambiguous");
    reveal_strlit("07-empty");
    reveal_strlit("25-drums");
    reveal_strlit("26-guitar");
    reveal_strlit("26b-guitar-bend-dimension");
    reveal_strlit("26c-guitar-bend-both");
    reveal_strlit("27-lyrics");
    reveal_strlit("21-orchestral");
    reveal_strlit("19-held");
    reveal_strlit("16-density");
    reveal_strlit("28-percussive");
    reveal_strlit("29-guitar-pro");
    reveal_strlit("46-flams");
}

/// No two scenes are filed under the same name, so a screenshot can never
/// overwrite another scene's.
pub proof fn slugs_are_distinct(a: Scene, b: Scene)
    requires
        a != b,
    ensures
        scene_slug(a) != scene_slug(b),
{
    slug_starts_with_key(a);
    slug_starts_with_key(b);
    assert(slug_key(a) != slug_key(b));
}

} // verus!
