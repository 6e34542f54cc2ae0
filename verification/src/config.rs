//! The configuration: noise colours, switches, sample rate and output device.
//! Its floating-point levels (volume, gains, frequencies, amounts) are a
//! parameter `L` that the library carries without reading.

use vstd::prelude::*;

verus! {

/// The colours of noise the generator can produce.
#[derive(Debug, Clone, Copy, PartialEq, Eq, Structural)]
pub enum NoiseType {
    White,
    Pink,
    Brown,
    Green,
    Blue,
    Violet,
}

impl NoiseType {
    /// Every noise colour, in the order in which the settings menu cycles them.
    pub const ALL: [NoiseType; 6] = [
        NoiseType::White,
        NoiseType::Pink,
        NoiseType::Brown,
        NoiseType::Green,
        NoiseType::Blue,
        NoiseType::Violet,
    ];

    /// The text shown for a noise colour.
    pub open spec fn spec_display_name(self) -> Seq<char> {
        match self {
            NoiseType::White => "White"@,
            NoiseType::Pink => "Pink"@,
            NoiseType::Brown => "Brown"@,
            NoiseType::Green => "Green"@,
            NoiseType::Blue => "Blue"@,
            NoiseType::Violet => "Violet"@,
        }
    }

    /// The place of a noise colour in `ALL`.
    pub open spec fn rank(self) -> int {
        match self {
            NoiseType::White => 0,
            NoiseType::Pink => 1,
            NoiseType::Brown => 2,
            NoiseType::Green => 3,
            NoiseType::Blue => 4,
            NoiseType::Violet => 5,
        }
    }

    /// The colour that follows this one in `ALL`, wrapping from the last to the first.
    pub open spec fn following(self) -> NoiseType {
        match self {
            NoiseType::White => NoiseType::Pink,
            NoiseType::Pink => NoiseType::Brown,
            NoiseType::Brown => NoiseType::Green,
            NoiseType::Green => NoiseType::Blue,
            NoiseType::Blue => NoiseType::Violet,
            NoiseType::Violet => NoiseType::White,
        }
    }

    /// The name shown for this noise colour.
    pub fn display_name(&self) -> (name: &'static str)
        ensures
            name@ == self.spec_display_name(),
    {
        match self {
            NoiseType::White => "White",
            NoiseType::Pink => "Pink",
            NoiseType::Brown => "Brown",
            NoiseType::Green => "Green",
            NoiseType::Blue => "Blue",
            NoiseType::Violet => "Violet",
        }
    }
}

/// The audio configuration. `levels` holds the volume, the bass boost, the
/// two filter frequencies and the smoothing and overlay amounts.
#[derive(Debug, Clone)]
pub struct AudioConfig<L> {
    pub noise_type: NoiseType,
    pub low_pass_enabled: bool,
    pub high_pass_enabled: bool,
    pub smoothing_enabled: bool,
    pub overlay_enabled: bool,
    pub overlay_type: NoiseType,
    pub sample_rate: u32,
    pub output_device: Option<String>,
    pub levels: L,
}

/// The whole configuration.
#[derive(Debug, Clone)]
pub struct Config<L> {
    pub audio: AudioConfig<L>,
}

/// The sample rate used unless configured otherwise (CD quality).
pub const DEFAULT_SAMPLE_RATE: u32 = 44100;

impl<L> AudioConfig<L> {
    /// The default configuration around the given levels: pink noise, every
    /// filter, smoothing and the overlay off, white noise as the overlay,
    /// CD-quality sample rate, and the system's default output device.
    pub fn with_levels(levels: L) -> (c: Self)
        ensures
            c.noise_type == NoiseType::Pink,
            !c.low_pass_enabled,
            !c.high_pass_enabled,
            !c.smoothing_enabled,
            !c.overlay_enabled,
            c.overlay_type == NoiseType::White,
            c.sample_rate == DEFAULT_SAMPLE_RATE,
            c.output_device is None,
            c.levels == levels,
    {
        AudioConfig {
            noise_type: NoiseType::Pink,
            low_pass_enabled: false,
            high_pass_enabled: false,
            smoothing_enabled: false,
            overlay_enabled: false,
            overlay_type: NoiseType::White,
            sample_rate: DEFAULT_SAMPLE_RATE,
            output_device: None,
            levels,
        }
    }
}

/// `ALL` lists every colour exactly once, each at its rank.
pub proof fn lemma_all_lists_each_colour_once()
    ensures
        NoiseType::ALL@.len() == 6,
        forall|t: NoiseType| #[trigger] NoiseType::ALL@[t.rank()] == t,
        forall|i: int| 0 <= i < 6 ==> (#[trigger] NoiseType::ALL@[i]).rank() == i,
        forall|t: NoiseType| #[trigger] t.following() == NoiseType::ALL@[(t.rank() + 1) % 6],
{
    assert(NoiseType::ALL@ =~= seq![
        NoiseType::White,
        NoiseType::Pink,
        NoiseType::Brown,
        NoiseType::Green,
        NoiseType::Blue,
        NoiseType::Violet,
    ]);
}

/// Distinct colours have distinct names.
pub proof fn lemma_display_names_distinct(a: NoiseType, b: NoiseType)
    requires
        a != b,
    ensures
        a.spec_display_name() != b.spec_display_name(),
{
    lemma_name_signature(a);
    lemma_name_signature(b);
}

/// The length and first letter of each colour's name.
proof fn lemma_name_signature(t: NoiseType)
    ensures
        ({
            let s = t.spec_display_name();
            &&& s.len() >= 4
            &&& match t {
                NoiseType::White => s.len() == 5 && s[0] == 'W',
                NoiseType::Pink => s.len() == 4 && s[0] == 'P',
                NoiseType::Brown => s.len() == 5 && s[0] == 'B',
                NoiseType::Green => s.len() == 5 && s[0] == 'G',
                NoiseType::Blue => s.len() == 4 && s[0] == 'B',
                NoiseType::Violet => s.len() == 6 && s[0] == 'V',
            }
        }),
{
    reveal_strlit("White");
    reveal_strlit("Pink");
    reveal_strlit("Brown");
    reveal_strlit("Green");
    reveal_strlit("Blue");
    reveal_strlit("Violet");
}

} // verus!
