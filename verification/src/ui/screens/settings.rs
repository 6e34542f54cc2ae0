//! The settings menu: its entries and their order, what the keys do, which
//! value a key changes, and the texts that depend on the menu's state.

use vstd::prelude::*;
use vstd::string::*;
use crate::audio::devices::OutputDevice;
use crate::config::{AudioConfig, Config, NoiseType};
use crate::state::AppState;

verus! {

/// An entry of the settings menu.
#[derive(Debug, Clone, Copy, PartialEq, Eq, Structural)]
pub enum MenuItem {
    OutputDevice,
    NoiseType,
    Volume,
    BassBoost,
    LowPassEnabled,
    LowPassFreq,
    HighPassEnabled,
    HighPassFreq,
    SmoothingEnabled,
    SmoothingAmount,
    OverlayEnabled,
    OverlayType,
    OverlayAmount,
    SaveAndExit,
    ExitWithoutSaving,
}

impl MenuItem {
    /// Every entry, in the order in which the menu shows them.
    pub const ALL: [MenuItem; 15] = [
        MenuItem::OutputDevice,
        MenuItem::NoiseType,
        MenuItem::Volume,
        MenuItem::BassBoost,
        MenuItem::LowPassEnabled,
        MenuItem::LowPassFreq,
        MenuItem::HighPassEnabled,
        MenuItem::HighPassFreq,
        MenuItem::SmoothingEnabled,
        MenuItem::SmoothingAmount,
        MenuItem::OverlayEnabled,
        MenuItem::OverlayType,
        MenuItem::OverlayAmount,
        MenuItem::SaveAndExit,
        MenuItem::ExitWithoutSaving,
    ];

    /// The place of an entry in `ALL`.
    pub open spec fn rank(self) -> int {
        match self {
            MenuItem::OutputDevice => 0,
            MenuItem::NoiseType => 1,
            MenuItem::Volume => 2,
            MenuItem::BassBoost => 3,
            MenuItem::LowPassEnabled => 4,
            MenuItem::LowPassFreq => 5,
            MenuItem::HighPassEnabled => 6,
            MenuItem::HighPassFreq => 7,
            MenuItem::SmoothingEnabled => 8,
            MenuItem::SmoothingAmount => 9,
            MenuItem::OverlayEnabled => 10,
            MenuItem::OverlayType => 11,
            MenuItem::OverlayAmount => 12,
            MenuItem::SaveAndExit => 13,
            MenuItem::ExitWithoutSaving => 14,
        }
    }

    /// The entry below this one, wrapping from the last to the first.
    pub open spec fn following(self) -> MenuItem {
        MenuItem::ALL@[(self.rank() + 1) % 15]
    }

    /// The entry above this one, wrapping from the first to the last.
    pub open spec fn preceding(self) -> MenuItem {
        MenuItem::ALL@[(self.rank() + 14) % 15]
    }

    /// The entry below this one.
    pub fn next(&self) -> (n: MenuItem)
        ensures
            n == self.following(),
            n.rank() == (self.rank() + 1) % 15,
    {
        proof {
            lemma_menu_lists_each_entry_once();
        }
        let idx = menu_position(*self);
        Self::ALL[(idx + 1) % 15]
    }

    /// The entry above this one.
    pub fn prev(&self) -> (p: MenuItem)
        ensures
            p == self.preceding(),
            p.rank() == (self.rank() + 14) % 15,
    {
        proof {
            lemma_menu_lists_each_entry_once();
        }
        let idx = menu_position(*self);
        Self::ALL[(idx + 15 - 1) % 15]
    }
}

/// `ALL` lists every entry exactly once, each at its rank.
pub proof fn lemma_menu_lists_each_entry_once()
    ensures
        MenuItem::ALL@.len() == 15,
        forall|m: MenuItem| #[trigger] MenuItem::ALL@[m.rank()] == m,
        forall|i: int| 0 <= i < 15 ==> (#[trigger] MenuItem::ALL@[i]).rank() == i,
{
    assert(MenuItem::ALL@ =~= seq![
        MenuItem::OutputDevice,
        MenuItem::NoiseType,
        MenuItem::Volume,
        MenuItem::BassBoost,
        MenuItem::LowPassEnabled,
        MenuItem::LowPassFreq,
        MenuItem::HighPassEnabled,
        MenuItem::HighPassFreq,
        MenuItem::SmoothingEnabled,
        MenuItem::SmoothingAmount,
        MenuItem::OverlayEnabled,
        MenuItem::OverlayType,
        MenuItem::OverlayAmount,
        MenuItem::SaveAndExit,
        MenuItem::ExitWithoutSaving,
    ]);
}

/// Moving down and then up, or up and then down, comes back to the same
/// entry; fifteen steps down go once round the menu.
pub proof fn lemma_menu_navigation_round_trip(m: MenuItem)
    ensures
        m.following().preceding() == m,
        m.preceding().following() == m,
        m.following().rank() == (m.rank() + 1) % 15,
        m.preceding().rank() == (m.rank() + 14) % 15,
{
    lemma_menu_lists_each_entry_once();
    assert(m.following().rank() == (m.rank() + 1) % 15);
    assert(m.preceding().rank() == (m.rank() + 14) % 15);
    assert(MenuItem::ALL@[m.following().rank()] == m.following());
    assert(MenuItem::ALL@[m.preceding().rank()] == m.preceding());
    assert(MenuItem::ALL@[m.rank()] == m);
}

/// Where an entry stands in `ALL`.
fn menu_position(item: MenuItem) -> (idx: usize)
    ensures
        idx < 15,
        idx == item.rank(),
{
    proof {
        lemma_menu_lists_each_entry_once();
    }
    let mut i: usize = 0;
    while i < 15
        invariant
            i <= 15,
            MenuItem::ALL@.len() == 15,
            forall|m: MenuItem| #[trigger] MenuItem::ALL@[m.rank()] == m,
            forall|k: int| 0 <= k < 15 ==> (#[trigger] MenuItem::ALL@[k]).rank() == k,
            forall|j: int| 0 <= j < i ==> MenuItem::ALL@[j] != item,
        decreases 15 - i,
    {
        if MenuItem::ALL[i] == item {
            return i;
        }
        i = i + 1;
    }
    assert(MenuItem::ALL@[item.rank()] == item);
    0
}

/// Where a noise colour stands in `NoiseType::ALL`.
fn noise_position(t: NoiseType) -> (idx: usize)
    ensures
        idx < 6,
        idx == t.rank(),
{
    proof {
        crate::config::lemma_all_lists_each_colour_once();
    }
    let mut i: usize = 0;
    while i < 6
        invariant
            i <= 6,
            NoiseType::ALL@.len() == 6,
            forall|t2: NoiseType| #[trigger] NoiseType::ALL@[t2.rank()] == t2,
            forall|k: int| 0 <= k < 6 ==> (#[trigger] NoiseType::ALL@[k]).rank() == k,
            forall|j: int| 0 <= j < i ==> NoiseType::ALL@[j] != t,
        decreases 6 - i,
    {
        if NoiseType::ALL[i] == t {
            return i;
        }
        i = i + 1;
    }
    assert(NoiseType::ALL@[t.rank()] == t);
    0
}

/// A change the menu makes to a value of the audio configuration. A step is
/// `1` for an increase and `-1` for a decrease; how far one step goes is up
/// to the configuration's levels.
#[derive(Debug, Clone, Copy, PartialEq, Eq, Structural)]
pub enum Adjustment {
    CycleNoiseType,
    Volume(i32),
    BassBoost(i32),
    ToggleLowPass,
    LowPassFreq(i32),
    ToggleHighPass,
    HighPassFreq(i32),
    ToggleSmoothing,
    SmoothingAmount(i32),
    ToggleOverlay,
    CycleOverlayType,
    OverlayAmount(i32),
}

/// A step of one of the floating-point levels, which the program applies.
#[derive(Debug, Clone, Copy, PartialEq, Eq, Structural)]
pub enum LevelStep {
    Volume(i32),
    BassBoost(i32),
    LowPassFreq(i32),
    HighPassFreq(i32),
    SmoothingAmount(i32),
    OverlayAmount(i32),
}

/// The change a right press (`increase`) or a left press makes to the value
/// of an entry; entries without a value change nothing.
pub open spec fn spec_value_change(item: MenuItem, increase: bool) -> Option<Adjustment> {
    let step: i32 = if increase {
        1i32
    } else {
        -1i32
    };
    match item {
        MenuItem::NoiseType => Some(Adjustment::CycleNoiseType),
        MenuItem::Volume => Some(Adjustment::Volume(step)),
        MenuItem::BassBoost => Some(Adjustment::BassBoost(step)),
        MenuItem::LowPassEnabled => Some(Adjustment::ToggleLowPass),
        MenuItem::LowPassFreq => Some(Adjustment::LowPassFreq(step)),
        MenuItem::HighPassEnabled => Some(Adjustment::ToggleHighPass),
        MenuItem::HighPassFreq => Some(Adjustment::HighPassFreq(step)),
        MenuItem::SmoothingEnabled => Some(Adjustment::ToggleSmoothing),
        MenuItem::SmoothingAmount => Some(Adjustment::SmoothingAmount(step)),
        MenuItem::OverlayEnabled => Some(Adjustment::ToggleOverlay),
        MenuItem::OverlayType => Some(Adjustment::CycleOverlayType),
        MenuItem::OverlayAmount => Some(Adjustment::OverlayAmount(step)),
        _ => None,
    }
}

/// The change Enter makes: it toggles a switch or cycles a colour, and
/// leaves levels and the other entries alone.
pub open spec fn spec_enter_change(item: MenuItem) -> Option<Adjustment> {
    match item {
        MenuItem::NoiseType => Some(Adjustment::CycleNoiseType),
        MenuItem::LowPassEnabled => Some(Adjustment::ToggleLowPass),
        MenuItem::HighPassEnabled => Some(Adjustment::ToggleHighPass),
        MenuItem::SmoothingEnabled => Some(Adjustment::ToggleSmoothing),
        MenuItem::OverlayEnabled => Some(Adjustment::ToggleOverlay),
        MenuItem::OverlayType => Some(Adjustment::CycleOverlayType),
        _ => None,
    }
}

/// The level step a change makes, if it changes a level.
pub open spec fn level_step_of(a: Adjustment) -> Option<LevelStep> {
    match a {
        Adjustment::Volume(s) => Some(LevelStep::Volume(s)),
        Adjustment::BassBoost(s) => Some(LevelStep::BassBoost(s)),
        Adjustment::LowPassFreq(s) => Some(LevelStep::LowPassFreq(s)),
        Adjustment::HighPassFreq(s) => Some(LevelStep::HighPassFreq(s)),
        Adjustment::SmoothingAmount(s) => Some(LevelStep::SmoothingAmount(s)),
        Adjustment::OverlayAmount(s) => Some(LevelStep::OverlayAmount(s)),
        _ => None,
    }
}

/// The configuration after a change: a toggle flips its switch, a cycle moves
/// its colour on; a level step is left to the program and changes nothing here.
pub open spec fn apply_adjustment<L>(c: AudioConfig<L>, a: Adjustment) -> AudioConfig<L> {
    match a {
        Adjustment::CycleNoiseType => AudioConfig { noise_type: c.noise_type.following(), ..c },
        Adjustment::ToggleLowPass => AudioConfig { low_pass_enabled: !c.low_pass_enabled, ..c },
        Adjustment::ToggleHighPass => AudioConfig { high_pass_enabled: !c.high_pass_enabled, ..c },
        Adjustment::ToggleSmoothing => AudioConfig { smoothing_enabled: !c.smoothing_enabled, ..c },
        Adjustment::ToggleOverlay => AudioConfig { overlay_enabled: !c.overlay_enabled, ..c },
        Adjustment::CycleOverlayType => AudioConfig { overlay_type: c.overlay_type.following(), ..c },
        _ => c,
    }
}

/// The configuration after a list of changes, made in order.
pub open spec fn apply_adjustments<L>(c: AudioConfig<L>, s: Seq<Adjustment>) -> AudioConfig<L>
    decreases s.len(),
{
    if s.len() == 0 {
        c
    } else {
        apply_adjustment(apply_adjustments(c, s.drop_last()), s.last())
    }
}

/// The level steps of a list of changes, in order.
pub open spec fn level_steps(s: Seq<Adjustment>) -> Seq<LevelStep>
    decreases s.len(),
{
    if s.len() == 0 {
        seq![]
    } else {
        let earlier = level_steps(s.drop_last());
        match level_step_of(s.last()) {
            Some(step) => earlier.push(step),
            None => earlier,
        }
    }
}

/// The keys pressed during one frame of the menu.
#[derive(Debug, Clone, Copy, PartialEq, Eq, Structural)]
pub struct KeyPresses {
    pub escape: bool,
    pub down: bool,
    pub up: bool,
    pub enter: bool,
    pub right: bool,
    pub left: bool,
}

/// What the keys of one frame did and ask for.
#[derive(Debug)]
pub struct KeyOutcome {
    /// The changes made, in order.
    pub adjustments: Vec<Adjustment>,
    /// The level steps among them, which the program still has to apply.
    pub level_steps: Vec<LevelStep>,
    /// Write the configuration to disk.
    pub should_save: bool,
    /// Leave the menu for the black screen.
    pub should_exit: bool,
    /// Throw away unsaved changes by reloading the saved configuration.
    pub should_discard: bool,
}

/// An optional change as a list of zero or one changes.
pub open spec fn change_list(c: Option<Adjustment>) -> Seq<Adjustment> {
    match c {
        Some(a) => seq![a],
        None => seq![],
    }
}

/// The selected entry after the arrow keys of one frame: down first, then up.
pub open spec fn item_after_keys(item: MenuItem, keys: KeyPresses) -> MenuItem {
    let moved_down = if keys.down {
        item.following()
    } else {
        item
    };
    if keys.up {
        moved_down.preceding()
    } else {
        moved_down
    }
}

/// The changes one frame's keys make with `item` selected: Enter, then right,
/// then left.
pub open spec fn spec_key_adjustments(item: MenuItem, keys: KeyPresses) -> Seq<Adjustment> {
    (if keys.enter {
        change_list(spec_enter_change(item))
    } else {
        seq![]
    }) + (if keys.right {
        change_list(spec_value_change(item, true))
    } else {
        seq![]
    }) + (if keys.left {
        change_list(spec_value_change(item, false))
    } else {
        seq![]
    })
}

/// The two states agree on everything the settings menu does not change.
pub open spec fn same_outside_config<L>(a: AppState<L>, b: AppState<L>) -> bool {
    &&& a.mode == b.mode
    &&& a.config_loaded == b.config_loaded
    &&& a.audio_error == b.audio_error
}

/// The settings menu.
pub struct SettingsScreen {
    current_item: MenuItem,
    audio_playing: bool,
    output_devices_cache: Option<Vec<OutputDevice>>,
}

impl SettingsScreen {
    /// The selected entry.
    pub closed spec fn selected(self) -> MenuItem {
        self.current_item
    }

    /// The device list read so far, if it has been read.
    pub closed spec fn cached_devices(self) -> Option<Seq<OutputDevice>> {
        match self.output_devices_cache {
            Some(v) => Some(v@),
            None => None,
        }
    }

    /// Whether audio was playing when the menu was made.
    pub closed spec fn started_playing(self) -> bool {
        self.audio_playing
    }

    /// A menu with the noise colour selected and no device list read yet.
    pub fn new(audio_playing: bool) -> (s: Self)
        ensures
            s.selected() == MenuItem::NoiseType,
            s.cached_devices() is None,
            s.started_playing() == audio_playing,
    {
        SettingsScreen { current_item: MenuItem::NoiseType, audio_playing, output_devices_cache: None }
    }

    /// The selected entry.
    pub fn current_item(&self) -> (item: MenuItem)
        ensures
            item == self.selected(),
    {
        self.current_item
    }

    /// Whether the device list still has to be read.
    pub fn needs_device_list(&self) -> (b: bool)
        ensures
            b == self.cached_devices() is None,
    {
        self.output_devices_cache.is_none()
    }

    /// Keeps the device list, so that it is read only once.
    pub fn store_device_list(&mut self, devices: Vec<OutputDevice>)
        ensures
            final(self).cached_devices() == Some(devices@),
            final(self).selected() == old(self).selected(),
            final(self).started_playing() == old(self).started_playing(),
    {
        self.output_devices_cache = Some(devices);
    }

    /// The device list kept so far; empty when it has not been read.
    pub fn device_list(&self) -> (devices: &[OutputDevice])
        ensures
            devices@ == match self.cached_devices() {
                Some(d) => d,
                None => Seq::<OutputDevice>::empty(),
            },
    {
        match &self.output_devices_cache {
            Some(v) => v.as_slice(),
            None => &[],
        }
    }

    /// Reacts to one frame's keys: Escape saves and leaves; down and up move
    /// the selection; Enter saves and leaves on "Save & Exit", discards and
    /// leaves on "Exit Without Saving", and toggles a switch or cycles a colour
    /// on their entries; right and left increase and decrease the selected
    /// value. Every change marks the configuration unsaved; level steps are
    /// returned for the program to apply.
    pub fn handle_keys<L>(&mut self, state: &mut AppState<L>, keys: KeyPresses) -> (out: KeyOutcome)
        ensures
            final(self).selected() == item_after_keys(old(self).selected(), keys),
            final(self).cached_devices() == old(self).cached_devices(),
            final(self).started_playing() == old(self).started_playing(),
            out.adjustments@ == spec_key_adjustments(final(self).selected(), keys),
            out.level_steps@ == level_steps(out.adjustments@),
            final(state).config.audio == apply_adjustments(old(state).config.audio, out.adjustments@),
            final(state).unsaved_changes == (old(state).unsaved_changes || out.adjustments@.len() > 0),
            same_outside_config(*final(state), *old(state)),
            out.should_save == (keys.escape || (keys.enter && final(self).selected()
                == MenuItem::SaveAndExit)),
            out.should_discard == (keys.enter && final(self).selected()
                == MenuItem::ExitWithoutSaving),
            out.should_exit == (keys.escape || (keys.enter && (final(self).selected()
                == MenuItem::SaveAndExit || final(self).selected()
                == MenuItem::ExitWithoutSaving))),
    {
        let mut should_save = false;
        let mut should_exit = false;
        let mut should_discard = false;
        if keys.escape {
            should_save = true;
            should_exit = true;
        }
        if keys.down {
            self.current_item = self.current_item.next();
        }
        if keys.up {
            self.current_item = self.current_item.prev();
        }
        let item = self.current_item;
        if keys.enter {
            if item == MenuItem::SaveAndExit {
                should_save = true;
                should_exit = true;
            } else if item == MenuItem::ExitWithoutSaving {
                should_discard = true;
                should_exit = true;
            }
        }
        let (adjustments, steps) = Self::value_keys(state, item, keys);
        KeyOutcome { adjustments, level_steps: steps, should_save, should_exit, should_discard }
    }

    /// Makes the changes Enter, right and left ask for with `item` selected.
    fn value_keys<L>(state: &mut AppState<L>, item: MenuItem, keys: KeyPresses) -> (r: (
        Vec<Adjustment>,
        Vec<LevelStep>,
    ))
        ensures
            r.0@ == spec_key_adjustments(item, keys),
            r.1@ == level_steps(r.0@),
            final(state).config.audio == apply_adjustments(old(state).config.audio, r.0@),
            final(state).unsaved_changes == (old(state).unsaved_changes || r.0@.len() > 0),
            same_outside_config(*final(state), *old(state)),
    {
        let mut adjustments: Vec<Adjustment> = Vec::new();
        let mut steps: Vec<LevelStep> = Vec::new();
        let ghost start = state.config.audio;
        if keys.enter {
            let change = enter_change(item);
            Self::record_change(state, change, &mut adjustments, &mut steps, Ghost(start));
        }
        assert(adjustments@ =~= (if keys.enter {
            change_list(spec_enter_change(item))
        } else {
            seq![]
        }));
        if keys.right {
            let change = value_change(item, true);
            Self::record_change(state, change, &mut adjustments, &mut steps, Ghost(start));
        }
        if keys.left {
            let change = value_change(item, false);
            Self::record_change(state, change, &mut adjustments, &mut steps, Ghost(start));
        }
        assert(adjustments@ =~= spec_key_adjustments(item, keys));
        (adjustments, steps)
    }

    /// Makes a change on behalf of `handle_keys` and notes it.
    fn record_change<L>(
        state: &mut AppState<L>,
        change: Option<Adjustment>,
        adjustments: &mut Vec<Adjustment>,
        steps: &mut Vec<LevelStep>,
        Ghost(start): Ghost<AudioConfig<L>>,
    )
        requires
            old(state).config.audio == apply_adjustments(start, old(adjustments)@),
            old(steps)@ == level_steps(old(adjustments)@),
        ensures
            final(adjustments)@ == old(adjustments)@ + change_list(change),
            final(steps)@ == level_steps(final(adjustments)@),
            final(state).config.audio == apply_adjustments(start, final(adjustments)@),
            final(state).unsaved_changes == (old(state).unsaved_changes || change is Some),
            same_outside_config(*final(state), *old(state)),
    {
        if let Some(a) = change {
            let step = Self::make_change(state, a);
            let ghost before = adjustments@;
            adjustments.push(a);
            assert(adjustments@.drop_last() =~= before);
            if let Some(st) = step {
                steps.push(st);
            }
        } else {
            assert(adjustments@ =~= adjustments@ + change_list(change));
        }
    }

    /// Makes one change to the configuration and marks it unsaved; returns
    /// the level step it stands for, if any.
    fn make_change<L>(state: &mut AppState<L>, a: Adjustment) -> (step: Option<LevelStep>)
        ensures
            final(state).config.audio == apply_adjustment(old(state).config.audio, a),
            final(state).unsaved_changes,
            same_outside_config(*final(state), *old(state)),
            step == level_step_of(a),
    {
        let step = match a {
            Adjustment::CycleNoiseType => {
                state.config.audio.noise_type = next_colour(state.config.audio.noise_type);
                None
            },
            Adjustment::ToggleLowPass => {
                state.config.audio.low_pass_enabled = !state.config.audio.low_pass_enabled;
                None
            },
            Adjustment::ToggleHighPass => {
                state.config.audio.high_pass_enabled = !state.config.audio.high_pass_enabled;
                None
            },
            Adjustment::ToggleSmoothing => {
                state.config.audio.smoothing_enabled = !state.config.audio.smoothing_enabled;
                None
            },
            Adjustment::ToggleOverlay => {
                state.config.audio.overlay_enabled = !state.config.audio.overlay_enabled;
                None
            },
            Adjustment::CycleOverlayType => {
                state.config.audio.overlay_type = next_colour(state.config.audio.overlay_type);
                None
            },
            Adjustment::Volume(s) => Some(LevelStep::Volume(s)),
            Adjustment::BassBoost(s) => Some(LevelStep::BassBoost(s)),
            Adjustment::LowPassFreq(s) => Some(LevelStep::LowPassFreq(s)),
            Adjustment::HighPassFreq(s) => Some(LevelStep::HighPassFreq(s)),
            Adjustment::SmoothingAmount(s) => Some(LevelStep::SmoothingAmount(s)),
            Adjustment::OverlayAmount(s) => Some(LevelStep::OverlayAmount(s)),
        };
        state.mark_unsaved();
        step
    }

    /// Changes the selected entry's value as a right (`increase`) or left key
    /// does: a switch flips, a colour moves on, and the configuration is marked
    /// unsaved; a level's step is returned for the program to apply. Entries
    /// without a value change nothing.
    pub fn handle_value_change<L>(&mut self, state: &mut AppState<L>, increase: bool) -> (step:
        Option<LevelStep>)
        ensures
            *final(self) == *old(self),
            final(state).config.audio == apply_adjustments(
                old(state).config.audio,
                change_list(spec_value_change(old(self).selected(), increase)),
            ),
            final(state).unsaved_changes == (old(state).unsaved_changes || spec_value_change(
                old(self).selected(),
                increase,
            ) is Some),
            same_outside_config(*final(state), *old(state)),
            step == match spec_value_change(old(self).selected(), increase) {
                Some(a) => level_step_of(a),
                None => None,
            },
    {
        match value_change(self.current_item, increase) {
            Some(a) => {
                let step = Self::make_change(state, a);
                proof {
                    lemma_apply_single(old(state).config.audio, a);
                }
                step
            },
            None => None,
        }
    }

    /// Moves the main noise colour on to the next one in `NoiseType::ALL`.
    pub fn cycle_noise_type(&mut self, noise_type: &mut NoiseType)
        ensures
            *final(noise_type) == old(noise_type).following(),
            final(noise_type).rank() == (old(noise_type).rank() + 1) % 6,
            *final(self) == *old(self),
    {
        *noise_type = next_colour(*noise_type);
    }

    /// Moves the overlay noise colour on to the next one in `NoiseType::ALL`.
    pub fn cycle_overlay_type(&mut self, overlay_type: &mut NoiseType)
        ensures
            *final(overlay_type) == old(overlay_type).following(),
            final(overlay_type).rank() == (old(overlay_type).rank() + 1) % 6,
            *final(self) == *old(self),
    {
        *overlay_type = next_colour(*overlay_type);
    }
}

/// The colour after `t` in `NoiseType::ALL`, wrapping round.
fn next_colour(t: NoiseType) -> (n: NoiseType)
    ensures
        n == t.following(),
        n.rank() == (t.rank() + 1) % 6,
{
    proof {
        crate::config::lemma_all_lists_each_colour_once();
    }
    let current_idx = noise_position(t);
    let next_idx = (current_idx + 1) % 6;
    NoiseType::ALL[next_idx]
}

/// The change a right (`increase`) or left key makes to an entry's value.
fn value_change(item: MenuItem, increase: bool) -> (change: Option<Adjustment>)
    ensures
        change == spec_value_change(item, increase),
{
    let step: i32 = if increase {
        1
    } else {
        -1
    };
    match item {
        MenuItem::NoiseType => Some(Adjustment::CycleNoiseType),
        MenuItem::Volume => Some(Adjustment::Volume(step)),
        MenuItem::BassBoost => Some(Adjustment::BassBoost(step)),
        MenuItem::LowPassEnabled => Some(Adjustment::ToggleLowPass),
        MenuItem::LowPassFreq => Some(Adjustment::LowPassFreq(step)),
        MenuItem::HighPassEnabled => Some(Adjustment::ToggleHighPass),
        MenuItem::HighPassFreq => Some(Adjustment::HighPassFreq(step)),
        MenuItem::SmoothingEnabled => Some(Adjustment::ToggleSmoothing),
        MenuItem::SmoothingAmount => Some(Adjustment::SmoothingAmount(step)),
        MenuItem::OverlayEnabled => Some(Adjustment::ToggleOverlay),
        MenuItem::OverlayType => Some(Adjustment::CycleOverlayType),
        MenuItem::OverlayAmount => Some(Adjustment::OverlayAmount(step)),
        _ => None,
    }
}

/// The change Enter makes to an entry's value.
fn enter_change(item: MenuItem) -> (change: Option<Adjustment>)
    ensures
        change == spec_enter_change(item),
{
    match item {
        MenuItem::NoiseType => Some(Adjustment::CycleNoiseType),
        MenuItem::LowPassEnabled => Some(Adjustment::ToggleLowPass),
        MenuItem::HighPassEnabled => Some(Adjustment::ToggleHighPass),
        MenuItem::SmoothingEnabled => Some(Adjustment::ToggleSmoothing),
        MenuItem::OverlayEnabled => Some(Adjustment::ToggleOverlay),
        MenuItem::OverlayType => Some(Adjustment::CycleOverlayType),
        _ => None,
    }
}

/// Six turns of the colour wheel come back to the starting colour.
pub proof fn lemma_noise_cycle_returns(t: NoiseType)
    ensures
        t.following().following().following().following().following().following() == t,
        t.following() != t,
{
}

/// Every field of the configuration other than the entry's own.
pub open spec fn agrees_outside_entry<L>(a: AudioConfig<L>, b: AudioConfig<L>, item: MenuItem) -> bool {
    &&& item != MenuItem::NoiseType ==> a.noise_type == b.noise_type
    &&& item != MenuItem::LowPassEnabled ==> a.low_pass_enabled == b.low_pass_enabled
    &&& item != MenuItem::HighPassEnabled ==> a.high_pass_enabled == b.high_pass_enabled
    &&& item != MenuItem::SmoothingEnabled ==> a.smoothing_enabled == b.smoothing_enabled
    &&& item != MenuItem::OverlayEnabled ==> a.overlay_enabled == b.overlay_enabled
    &&& item != MenuItem::OverlayType ==> a.overlay_type == b.overlay_type
    &&& a.sample_rate == b.sample_rate
    &&& a.output_device == b.output_device
    &&& a.levels == b.levels
}

/// A key changes only the value of the selected entry; entries without a
/// value ask for no change; a right key steps a level up by one, a left key
/// down by one.
pub proof fn lemma_change_targets_selected_entry<L>(c: AudioConfig<L>, item: MenuItem, increase: bool)
    ensures
        agrees_outside_entry(c, apply_adjustments(c, change_list(spec_value_change(item, increase))), item),
        agrees_outside_entry(c, apply_adjustments(c, change_list(spec_enter_change(item))), item),
        spec_value_change(item, increase) is None <==> (item == MenuItem::OutputDevice || item
            == MenuItem::SaveAndExit || item == MenuItem::ExitWithoutSaving),
        spec_value_change(item, increase) matches Some(a) ==> (level_step_of(a) matches Some(
            LevelStep::Volume(s),
        ) ==> s == (if increase { 1int } else { -1int })),
{
    if let Some(a) = spec_value_change(item, increase) {
        lemma_apply_single(c, a);
    }
    if let Some(a) = spec_enter_change(item) {
        lemma_apply_single(c, a);
    }
}

/// Making a list of one change is making that change.
pub proof fn lemma_apply_single<L>(c: AudioConfig<L>, a: Adjustment)
    ensures
        apply_adjustments(c, seq![a]) == apply_adjustment(c, a),
        apply_adjustments(c, Seq::<Adjustment>::empty()) == c,
{
    assert(seq![a].drop_last() =~= Seq::<Adjustment>::empty());
}

/// Enter never steps a level: it only toggles switches and cycles colours.
pub proof fn lemma_enter_steps_no_level(item: MenuItem)
    ensures
        spec_enter_change(item) matches Some(a) ==> level_step_of(a) is None,
{
}

/// The entries whose value is a switch or a colour.
pub open spec fn is_switch_or_colour(m: MenuItem) -> bool {
    ||| m == MenuItem::NoiseType
    ||| m == MenuItem::LowPassEnabled
    ||| m == MenuItem::HighPassEnabled
    ||| m == MenuItem::SmoothingEnabled
    ||| m == MenuItem::OverlayEnabled
    ||| m == MenuItem::OverlayType
}

/// The entries whose value is a floating-point level.
pub open spec fn is_level_entry(m: MenuItem) -> bool {
    ||| m == MenuItem::Volume
    ||| m == MenuItem::BassBoost
    ||| m == MenuItem::LowPassFreq
    ||| m == MenuItem::HighPassFreq
    ||| m == MenuItem::SmoothingAmount
    ||| m == MenuItem::OverlayAmount
}

/// The entry a level step belongs to, and how many steps it goes.
pub open spec fn step_target(s: LevelStep) -> (MenuItem, int) {
    match s {
        LevelStep::Volume(k) => (MenuItem::Volume, k as int),
        LevelStep::BassBoost(k) => (MenuItem::BassBoost, k as int),
        LevelStep::LowPassFreq(k) => (MenuItem::LowPassFreq, k as int),
        LevelStep::HighPassFreq(k) => (MenuItem::HighPassFreq, k as int),
        LevelStep::SmoothingAmount(k) => (MenuItem::SmoothingAmount, k as int),
        LevelStep::OverlayAmount(k) => (MenuItem::OverlayAmount, k as int),
    }
}

/// `after` is `c` with the switch of entry `m` flipped or its colour moved one
/// place on in `NoiseType::ALL`, and nothing else changed.
pub open spec fn flips_or_moves_on<L>(c: AudioConfig<L>, after: AudioConfig<L>, m: MenuItem) -> bool {
    &&& agrees_outside_entry(c, after, m)
    &&& m == MenuItem::LowPassEnabled ==> after.low_pass_enabled != c.low_pass_enabled
    &&& m == MenuItem::HighPassEnabled ==> after.high_pass_enabled != c.high_pass_enabled
    &&& m == MenuItem::SmoothingEnabled ==> after.smoothing_enabled != c.smoothing_enabled
    &&& m == MenuItem::OverlayEnabled ==> after.overlay_enabled != c.overlay_enabled
    &&& m == MenuItem::NoiseType ==> after.noise_type.rank() == (c.noise_type.rank() + 1) % 6
    &&& m == MenuItem::OverlayType ==> after.overlay_type.rank() == (c.overlay_type.rank() + 1) % 6
}

/// What one change list does to entry `m`: on a switch or colour entry it is
/// one change that flips the switch or moves the colour on, with no level
/// step; on a level entry (when `level_step` is given) it is one change that
/// leaves the configuration alone and steps that entry's level by
/// `level_step`; on any other entry it is no change.
pub open spec fn changes_entry<L>(
    c: AudioConfig<L>,
    m: MenuItem,
    adj: Seq<Adjustment>,
    level_step: Option<int>,
) -> bool {
    &&& is_switch_or_colour(m) ==> adj.len() == 1 && flips_or_moves_on(
        c,
        apply_adjustments(c, adj),
        m,
    ) && level_steps(adj).len() == 0
    &&& is_level_entry(m) ==> match level_step {
        Some(k) => adj.len() == 1 && apply_adjustments(c, adj) == c && level_steps(adj).len() == 1
            && step_target(level_steps(adj)[0]) == (m, k),
        None => adj.len() == 0,
    }
    &&& !is_switch_or_colour(m) && !is_level_entry(m) ==> adj.len() == 0
}

/// A single change made to the configuration, as a change list.
proof fn lemma_changes_of_one<L>(c: AudioConfig<L>, a: Adjustment)
    ensures
        apply_adjustments(c, seq![a]) == apply_adjustment(c, a),
        level_steps(seq![a]) == match level_step_of(a) {
            Some(st) => seq![st],
            None => Seq::<LevelStep>::empty(),
        },
        level_steps(Seq::<Adjustment>::empty()) == Seq::<LevelStep>::empty(),
        apply_adjustments(c, Seq::<Adjustment>::empty()) == c,
{
    assert(seq![a].drop_last() =~= Seq::<Adjustment>::empty());
    assert(seq![a].last() == a);
    assert(level_steps(Seq::<Adjustment>::empty()) == Seq::<LevelStep>::empty());
    assert(level_steps(seq![a].drop_last()) == Seq::<LevelStep>::empty());
    if let Some(st) = level_step_of(a) {
        assert(Seq::<LevelStep>::empty().push(st) =~= seq![st]);
    }
}

/// Cycling a colour moves it exactly one place on in `NoiseType::ALL`, for the
/// main and for the overlay colour alike, and changes nothing else.
pub proof fn lemma_cycle_moves_one_place<L>(c: AudioConfig<L>)
    ensures
        apply_adjustment(c, Adjustment::CycleNoiseType).noise_type.rank() == (c.noise_type.rank()
            + 1) % 6,
        apply_adjustment(c, Adjustment::CycleOverlayType).overlay_type.rank() == (
        c.overlay_type.rank() + 1) % 6,
        agrees_outside_entry(c, apply_adjustment(c, Adjustment::CycleNoiseType), MenuItem::NoiseType),
        agrees_outside_entry(
            c,
            apply_adjustment(c, Adjustment::CycleOverlayType),
            MenuItem::OverlayType,
        ),
{
}

/// Right raises and left lowers the selected entry's own level by one step;
/// on a switch or colour entry either key flips the switch or moves the colour
/// on; on the other entries nothing changes.
pub proof fn lemma_arrow_changes_selected_value<L>(c: AudioConfig<L>, m: MenuItem, increase: bool)
    ensures
        changes_entry(
            c,
            m,
            change_list(spec_value_change(m, increase)),
            Some(if increase { 1int } else { -1int }),
        ),
{
    if let Some(a) = spec_value_change(m, increase) {
        lemma_changes_of_one(c, a);
    }
}

/// Enter flips the switch or moves the colour on of a switch or colour entry,
/// and changes nothing on the others (it never steps a level).
pub proof fn lemma_enter_changes_selected_value<L>(c: AudioConfig<L>, m: MenuItem)
    ensures
        changes_entry(c, m, change_list(spec_enter_change(m)), None),
{
    if let Some(a) = spec_enter_change(m) {
        lemma_changes_of_one(c, a);
    }
}

/// A frame in which only one of Enter, right and left is pressed changes the
/// selected entry as that key does on its own.
pub proof fn lemma_single_key_frame<L>(c: AudioConfig<L>, m: MenuItem, keys: KeyPresses)
    ensures
        keys.enter && !keys.right && !keys.left ==> changes_entry(
            c,
            m,
            spec_key_adjustments(m, keys),
            None,
        ),
        !keys.enter && keys.right && !keys.left ==> changes_entry(
            c,
            m,
            spec_key_adjustments(m, keys),
            Some(1),
        ),
        !keys.enter && !keys.right && keys.left ==> changes_entry(
            c,
            m,
            spec_key_adjustments(m, keys),
            Some(-1),
        ),
        !keys.enter && !keys.right && !keys.left ==> spec_key_adjustments(m, keys).len() == 0,
{
    let e = if keys.enter {
        change_list(spec_enter_change(m))
    } else {
        seq![]
    };
    let r = if keys.right {
        change_list(spec_value_change(m, true))
    } else {
        seq![]
    };
    let l = if keys.left {
        change_list(spec_value_change(m, false))
    } else {
        seq![]
    };
    assert(spec_key_adjustments(m, keys) == e + r + l);
    if keys.enter && !keys.right && !keys.left {
        assert(e + r + l =~= change_list(spec_enter_change(m)));
        lemma_enter_changes_selected_value(c, m);
    }
    if !keys.enter && keys.right && !keys.left {
        assert(e + r + l =~= change_list(spec_value_change(m, true)));
        lemma_arrow_changes_selected_value(c, m, true);
    }
    if !keys.enter && !keys.right && keys.left {
        assert(e + r + l =~= change_list(spec_value_change(m, false)));
        lemma_arrow_changes_selected_value(c, m, false);
    }
}

/// Down moves the selection one entry on and up one entry back, wrapping
/// round the fifteen entries; both in one frame leave it where it was.
pub proof fn lemma_arrow_keys_move_selection(m: MenuItem, keys: KeyPresses)
    ensures
        item_after_keys(m, keys).rank() == (m.rank() + (if keys.down {
            1int
        } else {
            0int
        }) + (if keys.up {
            14int
        } else {
            0int
        })) % 15,
        keys.down && keys.up ==> item_after_keys(m, keys) == m,
{
    lemma_menu_navigation_round_trip(m);
    lemma_menu_navigation_round_trip(m.following());
    lemma_menu_lists_each_entry_once();
    let r = m.rank();
    assert(0 <= r < 15);
    if keys.down && keys.up {
        assert(item_after_keys(m, keys) == m.following().preceding());
    }
}

/// Toggling a switch twice restores it; the change is its own undo.
pub proof fn lemma_toggle_twice_restores<L>(c: AudioConfig<L>, a: Adjustment)
    requires
        a == Adjustment::ToggleLowPass || a == Adjustment::ToggleHighPass || a
            == Adjustment::ToggleSmoothing || a == Adjustment::ToggleOverlay,
    ensures
        apply_adjustment(apply_adjustment(c, a), a) == c,
{
}

/// The text a device has in the device dropdown: its name, marked when it is
/// the system's default.
pub fn device_label(device: &OutputDevice) -> (label: String)
    ensures
        label@ == if device.is_default {
            device.name@ + " (Default)"@
        } else {
            device.name@
        },
{
    let name = device.name.clone();
    if device.is_default {
        name.concat(" (Default)")
    } else {
        name
    }
}

/// The text shown for the chosen output device: "Default" when none is chosen;
/// otherwise its name, marked when the first listed device of that name is the
/// default, or when no listed device has that name.
pub fn current_device_label(output_device: &Option<String>, devices: &[OutputDevice]) -> (label:
    String)
    ensures
        match output_device {
            None => label@ == "Default"@,
            Some(n) => {
                &&& (forall|i: int| 0 <= i < devices@.len() ==> #[trigger] devices@[i].name@ != n@)
                    ==> label@ == n@ + " (Not Found)"@
                &&& forall|i: int|
                    0 <= i < devices@.len() && #[trigger] devices@[i].name@ == n@ && (forall|j: int|
                        0 <= j < i ==> devices@[j].name@ != n@) ==> label@ == if devices@[i].is_default {
                        n@ + " (Default)"@
                    } else {
                        n@
                    }
            },
        },
{
    match output_device {
        None => String::from_str("Default"),
        Some(device_name) => {
            let n = devices.len();
            let mut i: usize = 0;
            while i < n
                invariant
                    n == devices@.len(),
                    *output_device == Some(*device_name),
                    i <= n,
                    forall|j: int| 0 <= j < i ==> devices@[j].name@ != device_name@,
                decreases n - i,
            {
                if devices[i].name == *device_name {
                    let name = device_name.clone();
                    if devices[i].is_default {
                        return name.concat(" (Default)");
                    } else {
                        return name;
                    }
                }
                i = i + 1;
            }
            device_name.clone().concat(" (Not Found)")
        },
    }
}

/// The caption of the save button: starred while there are unsaved changes.
pub fn save_button_label(unsaved_changes: bool) -> (label: String)
    ensures
        label@ == if unsaved_changes {
            "Save & Exit *"@
        } else {
            "Save & Exit"@
        },
{
    if unsaved_changes {
        String::from_str("Save & Exit *")
    } else {
        String::from_str("Save & Exit")
    }
}

/// Throws away unsaved changes: the saved configuration, when there is one,
/// replaces the current one, and the state counts as saved either way.
pub fn apply_discard<L>(state: &mut AppState<L>, saved_config: Option<Config<L>>)
    ensures
        final(state).config == match saved_config {
            Some(c) => c,
            None => old(state).config,
        },
        !final(state).unsaved_changes,
        final(state).mode == old(state).mode,
        final(state).config_loaded == old(state).config_loaded,
        final(state).audio_error == old(state).audio_error,
{
    if let Some(c) = saved_config {
        state.config = c;
    }
    state.mark_saved();
}

/// Records the outcome of writing the configuration: a successful write
/// clears the unsaved flag, a failed one leaves the state as it was.
pub fn apply_save_result<L>(state: &mut AppState<L>, saved: bool)
    ensures
        final(state).unsaved_changes == (old(state).unsaved_changes && !saved),
        final(state).mode == old(state).mode,
        final(state).config == old(state).config,
        final(state).config_loaded == old(state).config_loaded,
        final(state).audio_error == old(state).audio_error,
{
    if saved {
        state.mark_saved();
    }
}

} // verus!
