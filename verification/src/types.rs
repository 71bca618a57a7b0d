//! The data model: configuration, catalog, notifications and the shared state.
//!
//! Fractional quantities are fixed-point integers. A weapon's displacement and
//! every scale factor are counted in thousandths ([`Milli`]); a displacement
//! that has been scaled once is counted in millionths ([`Micro`]). Durations
//! and instants are counted in nanoseconds.

use crate::table::IdTable;
use vstd::prelude::*;

verus! {

/// A quantity in thousandths of a unit: `1500` stands for 1.5.
pub type Milli = i32;

/// A quantity in millionths of a unit: `1_500_000` stands for 1.5.
pub type Micro = i64;

/// How many [`Milli`] make one unit.
pub const MILLI_PER_UNIT: i32 = 1000;

/// How many nanoseconds make one millisecond.
pub const NANOS_PER_MILLI: u64 = 1_000_000;

/// How many nanoseconds make one minute.
pub const NANOS_PER_MINUTE: u64 = 60_000_000_000;

/// Slot of the primary weapon of a loadout.
pub const PRIMARY_SLOT: usize = 0;

/// Slot of the secondary weapon of a loadout.
pub const SECONDARY_SLOT: usize = 1;

/// What the licence server said of a game's key.
#[derive(Clone, Debug)]
pub enum KeyStatus {
    Invalid { key: String },
    Valid { key: String, timestamp: u64 },
    Expired { key: String, timestamp: u64 },
    Banned { key: String },
    HWIDMismatch { key: String },
}

/// The licence server's answer for one game; a valid key comes with the game's catalog.
#[derive(Clone, Debug)]
pub enum KeyStatusResponse {
    Invalid { key: String },
    Valid { key: String, timestamp: u64, config: Game },
    Expired { key: String, timestamp: u64 },
    Banned { key: String },
    HWIDMismatch { key: String },
}

/// A state change that the user interface is told of.
#[derive(Clone, Debug)]
pub enum AppEvent {
    UpdatedGames { games: Vec<Game> },
    SwitchedWeapon { weapon_ind: usize },
    SwitchedCategory { category_ind: usize },
    SwitchedLoadout { loadout_ind: usize },
    StartedShooting { weapon_ind: usize },
    StoppedShooting,
}

/// Something that the caller does for the engine, in the order given.
#[derive(Clone, Copy, Debug, PartialEq, Eq, Structural)]
pub enum Command {
    /// Let this many nanoseconds pass.
    Wait { nanos: u64 },
    /// Move the pointer by this many units.
    Move { dx: i32, dy: i32 },
    /// Press the key.
    KeyDown { key: char },
    /// Release the key.
    KeyUp { key: char },
}

/// The keys that the engine listens to or presses, and the hold policy.
#[derive(Clone, Copy, Debug)]
pub struct KeybindConfig {
    /// Compensation runs only while the secondary button is held as well.
    pub require_right_hold: bool,
    pub primary_weapon: char,
    pub secondary_weapon: char,
    pub alternative_fire: char,
}

impl Default for KeybindConfig {
    fn default() -> (config: Self)
        ensures
            config.require_right_hold,
            config.primary_weapon == '1',
            config.secondary_weapon == '2',
            config.alternative_fire == '3',
    {
        KeybindConfig {
            require_right_hold: true,
            primary_weapon: '1',
            secondary_weapon: '2',
            alternative_fire: '3',
        }
    }
}

/// Scale factors applied to every movement, and the scroll-wheel switch.
#[derive(Clone, Copy, Debug)]
pub struct MouseConfig {
    pub horizontal_multiplier: Milli,
    pub vertical_multiplier: Milli,
    /// Used in place of `horizontal_multiplier` for a weapon with a magnified optic.
    pub acog_horizontal_multiplier: Milli,
    /// Used in place of `vertical_multiplier` for a weapon with a magnified optic.
    pub acog_vertical_multiplier: Milli,
    pub scroll_wheel_weapon_swap: bool,
}

impl Default for MouseConfig {
    fn default() -> (config: Self)
        ensures
            config.horizontal_multiplier == MILLI_PER_UNIT,
            config.vertical_multiplier == MILLI_PER_UNIT,
            config.acog_horizontal_multiplier == MILLI_PER_UNIT,
            config.acog_vertical_multiplier == MILLI_PER_UNIT,
            !config.scroll_wheel_weapon_swap,
    {
        MouseConfig {
            horizontal_multiplier: MILLI_PER_UNIT,
            vertical_multiplier: MILLI_PER_UNIT,
            acog_horizontal_multiplier: MILLI_PER_UNIT,
            acog_vertical_multiplier: MILLI_PER_UNIT,
            scroll_wheel_weapon_swap: false,
        }
    }
}

/// The global settings.
#[derive(Clone, Copy, Debug)]
pub struct GlobalConfig {
    pub keybinds: KeybindConfig,
    pub mouse_config: MouseConfig,
}

impl Default for GlobalConfig {
    fn default() -> (config: Self)
        ensures
            config.keybinds.require_right_hold,
            config.keybinds.primary_weapon == '1',
            config.keybinds.secondary_weapon == '2',
            config.keybinds.alternative_fire == '3',
            config.mouse_config.horizontal_multiplier == MILLI_PER_UNIT,
            config.mouse_config.vertical_multiplier == MILLI_PER_UNIT,
            config.mouse_config.acog_horizontal_multiplier == MILLI_PER_UNIT,
            config.mouse_config.acog_vertical_multiplier == MILLI_PER_UNIT,
            !config.mouse_config.scroll_wheel_weapon_swap,
    {
        GlobalConfig { keybinds: KeybindConfig::default(), mouse_config: MouseConfig::default() }
    }
}

/// How the user interface lays the loadouts out.
#[derive(Clone, Copy, Debug)]
pub struct GridLayoutInfo {
    pub loadouts_per_row: usize,
}

impl Default for GridLayoutInfo {
    fn default() -> (layout: Self)
        ensures
            layout.loadouts_per_row == 0,
    {
        GridLayoutInfo { loadouts_per_row: 0 }
    }
}

/// A weapon that fires one round per trigger pull.
#[derive(Clone, Debug)]
pub struct SingleFireConfig {
    pub name: String,
    pub description: Option<String>,
    pub trigger_delay_ms: u32,
    pub recoil_completion_ms: u32,
    pub release_delay_ms: u32,
    pub dx: Milli,
    pub dy: Milli,
    pub mag_size: u32,
    /// Whether the engine releases and pulls the trigger again by itself.
    pub autofire: bool,
    pub enabled: bool,
}

/// A weapon that fires for as long as the trigger is held.
#[derive(Clone, Debug)]
pub struct FullAutoStandardConfig {
    pub name: String,
    pub description: Option<String>,
    /// Rounds per minute.
    pub rpm: u64,
    pub first_shot_scale: Milli,
    pub exponential_factor: Milli,
    pub dx: Milli,
    pub dy: Milli,
    pub mag_size: u32,
    pub enabled: bool,
}

/// A weapon that fires once and stops.
#[derive(Clone, Debug)]
pub struct SingleShotConfig {
    pub name: String,
    pub description: Option<String>,
    pub recoil_completion_ms: u32,
    pub dx: Milli,
    pub dy: Milli,
    pub enabled: bool,
}

/// The firing model of a weapon.
#[derive(Clone, Copy, Debug, PartialEq, Eq, Structural)]
pub enum Model {
    FullAuto,
    SingleFire,
    SingleShot,
}

/// A weapon with the parameters of its firing model.
#[derive(Clone, Debug)]
pub enum Weapon {
    SingleFire(SingleFireConfig),
    FullAutoStandard(FullAutoStandardConfig),
    SingleShot(SingleShotConfig),
}

impl Weapon {
    /// The firing model of the weapon.
    pub open spec fn spec_model(&self) -> Model {
        match self {
            Weapon::SingleFire(_) => Model::SingleFire,
            Weapon::FullAutoStandard(_) => Model::FullAuto,
            Weapon::SingleShot(_) => Model::SingleShot,
        }
    }

    /// The firing model of the weapon.
    #[verifier::when_used_as_spec(spec_model)]
    pub fn model(&self) -> (model: Model)
        ensures
            model == self.spec_model(),
    {
        match self {
            Weapon::SingleFire(_) => Model::SingleFire,
            Weapon::FullAutoStandard(_) => Model::FullAuto,
            Weapon::SingleShot(_) => Model::SingleShot,
        }
    }

    /// The free text that describes the weapon, if it has any.
    pub open spec fn spec_description(&self) -> Option<String> {
        match self {
            Weapon::SingleFire(config) => config.description,
            Weapon::FullAutoStandard(config) => config.description,
            Weapon::SingleShot(config) => config.description,
        }
    }

    /// The free text that describes the weapon, if it has any.
    pub fn description(&self) -> (text: &Option<String>)
        ensures
            *text == self.spec_description(),
    {
        match self {
            Weapon::SingleFire(config) => &config.description,
            Weapon::FullAutoStandard(config) => &config.description,
            Weapon::SingleShot(config) => &config.description,
        }
    }

    /// Whether compensation is switched on for the weapon.
    pub open spec fn spec_enabled(&self) -> bool {
        match self {
            Weapon::SingleFire(config) => config.enabled,
            Weapon::FullAutoStandard(config) => config.enabled,
            Weapon::SingleShot(config) => config.enabled,
        }
    }

    /// Whether compensation is switched on for the weapon.
    #[verifier::when_used_as_spec(spec_enabled)]
    pub fn enabled(&self) -> (enabled: bool)
        ensures
            enabled == self.spec_enabled(),
    {
        match self {
            Weapon::SingleFire(config) => config.enabled,
            Weapon::FullAutoStandard(config) => config.enabled,
            Weapon::SingleShot(config) => config.enabled,
        }
    }
}

/// A named set of weapons: the primaries and secondaries on offer and the chosen one of each.
#[derive(Clone, Debug)]
pub struct Loadout {
    pub name: String,
    pub icon_url: Option<String>,
    pub icon_only: bool,
    pub primaries: Vec<String>,
    pub secondaries: Vec<String>,
    pub selected_primary: usize,
    pub selected_secondary: usize,
}

/// A named, ordered group of loadouts.
#[derive(Clone, Debug)]
pub struct Category {
    pub name: String,
    pub loadouts: Vec<Loadout>,
}

/// A game: its licence state, its categories and its weapons by identifier.
#[derive(Clone, Debug)]
pub struct Game {
    pub name: String,
    pub key: Option<String>,
    pub key_status: Option<KeyStatus>,
    pub categories: Option<Vec<Category>>,
    pub weapons: Option<IdTable<Weapon>>,
}

/// The games that a catalog load produced.
#[derive(Clone, Debug)]
pub struct LoadedGames {
    pub game_data: Vec<Game>,
}

/// Everything that the engine's parts share.
///
/// `events` is the outbound notification queue: the engine appends, the caller
/// drains it in order. `last_shot_times` holds, per weapon identifier, the
/// instant of the last shot in nanoseconds.
#[derive(Clone, Debug)]
pub struct AppState {
    pub games: Vec<Game>,
    pub global_config: GlobalConfig,
    pub events: Vec<AppEvent>,
    pub left_hold_active: bool,
    pub right_hold_active: bool,
    /// Set while a hold session is alive.
    pub session_active: bool,
    pub current_game_index: usize,
    pub current_category_index: usize,
    pub current_loadout_index: usize,
    pub current_weapon_index: usize,
    pub grid_layout_info: GridLayoutInfo,
    pub last_shot_times: IdTable<u64>,
}

impl AppState {
    /// A state with the given settings, no games, every cursor at zero and nothing held.
    pub fn new(global_config: GlobalConfig) -> (state: Self)
        ensures
            state.games@.len() == 0,
            state.global_config == global_config,
            state.events@.len() == 0,
            !state.left_hold_active,
            !state.right_hold_active,
            !state.session_active,
            state.current_game_index == 0,
            state.current_category_index == 0,
            state.current_loadout_index == 0,
            state.current_weapon_index == 0,
            state.grid_layout_info.loadouts_per_row == 0,
            state.last_shot_times@ == Map::<Seq<char>, u64>::empty(),
    {
        AppState {
            games: Vec::new(),
            global_config,
            events: Vec::new(),
            left_hold_active: false,
            right_hold_active: false,
            session_active: false,
            current_game_index: 0,
            current_category_index: 0,
            current_loadout_index: 0,
            current_weapon_index: 0,
            grid_layout_info: GridLayoutInfo::default(),
            last_shot_times: IdTable::new(),
        }
    }
}

} // verus!
