//! Game constants of Diablo II 1.13c as the hack map reads them: string
//! colour codes, item qualities, unit kinds, UI variable slots, fonts and
//! the monster flag bits.
use vstd::prelude::*;

verus! {

/// The colour codes that follow the `ÿc` marker in game strings.
#[derive(Clone, Copy, Debug, PartialEq, Eq, Structural)]
pub enum D2StringColorCodes {
    White,
    Red,
    LightGreen,
    Blue,
    DarkGold,
    Grey,
    Black,
    Tan,
    Orange,
    Yellow,
    DarkGreen,
    Purple,
    DarkGreen2,
    Invalid,
}

impl D2StringColorCodes {
    /// The number written after `ÿc` for this colour; `Invalid` has none.
    pub open spec fn code_spec(self) -> Option<u8> {
        match self {
            D2StringColorCodes::White => Some(0u8),
            D2StringColorCodes::Red => Some(1u8),
            D2StringColorCodes::LightGreen => Some(2u8),
            D2StringColorCodes::Blue => Some(3u8),
            D2StringColorCodes::DarkGold => Some(4u8),
            D2StringColorCodes::Grey => Some(5u8),
            D2StringColorCodes::Black => Some(6u8),
            D2StringColorCodes::Tan => Some(7u8),
            D2StringColorCodes::Orange => Some(8u8),
            D2StringColorCodes::Yellow => Some(9u8),
            D2StringColorCodes::DarkGreen => Some(10u8),
            D2StringColorCodes::Purple => Some(11u8),
            D2StringColorCodes::DarkGreen2 => Some(12u8),
            D2StringColorCodes::Invalid => None,
        }
    }

    /// The number written after `ÿc` for this colour; `None` for `Invalid`.
    pub fn code(&self) -> (r: Option<u8>)
        ensures
            r == self.code_spec(),
    {
        match self {
            D2StringColorCodes::White => Some(0u8),
            D2StringColorCodes::Red => Some(1u8),
            D2StringColorCodes::LightGreen => Some(2u8),
            D2StringColorCodes::Blue => Some(3u8),
            D2StringColorCodes::DarkGold => Some(4u8),
            D2StringColorCodes::Grey => Some(5u8),
            D2StringColorCodes::Black => Some(6u8),
            D2StringColorCodes::Tan => Some(7u8),
            D2StringColorCodes::Orange => Some(8u8),
            D2StringColorCodes::Yellow => Some(9u8),
            D2StringColorCodes::DarkGreen => Some(10u8),
            D2StringColorCodes::Purple => Some(11u8),
            D2StringColorCodes::DarkGreen2 => Some(12u8),
            D2StringColorCodes::Invalid => None,
        }
    }
}

/// Item qualities, in the game's order (the game numbers them from 1).
#[derive(Clone, Copy, Debug, PartialEq, Eq, Structural)]
pub enum D2ItemQualities {
    Inferior,
    Normal,
    Superior,
    Magic,
    SetItem,
    Rare,
    Unique,
    Craft,
    Tempered,
}

impl D2ItemQualities {
    /// The number the game uses for this quality.
    pub open spec fn game_value_spec(self) -> u32 {
        match self {
            D2ItemQualities::Inferior => 1u32,
            D2ItemQualities::Normal => 2u32,
            D2ItemQualities::Superior => 3u32,
            D2ItemQualities::Magic => 4u32,
            D2ItemQualities::SetItem => 5u32,
            D2ItemQualities::Rare => 6u32,
            D2ItemQualities::Unique => 7u32,
            D2ItemQualities::Craft => 8u32,
            D2ItemQualities::Tempered => 9u32,
        }
    }

    /// The quality that the game's number `v` stands for, if any.
    pub open spec fn from_game_value_spec(v: u32) -> Option<D2ItemQualities> {
        if v == 1 {
            Some(D2ItemQualities::Inferior)
        } else if v == 2 {
            Some(D2ItemQualities::Normal)
        } else if v == 3 {
            Some(D2ItemQualities::Superior)
        } else if v == 4 {
            Some(D2ItemQualities::Magic)
        } else if v == 5 {
            Some(D2ItemQualities::SetItem)
        } else if v == 6 {
            Some(D2ItemQualities::Rare)
        } else if v == 7 {
            Some(D2ItemQualities::Unique)
        } else if v == 8 {
            Some(D2ItemQualities::Craft)
        } else if v == 9 {
            Some(D2ItemQualities::Tempered)
        } else {
            None
        }
    }

    /// The number the game uses for this quality.
    pub fn game_value(&self) -> (r: u32)
        ensures
            r == self.game_value_spec(),
    {
        match self {
            D2ItemQualities::Inferior => 1,
            D2ItemQualities::Normal => 2,
            D2ItemQualities::Superior => 3,
            D2ItemQualities::Magic => 4,
            D2ItemQualities::SetItem => 5,
            D2ItemQualities::Rare => 6,
            D2ItemQualities::Unique => 7,
            D2ItemQualities::Craft => 8,
            D2ItemQualities::Tempered => 9,
        }
    }

    /// The quality for the game's number `v`; `None` outside 1..=9.
    pub fn from_game_value(v: u32) -> (r: Option<D2ItemQualities>)
        ensures
            r == Self::from_game_value_spec(v),
            r matches Some(q) ==> q.game_value_spec() == v,
    {
        if v == 1 {
            Some(D2ItemQualities::Inferior)
        } else if v == 2 {
            Some(D2ItemQualities::Normal)
        } else if v == 3 {
            Some(D2ItemQualities::Superior)
        } else if v == 4 {
            Some(D2ItemQualities::Magic)
        } else if v == 5 {
            Some(D2ItemQualities::SetItem)
        } else if v == 6 {
            Some(D2ItemQualities::Rare)
        } else if v == 7 {
            Some(D2ItemQualities::Unique)
        } else if v == 8 {
            Some(D2ItemQualities::Craft)
        } else if v == 9 {
            Some(D2ItemQualities::Tempered)
        } else {
            None
        }
    }
}

/// The kinds of units the game keeps in a room.
#[derive(Clone, Copy, Debug, PartialEq, Eq, Structural)]
pub enum D2UnitTypes {
    Player,
    Monster,
    Object,
    Missile,
    Item,
    Tile,
}

impl D2UnitTypes {
    /// The unit kind for the game's number `v` (0 to 5).
    pub open spec fn from_game_value_spec(v: u32) -> Option<D2UnitTypes> {
        if v == 0 {
            Some(D2UnitTypes::Player)
        } else if v == 1 {
            Some(D2UnitTypes::Monster)
        } else if v == 2 {
            Some(D2UnitTypes::Object)
        } else if v == 3 {
            Some(D2UnitTypes::Missile)
        } else if v == 4 {
            Some(D2UnitTypes::Item)
        } else if v == 5 {
            Some(D2UnitTypes::Tile)
        } else {
            None
        }
    }

    /// The unit kind for the game's number `v`; `None` above 5.
    pub fn from_game_value(v: u32) -> (r: Option<D2UnitTypes>)
        ensures
            r == Self::from_game_value_spec(v),
    {
        if v == 0 {
            Some(D2UnitTypes::Player)
        } else if v == 1 {
            Some(D2UnitTypes::Monster)
        } else if v == 2 {
            Some(D2UnitTypes::Object)
        } else if v == 3 {
            Some(D2UnitTypes::Missile)
        } else if v == 4 {
            Some(D2UnitTypes::Item)
        } else if v == 5 {
            Some(D2UnitTypes::Tile)
        } else {
            None
        }
    }
}

/// The UI state slots of the client that the hack map consults.
#[derive(Clone, Copy, Debug, PartialEq, Eq, Structural)]
pub enum D2UIvars {
    ChatBox,
    EscMenu,
    Config,
    HoldAlt,
    Cube,
}

impl D2UIvars {
    /// The slot number of this variable in the client's UI variable array.
    pub open spec fn index_spec(self) -> usize {
        match self {
            D2UIvars::ChatBox => 0x05usize,
            D2UIvars::EscMenu => 0x09usize,
            D2UIvars::Config => 0x0Busize,
            D2UIvars::HoldAlt => 0x0Dusize,
            D2UIvars::Cube => 0x1Ausize,
        }
    }

    /// The slot number of this variable in the client's UI variable array.
    pub fn index(&self) -> (r: usize)
        ensures
            r == self.index_spec(),
    {
        match self {
            D2UIvars::ChatBox => 0x05,
            D2UIvars::EscMenu => 0x09,
            D2UIvars::Config => 0x0B,
            D2UIvars::HoldAlt => 0x0D,
            D2UIvars::Cube => 0x1A,
        }
    }
}

/// The fonts the hack map writes with.
#[derive(Clone, Copy, Debug, PartialEq, Eq, Structural)]
pub enum D2Font {
    Font6,
    Font16,
}

/// Monster type flag: super unique monster.
pub const MON_TYPE_SUPER_UNIQUE: u8 = 0x02;
/// Monster type flag: champion.
pub const MON_TYPE_CHAMPION: u8 = 0x04;
/// Monster type flag: unique (boss) monster.
pub const MON_TYPE_UNIQUE: u8 = 0x08;
/// Monster type flag: minion of a unique monster.
pub const MON_TYPE_MINION: u8 = 0x10;

/// MonStats.txt flag: the monster is a boss.
pub const MON_STATS_BOSS: u32 = 0x40;
/// MonStats.txt flag: the monster is a non-player character.
pub const MON_STATS_NPC: u32 = 0x100;
/// MonStats.txt flag: the player can interact with the monster.
pub const MON_STATS_INTERACT: u32 = 0x200;
/// MonStats.txt flag: the monster lives in town.
pub const MON_STATS_IN_TOWN: u32 = 0x400;

/// Unique monster modifier: end of the modifier list.
pub const UMOD_NONE: u8 = 0;
/// Unique monster modifier: magic resistant.
pub const UMOD_MAGIC_RESISTANT: u8 = 8;
/// Unique monster modifier: fire enchanted.
pub const UMOD_FIRE_CHANT: u8 = 9;
/// Unique monster modifier: lightning enchanted.
pub const UMOD_LIGHT_CHANT: u8 = 17;
/// Unique monster modifier: cold enchanted.
pub const UMOD_COLD_CHANT: u8 = 18;
/// Unique monster modifier: mana burn.
pub const UMOD_MANA_BURN: u8 = 25;

/// Stat id: current hit points.
pub const STAT_HIT_POINTS: u32 = 6;
/// Stat id: maximum hit points.
pub const STAT_MAX_HP: u32 = 7;
/// Stat id: physical damage resistance.
pub const STAT_DAMAGE_RESIST: u32 = 36;
/// Stat id: magic resistance.
pub const STAT_MAGIC_RESIST: u32 = 37;
/// Stat id: fire resistance.
pub const STAT_FIRE_RESIST: u32 = 39;
/// Stat id: lightning resistance.
pub const STAT_LIGHT_RESIST: u32 = 41;
/// Stat id: cold resistance.
pub const STAT_COLD_RESIST: u32 = 43;
/// Stat id: poison resistance.
pub const STAT_POISON_RESIST: u32 = 45;
/// Stat id: number of sockets of an item.
pub const STAT_ITEM_NUM_SOCKETS: u32 = 194;

/// The Windows message id of a key press.
pub const WM_KEYDOWN: u32 = 0x0100;

} // verus!
