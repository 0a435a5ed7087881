//! D2Common.dll: where its functions and tables lie once loaded, and the
//! data tables the hack map reads from it.
use vstd::prelude::*;

use crate::d2api::image_base::{D2RVA, D2COMMON_BASE};

pub mod layout;
pub mod stat_list;
pub mod units;

verus! {

/// Stat list functions of D2Common.
pub struct StatListOffset {
    pub GetUnitBaseStat: usize,
}

/// Data table functions and tables of D2Common.
pub struct DataTblsOffset {
    pub CompileTxt: usize,
    pub GetLevelDefRecord: usize,
    pub GetObjectsTxtRecord: usize,
    pub sgptDataTables: usize,
}

/// Unit functions of D2Common.
pub struct UnitsOffset {
    pub TestCollisionWithUnit: usize,
}

/// Level generation functions of D2Common.
pub struct DrlgDrlgOffset {
    pub GetActNoFromLevelId: usize,
    pub GetLevel: usize,
}

/// Room functions of D2Common.
pub struct DrlgRoomOffset {
    pub GetPresetUnits: usize,
    pub GetLevelId: usize,
}

/// Preset functions of D2Common.
pub struct DrlgPresetOffset {
    pub GetLevelPrestIdFromRoomEx: usize,
}

/// Dungeon functions of D2Common.
pub struct DungeonOffset {
    pub GetDrlgFromAct: usize,
    pub IsTownLevelId: usize,
    pub GetHoradricStaffTombLevelId: usize,
}

/// The address table of D2Common.
pub struct D2CommonOffset {
    pub DataTbls: DataTblsOffset,
    pub StatList: StatListOffset,
    pub Units: UnitsOffset,
    pub DrlgDrlg: DrlgDrlgOffset,
    pub DrlgRoom: DrlgRoomOffset,
    pub DrlgPreset: DrlgPresetOffset,
    pub Dungeon: DungeonOffset,
}

/// The address table of D2Common loaded at `d2common`.
pub open spec fn d2common_offsets(d2common: usize) -> D2CommonOffset {
    D2CommonOffset {
        DataTbls: DataTblsOffset {
            CompileTxt: (d2common + (0x6FDAEF40 - D2COMMON_BASE)) as usize,
            GetLevelDefRecord: (d2common + (0x6FDBCB20 - D2COMMON_BASE)) as usize,
            GetObjectsTxtRecord: (d2common + (0x6FD8E980 - D2COMMON_BASE)) as usize,
            sgptDataTables: (d2common + (0x6FDE9E1C - D2COMMON_BASE)) as usize,
        },
        StatList: StatListOffset { GetUnitBaseStat: (d2common + (0x6FD88B70 - D2COMMON_BASE)) as usize },
        Units: UnitsOffset { TestCollisionWithUnit: (d2common + (0x6FD814A0 - D2COMMON_BASE)) as usize },
        DrlgDrlg: DrlgDrlgOffset {
            GetActNoFromLevelId: (d2common + (0x6FD7D2C0 - D2COMMON_BASE)) as usize,
            GetLevel: (d2common + (0x6FD7DD80 - D2COMMON_BASE)) as usize,
        },
        DrlgRoom: DrlgRoomOffset {
            GetPresetUnits: (d2common + (0x6FD94460 - D2COMMON_BASE)) as usize,
            GetLevelId: (d2common + (0x6FD94690 - D2COMMON_BASE)) as usize,
        },
        DrlgPreset: DrlgPresetOffset {
            GetLevelPrestIdFromRoomEx: (d2common + (0x6FD59C20 - D2COMMON_BASE)) as usize,
        },
        Dungeon: DungeonOffset {
            GetDrlgFromAct: (d2common + (0x6FD8B270 - D2COMMON_BASE)) as usize,
            IsTownLevelId: (d2common + (0x6FD8B230 - D2COMMON_BASE)) as usize,
            GetHoradricStaffTombLevelId: (d2common + (0x6FD8B080 - D2COMMON_BASE)) as usize,
        },
    }
}

/// The address table of D2Common loaded at `d2common`: each entry is the
/// base plus the entry's offset in the 1.13c image.
pub fn init(d2common: usize) -> (r: D2CommonOffset)
    requires
        d2common + (0x6FDE9E1C - D2COMMON_BASE) <= usize::MAX,
    ensures
        r == d2common_offsets(d2common),
{
    D2CommonOffset {
        DataTbls: DataTblsOffset {
            CompileTxt: d2common + D2RVA::D2Common(0x6FDAEF40),
            GetLevelDefRecord: d2common + D2RVA::D2Common(0x6FDBCB20),
            GetObjectsTxtRecord: d2common + D2RVA::D2Common(0x6FD8E980),
            sgptDataTables: d2common + D2RVA::D2Common(0x6FDE9E1C),
        },
        StatList: StatListOffset { GetUnitBaseStat: d2common + D2RVA::D2Common(0x6FD88B70) },
        Units: UnitsOffset { TestCollisionWithUnit: d2common + D2RVA::D2Common(0x6FD814A0) },
        DrlgDrlg: DrlgDrlgOffset {
            GetActNoFromLevelId: d2common + D2RVA::D2Common(0x6FD7D2C0),
            GetLevel: d2common + D2RVA::D2Common(0x6FD7DD80),
        },
        DrlgRoom: DrlgRoomOffset {
            GetPresetUnits: d2common + D2RVA::D2Common(0x6FD94460),
            GetLevelId: d2common + D2RVA::D2Common(0x6FD94690),
        },
        DrlgPreset: DrlgPresetOffset {
            GetLevelPrestIdFromRoomEx: d2common + D2RVA::D2Common(0x6FD59C20),
        },
        Dungeon: DungeonOffset {
            GetDrlgFromAct: d2common + D2RVA::D2Common(0x6FD8B270),
            IsTownLevelId: d2common + D2RVA::D2Common(0x6FD8B230),
            GetHoradricStaffTombLevelId: d2common + D2RVA::D2Common(0x6FD8B080),
        },
    }
}

/// What the hack map reads of a Levels.txt record: the monster classes
/// that populate the level.
pub struct D2LevelsTxt {
    pub wCMon: Vec<u16>,
}

/// What the hack map reads of the game's data tables: the number of
/// MonStats.txt records and the Levels.txt records.
pub struct DataTable {
    pub mon_stats_count: usize,
    pub levels: Vec<D2LevelsTxt>,
}

impl DataTable {
    /// The number of MonStats.txt records.
    pub fn mon_stats_txt_record_count(&self) -> (r: usize)
        ensures
            r == self.mon_stats_count,
    {
        self.mon_stats_count
    }

    /// The number of Levels.txt records.
    pub fn levels_txt_record_count(&self) -> (r: u32)
        requires
            self.levels@.len() <= u32::MAX,
        ensures
            r == self.levels@.len(),
    {
        self.levels.len() as u32
    }

    /// The Levels.txt record of level `level_id`; `None` past the last record.
    pub fn get_levels_txt_record(&self, level_id: u32) -> (r: Option<&D2LevelsTxt>)
        requires
            self.levels@.len() <= u32::MAX,
        ensures
            (level_id as int) < self.levels@.len() <==> r is Some,
            r matches Some(l) ==> *l == self.levels@[level_id as int],
    {
        let count = self.levels_txt_record_count();
        if level_id >= count {
            return None;
        }
        Some(&self.levels[level_id as usize])
    }
}

} // verus!
