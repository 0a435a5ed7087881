//! D2Sigma.dll (the Sigma mod): where its functions lie, by version of the
//! module, once loaded.
use vstd::prelude::*;

use crate::d2api::types::Holder;

verus! {

/// Automap functions of D2Sigma.
pub struct AutoMapOffset {
    pub RevealMap: usize,
    pub DrawAutoMap: usize,
    pub DrawAutoMapUnits: usize,
    pub DrawUnitBlob: usize,
}

/// Unit functions of D2Sigma.
pub struct UnitsOffset {
    pub GetName: usize,
    pub DisplayItemProperties: usize,
}

/// Item functions of D2Sigma.
pub struct ItemsOffset {
    pub GetItemName: usize,
    pub GetItemNameColor: usize,
}

/// Places in D2Sigma's life bar code.
pub struct UIOffset {
    pub BossLifeBar_Call_Units_GetName: usize,
    pub MonsterLifeBar_Call_Units_GetName: usize,
    pub CheckIsMonsterShouldDisplayLifeBar: usize,
}

/// The address table of D2Sigma; an entry of 0 is not known for the version.
pub struct D2SigmaOffset {
    pub AutoMap: AutoMapOffset,
    pub Units: UnitsOffset,
    pub Items: ItemsOffset,
    pub UI: UIOffset,
}

/// The address D2Sigma.dll is built for.
pub const D2SIGMA_BASE_ADDRESS: usize = 0x10000000;

/// The link timestamp of D2Sigma 2.92.
pub const D2SIGMA_2_92: u32 = 0x663D01B3;

/// The link timestamp of D2Sigma 2.93.
pub const D2SIGMA_2_93: u32 = 0x6644F17E;

/// The address table of D2Sigma 2.92 moved by `s`.
pub open spec fn sigma_292(s: int) -> D2SigmaOffset {
    D2SigmaOffset {
        AutoMap: AutoMapOffset {
            RevealMap: (s + 0x10091A90) as usize,
            DrawAutoMap: (s + 0x100511D0) as usize,
            DrawAutoMapUnits: (s + 0x10050CD0) as usize,
            DrawUnitBlob: (s + 0x10076890) as usize,
        },
        Units: UnitsOffset {
            GetName: (s + 0x100B8A20) as usize,
            DisplayItemProperties: (s + 0x10080E80) as usize,
        },
        Items: ItemsOffset {
            GetItemName: (s + 0x100811B0) as usize,
            GetItemNameColor: (s + 0x10081C80) as usize,
        },
        UI: UIOffset {
            BossLifeBar_Call_Units_GetName: (s + 0x1008FFCB) as usize,
            MonsterLifeBar_Call_Units_GetName: (s + 0x1008F5AC) as usize,
            CheckIsMonsterShouldDisplayLifeBar: (s + 0x1008F3FD) as usize,
        },
    }
}

/// The address table of D2Sigma 2.93 moved by `s`; the entries not known
/// for this version are 0, and the item entries are the bare move.
pub open spec fn sigma_293(s: int) -> D2SigmaOffset {
    D2SigmaOffset {
        AutoMap: AutoMapOffset {
            RevealMap: (s + 0x10091C10) as usize,
            DrawAutoMap: 0,
            DrawAutoMapUnits: 0,
            DrawUnitBlob: 0,
        },
        Units: UnitsOffset { GetName: (s + 0x100B8D80) as usize, DisplayItemProperties: 0 },
        Items: ItemsOffset { GetItemName: s as usize, GetItemNameColor: s as usize },
        UI: UIOffset {
            BossLifeBar_Call_Units_GetName: (s + 0x1009014B) as usize,
            MonsterLifeBar_Call_Units_GetName: (s + 0x1008F72C) as usize,
            CheckIsMonsterShouldDisplayLifeBar: 0,
        },
    }
}

/// Whether `timestamp` is the link timestamp of a D2Sigma version whose
/// addresses are known.
pub open spec fn known_sigma_version(timestamp: u32) -> bool {
    timestamp == D2SIGMA_2_92 || timestamp == D2SIGMA_2_93
}

/// The address table of D2Sigma loaded at `d2sigma` with link timestamp
/// `timestamp`; `None` for a version whose addresses are not known.
pub open spec fn sigma_table(d2sigma: usize, timestamp: u32) -> Option<D2SigmaOffset> {
    let s = d2sigma - D2SIGMA_BASE_ADDRESS;
    if timestamp == D2SIGMA_2_92 {
        Some(sigma_292(s))
    } else if timestamp == D2SIGMA_2_93 {
        Some(sigma_293(s))
    } else {
        None
    }
}

/// Whether the addresses of a known version loaded at `d2sigma` fit in a
/// `usize`.
pub open spec fn sigma_addresses_fit(d2sigma: usize, timestamp: u32) -> bool {
    known_sigma_version(timestamp) ==> d2sigma - D2SIGMA_BASE_ADDRESS + 0x100B8D80 <= usize::MAX
}

/// The address table of D2Sigma loaded at `d2sigma`, for the version
/// whose link timestamp is `timestamp`; `None` for other versions.
pub fn init(d2sigma: usize, timestamp: u32) -> (r: Option<D2SigmaOffset>)
    requires
        d2sigma >= D2SIGMA_BASE_ADDRESS,
        sigma_addresses_fit(d2sigma, timestamp),
    ensures
        r == sigma_table(d2sigma, timestamp),
        timestamp == D2SIGMA_2_92 ==> r == Some(sigma_292(d2sigma - D2SIGMA_BASE_ADDRESS)),
        timestamp == D2SIGMA_2_93 ==> r == Some(sigma_293(d2sigma - D2SIGMA_BASE_ADDRESS)),
        timestamp != D2SIGMA_2_92 && timestamp != D2SIGMA_2_93 ==> r is None,
{
    let vmslide = d2sigma - D2SIGMA_BASE_ADDRESS;
    if timestamp == D2SIGMA_2_92 {
        Some(
            D2SigmaOffset {
                AutoMap: AutoMapOffset {
                    RevealMap: vmslide + 0x10091A90,
                    DrawAutoMap: vmslide + 0x100511D0,
                    DrawAutoMapUnits: vmslide + 0x10050CD0,
                    DrawUnitBlob: vmslide + 0x10076890,
                },
                Units: UnitsOffset {
                    GetName: vmslide + 0x100B8A20,
                    DisplayItemProperties: vmslide + 0x10080E80,
                },
                Items: ItemsOffset {
                    GetItemName: vmslide + 0x100811B0,
                    GetItemNameColor: vmslide + 0x10081C80,
                },
                UI: UIOffset {
                    BossLifeBar_Call_Units_GetName: vmslide + 0x1008FFCB,
                    MonsterLifeBar_Call_Units_GetName: vmslide + 0x1008F5AC,
                    CheckIsMonsterShouldDisplayLifeBar: vmslide + 0x1008F3FD,
                },
            },
        )
    } else if timestamp == D2SIGMA_2_93 {
        Some(
            D2SigmaOffset {
                AutoMap: AutoMapOffset {
                    RevealMap: vmslide + 0x10091C10,
                    DrawAutoMap: 0,
                    DrawAutoMapUnits: 0,
                    DrawUnitBlob: 0,
                },
                Units: UnitsOffset { GetName: vmslide + 0x100B8D80, DisplayItemProperties: 0 },
                Items: ItemsOffset { GetItemName: vmslide + 0, GetItemNameColor: vmslide + 0 },
                UI: UIOffset {
                    BossLifeBar_Call_Units_GetName: vmslide + 0x1009014B,
                    MonsterLifeBar_Call_Units_GetName: vmslide + 0x1008F72C,
                    CheckIsMonsterShouldDisplayLifeBar: 0,
                },
            },
        )
    } else {
        None
    }
}

/// Sets D2Sigma's address table for the D2Sigma loaded at `d2sigma` with
/// link timestamp `timestamp`; for a version whose addresses are not known
/// the table stays unset.
pub fn init_address_table(table: &mut Holder<D2SigmaOffset>, d2sigma: usize, timestamp: u32)
    requires
        old(table)@ is None,
        d2sigma >= D2SIGMA_BASE_ADDRESS,
        sigma_addresses_fit(d2sigma, timestamp),
    ensures
        final(table)@ == sigma_table(d2sigma, timestamp),
{
    match init(d2sigma, timestamp) {
        Some(t) => table.initialize(t),
        None => {},
    }
}

/// D2Sigma's address table is set by `init_address_table` exactly for the
/// two known versions: `initialized` answers true afterwards exactly when
/// the timestamp is that of D2Sigma 2.92 or 2.93 (and false before any
/// initialisation, the holder being made empty).
pub proof fn lemma_initialized_iff_known(d2sigma: usize, timestamp: u32)
    ensures
        (sigma_table(d2sigma, timestamp) is Some) <==> known_sigma_version(timestamp),
{
}

/// Every entry of D2Sigma's address table lies at its fixed place in the
/// module, moved by the distance between the load address and 0x10000000:
/// for 2.92 all entries are known; for 2.93 the automap entries but the
/// map reveal, the item property display and the life bar check are 0,
/// and the two item entries are the bare move.
pub proof fn lemma_sigma_table_entries(d2sigma: usize)
    requires
        d2sigma >= 0x10000000,
        d2sigma - 0x10000000 + 0x100B8D80 <= usize::MAX,
    ensures
        sigma_table(d2sigma, 0x663D01B3) matches Some(t) && {
            let s = d2sigma - 0x10000000;
            &&& t.AutoMap.RevealMap == s + 0x10091A90
            &&& t.AutoMap.DrawAutoMap == s + 0x100511D0
            &&& t.AutoMap.DrawAutoMapUnits == s + 0x10050CD0
            &&& t.AutoMap.DrawUnitBlob == s + 0x10076890
            &&& t.Units.GetName == s + 0x100B8A20
            &&& t.Units.DisplayItemProperties == s + 0x10080E80
            &&& t.Items.GetItemName == s + 0x100811B0
            &&& t.Items.GetItemNameColor == s + 0x10081C80
            &&& t.UI.BossLifeBar_Call_Units_GetName == s + 0x1008FFCB
            &&& t.UI.MonsterLifeBar_Call_Units_GetName == s + 0x1008F5AC
            &&& t.UI.CheckIsMonsterShouldDisplayLifeBar == s + 0x1008F3FD
        },
        sigma_table(d2sigma, 0x6644F17E) matches Some(t) && {
            let s = d2sigma - 0x10000000;
            &&& t.AutoMap.RevealMap == s + 0x10091C10
            &&& t.AutoMap.DrawAutoMap == 0
            &&& t.AutoMap.DrawAutoMapUnits == 0
            &&& t.AutoMap.DrawUnitBlob == 0
            &&& t.Units.GetName == s + 0x100B8D80
            &&& t.Units.DisplayItemProperties == 0
            &&& t.Items.GetItemName == s
            &&& t.Items.GetItemNameColor == s
            &&& t.UI.BossLifeBar_Call_Units_GetName == s + 0x1009014B
            &&& t.UI.MonsterLifeBar_Call_Units_GetName == s + 0x1008F72C
            &&& t.UI.CheckIsMonsterShouldDisplayLifeBar == 0
        },
{
}

/// Whether D2Sigma's address table has been set, that is, whether the
/// loaded D2Sigma is a known version.
pub fn initialized(table: &Holder<D2SigmaOffset>) -> (r: bool)
    ensures
        r == table@ is Some,
{
    table.initialized()
}

} // verus!
