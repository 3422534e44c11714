//! Classification of OpenStreetMap water areas.
use crate::text::str_eq;
use vstd::prelude::*;

verus! {

/// Class of a water area (the `fclass` attribute).
#[derive(Debug, Clone, Copy, PartialEq, Eq, Hash, Structural)]
pub enum WaterClass {
    Water,
    Reservoir,
    River,
    Dock,
    Glacier,
    Riverbank,
    Wetland,
    WetlandWetMeadow,
    WetlandFen,
    WetlandSwamp,
    WetlandReedbed,
    WetlandTidalflat,
    WetlandMangrove,
    WetlandMarsh,
    WetlandSaltmarsh,
    WetlandBog,
}

impl DeepView for WaterClass {
    type V = WaterClass;

    open spec fn deep_view(&self) -> WaterClass {
        *self
    }
}

impl WaterClass {
    /// The text under which the value is stored and displayed.
    pub open spec fn spec_name(self) -> Seq<char> {
        match self {
            WaterClass::Water => "water"@,
            WaterClass::Reservoir => "reservoir"@,
            WaterClass::River => "river"@,
            WaterClass::Dock => "dock"@,
            WaterClass::Glacier => "glacier"@,
            WaterClass::Riverbank => "riverbank"@,
            WaterClass::Wetland => "wetland"@,
            WaterClass::WetlandWetMeadow => "wetland_wet_meadow"@,
            WaterClass::WetlandFen => "wetland_fen"@,
            WaterClass::WetlandSwamp => "wetland_swamp"@,
            WaterClass::WetlandReedbed => "wetland_reedbed"@,
            WaterClass::WetlandTidalflat => "wetland_tidalflat"@,
            WaterClass::WetlandMangrove => "wetland_mangrove"@,
            WaterClass::WetlandMarsh => "wetland_marsh"@,
            WaterClass::WetlandSaltmarsh => "wetland_saltmarsh"@,
            WaterClass::WetlandBog => "wetland_bog"@,
        }
    }

    /// The value whose name is `s`, if there is one.
    pub open spec fn spec_from_name(s: Seq<char>) -> Option<WaterClass> {
        if s == "water"@ {
            Some(WaterClass::Water)
        } else if s == "reservoir"@ {
            Some(WaterClass::Reservoir)
        } else if s == "river"@ {
            Some(WaterClass::River)
        } else if s == "dock"@ {
            Some(WaterClass::Dock)
        } else if s == "glacier"@ {
            Some(WaterClass::Glacier)
        } else if s == "riverbank"@ {
            Some(WaterClass::Riverbank)
        } else if s == "wetland"@ {
            Some(WaterClass::Wetland)
        } else if s == "wetland_wet_meadow"@ {
            Some(WaterClass::WetlandWetMeadow)
        } else if s == "wetland_fen"@ {
            Some(WaterClass::WetlandFen)
        } else if s == "wetland_swamp"@ {
            Some(WaterClass::WetlandSwamp)
        } else if s == "wetland_reedbed"@ {
            Some(WaterClass::WetlandReedbed)
        } else if s == "wetland_tidalflat"@ {
            Some(WaterClass::WetlandTidalflat)
        } else if s == "wetland_mangrove"@ {
            Some(WaterClass::WetlandMangrove)
        } else if s == "wetland_marsh"@ {
            Some(WaterClass::WetlandMarsh)
        } else if s == "wetland_saltmarsh"@ {
            Some(WaterClass::WetlandSaltmarsh)
        } else if s == "wetland_bog"@ {
            Some(WaterClass::WetlandBog)
        } else {
            None
        }
    }

    /// The text under which the value is stored and displayed.
    pub fn name(self) -> (r: &'static str)
        ensures
            r@ == self.spec_name(),
    {
        match self {
            WaterClass::Water => "water",
            WaterClass::Reservoir => "reservoir",
            WaterClass::River => "river",
            WaterClass::Dock => "dock",
            WaterClass::Glacier => "glacier",
            WaterClass::Riverbank => "riverbank",
            WaterClass::Wetland => "wetland",
            WaterClass::WetlandWetMeadow => "wetland_wet_meadow",
            WaterClass::WetlandFen => "wetland_fen",
            WaterClass::WetlandSwamp => "wetland_swamp",
            WaterClass::WetlandReedbed => "wetland_reedbed",
            WaterClass::WetlandTidalflat => "wetland_tidalflat",
            WaterClass::WetlandMangrove => "wetland_mangrove",
            WaterClass::WetlandMarsh => "wetland_marsh",
            WaterClass::WetlandSaltmarsh => "wetland_saltmarsh",
            WaterClass::WetlandBog => "wetland_bog",
        }
    }

    /// Parses a name exactly as [`Self::name`] renders it; any other text gives `None`.
    pub fn from_name(s: &str) -> (r: Option<WaterClass>)
        ensures
            r == WaterClass::spec_from_name(s@),
    {
        if str_eq(s, "water") {
            return Some(WaterClass::Water);
        }
        if str_eq(s, "reservoir") {
            return Some(WaterClass::Reservoir);
        }
        if str_eq(s, "river") {
            return Some(WaterClass::River);
        }
        if str_eq(s, "dock") {
            return Some(WaterClass::Dock);
        }
        if str_eq(s, "glacier") {
            return Some(WaterClass::Glacier);
        }
        if str_eq(s, "riverbank") {
            return Some(WaterClass::Riverbank);
        }
        if str_eq(s, "wetland") {
            return Some(WaterClass::Wetland);
        }
        if str_eq(s, "wetland_wet_meadow") {
            return Some(WaterClass::WetlandWetMeadow);
        }
        if str_eq(s, "wetland_fen") {
            return Some(WaterClass::WetlandFen);
        }
        if str_eq(s, "wetland_swamp") {
            return Some(WaterClass::WetlandSwamp);
        }
        if str_eq(s, "wetland_reedbed") {
            return Some(WaterClass::WetlandReedbed);
        }
        if str_eq(s, "wetland_tidalflat") {
            return Some(WaterClass::WetlandTidalflat);
        }
        if str_eq(s, "wetland_mangrove") {
            return Some(WaterClass::WetlandMangrove);
        }
        if str_eq(s, "wetland_marsh") {
            return Some(WaterClass::WetlandMarsh);
        }
        if str_eq(s, "wetland_saltmarsh") {
            return Some(WaterClass::WetlandSaltmarsh);
        }
        if str_eq(s, "wetland_bog") {
            return Some(WaterClass::WetlandBog);
        }
        None
    }
}

/// Every name identifies its value: parsing the name of `v` gives back `v`.
pub proof fn lemma_water_class_name_round_trip(v: WaterClass)
    ensures
        WaterClass::spec_from_name(v.spec_name()) == Some(v),
{
    reveal_strlit("water");
    reveal_strlit("reservoir");
    reveal_strlit("river");
    reveal_strlit("dock");
    reveal_strlit("glacier");
    reveal_strlit("riverbank");
    reveal_strlit("wetland");
    reveal_strlit("wetland_wet_meadow");
    reveal_strlit("wetland_fen");
    reveal_strlit("wetland_swamp");
    reveal_strlit("wetland_reedbed");
    reveal_strlit("wetland_tidalflat");
    reveal_strlit("wetland_mangrove");
    reveal_strlit("wetland_marsh");
    reveal_strlit("wetland_saltmarsh");
    reveal_strlit("wetland_bog");
    assert("water"@.len() == 5);
    assert("reservoir"@.len() == 9);
    assert("river"@.len() == 5);
    assert("dock"@.len() == 4);
    assert("glacier"@.len() == 7);
    assert("riverbank"@.len() == 9);
    assert("wetland"@.len() == 7);
    assert("wetland_wet_meadow"@.len() == 18);
    assert("wetland_fen"@.len() == 11);
    assert("wetland_swamp"@.len() == 13);
    assert("wetland_reedbed"@.len() == 15);
    assert("wetland_tidalflat"@.len() == 17);
    assert("wetland_mangrove"@.len() == 16);
    assert("wetland_marsh"@.len() == 13);
    assert("wetland_saltmarsh"@.len() == 17);
    assert("wetland_bog"@.len() == 11);
    assert("water"@[0] != "river"@[0]);
    assert("reservoir"@[1] != "riverbank"@[1]);
    assert("glacier"@[0] != "wetland"@[0]);
    assert("wetland_fen"@[8] != "wetland_bog"@[8]);
    assert("wetland_swamp"@[8] != "wetland_marsh"@[8]);
    assert("wetland_tidalflat"@[8] != "wetland_saltmarsh"@[8]);
}

} // verus!
