//! The building catalog: the real buildings the player constructs, ordered
//! from the fewest floors to the most so the difficulty ramps.
use vstd::prelude::*;

verus! {

/// A linear-RGB tint in hundredths (160 stands for 1.60; values above 100
/// read as emissive in the renderer).
#[derive(Clone, Copy, Debug, PartialEq, Eq, Structural)]
pub struct Tint {
    pub r: u16,
    pub g: u16,
    pub b: u16,
}

/// One building of the catalog.
#[derive(Clone, Copy, Debug)]
pub struct BuildingDef {
    pub name: &'static str,
    /// Residential, Commercial or Retail.
    pub category: &'static str,
    pub floors: u32,
    pub height_m: u32,
    pub location: &'static str,
    pub fact: &'static str,
    /// Glass/facade tint.
    pub color: Tint,
}

/// What a catalog entry is, as plain values.
pub struct BuildingView {
    pub name: Seq<char>,
    pub category: Seq<char>,
    pub floors: u32,
    pub height_m: u32,
    pub location: Seq<char>,
    pub fact: Seq<char>,
    pub color: Tint,
}

impl View for BuildingDef {
    type V = BuildingView;

    open spec fn view(&self) -> BuildingView {
        BuildingView {
            name: self.name@,
            category: self.category@,
            floors: self.floors,
            height_m: self.height_m,
            location: self.location@,
            fact: self.fact@,
            color: self.color,
        }
    }
}

/// Number of buildings in the catalog.
pub const BUILDING_COUNT: usize = 11;

pub open spec fn tint(r: u16, g: u16, b: u16) -> Tint {
    Tint { r, g, b }
}

pub open spec fn entry(
    name: Seq<char>,
    category: Seq<char>,
    floors: u32,
    height_m: u32,
    location: Seq<char>,
    fact: Seq<char>,
    color: Tint,
) -> BuildingView {
    BuildingView { name, category, floors, height_m, location, fact, color }
}

/// The catalog entry at index `i` (meaningful for `0 <= i < BUILDING_COUNT`).
pub open spec fn catalog_entry(i: int) -> BuildingView {
    if i == 0 {
        entry("DLF CyberHub"@, "Retail"@, 4, 18, "Cyber City"@,
            "Food & entertainment high-street, opened 2013"@, tint(160, 40, 100))
    } else if i == 1 {
        entry("DLF Galleria"@, "Retail"@, 5, 22, "Sector 91"@,
            "Modern retail + office destination"@, tint(170, 70, 30))
    } else if i == 2 {
        entry("Infinity Tower"@, "Commercial"@, 12, 48, "Cyber City"@,
            "Flexible floor-plates, by Hafeez Contractor"@, tint(30, 120, 120))
    } else if i == 3 {
        entry("Cyber Greens"@, "Commercial"@, 18, 72, "Cyber City"@,
            "LEED-Platinum, five interlinked blocks"@, tint(40, 150, 80))
    } else if i == 4 {
        entry("DLF Gateway Tower"@, "Commercial"@, 20, 80, "Cyber City"@,
            "The high-rise that houses DLF's HQ"@, tint(80, 50, 160))
    } else if i == 5 {
        entry("The Magnolias"@, "Residential"@, 20, 68, "Sector 42"@,
            "Legacy 'Golf Drive' super-luxury residence"@, tint(140, 130, 90))
    } else if i == 6 {
        entry("DLF Epitome"@, "Commercial"@, 22, 92, "Cyber City"@,
            "Three interlinked towers, 2.06M sq ft"@, tint(50, 70, 140))
    } else if i == 7 {
        entry("One Horizon Center"@, "Commercial"@, 25, 100, "Golf Course Road"@,
            "Iconic mixed-use architectural centrepiece"@, tint(40, 90, 170))
    } else if i == 8 {
        entry("The Aralias"@, "Residential"@, 28, 95, "Sector 42"@,
            "Pioneer super-luxury on Golf Course Road"@, tint(130, 80, 40))
    } else if i == 9 {
        entry("The Crest"@, "Residential"@, 30, 108, "Sector 54"@,
            "Six towers designed by Hafeez Contractor"@, tint(40, 130, 160))
    } else {
        entry("DLF The Camellias"@, "Residential"@, 38, 156, "Sector 42"@,
            "India's costliest flats; first LEED-Platinum home"@, tint(160, 120, 40))
    }
}

/// Floor count of catalog entry `i`.
pub open spec fn floors_of(i: int) -> u32 {
    catalog_entry(i).floors
}

/// Returns catalog entry `i`.
pub fn building(i: usize) -> (b: BuildingDef)
    requires
        i < BUILDING_COUNT,
    ensures
        b@ == catalog_entry(i as int),
{
    if i == 0 {
        BuildingDef { name: "DLF CyberHub", category: "Retail", floors: 4, height_m: 18,
            location: "Cyber City", fact: "Food & entertainment high-street, opened 2013",
            color: Tint { r: 160, g: 40, b: 100 } }
    } else if i == 1 {
        BuildingDef { name: "DLF Galleria", category: "Retail", floors: 5, height_m: 22,
            location: "Sector 91", fact: "Modern retail + office destination",
            color: Tint { r: 170, g: 70, b: 30 } }
    } else if i == 2 {
        BuildingDef { name: "Infinity Tower", category: "Commercial", floors: 12, height_m: 48,
            location: "Cyber City", fact: "Flexible floor-plates, by Hafeez Contractor",
            color: Tint { r: 30, g: 120, b: 120 } }
    } else if i == 3 {
        BuildingDef { name: "Cyber Greens", category: "Commercial", floors: 18, height_m: 72,
            location: "Cyber City", fact: "LEED-Platinum, five interlinked blocks",
            color: Tint { r: 40, g: 150, b: 80 } }
    } else if i == 4 {
        BuildingDef { name: "DLF Gateway Tower", category: "Commercial", floors: 20, height_m: 80,
            location: "Cyber City", fact: "The high-rise that houses DLF's HQ",
            color: Tint { r: 80, g: 50, b: 160 } }
    } else if i == 5 {
        BuildingDef { name: "The Magnolias", category: "Residential", floors: 20, height_m: 68,
            location: "Sector 42", fact: "Legacy 'Golf Drive' super-luxury residence",
            color: Tint { r: 140, g: 130, b: 90 } }
    } else if i == 6 {
        BuildingDef { name: "DLF Epitome", category: "Commercial", floors: 22, height_m: 92,
            location: "Cyber City", fact: "Three interlinked towers, 2.06M sq ft",
            color: Tint { r: 50, g: 70, b: 140 } }
    } else if i == 7 {
        BuildingDef { name: "One Horizon Center", category: "Commercial", floors: 25,
            height_m: 100, location: "Golf Course Road",
            fact: "Iconic mixed-use architectural centrepiece",
            color: Tint { r: 40, g: 90, b: 170 } }
    } else if i == 8 {
        BuildingDef { name: "The Aralias", category: "Residential", floors: 28, height_m: 95,
            location: "Sector 42", fact: "Pioneer super-luxury on Golf Course Road",
            color: Tint { r: 130, g: 80, b: 40 } }
    } else if i == 9 {
        BuildingDef { name: "The Crest", category: "Residential", floors: 30, height_m: 108,
            location: "Sector 54", fact: "Six towers designed by Hafeez Contractor",
            color: Tint { r: 40, g: 130, b: 160 } }
    } else {
        BuildingDef { name: "DLF The Camellias", category: "Residential", floors: 38,
            height_m: 156, location: "Sector 42",
            fact: "India's costliest flats; first LEED-Platinum home",
            color: Tint { r: 160, g: 120, b: 40 } }
    }
}

/// The catalog is ordered easy to hard: an entry never has more floors than
/// any entry after it.
pub proof fn lemma_catalog_ordered_by_floors(i: int, j: int)
    requires
        0 <= i <= j < BUILDING_COUNT,
    ensures
        floors_of(i) <= floors_of(j),
{
}

/// Every building has at least one floor, so each one can be completed.
pub proof fn lemma_catalog_floors_positive(i: int)
    requires
        0 <= i < BUILDING_COUNT,
    ensures
        floors_of(i) >= 1,
{
}

/// Every building is Residential, Commercial or Retail.
pub proof fn lemma_catalog_categories(i: int)
    requires
        0 <= i < BUILDING_COUNT,
    ensures
        catalog_entry(i).category == "Residential"@
            || catalog_entry(i).category == "Commercial"@
            || catalog_entry(i).category == "Retail"@,
{
}


/// The floor counts of the catalog, in order: the real floor counts of the
/// buildings.
pub open spec fn real_floor_counts() -> Seq<u32> {
    seq![4u32, 5, 12, 18, 20, 20, 22, 25, 28, 30, 38]
}

/// The real heights of the buildings in metres, in catalog order.
pub open spec fn real_heights() -> Seq<u32> {
    seq![18u32, 22, 48, 72, 80, 68, 92, 100, 95, 108, 156]
}

/// Each building must be raised to its real floor count (and is listed with
/// its real height): entry `i` has the `i`-th of the real floor counts
/// 4, 5, 12, 18, 20, 20, 22, 25, 28, 30, 38.
pub proof fn lemma_catalog_floor_counts(i: int)
    requires
        0 <= i < BUILDING_COUNT,
    ensures
        real_floor_counts().len() == BUILDING_COUNT,
        floors_of(i) == real_floor_counts()[i],
        catalog_entry(i).height_m == real_heights()[i],
{
    assert(real_floor_counts().len() == 11);
    if i == 0 {
    } else if i == 1 {
    } else if i == 2 {
    } else if i == 3 {
    } else if i == 4 {
    } else if i == 5 {
    } else if i == 6 {
    } else if i == 7 {
    } else if i == 8 {
    } else if i == 9 {
    } else {
    }
}

/// The whole run of the catalog takes 222 floors: the real floor counts
/// summed.
pub proof fn lemma_catalog_total_floors()
    ensures
        floors_of(0) + floors_of(1) + floors_of(2) + floors_of(3) + floors_of(4) + floors_of(5)
            + floors_of(6) + floors_of(7) + floors_of(8) + floors_of(9) + floors_of(10) == 222,
{
}


/// The catalog, entry by entry: names, categories, floor counts, heights,
/// locations, facts and tints of the real buildings, easiest first.
pub open spec fn real_catalog() -> Seq<BuildingView> {
    seq![
        entry("DLF CyberHub"@, "Retail"@, 4, 18, "Cyber City"@,
            "Food & entertainment high-street, opened 2013"@, tint(160, 40, 100)),
        entry("DLF Galleria"@, "Retail"@, 5, 22, "Sector 91"@,
            "Modern retail + office destination"@, tint(170, 70, 30)),
        entry("Infinity Tower"@, "Commercial"@, 12, 48, "Cyber City"@,
            "Flexible floor-plates, by Hafeez Contractor"@, tint(30, 120, 120)),
        entry("Cyber Greens"@, "Commercial"@, 18, 72, "Cyber City"@,
            "LEED-Platinum, five interlinked blocks"@, tint(40, 150, 80)),
        entry("DLF Gateway Tower"@, "Commercial"@, 20, 80, "Cyber City"@,
            "The high-rise that houses DLF's HQ"@, tint(80, 50, 160)),
        entry("The Magnolias"@, "Residential"@, 20, 68, "Sector 42"@,
            "Legacy 'Golf Drive' super-luxury residence"@, tint(140, 130, 90)),
        entry("DLF Epitome"@, "Commercial"@, 22, 92, "Cyber City"@,
            "Three interlinked towers, 2.06M sq ft"@, tint(50, 70, 140)),
        entry("One Horizon Center"@, "Commercial"@, 25, 100, "Golf Course Road"@,
            "Iconic mixed-use architectural centrepiece"@, tint(40, 90, 170)),
        entry("The Aralias"@, "Residential"@, 28, 95, "Sector 42"@,
            "Pioneer super-luxury on Golf Course Road"@, tint(130, 80, 40)),
        entry("The Crest"@, "Residential"@, 30, 108, "Sector 54"@,
            "Six towers designed by Hafeez Contractor"@, tint(40, 130, 160)),
        entry("DLF The Camellias"@, "Residential"@, 38, 156, "Sector 42"@,
            "India's costliest flats; first LEED-Platinum home"@, tint(160, 120, 40)),
    ]
}

/// Every catalog entry is the real building at its place in the list.
pub proof fn lemma_catalog_is_the_real_list(i: int)
    requires
        0 <= i < BUILDING_COUNT,
    ensures
        real_catalog().len() == BUILDING_COUNT,
        catalog_entry(i) == real_catalog()[i],
        floors_of(i) == real_floor_counts()[i],
{
    lemma_catalog_floor_counts(i);
    if i == 0 {
    } else if i == 1 {
    } else if i == 2 {
    } else if i == 3 {
    } else if i == 4 {
    } else if i == 5 {
    } else if i == 6 {
    } else if i == 7 {
    } else if i == 8 {
    } else if i == 9 {
    } else {
    }
}

} // verus!
