//! Civilization timeline: technology milestones, the secular cycle, and
//! the off-world colonies that exist at a given year (0-500).

use vstd::prelude::*;

verus! {

// ─── Technology milestones ──────────────────────────────────────

/// Technology milestone — appears at a specific year on the timeline.
#[derive(Debug, Clone, Copy)]
pub struct TechMilestone {
    pub year: u32,
    pub name: &'static str,
    pub description: &'static str,
}

impl View for TechMilestone {
    type V = (u32, Seq<char>, Seq<char>);

    open spec fn view(&self) -> (u32, Seq<char>, Seq<char>) {
        (self.year, self.name@, self.description@)
    }
}

/// The milestone table, in timeline order.
pub open spec fn spec_tech_milestones() -> Seq<(u32, Seq<char>, Seq<char>)> {
    seq![
        (27u32, "NTP Demo"@, "Nuclear Thermal Propulsion demonstration"@),
        (28u32, "Fission Surface"@, "Kilopower fission reactor on lunar surface"@),
        (35u32, "Luna Base"@, "Permanent lunar habitat (pop 12)"@),
        (45u32, "Mars Colony"@, "First Mars settlement (pop 50)"@),
        (60u32, "Fusion Demo"@, "Net-positive fusion ignition"@),
        (80u32, "Europa Station"@, "Research outpost under ice shell"@),
        (100u32, "Fusion Grid"@, "First grid-scale fusion plant"@),
        (120u32, "Titan Outpost"@, "Hydrocarbon harvesting station"@),
        (150u32, "Mars Self-Sufficient"@, "Colony reaches 70% self-sufficiency"@),
        (200u32, "Interstellar Probe"@, "First 0.1c probe launched"@),
    ]
}

/// All technology milestones.
pub fn tech_milestones() -> (v: Vec<TechMilestone>)
    ensures
        v@.map_values(|m: TechMilestone| m@) == spec_tech_milestones(),
{
    let mut v: Vec<TechMilestone> = Vec::new();
    v.push(TechMilestone { year: 27, name: "NTP Demo", description: "Nuclear Thermal Propulsion demonstration" });
    v.push(TechMilestone { year: 28, name: "Fission Surface", description: "Kilopower fission reactor on lunar surface" });
    v.push(TechMilestone { year: 35, name: "Luna Base", description: "Permanent lunar habitat (pop 12)" });
    v.push(TechMilestone { year: 45, name: "Mars Colony", description: "First Mars settlement (pop 50)" });
    v.push(TechMilestone { year: 60, name: "Fusion Demo", description: "Net-positive fusion ignition" });
    v.push(TechMilestone { year: 80, name: "Europa Station", description: "Research outpost under ice shell" });
    v.push(TechMilestone { year: 100, name: "Fusion Grid", description: "First grid-scale fusion plant" });
    v.push(TechMilestone { year: 120, name: "Titan Outpost", description: "Hydrocarbon harvesting station" });
    v.push(TechMilestone { year: 150, name: "Mars Self-Sufficient", description: "Colony reaches 70% self-sufficiency" });
    v.push(TechMilestone { year: 200, name: "Interstellar Probe", description: "First 0.1c probe launched" });
    assert(v@.map_values(|m: TechMilestone| m@) =~= spec_tech_milestones());
    v
}

/// The milestones are listed in timeline order.
pub proof fn lemma_tech_milestones_ordered(i: int, j: int)
    requires
        0 <= i <= j < spec_tech_milestones().len(),
    ensures
        spec_tech_milestones()[i].0 <= spec_tech_milestones()[j].0,
{
}

// ─── Secular cycle ──────────────────────────────────────────────

/// Turchin secular cycle phase — maps to visual indicators.
#[derive(Debug, Clone, Copy, PartialEq, Eq, Hash, Structural)]
pub enum SecularPhase {
    Growth,
    Stagflation,
    Crisis,
    Depression,
}

pub open spec fn spec_secular_label(p: SecularPhase) -> Seq<char> {
    match p {
        SecularPhase::Growth => "Growth"@,
        SecularPhase::Stagflation => "Stagflation"@,
        SecularPhase::Crisis => "Crisis"@,
        SecularPhase::Depression => "Depression"@,
    }
}

impl SecularPhase {
    pub fn label(&self) -> (s: &'static str)
        ensures
            s@ == spec_secular_label(*self),
    {
        match self {
            SecularPhase::Growth => "Growth",
            SecularPhase::Stagflation => "Stagflation",
            SecularPhase::Crisis => "Crisis",
            SecularPhase::Depression => "Depression",
        }
    }
}

/// Phase of the 80-year cycle: the first 40% of each cycle is growth,
/// up to 65% stagflation, up to 85% crisis, and the rest depression.
pub open spec fn spec_secular_phase(year: u32) -> SecularPhase {
    let pos = year % 80;
    if pos < 32 {
        SecularPhase::Growth
    } else if pos < 52 {
        SecularPhase::Stagflation
    } else if pos < 68 {
        SecularPhase::Crisis
    } else {
        SecularPhase::Depression
    }
}

/// The Turchin secular cycle phase at a given year (80-year cycle).
pub fn secular_phase_at_year(year: u32) -> (p: SecularPhase)
    ensures
        p == spec_secular_phase(year),
{
    let pos = year % 80;
    if pos < 32 {
        SecularPhase::Growth
    } else if pos < 52 {
        SecularPhase::Stagflation
    } else if pos < 68 {
        SecularPhase::Crisis
    } else {
        SecularPhase::Depression
    }
}

/// The secular cycle repeats every 80 years.
pub proof fn lemma_secular_cycle_period(year: u32)
    requires
        year + 80 <= u32::MAX,
    ensures
        spec_secular_phase((year + 80) as u32) == spec_secular_phase(year),
{
    assert((year + 80) % 80 == year % 80);
}

/// Chronological position of a phase within its cycle.
pub open spec fn secular_rank(p: SecularPhase) -> nat {
    match p {
        SecularPhase::Growth => 0,
        SecularPhase::Stagflation => 1,
        SecularPhase::Crisis => 2,
        SecularPhase::Depression => 3,
    }
}

/// Within each 80-year cycle the phases run in order — growth for the first
/// 40% of the cycle, stagflation up to 65%, crisis up to 85%, depression for
/// the rest — and never step back before the next cycle begins.
pub proof fn lemma_secular_cycle_shares(a: u32, b: u32)
    ensures
        (spec_secular_phase(a) == SecularPhase::Growth) <==> (a % 80) * 100 < 40 * 80,
        (spec_secular_phase(a) == SecularPhase::Stagflation) <==> 40 * 80 <= (a % 80) * 100 < 65
            * 80,
        (spec_secular_phase(a) == SecularPhase::Crisis) <==> 65 * 80 <= (a % 80) * 100 < 85 * 80,
        (spec_secular_phase(a) == SecularPhase::Depression) <==> 85 * 80 <= (a % 80) * 100,
        a <= b && a / 80 == b / 80 ==> secular_rank(spec_secular_phase(a)) <= secular_rank(
            spec_secular_phase(b),
        ),
{
    if a <= b && a / 80 == b / 80 {
        assert(a % 80 <= b % 80) by (nonlinear_arith)
            requires
                a <= b,
                a / 80 == b / 80,
        ;
    }
}

// ─── Colonies ───────────────────────────────────────────────────

/// An off-world colony as it stands at some timeline year.
#[derive(Debug, Clone, Copy)]
pub struct ColonyState {
    pub name: &'static str,
    pub body: &'static str,
    pub founded_year: u32,
    pub population: u32,
}

impl View for ColonyState {
    type V = (Seq<char>, Seq<char>, u32, u32);

    open spec fn view(&self) -> (Seq<char>, Seq<char>, u32, u32) {
        (self.name@, self.body@, self.founded_year, self.population)
    }
}

/// Number of colonies in the plan.
pub open spec fn colony_plan_len() -> nat {
    4
}

/// Founding year of the `k`-th planned colony (founded in this order).
pub open spec fn colony_founded(k: int) -> u32 {
    if k == 0 { 35 } else if k == 1 { 45 } else if k == 2 { 80 } else { 120 }
}

pub open spec fn colony_name(k: int) -> Seq<char> {
    if k == 0 {
        "Luna Base"@
    } else if k == 1 {
        "Ares Settlement"@
    } else if k == 2 {
        "Europa Deep"@
    } else {
        "Titan Harvest"@
    }
}

pub open spec fn colony_body(k: int) -> Seq<char> {
    if k == 0 {
        "Moon"@
    } else if k == 1 {
        "Mars"@
    } else if k == 2 {
        "Jupiter"@
    } else {
        "Saturn"@
    }
}

pub open spec fn min_int(a: int, b: int) -> int {
    if a <= b { a } else { b }
}

/// Population of the `k`-th colony `age` years after founding: linear
/// growth from a founding crew, capped by habitat capacity.
pub open spec fn colony_population(k: int, age: int) -> int {
    if k == 0 {
        min_int(12 + 3 * age, 500)
    } else if k == 1 {
        min_int(50 + 8 * age, 10000)
    } else if k == 2 {
        min_int(8 + age / 2, 100)
    } else {
        min_int(4 + (3 * age) / 10, 50)
    }
}

/// How many colonies have been founded by `year`.
pub open spec fn colony_count(year: u32) -> nat {
    if year >= 120 {
        4
    } else if year >= 80 {
        3
    } else if year >= 45 {
        2
    } else if year >= 35 {
        1
    } else {
        0
    }
}

/// The colonies that exist at `year`, in founding order.
pub open spec fn spec_colonies(year: u32) -> Seq<(Seq<char>, Seq<char>, u32, u32)> {
    Seq::new(
        colony_count(year),
        |k: int|
            (
                colony_name(k),
                colony_body(k),
                colony_founded(k),
                colony_population(k, year - colony_founded(k)) as u32,
            ),
    )
}

/// Colonies that exist at a given timeline year.
pub fn colonies_at_year(year: u32) -> (v: Vec<ColonyState>)
    ensures
        v@.map_values(|c: ColonyState| c@) == spec_colonies(year),
{
    let mut colonies: Vec<ColonyState> = Vec::new();

    // Luna Base (founded year 35)
    if year >= 35 {
        let age = (year - 35) as u64;
        let pop = if 12 + age * 3 < 500 { 12 + age * 3 } else { 500 };
        colonies.push(ColonyState {
            name: "Luna Base",
            body: "Moon",
            founded_year: 35,
            population: pop as u32,
        });
    }

    // Mars Colony (founded year 45)
    if year >= 45 {
        let age = (year - 45) as u64;
        let pop = if 50 + age * 8 < 10000 { 50 + age * 8 } else { 10000 };
        colonies.push(ColonyState {
            name: "Ares Settlement",
            body: "Mars",
            founded_year: 45,
            population: pop as u32,
        });
    }

    // Europa Station (founded year 80)
    if year >= 80 {
        let age = (year - 80) as u64;
        let pop = if 8 + age / 2 < 100 { 8 + age / 2 } else { 100 };
        colonies.push(ColonyState {
            name: "Europa Deep",
            body: "Jupiter",
            founded_year: 80,
            population: pop as u32,
        });
    }

    // Titan Outpost (founded year 120)
    if year >= 120 {
        let age = (year - 120) as u64;
        let pop = if 4 + (age * 3) / 10 < 50 { 4 + (age * 3) / 10 } else { 50 };
        colonies.push(ColonyState {
            name: "Titan Harvest",
            body: "Saturn",
            founded_year: 120,
            population: pop as u32,
        });
    }

    assert(colonies@.map_values(|c: ColonyState| c@) =~= spec_colonies(year));
    colonies
}

/// Position in the milestone table of the milestone that founds the `k`-th
/// colony: Luna Base, Mars Colony, Europa Station, Titan Outpost.
pub open spec fn founding_milestone(k: int) -> int {
    if k == 0 { 2 } else if k == 1 { 3 } else if k == 2 { 5 } else { 7 }
}

/// A colony exists exactly from the year of the milestone that founds it:
/// at any year the colonies present are those whose founding milestone has
/// been reached, each recording that milestone's year as its founding year,
/// and no colony is present before it is founded.
pub proof fn lemma_colonies_follow_milestones(y: u32)
    ensures
        spec_colonies(y).len() <= 4,
        forall|k: int|
            0 <= k < 4 ==> (k < spec_colonies(y).len() <==> #[trigger] spec_tech_milestones()[founding_milestone(
                k,
            )].0 <= y),
        forall|k: int|
            0 <= k < spec_colonies(y).len() ==> (#[trigger] spec_colonies(y)[k]).2
                == spec_tech_milestones()[founding_milestone(k)].0 && spec_colonies(y)[k].2 <= y,
{
}

/// Colonies only accumulate: everything present at `y1` is still there at a
/// later `y2`, in the same position, and no colony's population shrinks.
pub proof fn lemma_colonies_accumulate(y1: u32, y2: u32, k: int)
    requires
        y1 <= y2,
        0 <= k < spec_colonies(y1).len(),
    ensures
        spec_colonies(y1).len() <= spec_colonies(y2).len(),
        spec_colonies(y2)[k].0 == spec_colonies(y1)[k].0,
        spec_colonies(y2)[k].1 == spec_colonies(y1)[k].1,
        spec_colonies(y1)[k].3 <= spec_colonies(y2)[k].3,
{
    let a1 = y1 - colony_founded(k);
    let a2 = y2 - colony_founded(k);
    assert(a1 <= a2);
    if k == 3 {
        assert((3 * a1) / 10 <= (3 * a2) / 10) by (nonlinear_arith)
            requires
                0 <= a1 <= a2,
        ;
    } else if k == 2 {
        assert(a1 / 2 <= a2 / 2) by (nonlinear_arith)
            requires
                0 <= a1 <= a2,
        ;
    }
}

} // verus!
