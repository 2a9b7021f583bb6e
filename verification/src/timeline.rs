//! Transition timeline — which epoch a year belongs to, and which pieces
//! of planned infrastructure are built by then.
//!
//! Year 0 = present day. Year 300 = deep future.

use vstd::prelude::*;

verus! {

// ─── Epochs ─────────────────────────────────────────────────────

#[derive(Debug, Clone, Copy, PartialEq, Eq, Hash, Structural)]
pub enum Epoch {
    /// 0-25: building the base
    Foundation,
    /// 26-50: rapid expansion
    Growth,
    /// Global reach. The timeline names no year after it: years 51-150 are
    /// one period, Maturation, as the slider narrates them.
    Expansion,
    /// 51-150: systems mature
    Maturation,
    /// 151-300: resilient civilization
    Hardening,
    /// 301+: long-term stewardship
    DeepTime,
}

pub open spec fn spec_epoch_label(e: Epoch) -> Seq<char> {
    match e {
        Epoch::Foundation => "Foundation"@,
        Epoch::Growth => "Growth"@,
        Epoch::Expansion => "Expansion"@,
        Epoch::Maturation => "Maturation"@,
        Epoch::Hardening => "Hardening"@,
        Epoch::DeepTime => "Deep Time"@,
    }
}

/// Chronological position of an epoch.
pub open spec fn epoch_rank(e: Epoch) -> nat {
    match e {
        Epoch::Foundation => 0,
        Epoch::Growth => 1,
        Epoch::Expansion => 2,
        Epoch::Maturation => 3,
        Epoch::Hardening => 4,
        Epoch::DeepTime => 5,
    }
}

impl Epoch {
    pub fn label(&self) -> (s: &'static str)
        ensures
            s@ == spec_epoch_label(*self),
    {
        match self {
            Epoch::Foundation => "Foundation",
            Epoch::Growth => "Growth",
            Epoch::Expansion => "Expansion",
            Epoch::Maturation => "Maturation",
            Epoch::Hardening => "Hardening",
            Epoch::DeepTime => "Deep Time",
        }
    }
}

pub open spec fn spec_epoch_for_year(year: u32) -> Epoch {
    if year <= 25 {
        Epoch::Foundation
    } else if year <= 50 {
        Epoch::Growth
    } else if year <= 150 {
        Epoch::Maturation
    } else if year <= 300 {
        Epoch::Hardening
    } else {
        Epoch::DeepTime
    }
}

/// The epoch of a year; its label is the name the timeline slider gives
/// that year.
pub fn epoch_for_year(year: u32) -> (e: Epoch)
    ensures
        e == spec_epoch_for_year(year),
        spec_epoch_label(e) == spec_epoch_name(year),
{
    match year {
        0..=25 => Epoch::Foundation,
        26..=50 => Epoch::Growth,
        51..=150 => Epoch::Maturation,
        151..=300 => Epoch::Hardening,
        _ => Epoch::DeepTime,
    }
}

/// Epochs never go backwards as the timeline advances.
pub proof fn lemma_epochs_advance(y1: u32, y2: u32)
    requires
        y1 <= y2,
    ensures
        epoch_rank(spec_epoch_for_year(y1)) <= epoch_rank(spec_epoch_for_year(y2)),
{
}

// ─── Timeline narration ─────────────────────────────────────────

/// Name shown on the timeline slider for a year; it is the label of the
/// year's epoch.
pub open spec fn spec_epoch_name(y: u32) -> Seq<char> {
    if y <= 25 {
        "Foundation"@
    } else if y <= 50 {
        "Growth"@
    } else if y <= 150 {
        "Maturation"@
    } else if y <= 300 {
        "Hardening"@
    } else {
        "Deep Time"@
    }
}

pub open spec fn spec_epoch_detail(y: u32) -> Seq<char> {
    if y <= 25 {
        "First geothermal taps online. Survey teams mapping vault sites."@
    } else if y <= 50 {
        "Maglev corridors under construction. Initial vault excavation."@
    } else if y <= 150 {
        "Vault network expanding. Spaceport construction after 4 vaults."@
    } else if y <= 300 {
        "Full maglev grid operational. All 12 vaults active."@
    } else {
        "Multi-century resilience. Self-sustaining civilization infrastructure."@
    }
}

pub fn epoch_name(y: u32) -> (s: &'static str)
    ensures
        s@ == spec_epoch_name(y),
{
    match y {
        0..=25 => "Foundation",
        26..=50 => "Growth",
        51..=150 => "Maturation",
        151..=300 => "Hardening",
        _ => "Deep Time",
    }
}

pub fn epoch_detail(y: u32) -> (s: &'static str)
    ensures
        s@ == spec_epoch_detail(y),
{
    match y {
        0..=25 => "First geothermal taps online. Survey teams mapping vault sites.",
        26..=50 => "Maglev corridors under construction. Initial vault excavation.",
        51..=150 => "Vault network expanding. Spaceport construction after 4 vaults.",
        151..=300 => "Full maglev grid operational. All 12 vaults active.",
        _ => "Multi-century resilience. Self-sustaining civilization infrastructure.",
    }
}

/// Which narrated period a year falls in, counting from 0.
pub open spec fn spec_epoch_band(y: u32) -> nat {
    if y <= 25 {
        0
    } else if y <= 50 {
        1
    } else if y <= 150 {
        2
    } else if y <= 300 {
        3
    } else {
        4
    }
}

/// Two years carry the same period name exactly when they fall in the same
/// narrated period.
pub proof fn lemma_epoch_name_tracks_band(a: u32, b: u32)
    ensures
        (spec_epoch_name(a) == spec_epoch_name(b)) <==> (spec_epoch_band(a) == spec_epoch_band(b)),
{
    reveal_strlit("Foundation");
    reveal_strlit("Growth");
    reveal_strlit("Maturation");
    reveal_strlit("Hardening");
    reveal_strlit("Deep Time");
    if spec_epoch_band(a) != spec_epoch_band(b) {
        let x = spec_epoch_name(a);
        let y = spec_epoch_name(b);
        if x.len() == y.len() {
            assert(x[0] != y[0]);
        }
    }
}

/// Each narrated period has a narration of its own: two years share one
/// detail exactly when they fall in the same period.
pub proof fn lemma_epoch_detail_tracks_band(a: u32, b: u32)
    ensures
        (spec_epoch_detail(a) == spec_epoch_detail(b)) <==> (spec_epoch_band(a) == spec_epoch_band(
            b,
        )),
{
    reveal_strlit("First geothermal taps online. Survey teams mapping vault sites.");
    reveal_strlit("Maglev corridors under construction. Initial vault excavation.");
    reveal_strlit("Vault network expanding. Spaceport construction after 4 vaults.");
    reveal_strlit("Full maglev grid operational. All 12 vaults active.");
    reveal_strlit("Multi-century resilience. Self-sustaining civilization infrastructure.");
    if spec_epoch_band(a) != spec_epoch_band(b) {
        let x = spec_epoch_detail(a);
        let y = spec_epoch_detail(b);
        if x.len() == y.len() {
            assert(x[0] != y[0] || x[1] != y[1]);
        }
    }
}

fn epoch_band(y: u32) -> (b: u8)
    ensures
        b == spec_epoch_band(y),
{
    match y {
        0..=25 => 0,
        26..=50 => 1,
        51..=150 => 2,
        151..=300 => 3,
        _ => 4,
    }
}

/// The narration of a period: its name, a dash, and what happens in it.
pub open spec fn spec_epoch_whisper(y: u32) -> Seq<char> {
    spec_epoch_name(y) + " — "@ + spec_epoch_detail(y)
}

/// The timeline slider moves from `prev_year` to `new_year`. Crossing into
/// another period is narrated; scrubbing inside one stays silent.
pub fn timeline_whisper(prev_year: u32, new_year: u32) -> (w: Option<String>)
    ensures
        w is Some <==> spec_epoch_name(prev_year) != spec_epoch_name(new_year),
        w matches Some(s) ==> s@ == spec_epoch_whisper(new_year),
{
    proof {
        lemma_epoch_name_tracks_band(prev_year, new_year);
    }
    if epoch_band(prev_year) != epoch_band(new_year) {
        let mut s = String::from_str(epoch_name(new_year));
        s.append(" — ");
        s.append(epoch_detail(new_year));
        Some(s)
    } else {
        None
    }
}

// ─── Visibility ─────────────────────────────────────────────────

/// How many Resontia vaults exist by a given year (`usize::MAX` = all of them).
pub open spec fn spec_vault_quota(year: u32) -> usize {
    if year <= 49 {
        0
    } else if year <= 74 {
        2
    } else if year <= 99 {
        4
    } else if year <= 124 {
        7
    } else if year <= 149 {
        10
    } else {
        usize::MAX
    }
}

/// How many maglev corridors exist by a given year (`usize::MAX` = all of them).
pub open spec fn spec_corridor_quota(year: u32) -> usize {
    if year <= 24 {
        0
    } else if year <= 49 {
        3
    } else if year <= 99 {
        6
    } else if year <= 149 {
        10
    } else {
        usize::MAX
    }
}

/// Resontia vault visibility by index — more vaults appear over time.
pub fn vault_visible(index: usize, year: u32) -> (b: bool)
    ensures
        b == (index < spec_vault_quota(year)),
{
    let max_visible: usize = match year {
        0..=49 => 0,
        50..=74 => 2,
        75..=99 => 4,
        100..=124 => 7,
        125..=149 => 10,
        _ => usize::MAX,
    };
    index < max_visible
}

/// Maglev corridor visibility by index — corridors built over time.
pub fn corridor_visible(index: usize, year: u32) -> (b: bool)
    ensures
        b == (index < spec_corridor_quota(year)),
{
    let max_visible: usize = match year {
        0..=24 => 0,
        25..=49 => 3,
        50..=99 => 6,
        100..=149 => 10,
        _ => usize::MAX,
    };
    index < max_visible
}

/// Once built, a vault stays built: visibility only grows with the year,
/// and vaults appear in index order.
pub proof fn lemma_vaults_accumulate(i: usize, j: usize, y1: u32, y2: u32)
    requires
        j <= i,
        y1 <= y2,
        i < spec_vault_quota(y1),
    ensures
        j < spec_vault_quota(y2),
{
}

/// Once built, a corridor stays built: visibility only grows with the year,
/// and corridors appear in index order.
pub proof fn lemma_corridors_accumulate(i: usize, j: usize, y1: u32, y2: u32)
    requires
        j <= i,
        y1 <= y2,
        i < spec_corridor_quota(y1),
    ensures
        j < spec_corridor_quota(y2),
{
}

/// First year in which the `i`-th Resontia vault stands: two vaults in
/// year 50, two more in 75, three more in 100, three more in 125, and the
/// rest in 150.
pub open spec fn vault_completion_year(i: int) -> int {
    if i < 2 { 50 } else if i < 4 { 75 } else if i < 7 { 100 } else if i < 10 { 125 } else { 150 }
}

/// First year in which the `i`-th maglev corridor runs: three in year 25,
/// three more in 50, four more in 100, and the rest in 150.
pub open spec fn corridor_completion_year(i: int) -> int {
    if i < 3 { 25 } else if i < 6 { 50 } else if i < 10 { 100 } else { 150 }
}

/// Each vault is shown from the year it is completed on, and never before;
/// each build tier adds vaults.
pub proof fn lemma_vault_schedule(i: usize, y: u32)
    ensures
        (i < spec_vault_quota(y)) <==> (y >= vault_completion_year(i as int) && i < usize::MAX),
        spec_vault_quota(49) < spec_vault_quota(50) < spec_vault_quota(75) < spec_vault_quota(100)
            < spec_vault_quota(125) < spec_vault_quota(150),
{
}

/// Each corridor is shown from the year it is completed on, and never
/// before; each build tier adds corridors.
pub proof fn lemma_corridor_schedule(i: usize, y: u32)
    ensures
        (i < spec_corridor_quota(y)) <==> (y >= corridor_completion_year(i as int) && i
            < usize::MAX),
        spec_corridor_quota(24) < spec_corridor_quota(25) < spec_corridor_quota(50)
            < spec_corridor_quota(100) < spec_corridor_quota(150),
{
}

/// From year 150 on every vault and every maglev corridor is shown.
pub proof fn lemma_full_build_out(i: usize, y: u32)
    requires
        y >= 150,
    ensures
        i < spec_vault_quota(y) || i == usize::MAX,
        i < spec_corridor_quota(y) || i == usize::MAX,
{
}

} // verus!
