//! Layout of the factory preset banks: 50 patches per engine, cycling
//! through five categories and numbered within each category. The patch
//! parameter values are set by the audio code.

use vstd::prelude::*;
use crate::instruments::SynthType;

verus! {

/// Patches in each factory bank.
pub const FACTORY_BANK_SIZE: usize = 50;

/// Categories per factory bank.
pub const FACTORY_CATEGORIES: usize = 5;

/// The category (0..5) and the number within that category (from 1) of the
/// factory patch at `index` (from 0): categories take turns, so every fifth
/// patch shares a category.
pub fn factory_slot(index: usize) -> (r: (usize, usize))
    ensures
        r.0 == index % 5,
        r.1 == index / 5 + 1,
{
    (index % FACTORY_CATEGORIES, index / FACTORY_CATEGORIES + 1)
}

/// The category names of an engine's factory bank, in turn order.
pub open spec fn category_names(synth: SynthType) -> Seq<Seq<char>> {
    match synth {
        SynthType::Summit => seq!["Lead"@, "Pad"@, "Bass"@, "Pluck"@, "Keys"@],
        SynthType::Eruption => seq!["Acid"@, "Fat Bass"@, "Modular"@, "Poly"@, "Strings"@],
        SynthType::Nebula => seq!["Space"@, "Cloud"@, "Atmosphere"@, "FX"@, "Bells"@],
        SynthType::Sampler => Seq::empty(),
    }
}

/// The name of category `category` of `synth`'s factory bank; `None` for
/// the sampler (which has no bank) or a category past the fifth.
pub fn factory_category_name(synth: SynthType, category: usize) -> (r: Option<&'static str>)
    ensures
        r is Some <==> category < category_names(synth).len(),
        r matches Some(name) ==> name@ == category_names(synth)[category as int],
{
    let names: [&'static str; 5] = match synth {
        SynthType::Summit => ["Lead", "Pad", "Bass", "Pluck", "Keys"],
        SynthType::Eruption => ["Acid", "Fat Bass", "Modular", "Poly", "Strings"],
        SynthType::Nebula => ["Space", "Cloud", "Atmosphere", "FX", "Bells"],
        SynthType::Sampler => return None,
    };
    if category < 5 {
        Some(names[category])
    } else {
        None
    }
}

/// The factory banks' categories in turn order: Summit's are Lead, Pad,
/// Bass, Pluck, Keys; Eruption's Acid, Fat Bass, Modular, Poly, Strings;
/// Nebula's Space, Cloud, Atmosphere, FX, Bells; the sampler has none.
pub proof fn law_factory_categories()
    ensures
        category_names(SynthType::Summit) =~= seq!["Lead"@, "Pad"@, "Bass"@, "Pluck"@, "Keys"@],
        category_names(SynthType::Eruption) =~= seq!["Acid"@, "Fat Bass"@, "Modular"@, "Poly"@, "Strings"@],
        category_names(SynthType::Nebula) =~= seq!["Space"@, "Cloud"@, "Atmosphere"@, "FX"@, "Bells"@],
        category_names(SynthType::Sampler) =~= Seq::<Seq<char>>::empty(),
{
}

} // verus!
