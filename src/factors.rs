//! The impact-factor repository and its hierarchical lookup.
//!
//! A factor is filed under a key made of its food category, country,
//! optional crop and impact category. A lookup tries, most specific first:
//! country and crop, country alone, `Global` and crop, `Global` alone. Where
//! all four miss, the caller falls back on a default estimate, marked as
//! such.
use vstd::prelude::*;
use crate::models::{Country, FoodCategory};
use crate::pedigree::PedigreeScore;
use crate::processing_models::{CapacityRange, ProcessingFacilityType, ProductType};
use crate::text::{join2, join3, str_eq};

verus! {

/// Values filed under text keys. A later insert under a key replaces the
/// earlier value.
#[derive(Debug, Clone)]
pub struct FactorTable<V> {
    entries: Vec<(String, V)>,
}

impl<V> View for FactorTable<V> {
    type V = Map<Seq<char>, V>;

    closed spec fn view(&self) -> Map<Seq<char>, V> {
        Map::new(
            |k: Seq<char>| exists|i: int| 0 <= i < self.entries@.len() && self.entries@[i].0@ == k,
            |k: Seq<char>|
                self.entries@[choose|i: int| 0 <= i < self.entries@.len() && self.entries@[i].0@ == k].1,
        )
    }
}

impl<V> FactorTable<V> {
    /// No key is filed twice.
    pub closed spec fn wf(self) -> bool {
        forall|i: int, j: int|
            0 <= i < self.entries@.len() && 0 <= j < self.entries@.len() && i != j
                ==> self.entries@[i].0@ != self.entries@[j].0@
    }

    /// The entry at `i` is what the view holds under its key.
    proof fn lemma_entry_in_view(&self, i: int)
        requires
            self.wf(),
            0 <= i < self.entries@.len(),
        ensures
            self@.contains_key(self.entries@[i].0@),
            self@[self.entries@[i].0@] == self.entries@[i].1,
    {
        let k = self.entries@[i].0@;
        assert(0 <= i < self.entries@.len() && self.entries@[i].0@ == k);
        let j = choose|j: int| 0 <= j < self.entries@.len() && self.entries@[j].0@ == k;
        assert(j == i);
    }

    pub fn new() -> (r: FactorTable<V>)
        ensures
            r.wf(),
            r@ == Map::<Seq<char>, V>::empty(),
    {
        let r = FactorTable { entries: Vec::new() };
        assert(r@ =~= Map::<Seq<char>, V>::empty());
        r
    }

    /// The position of `key` among the entries, if it is there.
    fn position(&self, key: &str) -> (r: Option<usize>)
        ensures
            match r {
                Some(i) => i < self.entries@.len() && self.entries@[i as int].0@ == key@,
                None => forall|i: int| 0 <= i < self.entries@.len() ==> self.entries@[i].0@ != key@,
            },
    {
        let mut i: usize = 0;
        while i < self.entries.len()
            invariant
                0 <= i <= self.entries@.len(),
                forall|j: int| 0 <= j < i ==> self.entries@[j].0@ != key@,
            decreases self.entries@.len() - i,
        {
            if str_eq(self.entries[i].0.as_str(), key) {
                return Some(i);
            }
            i = i + 1;
        }
        None
    }

    /// Files `value` under `key`, replacing what was filed there.
    pub fn insert(&mut self, key: String, value: V)
        requires
            old(self).wf(),
        ensures
            final(self).wf(),
            final(self)@ == old(self)@.insert(key@, value),
    {
        let ghost k = key@;
        let ghost before = self.entries@;
        match self.position(key.as_str()) {
            Some(i) => {
                self.entries.set(i, (key, value));
                proof {
                    assert forall|q: Seq<char>| #[trigger] final(self)@.contains_key(q)
                        == old(self)@.insert(k, value).contains_key(q) by {
                        if q != k {
                            if exists|j: int| 0 <= j < before.len() && before[j].0@ == q {
                                let j = choose|j: int| 0 <= j < before.len() && before[j].0@ == q;
                                assert(self.entries@[j].0@ == q);
                            }
                        }
                        else {
                            assert(self.entries@[i as int].0@ == q);
                        }
                    }
                    assert forall|q: Seq<char>| #[trigger] final(self)@.contains_key(q)
                        implies final(self)@[q] == old(self)@.insert(k, value)[q] by {
                        let j = choose|j: int| 0 <= j < self.entries@.len() && self.entries@[j].0@ == q;
                        self.lemma_entry_in_view(j);
                        if q != k {
                            assert(before[j].0@ == q);
                            old(self).lemma_entry_in_view(j);
                        } else {
                            self.lemma_entry_in_view(i as int);
                        }
                    }
                    assert(final(self)@ =~= old(self)@.insert(k, value));
                }
            },
            None => {
                self.entries.push((key, value));
                proof {
                    let n = before.len() as int;
                    assert forall|q: Seq<char>| #[trigger] final(self)@.contains_key(q)
                        == old(self)@.insert(k, value).contains_key(q) by {
                        if q != k {
                            if exists|j: int| 0 <= j < before.len() && before[j].0@ == q {
                                let j = choose|j: int| 0 <= j < before.len() && before[j].0@ == q;
                                assert(self.entries@[j].0@ == q);
                            }
                        } else {
                            assert(self.entries@[n].0@ == q);
                        }
                    }
                    assert forall|q: Seq<char>| #[trigger] final(self)@.contains_key(q)
                        implies final(self)@[q] == old(self)@.insert(k, value)[q] by {
                        let j = choose|j: int| 0 <= j < self.entries@.len() && self.entries@[j].0@ == q;
                        self.lemma_entry_in_view(j);
                        if q != k {
                            assert(before[j].0@ == q);
                            old(self).lemma_entry_in_view(j);
                        } else {
                            self.lemma_entry_in_view(n);
                        }
                    }
                    assert(final(self)@ =~= old(self)@.insert(k, value));
                }
            },
        }
    }

    /// Files each entry in order, as `insert` does: where a key comes more
    /// than once, the last value stays.
    pub fn load(&mut self, entries: Vec<(String, V)>)
        requires
            old(self).wf(),
        ensures
            final(self).wf(),
            final(self)@ == spec_load(old(self)@, entry_views(entries@)),
    {
        let ghost all = entry_views(entries@);
        let ghost start = self@;
        let ghost n = entries@.len() as int;
        let mut rest = entries;
        let ghost mut i: int = 0;
        while rest.len() > 0
            invariant
                self.wf(),
                0 <= i <= n,
                n == all.len(),
                rest@.len() == n - i,
                entry_views(rest@) == all.subrange(i, n),
                self@ == spec_load(start, all.subrange(0, i)),
            decreases rest@.len(),
        {
            let ghost before = rest@;
            let (key, value) = rest.remove(0);
            proof {
                assert(entry_views(before)[0] == all.subrange(i, n)[0]);
                assert(entry_views(before)[0] == all[i]);
                assert(all[i] == (key@, value));
                assert(all.subrange(0, i + 1).drop_last() =~= all.subrange(0, i));
                assert forall|j: int| 0 <= j < rest@.len() implies #[trigger] entry_views(rest@)[j]
                    == all.subrange(i + 1, n)[j] by {
                    assert(rest@[j] == before[j + 1]);
                    assert(entry_views(before)[j + 1] == all.subrange(i, n)[j + 1]);
                }
                assert(entry_views(rest@) =~= all.subrange(i + 1, n));
            }
            self.insert(key, value);
            proof {
                i = i + 1;
            }
        }
        proof {
            assert(all.subrange(0, n) =~= all);
        }
    }

    /// The value filed under `key`, exactly.
    pub fn get(&self, key: &str) -> (r: Option<&V>)
        requires
            self.wf(),
        ensures
            match r {
                Some(v) => self@.contains_key(key@) && *v == self@[key@],
                None => !self@.contains_key(key@),
            },
    {
        match self.position(key) {
            Some(i) => {
                proof {
                    self.lemma_entry_in_view(i as int);
                }
                Some(&self.entries[i].1)
            },
            None => None,
        }
    }
}

/// The key and value of each entry.
pub open spec fn entry_views<V>(entries: Seq<(String, V)>) -> Seq<(Seq<char>, V)> {
    entries.map_values(|e: (String, V)| (e.0@, e.1))
}

/// `m` after filing each entry in order, the last value of a key staying.
pub open spec fn spec_load<V>(m: Map<Seq<char>, V>, entries: Seq<(Seq<char>, V)>) -> Map<Seq<char>, V>
    decreases entries.len(),
{
    if entries.len() == 0 {
        m
    } else {
        spec_load(m, entries.drop_last()).insert(entries.last().0, entries.last().1)
    }
}

/// Loading entries onto `m` keeps what `m` holds under other keys and
/// overrides it with what the entries alone would file.
proof fn lemma_load_is_union<V>(m: Map<Seq<char>, V>, entries: Seq<(Seq<char>, V)>)
    ensures
        spec_load(m, entries) == m.union_prefer_right(spec_load(Map::empty(), entries)),
    decreases entries.len(),
{
    if entries.len() == 0 {
        assert(m.union_prefer_right(Map::<Seq<char>, V>::empty()) =~= m);
    } else {
        let rest = entries.drop_last();
        lemma_load_is_union(m, rest);
        let base = spec_load(Map::<Seq<char>, V>::empty(), rest);
        assert(m.union_prefer_right(base).insert(entries.last().0, entries.last().1)
            =~= m.union_prefer_right(base.insert(entries.last().0, entries.last().1)));
    }
}

/// Loading the same factors a second time changes nothing: the repository
/// a run leaves is the one it found, so repeated runs over the same input
/// see the same factors.
pub proof fn reloading_factors_changes_nothing<V>(m: Map<Seq<char>, V>, entries: Seq<(Seq<char>, V)>)
    ensures
        spec_load(spec_load(m, entries), entries) == spec_load(m, entries),
{
    let fresh = spec_load(Map::<Seq<char>, V>::empty(), entries);
    lemma_load_is_union(m, entries);
    lemma_load_is_union(spec_load(m, entries), entries);
    assert(m.union_prefer_right(fresh).union_prefer_right(fresh) =~= m.union_prefer_right(fresh));
}

/// The key of one level of the lookup hierarchy: category and country,
/// then the crop where there is one.
pub open spec fn spec_level_key(category: FoodCategory, country: Country, crop: Option<Seq<char>>) -> Seq<char> {
    match crop {
        Some(c) => category.spec_name() + "_"@ + country.spec_name() + "_"@ + c,
        None => category.spec_name() + "_"@ + country.spec_name(),
    }
}

/// The key a factor is filed under.
pub open spec fn spec_factor_key(
    category: FoodCategory,
    country: Country,
    crop: Option<Seq<char>>,
    impact: Seq<char>,
) -> Seq<char> {
    spec_level_key(category, country, crop) + "_"@ + impact
}

/// The levels of the lookup, most specific first.
pub open spec fn spec_lookup_hierarchy(
    category: FoodCategory,
    country: Country,
    crop: Option<Seq<char>>,
) -> Seq<Seq<char>> {
    match crop {
        Some(c) => seq![
            spec_level_key(category, country, Some(c)),
            spec_level_key(category, country, None),
            spec_level_key(category, Country::Global, Some(c)),
            spec_level_key(category, Country::Global, None),
        ],
        None => seq![
            spec_level_key(category, country, None),
            spec_level_key(category, Country::Global, None),
        ],
    }
}

/// The value under the first level, in order, whose key for `impact` is
/// filed in `m`.
pub open spec fn spec_first_match<V>(
    m: Map<Seq<char>, V>,
    levels: Seq<Seq<char>>,
    impact: Seq<char>,
) -> Option<V>
    decreases levels.len(),
{
    if levels.len() == 0 {
        None
    } else if m.contains_key(levels[0] + "_"@ + impact) {
        Some(m[levels[0] + "_"@ + impact])
    } else {
        spec_first_match(m, levels.subrange(1, levels.len() as int), impact)
    }
}

/// The factor a lookup resolves to, if any level holds one.
pub open spec fn spec_resolve<V>(
    m: Map<Seq<char>, V>,
    category: FoodCategory,
    country: Country,
    crop: Option<Seq<char>>,
    impact: Seq<char>,
) -> Option<V> {
    spec_first_match(m, spec_lookup_hierarchy(category, country, crop), impact)
}

pub open spec fn opt_view(crop: Option<&str>) -> Option<Seq<char>> {
    match crop {
        Some(c) => Some(c@),
        None => None,
    }
}

fn level_key(category: FoodCategory, country: Country, crop: Option<&str>) -> (r: String)
    ensures
        r@ == spec_level_key(category, country, opt_view(crop)),
{
    let base = join3(category.name(), "_", country.name());
    match crop {
        Some(c) => {
            let with_sep = base.concat("_");
            with_sep.concat(c)
        },
        None => base,
    }
}

/// The key a factor with these dimensions is filed under.
pub fn create_factor_key(
    category: FoodCategory,
    country: Country,
    crop: Option<&str>,
    impact: &str,
) -> (r: String)
    ensures
        r@ == spec_factor_key(category, country, opt_view(crop), impact@),
{
    let level = level_key(category, country, crop);
    let with_sep = level.concat("_");
    with_sep.concat(impact)
}

/// The levels at which a factor for an item is looked up, most specific
/// first: country and crop, country, `Global` and crop, `Global`. The crop
/// levels are left out for an item without a crop.
pub fn build_lookup_hierarchy(category: FoodCategory, country: Country, crop: Option<&str>) -> (r: Vec<String>)
    ensures
        r@.map_values(|s: String| s@) == spec_lookup_hierarchy(category, country, opt_view(crop)),
{
    let mut levels: Vec<String> = Vec::new();
    match crop {
        Some(c) => {
            levels.push(level_key(category, country, Some(c)));
            levels.push(level_key(category, country, None));
            levels.push(level_key(category, Country::Global, Some(c)));
            levels.push(level_key(category, Country::Global, None));
        },
        None => {
            levels.push(level_key(category, country, None));
            levels.push(level_key(category, Country::Global, None));
        },
    }
    assert(levels@.map_values(|s: String| s@) =~= spec_lookup_hierarchy(category, country, opt_view(crop)));
    levels
}

/// The factor for `impact` at the first level of `hierarchy` that holds
/// one.
pub fn find_best_factor<'a, V>(
    table: &'a FactorTable<V>,
    hierarchy: &Vec<String>,
    impact: &str,
) -> (r: Option<&'a V>)
    requires
        table.wf(),
    ensures
        match r {
            Some(v) => spec_first_match(table@, hierarchy@.map_values(|s: String| s@), impact@) == Some(*v),
            None => spec_first_match(table@, hierarchy@.map_values(|s: String| s@), impact@) is None,
        },
{
    let ghost levels = hierarchy@.map_values(|s: String| s@);
    let n = hierarchy.len();
    let mut i: usize = 0;
    assert(levels.subrange(0, n as int) =~= levels);
    while i < n
        invariant
            n == hierarchy@.len(),
            levels == hierarchy@.map_values(|s: String| s@),
            table.wf(),
            0 <= i <= n,
            spec_first_match(table@, levels, impact@)
                == spec_first_match(table@, levels.subrange(i as int, n as int), impact@),
        decreases n - i,
    {
        let key = join3(hierarchy[i].as_str(), "_", impact);
        let ghost rest = levels.subrange(i as int, n as int);
        assert(rest[0] == hierarchy@[i as int]@);
        assert(rest.subrange(1, rest.len() as int) =~= levels.subrange(i + 1, n as int));
        match table.get(key.as_str()) {
            Some(v) => {
                return Some(v);
            },
            None => {},
        }
        i = i + 1;
    }
    assert(levels.subrange(n as int, n as int).len() == 0);
    None
}

/// The source text of a default estimate, used where no factor is filed at
/// any level. It begins with `Default estimate`, so that data-quality
/// scoring can tell it apart.
pub fn default_estimate_source() -> (r: String)
    ensures
        r@ == "Default estimate - high uncertainty"@,
        r@.len() >= 16,
        r@.subrange(0, 16) == "Default estimate"@,
{
    proof {
        reveal_strlit("Default estimate - high uncertainty");
        reveal_strlit("Default estimate");
    }
    let r = String::from_str("Default estimate - high uncertainty");
    assert(r@.subrange(0, 16) =~= "Default estimate"@);
    r
}

/// The most specific factor wins: where a factor is filed for the item's
/// country and crop, the lookup resolves to it, whatever is filed for the
/// country alone or for `Global`.
pub proof fn country_and_crop_factor_wins<V>(
    m: Map<Seq<char>, V>,
    category: FoodCategory,
    country: Country,
    crop: Seq<char>,
    impact: Seq<char>,
)
    requires
        m.contains_key(spec_factor_key(category, country, Some(crop), impact)),
    ensures
        spec_resolve(m, category, country, Some(crop), impact)
            == Some(m[spec_factor_key(category, country, Some(crop), impact)]),
{
    let levels = spec_lookup_hierarchy(category, country, Some(crop));
    assert(levels[0] + "_"@ + impact == spec_factor_key(category, country, Some(crop), impact));
}

/// Where nothing is filed for the country and crop, a factor filed for the
/// country alone wins over any filed for `Global`.
pub proof fn country_factor_wins_over_global<V>(
    m: Map<Seq<char>, V>,
    category: FoodCategory,
    country: Country,
    crop: Option<Seq<char>>,
    impact: Seq<char>,
)
    requires
        !(crop matches Some(c) && m.contains_key(spec_factor_key(category, country, Some(c), impact))),
        m.contains_key(spec_factor_key(category, country, None, impact)),
    ensures
        spec_resolve(m, category, country, crop, impact)
            == Some(m[spec_factor_key(category, country, None, impact)]),
{
    let levels = spec_lookup_hierarchy(category, country, crop);
    match crop {
        Some(c) => {
            let rest = levels.subrange(1, levels.len() as int);
            assert(levels[0] + "_"@ + impact == spec_factor_key(category, country, Some(c), impact));
            assert(rest[0] + "_"@ + impact == spec_factor_key(category, country, None, impact));
            assert(spec_first_match(m, rest, impact) == Some(m[spec_factor_key(category, country, None, impact)]));
            assert(spec_first_match(m, levels, impact) == spec_first_match(m, rest, impact));
        },
        None => {
            assert(levels[0] + "_"@ + impact == spec_factor_key(category, country, None, impact));
        },
    }
}

/// A lookup misses, and the default estimate is used, exactly when no level
/// holds a factor for the impact.
pub proof fn lookup_misses_only_when_every_level_misses<V>(
    m: Map<Seq<char>, V>,
    category: FoodCategory,
    country: Country,
    crop: Option<Seq<char>>,
    impact: Seq<char>,
)
    ensures
        spec_resolve(m, category, country, crop, impact) is None
            <==> (forall|i: int| 0 <= i < spec_lookup_hierarchy(category, country, crop).len()
                ==> !m.contains_key(#[trigger] spec_lookup_hierarchy(category, country, crop)[i] + "_"@ + impact)),
{
    let levels = spec_lookup_hierarchy(category, country, crop);
    lemma_first_match_none(m, levels, impact);
}

proof fn lemma_first_match_none<V>(m: Map<Seq<char>, V>, levels: Seq<Seq<char>>, impact: Seq<char>)
    ensures
        spec_first_match(m, levels, impact) is None
            <==> (forall|i: int| 0 <= i < levels.len() ==> !m.contains_key(#[trigger] levels[i] + "_"@ + impact)),
    decreases levels.len(),
{
    if levels.len() > 0 {
        let rest = levels.subrange(1, levels.len() as int);
        lemma_first_match_none(m, rest, impact);
        if !m.contains_key(levels[0] + "_"@ + impact) {
            assert forall|i: int| 0 <= i < levels.len() && (forall|j: int| 0 <= j < rest.len() ==> !m.contains_key(#[trigger] rest[j] + "_"@ + impact))
                implies !m.contains_key(levels[i] + "_"@ + impact) by {
                if i > 0 {
                    assert(rest[i - 1] == levels[i]);
                }
            }
            assert forall|j: int| 0 <= j < rest.len() && (forall|i: int| 0 <= i < levels.len() ==> !m.contains_key(#[trigger] levels[i] + "_"@ + impact))
                implies !m.contains_key(rest[j] + "_"@ + impact) by {
                assert(rest[j] == levels[j + 1]);
            }
        }
    }
}

/// The fallback factor for an impact category outside the food group's
/// own row, in ten-thousandths: the cereal averages, and 0.1 for a
/// category not in the list.
pub open spec fn spec_generic_default_e4(impact: Seq<char>) -> u32 {
    if impact == "Global warming"@ {
        14000
    } else if impact == "Water consumption"@ {
        16000
    } else if impact == "Land use"@ {
        28000
    } else if impact == "Terrestrial acidification"@ {
        120
    } else if impact == "Freshwater eutrophication"@ {
        30
    } else if impact == "Marine eutrophication"@ {
        80
    } else if impact == "Biodiversity loss"@ {
        6000
    } else if impact == "Soil degradation"@ {
        1500
    } else if impact == "Particulate matter formation"@ {
        80
    } else if impact == "Photochemical oxidation"@ {
        40
    } else if impact == "Fossil depletion"@ {
        200
    } else if impact == "Mineral depletion"@ {
        10
    } else {
        1000
    }
}

/// The default impact factor per kg of a food group, in ten-thousandths of
/// the category's unit.
pub open spec fn spec_default_factor_e4(category: FoodCategory, impact: Seq<char>) -> u32 {
    match category {
        FoodCategory::Cereals => {
            if impact == "Global warming"@ {
                14000
            } else if impact == "Water consumption"@ {
                16000
            } else if impact == "Land use"@ {
                28000
            } else if impact == "Terrestrial acidification"@ {
                120
            } else if impact == "Freshwater eutrophication"@ {
                30
            } else if impact == "Marine eutrophication"@ {
                80
            } else if impact == "Biodiversity loss"@ {
                6000
            } else if impact == "Soil degradation"@ {
                1500
            } else if impact == "Particulate matter formation"@ {
                80
            } else if impact == "Photochemical oxidation"@ {
                40
            } else if impact == "Fossil depletion"@ {
                200
            } else if impact == "Mineral depletion"@ {
                10
            } else {
                spec_generic_default_e4(impact)
            }
        },
        FoodCategory::Legumes => {
            if impact == "Global warming"@ {
                10000
            } else if impact == "Water consumption"@ {
                40000
            } else if impact == "Land use"@ {
                25000
            } else if impact == "Terrestrial acidification"@ {
                80
            } else if impact == "Freshwater eutrophication"@ {
                20
            } else if impact == "Marine eutrophication"@ {
                50
            } else if impact == "Biodiversity loss"@ {
                4000
            } else if impact == "Soil degradation"@ {
                800
            } else if impact == "Particulate matter formation"@ {
                60
            } else if impact == "Photochemical oxidation"@ {
                30
            } else if impact == "Fossil depletion"@ {
                150
            } else if impact == "Mineral depletion"@ {
                8
            } else {
                spec_generic_default_e4(impact)
            }
        },
        FoodCategory::Vegetables => {
            if impact == "Global warming"@ {
                5000
            } else if impact == "Water consumption"@ {
                4000
            } else if impact == "Land use"@ {
                3000
            } else if impact == "Terrestrial acidification"@ {
                40
            } else if impact == "Freshwater eutrophication"@ {
                10
            } else if impact == "Marine eutrophication"@ {
                30
            } else if impact == "Biodiversity loss"@ {
                2000
            } else if impact == "Soil degradation"@ {
                500
            } else if impact == "Particulate matter formation"@ {
                30
            } else if impact == "Photochemical oxidation"@ {
                20
            } else if impact == "Fossil depletion"@ {
                80
            } else if impact == "Mineral depletion"@ {
                4
            } else {
                spec_generic_default_e4(impact)
            }
        },
        FoodCategory::Fruits => {
            if impact == "Global warming"@ {
                6000
            } else if impact == "Water consumption"@ {
                8000
            } else if impact == "Land use"@ {
                4000
            } else if impact == "Terrestrial acidification"@ {
                50
            } else if impact == "Freshwater eutrophication"@ {
                10
            } else if impact == "Marine eutrophication"@ {
                40
            } else if impact == "Biodiversity loss"@ {
                3000
            } else if impact == "Soil degradation"@ {
                600
            } else if impact == "Particulate matter formation"@ {
                40
            } else if impact == "Photochemical oxidation"@ {
                20
            } else if impact == "Fossil depletion"@ {
                100
            } else if impact == "Mineral depletion"@ {
                5
            } else {
                spec_generic_default_e4(impact)
            }
        },
        FoodCategory::Meat => {
            if impact == "Global warming"@ {
                250000
            } else if impact == "Water consumption"@ {
                150000
            } else if impact == "Land use"@ {
                200000
            } else if impact == "Terrestrial acidification"@ {
                2000
            } else if impact == "Freshwater eutrophication"@ {
                500
            } else if impact == "Marine eutrophication"@ {
                1500
            } else if impact == "Biodiversity loss"@ {
                80000
            } else if impact == "Soil degradation"@ {
                25000
            } else if impact == "Particulate matter formation"@ {
                1500
            } else if impact == "Photochemical oxidation"@ {
                800
            } else if impact == "Fossil depletion"@ {
                4000
            } else if impact == "Mineral depletion"@ {
                200
            } else {
                spec_generic_default_e4(impact)
            }
        },
        FoodCategory::Poultry => {
            if impact == "Global warming"@ {
                60000
            } else if impact == "Water consumption"@ {
                40000
            } else if impact == "Land use"@ {
                70000
            } else if impact == "Terrestrial acidification"@ {
                800
            } else if impact == "Freshwater eutrophication"@ {
                200
            } else if impact == "Marine eutrophication"@ {
                600
            } else if impact == "Biodiversity loss"@ {
                25000
            } else if impact == "Soil degradation"@ {
                8000
            } else if impact == "Particulate matter formation"@ {
                500
            } else if impact == "Photochemical oxidation"@ {
                300
            } else if impact == "Fossil depletion"@ {
                1500
            } else if impact == "Mineral depletion"@ {
                80
            } else {
                spec_generic_default_e4(impact)
            }
        },
        FoodCategory::Fish => {
            if impact == "Global warming"@ {
                40000
            } else if impact == "Water consumption"@ {
                50
            } else if impact == "Land use"@ {
                30000
            } else if impact == "Terrestrial acidification"@ {
                300
            } else if impact == "Freshwater eutrophication"@ {
                80
            } else if impact == "Marine eutrophication"@ {
                1500
            } else if impact == "Biodiversity loss"@ {
                15000
            } else if impact == "Soil degradation"@ {
                2000
            } else if impact == "Particulate matter formation"@ {
                250
            } else if impact == "Photochemical oxidation"@ {
                150
            } else if impact == "Fossil depletion"@ {
                800
            } else if impact == "Mineral depletion"@ {
                30
            } else {
                spec_generic_default_e4(impact)
            }
        },
        FoodCategory::Dairy => {
            if impact == "Global warming"@ {
                32000
            } else if impact == "Water consumption"@ {
                50000
            } else if impact == "Land use"@ {
                40000
            } else if impact == "Terrestrial acidification"@ {
                400
            } else if impact == "Freshwater eutrophication"@ {
                100
            } else if impact == "Marine eutrophication"@ {
                300
            } else if impact == "Biodiversity loss"@ {
                18000
            } else if impact == "Soil degradation"@ {
                6000
            } else if impact == "Particulate matter formation"@ {
                300
            } else if impact == "Photochemical oxidation"@ {
                200
            } else if impact == "Fossil depletion"@ {
                800
            } else if impact == "Mineral depletion"@ {
                40
            } else {
                spec_generic_default_e4(impact)
            }
        },
        FoodCategory::Roots => {
            if impact == "Global warming"@ {
                3000
            } else if impact == "Water consumption"@ {
                6000
            } else if impact == "Land use"@ {
                10000
            } else if impact == "Terrestrial acidification"@ {
                20
            } else if impact == "Freshwater eutrophication"@ {
                5
            } else if impact == "Marine eutrophication"@ {
                20
            } else if impact == "Biodiversity loss"@ {
                1500
            } else if impact == "Soil degradation"@ {
                300
            } else if impact == "Particulate matter formation"@ {
                20
            } else if impact == "Photochemical oxidation"@ {
                10
            } else if impact == "Fossil depletion"@ {
                50
            } else if impact == "Mineral depletion"@ {
                2
            } else {
                spec_generic_default_e4(impact)
            }
        },
        _ => spec_generic_default_e4(impact),
    }
}

fn generic_default_e4(impact: &str) -> (r: u32)
    ensures
        r == spec_generic_default_e4(impact@),
{
    if str_eq(impact, "Global warming") {
        14000
    } else if str_eq(impact, "Water consumption") {
        16000
    } else if str_eq(impact, "Land use") {
        28000
    } else if str_eq(impact, "Terrestrial acidification") {
        120
    } else if str_eq(impact, "Freshwater eutrophication") {
        30
    } else if str_eq(impact, "Marine eutrophication") {
        80
    } else if str_eq(impact, "Biodiversity loss") {
        6000
    } else if str_eq(impact, "Soil degradation") {
        1500
    } else if str_eq(impact, "Particulate matter formation") {
        80
    } else if str_eq(impact, "Photochemical oxidation") {
        40
    } else if str_eq(impact, "Fossil depletion") {
        200
    } else if str_eq(impact, "Mineral depletion") {
        10
    } else {
        1000
    }
}

/// The built-in default impact factor per kg for a food group and impact
/// category, in ten-thousandths of the category's unit (so 14000 stands
/// for 1.4 kg CO2-eq per kg). It is used only where no factor is filed at
/// any level of the lookup.
pub fn default_impact_factor_e4(category: FoodCategory, impact: &str) -> (r: u32)
    ensures
        r == spec_default_factor_e4(category, impact@),
{
    match category {
        FoodCategory::Cereals => {
            if str_eq(impact, "Global warming") {
                14000
            } else if str_eq(impact, "Water consumption") {
                16000
            } else if str_eq(impact, "Land use") {
                28000
            } else if str_eq(impact, "Terrestrial acidification") {
                120
            } else if str_eq(impact, "Freshwater eutrophication") {
                30
            } else if str_eq(impact, "Marine eutrophication") {
                80
            } else if str_eq(impact, "Biodiversity loss") {
                6000
            } else if str_eq(impact, "Soil degradation") {
                1500
            } else if str_eq(impact, "Particulate matter formation") {
                80
            } else if str_eq(impact, "Photochemical oxidation") {
                40
            } else if str_eq(impact, "Fossil depletion") {
                200
            } else if str_eq(impact, "Mineral depletion") {
                10
            } else {
                generic_default_e4(impact)
            }
        },
        FoodCategory::Legumes => {
            if str_eq(impact, "Global warming") {
                10000
            } else if str_eq(impact, "Water consumption") {
                40000
            } else if str_eq(impact, "Land use") {
                25000
            } else if str_eq(impact, "Terrestrial acidification") {
                80
            } else if str_eq(impact, "Freshwater eutrophication") {
                20
            } else if str_eq(impact, "Marine eutrophication") {
                50
            } else if str_eq(impact, "Biodiversity loss") {
                4000
            } else if str_eq(impact, "Soil degradation") {
                800
            } else if str_eq(impact, "Particulate matter formation") {
                60
            } else if str_eq(impact, "Photochemical oxidation") {
                30
            } else if str_eq(impact, "Fossil depletion") {
                150
            } else if str_eq(impact, "Mineral depletion") {
                8
            } else {
                generic_default_e4(impact)
            }
        },
        FoodCategory::Vegetables => {
            if str_eq(impact, "Global warming") {
                5000
            } else if str_eq(impact, "Water consumption") {
                4000
            } else if str_eq(impact, "Land use") {
                3000
            } else if str_eq(impact, "Terrestrial acidification") {
                40
            } else if str_eq(impact, "Freshwater eutrophication") {
                10
            } else if str_eq(impact, "Marine eutrophication") {
                30
            } else if str_eq(impact, "Biodiversity loss") {
                2000
            } else if str_eq(impact, "Soil degradation") {
                500
            } else if str_eq(impact, "Particulate matter formation") {
                30
            } else if str_eq(impact, "Photochemical oxidation") {
                20
            } else if str_eq(impact, "Fossil depletion") {
                80
            } else if str_eq(impact, "Mineral depletion") {
                4
            } else {
                generic_default_e4(impact)
            }
        },
        FoodCategory::Fruits => {
            if str_eq(impact, "Global warming") {
                6000
            } else if str_eq(impact, "Water consumption") {
                8000
            } else if str_eq(impact, "Land use") {
                4000
            } else if str_eq(impact, "Terrestrial acidification") {
                50
            } else if str_eq(impact, "Freshwater eutrophication") {
                10
            } else if str_eq(impact, "Marine eutrophication") {
                40
            } else if str_eq(impact, "Biodiversity loss") {
                3000
            } else if str_eq(impact, "Soil degradation") {
                600
            } else if str_eq(impact, "Particulate matter formation") {
                40
            } else if str_eq(impact, "Photochemical oxidation") {
                20
            } else if str_eq(impact, "Fossil depletion") {
                100
            } else if str_eq(impact, "Mineral depletion") {
                5
            } else {
                generic_default_e4(impact)
            }
        },
        FoodCategory::Meat => {
            if str_eq(impact, "Global warming") {
                250000
            } else if str_eq(impact, "Water consumption") {
                150000
            } else if str_eq(impact, "Land use") {
                200000
            } else if str_eq(impact, "Terrestrial acidification") {
                2000
            } else if str_eq(impact, "Freshwater eutrophication") {
                500
            } else if str_eq(impact, "Marine eutrophication") {
                1500
            } else if str_eq(impact, "Biodiversity loss") {
                80000
            } else if str_eq(impact, "Soil degradation") {
                25000
            } else if str_eq(impact, "Particulate matter formation") {
                1500
            } else if str_eq(impact, "Photochemical oxidation") {
                800
            } else if str_eq(impact, "Fossil depletion") {
                4000
            } else if str_eq(impact, "Mineral depletion") {
                200
            } else {
                generic_default_e4(impact)
            }
        },
        FoodCategory::Poultry => {
            if str_eq(impact, "Global warming") {
                60000
            } else if str_eq(impact, "Water consumption") {
                40000
            } else if str_eq(impact, "Land use") {
                70000
            } else if str_eq(impact, "Terrestrial acidification") {
                800
            } else if str_eq(impact, "Freshwater eutrophication") {
                200
            } else if str_eq(impact, "Marine eutrophication") {
                600
            } else if str_eq(impact, "Biodiversity loss") {
                25000
            } else if str_eq(impact, "Soil degradation") {
                8000
            } else if str_eq(impact, "Particulate matter formation") {
                500
            } else if str_eq(impact, "Photochemical oxidation") {
                300
            } else if str_eq(impact, "Fossil depletion") {
                1500
            } else if str_eq(impact, "Mineral depletion") {
                80
            } else {
                generic_default_e4(impact)
            }
        },
        FoodCategory::Fish => {
            if str_eq(impact, "Global warming") {
                40000
            } else if str_eq(impact, "Water consumption") {
                50
            } else if str_eq(impact, "Land use") {
                30000
            } else if str_eq(impact, "Terrestrial acidification") {
                300
            } else if str_eq(impact, "Freshwater eutrophication") {
                80
            } else if str_eq(impact, "Marine eutrophication") {
                1500
            } else if str_eq(impact, "Biodiversity loss") {
                15000
            } else if str_eq(impact, "Soil degradation") {
                2000
            } else if str_eq(impact, "Particulate matter formation") {
                250
            } else if str_eq(impact, "Photochemical oxidation") {
                150
            } else if str_eq(impact, "Fossil depletion") {
                800
            } else if str_eq(impact, "Mineral depletion") {
                30
            } else {
                generic_default_e4(impact)
            }
        },
        FoodCategory::Dairy => {
            if str_eq(impact, "Global warming") {
                32000
            } else if str_eq(impact, "Water consumption") {
                50000
            } else if str_eq(impact, "Land use") {
                40000
            } else if str_eq(impact, "Terrestrial acidification") {
                400
            } else if str_eq(impact, "Freshwater eutrophication") {
                100
            } else if str_eq(impact, "Marine eutrophication") {
                300
            } else if str_eq(impact, "Biodiversity loss") {
                18000
            } else if str_eq(impact, "Soil degradation") {
                6000
            } else if str_eq(impact, "Particulate matter formation") {
                300
            } else if str_eq(impact, "Photochemical oxidation") {
                200
            } else if str_eq(impact, "Fossil depletion") {
                800
            } else if str_eq(impact, "Mineral depletion") {
                40
            } else {
                generic_default_e4(impact)
            }
        },
        FoodCategory::Roots => {
            if str_eq(impact, "Global warming") {
                3000
            } else if str_eq(impact, "Water consumption") {
                6000
            } else if str_eq(impact, "Land use") {
                10000
            } else if str_eq(impact, "Terrestrial acidification") {
                20
            } else if str_eq(impact, "Freshwater eutrophication") {
                5
            } else if str_eq(impact, "Marine eutrophication") {
                20
            } else if str_eq(impact, "Biodiversity loss") {
                1500
            } else if str_eq(impact, "Soil degradation") {
                300
            } else if str_eq(impact, "Particulate matter formation") {
                20
            } else if str_eq(impact, "Photochemical oxidation") {
                10
            } else if str_eq(impact, "Fossil depletion") {
                50
            } else if str_eq(impact, "Mineral depletion") {
                2
            } else {
                generic_default_e4(impact)
            }
        },
        _ => generic_default_e4(impact),
    }
}
/// The key a processing factor is filed under: facility type, product
/// type, country and impact category.
pub fn create_processing_factor_key(
    facility_type: ProcessingFacilityType,
    product_type: &ProductType,
    country: Country,
    impact: &str,
) -> (r: String)
    ensures
        r@ == facility_type.spec_name() + "_"@ + product_type.spec_name() + "_"@ + country.spec_name()
            + "_"@ + impact@,
{
    let a = join3(facility_type.name(), "_", product_type.name());
    let b = join3(a.as_str(), "_", country.name());
    join3(b.as_str(), "_", impact)
}

/// The key a processing benchmark is filed under: facility type, capacity
/// range and country.
pub fn benchmark_key(facility_type: ProcessingFacilityType, capacity: CapacityRange, country: Country) -> (r: String)
    ensures
        r@ == facility_type.spec_name() + "_"@ + capacity.spec_name() + "_"@ + country.spec_name(),
{
    let a = join3(facility_type.name(), "_", capacity.name());
    join3(a.as_str(), "_", country.name())
}

pub open spec fn spec_generic_processing_default_e2(impact: Seq<char>) -> u32 {
    if impact == "Global warming"@ {
        50
    } else if impact == "Energy consumption"@ {
        15000
    } else if impact == "Water consumption"@ {
        300
    } else if impact == "Solid waste generation"@ {
        5000
    } else if impact == "Wastewater generation"@ {
        200
    } else {
        10
    }
}

/// The default impact per tonne of a facility and product, in hundredths of
/// the category's unit.
pub open spec fn spec_processing_default_e2(facility: ProcessingFacilityType, product: ProductType, impact: Seq<char>) -> u32 {
    if facility == ProcessingFacilityType::Mill && product is FlourMaize {
        if impact == "Global warming"@ {
            15
        } else if impact == "Energy consumption"@ {
            8000
        } else if impact == "Water consumption"@ {
            200
        } else {
            spec_generic_processing_default_e2(impact)
        }
    } else if facility == ProcessingFacilityType::Mill && product is RiceProcessed {
        if impact == "Global warming"@ {
            25
        } else if impact == "Energy consumption"@ {
            12000
        } else if impact == "Water consumption"@ {
            400
        } else {
            spec_generic_processing_default_e2(impact)
        }
    } else if facility == ProcessingFacilityType::PalmOilMill && product is PalmOil {
        if impact == "Global warming"@ {
            60
        } else if impact == "Energy consumption"@ {
            20000
        } else if impact == "Water consumption"@ {
            800
        } else {
            spec_generic_processing_default_e2(impact)
        }
    } else if facility == ProcessingFacilityType::CassivaProcessing && product is FlourCassava {
        if impact == "Global warming"@ {
            10
        } else if impact == "Energy consumption"@ {
            6000
        } else if impact == "Water consumption"@ {
            300
        } else {
            spec_generic_processing_default_e2(impact)
        }
    } else if facility == ProcessingFacilityType::Bakery && product is BakedGoods {
        if impact == "Global warming"@ {
            80
        } else if impact == "Energy consumption"@ {
            30000
        } else if impact == "Water consumption"@ {
            150
        } else {
            spec_generic_processing_default_e2(impact)
        }
    } else if facility == ProcessingFacilityType::FishProcessing && product is ProcessedFish {
        if impact == "Global warming"@ {
            120
        } else if impact == "Energy consumption"@ {
            40000
        } else if impact == "Water consumption"@ {
            1000
        } else {
            spec_generic_processing_default_e2(impact)
        }
    } else {
        spec_generic_processing_default_e2(impact)
    }
}

fn generic_processing_default_e2(impact: &str) -> (r: u32)
    ensures
        r == spec_generic_processing_default_e2(impact@),
{
    if str_eq(impact, "Global warming") {
        50
    } else if str_eq(impact, "Energy consumption") {
        15000
    } else if str_eq(impact, "Water consumption") {
        300
    } else if str_eq(impact, "Solid waste generation") {
        5000
    } else if str_eq(impact, "Wastewater generation") {
        200
    } else {
        10
    }
}

/// The built-in default impact per tonne of product for a facility type,
/// product type and impact category, in hundredths of the category's unit
/// (so 15 stands for 0.15 kg CO2-eq per tonne). Pairs without a row of
/// their own take the generic defaults, and 0.1 for any other category.
pub fn default_processing_impact_e2(facility: ProcessingFacilityType, product: &ProductType, impact: &str) -> (r: u32)
    ensures
        r == spec_processing_default_e2(facility, *product, impact@),
{
    if facility == ProcessingFacilityType::Mill && matches!(product, ProductType::FlourMaize) {
        if str_eq(impact, "Global warming") {
            15
        } else if str_eq(impact, "Energy consumption") {
            8000
        } else if str_eq(impact, "Water consumption") {
            200
        } else {
            generic_processing_default_e2(impact)
        }
    } else if facility == ProcessingFacilityType::Mill && matches!(product, ProductType::RiceProcessed) {
        if str_eq(impact, "Global warming") {
            25
        } else if str_eq(impact, "Energy consumption") {
            12000
        } else if str_eq(impact, "Water consumption") {
            400
        } else {
            generic_processing_default_e2(impact)
        }
    } else if facility == ProcessingFacilityType::PalmOilMill && matches!(product, ProductType::PalmOil) {
        if str_eq(impact, "Global warming") {
            60
        } else if str_eq(impact, "Energy consumption") {
            20000
        } else if str_eq(impact, "Water consumption") {
            800
        } else {
            generic_processing_default_e2(impact)
        }
    } else if facility == ProcessingFacilityType::CassivaProcessing && matches!(product, ProductType::FlourCassava) {
        if str_eq(impact, "Global warming") {
            10
        } else if str_eq(impact, "Energy consumption") {
            6000
        } else if str_eq(impact, "Water consumption") {
            300
        } else {
            generic_processing_default_e2(impact)
        }
    } else if facility == ProcessingFacilityType::Bakery && matches!(product, ProductType::BakedGoods) {
        if str_eq(impact, "Global warming") {
            80
        } else if str_eq(impact, "Energy consumption") {
            30000
        } else if str_eq(impact, "Water consumption") {
            150
        } else {
            generic_processing_default_e2(impact)
        }
    } else if facility == ProcessingFacilityType::FishProcessing && matches!(product, ProductType::ProcessedFish) {
        if str_eq(impact, "Global warming") {
            120
        } else if str_eq(impact, "Energy consumption") {
            40000
        } else if str_eq(impact, "Water consumption") {
            1000
        } else {
            generic_processing_default_e2(impact)
        }
    } else {
        generic_processing_default_e2(impact)
    }
}

/// What stands in for a factor where no level of the lookup holds one:
/// the built-in default value, a source marked as a default estimate, and
/// the worst pedigree.
#[derive(Debug, Clone)]
pub struct DefaultEstimate {
    /// The default factor per kg, in ten-thousandths of the category's unit.
    pub value_e4: u32,
    pub source: String,
    pub pedigree: PedigreeScore,
}

/// The factor for `impact` at the first level of `hierarchy` that holds
/// one or, where none does, the marked default estimate for the food group.
pub fn find_factor_or_default<'a, V>(
    table: &'a FactorTable<V>,
    hierarchy: &Vec<String>,
    category: FoodCategory,
    impact: &str,
) -> (r: Result<&'a V, DefaultEstimate>)
    requires
        table.wf(),
    ensures
        match r {
            Ok(v) => spec_first_match(table@, hierarchy@.map_values(|s: String| s@), impact@) == Some(*v),
            Err(d) => {
                &&& spec_first_match(table@, hierarchy@.map_values(|s: String| s@), impact@) is None
                &&& d.value_e4 == spec_default_factor_e4(category, impact@)
                &&& d.source@ == "Default estimate - high uncertainty"@
                &&& d.source@.len() >= 16
                &&& d.source@.subrange(0, 16) == "Default estimate"@
                &&& d.pedigree.reliability == 5
                &&& d.pedigree.completeness == 5
                &&& d.pedigree.temporal_correlation == 5
                &&& d.pedigree.geographical_correlation == 5
                &&& d.pedigree.technological_correlation == 5
            },
        },
{
    match find_best_factor(table, hierarchy, impact) {
        Some(v) => Ok(v),
        None => Err(DefaultEstimate {
            value_e4: default_impact_factor_e4(category, impact),
            source: default_estimate_source(),
            pedigree: PedigreeScore::worst(),
        }),
    }
}

} // verus!
