//! Creatures: the top-level records of a creature raw file.
use vstd::prelude::*;

use crate::caste::{caste_overwritten, Caste, CasteModel};
use crate::fields::{
    copy_strings, empty_name, empty_sing_plur, empty_tile, name_from, range_from,
    sing_plur_from, zero_range, MinMax, Name, NameModel, SingPlurModel, SingPlurName, Tile,
    TileModel, parse_min_max_range,
};
use crate::lists::{copy_vec, merged};
use crate::text::{parse_unsigned, parse_unsigned_str, str_eq, views_of};

verus! {

broadcast use vstd::seq_lib::group_seq_properties;

/// A tag of the creature vocabulary: a flag, or a field with bespoke handling.
#[derive(Clone, Copy, Debug, PartialEq, Eq, Hash, Structural)]
pub enum CreatureTag {
    ArtificialHiveable,
    DoesNotExist,
    Evil,
    Good,
    Fanciful,
    Savage,
    Generated,
    Ubiquitous,
    VerminFish,
    VerminSoil,
    VerminSoilColony,
    VerminRotter,
    VerminGrounder,
    VerminEater,
    Frequency,
    UndergroundDepth,
    LargeRoaming,
    LocalPopsControllable,
    LocalPopsProduceHeroes,
    LooseClusters,
    Mundane,
    Biome,
    PrefString,
    Name,
    GeneralBabyName,
    GeneralChildName,
    PopulationNumber,
    CopyTagsFrom,
    ApplyCreatureVariation,
    CreatureTile,
    AltTile,
    Color,
    GlowColor,
    GlowTile,
    ChangeFrequencyPercent,
    ClusterNumber,
}

/// The creature vocabulary: the tag that a key names, if any.
pub open spec fn creature_tag_of(key: Seq<char>) -> Option<CreatureTag> {
    if key == "ARTIFICIAL_HIVEABLE"@ {
        Some(CreatureTag::ArtificialHiveable)
    } else if key == "DOES_NOT_EXIST"@ {
        Some(CreatureTag::DoesNotExist)
    } else if key == "EVIL"@ {
        Some(CreatureTag::Evil)
    } else if key == "GOOD"@ {
        Some(CreatureTag::Good)
    } else if key == "FANCIFUL"@ {
        Some(CreatureTag::Fanciful)
    } else if key == "SAVAGE"@ {
        Some(CreatureTag::Savage)
    } else if key == "GENERATED"@ {
        Some(CreatureTag::Generated)
    } else if key == "UBIQUITOUS"@ {
        Some(CreatureTag::Ubiquitous)
    } else if key == "VERMIN_FISH"@ {
        Some(CreatureTag::VerminFish)
    } else if key == "VERMIN_SOIL"@ {
        Some(CreatureTag::VerminSoil)
    } else if key == "VERMIN_SOIL_COLONY"@ {
        Some(CreatureTag::VerminSoilColony)
    } else if key == "VERMIN_ROTTER"@ {
        Some(CreatureTag::VerminRotter)
    } else if key == "VERMIN_GROUNDER"@ {
        Some(CreatureTag::VerminGrounder)
    } else if key == "VERMIN_EATER"@ {
        Some(CreatureTag::VerminEater)
    } else if key == "FREQUENCY"@ {
        Some(CreatureTag::Frequency)
    } else if key == "UNDERGROUND_DEPTH"@ {
        Some(CreatureTag::UndergroundDepth)
    } else if key == "LARGE_ROAMING"@ {
        Some(CreatureTag::LargeRoaming)
    } else if key == "LOCAL_POPS_CONTROLLABLE"@ {
        Some(CreatureTag::LocalPopsControllable)
    } else if key == "LOCAL_POPS_PRODUCE_HEROES"@ {
        Some(CreatureTag::LocalPopsProduceHeroes)
    } else if key == "LOOSE_CLUSTERS"@ {
        Some(CreatureTag::LooseClusters)
    } else if key == "MUNDANE"@ {
        Some(CreatureTag::Mundane)
    } else if key == "BIOME"@ {
        Some(CreatureTag::Biome)
    } else if key == "PREFSTRING"@ {
        Some(CreatureTag::PrefString)
    } else if key == "NAME"@ {
        Some(CreatureTag::Name)
    } else if key == "GENERAL_BABY_NAME"@ {
        Some(CreatureTag::GeneralBabyName)
    } else if key == "GENERAL_CHILD_NAME"@ {
        Some(CreatureTag::GeneralChildName)
    } else if key == "POPULATION_NUMBER"@ {
        Some(CreatureTag::PopulationNumber)
    } else if key == "COPY_TAGS_FROM"@ {
        Some(CreatureTag::CopyTagsFrom)
    } else if key == "APPLY_CREATURE_VARIATION"@ {
        Some(CreatureTag::ApplyCreatureVariation)
    } else if key == "CREATURE_TILE"@ {
        Some(CreatureTag::CreatureTile)
    } else if key == "ALTTILE"@ {
        Some(CreatureTag::AltTile)
    } else if key == "COLOR"@ {
        Some(CreatureTag::Color)
    } else if key == "GLOWCOLOR"@ {
        Some(CreatureTag::GlowColor)
    } else if key == "GLOWTILE"@ {
        Some(CreatureTag::GlowTile)
    } else if key == "CHANGE_FREQUENCY_PERC"@ {
        Some(CreatureTag::ChangeFrequencyPercent)
    } else if key == "CLUSTER_NUMBER"@ {
        Some(CreatureTag::ClusterNumber)
    } else {
        None
    }
}

/// Looks a key up in the vocabulary that `creature_tag_of` states.
pub fn creature_tag_for(key: &str) -> (r: Option<CreatureTag>)
    ensures
        r == creature_tag_of(key@),
{
    if str_eq(key, "ARTIFICIAL_HIVEABLE") {
        return Some(CreatureTag::ArtificialHiveable);
    }
    if str_eq(key, "DOES_NOT_EXIST") {
        return Some(CreatureTag::DoesNotExist);
    }
    if str_eq(key, "EVIL") {
        return Some(CreatureTag::Evil);
    }
    if str_eq(key, "GOOD") {
        return Some(CreatureTag::Good);
    }
    if str_eq(key, "FANCIFUL") {
        return Some(CreatureTag::Fanciful);
    }
    if str_eq(key, "SAVAGE") {
        return Some(CreatureTag::Savage);
    }
    if str_eq(key, "GENERATED") {
        return Some(CreatureTag::Generated);
    }
    if str_eq(key, "UBIQUITOUS") {
        return Some(CreatureTag::Ubiquitous);
    }
    if str_eq(key, "VERMIN_FISH") {
        return Some(CreatureTag::VerminFish);
    }
    if str_eq(key, "VERMIN_SOIL") {
        return Some(CreatureTag::VerminSoil);
    }
    if str_eq(key, "VERMIN_SOIL_COLONY") {
        return Some(CreatureTag::VerminSoilColony);
    }
    if str_eq(key, "VERMIN_ROTTER") {
        return Some(CreatureTag::VerminRotter);
    }
    if str_eq(key, "VERMIN_GROUNDER") {
        return Some(CreatureTag::VerminGrounder);
    }
    if str_eq(key, "VERMIN_EATER") {
        return Some(CreatureTag::VerminEater);
    }
    if str_eq(key, "FREQUENCY") {
        return Some(CreatureTag::Frequency);
    }
    if str_eq(key, "UNDERGROUND_DEPTH") {
        return Some(CreatureTag::UndergroundDepth);
    }
    if str_eq(key, "LARGE_ROAMING") {
        return Some(CreatureTag::LargeRoaming);
    }
    if str_eq(key, "LOCAL_POPS_CONTROLLABLE") {
        return Some(CreatureTag::LocalPopsControllable);
    }
    if str_eq(key, "LOCAL_POPS_PRODUCE_HEROES") {
        return Some(CreatureTag::LocalPopsProduceHeroes);
    }
    if str_eq(key, "LOOSE_CLUSTERS") {
        return Some(CreatureTag::LooseClusters);
    }
    if str_eq(key, "MUNDANE") {
        return Some(CreatureTag::Mundane);
    }
    if str_eq(key, "BIOME") {
        return Some(CreatureTag::Biome);
    }
    if str_eq(key, "PREFSTRING") {
        return Some(CreatureTag::PrefString);
    }
    if str_eq(key, "NAME") {
        return Some(CreatureTag::Name);
    }
    if str_eq(key, "GENERAL_BABY_NAME") {
        return Some(CreatureTag::GeneralBabyName);
    }
    if str_eq(key, "GENERAL_CHILD_NAME") {
        return Some(CreatureTag::GeneralChildName);
    }
    if str_eq(key, "POPULATION_NUMBER") {
        return Some(CreatureTag::PopulationNumber);
    }
    if str_eq(key, "COPY_TAGS_FROM") {
        return Some(CreatureTag::CopyTagsFrom);
    }
    if str_eq(key, "APPLY_CREATURE_VARIATION") {
        return Some(CreatureTag::ApplyCreatureVariation);
    }
    if str_eq(key, "CREATURE_TILE") {
        return Some(CreatureTag::CreatureTile);
    }
    if str_eq(key, "ALTTILE") {
        return Some(CreatureTag::AltTile);
    }
    if str_eq(key, "COLOR") {
        return Some(CreatureTag::Color);
    }
    if str_eq(key, "GLOWCOLOR") {
        return Some(CreatureTag::GlowColor);
    }
    if str_eq(key, "GLOWTILE") {
        return Some(CreatureTag::GlowTile);
    }
    if str_eq(key, "CHANGE_FREQUENCY_PERC") {
        return Some(CreatureTag::ChangeFrequencyPercent);
    }
    if str_eq(key, "CLUSTER_NUMBER") {
        return Some(CreatureTag::ClusterNumber);
    }
    None
}

/// The slug of a text, as `slug::slugify` computes it.
pub uninterp spec fn slug_of(s: Seq<char>) -> Seq<char>;

/// Relies on `slug::slugify`: its result depends on the characters of its
/// argument alone.
#[verifier::external_body]
pub(crate) fn slugify(s: &str) -> (r: String)
    ensures
        r@ == slug_of(s@),
{
    slug::slugify(s)
}

/// The identifier of a creature record: the raw file's name, the record
/// kind and the slug of the creature's own id, joined by dashes.
pub open spec fn creature_identifier(file_name: Seq<char>, slug: Seq<char>) -> Seq<char> {
    file_name + "-CREATURE-"@ + slug
}

/// Builds a creature identifier from a raw file's name and an id's slug.
pub fn identifier_from_slug(file_name: &str, slug: &str) -> (r: String)
    ensures
        r@ == creature_identifier(file_name@, slug@),
{
    let mut r = String::from_str(file_name);
    r.append("-CREATURE-");
    r.append(slug);
    r
}

/// A creature, with its castes.
pub struct Creature {
    /// Unique within a set of files: see `creature_identifier`.
    pub identifier: String,
    /// The id that the raw file gives the creature.
    pub object_id: String,
    /// For a `SELECT_CREATURE` record, the id of the creature it extends;
    /// empty otherwise.
    pub selected_creature: String,
    /// The id of the creature whose tags this one copies; empty if none.
    pub copy_tags_from: String,
    pub name: Name,
    pub general_baby_name: SingPlurName,
    pub general_child_name: SingPlurName,
    pub tags: Vec<CreatureTag>,
    pub castes: Vec<Caste>,
    pub biomes: Vec<String>,
    pub pref_strings: Vec<String>,
    pub apply_creature_variation: Vec<String>,
    pub frequency: u32,
    pub change_frequency_percent: u32,
    pub cluster_number: MinMax,
    pub population_number: MinMax,
    pub underground_depth: MinMax,
    pub tile: Tile,
}

/// What a `Creature` holds.
pub struct CreatureModel {
    pub identifier: Seq<char>,
    pub object_id: Seq<char>,
    pub selected_creature: Seq<char>,
    pub copy_tags_from: Seq<char>,
    pub name: NameModel,
    pub general_baby_name: SingPlurModel,
    pub general_child_name: SingPlurModel,
    pub tags: Seq<CreatureTag>,
    pub castes: Seq<CasteModel>,
    pub biomes: Seq<Seq<char>>,
    pub pref_strings: Seq<Seq<char>>,
    pub apply_creature_variation: Seq<Seq<char>>,
    pub frequency: u32,
    pub change_frequency_percent: u32,
    pub cluster_number: MinMax,
    pub population_number: MinMax,
    pub underground_depth: MinMax,
    pub tile: TileModel,
}

/// The models of a sequence of castes.
pub open spec fn caste_views(v: Seq<Caste>) -> Seq<CasteModel> {
    v.map_values(|c: Caste| c@)
}

impl View for Creature {
    type V = CreatureModel;

    open spec fn view(&self) -> CreatureModel {
        CreatureModel {
            identifier: self.identifier@,
            object_id: self.object_id@,
            selected_creature: self.selected_creature@,
            copy_tags_from: self.copy_tags_from@,
            name: self.name@,
            general_baby_name: self.general_baby_name@,
            general_child_name: self.general_child_name@,
            tags: self.tags@,
            castes: caste_views(self.castes@),
            biomes: views_of(self.biomes@),
            pref_strings: views_of(self.pref_strings@),
            apply_creature_variation: views_of(self.apply_creature_variation@),
            frequency: self.frequency,
            change_frequency_percent: self.change_frequency_percent,
            cluster_number: self.cluster_number,
            population_number: self.population_number,
            underground_depth: self.underground_depth,
            tile: self.tile@,
        }
    }
}

/// A creature with the given identifier and id and nothing else set.
pub open spec fn new_creature(identifier: Seq<char>, object_id: Seq<char>) -> CreatureModel {
    CreatureModel {
        identifier,
        object_id,
        selected_creature: Seq::empty(),
        copy_tags_from: Seq::empty(),
        name: empty_name(),
        general_baby_name: empty_sing_plur(),
        general_child_name: empty_sing_plur(),
        tags: Seq::empty(),
        castes: Seq::empty(),
        biomes: Seq::empty(),
        pref_strings: Seq::empty(),
        apply_creature_variation: Seq::empty(),
        frequency: 0,
        change_frequency_percent: 0,
        cluster_number: zero_range(),
        population_number: zero_range(),
        underground_depth: zero_range(),
        tile: empty_tile(),
    }
}

/// The creature after a token of tag `tag` with value `value`. An empty
/// value adds the tag as a flag. A non-empty value sets the tag's field; on
/// a tag without a field it is ignored. A numeric or range field whose
/// value does not parse keeps what it held.
pub open spec fn creature_with_tag(c: CreatureModel, tag: CreatureTag, value: Seq<char>) -> CreatureModel {
    if value.len() == 0 {
        CreatureModel { tags: c.tags.push(tag), ..c }
    } else {
        match tag {
            CreatureTag::Name => CreatureModel { name: name_from(value), ..c },
            CreatureTag::GeneralBabyName => CreatureModel { general_baby_name: sing_plur_from(value), ..c },
            CreatureTag::GeneralChildName => CreatureModel { general_child_name: sing_plur_from(value), ..c },
            CreatureTag::Frequency => match parse_unsigned(value, 0xffff_ffff) {
                Some(n) => CreatureModel { frequency: n as u32, ..c },
                None => c,
            },
            CreatureTag::ChangeFrequencyPercent => match parse_unsigned(value, 0xffff_ffff) {
                Some(n) => CreatureModel { change_frequency_percent: n as u32, ..c },
                None => c,
            },
            CreatureTag::ClusterNumber => match range_from(value) {
                Some(r) => CreatureModel { cluster_number: r, ..c },
                None => c,
            },
            CreatureTag::PopulationNumber => match range_from(value) {
                Some(r) => CreatureModel { population_number: r, ..c },
                None => c,
            },
            CreatureTag::UndergroundDepth => match range_from(value) {
                Some(r) => CreatureModel { underground_depth: r, ..c },
                None => c,
            },
            CreatureTag::Biome => CreatureModel { biomes: c.biomes.push(value), ..c },
            CreatureTag::PrefString => CreatureModel { pref_strings: c.pref_strings.push(value), ..c },
            CreatureTag::ApplyCreatureVariation => CreatureModel {
                apply_creature_variation: c.apply_creature_variation.push(value),
                ..c
            },
            CreatureTag::CopyTagsFrom => CreatureModel { copy_tags_from: value, ..c },
            CreatureTag::CreatureTile => CreatureModel { tile: TileModel { character: value, ..c.tile }, ..c },
            CreatureTag::AltTile => CreatureModel { tile: TileModel { alt_character: value, ..c.tile }, ..c },
            CreatureTag::Color => CreatureModel { tile: TileModel { color: value, ..c.tile }, ..c },
            CreatureTag::GlowTile => CreatureModel { tile: TileModel { glow_character: value, ..c.tile }, ..c },
            CreatureTag::GlowColor => CreatureModel { tile: TileModel { glow_color: value, ..c.tile }, ..c },
            _ => c,
        }
    }
}

/// The first index of a caste named `name`, if any.
pub open spec fn caste_index(cs: Seq<CasteModel>, name: Seq<char>) -> Option<int>
    decreases cs.len(),
{
    if cs.len() == 0 {
        None
    } else if cs[0].identifier == name {
        Some(0)
    } else {
        match caste_index(cs.drop_first(), name) {
            Some(i) => Some(i + 1),
            None => None,
        }
    }
}

/// The castes `cs` after each caste of `os` in turn overwrites the caste of
/// the same name, or is appended where there is none.
pub open spec fn castes_absorbed(cs: Seq<CasteModel>, os: Seq<CasteModel>) -> Seq<CasteModel>
    decreases os.len(),
{
    if os.len() == 0 {
        cs
    } else {
        let m = castes_absorbed(cs, os.drop_last());
        let o = os.last();
        match caste_index(m, o.identifier) {
            Some(i) => m.update(i, caste_overwritten(m[i], o)),
            None => m.push(o),
        }
    }
}

/// Creature `c` overwritten by `o`: `c` keeps its identity and directives,
/// takes `o`'s flags that it lacks, absorbs `o`'s castes, and takes every
/// other field of `o` that is not at its default.
pub open spec fn creature_overwritten(c: CreatureModel, o: CreatureModel) -> CreatureModel {
    CreatureModel {
        identifier: c.identifier,
        object_id: c.object_id,
        selected_creature: c.selected_creature,
        copy_tags_from: c.copy_tags_from,
        name: if o.name != empty_name() { o.name } else { c.name },
        general_baby_name: if o.general_baby_name != empty_sing_plur() { o.general_baby_name } else { c.general_baby_name },
        general_child_name: if o.general_child_name != empty_sing_plur() { o.general_child_name } else { c.general_child_name },
        tags: merged(c.tags, o.tags),
        castes: castes_absorbed(c.castes, o.castes),
        biomes: if o.biomes.len() > 0 { o.biomes } else { c.biomes },
        pref_strings: if o.pref_strings.len() > 0 { o.pref_strings } else { c.pref_strings },
        apply_creature_variation: if o.apply_creature_variation.len() > 0 { o.apply_creature_variation } else { c.apply_creature_variation },
        frequency: if o.frequency != 0 { o.frequency } else { c.frequency },
        change_frequency_percent: if o.change_frequency_percent != 0 { o.change_frequency_percent } else { c.change_frequency_percent },
        cluster_number: if o.cluster_number != zero_range() { o.cluster_number } else { c.cluster_number },
        population_number: if o.population_number != zero_range() { o.population_number } else { c.population_number },
        underground_depth: if o.underground_depth != zero_range() { o.underground_depth } else { c.underground_depth },
        tile: if o.tile != empty_tile() { o.tile } else { c.tile },
    }
}

/// Creature `x` after copying the tags of `source`: `source` overwritten by
/// `x`, so that what `x` states itself wins, under `x`'s identity, with the
/// copy directive consumed.
pub open spec fn copied_from(x: CreatureModel, source: CreatureModel) -> CreatureModel {
    CreatureModel {
        identifier: x.identifier,
        object_id: x.object_id,
        selected_creature: x.selected_creature,
        copy_tags_from: Seq::empty(),
        ..creature_overwritten(source, x)
    }
}

/// Whether `tags` holds `tag`.
pub fn has_creature_tag(tags: &Vec<CreatureTag>, tag: CreatureTag) -> (r: bool)
    ensures
        r == tags@.contains(tag),
{
    let mut i: usize = 0;
    while i < tags.len()
        invariant
            i <= tags@.len(),
            forall|k: int| 0 <= k < i ==> tags@[k] != tag,
        decreases tags@.len() - i,
    {
        if tags[i] == tag {
            return true;
        }
        i = i + 1;
    }
    false
}

fn merge_creature_tags(a: &Vec<CreatureTag>, b: &Vec<CreatureTag>) -> (r: Vec<CreatureTag>)
    ensures
        r@ == merged(a@, b@),
{
    let mut out = copy_vec(a);
    let mut i: usize = 0;
    while i < b.len()
        invariant
            i <= b@.len(),
            out@ == merged(a@, b@.take(i as int)),
        decreases b@.len() - i,
    {
        assert(b@.take(i as int + 1).drop_last() =~= b@.take(i as int));
        let t = b[i];
        if !has_creature_tag(&out, t) {
            out.push(t);
        }
        i = i + 1;
    }
    assert(b@.take(b@.len() as int) =~= b@);
    out
}

/// A copy of a list of castes.
pub fn copy_castes(v: &Vec<Caste>) -> (r: Vec<Caste>)
    ensures
        caste_views(r@) == caste_views(v@),
{
    let mut out: Vec<Caste> = Vec::new();
    let mut i: usize = 0;
    while i < v.len()
        invariant
            i <= v@.len(),
            caste_views(out@) == caste_views(v@.take(i as int)),
        decreases v@.len() - i,
    {
        let c = v[i].copy();
        let ghost old_out = out@;
        out.push(c);
        assert(caste_views(out@) =~= caste_views(old_out).push(c@));
        assert(caste_views(v@.take(i as int + 1)) =~= caste_views(v@.take(i as int)).push(v@[i as int]@));
        i = i + 1;
    }
    assert(v@.take(v@.len() as int) =~= v@);
    out
}

/// The index of the first caste named `name`, if any.
pub fn find_caste(cs: &Vec<Caste>, name: &str) -> (r: Option<usize>)
    ensures
        r matches Some(i) ==> caste_index(caste_views(cs@), name@) == Some(i as int) && i < cs@.len(),
        r is None ==> caste_index(caste_views(cs@), name@) is None,
{
    let mut i: usize = 0;
    while i < cs.len()
        invariant
            i <= cs@.len(),
            forall|k: int| 0 <= k < i ==> cs@[k]@.identifier != name@,
        decreases cs@.len() - i,
    {
        if str_eq(cs[i].identifier.as_str(), name) {
            proof {
                lemma_caste_index_first(caste_views(cs@), name@, i as int);
            }
            return Some(i);
        }
        i = i + 1;
    }
    proof {
        lemma_caste_index_none(caste_views(cs@), name@);
    }
    None
}

proof fn lemma_caste_index_first(cs: Seq<CasteModel>, name: Seq<char>, i: int)
    requires
        0 <= i < cs.len(),
        cs[i].identifier == name,
        forall|k: int| 0 <= k < i ==> cs[k].identifier != name,
    ensures
        caste_index(cs, name) == Some(i),
    decreases i,
{
    if i > 0 {
        lemma_caste_index_first(cs.drop_first(), name, i - 1);
    }
}

proof fn lemma_caste_index_none(cs: Seq<CasteModel>, name: Seq<char>)
    requires
        forall|k: int| 0 <= k < cs.len() ==> cs[k].identifier != name,
    ensures
        caste_index(cs, name) is None,
    decreases cs.len(),
{
    if cs.len() > 0 {
        lemma_caste_index_none(cs.drop_first(), name);
    }
}

/// A caste index that `caste_index` finds lies within the list.
pub proof fn lemma_caste_index_bounds(cs: Seq<CasteModel>, name: Seq<char>)
    ensures
        caste_index(cs, name) matches Some(i) ==> 0 <= i < cs.len(),
    decreases cs.len(),
{
    if cs.len() > 0 {
        lemma_caste_index_bounds(cs.drop_first(), name);
    }
}

/// `cs` after each caste of `os` overwrites its namesake or is appended.
pub fn absorb_castes(cs: &Vec<Caste>, os: &Vec<Caste>) -> (r: Vec<Caste>)
    ensures
        caste_views(r@) == castes_absorbed(caste_views(cs@), caste_views(os@)),
{
    let mut out = copy_castes(cs);
    let mut j: usize = 0;
    while j < os.len()
        invariant
            j <= os@.len(),
            caste_views(out@) == castes_absorbed(caste_views(cs@), caste_views(os@.take(j as int))),
        decreases os@.len() - j,
    {
        let ghost before = caste_views(out@);
        assert(caste_views(os@.take(j as int + 1)).drop_last() =~= caste_views(os@.take(j as int)));
        assert(caste_views(os@.take(j as int + 1)).last() == os@[j as int]@);
        let o = &os[j];
        match find_caste(&out, o.identifier.as_str()) {
            Some(i) => {
                proof {
                    lemma_caste_index_bounds(before, o@.identifier);
                }
                let mut c = out[i].copy();
                c.overwrite_caste(o);
                let ghost cv = c@;
                out.set(i, c);
                assert(caste_views(out@) =~= before.update(i as int, cv));
            },
            None => {
                let c = o.copy();
                let ghost cv = c@;
                out.push(c);
                assert(caste_views(out@) =~= before.push(cv));
            },
        }
        j = j + 1;
    }
    assert(os@.take(os@.len() as int) =~= os@);
    out
}

fn pick_strings(mine: &Vec<String>, theirs: &Vec<String>) -> (r: Vec<String>)
    ensures
        views_of(r@) == if views_of(theirs@).len() > 0 { views_of(theirs@) } else { views_of(mine@) },
{
    if theirs.len() > 0 { copy_strings(theirs) } else { copy_strings(mine) }
}

fn pick_u32(mine: u32, theirs: u32) -> (r: u32)
    ensures
        r == if theirs != 0 { theirs } else { mine },
{
    if theirs != 0 { theirs } else { mine }
}

fn pick_range(mine: MinMax, theirs: MinMax) -> (r: MinMax)
    ensures
        r == if theirs != zero_range() { theirs } else { mine },
{
    if !theirs.is_zero() { theirs } else { mine }
}

fn pick_sing_plur(mine: &SingPlurName, theirs: &SingPlurName) -> (r: SingPlurName)
    ensures
        r@ == if theirs@ != empty_sing_plur() { theirs@ } else { mine@ },
{
    if !theirs.is_empty() { theirs.copy() } else { mine.copy() }
}

impl Creature {
    /// A creature declared in file `file_name` with id `object_id`; its
    /// identifier is built from the file's name and the id's slug.
    pub fn new(file_name: &str, object_id: &str) -> (r: Creature)
        ensures
            r@ == new_creature(creature_identifier(file_name@, slug_of(object_id@)), object_id@),
    {
        let slug = slugify(object_id);
        let identifier = identifier_from_slug(file_name, slug.as_str());
        Creature::with_identifier(identifier, object_id)
    }

    /// A creature with the given identifier and id and nothing else set.
    pub fn with_identifier(identifier: String, object_id: &str) -> (r: Creature)
        ensures
            r@ == new_creature(identifier@, object_id@),
    {
        let r = Creature {
            identifier,
            object_id: String::from_str(object_id),
            selected_creature: String::new(),
            copy_tags_from: String::new(),
            name: Name::new(),
            general_baby_name: SingPlurName::new(),
            general_child_name: SingPlurName::new(),
            tags: Vec::new(),
            castes: Vec::new(),
            biomes: Vec::new(),
            pref_strings: Vec::new(),
            apply_creature_variation: Vec::new(),
            frequency: 0,
            change_frequency_percent: 0,
            cluster_number: MinMax::zero(),
            population_number: MinMax::zero(),
            underground_depth: MinMax::zero(),
            tile: Tile::new(),
        };
        assert(r@.castes =~= Seq::<CasteModel>::empty());
        assert(r@.biomes =~= Seq::<Seq<char>>::empty());
        assert(r@.pref_strings =~= Seq::<Seq<char>>::empty());
        assert(r@.apply_creature_variation =~= Seq::<Seq<char>>::empty());
        r
    }

    /// Applies a token of the creature vocabulary; a key outside it changes
    /// nothing.
    pub fn parse_tag(&mut self, key: &str, value: &str)
        ensures
            final(self)@ == (match creature_tag_of(key@) {
                Some(t) => creature_with_tag(old(self)@, t, value@),
                None => old(self)@,
            }),
    {
        match creature_tag_for(key) {
            Some(tag) => self.apply_tag(tag, value),
            None => {},
        }
    }

    /// Applies a token whose tag is known.
    pub fn apply_tag(&mut self, tag: CreatureTag, value: &str)
        ensures
            final(self)@ == creature_with_tag(old(self)@, tag, value@),
    {
        if value.is_empty() {
            self.tags.push(tag);
            return;
        }
        match tag {
            CreatureTag::Name => self.name = Name::from_value(value),
            CreatureTag::GeneralBabyName => self.general_baby_name = SingPlurName::from_value(value),
            CreatureTag::GeneralChildName => self.general_child_name = SingPlurName::from_value(value),
            CreatureTag::Frequency => {
                if let Some(n) = parse_unsigned_str(value, 0xffff_ffff) {
                    self.frequency = n;
                }
            },
            CreatureTag::ChangeFrequencyPercent => {
                if let Some(n) = parse_unsigned_str(value, 0xffff_ffff) {
                    self.change_frequency_percent = n;
                }
            },
            CreatureTag::ClusterNumber => {
                if let Some(r) = parse_min_max_range(value) {
                    self.cluster_number = r;
                }
            },
            CreatureTag::PopulationNumber => {
                if let Some(r) = parse_min_max_range(value) {
                    self.population_number = r;
                }
            },
            CreatureTag::UndergroundDepth => {
                if let Some(r) = parse_min_max_range(value) {
                    self.underground_depth = r;
                }
            },
            CreatureTag::Biome => {
                let ghost before = self.biomes@;
                self.biomes.push(String::from_str(value));
                assert(views_of(self.biomes@) =~= views_of(before).push(value@));
            },
            CreatureTag::PrefString => {
                let ghost before = self.pref_strings@;
                self.pref_strings.push(String::from_str(value));
                assert(views_of(self.pref_strings@) =~= views_of(before).push(value@));
            },
            CreatureTag::ApplyCreatureVariation => {
                let ghost before = self.apply_creature_variation@;
                self.apply_creature_variation.push(String::from_str(value));
                assert(views_of(self.apply_creature_variation@) =~= views_of(before).push(value@));
            },
            CreatureTag::CopyTagsFrom => self.copy_tags_from = String::from_str(value),
            CreatureTag::CreatureTile => self.tile.set_character(value),
            CreatureTag::AltTile => self.tile.set_alt_character(value),
            CreatureTag::Color => self.tile.set_color(value),
            CreatureTag::GlowTile => self.tile.set_glow_character(value),
            CreatureTag::GlowColor => self.tile.set_glow_color(value),
            _ => {},
        }
    }

    /// The creature's identifier.
    pub fn get_identifier(&self) -> (r: &str)
        ensures
            r@ == self.identifier@,
    {
        self.identifier.as_str()
    }

    /// This creature overwritten by `other`; see `creature_overwritten`.
    pub fn overwritten_by(&self, other: &Creature) -> (r: Creature)
        ensures
            r@ == creature_overwritten(self@, other@),
    {
        Creature {
            identifier: self.identifier.clone(),
            object_id: self.object_id.clone(),
            selected_creature: self.selected_creature.clone(),
            copy_tags_from: self.copy_tags_from.clone(),
            name: if !other.name.is_empty() { other.name.copy() } else { self.name.copy() },
            general_baby_name: pick_sing_plur(&self.general_baby_name, &other.general_baby_name),
            general_child_name: pick_sing_plur(&self.general_child_name, &other.general_child_name),
            tags: merge_creature_tags(&self.tags, &other.tags),
            castes: absorb_castes(&self.castes, &other.castes),
            biomes: pick_strings(&self.biomes, &other.biomes),
            pref_strings: pick_strings(&self.pref_strings, &other.pref_strings),
            apply_creature_variation: pick_strings(&self.apply_creature_variation, &other.apply_creature_variation),
            frequency: pick_u32(self.frequency, other.frequency),
            change_frequency_percent: pick_u32(self.change_frequency_percent, other.change_frequency_percent),
            cluster_number: pick_range(self.cluster_number, other.cluster_number),
            population_number: pick_range(self.population_number, other.population_number),
            underground_depth: pick_range(self.underground_depth, other.underground_depth),
            tile: if !other.tile.is_default() { other.tile.copy() } else { self.tile.copy() },
        }
    }

    /// This creature after copying the tags of `source`; see `copied_from`.
    pub fn copied_from(&self, source: &Creature) -> (r: Creature)
        ensures
            r@ == copied_from(self@, source@),
    {
        let base = source.overwritten_by(self);
        Creature {
            identifier: self.identifier.clone(),
            object_id: self.object_id.clone(),
            selected_creature: self.selected_creature.clone(),
            copy_tags_from: String::new(),
            ..base
        }
    }

    /// A copy of this creature.
    pub fn copy(&self) -> (r: Creature)
        ensures
            r@ == self@,
    {
        Creature {
            identifier: self.identifier.clone(),
            object_id: self.object_id.clone(),
            selected_creature: self.selected_creature.clone(),
            copy_tags_from: self.copy_tags_from.clone(),
            name: self.name.copy(),
            general_baby_name: self.general_baby_name.copy(),
            general_child_name: self.general_child_name.copy(),
            tags: copy_vec(&self.tags),
            castes: copy_castes(&self.castes),
            biomes: copy_strings(&self.biomes),
            pref_strings: copy_strings(&self.pref_strings),
            apply_creature_variation: copy_strings(&self.apply_creature_variation),
            frequency: self.frequency,
            change_frequency_percent: self.change_frequency_percent,
            cluster_number: self.cluster_number,
            population_number: self.population_number,
            underground_depth: self.underground_depth,
            tile: self.tile.copy(),
        }
    }
}

} // verus!
