//! Plants: the records of a plant raw file, each with its materials.
use vstd::prelude::*;

use crate::builder::{tokens_of_lines, ParseState};
use crate::creature::{slug_of, slugify};
use crate::fields::{empty_name, empty_sing_plur, sing_plur_from, Name, NameModel, SingPlurModel, SingPlurName};
use crate::lists::copy_vec;
use crate::temperature::{no_temperatures, Temperatures};
use crate::text::{parse_unsigned, parse_unsigned_str, split_colon, split_on, str_eq, views_of};
use crate::tokens::{scan, scan_line, token_views};

verus! {

broadcast use vstd::seq_lib::group_seq_properties;

/// A key of the plant vocabulary.
#[derive(Clone, Copy, Debug, PartialEq, Eq, Hash, Structural)]
pub enum PlantKey {
    Biome,
    Growth,
    GrowthName,
    Name,
    NamePlural,
    Adjective,
    PrefString,
    Frequency,
    ClusterSize,
    GrowthDuration,
    Value,
}

/// The plant vocabulary: the key that a token names, if any.
pub open spec fn plant_key_of(key: Seq<char>) -> Option<PlantKey> {
    if key == "BIOME"@ {
        Some(PlantKey::Biome)
    } else if key == "GROWTH"@ {
        Some(PlantKey::Growth)
    } else if key == "GROWTH_NAME"@ {
        Some(PlantKey::GrowthName)
    } else if key == "NAME"@ {
        Some(PlantKey::Name)
    } else if key == "NAME_PLURAL"@ {
        Some(PlantKey::NamePlural)
    } else if key == "ADJ"@ {
        Some(PlantKey::Adjective)
    } else if key == "PREFSTRING"@ {
        Some(PlantKey::PrefString)
    } else if key == "FREQUENCY"@ {
        Some(PlantKey::Frequency)
    } else if key == "CLUSTERSIZE"@ {
        Some(PlantKey::ClusterSize)
    } else if key == "GROWDUR"@ {
        Some(PlantKey::GrowthDuration)
    } else if key == "VALUE"@ {
        Some(PlantKey::Value)
    } else {
        None
    }
}

/// Looks a key up in the vocabulary that `plant_key_of` states.
pub fn plant_key_for(key: &str) -> (r: Option<PlantKey>)
    ensures
        r == plant_key_of(key@),
{
    if str_eq(key, "BIOME") {
        return Some(PlantKey::Biome);
    }
    if str_eq(key, "GROWTH") {
        return Some(PlantKey::Growth);
    }
    if str_eq(key, "GROWTH_NAME") {
        return Some(PlantKey::GrowthName);
    }
    if str_eq(key, "NAME") {
        return Some(PlantKey::Name);
    }
    if str_eq(key, "NAME_PLURAL") {
        return Some(PlantKey::NamePlural);
    }
    if str_eq(key, "ADJ") {
        return Some(PlantKey::Adjective);
    }
    if str_eq(key, "PREFSTRING") {
        return Some(PlantKey::PrefString);
    }
    if str_eq(key, "FREQUENCY") {
        return Some(PlantKey::Frequency);
    }
    if str_eq(key, "CLUSTERSIZE") {
        return Some(PlantKey::ClusterSize);
    }
    if str_eq(key, "GROWDUR") {
        return Some(PlantKey::GrowthDuration);
    }
    if str_eq(key, "VALUE") {
        return Some(PlantKey::Value);
    }
    None
}

/// A key of the material vocabulary.
#[derive(Clone, Copy, Debug, PartialEq, Eq, Hash, Structural)]
pub enum MaterialKey {
    MaterialValue,
    EdibleVermin,
    EdibleRaw,
    EdibleCooked,
    StateName,
    StateAdj,
    StateNameAdj,
    StateColor,
    SpecificHeat,
    IgnitionPoint,
    MeltingPoint,
    BoilingPoint,
    HeatDamagePoint,
    ColdDamagePoint,
    MaterialFixedTemperature,
}

/// The material vocabulary: the key that a token names, if any.
pub open spec fn material_key_of(key: Seq<char>) -> Option<MaterialKey> {
    if key == "MATERIAL_VALUE"@ {
        Some(MaterialKey::MaterialValue)
    } else if key == "EDIBLE_VERMIN"@ {
        Some(MaterialKey::EdibleVermin)
    } else if key == "EDIBLE_RAW"@ {
        Some(MaterialKey::EdibleRaw)
    } else if key == "EDIBLE_COOKED"@ {
        Some(MaterialKey::EdibleCooked)
    } else if key == "STATE_NAME"@ {
        Some(MaterialKey::StateName)
    } else if key == "STATE_ADJ"@ {
        Some(MaterialKey::StateAdj)
    } else if key == "STATE_NAME_ADJ"@ {
        Some(MaterialKey::StateNameAdj)
    } else if key == "STATE_COLOR"@ {
        Some(MaterialKey::StateColor)
    } else if key == "SPEC_HEAT"@ {
        Some(MaterialKey::SpecificHeat)
    } else if key == "IGNITE_POINT"@ {
        Some(MaterialKey::IgnitionPoint)
    } else if key == "MELTING_POINT"@ {
        Some(MaterialKey::MeltingPoint)
    } else if key == "BOILING_POINT"@ {
        Some(MaterialKey::BoilingPoint)
    } else if key == "HEATDAM_POINT"@ {
        Some(MaterialKey::HeatDamagePoint)
    } else if key == "COLDDAM_POINT"@ {
        Some(MaterialKey::ColdDamagePoint)
    } else if key == "MAT_FIXED_TEMP"@ {
        Some(MaterialKey::MaterialFixedTemperature)
    } else {
        None
    }
}

/// Looks a key up in the vocabulary that `material_key_of` states.
pub fn material_key_for(key: &str) -> (r: Option<MaterialKey>)
    ensures
        r == material_key_of(key@),
{
    if str_eq(key, "MATERIAL_VALUE") {
        return Some(MaterialKey::MaterialValue);
    }
    if str_eq(key, "EDIBLE_VERMIN") {
        return Some(MaterialKey::EdibleVermin);
    }
    if str_eq(key, "EDIBLE_RAW") {
        return Some(MaterialKey::EdibleRaw);
    }
    if str_eq(key, "EDIBLE_COOKED") {
        return Some(MaterialKey::EdibleCooked);
    }
    if str_eq(key, "STATE_NAME") {
        return Some(MaterialKey::StateName);
    }
    if str_eq(key, "STATE_ADJ") {
        return Some(MaterialKey::StateAdj);
    }
    if str_eq(key, "STATE_NAME_ADJ") {
        return Some(MaterialKey::StateNameAdj);
    }
    if str_eq(key, "STATE_COLOR") {
        return Some(MaterialKey::StateColor);
    }
    if str_eq(key, "SPEC_HEAT") {
        return Some(MaterialKey::SpecificHeat);
    }
    if str_eq(key, "IGNITE_POINT") {
        return Some(MaterialKey::IgnitionPoint);
    }
    if str_eq(key, "MELTING_POINT") {
        return Some(MaterialKey::MeltingPoint);
    }
    if str_eq(key, "BOILING_POINT") {
        return Some(MaterialKey::BoilingPoint);
    }
    if str_eq(key, "HEATDAM_POINT") {
        return Some(MaterialKey::HeatDamagePoint);
    }
    if str_eq(key, "COLDDAM_POINT") {
        return Some(MaterialKey::ColdDamagePoint);
    }
    if str_eq(key, "MAT_FIXED_TEMP") {
        return Some(MaterialKey::MaterialFixedTemperature);
    }
    None
}

/// A kind of growth of a plant.
#[derive(Clone, Copy, Debug, PartialEq, Eq, Hash, Structural)]
pub enum PlantGrowth {
    /// No `GROWTH` token seen yet.
    Unspecified,
    Leaves,
    Flowers,
    Fruit,
    Spathes,
    Nut,
    SeedCatkins,
    PollenCatkins,
    Cone,
    SeedCone,
    PollenCone,
    Pod,
}

/// The growth that a `GROWTH` value names, if any.
pub open spec fn growth_of(key: Seq<char>) -> Option<PlantGrowth> {
    if key == "LEAVES"@ {
        Some(PlantGrowth::Leaves)
    } else if key == "FLOWERS"@ {
        Some(PlantGrowth::Flowers)
    } else if key == "FRUIT"@ {
        Some(PlantGrowth::Fruit)
    } else if key == "SPATHES"@ {
        Some(PlantGrowth::Spathes)
    } else if key == "NUT"@ {
        Some(PlantGrowth::Nut)
    } else if key == "SEED_CATKINS"@ {
        Some(PlantGrowth::SeedCatkins)
    } else if key == "POLLEN_CATKINS"@ {
        Some(PlantGrowth::PollenCatkins)
    } else if key == "CONE"@ {
        Some(PlantGrowth::Cone)
    } else if key == "SEED_CONE"@ {
        Some(PlantGrowth::SeedCone)
    } else if key == "POLLEN_CONE"@ {
        Some(PlantGrowth::PollenCone)
    } else if key == "POD"@ {
        Some(PlantGrowth::Pod)
    } else {
        None
    }
}

/// Looks a key up in the vocabulary that `growth_of` states.
pub fn growth_for(key: &str) -> (r: Option<PlantGrowth>)
    ensures
        r == growth_of(key@),
{
    if str_eq(key, "LEAVES") {
        return Some(PlantGrowth::Leaves);
    }
    if str_eq(key, "FLOWERS") {
        return Some(PlantGrowth::Flowers);
    }
    if str_eq(key, "FRUIT") {
        return Some(PlantGrowth::Fruit);
    }
    if str_eq(key, "SPATHES") {
        return Some(PlantGrowth::Spathes);
    }
    if str_eq(key, "NUT") {
        return Some(PlantGrowth::Nut);
    }
    if str_eq(key, "SEED_CATKINS") {
        return Some(PlantGrowth::SeedCatkins);
    }
    if str_eq(key, "POLLEN_CATKINS") {
        return Some(PlantGrowth::PollenCatkins);
    }
    if str_eq(key, "CONE") {
        return Some(PlantGrowth::Cone);
    }
    if str_eq(key, "SEED_CONE") {
        return Some(PlantGrowth::SeedCone);
    }
    if str_eq(key, "POLLEN_CONE") {
        return Some(PlantGrowth::PollenCone);
    }
    if str_eq(key, "POD") {
        return Some(PlantGrowth::Pod);
    }
    None
}

/// A flag of a material.
#[derive(Clone, Copy, Debug, PartialEq, Eq, Hash, Structural)]
pub enum MaterialTag {
    EdibleVermin,
    EdibleRaw,
    EdibleCooked,
}

/// A text given for each state of matter.
pub struct StateNames {
    pub solid: String,
    pub liquid: String,
    pub gas: String,
}

/// What a `StateNames` holds.
pub struct StateNamesModel {
    pub solid: Seq<char>,
    pub liquid: Seq<char>,
    pub gas: Seq<char>,
}

impl View for StateNames {
    type V = StateNamesModel;

    open spec fn view(&self) -> StateNamesModel {
        StateNamesModel { solid: self.solid@, liquid: self.liquid@, gas: self.gas@ }
    }
}

/// No text for any state.
pub open spec fn no_state_names() -> StateNamesModel {
    StateNamesModel { solid: Seq::empty(), liquid: Seq::empty(), gas: Seq::empty() }
}

/// The texts after a `STATE:TEXT` value: `SOLID` or `ALL_SOLID`, `LIQUID` or
/// `GAS` sets that state's text; another state, or a value that is not two
/// parts, changes nothing.
pub open spec fn state_names_with(s: StateNamesModel, value: Seq<char>) -> StateNamesModel {
    let parts = split_on(value, ':');
    if parts.len() != 2 {
        s
    } else if parts[0] == "SOLID"@ || parts[0] == "ALL_SOLID"@ {
        StateNamesModel { solid: parts[1], ..s }
    } else if parts[0] == "LIQUID"@ {
        StateNamesModel { liquid: parts[1], ..s }
    } else if parts[0] == "GAS"@ {
        StateNamesModel { gas: parts[1], ..s }
    } else {
        s
    }
}

impl StateNames {
    pub fn new() -> (r: StateNames)
        ensures
            r@ == no_state_names(),
    {
        StateNames { solid: String::new(), liquid: String::new(), gas: String::new() }
    }

    /// Applies a `STATE:TEXT` value; see `state_names_with`.
    pub fn set_from_value(&mut self, value: &str)
        ensures
            final(self)@ == state_names_with(old(self)@, value@),
    {
        let parts = split_colon(value);
        if parts.len() != 2 {
            return;
        }
        assert(views_of(parts@)[0] == parts@[0]@);
        assert(views_of(parts@)[1] == parts@[1]@);
        let state = parts[0].as_str();
        if str_eq(state, "SOLID") || str_eq(state, "ALL_SOLID") {
            self.solid = parts[1].clone();
        } else if str_eq(state, "LIQUID") {
            self.liquid = parts[1].clone();
        } else if str_eq(state, "GAS") {
            self.gas = parts[1].clone();
        }
    }
}

/// A material of a plant, named by the template it was built from.
pub struct Material {
    pub material_type: String,
    pub template: String,
    pub tags: Vec<MaterialTag>,
    pub material_value: u32,
    pub state_name: StateNames,
    pub state_adj: StateNames,
    pub state_color: StateNames,
    pub temperatures: Temperatures,
}

/// What a `Material` holds.
pub struct MaterialModel {
    pub material_type: Seq<char>,
    pub template: Seq<char>,
    pub tags: Seq<MaterialTag>,
    pub material_value: u32,
    pub state_name: StateNamesModel,
    pub state_adj: StateNamesModel,
    pub state_color: StateNamesModel,
    pub temperatures: Temperatures,
}

impl View for Material {
    type V = MaterialModel;

    open spec fn view(&self) -> MaterialModel {
        MaterialModel {
            material_type: self.material_type@,
            template: self.template@,
            tags: self.tags@,
            material_value: self.material_value,
            state_name: self.state_name@,
            state_adj: self.state_adj@,
            state_color: self.state_color@,
            temperatures: self.temperatures,
        }
    }
}

/// A material of the given type and template with nothing else set.
pub open spec fn new_material(material_type: Seq<char>, template: Seq<char>) -> MaterialModel {
    MaterialModel {
        material_type,
        template,
        tags: Seq::empty(),
        material_value: 0,
        state_name: no_state_names(),
        state_adj: no_state_names(),
        state_color: no_state_names(),
        temperatures: no_temperatures(),
    }
}

/// The material after a token of the material vocabulary. A flag is added
/// only for an empty value; a flag token with a value is ignored. A number
/// that does not parse keeps what the field held.
pub open spec fn material_with_key(m: MaterialModel, key: MaterialKey, value: Seq<char>) -> MaterialModel {
    match key {
        MaterialKey::MaterialValue => match parse_unsigned(value, 0xffff_ffff) {
            Some(n) => MaterialModel { material_value: n as u32, ..m },
            None => m,
        },
        MaterialKey::EdibleVermin => if value.len() == 0 {
            MaterialModel { tags: m.tags.push(MaterialTag::EdibleVermin), ..m }
        } else {
            m
        },
        MaterialKey::EdibleRaw => if value.len() == 0 {
            MaterialModel { tags: m.tags.push(MaterialTag::EdibleRaw), ..m }
        } else {
            m
        },
        MaterialKey::EdibleCooked => if value.len() == 0 {
            MaterialModel { tags: m.tags.push(MaterialTag::EdibleCooked), ..m }
        } else {
            m
        },
        MaterialKey::StateName => MaterialModel { state_name: state_names_with(m.state_name, value), ..m },
        MaterialKey::StateAdj => MaterialModel { state_adj: state_names_with(m.state_adj, value), ..m },
        MaterialKey::StateNameAdj => MaterialModel {
            state_name: state_names_with(m.state_name, value),
            state_adj: state_names_with(m.state_adj, value),
            ..m
        },
        MaterialKey::StateColor => MaterialModel { state_color: state_names_with(m.state_color, value), ..m },
            MaterialKey::SpecificHeat => match parse_unsigned(value, 0xffff_ffff) {
                Some(n) => MaterialModel { temperatures: Temperatures { specific_heat: n as u32, ..m.temperatures }, ..m },
                None => m,
            },
            MaterialKey::IgnitionPoint => match parse_unsigned(value, 0xffff_ffff) {
                Some(n) => MaterialModel { temperatures: Temperatures { ignition_point: n as u32, ..m.temperatures }, ..m },
                None => m,
            },
            MaterialKey::MeltingPoint => match parse_unsigned(value, 0xffff_ffff) {
                Some(n) => MaterialModel { temperatures: Temperatures { melting_point: n as u32, ..m.temperatures }, ..m },
                None => m,
            },
            MaterialKey::BoilingPoint => match parse_unsigned(value, 0xffff_ffff) {
                Some(n) => MaterialModel { temperatures: Temperatures { boiling_point: n as u32, ..m.temperatures }, ..m },
                None => m,
            },
            MaterialKey::HeatDamagePoint => match parse_unsigned(value, 0xffff_ffff) {
                Some(n) => MaterialModel { temperatures: Temperatures { heat_damage_point: n as u32, ..m.temperatures }, ..m },
                None => m,
            },
            MaterialKey::ColdDamagePoint => match parse_unsigned(value, 0xffff_ffff) {
                Some(n) => MaterialModel { temperatures: Temperatures { cold_damage_point: n as u32, ..m.temperatures }, ..m },
                None => m,
            },
            MaterialKey::MaterialFixedTemperature => match parse_unsigned(value, 0xffff_ffff) {
                Some(n) => MaterialModel { temperatures: Temperatures { material_fixed_temperature: n as u32, ..m.temperatures }, ..m },
                None => m,
            },
    }
}

impl Material {
    /// A material of the given type and template with nothing else set.
    pub fn new(material_type: &str, template: &str) -> (r: Material)
        ensures
            r@ == new_material(material_type@, template@),
    {
        Material {
            material_type: String::from_str(material_type),
            template: String::from_str(template),
            tags: Vec::new(),
            material_value: 0,
            state_name: StateNames::new(),
            state_adj: StateNames::new(),
            state_color: StateNames::new(),
            temperatures: Temperatures::new(),
        }
    }

    /// Applies a token of the material vocabulary.
    pub fn apply_key(&mut self, key: MaterialKey, value: &str)
        ensures
            final(self)@ == material_with_key(old(self)@, key, value@),
    {
        match key {
            MaterialKey::MaterialValue => {
                if let Some(n) = parse_unsigned_str(value, 0xffff_ffff) {
                    self.material_value = n;
                }
            },
            MaterialKey::EdibleVermin => {
                if value.is_empty() {
                    self.tags.push(MaterialTag::EdibleVermin);
                }
            },
            MaterialKey::EdibleRaw => {
                if value.is_empty() {
                    self.tags.push(MaterialTag::EdibleRaw);
                }
            },
            MaterialKey::EdibleCooked => {
                if value.is_empty() {
                    self.tags.push(MaterialTag::EdibleCooked);
                }
            },
            MaterialKey::StateName => self.state_name.set_from_value(value),
            MaterialKey::StateAdj => self.state_adj.set_from_value(value),
            MaterialKey::StateNameAdj => {
                self.state_name.set_from_value(value);
                self.state_adj.set_from_value(value);
            },
            MaterialKey::StateColor => self.state_color.set_from_value(value),
            MaterialKey::SpecificHeat => {
                if let Some(n) = parse_unsigned_str(value, 0xffff_ffff) {
                    self.temperatures.update_specific_heat(n);
                }
            },
            MaterialKey::IgnitionPoint => {
                if let Some(n) = parse_unsigned_str(value, 0xffff_ffff) {
                    self.temperatures.update_ignition_point(n);
                }
            },
            MaterialKey::MeltingPoint => {
                if let Some(n) = parse_unsigned_str(value, 0xffff_ffff) {
                    self.temperatures.update_melting_point(n);
                }
            },
            MaterialKey::BoilingPoint => {
                if let Some(n) = parse_unsigned_str(value, 0xffff_ffff) {
                    self.temperatures.update_boiling_point(n);
                }
            },
            MaterialKey::HeatDamagePoint => {
                if let Some(n) = parse_unsigned_str(value, 0xffff_ffff) {
                    self.temperatures.update_heat_damage_point(n);
                }
            },
            MaterialKey::ColdDamagePoint => {
                if let Some(n) = parse_unsigned_str(value, 0xffff_ffff) {
                    self.temperatures.update_cold_damage_point(n);
                }
            },
            MaterialKey::MaterialFixedTemperature => {
                if let Some(n) = parse_unsigned_str(value, 0xffff_ffff) {
                    self.temperatures.update_material_fixed_temperature(n);
                }
            },
        }
    }
}

/// The name a plant gives one of its growths.
pub struct GrowthName {
    pub growth: PlantGrowth,
    pub name: SingPlurName,
}

/// What a `GrowthName` holds.
pub struct GrowthNameModel {
    pub growth: PlantGrowth,
    pub name: SingPlurModel,
}

impl View for GrowthName {
    type V = GrowthNameModel;

    open spec fn view(&self) -> GrowthNameModel {
        GrowthNameModel { growth: self.growth, name: self.name@ }
    }
}

/// The index of the name of growth `g`, if any.
pub open spec fn growth_index(v: Seq<GrowthNameModel>, g: PlantGrowth) -> Option<int>
    decreases v.len(),
{
    if v.len() == 0 {
        None
    } else if v.last().growth == g {
        Some(v.len() - 1)
    } else {
        growth_index(v.drop_last(), g)
    }
}

/// The growth names with `g` named `n`: an earlier name of `g` is replaced.
pub open spec fn growth_names_with(v: Seq<GrowthNameModel>, g: PlantGrowth, n: SingPlurModel) -> Seq<GrowthNameModel> {
    match growth_index(v, g) {
        Some(i) => v.update(i, GrowthNameModel { growth: g, name: n }),
        None => v.push(GrowthNameModel { growth: g, name: n }),
    }
}

/// A plant, with its materials.
pub struct Plant {
    /// Unique within a set of files: the file's name, `PLANT` and the slug
    /// of the plant's id.
    pub identifier: String,
    pub object_id: String,
    pub name: Name,
    pub pref_strings: Vec<String>,
    pub biomes: Vec<String>,
    pub frequency: u32,
    pub cluster_size: u32,
    pub growth_duration: u32,
    pub value: u32,
    pub growth_names: Vec<GrowthName>,
    pub materials: Vec<Material>,
}

/// What a `Plant` holds.
pub struct PlantModel {
    pub identifier: Seq<char>,
    pub object_id: Seq<char>,
    pub name: NameModel,
    pub pref_strings: Seq<Seq<char>>,
    pub biomes: Seq<Seq<char>>,
    pub frequency: u32,
    pub cluster_size: u32,
    pub growth_duration: u32,
    pub value: u32,
    pub growth_names: Seq<GrowthNameModel>,
    pub materials: Seq<MaterialModel>,
}

/// The models of a sequence of growth names.
pub open spec fn growth_views(v: Seq<GrowthName>) -> Seq<GrowthNameModel> {
    v.map_values(|g: GrowthName| g@)
}

/// The models of a sequence of materials.
pub open spec fn material_views(v: Seq<Material>) -> Seq<MaterialModel> {
    v.map_values(|m: Material| m@)
}

impl View for Plant {
    type V = PlantModel;

    open spec fn view(&self) -> PlantModel {
        PlantModel {
            identifier: self.identifier@,
            object_id: self.object_id@,
            name: self.name@,
            pref_strings: views_of(self.pref_strings@),
            biomes: views_of(self.biomes@),
            frequency: self.frequency,
            cluster_size: self.cluster_size,
            growth_duration: self.growth_duration,
            value: self.value,
            growth_names: growth_views(self.growth_names@),
            materials: material_views(self.materials@),
        }
    }
}

/// The identifier of a plant record.
pub open spec fn plant_identifier(file_name: Seq<char>, slug: Seq<char>) -> Seq<char> {
    file_name + "-PLANT-"@ + slug
}

/// A plant with the given identifier and id and nothing else set.
pub open spec fn new_plant(identifier: Seq<char>, object_id: Seq<char>) -> PlantModel {
    PlantModel {
        identifier,
        object_id,
        name: empty_name(),
        pref_strings: Seq::empty(),
        biomes: Seq::empty(),
        frequency: 0,
        cluster_size: 0,
        growth_duration: 0,
        value: 0,
        growth_names: Seq::empty(),
        materials: Seq::empty(),
    }
}

impl Plant {
    /// A plant declared in file `file_name` with id `object_id`.
    pub fn new(file_name: &str, object_id: &str) -> (r: Plant)
        ensures
            r@ == new_plant(plant_identifier(file_name@, slug_of(object_id@)), object_id@),
    {
        let slug = slugify(object_id);
        let mut identifier = String::from_str(file_name);
        identifier.append("-PLANT-");
        identifier.append(slug.as_str());
        Plant::with_identifier(identifier, object_id)
    }

    /// A plant with the given identifier and id and nothing else set.
    pub fn with_identifier(identifier: String, object_id: &str) -> (r: Plant)
        ensures
            r@ == new_plant(identifier@, object_id@),
    {
        let r = Plant {
            identifier,
            object_id: String::from_str(object_id),
            name: Name::new(),
            pref_strings: Vec::new(),
            biomes: Vec::new(),
            frequency: 0,
            cluster_size: 0,
            growth_duration: 0,
            value: 0,
            growth_names: Vec::new(),
            materials: Vec::new(),
        };
        assert(r@.pref_strings =~= Seq::<Seq<char>>::empty());
        assert(r@.biomes =~= Seq::<Seq<char>>::empty());
        assert(r@.growth_names =~= Seq::<GrowthNameModel>::empty());
        assert(r@.materials =~= Seq::<MaterialModel>::empty());
        r
    }

    /// Names growth `g`, replacing an earlier name of it.
    pub fn set_growth_name(&mut self, g: PlantGrowth, value: &str)
        ensures
            final(self)@ == (PlantModel {
                growth_names: growth_names_with(old(self)@.growth_names, g, sing_plur_from(value@)),
                ..old(self)@
            }),
    {
        let name = SingPlurName::from_value(value);
        let ghost before = growth_views(self.growth_names@);
        let ghost nv = GrowthNameModel { growth: g, name: name@ };
        let mut i = self.growth_names.len();
        while i > 0
            invariant
                i <= self.growth_names@.len(),
                self@ == old(self)@,
                nv == (GrowthNameModel { growth: g, name: name@ }),
                name@ == sing_plur_from(value@),
                before == growth_views(self.growth_names@),
                growth_index(before, g) == growth_index(before.take(i as int), g),
            decreases i,
        {
            assert(before.take(i as int).drop_last() =~= before.take(i as int - 1));
            if self.growth_names[i - 1].growth == g {
                self.growth_names.set(i - 1, GrowthName { growth: g, name });
                assert(growth_views(self.growth_names@) =~= before.update(i - 1, nv));
                return;
            }
            i = i - 1;
        }
        self.growth_names.push(GrowthName { growth: g, name });
        assert(growth_views(self.growth_names@) =~= before.push(nv));
    }
}

/// What a `PlantFileBuilder` holds.
pub struct PlantBuilderModel {
    pub file_name: Seq<char>,
    pub state: ParseState,
    pub started: bool,
    pub growth: PlantGrowth,
    pub current: PlantModel,
    pub material: MaterialModel,
    pub materials: Seq<MaterialModel>,
    pub results: Seq<PlantModel>,
}

/// The builder of the records of one plant raw file.
pub struct PlantFileBuilder {
    pub file_name: String,
    pub state: ParseState,
    pub started: bool,
    /// The growth that `GROWTH_NAME` tokens name.
    pub growth: PlantGrowth,
    pub current: Plant,
    /// The material in progress; a plant starts with one of no type.
    pub material: Material,
    pub materials: Vec<Material>,
    pub results: Vec<Plant>,
}

/// The models of a sequence of plants.
pub open spec fn plant_views(v: Seq<Plant>) -> Seq<PlantModel> {
    v.map_values(|p: Plant| p@)
}

impl View for PlantFileBuilder {
    type V = PlantBuilderModel;

    open spec fn view(&self) -> PlantBuilderModel {
        PlantBuilderModel {
            file_name: self.file_name@,
            state: self.state,
            started: self.started,
            growth: self.growth,
            current: self.current@,
            material: self.material@,
            materials: material_views(self.materials@),
            results: plant_views(self.results@),
        }
    }
}

/// A plant builder at the start of the file named `file_name`.
pub open spec fn initial_plant_builder(file_name: Seq<char>) -> PlantBuilderModel {
    PlantBuilderModel {
        file_name,
        state: ParseState::NoObject,
        started: false,
        growth: PlantGrowth::Unspecified,
        current: new_plant(Seq::empty(), Seq::empty()),
        material: new_material(Seq::empty(), Seq::empty()),
        materials: Seq::empty(),
        results: Seq::empty(),
    }
}

/// The plant in progress with its materials, the one in progress last.
pub open spec fn plant_flushed(b: PlantBuilderModel) -> PlantModel {
    PlantModel { materials: b.materials.push(b.material), ..b.current }
}

/// The builder after a `PLANT:id` token.
pub open spec fn begin_plant(b: PlantBuilderModel, id: Seq<char>) -> PlantBuilderModel {
    PlantBuilderModel {
        started: true,
        results: if b.started { b.results.push(plant_flushed(b)) } else { b.results },
        current: new_plant(plant_identifier(b.file_name, slug_of(id)), id),
        material: new_material(Seq::empty(), Seq::empty()),
        materials: Seq::empty(),
        ..b
    }
}

/// The builder after `USE_MATERIAL_TEMPLATE:TYPE:TEMPLATE`: the material in
/// progress is finished and a new one begins; a value that is not two parts
/// begins a material of no type.
pub open spec fn use_template(b: PlantBuilderModel, value: Seq<char>) -> PlantBuilderModel {
    let parts = split_on(value, ':');
    PlantBuilderModel {
        materials: b.materials.push(b.material),
        material: if parts.len() == 2 {
            new_material(parts[0], parts[1])
        } else {
            new_material(Seq::empty(), Seq::empty())
        },
        ..b
    }
}

/// The plant after a token of the plant vocabulary, `growth` being the
/// growth that a `GROWTH_NAME` names. A number that does not parse keeps
/// what the field held.
pub open spec fn plant_with_key(p: PlantModel, growth: PlantGrowth, key: PlantKey, value: Seq<char>) -> PlantModel {
    match key {
        PlantKey::GrowthName => PlantModel {
            growth_names: growth_names_with(p.growth_names, growth, sing_plur_from(value)),
            ..p
        },
        PlantKey::Name => PlantModel { name: NameModel { singular: value, ..p.name }, ..p },
        PlantKey::NamePlural => PlantModel { name: NameModel { plural: value, ..p.name }, ..p },
        PlantKey::Adjective => PlantModel { name: NameModel { adjective: value, ..p.name }, ..p },
        PlantKey::PrefString => PlantModel { pref_strings: p.pref_strings.push(value), ..p },
        PlantKey::Biome => PlantModel { biomes: p.biomes.push(value), ..p },
        PlantKey::Frequency => match parse_unsigned(value, 0xffff_ffff) {
            Some(n) => PlantModel { frequency: n as u32, ..p },
            None => p,
        },
        PlantKey::ClusterSize => match parse_unsigned(value, 0xffff_ffff) {
            Some(n) => PlantModel { cluster_size: n as u32, ..p },
            None => p,
        },
        PlantKey::GrowthDuration => match parse_unsigned(value, 0xffff_ffff) {
            Some(n) => PlantModel { growth_duration: n as u32, ..p },
            None => p,
        },
        PlantKey::Value => match parse_unsigned(value, 0xffff_ffff) {
            Some(n) => PlantModel { value: n as u32, ..p },
            None => p,
        },
        PlantKey::Growth => p,
    }
}

/// The plant builder after one token.
pub open spec fn plant_step(b: PlantBuilderModel, key: Seq<char>, value: Seq<char>) -> PlantBuilderModel {
    if b.state == ParseState::NoObject || b.state == ParseState::Building {
        if key == "OBJECT"@ {
            if value == "PLANT"@ {
                PlantBuilderModel { state: ParseState::Building, ..b }
            } else {
                PlantBuilderModel { state: ParseState::Unsupported, results: Seq::empty(), ..b }
            }
        } else if b.state == ParseState::NoObject {
            b
        } else if key == "PLANT"@ {
            begin_plant(b, value)
        } else if !b.started {
            b
        } else if key == "USE_MATERIAL_TEMPLATE"@ {
            use_template(b, value)
        } else {
            match plant_key_of(key) {
                Some(PlantKey::Growth) => match growth_of(value) {
                    Some(g) => PlantBuilderModel { growth: g, ..b },
                    None => b,
                },
                Some(k) => PlantBuilderModel { current: plant_with_key(b.current, b.growth, k, value), ..b },
                None => match material_key_of(key) {
                    Some(k) => PlantBuilderModel { material: material_with_key(b.material, k, value), ..b },
                    None => b,
                },
            }
        }
    } else {
        b
    }
}

/// The plant builder after each of `tokens` in turn.
pub open spec fn plant_run(b: PlantBuilderModel, tokens: Seq<(Seq<char>, Seq<char>)>) -> PlantBuilderModel
    decreases tokens.len(),
{
    if tokens.len() == 0 {
        b
    } else {
        plant_run(plant_step(b, tokens[0].0, tokens[0].1), tokens.drop_first())
    }
}

/// The plant builder at the end of the file.
pub open spec fn plant_finish(b: PlantBuilderModel) -> PlantBuilderModel {
    if b.state == ParseState::Building {
        PlantBuilderModel {
            state: ParseState::Done,
            results: if b.started { b.results.push(plant_flushed(b)) } else { b.results },
            ..b
        }
    } else if b.state == ParseState::NoObject {
        PlantBuilderModel { state: ParseState::Done, ..b }
    } else {
        b
    }
}

/// The records of a plant raw file.
pub open spec fn plant_file_records(lines: Seq<Seq<char>>) -> Seq<PlantModel> {
    if lines.len() == 0 {
        Seq::empty()
    } else {
        plant_finish(plant_run(initial_plant_builder(lines[0]), tokens_of_lines(lines, 1))).results
    }
}

impl PlantFileBuilder {
    /// A builder at the start of the file named `file_name`.
    pub fn new(file_name: &str) -> (r: PlantFileBuilder)
        ensures
            r@ == initial_plant_builder(file_name@),
    {
        proof {
            reveal_strlit("");
            assert(""@ =~= Seq::<char>::empty());
        }
        let r = PlantFileBuilder {
            file_name: String::from_str(file_name),
            state: ParseState::NoObject,
            started: false,
            growth: PlantGrowth::Unspecified,
            current: Plant::with_identifier(String::new(), ""),
            material: Material::new("", ""),
            materials: Vec::new(),
            results: Vec::new(),
        };
        assert(r@.materials =~= Seq::<MaterialModel>::empty());
        assert(r@.results =~= Seq::<PlantModel>::empty());
        r
    }

    fn take_flushed(&mut self) -> (r: Plant)
        ensures
            r@ == plant_flushed(old(self)@),
            final(self).file_name@ == old(self).file_name@,
            final(self).state == old(self).state,
            final(self).started == old(self).started,
            final(self).growth == old(self).growth,
            plant_views(final(self).results@) == plant_views(old(self).results@),
    {
        let mut material = Material::new("", "");
        std::mem::swap(&mut self.material, &mut material);
        let mut materials: Vec<Material> = Vec::new();
        std::mem::swap(&mut self.materials, &mut materials);
        let ghost ms = material_views(materials@);
        let ghost mv = material@;
        materials.push(material);
        assert(material_views(materials@) =~= ms.push(mv));
        let mut current = Plant::with_identifier(String::new(), "");
        std::mem::swap(&mut self.current, &mut current);
        current.materials = materials;
        current
    }

    fn begin(&mut self, id: &str)
        requires
            old(self).state == ParseState::Building,
        ensures
            final(self)@ == begin_plant(old(self)@, id@),
    {
        if self.started {
            let done = self.take_flushed();
            let ghost rs = plant_views(self.results@);
            let ghost dv = done@;
            self.results.push(done);
            assert(plant_views(self.results@) =~= rs.push(dv));
        }
        self.current = Plant::new(self.file_name.as_str(), id);
        proof {
            reveal_strlit("");
            assert(""@ =~= Seq::<char>::empty());
        }
        self.material = Material::new("", "");
        self.materials = Vec::new();
        self.started = true;
        assert(self@.materials =~= Seq::<MaterialModel>::empty());
    }

    fn use_template(&mut self, value: &str)
        ensures
            final(self)@ == use_template(old(self)@, value@),
    {
        let parts = split_colon(value);
        proof {
            reveal_strlit("");
            assert(""@ =~= Seq::<char>::empty());
        }
        let mut next = if parts.len() == 2 {
            assert(views_of(parts@)[0] == parts@[0]@);
            assert(views_of(parts@)[1] == parts@[1]@);
            Material::new(parts[0].as_str(), parts[1].as_str())
        } else {
            Material::new("", "")
        };
        std::mem::swap(&mut self.material, &mut next);
        let ghost ms = material_views(self.materials@);
        let ghost mv = next@;
        self.materials.push(next);
        assert(material_views(self.materials@) =~= ms.push(mv));
    }

    fn apply_plant_key(&mut self, key: PlantKey, value: &str)
        requires
            key != PlantKey::Growth,
        ensures
            final(self)@ == (PlantBuilderModel {
                current: plant_with_key(old(self)@.current, old(self)@.growth, key, value@),
                ..old(self)@
            }),
    {
        match key {
            PlantKey::GrowthName => {
                let g = self.growth;
                self.current.set_growth_name(g, value);
            },
            PlantKey::Name => self.current.name.singular = String::from_str(value),
            PlantKey::NamePlural => self.current.name.plural = String::from_str(value),
            PlantKey::Adjective => self.current.name.adjective = String::from_str(value),
            PlantKey::PrefString => {
                let ghost before = self.current.pref_strings@;
                self.current.pref_strings.push(String::from_str(value));
                assert(views_of(self.current.pref_strings@) =~= views_of(before).push(value@));
            },
            PlantKey::Biome => {
                let ghost before = self.current.biomes@;
                self.current.biomes.push(String::from_str(value));
                assert(views_of(self.current.biomes@) =~= views_of(before).push(value@));
            },
            PlantKey::Frequency => {
                if let Some(n) = parse_unsigned_str(value, 0xffff_ffff) {
                    self.current.frequency = n;
                }
            },
            PlantKey::ClusterSize => {
                if let Some(n) = parse_unsigned_str(value, 0xffff_ffff) {
                    self.current.cluster_size = n;
                }
            },
            PlantKey::GrowthDuration => {
                if let Some(n) = parse_unsigned_str(value, 0xffff_ffff) {
                    self.current.growth_duration = n;
                }
            },
            PlantKey::Value => {
                if let Some(n) = parse_unsigned_str(value, 0xffff_ffff) {
                    self.current.value = n;
                }
            },
            PlantKey::Growth => {},
        }
    }

    /// Feeds one token to the builder.
    pub fn consume(&mut self, key: &str, value: &str)
        ensures
            final(self)@ == plant_step(old(self)@, key@, value@),
    {
        if !(self.state == ParseState::NoObject || self.state == ParseState::Building) {
            return;
        }
        if str_eq(key, "OBJECT") {
            if str_eq(value, "PLANT") {
                self.state = ParseState::Building;
            } else {
                self.state = ParseState::Unsupported;
                self.results = Vec::new();
                assert(self@.results =~= Seq::<PlantModel>::empty());
            }
            return;
        }
        if self.state == ParseState::NoObject {
            return;
        }
        if str_eq(key, "PLANT") {
            self.begin(value);
        } else if !self.started {
        } else if str_eq(key, "USE_MATERIAL_TEMPLATE") {
            self.use_template(value);
        } else {
            match plant_key_for(key) {
                Some(PlantKey::Growth) => {
                    if let Some(g) = growth_for(value) {
                        self.growth = g;
                    }
                },
                Some(k) => self.apply_plant_key(k, value),
                None => match material_key_for(key) {
                    Some(k) => self.material.apply_key(k, value),
                    None => {},
                },
            }
        }
    }

    /// Ends the file and hands out the finished records.
    pub fn finish(&mut self) -> (r: Vec<Plant>)
        ensures
            plant_views(r@) == plant_finish(old(self)@).results,
    {
        if self.state == ParseState::Building {
            if self.started {
                let done = self.take_flushed();
                let ghost rs = plant_views(self.results@);
                let ghost dv = done@;
                self.results.push(done);
                assert(plant_views(self.results@) =~= rs.push(dv));
            }
            self.state = ParseState::Done;
        } else if self.state == ParseState::NoObject {
            self.state = ParseState::Done;
        }
        let mut out: Vec<Plant> = Vec::new();
        std::mem::swap(&mut self.results, &mut out);
        out
    }
}

/// Once a file is found unsupported, no token changes the plant builder.
pub proof fn lemma_plant_unsupported_is_final(b: PlantBuilderModel, tokens: Seq<(Seq<char>, Seq<char>)>)
    requires
        b.state == ParseState::Unsupported,
    ensures
        plant_run(b, tokens) == b,
    decreases tokens.len(),
{
    if tokens.len() > 0 {
        lemma_plant_unsupported_is_final(plant_step(b, tokens[0].0, tokens[0].1), tokens.drop_first());
    }
}

/// Parses the lines of one plant raw file into its records. The first line
/// is the file's name and is not scanned for tokens.
pub fn parse(lines: &Vec<String>) -> (r: Vec<Plant>)
    ensures
        plant_views(r@) == plant_file_records(views_of(lines@)),
{
    if lines.len() == 0 {
        return Vec::new();
    }
    let ghost ls = views_of(lines@);
    let mut b = PlantFileBuilder::new(lines[0].as_str());
    let ghost b0 = b@;
    let mut i: usize = 1;
    while i < lines.len() && b.state != ParseState::Unsupported
        invariant
            1 <= i <= lines@.len(),
            ls.len() == lines@.len(),
            ls == views_of(lines@),
            b0 == initial_plant_builder(ls[0]),
            plant_run(b0, tokens_of_lines(ls, 1)) == plant_run(b@, tokens_of_lines(ls, i as int)),
        decreases lines@.len() - i,
    {
        let toks = scan_line(lines[i].as_str());
        let ghost rest = tokens_of_lines(ls, i as int + 1);
        assert(tokens_of_lines(ls, i as int) == scan(ls[i as int]) + rest);
        let mut j: usize = 0;
        while j < toks.len()
            invariant
                j <= toks@.len(),
                ls == views_of(lines@),
                b0 == initial_plant_builder(ls[0]),
                plant_run(b0, tokens_of_lines(ls, 1)) == plant_run(
                    b@,
                    token_views(toks@).skip(j as int) + rest,
                ),
            decreases toks@.len() - j,
        {
            let ghost s = token_views(toks@).skip(j as int) + rest;
            assert(s[0] == toks@[j as int]@);
            assert(s.drop_first() =~= token_views(toks@).skip(j as int + 1) + rest);
            b.consume(toks[j].key.as_str(), toks[j].value.as_str());
            j = j + 1;
        }
        assert(token_views(toks@).skip(toks@.len() as int) + rest =~= rest);
        i = i + 1;
    }
    proof {
        if b.state == ParseState::Unsupported {
            lemma_plant_unsupported_is_final(b@, tokens_of_lines(ls, i as int));
        } else {
            assert(tokens_of_lines(ls, i as int) =~= Seq::<(Seq<char>, Seq<char>)>::empty());
        }
    }
    b.finish()
}

} // verus!
