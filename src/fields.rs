//! The small value types that a token's value fills in: names, ranges, body
//! sizes, milk production and display tiles.
use vstd::prelude::*;
use vstd::string::*;

use crate::text::{parse_unsigned, parse_unsigned_str, split_colon, split_on, views_of};

verus! {

/// The `i`-th piece of a split value, or empty where there is none.
pub open spec fn piece(parts: Seq<Seq<char>>, i: int) -> Seq<char> {
    if 0 <= i < parts.len() {
        parts[i]
    } else {
        Seq::<char>::empty()
    }
}

fn piece_of(parts: &Vec<String>, i: usize) -> (r: String)
    ensures
        r@ == piece(views_of(parts@), i as int),
{
    if i < parts.len() {
        parts[i].clone()
    } else {
        String::new()
    }
}

/// A copy of a vector of strings.
pub fn copy_strings(v: &Vec<String>) -> (r: Vec<String>)
    ensures
        views_of(r@) == views_of(v@),
{
    let mut out: Vec<String> = Vec::new();
    let mut i: usize = 0;
    while i < v.len()
        invariant
            i <= v@.len(),
            views_of(out@) == views_of(v@.take(i as int)),
        decreases v@.len() - i,
    {
        let s = v[i].clone();
        let ghost old_out = out@;
        out.push(s);
        assert(views_of(out@) =~= views_of(old_out).push(s@));
        assert(v@.take(i as int + 1) =~= v@.take(i as int).push(v@[i as int]));
        assert(views_of(v@.take(i as int + 1)) =~= views_of(v@.take(i as int)).push(v@[i as int]@));
        i = i + 1;
    }
    assert(v@.take(v@.len() as int) =~= v@);
    out
}

/// A name with singular, plural and adjective forms.
pub struct Name {
    pub singular: String,
    pub plural: String,
    pub adjective: String,
}

/// What a `Name` holds.
pub struct NameModel {
    pub singular: Seq<char>,
    pub plural: Seq<char>,
    pub adjective: Seq<char>,
}

impl View for Name {
    type V = NameModel;

    open spec fn view(&self) -> NameModel {
        NameModel {
            singular: self.singular@,
            plural: self.plural@,
            adjective: self.adjective@,
        }
    }
}

/// The empty name.
pub open spec fn empty_name() -> NameModel {
    NameModel {
        singular: Seq::empty(),
        plural: Seq::empty(),
        adjective: Seq::empty(),
    }
}

/// The name that a `SINGULAR:PLURAL:ADJECTIVE` value gives.
pub open spec fn name_from(value: Seq<char>) -> NameModel {
    let parts = split_on(value, ':');
    NameModel { singular: piece(parts, 0), plural: piece(parts, 1), adjective: piece(parts, 2) }
}

impl Name {
    /// The empty name.
    pub fn new() -> (r: Name)
        ensures
            r@ == empty_name(),
    {
        Name { singular: String::new(), plural: String::new(), adjective: String::new() }
    }

    /// Reads a `SINGULAR:PLURAL:ADJECTIVE` value; missing parts stay empty.
    pub fn from_value(value: &str) -> (r: Name)
        ensures
            r@ == name_from(value@),
    {
        let parts = split_colon(value);
        Name {
            singular: piece_of(&parts, 0),
            plural: piece_of(&parts, 1),
            adjective: piece_of(&parts, 2),
        }
    }

    /// Whether every form is empty.
    pub fn is_empty(&self) -> (r: bool)
        ensures
            r == (self@ == empty_name()),
    {
        let r = self.singular.as_str().is_empty() && self.plural.as_str().is_empty()
            && self.adjective.as_str().is_empty();
        assert(r ==> self@.singular =~= Seq::<char>::empty() && self@.plural =~= Seq::<char>::empty()
            && self@.adjective =~= Seq::<char>::empty());
        r
    }

    /// A copy of this name.
    pub fn copy(&self) -> (r: Name)
        ensures
            r@ == self@,
    {
        Name {
            singular: self.singular.clone(),
            plural: self.plural.clone(),
            adjective: self.adjective.clone(),
        }
    }
}

/// A name with singular and plural forms.
pub struct SingPlurName {
    pub singular: String,
    pub plural: String,
}

/// What a `SingPlurName` holds.
pub struct SingPlurModel {
    pub singular: Seq<char>,
    pub plural: Seq<char>,
}

impl View for SingPlurName {
    type V = SingPlurModel;

    open spec fn view(&self) -> SingPlurModel {
        SingPlurModel { singular: self.singular@, plural: self.plural@ }
    }
}

/// The empty singular and plural name.
pub open spec fn empty_sing_plur() -> SingPlurModel {
    SingPlurModel { singular: Seq::empty(), plural: Seq::empty() }
}

/// The name that a `SINGULAR:PLURAL` value gives.
pub open spec fn sing_plur_from(value: Seq<char>) -> SingPlurModel {
    let parts = split_on(value, ':');
    SingPlurModel { singular: piece(parts, 0), plural: piece(parts, 1) }
}

impl SingPlurName {
    /// The empty name.
    pub fn new() -> (r: SingPlurName)
        ensures
            r@ == empty_sing_plur(),
    {
        SingPlurName { singular: String::new(), plural: String::new() }
    }

    /// Reads a `SINGULAR:PLURAL` value; missing parts stay empty.
    pub fn from_value(value: &str) -> (r: SingPlurName)
        ensures
            r@ == sing_plur_from(value@),
    {
        let parts = split_colon(value);
        SingPlurName { singular: piece_of(&parts, 0), plural: piece_of(&parts, 1) }
    }

    /// Whether both forms are empty.
    pub fn is_empty(&self) -> (r: bool)
        ensures
            r == (self@ == empty_sing_plur()),
    {
        let r = self.singular.as_str().is_empty() && self.plural.as_str().is_empty();
        assert(r ==> self@.singular =~= Seq::<char>::empty() && self@.plural =~= Seq::<char>::empty());
        r
    }

    /// A copy of this name.
    pub fn copy(&self) -> (r: SingPlurName)
        ensures
            r@ == self@,
    {
        SingPlurName { singular: self.singular.clone(), plural: self.plural.clone() }
    }
}

/// An inclusive range of small integers, written `MIN:MAX` in a raw file.
#[derive(Clone, Copy, Debug, PartialEq, Eq, Structural)]
pub struct MinMax {
    pub min: u16,
    pub max: u16,
}

/// The range `[0, 0]` that a field holds until it is set.
pub open spec fn zero_range() -> MinMax {
    MinMax { min: 0, max: 0 }
}

/// The range that a `MIN:MAX` value gives: exactly two parts, each a `u16`.
pub open spec fn range_from(value: Seq<char>) -> Option<MinMax> {
    let parts = split_on(value, ':');
    if parts.len() == 2 {
        match (parse_unsigned(parts[0], 0xffff), parse_unsigned(parts[1], 0xffff)) {
            (Some(a), Some(b)) => Some(MinMax { min: a as u16, max: b as u16 }),
            _ => None,
        }
    } else {
        None
    }
}

impl MinMax {
    /// The range `[0, 0]`.
    pub fn zero() -> (r: MinMax)
        ensures
            r == zero_range(),
    {
        MinMax { min: 0, max: 0 }
    }

    /// Whether this is the range `[0, 0]`.
    pub fn is_zero(&self) -> (r: bool)
        ensures
            r == (*self == zero_range()),
    {
        self.min == 0 && self.max == 0
    }
}

/// Reads a `MIN:MAX` range.
pub fn parse_min_max_range(value: &str) -> (r: Option<MinMax>)
    ensures
        r == range_from(value@),
{
    let parts = split_colon(value);
    if parts.len() != 2 {
        return None;
    }
    assert(views_of(parts@)[0] == parts@[0]@);
    assert(views_of(parts@)[1] == parts@[1]@);
    let a = parse_unsigned_str(parts[0].as_str(), 0xffff);
    let b = parse_unsigned_str(parts[1].as_str(), 0xffff);
    match (a, b) {
        (Some(x), Some(y)) => Some(MinMax { min: x as u16, max: y as u16 }),
        _ => None,
    }
}

/// The size of a creature from a given age on, written `YEARS:DAYS:SIZE`.
#[derive(Clone, Copy, Debug, PartialEq, Eq, Structural)]
pub struct BodySize {
    pub years: u32,
    pub days: u32,
    pub size_cm3: u32,
}

/// The body size that a `YEARS:DAYS:SIZE` value gives: exactly three parts,
/// each a `u32`.
pub open spec fn body_size_from(value: Seq<char>) -> Option<BodySize> {
    let parts = split_on(value, ':');
    if parts.len() == 3 {
        match (
            parse_unsigned(parts[0], 0xffff_ffff),
            parse_unsigned(parts[1], 0xffff_ffff),
            parse_unsigned(parts[2], 0xffff_ffff),
        ) {
            (Some(y), Some(d), Some(s)) => Some(
                BodySize { years: y as u32, days: d as u32, size_cm3: s as u32 },
            ),
            _ => None,
        }
    } else {
        None
    }
}

impl BodySize {
    /// Reads a `YEARS:DAYS:SIZE` value.
    pub fn from_value(value: &str) -> (r: Option<BodySize>)
        ensures
            r == body_size_from(value@),
    {
        let parts = split_colon(value);
        if parts.len() != 3 {
            return None;
        }
        assert(views_of(parts@)[0] == parts@[0]@);
        assert(views_of(parts@)[1] == parts@[1]@);
        assert(views_of(parts@)[2] == parts@[2]@);
        let y = parse_unsigned_str(parts[0].as_str(), 0xffff_ffff);
        let d = parse_unsigned_str(parts[1].as_str(), 0xffff_ffff);
        let s = parse_unsigned_str(parts[2].as_str(), 0xffff_ffff);
        match (y, d, s) {
            (Some(y), Some(d), Some(s)) => Some(BodySize { years: y, days: d, size_cm3: s }),
            _ => None,
        }
    }
}

/// How a creature can be milked: the material and how many ticks pass
/// between milkings.
pub struct Milkable {
    pub material: String,
    pub frequency: u32,
}

/// What a `Milkable` holds.
pub struct MilkableModel {
    pub material: Seq<char>,
    pub frequency: u32,
}

impl View for Milkable {
    type V = MilkableModel;

    open spec fn view(&self) -> MilkableModel {
        MilkableModel { material: self.material@, frequency: self.frequency }
    }
}

/// Milk information that was never set.
pub open spec fn no_milk() -> MilkableModel {
    MilkableModel { material: Seq::empty(), frequency: 0 }
}

/// The milk information that a `MATERIAL:STATE:FREQUENCY` value gives:
/// exactly three parts, the last a `u32`; the material keeps the first two
/// parts joined by a colon.
pub open spec fn milkable_from(value: Seq<char>) -> Option<MilkableModel> {
    let parts = split_on(value, ':');
    if parts.len() == 3 {
        match parse_unsigned(parts[2], 0xffff_ffff) {
            Some(f) => Some(
                MilkableModel { material: parts[0] + seq![':'] + parts[1], frequency: f as u32 },
            ),
            None => None,
        }
    } else {
        None
    }
}

impl Milkable {
    /// Milk information that was never set.
    pub fn new() -> (r: Milkable)
        ensures
            r@ == no_milk(),
    {
        Milkable { material: String::new(), frequency: 0 }
    }

    /// Reads a `MATERIAL:STATE:FREQUENCY` value.
    pub fn from_value(value: &str) -> (r: Option<Milkable>)
        ensures
            r matches Some(m) ==> milkable_from(value@) == Some(m@),
            r is None ==> milkable_from(value@) is None,
    {
        let parts = split_colon(value);
        if parts.len() != 3 {
            return None;
        }
        assert(views_of(parts@)[0] == parts@[0]@);
        assert(views_of(parts@)[1] == parts@[1]@);
        assert(views_of(parts@)[2] == parts@[2]@);
        match parse_unsigned_str(parts[2].as_str(), 0xffff_ffff) {
            Some(f) => {
                proof {
                    reveal_strlit(":");
                }
                let mut material = parts[0].clone();
                material.append(":");
                assert(material@ =~= parts@[0]@ + seq![':']);
                material.append(parts[1].as_str());
                assert(material@ =~= parts@[0]@ + seq![':'] + parts@[1]@);
                Some(Milkable { material, frequency: f })
            },
            None => None,
        }
    }

    /// Whether this was never set.
    pub fn is_default(&self) -> (r: bool)
        ensures
            r == (self@ == no_milk()),
    {
        let r = self.material.as_str().is_empty() && self.frequency == 0;
        assert(r ==> self@.material =~= Seq::<char>::empty());
        r
    }

    /// A copy of this milk information.
    pub fn copy(&self) -> (r: Milkable)
        ensures
            r@ == self@,
    {
        Milkable { material: self.material.clone(), frequency: self.frequency }
    }
}

/// How a creature is drawn: its tile characters and colours.
pub struct Tile {
    pub character: String,
    pub alt_character: String,
    pub color: String,
    pub glow_character: String,
    pub glow_color: String,
}

/// What a `Tile` holds.
pub struct TileModel {
    pub character: Seq<char>,
    pub alt_character: Seq<char>,
    pub color: Seq<char>,
    pub glow_character: Seq<char>,
    pub glow_color: Seq<char>,
}

impl View for Tile {
    type V = TileModel;

    open spec fn view(&self) -> TileModel {
        TileModel {
            character: self.character@,
            alt_character: self.alt_character@,
            color: self.color@,
            glow_character: self.glow_character@,
            glow_color: self.glow_color@,
        }
    }
}

/// A tile that was never set.
pub open spec fn empty_tile() -> TileModel {
    TileModel {
        character: Seq::empty(),
        alt_character: Seq::empty(),
        color: Seq::empty(),
        glow_character: Seq::empty(),
        glow_color: Seq::empty(),
    }
}

impl Tile {
    /// A tile that was never set.
    pub fn new() -> (r: Tile)
        ensures
            r@ == empty_tile(),
    {
        Tile {
            character: String::new(),
            alt_character: String::new(),
            color: String::new(),
            glow_character: String::new(),
            glow_color: String::new(),
        }
    }

    pub fn set_character(&mut self, value: &str)
        ensures
            final(self)@ == (TileModel { character: value@, ..old(self)@ }),
    {
        self.character = String::from_str(value);
    }

    pub fn set_alt_character(&mut self, value: &str)
        ensures
            final(self)@ == (TileModel { alt_character: value@, ..old(self)@ }),
    {
        self.alt_character = String::from_str(value);
    }

    pub fn set_color(&mut self, value: &str)
        ensures
            final(self)@ == (TileModel { color: value@, ..old(self)@ }),
    {
        self.color = String::from_str(value);
    }

    pub fn set_glow_character(&mut self, value: &str)
        ensures
            final(self)@ == (TileModel { glow_character: value@, ..old(self)@ }),
    {
        self.glow_character = String::from_str(value);
    }

    pub fn set_glow_color(&mut self, value: &str)
        ensures
            final(self)@ == (TileModel { glow_color: value@, ..old(self)@ }),
    {
        self.glow_color = String::from_str(value);
    }

    /// Whether nothing of the tile was set.
    pub fn is_default(&self) -> (r: bool)
        ensures
            r == (self@ == empty_tile()),
    {
        let r = self.character.as_str().is_empty() && self.alt_character.as_str().is_empty()
            && self.color.as_str().is_empty() && self.glow_character.as_str().is_empty()
            && self.glow_color.as_str().is_empty();
        assert(r ==> self@.character =~= Seq::<char>::empty() && self@.alt_character =~= Seq::<char>::empty()
            && self@.color =~= Seq::<char>::empty() && self@.glow_character =~= Seq::<char>::empty()
            && self@.glow_color =~= Seq::<char>::empty());
        r
    }

    /// A copy of this tile.
    pub fn copy(&self) -> (r: Tile)
        ensures
            r@ == self@,
    {
        Tile {
            character: self.character.clone(),
            alt_character: self.alt_character.clone(),
            color: self.color.clone(),
            glow_character: self.glow_character.clone(),
            glow_color: self.glow_color.clone(),
        }
    }
}

} // verus!
