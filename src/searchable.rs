//! Search strings: the words of a record that a search should match.
use vstd::prelude::*;

use crate::builder::creature_views;
use crate::caste::{has_caste_tag, Caste, CasteModel, CasteTag};
use crate::creature::{caste_views, Creature, CreatureModel};
use crate::fields::{MilkableModel, Name, NameModel, SingPlurModel, SingPlurName};
use crate::plant::{Plant, PlantModel};
use crate::text::views_of;

verus! {

broadcast use vstd::seq_lib::group_seq_properties, vstd::seq::Seq::lemma_filter_push;

/// The character of a decimal digit.
pub open spec fn digit_char(d: nat) -> char {
    if d == 0 {
        '0'
    } else if d == 1 {
        '1'
    } else if d == 2 {
        '2'
    } else if d == 3 {
        '3'
    } else if d == 4 {
        '4'
    } else if d == 5 {
        '5'
    } else if d == 6 {
        '6'
    } else if d == 7 {
        '7'
    } else if d == 8 {
        '8'
    } else {
        '9'
    }
}

/// The decimal digits of `n`, without leading zeros.
pub open spec fn decimal_digits(n: nat) -> Seq<char>
    decreases n,
{
    if n < 10 {
        seq![digit_char(n)]
    } else {
        decimal_digits(n / 10).push(digit_char(n % 10))
    }
}

fn digit_str(d: u32) -> (r: &'static str)
    requires
        d < 10,
    ensures
        r@ == seq![digit_char(d as nat)],
{
    proof {
        reveal_strlit("0");
        reveal_strlit("1");
        reveal_strlit("2");
        reveal_strlit("3");
        reveal_strlit("4");
        reveal_strlit("5");
        reveal_strlit("6");
        reveal_strlit("7");
        reveal_strlit("8");
        reveal_strlit("9");
    }
    match d {
        0 => "0",
        1 => "1",
        2 => "2",
        3 => "3",
        4 => "4",
        5 => "5",
        6 => "6",
        7 => "7",
        8 => "8",
        9 => "9",
        _ => "9",
    }
}

/// `n` written in decimal.
pub fn decimal_string(n: u32) -> (r: String)
    ensures
        r@ == decimal_digits(n as nat),
    decreases n,
{
    if n < 10 {
        String::from_str(digit_str(n))
    } else {
        let mut s = decimal_string(n / 10);
        s.append(digit_str(n % 10));
        s
    }
}

/// The words that are not empty.
pub open spec fn nonempty(v: Seq<Seq<char>>) -> Seq<Seq<char>> {
    v.filter(|w: Seq<char>| w.len() > 0)
}

/// The forms of a name that are set.
pub open spec fn name_words(n: NameModel) -> Seq<Seq<char>> {
    nonempty(seq![n.singular, n.plural, n.adjective])
}

/// The forms of a singular and plural name that are set.
pub open spec fn sing_plur_words(n: SingPlurModel) -> Seq<Seq<char>> {
    nonempty(seq![n.singular, n.plural])
}

/// The words for milk production: the material and how often.
pub open spec fn milk_words(m: MilkableModel) -> Seq<Seq<char>> {
    seq![m.material, decimal_digits(m.frequency as nat)]
}

/// `words` if `cond` holds, else nothing.
pub open spec fn when(cond: bool, words: Seq<Seq<char>>) -> Seq<Seq<char>> {
    if cond {
        words
    } else {
        Seq::empty()
    }
}

/// The search words of a caste: its names, classes and description, then
/// words for what it does (eggs, milk, flight, gnawing, playability,
/// difficulty, pet value, speech and learning).
pub open spec fn caste_words(c: CasteModel) -> Seq<Seq<char>> {
    let has = |t: CasteTag| c.tags.contains(t);
    seq![c.identifier] + name_words(c.caste_name) + sing_plur_words(c.child_name)
        + sing_plur_words(c.baby_name) + c.creature_class + seq![c.description]
        + when(has(CasteTag::LaysEggs), seq!["eggs"@, decimal_digits(c.egg_size as nat)])
        + when(has(CasteTag::Milkable), seq!["milk"@] + milk_words(c.milkable))
        + when(has(CasteTag::Flier), seq!["flying flies flier"@])
        + when(has(CasteTag::Gnawer), seq!["gnawer"@])
        + when(has(CasteTag::OutsiderControllable), seq!["playable civilized"@])
        + when(c.difficulty > 0, seq![decimal_digits(c.difficulty as nat)])
        + when(c.pet_value > 0, seq![decimal_digits(c.pet_value as nat)])
        + when(has(CasteTag::Intelligent) || has(CasteTag::CanSpeak), seq!["speaks language"@])
        + when(has(CasteTag::Intelligent) || has(CasteTag::CanLearn), seq!["learns"@])
        + when(
            has(CasteTag::Intelligent) || (has(CasteTag::CanSpeak) && has(CasteTag::CanLearn)),
            seq!["intelligent"@],
        )
}

/// The search words of several castes, caste after caste.
pub open spec fn castes_words(cs: Seq<CasteModel>) -> Seq<Seq<char>>
    decreases cs.len(),
{
    if cs.len() == 0 {
        Seq::empty()
    } else {
        castes_words(cs.drop_last()) + caste_words(cs.last())
    }
}

/// The search words of a creature: its id, names, biomes and preferences,
/// then those of its castes.
pub open spec fn creature_words(c: CreatureModel) -> Seq<Seq<char>> {
    seq![c.object_id] + name_words(c.name) + sing_plur_words(c.general_baby_name)
        + sing_plur_words(c.general_child_name) + c.biomes + c.pref_strings + castes_words(c.castes)
}

/// The search words of a plant: its id, names, biomes and preferences.
pub open spec fn plant_words(p: PlantModel) -> Seq<Seq<char>> {
    seq![p.object_id] + name_words(p.name) + p.biomes + p.pref_strings
}

/// The words joined by single spaces.
pub open spec fn joined(ws: Seq<Seq<char>>) -> Seq<char>
    decreases ws.len(),
{
    if ws.len() == 0 {
        Seq::empty()
    } else if ws.len() == 1 {
        ws[0]
    } else {
        joined(ws.drop_last()) + seq![' '] + ws.last()
    }
}

/// The search string of a creature: its non-empty search words joined by
/// spaces.
pub open spec fn search_string(c: CreatureModel) -> Seq<char> {
    joined(nonempty(creature_words(c)))
}

fn push_word(v: &mut Vec<String>, w: String)
    ensures
        views_of(final(v)@) == views_of(old(v)@).push(w@),
{
    let ghost before = v@;
    v.push(w);
    assert(views_of(v@) =~= views_of(before).push(w@));
}

fn push_words(v: &mut Vec<String>, ws: Vec<String>)
    ensures
        views_of(final(v)@) == views_of(old(v)@) + views_of(ws@),
{
    let ghost before = views_of(v@);
    let mut i: usize = 0;
    while i < ws.len()
        invariant
            i <= ws@.len(),
            views_of(v@) == before + views_of(ws@.take(i as int)),
        decreases ws@.len() - i,
    {
        push_word(v, ws[i].clone());
        assert(views_of(ws@.take(i as int + 1)) =~= views_of(ws@.take(i as int)).push(ws@[i as int]@));
        i = i + 1;
    }
    assert(ws@.take(ws@.len() as int) =~= ws@);
}

fn push_if_set(v: &mut Vec<String>, s: &String)
    ensures
        views_of(final(v)@) == if s@.len() > 0 {
            views_of(old(v)@).push(s@)
        } else {
            views_of(old(v)@)
        },
{
    if !s.as_str().is_empty() {
        push_word(v, s.clone());
    }
}

fn name_word_list(n: &Name) -> (r: Vec<String>)
    ensures
        views_of(r@) == name_words(n@),
{
    let mut v: Vec<String> = Vec::new();
    assert(views_of(v@) =~= Seq::<Seq<char>>::empty());
    push_if_set(&mut v, &n.singular);
    push_if_set(&mut v, &n.plural);
    push_if_set(&mut v, &n.adjective);
    proof {
        reveal_with_fuel(Seq::<Seq<char>>::filter, 4);
        let abc = seq![n@.singular, n@.plural, n@.adjective];
        assert(abc.drop_last().drop_last().drop_last() =~= Seq::<Seq<char>>::empty());
        assert(abc.drop_last().drop_last() =~= seq![n@.singular]);
        assert(abc.drop_last() =~= seq![n@.singular, n@.plural]);
        assert(views_of(v@) =~= nonempty(abc));
    }
    v
}

fn sing_plur_word_list(n: &SingPlurName) -> (r: Vec<String>)
    ensures
        views_of(r@) == sing_plur_words(n@),
{
    let mut v: Vec<String> = Vec::new();
    assert(views_of(v@) =~= Seq::<Seq<char>>::empty());
    push_if_set(&mut v, &n.singular);
    push_if_set(&mut v, &n.plural);
    proof {
        reveal_with_fuel(Seq::<Seq<char>>::filter, 3);
        let ab = seq![n@.singular, n@.plural];
        assert(ab.drop_last().drop_last() =~= Seq::<Seq<char>>::empty());
        assert(ab.drop_last() =~= seq![n@.singular]);
        assert(views_of(v@) =~= nonempty(ab));
    }
    v
}

fn push_when(v: &mut Vec<String>, cond: bool, w: &str)
    ensures
        views_of(final(v)@) == views_of(old(v)@) + when(cond, seq![w@]),
{
    if cond {
        push_word(v, String::from_str(w));
        assert(views_of(old(v)@).push(w@) =~= views_of(old(v)@) + seq![w@]);
    } else {
        assert(views_of(v@) + when(cond, seq![w@]) =~= views_of(v@));
    }
}

fn push_number_when(v: &mut Vec<String>, n: u32)
    ensures
        views_of(final(v)@) == views_of(old(v)@) + when(n > 0, seq![decimal_digits(n as nat)]),
{
    if n > 0 {
        let s = decimal_string(n);
        push_word(v, s);
        assert(views_of(old(v)@).push(decimal_digits(n as nat)) =~= views_of(old(v)@) + seq![decimal_digits(n as nat)]);
    } else {
        assert(views_of(v@) + when(n > 0, seq![decimal_digits(n as nat)]) =~= views_of(v@));
    }
}

impl Caste {
    /// The search words of this caste; see `caste_words`.
    pub fn get_search_vec(&self) -> (r: Vec<String>)
        ensures
            views_of(r@) == caste_words(self@),
    {
        let eggs = self.is_egg_layer();
        let milk = self.is_milkable();
        let flier = has_caste_tag(&self.tags, CasteTag::Flier);
        let gnawer = has_caste_tag(&self.tags, CasteTag::Gnawer);
        let playable = has_caste_tag(&self.tags, CasteTag::OutsiderControllable);
        let intelligent = has_caste_tag(&self.tags, CasteTag::Intelligent);
        let speaks = has_caste_tag(&self.tags, CasteTag::CanSpeak);
        let learns = has_caste_tag(&self.tags, CasteTag::CanLearn);
        let mut v: Vec<String> = Vec::new();
        push_word(&mut v, self.identifier.clone());
        assert(views_of(v@) =~= seq![self@.identifier]);
        push_words(&mut v, name_word_list(&self.caste_name));
        push_words(&mut v, sing_plur_word_list(&self.child_name));
        push_words(&mut v, sing_plur_word_list(&self.baby_name));
        push_words(&mut v, crate::fields::copy_strings(&self.creature_class));
        push_word(&mut v, self.description.clone());
        let ghost before_eggs = views_of(v@);
        assert(before_eggs =~= seq![self@.identifier] + name_words(self@.caste_name)
            + sing_plur_words(self@.child_name) + sing_plur_words(self@.baby_name)
            + self@.creature_class + seq![self@.description]);
        if eggs {
            push_word(&mut v, String::from_str("eggs"));
            push_word(&mut v, decimal_string(self.egg_size));
        }
        assert(views_of(v@) =~= before_eggs + when(eggs, seq!["eggs"@, decimal_digits(self.egg_size as nat)]));
        let ghost before_milk = views_of(v@);
        if milk {
            push_word(&mut v, String::from_str("milk"));
            push_word(&mut v, self.milkable.material.clone());
            push_word(&mut v, decimal_string(self.milkable.frequency));
        }
        assert(views_of(v@) =~= before_milk + when(milk, seq!["milk"@] + milk_words(self@.milkable)));
        push_when(&mut v, flier, "flying flies flier");
        push_when(&mut v, gnawer, "gnawer");
        push_when(&mut v, playable, "playable civilized");
        push_number_when(&mut v, self.difficulty);
        push_number_when(&mut v, self.pet_value);
        push_when(&mut v, intelligent || speaks, "speaks language");
        push_when(&mut v, intelligent || learns, "learns");
        push_when(&mut v, intelligent || (speaks && learns), "intelligent");
        v
    }
}

fn castes_word_list(cs: &Vec<Caste>) -> (r: Vec<String>)
    ensures
        views_of(r@) == castes_words(caste_views(cs@)),
{
    let mut v: Vec<String> = Vec::new();
    let mut i: usize = 0;
    assert(views_of(v@) =~= castes_words(caste_views(cs@.take(0))));
    while i < cs.len()
        invariant
            i <= cs@.len(),
            views_of(v@) == castes_words(caste_views(cs@.take(i as int))),
        decreases cs@.len() - i,
    {
        push_words(&mut v, cs[i].get_search_vec());
        assert(caste_views(cs@.take(i as int + 1)).drop_last() =~= caste_views(cs@.take(i as int)));
        assert(caste_views(cs@.take(i as int + 1)).last() == cs@[i as int]@);
        i = i + 1;
    }
    assert(cs@.take(cs@.len() as int) =~= cs@);
    v
}

impl Creature {
    /// The search words of this creature; see `creature_words`.
    pub fn get_search_vec(&self) -> (r: Vec<String>)
        ensures
            views_of(r@) == creature_words(self@),
    {
        let mut v: Vec<String> = Vec::new();
        push_word(&mut v, self.object_id.clone());
        assert(views_of(v@) =~= seq![self@.object_id]);
        push_words(&mut v, name_word_list(&self.name));
        push_words(&mut v, sing_plur_word_list(&self.general_baby_name));
        push_words(&mut v, sing_plur_word_list(&self.general_child_name));
        push_words(&mut v, crate::fields::copy_strings(&self.biomes));
        push_words(&mut v, crate::fields::copy_strings(&self.pref_strings));
        push_words(&mut v, castes_word_list(&self.castes));
        v
    }
}

impl Plant {
    /// The search words of this plant; see `plant_words`.
    pub fn get_search_vec(&self) -> (r: Vec<String>)
        ensures
            views_of(r@) == plant_words(self@),
    {
        let mut v: Vec<String> = Vec::new();
        push_word(&mut v, self.object_id.clone());
        assert(views_of(v@) =~= seq![self@.object_id]);
        push_words(&mut v, name_word_list(&self.name));
        push_words(&mut v, crate::fields::copy_strings(&self.biomes));
        push_words(&mut v, crate::fields::copy_strings(&self.pref_strings));
        v
    }
}

/// The words joined by single spaces, empty words left out.
pub fn join_words(ws: &Vec<String>) -> (r: String)
    ensures
        r@ == joined(nonempty(views_of(ws@))),
{
    let mut out = String::new();
    let ghost done: Seq<Seq<char>> = Seq::empty();
    let mut i: usize = 0;
    let mut any = false;
    proof {
        reveal_strlit(" ");
    }
    while i < ws.len()
        invariant
            i <= ws@.len(),
            done == nonempty(views_of(ws@.take(i as int))),
            out@ == joined(done),
            any == (done.len() > 0),
            " "@ == seq![' '],
        decreases ws@.len() - i,
    {
        let ghost prefix = views_of(ws@.take(i as int + 1));
        assert(prefix.drop_last() =~= views_of(ws@.take(i as int)));
        assert(prefix.last() == ws@[i as int]@);
        assert(prefix =~= views_of(ws@.take(i as int)).push(ws@[i as int]@));
        if !ws[i].as_str().is_empty() {
            if any {
                out.append(" ");
            }
            out.append(ws[i].as_str());
            any = true;
            proof {
                let next = done.push(ws@[i as int]@);
                assert(next.drop_last() =~= done);
                if done.len() == 0 {
                    assert(out@ =~= joined(next));
                }
                done = next;
            }
        }
        i = i + 1;
    }
    assert(ws@.take(ws@.len() as int) =~= ws@);
    out
}

/// The search string of a creature: its non-empty search words joined by
/// spaces.
pub fn build_search_string(raw_object: &Creature) -> (r: String)
    ensures
        r@ == search_string(raw_object@),
{
    join_words(&raw_object.get_search_vec())
}

/// The search string of a plant: its non-empty search words joined by
/// spaces.
pub fn build_plant_search_string(plant: &Plant) -> (r: String)
    ensures
        r@ == joined(nonempty(plant_words(plant@))),
{
    join_words(&plant.get_search_vec())
}

} // verus!
