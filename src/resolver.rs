//! Cross-reference resolution over all records of a set of files:
//! `SELECT_CREATURE` records are absorbed into the creatures they select, then
//! `COPY_TAGS_FROM` directives are applied.
use vstd::prelude::*;

use crate::builder::creature_views;
use crate::caste::{caste_overwritten, CasteModel};
use crate::creature::{caste_index, castes_absorbed, copied_from, creature_overwritten, Creature, CreatureModel};
use crate::fields::zero_range;
use crate::text::str_eq;

verus! {

broadcast use vstd::seq_lib::group_seq_properties;

/// The index of the first creature definition (not a selection) whose id
/// is `id`, if any.
pub open spec fn definition_index(rs: Seq<CreatureModel>, id: Seq<char>) -> Option<int>
    decreases rs.len(),
{
    if rs.len() == 0 {
        None
    } else {
        match definition_index(rs.drop_last(), id) {
            Some(k) => Some(k),
            None => if rs.last().selected_creature.len() == 0 && rs.last().object_id == id {
                Some(rs.len() - 1)
            } else {
                None
            },
        }
    }
}

/// The records after absorbing each selection record from index `i` on, in
/// order: a selection whose target exists overwrites it and leaves the
/// list; one whose target is missing stays as it is.
pub open spec fn absorb_from(rs: Seq<CreatureModel>, i: int) -> Seq<CreatureModel>
    decreases rs.len() - i,
    via absorb_from_decreases
{
    if i < 0 || i >= rs.len() {
        rs
    } else if rs[i].selected_creature.len() > 0 {
        match definition_index(rs, rs[i].selected_creature) {
            Some(t) => absorb_from(
                rs.update(t, creature_overwritten(rs[t], rs[i])).remove(i),
                i,
            ),
            None => absorb_from(rs, i + 1),
        }
    } else {
        absorb_from(rs, i + 1)
    }
}

#[via_fn]
proof fn absorb_from_decreases(rs: Seq<CreatureModel>, i: int) {
    if 0 <= i < rs.len() {
        lemma_definition_index_bounds(rs, rs[i].selected_creature);
    }
}

/// One pass of `COPY_TAGS_FROM` from index `i` on. A record whose source
/// exists and has no pending directive of its own takes the copy; one
/// whose source is missing drops its directive; one whose source still
/// waits is left for a later pass.
pub open spec fn copy_pass(rs: Seq<CreatureModel>, i: int) -> Seq<CreatureModel>
    decreases rs.len() - i,
{
    if i < 0 || i >= rs.len() {
        rs
    } else if rs[i].copy_tags_from.len() > 0 {
        match definition_index(rs, rs[i].copy_tags_from) {
            Some(j) => if j != i && rs[j].copy_tags_from.len() == 0 {
                copy_pass(rs.update(i, copied_from(rs[i], rs[j])), i + 1)
            } else {
                copy_pass(rs, i + 1)
            },
            None => copy_pass(
                rs.update(i, CreatureModel { copy_tags_from: Seq::empty(), ..rs[i] }),
                i + 1,
            ),
        }
    } else {
        copy_pass(rs, i + 1)
    }
}

/// `n` passes of `COPY_TAGS_FROM`.
pub open spec fn copy_rounds(rs: Seq<CreatureModel>, n: nat) -> Seq<CreatureModel>
    decreases n,
{
    if n == 0 {
        rs
    } else {
        copy_rounds(copy_pass(rs, 0), (n - 1) as nat)
    }
}

/// All `COPY_TAGS_FROM` directives applied: one pass per record, enough
/// for every chain; the members of a cycle keep their directive.
pub open spec fn copies_applied(rs: Seq<CreatureModel>) -> Seq<CreatureModel> {
    copy_rounds(rs, rs.len())
}

proof fn lemma_definition_index_bounds(rs: Seq<CreatureModel>, id: Seq<char>)
    ensures
        definition_index(rs, id) matches Some(k) ==> 0 <= k < rs.len() && rs[k].selected_creature.len()
            == 0 && rs[k].object_id == id,
    decreases rs.len(),
{
    if rs.len() > 0 {
        lemma_definition_index_bounds(rs.drop_last(), id);
    }
}

/// For two castes of the same name, the copy keeps each field that the
/// copying record's caste set and takes the source's where it left the
/// default.
pub proof fn lemma_copy_keeps_explicit_caste_fields(mine: CasteModel, source: CasteModel)
    ensures
        ({
            let c = caste_overwritten(source, mine);
            &&& c.difficulty == if mine.difficulty != 0 { mine.difficulty } else { source.difficulty }
            &&& c.egg_size == if mine.egg_size != 0 { mine.egg_size } else { source.egg_size }
            &&& c.baby == if mine.baby != 0 { mine.baby } else { source.baby }
            &&& c.child == if mine.child != 0 { mine.child } else { source.child }
            &&& c.grazer == if mine.grazer != 0 { mine.grazer } else { source.grazer }
            &&& c.pet_value == if mine.pet_value != 0 { mine.pet_value } else { source.pet_value }
            &&& c.pop_ratio == if mine.pop_ratio != 0 { mine.pop_ratio } else { source.pop_ratio }
            &&& c.low_light_vision == if mine.low_light_vision != 0 { mine.low_light_vision } else { source.low_light_vision }
            &&& c.grass_trample == if mine.grass_trample != 0 { mine.grass_trample } else { source.grass_trample }
            &&& c.clutch_size == if mine.clutch_size != zero_range() { mine.clutch_size } else { source.clutch_size }
            &&& c.litter_size == if mine.litter_size != zero_range() { mine.litter_size } else { source.litter_size }
            &&& c.max_age == if mine.max_age != zero_range() { mine.max_age } else { source.max_age }
            &&& c.description == if mine.description.len() > 0 { mine.description } else { source.description }
            &&& c.identifier == source.identifier
        }),
{
}

/// A record with one caste that copies from a record with one caste of the
/// same name ends with that single caste, merged as
/// `lemma_copy_keeps_explicit_caste_fields` states.
pub proof fn lemma_copy_single_caste(x: CreatureModel, y: CreatureModel)
    requires
        x.castes.len() == 1,
        y.castes.len() == 1,
        x.castes[0].identifier == y.castes[0].identifier,
    ensures
        copied_from(x, y).castes == seq![caste_overwritten(y.castes[0], x.castes[0])],
{
    assert(x.castes.drop_last() =~= Seq::<CasteModel>::empty());
    assert(castes_absorbed(y.castes, x.castes.drop_last()) == y.castes);
    assert(x.castes.last() == x.castes[0]);
    assert(caste_index(y.castes, x.castes[0].identifier) == Some(0int));
    assert(y.castes.update(0, caste_overwritten(y.castes[0], x.castes[0])) =~= seq![
        caste_overwritten(y.castes[0], x.castes[0]),
    ]);
}

/// In a set of two records where the first copies from the second, a
/// definition without a directive of its own, the first ends as the copy
/// and the second is unchanged.
pub proof fn lemma_copy_from_defined_source(x: CreatureModel, y: CreatureModel)
    requires
        x.selected_creature.len() == 0,
        y.selected_creature.len() == 0,
        x.copy_tags_from == y.object_id,
        y.object_id.len() > 0,
        x.object_id != y.object_id,
        y.copy_tags_from.len() == 0,
    ensures
        copies_applied(seq![x, y]) == seq![copied_from(x, y), y],
{
    let rs = seq![x, y];
    assert(rs.drop_last() =~= seq![x]);
    assert(seq![x].drop_last() =~= Seq::<CreatureModel>::empty());
    assert(definition_index(Seq::<CreatureModel>::empty(), x.copy_tags_from) is None);
    assert(definition_index(seq![x], x.copy_tags_from) is None);
    assert(definition_index(rs, x.copy_tags_from) == Some(1int));
    let r1 = rs.update(0, copied_from(x, y));
    assert(r1 =~= seq![copied_from(x, y), y]);
    assert(copy_pass(r1, 2) == r1);
    assert(copy_pass(r1, 1) == r1);
    assert(copy_pass(rs, 0) == r1);
    assert(copy_pass(r1, 0) == r1);
    assert(copy_rounds(r1, 0) == r1);
    assert(copy_rounds(r1, 1) == r1);
    assert(copy_rounds(rs, 2) == copy_rounds(r1, 1));
}

/// The index of the first creature definition whose id is `id`.
pub fn find_definition(rs: &Vec<Creature>, id: &str) -> (r: Option<usize>)
    ensures
        r matches Some(k) ==> definition_index(creature_views(rs@), id@) == Some(k as int)
            && k < rs@.len(),
        r is None ==> definition_index(creature_views(rs@), id@) is None,
{
    let ghost vs = creature_views(rs@);
    let mut k: usize = 0;
    while k < rs.len()
        invariant
            k <= rs@.len(),
            vs == creature_views(rs@),
            definition_index(vs.take(k as int), id@) is None,
        decreases rs@.len() - k,
    {
        assert(vs.take(k as int + 1).drop_last() =~= vs.take(k as int));
        if rs[k].selected_creature.as_str().is_empty() && str_eq(rs[k].object_id.as_str(), id) {
            proof {
                lemma_definition_index_prefix(vs, id@, k as int + 1);
            }
            return Some(k);
        }
        k = k + 1;
    }
    assert(vs.take(k as int) =~= vs);
    None
}

proof fn lemma_definition_index_prefix(rs: Seq<CreatureModel>, id: Seq<char>, n: int)
    requires
        0 <= n <= rs.len(),
        definition_index(rs.take(n), id) is Some,
    ensures
        definition_index(rs, id) == definition_index(rs.take(n), id),
    decreases rs.len() - n,
{
    if n < rs.len() {
        assert(rs.take(n + 1).drop_last() =~= rs.take(n));
        lemma_definition_index_prefix(rs, id, n + 1);
    } else {
        assert(rs.take(n) =~= rs);
    }
}

/// Absorbs every `SELECT_CREATURE` record into the creature it selects.
pub fn absorb_select_creature(records: &mut Vec<Creature>)
    ensures
        creature_views(final(records)@) == absorb_from(creature_views(old(records)@), 0),
{
    let ghost goal = absorb_from(creature_views(records@), 0);
    let mut i: usize = 0;
    while i < records.len()
        invariant
            i <= records@.len(),
            goal == absorb_from(creature_views(records@), i as int),
        decreases records@.len() - i,
    {
        let ghost vs = creature_views(records@);
        if records[i].selected_creature.as_str().is_empty() {
            i = i + 1;
        } else {
            let found = find_definition(records, records[i].selected_creature.as_str());
            match found {
                Some(t) => {
                    proof {
                        lemma_definition_index_bounds(vs, vs[i as int].selected_creature);
                    }
                    let merged = records[t].overwritten_by(&records[i]);
                    let ghost mv = merged@;
                    records.set(t, merged);
                    assert(creature_views(records@) =~= vs.update(t as int, mv));
                    let ghost vs2 = creature_views(records@);
                    records.remove(i);
                    assert(creature_views(records@) =~= vs2.remove(i as int));
                },
                None => {
                    i = i + 1;
                },
            }
        }
    }
    assert(absorb_from(creature_views(records@), i as int) == creature_views(records@));
}

fn copy_pass_exec(records: &mut Vec<Creature>)
    ensures
        creature_views(final(records)@) == copy_pass(creature_views(old(records)@), 0),
        final(records)@.len() == old(records)@.len(),
{
    let ghost goal = copy_pass(creature_views(records@), 0);
    let ghost n = records@.len();
    let mut i: usize = 0;
    while i < records.len()
        invariant
            i <= records@.len(),
            records@.len() == n,
            goal == copy_pass(creature_views(records@), i as int),
        decreases records@.len() - i,
    {
        let ghost vs = creature_views(records@);
        if !records[i].copy_tags_from.as_str().is_empty() {
            let found = find_definition(records, records[i].copy_tags_from.as_str());
            match found {
                Some(j) => {
                    if j != i && records[j].copy_tags_from.as_str().is_empty() {
                        let c = records[i].copied_from(&records[j]);
                        let ghost cv = c@;
                        records.set(i, c);
                        assert(creature_views(records@) =~= vs.update(i as int, cv));
                    }
                },
                None => {
                    let mut c = records[i].copy();
                    c.copy_tags_from = String::new();
                    let ghost cv = c@;
                    records.set(i, c);
                    assert(cv == (CreatureModel { copy_tags_from: Seq::empty(), ..vs[i as int] }));
                    assert(creature_views(records@) =~= vs.update(i as int, cv));
                },
            }
        }
        i = i + 1;
    }
}

/// Applies every `COPY_TAGS_FROM` directive whose source can be found; see
/// `copies_applied`.
pub fn apply_copy_tags_from(records: &mut Vec<Creature>)
    ensures
        creature_views(final(records)@) == copies_applied(creature_views(old(records)@)),
{
    let ghost goal = copies_applied(creature_views(records@));
    let n = records.len();
    let mut round: usize = 0;
    while round < n
        invariant
            round <= n,
            records@.len() == n,
            goal == copy_rounds(creature_views(records@), (n - round) as nat),
        decreases n - round,
    {
        copy_pass_exec(records);
        round = round + 1;
    }
}

} // verus!
