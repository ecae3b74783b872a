//! The record builder: a state machine that turns the tokens of one creature
//! raw file into creature records.
use vstd::prelude::*;

use crate::caste::{caste_tag_for, caste_tag_of, caste_with_tag, new_caste, Caste, CasteModel, CasteTag};
use crate::creature::{
    caste_index, caste_views, creature_identifier, creature_tag_for, creature_tag_of,
    creature_with_tag, find_caste, new_creature, slug_of, Creature, CreatureModel,
};
use crate::text::{str_eq, views_of};
use crate::tokens::{scan, scan_line, token_views};
use crate::vocabulary::lemma_structural_keys_outside_vocabularies;

verus! {

broadcast use vstd::seq_lib::group_seq_properties;

/// Where the builder stands in a file.
#[derive(Clone, Copy, Debug, PartialEq, Eq, Structural)]
pub enum ParseState {
    /// No `[OBJECT:CREATURE]` token seen yet.
    NoObject,
    /// Inside a creature file.
    Building,
    /// The file declared a kind of object that is not supported: it yields
    /// no records and nothing more is read.
    Unsupported,
    /// The end of the file was reached.
    Done,
}

/// The builder of the records of one creature raw file.
pub struct CreatureFileBuilder {
    /// The file's own name, from its first line.
    pub file_name: String,
    pub state: ParseState,
    /// Whether a record is in progress.
    pub started: bool,
    /// The record in progress; its castes are kept apart until it is done.
    pub current: Creature,
    /// The caste in progress.
    pub caste: Caste,
    /// The finished castes of the record in progress.
    pub castes: Vec<Caste>,
    /// The finished records.
    pub results: Vec<Creature>,
}

/// What a `CreatureFileBuilder` holds.
pub struct BuilderModel {
    pub file_name: Seq<char>,
    pub state: ParseState,
    pub started: bool,
    pub current: CreatureModel,
    pub caste: CasteModel,
    pub castes: Seq<CasteModel>,
    pub results: Seq<CreatureModel>,
}

/// The models of a sequence of creatures.
pub open spec fn creature_views(v: Seq<Creature>) -> Seq<CreatureModel> {
    v.map_values(|c: Creature| c@)
}

impl View for CreatureFileBuilder {
    type V = BuilderModel;

    open spec fn view(&self) -> BuilderModel {
        BuilderModel {
            file_name: self.file_name@,
            state: self.state,
            started: self.started,
            current: self.current@,
            caste: self.caste@,
            castes: caste_views(self.castes@),
            results: creature_views(self.results@),
        }
    }
}

/// The name of the caste that receives tokens before any `CASTE` token.
pub open spec fn default_caste_name() -> Seq<char> {
    "ALL"@
}

/// A builder at the start of the file named `file_name`.
pub open spec fn initial_builder(file_name: Seq<char>) -> BuilderModel {
    BuilderModel {
        file_name,
        state: ParseState::NoObject,
        started: false,
        current: new_creature(Seq::empty(), Seq::empty()),
        caste: new_caste(default_caste_name()),
        castes: Seq::empty(),
        results: Seq::empty(),
    }
}

/// The record in progress with its castes, the caste in progress last.
pub open spec fn flushed(b: BuilderModel) -> CreatureModel {
    CreatureModel { castes: b.castes.push(b.caste), ..b.current }
}

/// A new record for a `CREATURE:id` token, or for a `SELECT_CREATURE:id`
/// token when `select` holds.
pub open spec fn record_for(file_name: Seq<char>, id: Seq<char>, select: bool) -> CreatureModel {
    CreatureModel {
        selected_creature: if select { id } else { Seq::empty() },
        ..new_creature(creature_identifier(file_name, slug_of(id)), id)
    }
}

/// The builder after a record-boundary token: the record in progress, if
/// any, is finished, and a new one begins with the default caste.
pub open spec fn begin_record(b: BuilderModel, id: Seq<char>, select: bool) -> BuilderModel {
    BuilderModel {
        started: true,
        results: if b.started { b.results.push(flushed(b)) } else { b.results },
        current: record_for(b.file_name, id, select),
        caste: new_caste(default_caste_name()),
        castes: Seq::empty(),
        ..b
    }
}

/// The builder after `SELECT_CASTE:name`: the caste in progress is
/// finished; a finished caste of that name is taken back out of the list to
/// be extended, or else a new caste of that name begins.
pub open spec fn select_caste(b: BuilderModel, name: Seq<char>) -> BuilderModel {
    let all = b.castes.push(b.caste);
    match caste_index(all, name) {
        Some(i) => BuilderModel { castes: all.remove(i), caste: all[i], ..b },
        None => BuilderModel { castes: all, caste: new_caste(name), ..b },
    }
}

/// The builder after one token.
pub open spec fn step(b: BuilderModel, key: Seq<char>, value: Seq<char>) -> BuilderModel {
    if b.state == ParseState::NoObject || b.state == ParseState::Building {
        if key == "OBJECT"@ {
            if value == "CREATURE"@ {
                BuilderModel { state: ParseState::Building, ..b }
            } else {
                BuilderModel { state: ParseState::Unsupported, results: Seq::empty(), ..b }
            }
        } else if b.state == ParseState::NoObject {
            b
        } else if key == "CREATURE"@ {
            begin_record(b, value, false)
        } else if key == "SELECT_CREATURE"@ {
            begin_record(b, value, true)
        } else if !b.started {
            b
        } else if key == "CASTE"@ {
            BuilderModel { castes: b.castes.push(b.caste), caste: new_caste(value), ..b }
        } else if key == "SELECT_CASTE"@ {
            select_caste(b, value)
        } else {
            match creature_tag_of(key) {
                Some(t) => BuilderModel { current: creature_with_tag(b.current, t, value), ..b },
                None => match caste_tag_of(key) {
                    Some(t) => BuilderModel { caste: caste_with_tag(b.caste, t, value), ..b },
                    None => b,
                },
            }
        }
    } else {
        b
    }
}

/// The builder after each of `tokens` in turn.
pub open spec fn run(b: BuilderModel, tokens: Seq<(Seq<char>, Seq<char>)>) -> BuilderModel
    decreases tokens.len(),
{
    if tokens.len() == 0 {
        b
    } else {
        run(step(b, tokens[0].0, tokens[0].1), tokens.drop_first())
    }
}

/// The builder at the end of the file: a record in progress is finished.
pub open spec fn finish(b: BuilderModel) -> BuilderModel {
    if b.state == ParseState::Building {
        BuilderModel {
            state: ParseState::Done,
            results: if b.started { b.results.push(flushed(b)) } else { b.results },
            ..b
        }
    } else if b.state == ParseState::NoObject {
        BuilderModel { state: ParseState::Done, ..b }
    } else {
        b
    }
}

/// The tokens of lines `i` onwards, in order.
pub open spec fn tokens_of_lines(lines: Seq<Seq<char>>, i: int) -> Seq<(Seq<char>, Seq<char>)>
    decreases lines.len() - i,
{
    if i < 0 || i >= lines.len() {
        Seq::empty()
    } else {
        scan(lines[i]) + tokens_of_lines(lines, i + 1)
    }
}

/// The records of a creature raw file: its first line names it, and the
/// tokens of the other lines drive the builder.
pub open spec fn creature_file_records(lines: Seq<Seq<char>>) -> Seq<CreatureModel> {
    if lines.len() == 0 {
        Seq::empty()
    } else {
        finish(run(initial_builder(lines[0]), tokens_of_lines(lines, 1))).results
    }
}

/// Once a file is found unsupported, no token changes the builder.
pub proof fn lemma_unsupported_is_final(b: BuilderModel, tokens: Seq<(Seq<char>, Seq<char>)>)
    requires
        b.state == ParseState::Unsupported,
    ensures
        run(b, tokens) == b,
    decreases tokens.len(),
{
    if tokens.len() > 0 {
        lemma_unsupported_is_final(step(b, tokens[0].0, tokens[0].1), tokens.drop_first());
    }
}

/// Running the builder over two lists of tokens in turn is running it over
/// both.
pub proof fn lemma_run_concat(
    b: BuilderModel,
    a: Seq<(Seq<char>, Seq<char>)>,
    c: Seq<(Seq<char>, Seq<char>)>,
)
    ensures
        run(b, a + c) == run(run(b, a), c),
    decreases a.len(),
{
    if a.len() == 0 {
        assert(a + c =~= c);
    } else {
        assert((a + c).drop_first() =~= a.drop_first() + c);
        assert((a + c)[0] == a[0]);
        lemma_run_concat(step(b, a[0].0, a[0].1), a.drop_first(), c);
    }
}

proof fn lemma_no_object_ignores(b: BuilderModel, tokens: Seq<(Seq<char>, Seq<char>)>)
    requires
        b.state == ParseState::NoObject,
        forall|k: int| 0 <= k < tokens.len() ==> (#[trigger] tokens[k]).0 != "OBJECT"@,
    ensures
        run(b, tokens) == b,
    decreases tokens.len(),
{
    if tokens.len() > 0 {
        lemma_no_object_ignores(b, tokens.drop_first());
    }
}

/// A file whose first `OBJECT` token names a kind other than `CREATURE`
/// yields no records, whatever follows.
pub proof fn lemma_unsupported_kind_yields_no_records(
    lines: Seq<Seq<char>>,
    before: Seq<(Seq<char>, Seq<char>)>,
    kind: Seq<char>,
    after: Seq<(Seq<char>, Seq<char>)>,
)
    requires
        lines.len() > 0,
        tokens_of_lines(lines, 1) == before + seq![("OBJECT"@, kind)] + after,
        forall|k: int| 0 <= k < before.len() ==> (#[trigger] before[k]).0 != "OBJECT"@,
        kind != "CREATURE"@,
    ensures
        creature_file_records(lines) == Seq::<CreatureModel>::empty(),
{
    let b0 = initial_builder(lines[0]);
    lemma_run_concat(b0, before, seq![("OBJECT"@, kind)] + after);
    assert(before + seq![("OBJECT"@, kind)] + after =~= before + (seq![("OBJECT"@, kind)] + after));
    lemma_no_object_ignores(b0, before);
    let b1 = step(b0, "OBJECT"@, kind);
    assert((seq![("OBJECT"@, kind)] + after).drop_first() =~= after);
    lemma_unsupported_is_final(b1, after);
}

/// Two record-boundary tokens in a row yield two records: the first holds
/// nothing but its empty default caste, and the one in progress before
/// them, if any, is finished first.
pub proof fn lemma_consecutive_boundaries(b: BuilderModel, first: Seq<char>, second: Seq<char>)
    requires
        b.state == ParseState::Building,
    ensures
        finish(step(step(b, "CREATURE"@, first), "CREATURE"@, second)).results == (if b.started {
            b.results.push(flushed(b))
        } else {
            b.results
        }).push(
            CreatureModel {
                castes: seq![new_caste(default_caste_name())],
                ..record_for(b.file_name, first, false)
            },
        ).push(
            CreatureModel {
                castes: seq![new_caste(default_caste_name())],
                ..record_for(b.file_name, second, false)
            },
        ),
{
    reveal_strlit("CREATURE");
    reveal_strlit("OBJECT");
    assert("CREATURE"@ != "OBJECT"@) by {
        assert("CREATURE"@.len() != "OBJECT"@.len());
    }
    let b1 = step(b, "CREATURE"@, first);
    let b2 = step(b1, "CREATURE"@, second);
    assert(Seq::<CasteModel>::empty().push(new_caste(default_caste_name())) =~= seq![
        new_caste(default_caste_name()),
    ]);
}


/// Selecting a finished caste by name takes it back out of the list to be
/// extended: after `SELECT_CASTE:name` and a caste flag, the record's castes
/// are the others in their order followed by that caste with the flag added.
/// The caste is not duplicated.
pub proof fn lemma_select_caste_extends(b: BuilderModel, name: Seq<char>, key: Seq<char>, tag: CasteTag)
    requires
        b.state == ParseState::Building,
        b.started,
        caste_index(b.castes.push(b.caste), name) is Some,
        caste_tag_of(key) == Some(tag),
        creature_tag_of(key) is None,
    ensures
        ({
            let all = b.castes.push(b.caste);
            let i = caste_index(all, name)->0;
            let after = flushed(step(step(b, "SELECT_CASTE"@, name), key, Seq::empty()));
            &&& after.castes == all.remove(i).push(
                CasteModel { tags: all[i].tags.push(tag), ..all[i] },
            )
            &&& after.castes.len() == all.len()
        }),
{
    lemma_structural_keys_outside_vocabularies();
    reveal_strlit("SELECT_CASTE");
    reveal_strlit("OBJECT");
    reveal_strlit("CREATURE");
    reveal_strlit("SELECT_CREATURE");
    reveal_strlit("CASTE");
    assert("SELECT_CASTE"@.len() != "OBJECT"@.len());
    assert("SELECT_CASTE"@.len() != "CREATURE"@.len());
    assert("SELECT_CASTE"@.len() != "SELECT_CREATURE"@.len());
    assert("SELECT_CASTE"@.len() != "CASTE"@.len());
    let all = b.castes.push(b.caste);
    crate::creature::lemma_caste_index_bounds(all, name);
}

/// The caste after each of `tokens` in turn, each key naming a tag of the
/// caste vocabulary.
pub open spec fn caste_after(c: CasteModel, tokens: Seq<(Seq<char>, Seq<char>)>) -> CasteModel
    decreases tokens.len(),
{
    if tokens.len() == 0 {
        c
    } else {
        let t = caste_tag_of(tokens[0].0);
        let next = match t {
            Some(tag) => caste_with_tag(c, tag, tokens[0].1),
            None => c,
        };
        caste_after(next, tokens.drop_first())
    }
}

proof fn lemma_caste_tokens_fill_caste(b: BuilderModel, tokens: Seq<(Seq<char>, Seq<char>)>)
    requires
        b.state == ParseState::Building,
        b.started,
        forall|k: int|
            0 <= k < tokens.len() ==> caste_tag_of((#[trigger] tokens[k]).0) is Some
                && creature_tag_of(tokens[k].0) is None,
    ensures
        run(b, tokens) == (BuilderModel { caste: caste_after(b.caste, tokens), ..b }),
    decreases tokens.len(),
{
    if tokens.len() > 0 {
        lemma_structural_keys_outside_vocabularies();
        let key = tokens[0].0;
        assert(caste_tag_of(key) is Some);
        let b1 = step(b, key, tokens[0].1);
        assert(b1 == (BuilderModel {
            caste: caste_with_tag(b.caste, caste_tag_of(key)->0, tokens[0].1),
            ..b
        }));
        assert forall|k: int| 0 <= k < tokens.drop_first().len() implies caste_tag_of(
            (#[trigger] tokens.drop_first()[k]).0,
        ) is Some && creature_tag_of(tokens.drop_first()[k].0) is None by {
            assert(tokens.drop_first()[k] == tokens[k + 1]);
        }
        lemma_caste_tokens_fill_caste(b1, tokens.drop_first());
    }
}

/// A file that declares creatures, starts one record and then holds only
/// tokens of the caste vocabulary yields exactly that one record, whose
/// single default caste holds what those tokens state, in order.
pub proof fn lemma_one_record_round_trip(
    lines: Seq<Seq<char>>,
    id: Seq<char>,
    body: Seq<(Seq<char>, Seq<char>)>,
)
    requires
        lines.len() > 0,
        tokens_of_lines(lines, 1) == seq![("OBJECT"@, "CREATURE"@), ("CREATURE"@, id)] + body,
        forall|k: int|
            0 <= k < body.len() ==> caste_tag_of((#[trigger] body[k]).0) is Some
                && creature_tag_of(body[k].0) is None,
    ensures
        creature_file_records(lines) == seq![
            CreatureModel {
                castes: seq![caste_after(new_caste(default_caste_name()), body)],
                ..record_for(lines[0], id, false)
            },
        ],
{
    reveal_strlit("OBJECT");
    reveal_strlit("CREATURE");
    assert("CREATURE"@.len() != "OBJECT"@.len());
    let head = seq![("OBJECT"@, "CREATURE"@), ("CREATURE"@, id)];
    let b0 = initial_builder(lines[0]);
    lemma_run_concat(b0, head, body);
    let b1 = step(b0, "OBJECT"@, "CREATURE"@);
    let b2 = step(b1, "CREATURE"@, id);
    assert(head.drop_first() =~= seq![("CREATURE"@, id)]);
    assert(head.drop_first().drop_first() =~= Seq::<(Seq<char>, Seq<char>)>::empty());
    assert(head[0] == ("OBJECT"@, "CREATURE"@));
    assert(head.drop_first()[0] == ("CREATURE"@, id));
    assert(run(b2, head.drop_first().drop_first()) == b2);
    assert(run(b1, head.drop_first()) == b2);
    assert(run(b0, head) == b2);
    lemma_caste_tokens_fill_caste(b2, body);
    assert(Seq::<CasteModel>::empty().push(caste_after(new_caste(default_caste_name()), body))
        =~= seq![caste_after(new_caste(default_caste_name()), body)]);
    assert(Seq::<CreatureModel>::empty().push(
        CreatureModel {
            castes: seq![caste_after(new_caste(default_caste_name()), body)],
            ..record_for(lines[0], id, false)
        },
    ) =~= seq![
        CreatureModel {
            castes: seq![caste_after(new_caste(default_caste_name()), body)],
            ..record_for(lines[0], id, false)
        },
    ]);
}

impl CreatureFileBuilder {
    /// A builder at the start of the file named `file_name`.
    pub fn new(file_name: &str) -> (r: CreatureFileBuilder)
        ensures
            r@ == initial_builder(file_name@),
    {
        let r = CreatureFileBuilder {
            file_name: String::from_str(file_name),
            state: ParseState::NoObject,
            started: false,
            current: Creature::with_identifier(String::new(), ""),
            caste: Caste::new("ALL"),
            castes: Vec::new(),
            results: Vec::new(),
        };
        proof {
            reveal_strlit("");
        }
        assert(r@.current == new_creature(Seq::empty(), Seq::empty())) by {
            assert(""@ =~= Seq::<char>::empty());
        }
        assert(r@.castes =~= Seq::<CasteModel>::empty());
        assert(r@.results =~= Seq::<CreatureModel>::empty());
        r
    }

    /// The record in progress with its castes; the builder keeps fresh ones.
    fn take_flushed(&mut self) -> (r: Creature)
        ensures
            r@ == flushed(old(self)@),
            final(self).file_name@ == old(self).file_name@,
            final(self).state == old(self).state,
            final(self).started == old(self).started,
            creature_views(final(self).results@) == creature_views(old(self).results@),
    {
        let mut caste = Caste::new("ALL");
        std::mem::swap(&mut self.caste, &mut caste);
        let mut castes: Vec<Caste> = Vec::new();
        std::mem::swap(&mut self.castes, &mut castes);
        let ghost cs = caste_views(castes@);
        let ghost cv = caste@;
        castes.push(caste);
        assert(caste_views(castes@) =~= cs.push(cv));
        let mut current = Creature::with_identifier(String::new(), "");
        std::mem::swap(&mut self.current, &mut current);
        current.castes = castes;
        current
    }

    fn begin(&mut self, id: &str, select: bool)
        requires
            old(self).state == ParseState::Building,
        ensures
            final(self)@ == begin_record(old(self)@, id@, select),
    {
        let ghost b = self@;
        if self.started {
            let done = self.take_flushed();
            let ghost rs = creature_views(self.results@);
            let ghost dv = done@;
            self.results.push(done);
            assert(creature_views(self.results@) =~= rs.push(dv));
        }
        let mut record = Creature::new(self.file_name.as_str(), id);
        if select {
            record.selected_creature = String::from_str(id);
        }
        self.current = record;
        self.caste = Caste::new("ALL");
        self.castes = Vec::new();
        self.started = true;
        assert(self@.castes =~= Seq::<CasteModel>::empty());
    }

    fn select(&mut self, name: &str)
        requires
            old(self).state == ParseState::Building,
        ensures
            final(self)@ == select_caste(old(self)@, name@),
    {
        let mut caste = Caste::new(name);
        std::mem::swap(&mut self.caste, &mut caste);
        let ghost cs = caste_views(self.castes@);
        let ghost cv = caste@;
        self.castes.push(caste);
        assert(caste_views(self.castes@) =~= cs.push(cv));
        match find_caste(&self.castes, name) {
            Some(i) => {
                let ghost all = caste_views(self.castes@);
                assert(self.castes@.remove(i as int).map_values(|c: Caste| c@) =~= all.remove(i as int));
                let found = self.castes.remove(i);
                assert(caste_views(self.castes@) =~= all.remove(i as int));
                self.caste = found;
            },
            None => {},
        }
    }

    /// Feeds one token to the builder.
    pub fn consume(&mut self, key: &str, value: &str)
        ensures
            final(self)@ == step(old(self)@, key@, value@),
    {
        if !(self.state == ParseState::NoObject || self.state == ParseState::Building) {
            return;
        }
        if str_eq(key, "OBJECT") {
            if str_eq(value, "CREATURE") {
                self.state = ParseState::Building;
            } else {
                self.state = ParseState::Unsupported;
                self.results = Vec::new();
                assert(self@.results =~= Seq::<CreatureModel>::empty());
            }
            return;
        }
        if self.state == ParseState::NoObject {
            return;
        }
        if str_eq(key, "CREATURE") {
            self.begin(value, false);
        } else if str_eq(key, "SELECT_CREATURE") {
            self.begin(value, true);
        } else if !self.started {
        } else if str_eq(key, "CASTE") {
            let mut caste = Caste::new(value);
            std::mem::swap(&mut self.caste, &mut caste);
            let ghost cs = caste_views(self.castes@);
            let ghost cv = caste@;
            self.castes.push(caste);
            assert(caste_views(self.castes@) =~= cs.push(cv));
        } else if str_eq(key, "SELECT_CASTE") {
            self.select(value);
        } else {
            match creature_tag_for(key) {
                Some(t) => self.current.apply_tag(t, value),
                None => match caste_tag_for(key) {
                    Some(t) => self.caste.apply_tag(t, value),
                    None => {},
                },
            }
        }
    }

    /// Ends the file and hands out the finished records.
    pub fn finish(&mut self) -> (r: Vec<Creature>)
        ensures
            creature_views(r@) == finish(old(self)@).results,
    {
        if self.state == ParseState::Building {
            if self.started {
                let done = self.take_flushed();
                let ghost rs = creature_views(self.results@);
                let ghost dv = done@;
                self.results.push(done);
                assert(creature_views(self.results@) =~= rs.push(dv));
            }
            self.state = ParseState::Done;
        } else if self.state == ParseState::NoObject {
            self.state = ParseState::Done;
        }
        let mut out: Vec<Creature> = Vec::new();
        std::mem::swap(&mut self.results, &mut out);
        out
    }
}

/// Parses the lines of one creature raw file into its records. The first
/// line is the file's name and is not scanned for tokens.
pub fn parse_creature_file(lines: &Vec<String>) -> (r: Vec<Creature>)
    ensures
        creature_views(r@) == creature_file_records(views_of(lines@)),
{
    if lines.len() == 0 {
        return Vec::new();
    }
    let ghost ls = views_of(lines@);
    let mut b = CreatureFileBuilder::new(lines[0].as_str());
    let ghost b0 = b@;
    let mut i: usize = 1;
    while i < lines.len() && b.state != ParseState::Unsupported
        invariant
            1 <= i <= lines@.len(),
            ls.len() == lines@.len(),
            ls == views_of(lines@),
            b0 == initial_builder(ls[0]),
            run(b0, tokens_of_lines(ls, 1)) == run(b@, tokens_of_lines(ls, i as int)),
        decreases lines@.len() - i,
    {
        let toks = scan_line(lines[i].as_str());
        let ghost rest = tokens_of_lines(ls, i as int + 1);
        assert(tokens_of_lines(ls, i as int) == scan(ls[i as int]) + rest);
        let mut j: usize = 0;
        while j < toks.len()
            invariant
                j <= toks@.len(),
                ls == views_of(lines@),
                b0 == initial_builder(ls[0]),
                run(b0, tokens_of_lines(ls, 1)) == run(
                    b@,
                    token_views(toks@).skip(j as int) + rest,
                ),
            decreases toks@.len() - j,
        {
            let ghost s = token_views(toks@).skip(j as int) + rest;
            assert(s[0] == toks@[j as int]@);
            assert(s.drop_first() =~= token_views(toks@).skip(j as int + 1) + rest);
            b.consume(toks[j].key.as_str(), toks[j].value.as_str());
            j = j + 1;
        }
        assert(token_views(toks@).skip(toks@.len() as int) + rest =~= rest);
        i = i + 1;
    }
    proof {
        if b.state == ParseState::Unsupported {
            lemma_unsupported_is_final(b@, tokens_of_lines(ls, i as int));
        } else {
            assert(tokens_of_lines(ls, i as int) =~= Seq::<(Seq<char>, Seq<char>)>::empty());
        }
    }
    b.finish()
}

} // verus!
