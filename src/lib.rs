//! Parses Dwarf Fortress raw definition files into structured records.
//!
//! A raw file is a sequence of text lines. Its first line names the file; every
//! later line holds zero or more bracketed tokens such as `[KEY]` or
//! `[KEY:VALUE]`. The library scans those tokens, dispatches each key through a
//! fixed vocabulary, and builds creature records with their castes, and plant
//! records with their materials. A resolution pass then applies
//! `SELECT_CREATURE` and `COPY_TAGS_FROM` directives across all parsed
//! creatures. A module's `info.txt` is parsed into its own record.
//!
//! Reading files, decoding them and writing results are left to the caller:
//! the library takes decoded lines and returns records.
use vstd::prelude::*;

pub mod text;
pub mod lists;
pub mod tokens;
pub mod fields;
pub mod temperature;
pub mod caste;
pub mod creature;
pub mod vocabulary;
pub mod builder;
pub mod resolver;
pub mod plant;
pub mod info;
pub mod options;
pub mod searchable;

pub use crate::searchable::build_search_string;

use crate::builder::{
    creature_file_records, creature_views, initial_builder, run, tokens_of_lines, CreatureFileBuilder,
};
use crate::creature::{Creature, CreatureModel};
use crate::info::{info_file_model, parse_dfraw_module_info_file, ModuleInfoFile};
use crate::plant::{
    initial_plant_builder, plant_file_records, plant_run, plant_views, Plant, PlantFileBuilder, PlantModel,
};
use crate::options::{is_info_job, ParserOptions, ParsingJob};
use crate::resolver::{absorb_from, absorb_select_creature, apply_copy_tags_from, copies_applied};
use crate::text::{str_eq, views_of};
use crate::tokens::{scan, scan_line, token_views};

verus! {

broadcast use vstd::seq_lib::group_seq_properties;

/// The kind of object a raw file declares with its `[OBJECT:...]` token.
#[derive(Clone, Copy, Debug, PartialEq, Eq, Structural)]
pub enum RawObjectKind {
    Creature,
    Plant,
    /// Any kind this library does not parse, or no `OBJECT` token at all.
    Unknown,
}

/// The kind that the first `OBJECT` token among `tokens` names.
pub open spec fn kind_of_tokens(tokens: Seq<(Seq<char>, Seq<char>)>) -> RawObjectKind
    decreases tokens.len(),
{
    if tokens.len() == 0 {
        RawObjectKind::Unknown
    } else if tokens[0].0 == "OBJECT"@ {
        if tokens[0].1 == "CREATURE"@ {
            RawObjectKind::Creature
        } else if tokens[0].1 == "PLANT"@ {
            RawObjectKind::Plant
        } else {
            RawObjectKind::Unknown
        }
    } else {
        kind_of_tokens(tokens.drop_first())
    }
}

/// The kind of object a raw file with these lines declares; its first line
/// is its name and is not scanned.
pub open spec fn raw_file_kind(lines: Seq<Seq<char>>) -> RawObjectKind {
    if lines.len() == 0 {
        RawObjectKind::Unknown
    } else {
        kind_of_tokens(tokens_of_lines(lines, 1))
    }
}

proof fn lemma_kind_of_concat(a: Seq<(Seq<char>, Seq<char>)>, b: Seq<(Seq<char>, Seq<char>)>)
    requires
        forall|k: int| 0 <= k < a.len() ==> (#[trigger] a[k]).0 != "OBJECT"@,
    ensures
        kind_of_tokens(a + b) == kind_of_tokens(b),
    decreases a.len(),
{
    if a.len() > 0 {
        assert((a + b).drop_first() =~= a.drop_first() + b);
        lemma_kind_of_concat(a.drop_first(), b);
    } else {
        assert(a + b =~= b);
    }
}

/// Reads the kind of object that a raw file declares.
pub fn read_raw_file_type(lines: &Vec<String>) -> (r: RawObjectKind)
    ensures
        r == raw_file_kind(views_of(lines@)),
{
    if lines.len() == 0 {
        return RawObjectKind::Unknown;
    }
    let ghost ls = views_of(lines@);
    let mut i: usize = 1;
    while i < lines.len()
        invariant
            1 <= i <= lines@.len(),
            ls == views_of(lines@),
            ls.len() == lines@.len(),
            kind_of_tokens(tokens_of_lines(ls, 1)) == kind_of_tokens(tokens_of_lines(ls, i as int)),
        decreases lines@.len() - i,
    {
        let toks = scan_line(lines[i].as_str());
        let ghost rest = tokens_of_lines(ls, i as int + 1);
        assert(tokens_of_lines(ls, i as int) == scan(ls[i as int]) + rest);
        assert(tokens_of_lines(ls, i as int) == token_views(toks@) + rest);
        let mut j: usize = 0;
        while j < toks.len()
            invariant
                j <= toks@.len(),
                ls == views_of(lines@),
                lines@.len() > 0,
                kind_of_tokens(tokens_of_lines(ls, 1)) == kind_of_tokens(token_views(toks@) + rest),
                forall|k: int| 0 <= k < j ==> (#[trigger] token_views(toks@)[k]).0 != "OBJECT"@,
            decreases toks@.len() - j,
        {
            if str_eq(toks[j].key.as_str(), "OBJECT") {
                let ghost tv = token_views(toks@);
                proof {
                    assert(tv =~= tv.take(j as int) + tv.skip(j as int));
                    lemma_kind_of_concat(tv.take(j as int), tv.skip(j as int) + rest);
                    assert(tv + rest =~= tv.take(j as int) + (tv.skip(j as int) + rest));
                    assert((tv.skip(j as int) + rest)[0] == toks@[j as int]@);
                }
                if str_eq(toks[j].value.as_str(), "CREATURE") {
                    return RawObjectKind::Creature;
                }
                if str_eq(toks[j].value.as_str(), "PLANT") {
                    return RawObjectKind::Plant;
                }
                return RawObjectKind::Unknown;
            }
            j = j + 1;
        }
        proof {
            lemma_kind_of_concat(token_views(toks@), rest);
        }
        i = i + 1;
    }
    assert(tokens_of_lines(ls, i as int) =~= Seq::<(Seq<char>, Seq<char>)>::empty());
    RawObjectKind::Unknown
}

/// The views of the lines of several files.
pub open spec fn files_view(files: Seq<Vec<String>>) -> Seq<Seq<Seq<char>>> {
    files.map_values(|f: Vec<String>| views_of(f@))
}

/// The creature records of several raw files, file after file.
pub open spec fn all_file_records(files: Seq<Seq<Seq<char>>>) -> Seq<CreatureModel>
    decreases files.len(),
{
    if files.len() == 0 {
        Seq::empty()
    } else {
        all_file_records(files.drop_last()) + creature_file_records(files.last())
    }
}

/// The plant records of several raw files, file after file.
pub open spec fn all_plant_records(files: Seq<Seq<Seq<char>>>) -> Seq<PlantModel>
    decreases files.len(),
{
    if files.len() == 0 {
        Seq::empty()
    } else {
        all_plant_records(files.drop_last()) + plant_file_records(files.last())
    }
}

/// The creatures that a parse of these files returns: none for a job that
/// asks for `info.txt` files; otherwise the creatures of all files with
/// selections absorbed and then, unless skipped, copies applied.
pub open spec fn parse_result(job: ParsingJob, skip_copies: bool, files: Seq<Seq<Seq<char>>>) -> Seq<CreatureModel> {
    if is_info_job(job) {
        Seq::empty()
    } else {
        let absorbed = absorb_from(all_file_records(files), 0);
        if skip_copies {
            absorbed
        } else {
            copies_applied(absorbed)
        }
    }
}

/// The plants that a parse of these files returns.
pub open spec fn plant_result(job: ParsingJob, files: Seq<Seq<Seq<char>>>) -> Seq<PlantModel> {
    if is_info_job(job) {
        Seq::empty()
    } else {
        all_plant_records(files)
    }
}

/// The records of a parse, by kind.
pub struct ParsedRaws {
    pub creatures: Vec<Creature>,
    pub plants: Vec<Plant>,
}

/// Parses the lines of one raw file, of whichever supported kind it
/// declares; each line is scanned once.
pub fn parse_raw_lines(lines: &Vec<String>) -> (r: ParsedRaws)
    ensures
        creature_views(r.creatures@) == creature_file_records(views_of(lines@)),
        plant_views(r.plants@) == plant_file_records(views_of(lines@)),
{
    if lines.len() == 0 {
        return ParsedRaws { creatures: Vec::new(), plants: Vec::new() };
    }
    let ghost ls = views_of(lines@);
    let mut cb = CreatureFileBuilder::new(lines[0].as_str());
    let mut pb = PlantFileBuilder::new(lines[0].as_str());
    let ghost creatures_start = cb@;
    let ghost plants_start = pb@;
    let mut i: usize = 1;
    while i < lines.len()
        invariant
            1 <= i <= lines@.len(),
            ls.len() == lines@.len(),
            ls == views_of(lines@),
            creatures_start == initial_builder(ls[0]),
            plants_start == initial_plant_builder(ls[0]),
            run(creatures_start, tokens_of_lines(ls, 1)) == run(cb@, tokens_of_lines(ls, i as int)),
            plant_run(plants_start, tokens_of_lines(ls, 1)) == plant_run(pb@, tokens_of_lines(ls, i as int)),
        decreases lines@.len() - i,
    {
        let toks = scan_line(lines[i].as_str());
        let ghost rest = tokens_of_lines(ls, i as int + 1);
        assert(tokens_of_lines(ls, i as int) == scan(ls[i as int]) + rest);
        let mut j: usize = 0;
        while j < toks.len()
            invariant
                j <= toks@.len(),
                run(creatures_start, tokens_of_lines(ls, 1)) == run(cb@, token_views(toks@).skip(j as int) + rest),
                plant_run(plants_start, tokens_of_lines(ls, 1)) == plant_run(
                    pb@,
                    token_views(toks@).skip(j as int) + rest,
                ),
            decreases toks@.len() - j,
        {
            let ghost s = token_views(toks@).skip(j as int) + rest;
            assert(s[0] == toks@[j as int]@);
            assert(s.drop_first() =~= token_views(toks@).skip(j as int + 1) + rest);
            cb.consume(toks[j].key.as_str(), toks[j].value.as_str());
            pb.consume(toks[j].key.as_str(), toks[j].value.as_str());
            j = j + 1;
        }
        assert(token_views(toks@).skip(toks@.len() as int) + rest =~= rest);
        i = i + 1;
    }
    assert(tokens_of_lines(ls, i as int) =~= Seq::<(Seq<char>, Seq<char>)>::empty());
    ParsedRaws { creatures: cb.finish(), plants: pb.finish() }
}

/// Parses the decoded lines of a set of raw files, as `options` asks.
pub fn parse(options: &ParserOptions, files: &Vec<Vec<String>>) -> (r: ParsedRaws)
    ensures
        creature_views(r.creatures@) == parse_result(options.job, options.skip_apply_copy_tags_from, files_view(files@)),
        plant_views(r.plants@) == plant_result(options.job, files_view(files@)),
{
    if options.job == ParsingJob::SingleModuleInfoFile || options.job == ParsingJob::AllModuleInfoFiles {
        return ParsedRaws { creatures: Vec::new(), plants: Vec::new() };
    }
    let ghost fs = files_view(files@);
    let mut creatures: Vec<Creature> = Vec::new();
    let mut plants: Vec<Plant> = Vec::new();
    let mut i: usize = 0;
    while i < files.len()
        invariant
            i <= files@.len(),
            fs == files_view(files@),
            creature_views(creatures@) == all_file_records(fs.take(i as int)),
            plant_views(plants@) == all_plant_records(fs.take(i as int)),
        decreases files@.len() - i,
    {
        let mut parsed = parse_raw_lines(&files[i]);
        let ghost before = creature_views(creatures@);
        let ghost added = creature_views(parsed.creatures@);
        let ghost plants_before = plant_views(plants@);
        let ghost plants_added = plant_views(parsed.plants@);
        creatures.append(&mut parsed.creatures);
        plants.append(&mut parsed.plants);
        assert(creature_views(creatures@) =~= before + added);
        assert(plant_views(plants@) =~= plants_before + plants_added);
        assert(fs.take(i as int + 1).drop_last() =~= fs.take(i as int));
        i = i + 1;
    }
    assert(fs.take(i as int) =~= fs);
    absorb_select_creature(&mut creatures);
    if !options.skip_apply_copy_tags_from {
        apply_copy_tags_from(&mut creatures);
    }
    ParsedRaws { creatures, plants }
}

/// Parses one module's `info.txt` when `options` asks for exactly that;
/// otherwise returns empty module information.
pub fn parse_module_info_file(options: &ParserOptions, lines: &Vec<String>, sourced_directory: &str) -> (r: ModuleInfoFile)
    ensures
        options.job == ParsingJob::SingleModuleInfoFile ==> r@ == info_file_model(views_of(lines@), sourced_directory@),
        options.job != ParsingJob::SingleModuleInfoFile ==> r@ == crate::info::new_info(Seq::empty(), Seq::empty()),
{
    if options.job == ParsingJob::SingleModuleInfoFile {
        parse_dfraw_module_info_file(lines, sourced_directory)
    } else {
        ModuleInfoFile::empty()
    }
}

/// The decoded lines of one `info.txt` and the location it was found in.
pub struct InfoFileText {
    pub lines: Vec<String>,
    pub sourced_directory: String,
}

/// Parses several `info.txt` files, as `options` asks: a job on a single raw
/// file has none.
pub fn parse_info_modules(options: &ParserOptions, files: &Vec<InfoFileText>) -> (r: Vec<ModuleInfoFile>)
    ensures
        options.job == ParsingJob::SingleRaw ==> r@.len() == 0,
        options.job != ParsingJob::SingleRaw ==> r@.len() == files@.len() && forall|k: int|
            0 <= k < r@.len() ==> (#[trigger] r@[k])@ == info_file_model(
                views_of(files@[k].lines@),
                files@[k].sourced_directory@,
            ),
{
    let mut out: Vec<ModuleInfoFile> = Vec::new();
    if options.job == ParsingJob::SingleRaw {
        return out;
    }
    let mut i: usize = 0;
    while i < files.len()
        invariant
            i <= files@.len(),
            out@.len() == i,
            forall|k: int| 0 <= k < i ==> (#[trigger] out@[k])@ == info_file_model(
                views_of(files@[k].lines@),
                files@[k].sourced_directory@,
            ),
        decreases files@.len() - i,
    {
        let m = parse_dfraw_module_info_file(&files[i].lines, files[i].sourced_directory.as_str());
        out.push(m);
        i = i + 1;
    }
    out
}

} // verus!
