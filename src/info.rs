//! The module info file (`info.txt`) of a raw module.
use vstd::prelude::*;

use crate::builder::tokens_of_lines;
use crate::text::{parse_unsigned, parse_unsigned_str, str_eq, views_of};
use crate::tokens::{scan, scan_line, token_views};

verus! {

broadcast use vstd::seq_lib::group_seq_properties;

/// What one module's `info.txt` states about it.
pub struct ModuleInfoFile {
    pub identifier: String,
    /// The location the module was found in.
    pub sourced_directory: String,
    pub name: String,
    pub author: String,
    pub description: String,
    pub displayed_version: String,
    pub earliest_compatible_displayed_version: String,
    pub numeric_version: u32,
    pub earliest_compatible_numeric_version: u32,
}

/// What a `ModuleInfoFile` holds.
pub struct ModuleInfoModel {
    pub identifier: Seq<char>,
    pub sourced_directory: Seq<char>,
    pub name: Seq<char>,
    pub author: Seq<char>,
    pub description: Seq<char>,
    pub displayed_version: Seq<char>,
    pub earliest_compatible_displayed_version: Seq<char>,
    pub numeric_version: u32,
    pub earliest_compatible_numeric_version: u32,
}

impl View for ModuleInfoFile {
    type V = ModuleInfoModel;

    open spec fn view(&self) -> ModuleInfoModel {
        ModuleInfoModel {
            identifier: self.identifier@,
            sourced_directory: self.sourced_directory@,
            name: self.name@,
            author: self.author@,
            description: self.description@,
            displayed_version: self.displayed_version@,
            earliest_compatible_displayed_version: self.earliest_compatible_displayed_version@,
            numeric_version: self.numeric_version,
            earliest_compatible_numeric_version: self.earliest_compatible_numeric_version,
        }
    }
}

/// Module information with an identifier and a location and nothing else.
pub open spec fn new_info(identifier: Seq<char>, sourced_directory: Seq<char>) -> ModuleInfoModel {
    ModuleInfoModel {
        identifier,
        sourced_directory,
        name: Seq::empty(),
        author: Seq::empty(),
        description: Seq::empty(),
        displayed_version: Seq::empty(),
        earliest_compatible_displayed_version: Seq::empty(),
        numeric_version: 0,
        earliest_compatible_numeric_version: 0,
    }
}

/// The text left when every character that is not a digit is taken out,
/// as the `regex` crate does for the pattern `\D`.
pub uninterp spec fn without_non_digits(s: Seq<char>) -> Seq<char>;

/// Relies on `regex::Regex::replace_all` with the pattern `\D` and an empty
/// replacement: the result depends on the characters of `s` alone.
#[verifier::external_body]
fn remove_non_digits(s: &str) -> (r: String)
    ensures
        r@ == without_non_digits(s@),
{
    match regex::Regex::new(r"\D") {
        Ok(re) => re.replace_all(s, "").into_owned(),
        Err(_) => String::new(),
    }
}

/// A version number: the value itself as a `u32`, or else its digits alone.
pub open spec fn version_number(value: Seq<char>, digits: Seq<char>) -> Option<u32> {
    match parse_unsigned(value, 0xffff_ffff) {
        Some(n) => Some(n as u32),
        None => match parse_unsigned(digits, 0xffff_ffff) {
            Some(n) => Some(n as u32),
            None => None,
        },
    }
}

/// Reads a version number from `value`, falling back on `digits`, the
/// value with its non-digits taken out.
pub fn version_from_digits(value: &str, digits: &str) -> (r: Option<u32>)
    ensures
        r == version_number(value@, digits@),
{
    match parse_unsigned_str(value, 0xffff_ffff) {
        Some(n) => Some(n),
        None => parse_unsigned_str(digits, 0xffff_ffff),
    }
}

/// Reads a version number, keeping only the digits where the value holds
/// other characters too.
pub fn parse_version(value: &str) -> (r: Option<u32>)
    ensures
        r == version_number(value@, without_non_digits(value@)),
{
    match parse_unsigned_str(value, 0xffff_ffff) {
        Some(n) => Some(n),
        None => {
            let digits = remove_non_digits(value);
            version_from_digits(value, digits.as_str())
        },
    }
}

/// The module information after one token.
pub open spec fn info_step(m: ModuleInfoModel, key: Seq<char>, value: Seq<char>) -> ModuleInfoModel {
    if key == "ID"@ {
        new_info(value, m.sourced_directory)
    } else if key == "NUMERIC_VERSION"@ {
        match version_number(value, without_non_digits(value)) {
            Some(n) => ModuleInfoModel { numeric_version: n, ..m },
            None => m,
        }
    } else if key == "EARLIEST_COMPATIBLE_NUMERIC_VERSION"@ {
        match version_number(value, without_non_digits(value)) {
            Some(n) => ModuleInfoModel { earliest_compatible_numeric_version: n, ..m },
            None => m,
        }
    } else if key == "DISPLAYED_VERSION"@ {
        ModuleInfoModel { displayed_version: value, ..m }
    } else if key == "EARLIEST_COMPATIBLE_DISPLAYED_VERSION"@ {
        ModuleInfoModel { earliest_compatible_displayed_version: value, ..m }
    } else if key == "AUTHOR"@ {
        ModuleInfoModel { author: value, ..m }
    } else if key == "NAME"@ {
        ModuleInfoModel { name: value, ..m }
    } else if key == "DESCRIPTION"@ {
        ModuleInfoModel { description: value, ..m }
    } else {
        m
    }
}

/// The module information after each of `tokens` in turn.
pub open spec fn info_run(m: ModuleInfoModel, tokens: Seq<(Seq<char>, Seq<char>)>) -> ModuleInfoModel
    decreases tokens.len(),
{
    if tokens.len() == 0 {
        m
    } else {
        info_run(info_step(m, tokens[0].0, tokens[0].1), tokens.drop_first())
    }
}

/// What an `info.txt` with these lines states: every line is scanned.
pub open spec fn info_file_model(lines: Seq<Seq<char>>, sourced_directory: Seq<char>) -> ModuleInfoModel {
    info_run(new_info(Seq::empty(), sourced_directory), tokens_of_lines(lines, 0))
}

impl ModuleInfoFile {
    /// Module information with an identifier and a location and nothing else.
    pub fn new(identifier: &str, sourced_directory: &str) -> (r: ModuleInfoFile)
        ensures
            r@ == new_info(identifier@, sourced_directory@),
    {
        ModuleInfoFile {
            identifier: String::from_str(identifier),
            sourced_directory: String::from_str(sourced_directory),
            name: String::new(),
            author: String::new(),
            description: String::new(),
            displayed_version: String::new(),
            earliest_compatible_displayed_version: String::new(),
            numeric_version: 0,
            earliest_compatible_numeric_version: 0,
        }
    }

    /// Module information with nothing set.
    pub fn empty() -> (r: ModuleInfoFile)
        ensures
            r@ == new_info(Seq::empty(), Seq::empty()),
    {
        ModuleInfoFile::new_owned(String::new(), String::new())
    }

    fn new_owned(identifier: String, sourced_directory: String) -> (r: ModuleInfoFile)
        ensures
            r@ == new_info(identifier@, sourced_directory@),
    {
        ModuleInfoFile {
            identifier,
            sourced_directory,
            name: String::new(),
            author: String::new(),
            description: String::new(),
            displayed_version: String::new(),
            earliest_compatible_displayed_version: String::new(),
            numeric_version: 0,
            earliest_compatible_numeric_version: 0,
        }
    }

    pub fn get_identifier(&self) -> (r: &str)
        ensures
            r@ == self.identifier@,
    {
        self.identifier.as_str()
    }

    pub fn get_version(&self) -> (r: &str)
        ensures
            r@ == self.displayed_version@,
    {
        self.displayed_version.as_str()
    }

    pub fn get_sourced_directory(&self) -> (r: &str)
        ensures
            r@ == self.sourced_directory@,
    {
        self.sourced_directory.as_str()
    }

    /// Applies one token of an `info.txt`.
    pub fn parse_tag(&mut self, key: &str, value: &str)
        ensures
            final(self)@ == info_step(old(self)@, key@, value@),
    {
        if str_eq(key, "ID") {
            let dir = self.sourced_directory.clone();
            *self = ModuleInfoFile::new_owned(String::from_str(value), dir);
        } else if str_eq(key, "NUMERIC_VERSION") {
            if let Some(n) = parse_version(value) {
                self.numeric_version = n;
            }
        } else if str_eq(key, "EARLIEST_COMPATIBLE_NUMERIC_VERSION") {
            if let Some(n) = parse_version(value) {
                self.earliest_compatible_numeric_version = n;
            }
        } else if str_eq(key, "DISPLAYED_VERSION") {
            self.displayed_version = String::from_str(value);
        } else if str_eq(key, "EARLIEST_COMPATIBLE_DISPLAYED_VERSION") {
            self.earliest_compatible_displayed_version = String::from_str(value);
        } else if str_eq(key, "AUTHOR") {
            self.author = String::from_str(value);
        } else if str_eq(key, "NAME") {
            self.name = String::from_str(value);
        } else if str_eq(key, "DESCRIPTION") {
            self.description = String::from_str(value);
        }
    }
}

/// Parses the lines of an `info.txt` found in location `sourced_directory`.
pub fn parse_dfraw_module_info_file(lines: &Vec<String>, sourced_directory: &str) -> (r: ModuleInfoFile)
    ensures
        r@ == info_file_model(views_of(lines@), sourced_directory@),
{
    let ghost ls = views_of(lines@);
    let mut m = ModuleInfoFile::new("", sourced_directory);
    proof {
        reveal_strlit("");
        assert(""@ =~= Seq::<char>::empty());
    }
    let ghost m0 = m@;
    let mut i: usize = 0;
    while i < lines.len()
        invariant
            i <= lines@.len(),
            ls == views_of(lines@),
            ls.len() == lines@.len(),
            m0 == new_info(Seq::empty(), sourced_directory@),
            info_run(m0, tokens_of_lines(ls, 0)) == info_run(m@, tokens_of_lines(ls, i as int)),
        decreases lines@.len() - i,
    {
        let toks = scan_line(lines[i].as_str());
        let ghost rest = tokens_of_lines(ls, i as int + 1);
        assert(tokens_of_lines(ls, i as int) == scan(ls[i as int]) + rest);
        let mut j: usize = 0;
        while j < toks.len()
            invariant
                j <= toks@.len(),
                info_run(m0, tokens_of_lines(ls, 0)) == info_run(
                    m@,
                    token_views(toks@).skip(j as int) + rest,
                ),
            decreases toks@.len() - j,
        {
            let ghost s = token_views(toks@).skip(j as int) + rest;
            assert(s[0] == toks@[j as int]@);
            assert(s.drop_first() =~= token_views(toks@).skip(j as int + 1) + rest);
            m.parse_tag(toks[j].key.as_str(), toks[j].value.as_str());
            j = j + 1;
        }
        assert(token_views(toks@).skip(toks@.len() as int) + rest =~= rest);
        i = i + 1;
    }
    assert(tokens_of_lines(ls, i as int) =~= Seq::<(Seq<char>, Seq<char>)>::empty());
    m
}

} // verus!
