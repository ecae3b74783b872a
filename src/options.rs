//! What a caller asks the parser to do.
use vstd::prelude::*;

verus! {

/// Where a raw module lives in a game directory.
#[derive(Clone, Copy, Debug, PartialEq, Eq, Structural)]
pub enum RawModuleLocation {
    /// `data/vanilla`: the game's own modules.
    Vanilla,
    /// `data/installed_mods`: workshop modules used by a world.
    InstalledMods,
    /// `mods`: workshop modules available for new worlds.
    Mods,
    Unknown,
}

/// What a parse covers.
#[derive(Clone, Copy, Debug, PartialEq, Eq, Structural)]
pub enum ParsingJob {
    /// Every chosen location of a game directory.
    All,
    /// The first chosen location of a game directory.
    SingleLocation,
    /// One module directory.
    SingleModule,
    /// One raw file.
    SingleRaw,
    /// One module's `info.txt`.
    SingleModuleInfoFile,
    /// The `info.txt` of every module in the chosen locations.
    AllModuleInfoFiles,
}

/// The options of a parse.
pub struct ParserOptions {
    /// The game directory, module directory or file to parse.
    pub target_path: String,
    /// Where results are written.
    pub output_path: String,
    pub job: ParsingJob,
    pub locations_to_parse: Vec<RawModuleLocation>,
    /// Leaves `COPY_TAGS_FROM` directives unapplied.
    pub skip_apply_copy_tags_from: bool,
}

/// Whether a job asks for `info.txt` files rather than raws.
pub open spec fn is_info_job(job: ParsingJob) -> bool {
    job == ParsingJob::SingleModuleInfoFile || job == ParsingJob::AllModuleInfoFiles
}

impl ParserOptions {
    /// Options for `job` on `target_path`, with the three locations chosen and
    /// copies applied.
    pub fn new(target_path: &str, job: ParsingJob) -> (r: ParserOptions)
        ensures
            r.target_path@ == target_path@,
            r.output_path@ == Seq::<char>::empty(),
            r.job == job,
            r.locations_to_parse@ == seq![
                RawModuleLocation::Vanilla,
                RawModuleLocation::InstalledMods,
                RawModuleLocation::Mods,
            ],
            !r.skip_apply_copy_tags_from,
    {
        let mut locations: Vec<RawModuleLocation> = Vec::new();
        locations.push(RawModuleLocation::Vanilla);
        locations.push(RawModuleLocation::InstalledMods);
        locations.push(RawModuleLocation::Mods);
        assert(locations@ =~= seq![
            RawModuleLocation::Vanilla,
            RawModuleLocation::InstalledMods,
            RawModuleLocation::Mods,
        ]);
        ParserOptions {
            target_path: String::from_str(target_path),
            output_path: String::new(),
            job,
            locations_to_parse: locations,
            skip_apply_copy_tags_from: false,
        }
    }
}

} // verus!
