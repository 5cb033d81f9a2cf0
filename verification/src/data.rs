use vstd::prelude::*;
use vstd::string::*;
use crate::config::DataConfig;
use crate::text::str_eq;
use crate::config::string_views;
use crate::hooks::Detour;

verus! {

/// The base archives the client opens at start-up, in the client's order.
pub open spec fn base_archive_names_spec() -> Seq<Seq<char>> {
    seq![
        "model.MPQ"@,
        "texture.MPQ"@,
        "terrain.MPQ"@,
        "wmo.MPQ"@,
        "sound.MPQ"@,
        "misc.MPQ"@,
        "interface.MPQ"@,
        "fonts.MPQ"@,
        "speech.MPQ"@,
        "dbc.MPQ"@,
    ]
}

/// The client's base archive names.
pub fn base_archive_names() -> (res: Vec<&'static str>)
    ensures
        res@.map_values(|s: &str| s@) == base_archive_names_spec(),
{
    let res: Vec<&'static str> = vec![
        "model.MPQ",
        "texture.MPQ",
        "terrain.MPQ",
        "wmo.MPQ",
        "sound.MPQ",
        "misc.MPQ",
        "interface.MPQ",
        "fonts.MPQ",
        "speech.MPQ",
        "dbc.MPQ",
    ];
    assert(res@.map_values(|s: &str| s@) =~= base_archive_names_spec());
    res
}

/// Position of a base archive among the client's base archives (the first
/// position holding that name), or `None` for any other archive name.
pub fn base_archive_index(name: &str) -> (res: Option<u32>)
    ensures
        match res {
            Some(i) => base_archive_names_spec().index_of_first(name@) == Some(i as int),
            None => base_archive_names_spec().index_of_first(name@) is None,
        },
{
    let names = base_archive_names();
    let n = names.len();
    assert(names@.map_values(|s: &str| s@).len() == 10);
    let mut i: usize = 0;
    while i < n
        invariant
            n == names@.len(),
            n == 10,
            names@.map_values(|s: &str| s@) == base_archive_names_spec(),
            i <= n,
            forall|j: int| 0 <= j < i ==> base_archive_names_spec()[j] != name@,
        decreases n - i,
    {
        assert(names@.map_values(|s: &str| s@)[i as int] == names@[i as int]@);
        if str_eq(names[i], name) {
            proof {
                base_archive_names_spec().index_of_first_ensures(name@);
            }
            return Some(i as u32);
        }
        i = i + 1;
    }
    proof {
        base_archive_names_spec().index_of_first_ensures(name@);
    }
    None
}

/// Each base archive name occurs once in the client's list.
pub proof fn lemma_base_archive_names_distinct()
    ensures
        forall|i: int, j: int|
            0 <= i < base_archive_names_spec().len() && 0 <= j < base_archive_names_spec().len()
                && i != j ==> base_archive_names_spec()[i] != base_archive_names_spec()[j],
{
    reveal_strlit("model.MPQ");
    reveal_strlit("texture.MPQ");
    reveal_strlit("terrain.MPQ");
    reveal_strlit("wmo.MPQ");
    reveal_strlit("sound.MPQ");
    reveal_strlit("misc.MPQ");
    reveal_strlit("interface.MPQ");
    reveal_strlit("fonts.MPQ");
    reveal_strlit("speech.MPQ");
    reveal_strlit("dbc.MPQ");
    let s = base_archive_names_spec();
    assert forall|i: int, j: int| 0 <= i < s.len() && 0 <= j < s.len() && i != j implies s[i] != s[j] by {
        if s[i] == s[j] {
            assert(s[i][0] == s[j][0]);
            assert(s[i][1] == s[j][1]);
            assert(s[i][2] == s[j][2]);
        }
    }
}

/// The lookup of a base archive's own name gives back its position: the
/// name-to-position table agrees with the list it was built from.
pub proof fn lemma_base_archive_index_of_name(i: int)
    requires
        0 <= i < base_archive_names_spec().len(),
    ensures
        base_archive_names_spec().index_of_first(base_archive_names_spec()[i]) == Some(i),
{
    lemma_base_archive_names_distinct();
    base_archive_names_spec().index_of_first_ensures(base_archive_names_spec()[i]);
}

/// The data directory the client also searches, relative to the game.
pub open spec fn parent_data_path_spec() -> Seq<char> {
    "..\\Data\\"@
}

/// The directory of data path `datapath_idx`: path 1 is the parent data
/// directory, every other index the configured `data.path`.
pub open spec fn datapath_prefix(data: DataConfig, datapath_idx: u32) -> Seq<char> {
    if datapath_idx == 1 {
        parent_data_path_spec()
    } else {
        data.path@
    }
}

/// Full path of `archive_name` under data path `datapath_idx`.
pub fn get_mpq_path(data: &DataConfig, datapath_idx: u32, archive_name: &str) -> (res: String)
    ensures
        res@ == datapath_prefix(*data, datapath_idx) + archive_name@,
{
    let prefix = if datapath_idx == 1 {
        String::from_str("..\\Data\\")
    } else {
        data.path.clone()
    };
    prefix.concat(archive_name)
}

/// Number of data paths the client searches: the configured path and the
/// parent data directory.
pub const DATAPATH_COUNT: u32 = 2;

/// The configured archive at position `archive_idx` of `data.base_archives`,
/// or `None` past the end of the list (the client is then answered 2).
/// The position is compared with the list's length taken as a `u32`.
pub fn configured_archive(data: &DataConfig, archive_idx: u32) -> (res: Option<String>)
    ensures
        res is Some <==> archive_idx < (data.base_archives@.len() as u32),
        res matches Some(name) ==> name@ == data.base_archives@[archive_idx as int]@,
{
    let len = data.base_archives.len();
    if archive_idx >= len as u32 {
        return None;
    }
    assert(archive_idx < len) by (bit_vector)
        requires
            archive_idx < len as u32,
    ;
    Some(data.base_archives[archive_idx as usize].clone())
}

/// The configured replacement for the client's base archive `requested`:
/// the entry of `data.base_archives` at the base archive's position, or
/// `None` when `requested` is no base archive or the configured list is
/// shorter (the client is then answered 2).
pub fn base_archive_override(data: &DataConfig, requested: &str) -> (res: Option<String>)
    ensures
        match base_archive_names_spec().index_of_first(requested@) {
            Some(i) => if i < data.base_archives@.len() {
                res matches Some(name) && name@ == data.base_archives@[i]@
            } else {
                res is None
            },
            None => res is None,
        },
{
    match base_archive_index(requested) {
        Some(idx) => {
            proof {
                base_archive_names_spec().index_of_first_ensures(requested@);
            }
            if (idx as usize) < data.base_archives.len() {
                Some(data.base_archives[idx as usize].clone())
            } else {
                None
            }
        },
        None => None,
    }
}

/// Whether the client's archive callback is forwarded to the original
/// routine; a null archive handle is answered 0 instead.
pub fn forwards_archive_callback(mpq_ptr: u32) -> (res: bool)
    ensures
        res == (mpq_ptr != 0),
{
    mpq_ptr != 0
}

/// Step of the search for the data path that holds an archive.
#[derive(Clone, Copy, Debug, PartialEq, Eq)]
pub enum ProbeStep {
    /// Probe the archive under this data path.
    Probe(u32),
    /// Answer the client with this value: the data path that holds the
    /// archive, or `DATAPATH_COUNT` when none does.
    Answer(u32),
}

/// The search starts with the configured data path.
pub fn locate_start() -> (res: ProbeStep)
    ensures
        res == ProbeStep::Probe(0),
{
    ProbeStep::Probe(0)
}

/// The search step after probing data path `datapath`, whose probe gave
/// `probe_result` (nonzero when the archive is there).
pub open spec fn locate_step(datapath: u32, probe_result: u32) -> ProbeStep {
    if probe_result != 0 {
        ProbeStep::Answer(datapath)
    } else if datapath + 1 < DATAPATH_COUNT {
        ProbeStep::Probe((datapath + 1) as u32)
    } else {
        ProbeStep::Answer(DATAPATH_COUNT)
    }
}

/// Next step of the search, after the probe of `datapath`.
pub fn locate_next(datapath: u32, probe_result: u32) -> (res: ProbeStep)
    requires
        datapath < DATAPATH_COUNT,
    ensures
        res == locate_step(datapath, probe_result),
{
    if probe_result != 0 {
        ProbeStep::Answer(datapath)
    } else if datapath + 1 < DATAPATH_COUNT {
        ProbeStep::Probe(datapath + 1)
    } else {
        ProbeStep::Answer(DATAPATH_COUNT)
    }
}

/// The answer of a whole search whose probes of data paths 0 and 1 gave
/// `r0` and `r1`: the first data path that holds the archive, else 2.
pub open spec fn located(r0: u32, r1: u32) -> u32 {
    if r0 != 0 {
        0
    } else if r1 != 0 {
        1
    } else {
        DATAPATH_COUNT
    }
}

/// A search run from its start answers with the first data path whose
/// probe succeeded, probing no path after it, and with 2 when no probe did.
pub proof fn lemma_locate_answers_first_hit(r0: u32, r1: u32)
    ensures
        locate_step(0, r0) == if r0 != 0 {
            ProbeStep::Answer(0)
        } else {
            ProbeStep::Probe(1)
        },
        r0 == 0 ==> locate_step(1, r1) == ProbeStep::Answer(located(r0, r1)),
        r0 != 0 ==> locate_step(0, r0) == ProbeStep::Answer(located(r0, r1)),
{
}

/// Error code the client reports for a missing archive file.
pub const ERROR_FILE_MISSING: u32 = 38;

/// Storm error for an archive that cannot be found.
pub const ERROR_ARCHIVE_NOT_FOUND: u32 = 0x85100083;

/// Storm error for an archive that cannot be opened.
pub const ERROR_ARCHIVE_OPEN: u32 = 0x8510006C;

/// The error code as the loader judges it: a missing file counts as an
/// archive that cannot be found.
pub open spec fn normalized_error_spec(err: u32) -> u32 {
    if err == ERROR_FILE_MISSING {
        ERROR_ARCHIVE_NOT_FOUND
    } else {
        err
    }
}

/// Errors after which the client cannot go on without the archive.
pub open spec fn is_fatal_error_spec(err: u32) -> bool {
    err == ERROR_ARCHIVE_OPEN || err == ERROR_ARCHIVE_NOT_FOUND
}

pub fn normalize_error(err: u32) -> (res: u32)
    ensures
        res == normalized_error_spec(err),
{
    if err == ERROR_FILE_MISSING {
        ERROR_ARCHIVE_NOT_FOUND
    } else {
        err
    }
}

pub fn is_fatal_error(err: u32) -> (res: bool)
    ensures
        res == is_fatal_error_spec(err),
{
    err == ERROR_ARCHIVE_OPEN || err == ERROR_ARCHIVE_NOT_FOUND
}

/// Step of loading a base archive.
#[derive(Clone, Copy, Debug, PartialEq, Eq)]
pub enum LoadStep {
    /// Open the archive under this data path.
    Open(u32),
    /// The archive is open: report it and answer the client 1.
    Loaded,
    /// Stop the client with this error code.
    Fatal(u32),
    /// No data path holds the archive: answer the client 0.
    Failed,
}

/// The loading starts with the configured data path.
pub fn load_start() -> (res: LoadStep)
    ensures
        res == LoadStep::Open(0),
{
    LoadStep::Open(0)
}

/// The loading step after opening the archive under `datapath`, which gave
/// `open_result` (nonzero when opened) and, on failure, the client's error
/// code `error_code`.
pub open spec fn load_step(datapath: u32, open_result: u32, error_code: u32) -> LoadStep {
    if open_result != 0 {
        LoadStep::Loaded
    } else if is_fatal_error_spec(normalized_error_spec(error_code)) {
        LoadStep::Fatal(normalized_error_spec(error_code))
    } else if datapath + 1 < DATAPATH_COUNT {
        LoadStep::Open((datapath + 1) as u32)
    } else {
        LoadStep::Failed
    }
}

/// Next loading step after opening the archive under `datapath`.
pub fn load_next(datapath: u32, open_result: u32, error_code: u32) -> (res: LoadStep)
    requires
        datapath < DATAPATH_COUNT,
    ensures
        res == load_step(datapath, open_result, error_code),
{
    if open_result != 0 {
        return LoadStep::Loaded;
    }
    let err = normalize_error(error_code);
    if is_fatal_error(err) {
        LoadStep::Fatal(err)
    } else if datapath + 1 < DATAPATH_COUNT {
        LoadStep::Open(datapath + 1)
    } else {
        LoadStep::Failed
    }
}

/// A failed open stops the client exactly when its error, judged as the
/// loader judges it, is one of the two archive errors; a missing file is
/// such an error.
pub proof fn lemma_missing_file_is_fatal(datapath: u32)
    requires
        datapath < DATAPATH_COUNT,
    ensures
        load_step(datapath, 0, ERROR_FILE_MISSING) == LoadStep::Fatal(ERROR_ARCHIVE_NOT_FOUND),
        load_step(datapath, 0, ERROR_ARCHIVE_OPEN) == LoadStep::Fatal(ERROR_ARCHIVE_OPEN),
        forall|open_result: u32, err: u32|
            open_result != 0 ==> #[trigger] load_step(datapath, open_result, err) == LoadStep::Loaded,
{
}

/// The outcome of loading an archive whose opens under data paths 0 and 1
/// gave `x0`, `x1` with error codes `e0`, `e1`: loaded at the first path
/// that opens, stopped at the first fatal error, failed when neither opens.
pub open spec fn load_outcome(x0: u32, e0: u32, x1: u32, e1: u32) -> LoadStep {
    if x0 != 0 {
        LoadStep::Loaded
    } else if is_fatal_error_spec(normalized_error_spec(e0)) {
        LoadStep::Fatal(normalized_error_spec(e0))
    } else if x1 != 0 {
        LoadStep::Loaded
    } else if is_fatal_error_spec(normalized_error_spec(e1)) {
        LoadStep::Fatal(normalized_error_spec(e1))
    } else {
        LoadStep::Failed
    }
}

/// Loading tries the data paths in order: the first step opens under path
/// 1 only after path 0 failed without a fatal error, and the step after
/// that gives the outcome; any other first step already is the outcome.
pub proof fn lemma_load_tries_paths_in_order(x0: u32, e0: u32, x1: u32, e1: u32)
    ensures
        load_step(0, x0, e0) == LoadStep::Open(1) <==> (x0 == 0 && !is_fatal_error_spec(
            normalized_error_spec(e0),
        )),
        load_step(0, x0, e0) == LoadStep::Open(1) ==> load_step(1, x1, e1) == load_outcome(
            x0,
            e0,
            x1,
            e1,
        ),
        load_step(0, x0, e0) != LoadStep::Open(1) ==> load_step(0, x0, e0) == load_outcome(
            x0,
            e0,
            x1,
            e1,
        ),
{
}

/// Text reported once a base archive is open.
pub fn loaded_message(archive: &str) -> (res: String)
    ensures
        res@ == "[mpq] loaded base archive "@ + archive@,
{
    String::from_str("[mpq] loaded base archive ").concat(archive)
}

/// Text of the fatal error for an archive that cannot be opened.
pub fn open_failure_message(archive: &str) -> (res: String)
    ensures
        res@ == "Failed to open archive: "@ + archive@,
{
    String::from_str("Failed to open archive: ").concat(archive)
}

/// With the default archive list every base archive is loaded under its
/// own name: the default list and the name-to-position table agree.
pub proof fn lemma_default_archives_keep_names(data: DataConfig, name: Seq<char>)
    requires
        string_views(data.base_archives@) == base_archive_names_spec(),
        base_archive_names_spec().contains(name),
    ensures
        base_archive_names_spec().index_of_first(name) matches Some(i)
            && i < data.base_archives@.len() && data.base_archives@[i]@ == name,
{
    base_archive_names_spec().index_of_first_ensures(name);
    let i = base_archive_names_spec().index_of_first(name).unwrap();
    assert(string_views(data.base_archives@)[i] == data.base_archives@[i]@);
}

/// Setting up archive loading detours the archive lookups and loaders.
pub fn init() -> (res: Vec<Detour>)
    ensures
        res@ == seq![Detour::ConfiguredArchive, Detour::LoadBaseArchive, Detour::LoadPatch, Detour::ArchiveCallback],
{
    let res: Vec<Detour> = vec![Detour::ConfiguredArchive, Detour::LoadBaseArchive, Detour::LoadPatch, Detour::ArchiveCallback];
    assert(res@ =~= seq![Detour::ConfiguredArchive, Detour::LoadBaseArchive, Detour::LoadPatch, Detour::ArchiveCallback]);
    res
}

/// Only the missing-file code 38 is rewritten, into the archive-not-found
/// code; every other code is judged as reported. The two archive errors
/// stop the client under either data path, with the code reported.
pub proof fn lemma_error_judgement(err: u32, datapath: u32)
    requires
        datapath < 2,
    ensures
        err != 38 ==> normalized_error_spec(err) == err,
        normalized_error_spec(38) == 0x85100083u32,
        is_fatal_error_spec(err) <==> (err == 0x85100083u32 || err == 0x8510006Cu32),
        load_step(datapath, 0, 0x85100083u32) == LoadStep::Fatal(0x85100083u32),
        load_step(datapath, 0, 0x8510006Cu32) == LoadStep::Fatal(0x8510006Cu32),
        load_step(datapath, 0, 38) == LoadStep::Fatal(0x85100083u32),
{
}

/// A failed open without a fatal error moves on to the next data path, and
/// after the last one the loading has failed; a successful open loads.
pub proof fn lemma_load_moves_on(err: u32, open_result: u32)
    requires
        err != 38 && err != 0x85100083u32 && err != 0x8510006Cu32,
    ensures
        load_step(0, 0, err) == LoadStep::Open(1),
        load_step(1, 0, err) == LoadStep::Failed,
        open_result != 0 ==> load_step(0, open_result, err) == LoadStep::Loaded,
        open_result != 0 ==> load_step(1, open_result, err) == LoadStep::Loaded,
{
}

/// A probe that finds the archive answers with the probed path; a miss
/// under the configured path probes the parent path, and a miss there
/// answers 2.
pub proof fn lemma_probe_answers(datapath: u32, probe_result: u32)
    requires
        datapath < 2,
    ensures
        probe_result != 0 ==> locate_step(datapath, probe_result) == ProbeStep::Answer(datapath),
        locate_step(0, 0) == ProbeStep::Probe(1),
        locate_step(1, 0) == ProbeStep::Answer(2),
{
}

/// The parent data path does not depend on the configuration; every other
/// data path is the configured one.
pub proof fn lemma_datapath_prefix(data: DataConfig, other: DataConfig, datapath: u32)
    ensures
        datapath_prefix(data, 1) == datapath_prefix(other, 1),
        datapath_prefix(data, 1) == "..\\Data\\"@,
        datapath != 1 ==> datapath_prefix(data, datapath) == data.path@,
{
}

} // verus!
