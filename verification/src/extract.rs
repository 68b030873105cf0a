//! Archive extraction. Reading the entries of a zip archive is done by
//! the zip crate behind trusted wrappers; everything decided about those
//! entries — which are extracted, under which names, and what the root
//! folder of the archive is — is verified planning logic on plain values.
//!
//! Two policies mirror the two install targets: a full extraction that
//! recreates the whole archive tree (mods), and a selective extraction
//! that takes only a fixed allow-list of file names (launcher).

use vstd::prelude::*;

verus! {

/// Why an archive could not be used.
#[derive(Clone, Debug)]
pub enum ExtractError {
    /// The bytes are not a zip archive whose directory can be read.
    NotAnArchive,
    /// An entry of the archive could not be decompressed.
    UnreadableEntry,
    /// The first entry of the archive is not a directory, so no root
    /// folder name can be taken from it. Archives are expected to hold a
    /// single top-level directory, named by their first entry.
    MissingRootDirectory,
}

/// One entry of an archive, held as plain values.
pub struct ZipEntry {
    /// The entry's name: its path inside the archive, `/`-separated,
    /// with a trailing `/` on directory entries.
    pub name: String,
    /// The decompressed contents; empty for directory entries.
    pub data: Vec<u8>,
    /// The stored POSIX permission bits, where the archive has them.
    pub unix_mode: Option<u32>,
}

impl View for ZipEntry {
    type V = (Seq<char>, Seq<u8>, Option<u32>);

    open spec fn view(&self) -> (Seq<char>, Seq<u8>, Option<u32>) {
        (self.name@, self.data@, self.unix_mode)
    }
}

/// One planned file-system write of an extraction, relative to the
/// directory the extraction targets.
pub enum ExtractAction {
    /// Create a directory (and any missing parents).
    MakeDir { path: String },
    /// Write a file with the given contents, creating missing parents,
    /// and re-apply the stored permission bits where present.
    WriteFile { path: String, data: Vec<u8>, unix_mode: Option<u32> },
}

/// The mathematical shape of one planned write.
pub enum ExtractActionModel {
    MakeDir { path: Seq<char> },
    WriteFile { path: Seq<char>, data: Seq<u8>, unix_mode: Option<u32> },
}

impl View for ExtractAction {
    type V = ExtractActionModel;

    open spec fn view(&self) -> ExtractActionModel {
        match self {
            ExtractAction::MakeDir { path } => ExtractActionModel::MakeDir { path: path@ },
            ExtractAction::WriteFile { path, data, unix_mode } => ExtractActionModel::WriteFile {
                path: path@,
                data: data@,
                unix_mode: *unix_mode,
            },
        }
    }
}

/// A directory entry: its name ends in the separator.
pub open spec fn entry_is_dir(name: Seq<char>) -> bool {
    name.len() > 0 && name.last() == '/'
}

/// A `..` component starts at position `i` of the name.
pub open spec fn dotdot_at(name: Seq<char>, i: int) -> bool {
    &&& 0 <= i
    &&& i + 2 <= name.len()
    &&& (i == 0 || name[i - 1] == '/')
    &&& name[i] == '.'
    &&& name[i + 1] == '.'
    &&& (i + 2 == name.len() || name[i + 2] == '/')
}

/// The name holds a `..` component somewhere.
pub open spec fn has_dotdot_component(name: Seq<char>) -> bool {
    exists|i: int| dotdot_at(name, i)
}

/// A name that is safe to recreate under the extraction directory: not
/// empty, not absolute, without NUL characters and without any `..`
/// component. Entries with unsafe names are skipped, never written.
pub open spec fn safe_entry_name(name: Seq<char>) -> bool {
    &&& name.len() > 0
    &&& name[0] != '/'
    &&& !has_dotdot_component(name)
    &&& forall|i: int| 0 <= i < name.len() ==> name[i] != '\0'
}

/// Whether the name holds a NUL character.
fn contains_nul(s: &str) -> (b: bool)
    ensures
        b == exists|i: int| 0 <= i < s@.len() && s@[i] == '\0',
{
    let len = s.unicode_len();
    let mut i: usize = 0;
    while i < len
        invariant
            i <= len,
            len == s@.len(),
            forall|j: int| 0 <= j < i ==> s@[j] != '\0',
        decreases len - i,
    {
        if s.get_char(i) == '\0' {
            return true;
        }
        i = i + 1;
    }
    false
}

/// Whether the name holds a `..` component.
fn has_dotdot(s: &str) -> (b: bool)
    ensures
        b == has_dotdot_component(s@),
{
    let len = s.unicode_len();
    let mut i: usize = 0;
    while len >= 2 && i <= len - 2
        invariant
            len == s@.len(),
            i <= len,
            forall|j: int| 0 <= j < i ==> !dotdot_at(s@, j),
        decreases len - i,
    {
        let at_boundary = i == 0 || s.get_char(i - 1) == '/';
        if at_boundary && s.get_char(i) == '.' && s.get_char(i + 1) == '.' && (i + 2 == len
            || s.get_char(i + 2) == '/') {
            proof {
                assert(dotdot_at(s@, i as int));
            }
            return true;
        }
        i = i + 1;
    }
    proof {
        assert forall|j: int| !dotdot_at(s@, j) by {
            if 0 <= j && j + 2 <= s@.len() {
                assert(j < i);
            }
        }
    }
    false
}

/// Decides `safe_entry_name` for a given name.
pub fn is_safe_entry_name(s: &str) -> (b: bool)
    ensures
        b == safe_entry_name(s@),
{
    let len = s.unicode_len();
    if len == 0 {
        return false;
    }
    if s.get_char(0) == '/' {
        return false;
    }
    if contains_nul(s) {
        return false;
    }
    if has_dotdot(s) {
        return false;
    }
    true
}

/// What the zip crate reads out of the given bytes: `None` where the
/// central directory cannot be opened; otherwise one element per entry,
/// in archive order, holding the entry's name, decompressed contents and
/// stored permission bits — or `None` for an entry whose data cannot be
/// decompressed. The result depends on the bytes alone.
pub uninterp spec fn zip_parse(bytes: Seq<u8>) -> Option<
    Seq<Option<(Seq<char>, Seq<u8>, Option<u32>)>>,
>;

/// The archive opens and every entry of it can be read.
pub open spec fn archive_readable(bytes: Seq<u8>) -> bool {
    &&& zip_parse(bytes) is Some
    &&& forall|i: int| 0 <= i < zip_parse(bytes)->0.len() ==> zip_parse(bytes)->0[i] is Some
}

/// The entries of a fully readable archive, in archive order.
pub open spec fn archive_contents(bytes: Seq<u8>) -> Seq<(Seq<char>, Seq<u8>, Option<u32>)>
    recommends
        archive_readable(bytes),
{
    zip_parse(bytes)->0.map_values(|o: Option<(Seq<char>, Seq<u8>, Option<u32>)>| o->0)
}

/// Relies on zip::ZipArchive::new and zip::ZipArchive::len: opening the
/// archive's central directory held in `bytes` and counting its entries.
#[verifier::external_body]
fn zip_entry_count(bytes: &Vec<u8>) -> (r: Result<usize, ExtractError>)
    ensures
        match r {
            Ok(n) => zip_parse(bytes@) matches Some(es) && n == es.len(),
            Err(e) => zip_parse(bytes@) is None && e is NotAnArchive,
        },
{
    match zip::ZipArchive::new(std::io::Cursor::new(bytes.as_slice())) {
        Ok(a) => Ok(a.len()),
        Err(_) => Err(ExtractError::NotAnArchive),
    }
}

/// Relies on zip::ZipArchive::by_index and the entry accessors
/// zip::read::ZipFile::name and unix_mode, with std::io::Read::read_to_end
/// for the decompressed contents of entry `i`.
#[verifier::external_body]
fn zip_entry_at(bytes: &Vec<u8>, i: usize) -> (r: Result<ZipEntry, ExtractError>)
    ensures
        match r {
            Ok(e) => {
                &&& zip_parse(bytes@) matches Some(es)
                &&& i < es.len()
                &&& es[i as int] matches Some(m)
                &&& e.name@ == m.0
                &&& e.data@ == m.1
                &&& e.unix_mode == m.2
            },
            Err(_) => !(zip_parse(bytes@) matches Some(es) && i < es.len() && es[i as int] is Some),
        },
{
    let mut a = match zip::ZipArchive::new(std::io::Cursor::new(bytes.as_slice())) {
        Ok(a) => a,
        Err(_) => return Err(ExtractError::NotAnArchive),
    };
    let mut f = match a.by_index(i) {
        Ok(f) => f,
        Err(_) => return Err(ExtractError::UnreadableEntry),
    };
    let name = f.name().to_string();
    let unix_mode = f.unix_mode();
    let mut data = Vec::new();
    if std::io::Read::read_to_end(&mut f, &mut data).is_err() {
        return Err(ExtractError::UnreadableEntry);
    }
    Ok(ZipEntry { name, data, unix_mode })
}

/// Reads every entry of the archive held in `bytes`, in archive order.
/// Succeeds exactly on fully readable archives.
pub fn read_archive_entries(bytes: &Vec<u8>) -> (r: Result<Vec<ZipEntry>, ExtractError>)
    ensures
        match r {
            Ok(v) => archive_readable(bytes@) && v@.map_values(|e: ZipEntry| e@)
                == archive_contents(bytes@),
            Err(_) => !archive_readable(bytes@),
        },
{
    let n = match zip_entry_count(bytes) {
        Ok(n) => n,
        Err(e) => {
            return Err(e);
        },
    };
    let mut v: Vec<ZipEntry> = Vec::new();
    let mut i: usize = 0;
    while i < n
        invariant
            i <= n,
            zip_parse(bytes@) matches Some(es) && n == es.len(),
            v@.len() == i,
            forall|j: int| 0 <= j < i ==> zip_parse(bytes@)->0[j] is Some,
            forall|j: int| 0 <= j < i ==> (#[trigger] v@[j])@ == zip_parse(bytes@)->0[j]->0,
        decreases n - i,
    {
        match zip_entry_at(bytes, i) {
            Ok(e) => {
                proof {
                    assert(e@ == zip_parse(bytes@)->0[i as int]->0);
                }
                v.push(e);
            },
            Err(_) => {
                return Err(ExtractError::UnreadableEntry);
            },
        }
        i = i + 1;
    }
    proof {
        assert(v@.map_values(|e: ZipEntry| e@) =~= archive_contents(bytes@));
    }
    Ok(v)
}

/// A copy of the given bytes.
fn clone_bytes(v: &Vec<u8>) -> (r: Vec<u8>)
    ensures
        r@ == v@,
{
    let mut r: Vec<u8> = Vec::new();
    let n = v.len();
    let mut i: usize = 0;
    while i < n
        invariant
            i <= n,
            n == v@.len(),
            r@ == v@.take(i as int),
        decreases n - i,
    {
        r.push(v[i]);
        proof {
            assert(r@ =~= v@.take(i + 1));
        }
        i = i + 1;
    }
    proof {
        assert(v@.take(n as int) =~= v@);
    }
    r
}

/// The writes that the full policy performs for one entry: skip unsafe
/// names, recreate directory entries, write file entries.
pub open spec fn full_entry_actions(e: (Seq<char>, Seq<u8>, Option<u32>)) -> Seq<
    ExtractActionModel,
> {
    if !safe_entry_name(e.0) {
        Seq::empty()
    } else if entry_is_dir(e.0) {
        seq![ExtractActionModel::MakeDir { path: e.0 }]
    } else {
        seq![ExtractActionModel::WriteFile { path: e.0, data: e.1, unix_mode: e.2 }]
    }
}

/// The writes of the full policy over a whole archive, in archive order.
pub open spec fn full_plan_spec(entries: Seq<(Seq<char>, Seq<u8>, Option<u32>)>) -> Seq<
    ExtractActionModel,
>
    decreases entries.len(),
{
    if entries.len() == 0 {
        Seq::empty()
    } else {
        full_plan_spec(entries.drop_last()) + full_entry_actions(entries.last())
    }
}

/// The archive's root folder: the name of its first entry, which must be
/// a directory entry, without the trailing separator.
pub open spec fn root_dir_of(entries: Seq<(Seq<char>, Seq<u8>, Option<u32>)>) -> Seq<char>
    recommends
        entries.len() > 0,
{
    entries[0].0.drop_last()
}

/// Whether a root folder name can be taken from the archive at all: its
/// first entry is a directory entry with a safe name.
pub open spec fn has_root_dir(entries: Seq<(Seq<char>, Seq<u8>, Option<u32>)>) -> bool {
    entries.len() > 0 && safe_entry_name(entries[0].0) && entry_is_dir(entries[0].0)
}

/// The full extraction policy: plans one write per entry, in archive
/// order, skipping entries with unsafe names, and names the archive's
/// root folder. Fails exactly where no root folder can be taken from the
/// first entry.
pub fn plan_full_extract(entries: &Vec<ZipEntry>) -> (r: Result<
    (String, Vec<ExtractAction>),
    ExtractError,
>)
    ensures
        match r {
            Ok((root, actions)) => {
                &&& has_root_dir(entries@.map_values(|e: ZipEntry| e@))
                &&& root@ == root_dir_of(entries@.map_values(|e: ZipEntry| e@))
                &&& actions@.map_values(|a: ExtractAction| a@) == full_plan_spec(
                    entries@.map_values(|e: ZipEntry| e@),
                )
            },
            Err(e) => !has_root_dir(entries@.map_values(|e: ZipEntry| e@))
                && e is MissingRootDirectory,
        },
{
    let ghost ms = entries@.map_values(|e: ZipEntry| e@);
    if entries.len() == 0 {
        return Err(ExtractError::MissingRootDirectory);
    }
    let first_name = &entries[0].name;
    let first_len = first_name.as_str().unicode_len();
    if !is_safe_entry_name(first_name.as_str()) {
        return Err(ExtractError::MissingRootDirectory);
    }
    if !(first_len > 0 && first_name.as_str().get_char(first_len - 1) == '/') {
        return Err(ExtractError::MissingRootDirectory);
    }
    let root = String::from_str(first_name.as_str().substring_char(0, first_len - 1));
    proof {
        assert(root@ =~= root_dir_of(ms));
    }
    let mut actions: Vec<ExtractAction> = Vec::new();
    let n = entries.len();
    let mut i: usize = 0;
    while i < n
        invariant
            i <= n,
            n == entries@.len(),
            ms == entries@.map_values(|e: ZipEntry| e@),
            actions@.map_values(|a: ExtractAction| a@) == full_plan_spec(ms.take(i as int)),
        decreases n - i,
    {
        let ghost prev = actions@.map_values(|a: ExtractAction| a@);
        let name_str = entries[i].name.as_str();
        let name_len = name_str.unicode_len();
        if is_safe_entry_name(name_str) {
            if name_len > 0 && name_str.get_char(name_len - 1) == '/' {
                actions.push(ExtractAction::MakeDir { path: entries[i].name.clone() });
            } else {
                actions.push(
                    ExtractAction::WriteFile {
                        path: entries[i].name.clone(),
                        data: clone_bytes(&entries[i].data),
                        unix_mode: entries[i].unix_mode,
                    },
                );
            }
        }
        proof {
            assert(ms.take(i + 1).drop_last() =~= ms.take(i as int));
            assert(ms.take(i + 1).last() == ms[i as int]);
            assert(ms[i as int] == entries@[i as int]@);
            assert(actions@.map_values(|a: ExtractAction| a@) =~= full_plan_spec(ms.take(i + 1)));
        }
        i = i + 1;
    }
    proof {
        assert(ms.take(n as int) =~= ms);
    }
    Ok((root, actions))
}

/// The full policy recreates exactly the entries with safe names, in
/// archive order: every planned write is the write of some safe-named
/// entry, and every safe-named entry is planned — directory entries as
/// directory writes, file entries as file writes with their data.
/// Entries with unsafe names produce nothing.
pub proof fn lemma_full_plan_exact(entries: Seq<(Seq<char>, Seq<u8>, Option<u32>)>)
    ensures
        forall|k: int|
            0 <= k < full_plan_spec(entries).len() ==> exists|i: int|
                0 <= i < entries.len() && safe_entry_name((#[trigger] entries[i]).0)
                    && full_entry_actions(entries[i]) == seq![
                    #[trigger] full_plan_spec(entries)[k],
                ],
        forall|i: int|
            0 <= i < entries.len() && safe_entry_name((#[trigger] entries[i]).0) ==> exists|k: int|
                0 <= k < full_plan_spec(entries).len() && seq![
                    #[trigger] full_plan_spec(entries)[k],
                ] == full_entry_actions(entries[i]),
    decreases entries.len(),
{
    if entries.len() > 0 {
        lemma_full_plan_exact(entries.drop_last());
        let prefix = full_plan_spec(entries.drop_last());
        let plan = full_plan_spec(entries);
        let last = entries.last();
        assert forall|k: int| 0 <= k < plan.len() implies exists|i: int|
            0 <= i < entries.len() && safe_entry_name((#[trigger] entries[i]).0)
                && full_entry_actions(entries[i]) == seq![#[trigger] plan[k]] by {
            if k < prefix.len() {
                assert(plan[k] == prefix[k]);
                let i = choose|i: int|
                    0 <= i < entries.drop_last().len() && safe_entry_name(
                        (#[trigger] entries.drop_last()[i]).0,
                    ) && full_entry_actions(entries.drop_last()[i]) == seq![prefix[k]];
                assert(entries[i] == entries.drop_last()[i]);
                assert(safe_entry_name(entries[i].0));
                assert(full_entry_actions(entries[i]) == seq![plan[k]]);
            } else {
                assert(safe_entry_name(last.0));
                assert(entries[entries.len() - 1] == last);
                assert(full_entry_actions(last) =~= seq![plan[k]]);
                assert(full_entry_actions(entries[entries.len() - 1]) == seq![plan[k]]);
            }
        }
        assert forall|i: int|
            0 <= i < entries.len() && safe_entry_name((#[trigger] entries[i]).0) implies exists|
            k: int,
        |
            0 <= k < plan.len() && seq![#[trigger] plan[k]] == full_entry_actions(entries[i]) by {
            if i < entries.len() - 1 {
                assert(entries.drop_last()[i] == entries[i]);
                let k = choose|k: int|
                    0 <= k < prefix.len() && seq![#[trigger] prefix[k]] == full_entry_actions(
                        entries.drop_last()[i],
                    );
                assert(plan[k] == prefix[k]);
                assert(seq![plan[k]] == full_entry_actions(entries[i]));
            } else {
                let k = plan.len() - 1;
                assert(full_entry_actions(last).len() == 1);
                assert(plan[k] == full_entry_actions(last)[0]);
                assert(seq![plan[k]] =~= full_entry_actions(last));
            }
        }
    }
}

/// The names the selective policy takes: the launcher binary and its
/// companion loader library, and nothing else.
pub open spec fn allow_listed(name: Seq<char>) -> bool {
    name == "NorthstarLauncher.exe"@ || name == "Northstar.dll"@
}

/// Decides `allow_listed` for a given name.
pub fn is_allow_listed(name: &String) -> (b: bool)
    ensures
        b == allow_listed(name@),
{
    let launcher = String::from_str("NorthstarLauncher.exe");
    let loader = String::from_str("Northstar.dll");
    *name == launcher || *name == loader
}

/// The writes that the selective policy performs for one entry.
pub open spec fn selective_entry_actions(e: (Seq<char>, Seq<u8>, Option<u32>)) -> Seq<
    ExtractActionModel,
> {
    if allow_listed(e.0) {
        seq![ExtractActionModel::WriteFile { path: e.0, data: e.1, unix_mode: e.2 }]
    } else {
        Seq::empty()
    }
}

/// The writes of the selective policy over a whole archive.
pub open spec fn selective_plan_spec(entries: Seq<(Seq<char>, Seq<u8>, Option<u32>)>) -> Seq<
    ExtractActionModel,
>
    decreases entries.len(),
{
    if entries.len() == 0 {
        Seq::empty()
    } else {
        selective_plan_spec(entries.drop_last()) + selective_entry_actions(entries.last())
    }
}

/// The selective extraction policy: plans a write for exactly the
/// entries whose name is on the allow-list, wherever they stand in the
/// archive, and for nothing else.
pub fn plan_selective_extract(entries: &Vec<ZipEntry>) -> (actions: Vec<ExtractAction>)
    ensures
        actions@.map_values(|a: ExtractAction| a@) == selective_plan_spec(
            entries@.map_values(|e: ZipEntry| e@),
        ),
{
    let ghost ms = entries@.map_values(|e: ZipEntry| e@);
    let mut actions: Vec<ExtractAction> = Vec::new();
    let n = entries.len();
    let mut i: usize = 0;
    while i < n
        invariant
            i <= n,
            n == entries@.len(),
            ms == entries@.map_values(|e: ZipEntry| e@),
            actions@.map_values(|a: ExtractAction| a@) == selective_plan_spec(ms.take(i as int)),
        decreases n - i,
    {
        if is_allow_listed(&entries[i].name) {
            actions.push(
                ExtractAction::WriteFile {
                    path: entries[i].name.clone(),
                    data: clone_bytes(&entries[i].data),
                    unix_mode: entries[i].unix_mode,
                },
            );
        }
        proof {
            assert(ms.take(i + 1).drop_last() =~= ms.take(i as int));
            assert(ms.take(i + 1).last() == ms[i as int]);
            assert(ms[i as int] == entries@[i as int]@);
            assert(actions@.map_values(|a: ExtractAction| a@) =~= selective_plan_spec(
                ms.take(i + 1),
            ));
        }
        i = i + 1;
    }
    proof {
        assert(ms.take(n as int) =~= ms);
    }
    actions
}

/// The selective policy extracts exactly the entries whose name is on
/// the allow-list, regardless of their position in archive order, and
/// extracts nothing else: every planned write copies some allow-listed
/// entry unchanged, and every allow-listed entry is written.
pub proof fn lemma_selective_exact(entries: Seq<(Seq<char>, Seq<u8>, Option<u32>)>)
    ensures
        forall|k: int|
            0 <= k < selective_plan_spec(entries).len() ==> {
                &&& #[trigger] selective_plan_spec(entries)[k] matches ExtractActionModel::WriteFile
                    { path, data, unix_mode }
                &&& allow_listed(path)
                &&& exists|i: int|
                    0 <= i < entries.len() && #[trigger] entries[i] == (path, data, unix_mode)
            },
        forall|i: int|
            0 <= i < entries.len() && allow_listed((#[trigger] entries[i]).0) ==> exists|k: int|
                0 <= k < selective_plan_spec(entries).len()
                    && #[trigger] selective_plan_spec(entries)[k]
                    == (ExtractActionModel::WriteFile {
                    path: entries[i].0,
                    data: entries[i].1,
                    unix_mode: entries[i].2,
                }),
    decreases entries.len(),
{
    if entries.len() > 0 {
        lemma_selective_exact(entries.drop_last());
        let prefix = selective_plan_spec(entries.drop_last());
        let plan = selective_plan_spec(entries);
        assert forall|k: int| 0 <= k < plan.len() implies {
            &&& #[trigger] plan[k] matches ExtractActionModel::WriteFile { path, data, unix_mode }
            &&& allow_listed(path)
            &&& exists|i: int|
                0 <= i < entries.len() && #[trigger] entries[i] == (path, data, unix_mode)
        } by {
            if k < prefix.len() {
                assert(plan[k] == prefix[k]);
                if let ExtractActionModel::WriteFile { path, data, unix_mode } = prefix[k] {
                    let i = choose|i: int|
                        0 <= i < entries.drop_last().len() && #[trigger] entries.drop_last()[i]
                            == (path, data, unix_mode);
                    assert(entries[i] == (path, data, unix_mode));
                }
            } else {
                let e = entries.last();
                assert(allow_listed(e.0));
                assert(plan[k] == ExtractActionModel::WriteFile {
                    path: e.0,
                    data: e.1,
                    unix_mode: e.2,
                });
                assert(entries[entries.len() - 1] == (e.0, e.1, e.2));
            }
        }
        assert forall|i: int|
            0 <= i < entries.len() && allow_listed((#[trigger] entries[i]).0) implies exists|k: int|
            0 <= k < plan.len() && #[trigger] plan[k] == (ExtractActionModel::WriteFile {
                path: entries[i].0,
                data: entries[i].1,
                unix_mode: entries[i].2,
            }) by {
            if i < entries.len() - 1 {
                assert(entries.drop_last()[i] == entries[i]);
                let k = choose|k: int|
                    0 <= k < prefix.len() && #[trigger] prefix[k] == (ExtractActionModel::WriteFile {
                        path: entries.drop_last()[i].0,
                        data: entries.drop_last()[i].1,
                        unix_mode: entries.drop_last()[i].2,
                    });
                assert(plan[k] == prefix[k]);
            } else {
                let e = entries.last();
                assert(plan[plan.len() - 1] == ExtractActionModel::WriteFile {
                    path: e.0,
                    data: e.1,
                    unix_mode: e.2,
                });
            }
        }
    }
}

/// The fixed directory that a selective extraction is staged into before
/// its files replace those of the game installation.
pub fn launcher_staging_dir() -> (s: String)
    ensures
        s@ == launcher_staging_dir_spec(),
{
    String::from_str("ns-dev-test-helper-temp-pr-files")
}

/// The view of the fixed staging directory name.
pub open spec fn launcher_staging_dir_spec() -> Seq<char> {
    "ns-dev-test-helper-temp-pr-files"@
}

} // verus!
