use crate::text::{
    append_decimal, eq_ignore_ascii_case, seq_contains, seq_starts_with, spec_decimal, str_eq, str_eq_ignore_ascii_case,
};
use vstd::prelude::*;

verus! {

/// Extensions of the asset packages the import window accepts.
pub open spec fn import_asset_extensions() -> Seq<Seq<char>> {
    seq!["mcpack"@, "mcworld"@, "mcaddon"@, "mctemplate"@, "zip"@]
}

/// Extensions that can only be game packages.
pub open spec fn game_package_extensions() -> Seq<Seq<char>> {
    seq!["appx"@, "msixvc"@]
}

/// Whether `ext` equals, ignoring ASCII case, one of `list`.
pub open spec fn listed_ignoring_case(ext: Seq<char>, list: Seq<Seq<char>>) -> bool {
    exists|i: int| 0 <= i < list.len() && eq_ignore_ascii_case(ext, #[trigger] list[i])
}

pub open spec fn str_views(list: Seq<&str>) -> Seq<Seq<char>> {
    list.map_values(|s: &str| s@)
}

/// Whether an extension (if the path has one) is listed.
pub open spec fn extension_listed(ext: Option<Seq<char>>, list: Seq<Seq<char>>) -> bool {
    match ext {
        Some(e) => listed_ignoring_case(e, list),
        None => false,
    }
}

/// The asset extensions, in the order the file picker offers them.
pub fn import_asset_extension_list() -> (r: Vec<&'static str>)
    ensures
        str_views(r@) == import_asset_extensions(),
{
    let r = vec!["mcpack", "mcworld", "mcaddon", "mctemplate", "zip"];
    proof {
        assert(str_views(r@) =~= import_asset_extensions());
    }
    r
}

/// Whether `ext` equals, ignoring ASCII case, one of `extensions`.
pub fn extension_in(ext: &str, extensions: &Vec<&str>) -> (r: bool)
    ensures
        r == listed_ignoring_case(ext@, str_views(extensions@)),
{
    let ghost list = str_views(extensions@);
    let mut i: usize = 0;
    while i < extensions.len()
        invariant
            i <= extensions@.len(),
            list == str_views(extensions@),
            forall|k: int| 0 <= k < i ==> !eq_ignore_ascii_case(ext@, #[trigger] list[k]),
        decreases extensions@.len() - i,
    {
        if str_eq_ignore_ascii_case(ext, extensions[i]) {
            proof {
                assert(list[i as int] == extensions@[i as int]@);
            }
            return true;
        }
        proof {
            assert(list[i as int] == extensions@[i as int]@);
        }
        i += 1;
    }
    false
}

pub fn is_import_asset_extension(ext: &str) -> (r: bool)
    ensures
        r == listed_ignoring_case(ext@, import_asset_extensions()),
{
    let list = import_asset_extension_list();
    extension_in(ext, &list)
}

pub fn is_game_package_extension(ext: &str) -> (r: bool)
    ensures
        r == listed_ignoring_case(ext@, game_package_extensions()),
{
    let list = vec!["appx", "msixvc"];
    proof {
        assert(str_views(list@) =~= game_package_extensions());
    }
    extension_in(ext, &list)
}

/// The position of the last dot in `s`, or -1 when it has none.
pub open spec fn last_dot(s: Seq<char>) -> int
    decreases s.len(),
{
    if s.len() == 0 {
        -1
    } else if s.last() == '.' {
        s.len() - 1
    } else {
        last_dot(s.drop_last())
    }
}

/// The extension of a bare file name: the text after its last dot; none
/// when it has no dot or its only dot is the leading one.
pub open spec fn plain_file_extension(name: Seq<char>) -> Option<Seq<char>> {
    let d = last_dot(name);
    if d <= 0 {
        None
    } else {
        Some(name.subrange(d + 1, name.len() as int))
    }
}

/// A path that is a bare file name on every platform: it holds no `/`,
/// `\` or `:`, and it is not `..`.
pub open spec fn is_plain_file_name(path: Seq<char>) -> bool {
    &&& !path.contains('/')
    &&& !path.contains('\\')
    &&& !path.contains(':')
    &&& path != ".."@
}

/// What holds of the extension `std::path::Path::extension` gives for
/// `path`: it has no dot, and the path holds a dot followed by it; for a
/// bare file name it is exactly that name's extension.
pub open spec fn extension_of_path(path: Seq<char>, ext: Option<Seq<char>>) -> bool {
    &&& ext matches Some(e) ==> !e.contains('.') && seq_contains(path, seq!['.'] + e)
    &&& is_plain_file_name(path) ==> ext == plain_file_extension(path)
}

/// `std::path::Path::extension` of `path`, as text. Its documentation gives
/// the part of the file name after its last dot: none when the name has no
/// dot, or when its only dot is the leading one. So the result holds no dot
/// and the path holds it after a dot. Which part of a path is the file name
/// depends on the platform's separators; a path without `/`, `\` and `:`
/// that is not `.` or `..` is a file name on every platform, and there the
/// result is stated exactly. The text converts back losslessly, the path
/// being text.
#[verifier::external_body]
fn path_extension(path: &str) -> (r: Option<String>)
    ensures
        extension_of_path(path@, match r {
            Some(e) => Some(e@),
            None => None,
        }),
{
    std::path::Path::new(path).extension().and_then(|e| e.to_str()).map(|e| e.to_string())
}

pub open spec fn opt_view(o: Option<String>) -> Option<Seq<char>> {
    match o {
        Some(s) => Some(s@),
        None => None,
    }
}

/// Whether an extension is one of `extensions`, ignoring ASCII case.
pub fn extension_matches(ext: &Option<String>, extensions: &Vec<&str>) -> (r: bool)
    ensures
        r == extension_listed(opt_view(*ext), str_views(extensions@)),
{
    match ext {
        Some(e) => extension_in(e.as_str(), extensions),
        None => false,
    }
}

/// Whether the extension of `path` is one of `extensions`, ignoring ASCII
/// case; a path without an extension has none of them.
pub fn has_supported_extension(path: &str, extensions: &Vec<&str>) -> (r: bool)
    ensures
        exists|ext: Option<Seq<char>>| extension_of_path(path@, ext) && r == extension_listed(ext, str_views(extensions@)),
        is_plain_file_name(path@) ==> r == extension_listed(plain_file_extension(path@), str_views(extensions@)),
{
    let ext = path_extension(path);
    extension_matches(&ext, extensions)
}

/// Where a path opened for import goes.
#[derive(Clone, Copy, Debug, PartialEq, Eq, Structural)]
pub enum ImportPathRoute {
    /// Installed as a game package.
    GamePackage,
    /// Shown in the import window.
    ImportWindow,
}

pub open spec fn spec_import_path_route(ext: Option<Seq<char>>) -> ImportPathRoute {
    if extension_listed(ext, game_package_extensions()) {
        ImportPathRoute::GamePackage
    } else {
        ImportPathRoute::ImportWindow
    }
}

pub fn import_route_for_extension(ext: &Option<String>) -> (r: ImportPathRoute)
    ensures
        r == spec_import_path_route(opt_view(*ext)),
{
    let is_game = match ext {
        Some(e) => is_game_package_extension(e.as_str()),
        None => false,
    };
    if is_game {
        ImportPathRoute::GamePackage
    } else {
        ImportPathRoute::ImportWindow
    }
}

/// A game package (`.appx`, `.msixvc`) is installed; anything else opens
/// the import window.
pub fn open_import_path(path: &str) -> (r: ImportPathRoute)
    ensures
        exists|ext: Option<Seq<char>>| extension_of_path(path@, ext) && r == spec_import_path_route(ext),
        is_plain_file_name(path@) ==> r == spec_import_path_route(plain_file_extension(path@)),
{
    let ext = path_extension(path);
    import_route_for_extension(&ext)
}

/// Dropped files sorted into game packages and importable assets, by index.
pub struct DroppedImportRoute {
    pub game_packages: Vec<usize>,
    pub assets: Vec<usize>,
}

/// Game packages first, then assets; files of neither kind are left out.
pub open spec fn spec_dropped_route(exts: Seq<Option<Seq<char>>>) -> (Seq<int>, Seq<int>)
    decreases exts.len(),
{
    if exts.len() == 0 {
        (Seq::empty(), Seq::empty())
    } else {
        let prev = spec_dropped_route(exts.drop_last());
        let i = exts.len() - 1;
        if extension_listed(exts.last(), game_package_extensions()) {
            (prev.0.push(i), prev.1)
        } else if extension_listed(exts.last(), import_asset_extensions()) {
            (prev.0, prev.1.push(i))
        } else {
            prev
        }
    }
}

pub open spec fn indices_view(v: Seq<usize>) -> Seq<int> {
    v.map_values(|x: usize| x as int)
}

pub open spec fn opt_views(v: Seq<Option<String>>) -> Seq<Option<Seq<char>>> {
    v.map_values(|o: Option<String>| opt_view(o))
}

/// Sorts dropped files by their extensions.
pub fn classify_dropped_extensions(exts: &Vec<Option<String>>) -> (r: DroppedImportRoute)
    ensures
        (indices_view(r.game_packages@), indices_view(r.assets@)) == spec_dropped_route(opt_views(exts@)),
{
    let mut game_packages: Vec<usize> = Vec::new();
    let mut assets: Vec<usize> = Vec::new();
    let mut i: usize = 0;
    while i < exts.len()
        invariant
            i <= exts@.len(),
            (indices_view(game_packages@), indices_view(assets@)) == spec_dropped_route(
                opt_views(exts@).subrange(0, i as int),
            ),
        decreases exts@.len() - i,
    {
        let ghost pre = opt_views(exts@).subrange(0, i as int);
        let ghost next = opt_views(exts@).subrange(0, i + 1);
        proof {
            assert(next.drop_last() =~= pre);
            assert(next.last() == opt_view(exts@[i as int]));
        }
        let (is_game, is_asset) = match &exts[i] {
            Some(e) => (is_game_package_extension(e.as_str()), is_import_asset_extension(e.as_str())),
            None => (false, false),
        };
        if is_game {
            game_packages.push(i);
        } else if is_asset {
            assets.push(i);
        }
        proof {
            assert(indices_view(game_packages@) =~= spec_dropped_route(next).0);
            assert(indices_view(assets@) =~= spec_dropped_route(next).1);
        }
        i += 1;
    }
    proof {
        assert(opt_views(exts@).subrange(0, exts@.len() as int) =~= opt_views(exts@));
    }
    DroppedImportRoute { game_packages, assets }
}

pub open spec fn all_plain_file_names(paths: Seq<String>) -> bool {
    forall|i: int| 0 <= i < paths.len() ==> is_plain_file_name(#[trigger] paths[i]@)
}

pub open spec fn plain_extensions(paths: Seq<String>) -> Seq<Option<Seq<char>>> {
    paths.map_values(|p: String| plain_file_extension(p@))
}

/// The extensions of the dropped paths.
fn dropped_path_extensions(paths: &Vec<String>) -> (r: Vec<Option<String>>)
    ensures
        r@.len() == paths@.len(),
        forall|i: int| 0 <= i < paths@.len() ==> extension_of_path(#[trigger] paths@[i]@, opt_view(r@[i])),
{
    let mut out: Vec<Option<String>> = Vec::new();
    let mut i: usize = 0;
    while i < paths.len()
        invariant
            i <= paths@.len(),
            out@.len() == i,
            forall|k: int| 0 <= k < i ==> extension_of_path(#[trigger] paths@[k]@, opt_view(out@[k])),
        decreases paths@.len() - i,
    {
        let ext = path_extension(paths[i].as_str());
        out.push(ext);
        i += 1;
    }
    out
}

/// Routes files dropped on the launcher: game packages are installed, the
/// importable assets open in the import overlay, and when there is neither
/// the drop is refused.
pub fn open_dropped_import_any(paths: &Vec<String>) -> (r: DroppedImportRoute)
    ensures
        exists|exts: Seq<Option<Seq<char>>>| {
            &&& exts.len() == paths@.len()
            &&& forall|i: int| 0 <= i < paths@.len() ==> extension_of_path(#[trigger] paths@[i]@, exts[i])
            &&& (indices_view(r.game_packages@), indices_view(r.assets@)) == spec_dropped_route(exts)
        },
        all_plain_file_names(paths@) ==> (indices_view(r.game_packages@), indices_view(r.assets@))
            == spec_dropped_route(plain_extensions(paths@)),
{
    let exts = dropped_path_extensions(paths);
    let r = classify_dropped_extensions(&exts);
    proof {
        let w = opt_views(exts@);
        assert forall|i: int| 0 <= i < paths@.len() implies extension_of_path(#[trigger] paths@[i]@, w[i]) by {
            assert(w[i] == opt_view(exts@[i]));
        }
        if all_plain_file_names(paths@) {
            assert forall|i: int| 0 <= i < paths@.len() implies #[trigger] w[i] == plain_extensions(paths@)[i] by {
                assert(w[i] == opt_view(exts@[i]));
                assert(extension_of_path(paths@[i]@, opt_view(exts@[i])));
            }
            assert(w =~= plain_extensions(paths@));
        }
    }
    r
}

/// The positions of the extensions that are listed.
pub open spec fn spec_listed_indices(exts: Seq<Option<Seq<char>>>, list: Seq<Seq<char>>) -> Seq<int>
    decreases exts.len(),
{
    if exts.len() == 0 {
        Seq::empty()
    } else {
        let prev = spec_listed_indices(exts.drop_last(), list);
        if extension_listed(exts.last(), list) {
            prev.push(exts.len() - 1)
        } else {
            prev
        }
    }
}

/// The dropped files whose extension is listed, by index.
pub fn supported_extension_indices(exts: &Vec<Option<String>>, extensions: &Vec<&str>) -> (r: Vec<usize>)
    ensures
        indices_view(r@) == spec_listed_indices(opt_views(exts@), str_views(extensions@)),
{
    let mut out: Vec<usize> = Vec::new();
    let mut i: usize = 0;
    while i < exts.len()
        invariant
            i <= exts@.len(),
            indices_view(out@) == spec_listed_indices(opt_views(exts@).subrange(0, i as int), str_views(extensions@)),
        decreases exts@.len() - i,
    {
        let ghost pre = opt_views(exts@).subrange(0, i as int);
        let ghost next = opt_views(exts@).subrange(0, i + 1);
        proof {
            assert(next.drop_last() =~= pre);
            assert(next.last() == opt_view(exts@[i as int]));
        }
        if extension_matches(&exts[i], extensions) {
            out.push(i);
        }
        proof {
            assert(indices_view(out@) =~= spec_listed_indices(next, str_views(extensions@)));
        }
        i += 1;
    }
    proof {
        assert(opt_views(exts@).subrange(0, exts@.len() as int) =~= opt_views(exts@));
    }
    out
}

/// The dropped files that the import accepts, by index; when there is none
/// the drop is refused with the list of accepted extensions.
pub fn open_dropped_import(paths: &Vec<String>, extensions: &Vec<&str>) -> (r: Vec<usize>)
    ensures
        exists|exts: Seq<Option<Seq<char>>>| {
            &&& exts.len() == paths@.len()
            &&& forall|i: int| 0 <= i < paths@.len() ==> extension_of_path(#[trigger] paths@[i]@, exts[i])
            &&& indices_view(r@) == spec_listed_indices(exts, str_views(extensions@))
        },
        all_plain_file_names(paths@) ==> indices_view(r@) == spec_listed_indices(
            plain_extensions(paths@),
            str_views(extensions@),
        ),
{
    let exts = dropped_path_extensions(paths);
    let r = supported_extension_indices(&exts, extensions);
    proof {
        let w = opt_views(exts@);
        assert forall|i: int| 0 <= i < paths@.len() implies extension_of_path(#[trigger] paths@[i]@, w[i]) by {
            assert(w[i] == opt_view(exts@[i]));
        }
        if all_plain_file_names(paths@) {
            assert forall|i: int| 0 <= i < paths@.len() implies #[trigger] w[i] == plain_extensions(paths@)[i] by {
                assert(w[i] == opt_view(exts@[i]));
                assert(extension_of_path(paths@[i]@, opt_view(exts@[i])));
            }
            assert(w =~= plain_extensions(paths@));
        }
    }
    r
}

/// The extensions joined with ", ", as the refusal lists them.
pub open spec fn spec_join(list: Seq<Seq<char>>) -> Seq<char>
    decreases list.len(),
{
    if list.len() == 0 {
        Seq::empty()
    } else if list.len() == 1 {
        list[0]
    } else {
        spec_join(list.drop_last()) + ", "@ + list.last()
    }
}

pub fn join_extensions(extensions: &Vec<&str>) -> (r: String)
    ensures
        r@ == spec_join(str_views(extensions@)),
{
    let ghost list = str_views(extensions@);
    let mut out = String::new();
    let mut i: usize = 0;
    while i < extensions.len()
        invariant
            i <= extensions@.len(),
            list == str_views(extensions@),
            out@ == spec_join(list.subrange(0, i as int)),
        decreases extensions@.len() - i,
    {
        let ghost pre = list.subrange(0, i as int);
        let ghost next = list.subrange(0, i + 1);
        proof {
            assert(next.drop_last() =~= pre);
            assert(next.last() == extensions@[i as int]@);
        }
        if i > 0 {
            out.append(", ");
        } else {
            proof {
                assert(out@ =~= Seq::<char>::empty());
            }
        }
        out.append(extensions[i]);
        proof {
            if i == 0 {
                assert(out@ =~= next[0]);
            }
        }
        i += 1;
    }
    proof {
        assert(list.subrange(0, extensions@.len() as int) =~= list);
    }
    out
}

/// The version an import goes to, and whether the user may change it.
#[derive(Debug, Default)]
pub struct ImportWindowTarget {
    pub version_folder: Option<String>,
    pub instance_name: Option<String>,
    pub game_version: Option<String>,
    pub user_id: Option<String>,
    pub lock_version: bool,
}

impl ImportWindowTarget {
    /// A target bound to one version, which the user cannot change.
    pub fn locked(
        version_folder: String,
        instance_name: String,
        game_version: String,
        user_id: Option<String>,
    ) -> (r: Self)
        ensures
            r.version_folder == Some(version_folder),
            r.instance_name == Some(instance_name),
            r.game_version == Some(game_version),
            r.user_id == user_id,
            r.lock_version,
    {
        ImportWindowTarget {
            version_folder: Some(version_folder),
            instance_name: Some(instance_name),
            game_version: Some(game_version),
            user_id,
            lock_version: true,
        }
    }
}


/// Whether a package kind is a translation key (`Import.` prefix) rather
/// than text to show as it is.
pub fn kind_label_is_translated(kind: &str) -> (r: bool)
    ensures
        r == seq_starts_with(kind@, "Import."@),
{
    let prefix = "Import.";
    proof {
        reveal_strlit("Import.");
    }
    let n = prefix.unicode_len();
    if kind.unicode_len() < n {
        return false;
    }
    let mut i: usize = 0;
    while i < n
        invariant
            n == prefix@.len(),
            prefix@ == "Import."@,
            n <= kind@.len(),
            i <= n,
            forall|k: int| 0 <= k < i ==> kind@[k] == prefix@[k],
        decreases n - i,
    {
        if kind.get_char(i) != prefix.get_char(i) {
            return false;
        }
        i += 1;
    }
    proof {
        assert(kind@.subrange(0, n as int) =~= prefix@);
    }
    true
}

/// A world package.
pub fn is_world_preview(kind: &str) -> (r: bool)
    ensures
        r == (kind@ == "Import.minecraftWorlds"@),
{
    str_eq(kind, "Import.minecraftWorlds")
}

/// A world template package.
pub fn is_world_template_preview(kind: &str) -> (r: bool)
    ensures
        r == (kind@ == "Import.worldTemplates"@),
{
    str_eq(kind, "Import.worldTemplates")
}

/// A sub-pack of an imported package: its name and manifest uuid.
pub struct SubPackInfo {
    pub name: String,
    pub uuid: Option<String>,
}

/// The first sub-pack whose uuid equals the reference's, ignoring ASCII
/// case.
pub open spec fn spec_matched_pack(reference_uuid: Seq<char>, packs: Seq<SubPackInfo>) -> Option<Seq<char>>
    decreases packs.len(),
{
    if packs.len() == 0 {
        None
    } else {
        match packs[0].uuid {
            Some(u) if eq_ignore_ascii_case(u@, reference_uuid) => Some(packs[0].name@),
            _ => spec_matched_pack(reference_uuid, packs.drop_first()),
        }
    }
}

/// The name of the sub-pack a world's pack reference points at, if the
/// package holds it.
pub fn matched_pack_name_for_reference(reference_uuid: &str, sub_packs: Option<&Vec<SubPackInfo>>) -> (r: Option<String>)
    ensures
        opt_view(r) == (match sub_packs {
            Some(p) => spec_matched_pack(reference_uuid@, p@),
            None => None,
        }),
{
    let packs = match sub_packs {
        Some(p) => p,
        None => return None,
    };
    let mut i: usize = 0;
    proof {
        assert(packs@.subrange(0, packs@.len() as int) =~= packs@);
    }
    while i < packs.len()
        invariant
            sub_packs == Some(packs),
            i <= packs@.len(),
            spec_matched_pack(reference_uuid@, packs@) == spec_matched_pack(reference_uuid@, packs@.subrange(i as int, packs@.len() as int)),
        decreases packs@.len() - i,
    {
        let ghost rest = packs@.subrange(i as int, packs@.len() as int);
        proof {
            assert(rest.drop_first() =~= packs@.subrange(i + 1, packs@.len() as int));
            assert(rest[0] == packs@[i as int]);
        }
        let hit = match &packs[i].uuid {
            Some(u) => str_eq_ignore_ascii_case(u.as_str(), reference_uuid),
            None => false,
        };
        if hit {
            let name = packs[i].name.clone();
            proof {
                assert(name@ == packs@[i as int].name@);
            }
            return Some(name);
        }
        i += 1;
    }
    proof {
        assert(packs@.subrange(packs@.len() as int, packs@.len() as int) =~= Seq::<SubPackInfo>::empty());
    }
    None
}


/// Where the selected folder stands among the local versions: its first
/// position, or 0 when it is not among them.
pub fn selected_version_index(selected: &Option<String>, folders: &Vec<String>) -> (r: usize)
    ensures
        match selected {
            Some(f) => if exists|i: int| 0 <= i < folders@.len() && #[trigger] folders@[i]@ == f@ {
                r < folders@.len() && folders@[r as int]@ == f@ && forall|j: int| 0 <= j < r ==> folders@[j]@ != f@
            } else {
                r == 0
            },
            None => r == 0,
        },
{
    let f = match selected {
        Some(f) => f,
        None => return 0,
    };
    let mut i: usize = 0;
    while i < folders.len()
        invariant
            *selected == Some(*f),
            i <= folders@.len(),
            forall|j: int| 0 <= j < i ==> folders@[j]@ != f@,
        decreases folders@.len() - i,
    {
        if str_eq(folders[i].as_str(), f.as_str()) {
            return i;
        }
        i += 1;
    }
    0
}

/// The version an import goes to: the selected one, else the first; none
/// when there are no versions.
pub fn selected_launch_version(selected: &Option<String>, folders: &Vec<String>) -> (r: Option<usize>)
    ensures
        folders@.len() == 0 ==> r is None,
        folders@.len() > 0 ==> (r matches Some(i) && i < folders@.len() && (match selected {
            Some(f) => if exists|k: int| 0 <= k < folders@.len() && #[trigger] folders@[k]@ == f@ {
                folders@[i as int]@ == f@ && forall|j: int| 0 <= j < i ==> folders@[j]@ != f@
            } else {
                i == 0
            },
            None => i == 0,
        })),
{
    if folders.len() == 0 {
        return None;
    }
    Some(selected_version_index(selected, folders))
}

/// How the last import action ended.
#[derive(Clone, Copy, Debug, PartialEq, Eq, Structural)]
pub enum ImportStatusKind {
    Error,
    Success,
}

/// What the import window's state records between actions.
pub struct ImportSession {
    pub window_id: Option<u64>,
    pub selected_folder: Option<String>,
    pub status: Option<(ImportStatusKind, String)>,
    pub show_conflict_dialog: bool,
    pub is_inspecting: bool,
    pub is_importing: bool,
    pub launch_after_import: bool,
    pub close_after_launch_completion: bool,
    pub launch_completion_close_scheduled: bool,
}

/// What a request to import leads to.
pub enum ImportStart {
    /// No version is selected; the status says so.
    NoFolder,
    /// An import is already running; nothing changes.
    Busy,
    /// The inspected package is invalid, for this reason; nothing changes.
    InvalidPack(String),
    /// The selected version is not among the local versions; the status
    /// says so.
    MissingVersion,
    /// The conflict check starts for the version at this index.
    Started(usize),
}

/// What the conflict check leads to.
#[derive(Clone, Copy, Debug, PartialEq, Eq, Structural)]
pub enum ConflictStep {
    /// The check failed; the status holds its error.
    Failed,
    /// The target holds the package already: ask before overwriting.
    AskOverwrite,
    /// Go on with the import.
    Import,
}

/// Files imported and failed by one import.
#[derive(Clone, Copy, Debug)]
pub struct ImportCounts {
    pub imported_count: usize,
    pub failed_count: usize,
}

/// What follows a finished import.
pub struct ImportFinish {
    /// Shown as a toast and kept as the status.
    pub message: String,
    pub success: bool,
    /// Close the window after the auto-close delay.
    pub schedule_auto_close: bool,
}

pub open spec fn partial_import_text(imported: usize, failed: usize) -> Seq<char> {
    "导入完成，成功 "@ + spec_decimal(imported as nat) + " 个，失败 "@ + spec_decimal(failed as nat) + " 个"@
}

/// The status after an import with failures.
pub fn partial_import_message(imported: usize, failed: usize) -> (r: String)
    ensures
        r@ == partial_import_text(imported, failed),
{
    let mut text = String::from_str("导入完成，成功 ");
    append_decimal(&mut text, imported as u64);
    text.append(" 个，失败 ");
    append_decimal(&mut text, failed as u64);
    text.append(" 个");
    text
}

pub open spec fn status_of(status: Option<(ImportStatusKind, String)>) -> Option<(ImportStatusKind, Seq<char>)> {
    match status {
        Some((k, t)) => Some((k, t@)),
        None => None,
    }
}

impl ImportSession {
    pub fn new() -> (r: Self)
        ensures
            r.window_id is None,
            r.selected_folder is None,
            r.status is None,
            !r.show_conflict_dialog,
            !r.is_inspecting,
            !r.is_importing,
            !r.launch_after_import,
            !r.close_after_launch_completion,
            !r.launch_completion_close_scheduled,
    {
        ImportSession {
            window_id: None,
            selected_folder: None,
            status: None,
            show_conflict_dialog: false,
            is_inspecting: false,
            is_importing: false,
            launch_after_import: false,
            close_after_launch_completion: false,
            launch_completion_close_scheduled: false,
        }
    }

    /// Keeps the selected folder while it is among the local versions;
    /// otherwise selects the first version, or nothing without versions.
    pub fn sync_selected_folder(&mut self, folders: &Vec<String>)
        ensures
            folders@.len() == 0 ==> final(self).selected_folder is None,
            folders@.len() > 0 ==> (match old(self).selected_folder {
                Some(f) if exists|i: int| 0 <= i < folders@.len() && #[trigger] folders@[i]@ == f@ => opt_view(
                    final(self).selected_folder,
                ) == Some(f@),
                _ => opt_view(final(self).selected_folder) == Some(folders@[0]@),
            }),
            final(self).status == old(self).status,
            final(self).is_importing == old(self).is_importing,
            final(self).window_id == old(self).window_id,
    {
        if folders.len() == 0 {
            self.selected_folder = None;
            return;
        }
        let exists = match &self.selected_folder {
            Some(f) => {
                let mut found = false;
                let mut i: usize = 0;
                while i < folders.len()
                    invariant
                        i <= folders@.len(),
                        found == exists|k: int| 0 <= k < i && #[trigger] folders@[k]@ == f@,
                    decreases folders@.len() - i,
                {
                    if str_eq(folders[i].as_str(), f.as_str()) {
                        found = true;
                    }
                    i += 1;
                }
                found
            },
            None => false,
        };
        if !exists {
            let first = folders[0].clone();
            self.selected_folder = Some(first);
        }
    }

    /// Chooses the version to import into.
    pub fn set_selected_folder(&mut self, folder: String)
        ensures
            final(self).selected_folder == Some(folder),
            final(self).status == old(self).status,
            final(self).is_importing == old(self).is_importing,
    {
        self.selected_folder = Some(folder);
    }

    pub fn attach_window_id(&mut self, window_id: u64)
        ensures
            final(self).window_id == Some(window_id),
            final(self).status == old(self).status,
    {
        self.window_id = Some(window_id);
    }

    /// Sets an error status.
    pub fn set_error(&mut self, message: String)
        ensures
            final(self).status == Some((ImportStatusKind::Error, message)),
            final(self).is_importing == old(self).is_importing,
            final(self).is_inspecting == old(self).is_inspecting,
    {
        self.status = Some((ImportStatusKind::Error, message));
    }

    /// Starts inspecting the file unless an inspection runs already.
    pub fn begin_inspect(&mut self) -> (started: bool)
        ensures
            started == !old(self).is_inspecting,
            final(self).is_inspecting,
            final(self).status == old(self).status,
    {
        if self.is_inspecting {
            return false;
        }
        self.is_inspecting = true;
        true
    }

    /// Records the end of an inspection; a failure becomes the status.
    pub fn finish_inspect(&mut self, result: Result<(), String>)
        ensures
            !final(self).is_inspecting,
            match result {
                Ok(_) => final(self).status == old(self).status,
                Err(e) => final(self).status == Some((ImportStatusKind::Error, e)),
            },
    {
        self.is_inspecting = false;
        if let Err(e) = result {
            self.status = Some((ImportStatusKind::Error, e));
        }
    }

    /// A request to import: refused without a selected version, ignored
    /// while an import runs, refused for an invalid package (with its
    /// reason, or a missing uuid), and otherwise started for the selected
    /// version, or the first one, unless there is none.
    /// `preview` is the inspected package's validity and invalid reason.
    pub fn begin_import(
        &mut self,
        preview: Option<(bool, Option<String>)>,
        launch_after_import: bool,
        folders: &Vec<String>,
    ) -> (r: ImportStart)
        ensures
            old(self).selected_folder is None ==> r is NoFolder && final(self).is_importing == old(self).is_importing
                && status_of(final(self).status) == Some((ImportStatusKind::Error, "未选择导入版本"@)),
            old(self).selected_folder is Some && old(self).is_importing ==> r is Busy && final(self).status
                == old(self).status && final(self).is_importing,
            old(self).selected_folder is Some && !old(self).is_importing && (preview matches Some((valid, _))
                && !valid) ==> (r matches ImportStart::InvalidPack(reason) && reason@ == (match preview {
                Some((_, Some(t))) => t@,
                _ => "缺少 uuid"@,
            }) && final(self).status == old(self).status && !final(self).is_importing),
            old(self).selected_folder is Some && !old(self).is_importing && !(preview matches Some((valid, _))
                && !valid) ==> {
                &&& final(self).launch_after_import == launch_after_import
                &&& !final(self).show_conflict_dialog
                &&& folders@.len() == 0 ==> r is MissingVersion && !final(self).is_importing && status_of(
                    final(self).status,
                ) == Some((ImportStatusKind::Error, "未找到目标版本信息"@))
                &&& folders@.len() > 0 ==> final(self).is_importing && final(self).status is None && (r matches ImportStart::Started(
                    i,
                ) && i < folders@.len() && {
                    let f = old(self).selected_folder->0@;
                    if exists|k: int| 0 <= k < folders@.len() && #[trigger] folders@[k]@ == f {
                        folders@[i as int]@ == f && forall|j: int| 0 <= j < i ==> folders@[j]@ != f
                    } else {
                        i == 0
                    }
                })
            },
            final(self).selected_folder == old(self).selected_folder,
            final(self).window_id == old(self).window_id,
    {
        if self.selected_folder.is_none() {
            self.status = Some((ImportStatusKind::Error, String::from_str("未选择导入版本")));
            return ImportStart::NoFolder;
        }
        if self.is_importing {
            return ImportStart::Busy;
        }
        if let Some((valid, reason)) = preview {
            if !valid {
                let text = match reason {
                    Some(t) => t,
                    None => String::from_str("缺少 uuid"),
                };
                return ImportStart::InvalidPack(text);
            }
        }
        self.launch_after_import = launch_after_import;
        self.is_importing = true;
        self.status = None;
        self.show_conflict_dialog = false;
        match selected_launch_version(&self.selected_folder, folders) {
            Some(i) => ImportStart::Started(i),
            None => {
                self.is_importing = false;
                self.status = Some((ImportStatusKind::Error, String::from_str("未找到目标版本信息")));
                ImportStart::MissingVersion
            },
        }
    }

    /// The outcome of the conflict check: a failure stops the import with
    /// its error; a conflict without permission to overwrite stops it and
    /// asks; otherwise the import goes on.
    pub fn conflict_checked(&mut self, result: Result<bool, String>, overwrite: bool) -> (r: ConflictStep)
        ensures
            match result {
                Err(e) => r == ConflictStep::Failed && !final(self).is_importing && final(self).status == Some(
                    (ImportStatusKind::Error, e),
                ) && final(self).show_conflict_dialog == old(self).show_conflict_dialog,
                Ok(has_conflict) => if has_conflict && !overwrite {
                    r == ConflictStep::AskOverwrite && !final(self).is_importing && final(self).show_conflict_dialog
                        && final(self).status == old(self).status
                } else {
                    r == ConflictStep::Import && final(self).is_importing == old(self).is_importing
                        && final(self).status == old(self).status && final(self).show_conflict_dialog
                        == old(self).show_conflict_dialog
                },
            },
            final(self).launch_after_import == old(self).launch_after_import,
            final(self).selected_folder == old(self).selected_folder,
            final(self).window_id == old(self).window_id,
    {
        match result {
            Err(e) => {
                self.is_importing = false;
                self.status = Some((ImportStatusKind::Error, e));
                ConflictStep::Failed
            },
            Ok(has_conflict) => {
                if has_conflict && !overwrite {
                    self.is_importing = false;
                    self.show_conflict_dialog = true;
                    ConflictStep::AskOverwrite
                } else {
                    ConflictStep::Import
                }
            },
        }
    }

    /// Whether a finished import should start the game: it succeeded
    /// without failures and the user asked to launch after importing.
    pub fn wants_launch_after(&self, result: &Result<ImportCounts, String>) -> (r: bool)
        ensures
            r == (self.launch_after_import && (result matches Ok(c) && c.failed_count == 0)),
    {
        match result {
            Ok(c) => self.launch_after_import && c.failed_count == 0,
            Err(_) => false,
        }
    }

    /// Records a finished import. `launch_started` says whether the game was
    /// started after it; `success_text` and `launching_text` are the
    /// translated success messages.
    pub fn finish_import(
        &mut self,
        result: Result<ImportCounts, String>,
        launch_started: bool,
        success_text: &str,
        launching_text: &str,
    ) -> (r: ImportFinish)
        requires
            launch_started ==> old(self).launch_after_import && (result matches Ok(c) && c.failed_count == 0),
        ensures
            !final(self).is_importing,
            !final(self).launch_after_import,
            match result {
                Ok(c) => {
                    &&& r.success
                    &&& r.message@ == (if c.failed_count == 0 && launch_started {
                        launching_text@
                    } else if c.failed_count == 0 {
                        success_text@ + "，5 秒后自动关闭窗口"@
                    } else {
                        partial_import_text(c.imported_count, c.failed_count)
                    })
                    &&& status_of(final(self).status) == Some((ImportStatusKind::Success, r.message@))
                    &&& r.schedule_auto_close == !launch_started
                    &&& launch_started ==> final(self).close_after_launch_completion
                        && !final(self).launch_completion_close_scheduled
                    &&& !launch_started ==> final(self).close_after_launch_completion
                        == old(self).close_after_launch_completion && final(self).launch_completion_close_scheduled
                        == old(self).launch_completion_close_scheduled
                },
                Err(e) => {
                    &&& !r.success
                    &&& r.message@ == e@
                    &&& !r.schedule_auto_close
                    &&& status_of(final(self).status) == Some((ImportStatusKind::Error, e@))
                    &&& !final(self).close_after_launch_completion
                    &&& !final(self).launch_completion_close_scheduled
                },
            },
            final(self).selected_folder == old(self).selected_folder,
            final(self).window_id == old(self).window_id,
    {
        self.is_importing = false;
        self.launch_after_import = false;
        match result {
            Ok(c) => {
                let message = if c.failed_count == 0 && launch_started {
                    String::from_str(launching_text)
                } else if c.failed_count == 0 {
                    let mut text = String::from_str(success_text);
                    text.append("，5 秒后自动关闭窗口");
                    text
                } else {
                    partial_import_message(c.imported_count, c.failed_count)
                };
                let status_text = message.clone();
                self.status = Some((ImportStatusKind::Success, status_text));
                if launch_started {
                    self.close_after_launch_completion = true;
                    self.launch_completion_close_scheduled = false;
                }
                ImportFinish { message, success: true, schedule_auto_close: !launch_started }
            },
            Err(e) => {
                self.close_after_launch_completion = false;
                self.launch_completion_close_scheduled = false;
                let status_text = e.clone();
                self.status = Some((ImportStatusKind::Error, status_text));
                ImportFinish { message: e, success: false, schedule_auto_close: false }
            },
        }
    }

    /// Called as the window draws with whether the launcher's last task has
    /// completed. When the window waits for a launch it started to complete
    /// and no close is scheduled yet, a completed launch schedules the close
    /// (once): the result says so.
    pub fn on_launch_status(&mut self, launch_completed: bool) -> (schedule_close: bool)
        ensures
            schedule_close == (old(self).close_after_launch_completion
                && !old(self).launch_completion_close_scheduled && launch_completed),
            schedule_close ==> final(self).launch_completion_close_scheduled
                && !final(self).close_after_launch_completion,
            !schedule_close ==> final(self).launch_completion_close_scheduled
                == old(self).launch_completion_close_scheduled
                && final(self).close_after_launch_completion == old(self).close_after_launch_completion,
            final(self).window_id == old(self).window_id,
            final(self).selected_folder == old(self).selected_folder,
            final(self).status == old(self).status,
            final(self).is_importing == old(self).is_importing,
            final(self).is_inspecting == old(self).is_inspecting,
            final(self).launch_after_import == old(self).launch_after_import,
            final(self).show_conflict_dialog == old(self).show_conflict_dialog,
    {
        if self.close_after_launch_completion && !self.launch_completion_close_scheduled && launch_completed {
            self.launch_completion_close_scheduled = true;
            self.close_after_launch_completion = false;
            return true;
        }
        false
    }

    /// The window to close once the auto-close delay has passed: the
    /// attached window, while the status still reports success.
    pub fn close_target_after_delay(&self) -> (r: Option<u64>)
        ensures
            r == (if self.status matches Some((ImportStatusKind::Success, _)) {
                self.window_id
            } else {
                None
            }),
    {
        match &self.status {
            Some((ImportStatusKind::Success, _)) => self.window_id,
            _ => None,
        }
    }
}


/// Every dropped file goes to exactly one place: installed when it is a game
/// package, imported when it is an asset and no game package, ignored
/// otherwise; both lists keep the order of the drop.
pub proof fn law_dropped_files_partitioned(exts: Seq<Option<Seq<char>>>)
    ensures
        ({
            let (games, assets) = spec_dropped_route(exts);
            &&& forall|i: int| 0 <= i < exts.len() ==> (#[trigger] games.contains(i) <==> extension_listed(
                exts[i],
                game_package_extensions(),
            ))
            &&& forall|i: int| 0 <= i < exts.len() ==> (#[trigger] assets.contains(i) <==> (!extension_listed(
                exts[i],
                game_package_extensions(),
            ) && extension_listed(exts[i], import_asset_extensions())))
            &&& forall|k: int| 0 <= k < games.len() ==> 0 <= #[trigger] games[k] < exts.len()
            &&& forall|k: int| 0 <= k < assets.len() ==> 0 <= #[trigger] assets[k] < exts.len()
            &&& forall|a: int, b: int| 0 <= a < b < games.len() ==> #[trigger] games[a] < #[trigger] games[b]
            &&& forall|a: int, b: int| 0 <= a < b < assets.len() ==> #[trigger] assets[a] < #[trigger] assets[b]
        }),
    decreases exts.len(),
{
    if exts.len() > 0 {
        let pre = exts.drop_last();
        law_dropped_files_partitioned(pre);
        let (g0, a0) = spec_dropped_route(pre);
        let (g, a) = spec_dropped_route(exts);
        let last = exts.len() - 1;
        assert forall|i: int| 0 <= i < exts.len() implies (#[trigger] g.contains(i) <==> extension_listed(
            exts[i],
            game_package_extensions(),
        )) by {
            if i < last {
                assert(exts[i] == pre[i]);
                if g.contains(i) && !g0.contains(i) {
                    let k = choose|k: int| 0 <= k < g.len() && g[k] == i;
                    assert(k == g.len() - 1);
                }
                if g0.contains(i) {
                    let k = choose|k: int| 0 <= k < g0.len() && g0[k] == i;
                    if g.len() > g0.len() {
                        assert(g[k] == g0[k]);
                    }
                }
            } else {
                if g.contains(i) && g.len() == g0.len() {
                    let k = choose|k: int| 0 <= k < g.len() && g[k] == i;
                    assert(g0[k] < pre.len());
                }
                if g.len() > g0.len() {
                    assert(g[g.len() - 1] == i);
                }
            }
        }
        assert forall|i: int| 0 <= i < exts.len() implies (#[trigger] a.contains(i) <==> (!extension_listed(
            exts[i],
            game_package_extensions(),
        ) && extension_listed(exts[i], import_asset_extensions()))) by {
            if i < last {
                assert(exts[i] == pre[i]);
                if a.contains(i) && !a0.contains(i) {
                    let k = choose|k: int| 0 <= k < a.len() && a[k] == i;
                    assert(k == a.len() - 1);
                }
                if a0.contains(i) {
                    let k = choose|k: int| 0 <= k < a0.len() && a0[k] == i;
                    if a.len() > a0.len() {
                        assert(a[k] == a0[k]);
                    }
                }
            } else {
                if a.contains(i) && a.len() == a0.len() {
                    let k = choose|k: int| 0 <= k < a.len() && a[k] == i;
                    assert(a0[k] < pre.len());
                }
                if a.len() > a0.len() {
                    assert(a[a.len() - 1] == i);
                }
            }
        }
    }
}

} // verus!
