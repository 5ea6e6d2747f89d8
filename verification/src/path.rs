//! Where the launcher keeps its files below the game directory.
//!
//! Each folder is described by a `PathPlan`: the names joined in turn to the
//! game directory, each folder made if missing, and an optional file name
//! joined last. The file system work itself is done by the caller.
use crate::manifest::java_versions::runtime_platform;
use crate::text::{concat_str, contains_spec, contains_str, str_eq, to_chars, to_owned_string};
use vstd::prelude::*;

verus! {

pub struct PathPlan {
    pub folders: Vec<String>,
    pub file: Option<String>,
}

impl DeepView for PathPlan {
    type V = (Seq<Seq<char>>, Option<Seq<char>>);

    open spec fn deep_view(&self) -> (Seq<Seq<char>>, Option<Seq<char>>) {
        (
            self.folders.deep_view(),
            match self.file {
                Some(f) => Some(f@),
                None => None,
            },
        )
    }
}

/// What a download was asked to give back.
pub enum AskedType {
    U8Vec,
    String,
}

/// What a download gave back.
pub enum ReturnType {
    U8Vec(Vec<u8>),
    String(String),
}

pub(crate) fn plan2(a: &str, b: &str) -> (r: PathPlan)
    ensures
        r.folders.deep_view() == seq![a@, b@],
        r.file is None,
{
    let mut folders: Vec<String> = Vec::new();
    folders.push(to_owned_string(a));
    folders.push(to_owned_string(b));
    assert(folders.deep_view() =~= seq![a@, b@]);
    PathPlan { folders, file: None }
}

/// A folder directly below the game directory.
pub fn get_minecraft_sub_folder(sub: &str) -> (r: PathPlan)
    ensures
        r.folders.deep_view() == seq![sub@],
        r.file is None,
{
    let mut folders: Vec<String> = Vec::new();
    folders.push(to_owned_string(sub));
    assert(folders.deep_view() =~= seq![sub@]);
    PathPlan { folders, file: None }
}

/// The folder of a game version: `versions/<version>`.
pub fn get_version_folder(version: &str) -> (r: PathPlan)
    ensures
        r.folders.deep_view() == seq!["versions"@, version@],
        r.file is None,
{
    plan2("versions", version)
}

/// A folder of the assets: `assets/<sub>`.
pub fn get_assets_folder(sub: &str) -> (r: PathPlan)
    ensures
        r.folders.deep_view() == seq!["assets"@, sub@],
        r.file is None,
{
    plan2("assets", sub)
}

/// What is left of `s` once the separators and the `.` components at its
/// end are dropped, as a path reads them, keeping at least `floor`
/// characters.
pub open spec fn strip_tail(s: Seq<char>, floor: int) -> Seq<char>
    decreases s.len(),
{
    if s.len() == 0 || s.len() <= floor {
        s
    } else if s.last() == '/' {
        strip_tail(s.drop_last(), floor)
    } else if s.last() == '.' && (s.len() == 1 || s[s.len() - 2] == '/') {
        strip_tail(s.drop_last(), floor)
    } else {
        s
    }
}

/// How much of the start of a path is its root `/` or a leading `.`
/// component: none of it is ever dropped.
pub open spec fn path_floor(s: Seq<char>) -> int {
    if s.len() > 0 && (s[0] == '/' || (s[0] == '.' && (s.len() == 1 || s[1] == '/'))) {
        1
    } else {
        0
    }
}

/// The path `s` without its trailing separators and `.` components.
pub open spec fn trimmed_path(s: Seq<char>) -> Seq<char> {
    strip_tail(s, path_floor(s))
}

/// Where the last `/`-free run of `s` starts.
pub open spec fn last_run_start(s: Seq<char>) -> int
    decreases s.len(),
{
    if s.len() == 0 {
        0
    } else if s.last() == '/' {
        s.len() as int
    } else {
        last_run_start(s.drop_last())
    }
}

/// The path has a last component besides its root, so it has a parent
/// folder: it is not empty, and not made of its root alone (`/`, `//.`).
pub open spec fn has_parent(s: Seq<char>) -> bool {
    s.len() > 0 && !(s[0] == '/' && trimmed_path(s).len() <= 1)
}

/// The parent folder of a path, as a path names it: everything before its
/// last component, without the separators and `.` components that end it
/// (`a/b/` gives `a`, `/b` gives `/`, `./b` gives `.`).
pub open spec fn parent_part(s: Seq<char>) -> Seq<char> {
    let t = trimmed_path(s);
    if t.len() > path_floor(s) {
        strip_tail(t.take(last_run_start(t)), path_floor(s))
    } else {
        ""@
    }
}

/// The last component of a path (`a/b/` gives `b`; a path made of a
/// leading `.` alone gives `.`).
pub open spec fn last_part(s: Seq<char>) -> Seq<char> {
    let t = trimmed_path(s);
    if t.len() > path_floor(s) {
        t.skip(last_run_start(t))
    } else {
        "."@
    }
}

/// A name that can be placed in a folder: either a plain name, or a
/// `/`-separated path that has a parent folder.
pub open spec fn placeable_path(s: Seq<char>) -> bool {
    contains_spec(s, "/"@) ==> has_parent(s)
}

/// The end of `strip_tail` of the first `end` characters.
fn strip_end(chars: &Vec<char>, end: usize, floor: usize) -> (r: usize)
    requires
        end <= chars@.len(),
        floor <= 1,
    ensures
        r <= end,
        chars@.take(r as int) == strip_tail(chars@.take(end as int), floor as int),
{
    let mut e = end;
    loop
        invariant
            e <= end <= chars@.len(),
            strip_tail(chars@.take(e as int), floor as int) == strip_tail(
                chars@.take(end as int),
                floor as int,
            ),
        decreases e,
    {
        let ghost t = chars@.take(e as int);
        if e == 0 || e <= floor {
            return e;
        }
        assert(t.drop_last() =~= chars@.take(e - 1));
        if chars[e - 1] == '/' {
            e = e - 1;
        } else if chars[e - 1] == '.' && (e == 1 || chars[e - 2] == '/') {
            e = e - 1;
        } else {
            return e;
        }
    }
}

/// `last_run_start` of the first `end` characters.
fn run_start(chars: &Vec<char>, end: usize) -> (r: usize)
    requires
        end <= chars@.len(),
    ensures
        r <= end,
        r == last_run_start(chars@.take(end as int)),
{
    let mut e = end;
    loop
        invariant
            e <= end <= chars@.len(),
            last_run_start(chars@.take(e as int)) == last_run_start(chars@.take(end as int)),
        decreases e,
    {
        if e == 0 {
            return 0;
        }
        if chars[e - 1] == '/' {
            return e;
        }
        assert(chars@.take(e as int).drop_last() =~= chars@.take(e - 1));
        e = e - 1;
    }
}

fn floor_of(chars: &Vec<char>) -> (r: usize)
    ensures
        r == path_floor(chars@),
{
    let n = chars.len();
    if n > 0 && (chars[0] == '/' || (chars[0] == '.' && (n == 1 || chars[1] == '/'))) {
        1
    } else {
        0
    }
}

/// Whether `s` has a parent folder.
pub fn path_has_parent(s: &str) -> (r: bool)
    ensures
        r == has_parent(s@),
{
    let chars = to_chars(s);
    let n = chars.len();
    let floor = floor_of(&chars);
    assert(chars@.take(n as int) =~= s@);
    let t = strip_end(&chars, n, floor);
    n > 0 && !(chars[0] == '/' && t <= 1)
}

/// Whether `s` can be placed in a folder (see `placeable_path`).
pub fn is_placeable_path(s: &str) -> (r: bool)
    ensures
        r == placeable_path(s@),
{
    !contains_str(s, "/") || path_has_parent(s)
}

/// The parent folder and the last component of a path.
pub(crate) fn split_path(s: &str) -> (r: (String, String))
    requires
        has_parent(s@),
    ensures
        r.0@ == parent_part(s@),
        r.1@ == last_part(s@),
{
    let chars = to_chars(s);
    let n = chars.len();
    let floor = floor_of(&chars);
    assert(chars@.take(n as int) =~= s@);
    let t = strip_end(&chars, n, floor);
    if t > floor {
        let k = run_start(&chars, t);
        let p = strip_end(&chars, k, floor);
        proof {
            let tt = chars@.take(t as int);
            assert(tt.take(k as int) =~= chars@.take(k as int));
            assert(tt.skip(k as int) =~= s@.subrange(k as int, t as int));
            assert(chars@.take(p as int) =~= s@.subrange(0, p as int));
        }
        let mut parent = String::new();
        parent.append(s.substring_char(0, p));
        let mut last = String::new();
        last.append(s.substring_char(k, t));
        (parent, last)
    } else {
        proof {
            reveal_strlit("");
            reveal_strlit(".");
        }
        (to_owned_string(""), to_owned_string("."))
    }
}

/// The place of a library file: for a `/`-separated path, its folder below
/// `libraries` and its file name; otherwise the folder `libraries/<sub>`.
pub fn get_library_path(sub: &str) -> (r: PathPlan)
    requires
        placeable_path(sub@),
    ensures
        contains_spec(sub@, "/"@) ==> (r.file matches Some(f) && f@ == last_part(sub@)
            && r.folders.deep_view() == seq!["libraries"@, parent_part(sub@)]),
        !contains_spec(sub@, "/"@) ==> r.folders.deep_view() == seq!["libraries"@, sub@]
            && r.file is None,
{
    if contains_str(sub, "/") {
        let (parent, last) = split_path(sub);
        let mut plan = plan2("libraries", parent.as_str());
        plan.file = Some(last);
        plan
    } else {
        plan2("libraries", sub)
    }
}

/// The runtime folder name of the platform (empty when the platform has no
/// runtimes).
pub open spec fn os_java_name(os: Seq<char>, arch: Seq<char>) -> Seq<char> {
    match runtime_platform(os, arch) {
        Some(p) => p,
        None => ""@,
    }
}

fn get_os_java_name(os: &str, arch: &str) -> (r: String)
    ensures
        r@ == os_java_name(os@, arch@),
{
    if str_eq(os, "windows") {
        if str_eq(arch, "x86") {
            to_owned_string("windows-x86")
        } else if str_eq(arch, "x86_64") {
            to_owned_string("windows-x64")
        } else {
            to_owned_string("")
        }
    } else if str_eq(os, "macos") {
        to_owned_string("mac-os")
    } else if str_eq(arch, "x86") {
        to_owned_string("linux-i386")
    } else {
        to_owned_string("linux")
    }
}

/// The folder of a Java runtime for this platform:
/// `runtime/<type>/<platform>`.
pub fn get_java_folder_path(type_: &str, os: &str, arch: &str) -> (r: PathPlan)
    ensures
        r.folders.deep_view() == seq!["runtime"@, type_@, os_java_name(os@, arch@)],
        r.file is None,
{
    let mut plan = plan2("runtime", type_);
    let ghost before = plan.folders.deep_view();
    plan.folders.push(get_os_java_name(os, arch));
    assert(plan.folders.deep_view() =~= before.push(os_java_name(os@, arch@)));
    plan
}

/// The home of a Java runtime: `runtime/<type>/<platform>/<type>`.
pub fn get_java_folder_path_sub(type_: &str, os: &str, arch: &str) -> (r: PathPlan)
    ensures
        r.folders.deep_view() == seq!["runtime"@, type_@, os_java_name(os@, arch@)],
        r.file matches Some(f) && f@ == type_@,
{
    let mut plan = get_java_folder_path(type_, os, arch);
    plan.file = Some(to_owned_string(type_));
    plan
}

/// The folder where the natives of a version are extracted: `bin/<version>`.
pub fn get_bin_folder(version_name: String) -> (r: PathPlan)
    ensures
        r.folders.deep_view() == seq!["bin/"@ + version_name@],
        r.file is None,
{
    get_minecraft_sub_folder(concat_str("bin/", version_name.as_str()).as_str())
}

/// The name of the game directory on an operating system.
pub open spec fn minecraft_directory_name(os: Seq<char>) -> Seq<char> {
    if os == "macos"@ {
        "minecraft"@
    } else {
        ".minecraft"@
    }
}

pub fn get_minecraft_directory_name(os: &str) -> (r: String)
    ensures
        r@ == minecraft_directory_name(os@),
{
    if str_eq(os, "macos") {
        to_owned_string("minecraft")
    } else {
        to_owned_string(".minecraft")
    }
}

/// The game directory lies in the user's data directory on Windows and
/// macOS, in the home directory elsewhere.
pub fn minecraft_directory_in_data_dir(os: &str) -> (r: bool)
    ensures
        r == (os@ == "windows"@ || os@ == "macos"@),
{
    str_eq(os, "windows") || str_eq(os, "macos")
}

/// The text of a download: the text itself, or an error naming the URL.
/// `fetched` is what the download gave back, its failure already written
/// out as text.
pub fn read_file_from_url_to_string(url: &str, fetched: Result<ReturnType, String>) -> (r: Result<
    String,
    String,
>)
    ensures
        fetched matches Ok(ReturnType::String(s)) ==> r == Ok::<String, String>(s),
        fetched matches Ok(ReturnType::U8Vec(_)) ==> (r matches Err(e) && e@
            == "Wrong Return type, expected String found Vec<u8>!"@),
        fetched matches Err(err) ==> (r matches Err(e) && e@ == "Failed to download "@ + url@
            + ": "@ + err@),
{
    match fetched {
        Ok(ReturnType::U8Vec(_)) => Err(
            to_owned_string("Wrong Return type, expected String found Vec<u8>!"),
        ),
        Ok(ReturnType::String(s)) => Ok(s),
        Err(err) => {
            let mut msg = concat_str("Failed to download ", url);
            msg.append(": ");
            msg.append(err.as_str());
            Err(msg)
        },
    }
}

} // verus!
