//! Spawn planning: everything a launch decides before any OS call — which
//! executable runs the worker script, how the caller's CSV argument is
//! normalized, which temp file must be written first, which environment
//! variable points the worker at bundled browser assets, and whether the
//! child gets its own process group.
use vstd::prelude::*;
use crate::Platform;
use crate::text::{i64_to_decimal, join_path, signed_decimal_of};

verus! {

/// How the caller's single CSV argument is read: blank means manual mode,
/// an existing filesystem path is handed through, and anything else is
/// inline content to be materialized in a temp file.
#[derive(Clone, Copy, PartialEq, Eq, Structural, Debug)]
pub enum CsvArgKind {
    Manual,
    ExistingPath,
    InlineContent,
}

/// The Unicode whitespace characters, as trimming recognizes them.
pub open spec fn is_space_char(c: char) -> bool {
    ||| c as int == 0x20
    ||| (0x09 <= c as int && c as int <= 0x0D)
    ||| c as int == 0x85
    ||| c as int == 0xA0
    ||| c as int == 0x1680
    ||| (0x2000 <= c as int && c as int <= 0x200A)
    ||| c as int == 0x2028
    ||| c as int == 0x2029
    ||| c as int == 0x202F
    ||| c as int == 0x205F
    ||| c as int == 0x3000
}

/// A text is blank when every character is whitespace (so also when empty).
pub open spec fn is_blank(s: Seq<char>) -> bool {
    forall|i: int| 0 <= i < s.len() ==> is_space_char(#[trigger] s[i])
}

fn char_is_space(c: char) -> (r: bool)
    ensures
        r == is_space_char(c),
{
    let code = c as u32;
    code == 0x20 || (0x09 <= code && code <= 0x0D) || code == 0x85 || code == 0xA0
        || code == 0x1680 || (0x2000 <= code && code <= 0x200A) || code == 0x2028
        || code == 0x2029 || code == 0x202F || code == 0x205F || code == 0x3000
}

/// Whether a text is blank: empty or whitespace only.
pub fn str_is_blank(s: &str) -> (r: bool)
    ensures
        r == is_blank(s@),
{
    let n = s.unicode_len();
    let mut i: usize = 0;
    while i < n
        invariant
            n == s@.len(),
            i <= n,
            forall|j: int| 0 <= j < i ==> is_space_char(#[trigger] s@[j]),
        decreases n - i,
    {
        let c = s.get_char(i);
        if !char_is_space(c) {
            return false;
        }
        i = i + 1;
    }
    true
}

/// The kind of a CSV argument, given whether it names an existing file.
pub open spec fn csv_arg_kind(arg: Seq<char>, path_exists: bool) -> CsvArgKind {
    if is_blank(arg) {
        CsvArgKind::Manual
    } else if path_exists {
        CsvArgKind::ExistingPath
    } else {
        CsvArgKind::InlineContent
    }
}

/// Reads the caller's CSV argument: blank requests manual mode; otherwise an
/// existing path is used as is, and anything else is inline content.
pub fn classify_csv_arg(arg: &str, path_exists: bool) -> (k: CsvArgKind)
    ensures
        k == csv_arg_kind(arg@, path_exists),
{
    if str_is_blank(arg) {
        CsvArgKind::Manual
    } else if path_exists {
        CsvArgKind::ExistingPath
    } else {
        CsvArgKind::InlineContent
    }
}

/// The platform's path separator.
pub open spec fn path_sep(platform: Platform) -> char {
    match platform {
        Platform::Windows => '\\',
        Platform::Posix => '/',
    }
}

fn path_sep_char(platform: Platform) -> (c: char)
    ensures
        c == path_sep(platform),
{
    match platform {
        Platform::Windows => '\\',
        Platform::Posix => '/',
    }
}

/// The directory holding the worker and its assets, under the project root.
pub open spec fn automation_dir_spec(platform: Platform, root: Seq<char>) -> Seq<char> {
    root + seq![path_sep(platform)] + "automation"@
}

/// The worker script's path.
pub open spec fn script_path_spec(platform: Platform, root: Seq<char>) -> Seq<char> {
    automation_dir_spec(platform, root) + seq![path_sep(platform)] + "index.js"@
}

/// The bundled runtime binary checked for on Windows.
pub open spec fn bundled_node_path_spec(platform: Platform, root: Seq<char>) -> Seq<char> {
    automation_dir_spec(platform, root) + seq![path_sep(platform)] + "node-windows"@
        + seq![path_sep(platform)] + "node.exe"@
}

/// The program that runs the worker: on Windows the bundled runtime when it
/// is present, otherwise the system-resolved name.
pub open spec fn program_spec(platform: Platform, root: Seq<char>, bundled_node_exists: bool) -> Seq<char> {
    if platform is Windows && bundled_node_exists {
        bundled_node_path_spec(platform, root)
    } else {
        "node"@
    }
}

/// The bundled browser-assets directory checked for on every platform.
pub open spec fn playwright_dir_spec(platform: Platform, root: Seq<char>) -> Seq<char> {
    automation_dir_spec(platform, root) + seq![path_sep(platform)] + ".playwright"@
}

/// The temp file that materializes inline CSV content, stamped with the
/// launch's clock reading so successive launches do not collide.
pub open spec fn temp_csv_path_spec(platform: Platform, temp_dir: Seq<char>, stamp: int) -> Seq<char> {
    temp_dir + seq![path_sep(platform)] + "form-automation-"@ + signed_decimal_of(stamp)
        + ".csv"@
}

/// One environment variable to set on the child.
pub struct EnvVar {
    pub name: String,
    pub value: String,
}

/// One file the shell must write before launching.
pub struct TempFileWrite {
    pub path: String,
    pub content: String,
}

/// Everything one launch does, decided up front: the program and its two
/// arguments (worker script, CSV argument), an optional temp file to write
/// first, an optional environment variable, and whether the child is placed
/// in a new process group so the whole subtree can be signaled later.
pub struct SpawnPlan {
    pub program: String,
    pub script_arg: String,
    pub csv_arg: String,
    pub temp_file: Option<TempFileWrite>,
    pub env: Option<EnvVar>,
    pub new_process_group: bool,
}

/// Builds the launch plan from plain facts the shell gathered: the project
/// root, the caller's CSV argument and whether it names an existing file,
/// which bundled assets are present, the temp directory, and a clock stamp.
pub fn build_spawn_plan(
    platform: Platform,
    project_root: &str,
    csv_arg: &str,
    csv_path_exists: bool,
    bundled_node_exists: bool,
    playwright_dir_exists: bool,
    temp_dir: &str,
    stamp_millis: i64,
) -> (p: SpawnPlan)
    ensures
        p.program@ == program_spec(platform, project_root@, bundled_node_exists),
        p.script_arg@ == script_path_spec(platform, project_root@),
        p.new_process_group == (platform is Posix),
        playwright_dir_exists ==> (p.env matches Some(e)
            && e.name@ == "PLAYWRIGHT_BROWSERS_PATH"@
            && e.value@ == playwright_dir_spec(platform, project_root@)),
        !playwright_dir_exists ==> p.env is None,
        csv_arg_kind(csv_arg@, csv_path_exists) is Manual ==> (p.csv_arg@ == Seq::<char>::empty()
            && p.temp_file is None),
        csv_arg_kind(csv_arg@, csv_path_exists) is ExistingPath ==> (p.csv_arg@ == csv_arg@
            && p.temp_file is None),
        csv_arg_kind(csv_arg@, csv_path_exists) is InlineContent ==> (p.temp_file matches Some(t)
            && t.path@ == temp_csv_path_spec(platform, temp_dir@, stamp_millis as int)
            && t.content@ == csv_arg@
            && p.csv_arg@ == t.path@),
{
    let sep = path_sep_char(platform);
    let automation_dir = join_path(project_root, sep, "automation");
    let script_arg = join_path(automation_dir.as_str(), sep, "index.js");

    let program = if matches!(platform, Platform::Windows) && bundled_node_exists {
        let node_dir = join_path(automation_dir.as_str(), sep, "node-windows");
        join_path(node_dir.as_str(), sep, "node.exe")
    } else {
        "node".to_owned()
    };

    let env = if playwright_dir_exists {
        Option::Some(
            EnvVar {
                name: "PLAYWRIGHT_BROWSERS_PATH".to_owned(),
                value: join_path(automation_dir.as_str(), sep, ".playwright"),
            },
        )
    } else {
        Option::None
    };

    let kind = classify_csv_arg(csv_arg, csv_path_exists);
    let (csv_value, temp_file): (String, Option<TempFileWrite>) = match kind {
        CsvArgKind::Manual => (String::new(), Option::None),
        CsvArgKind::ExistingPath => (csv_arg.to_owned(), Option::None),
        CsvArgKind::InlineContent => {
            let mut name = "form-automation-".to_owned();
            let stamp = i64_to_decimal(stamp_millis);
            name.append(stamp.as_str());
            name.append(".csv");
            let path = join_path(temp_dir, sep, name.as_str());
            (path.clone(), Option::Some(TempFileWrite { path, content: csv_arg.to_owned() }))
        },
    };

    SpawnPlan {
        program,
        script_arg,
        csv_arg: csv_value,
        temp_file,
        env,
        new_process_group: matches!(platform, Platform::Posix),
    }
}

/// Relies on `chrono::Utc::now` and `timestamp_millis`: the clock's reading
/// in milliseconds since the epoch. The value depends on the clock, so
/// nothing is promised of it.
#[verifier::external_body]
fn now_timestamp_millis() -> i64 {
    chrono::Utc::now().timestamp_millis()
}

/// Builds the launch plan with a stamp freshly read from the clock. Every
/// field is pinned down except the temp file's stamp, which the ensures
/// states for whatever reading the clock gave.
pub fn build_spawn_plan_now(
    platform: Platform,
    project_root: &str,
    csv_arg: &str,
    csv_path_exists: bool,
    bundled_node_exists: bool,
    playwright_dir_exists: bool,
    temp_dir: &str,
) -> (p: SpawnPlan)
    ensures
        p.program@ == program_spec(platform, project_root@, bundled_node_exists),
        p.script_arg@ == script_path_spec(platform, project_root@),
        p.new_process_group == (platform is Posix),
        playwright_dir_exists ==> (p.env matches Some(e)
            && e.name@ == "PLAYWRIGHT_BROWSERS_PATH"@
            && e.value@ == playwright_dir_spec(platform, project_root@)),
        !playwright_dir_exists ==> p.env is None,
        csv_arg_kind(csv_arg@, csv_path_exists) is Manual ==> (p.csv_arg@ == Seq::<char>::empty()
            && p.temp_file is None),
        csv_arg_kind(csv_arg@, csv_path_exists) is ExistingPath ==> (p.csv_arg@ == csv_arg@
            && p.temp_file is None),
        csv_arg_kind(csv_arg@, csv_path_exists) is InlineContent ==> (p.temp_file matches Some(t)
            && (exists|stamp: int|
                t.path@ == temp_csv_path_spec(platform, temp_dir@, stamp))
            && t.content@ == csv_arg@
            && p.csv_arg@ == t.path@),
{
    let stamp_millis = now_timestamp_millis();
    let p = build_spawn_plan(
        platform,
        project_root,
        csv_arg,
        csv_path_exists,
        bundled_node_exists,
        playwright_dir_exists,
        temp_dir,
        stamp_millis,
    );
    proof {
        if csv_arg_kind(csv_arg@, csv_path_exists) is InlineContent {
            assert(p.temp_file matches Some(t) && t.path@ == temp_csv_path_spec(
                platform,
                temp_dir@,
                stamp_millis as int,
            ));
        }
    }
    p
}

} // verus!
