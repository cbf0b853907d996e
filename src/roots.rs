use vstd::prelude::*;
use vstd::string::StrSliceExecFns;
use vstd::string::StringExecFns;

verus! {

/// A symbolic base directory named by a manifest entry.
#[derive(Debug, Clone, Copy, PartialEq, Eq, Structural)]
pub enum Root {
    /// The user's home directory (`HOME`).
    Home,
    /// The user's configuration directory (`CONFIG`, `ROAMING`).
    Config,
    /// The user's cache directory (`CACHE`, `LOCAL`).
    Cache,
    /// The system's temporary directory (`TEMP`, `TMP`).
    Temp,
    /// A token that names none of these: the path is used as it stands.
    Unrecognized,
    /// No token was given: the path is used as it stands.
    Absent,
}

/// Unicode upper-case mapping of `s`, as std's `str::to_uppercase` gives it.
pub uninterp spec fn upper_of(s: Seq<char>) -> Seq<char>;

/// Relies on std's `str::to_uppercase`: the result depends on the characters alone.
#[verifier::external_body]
pub(crate) fn uppercase(s: &str) -> (r: String)
    ensures
        r@ == upper_of(s@),
{
    s.to_uppercase()
}

/// Whether two strings hold the same characters.
pub fn same_text(a: &str, b: &str) -> (r: bool)
    ensures
        r == (a@ == b@),
{
    let n = a.unicode_len();
    if n != b.unicode_len() {
        return false;
    }
    let mut i: usize = 0;
    while i < n
        invariant
            n == a@.len(),
            n == b@.len(),
            i <= n,
            forall|k: int| 0 <= k < i ==> a@[k] == b@[k],
        decreases n - i,
    {
        if a.get_char(i) != b.get_char(i) {
            return false;
        }
        i = i + 1;
    }
    proof {
        assert(a@ =~= b@);
    }
    true
}

/// The root that an upper-case token names.
pub open spec fn root_of_upper(u: Seq<char>) -> Root {
    if u == "HOME"@ {
        Root::Home
    } else if u == "CONFIG"@ || u == "ROAMING"@ {
        Root::Config
    } else if u == "CACHE"@ || u == "LOCAL"@ {
        Root::Cache
    } else if u == "TEMP"@ || u == "TMP"@ {
        Root::Temp
    } else {
        Root::Unrecognized
    }
}

/// The root that an optional token names, whatever its case.
pub open spec fn root_of(token: Option<Seq<char>>) -> Root {
    match token {
        None => Root::Absent,
        Some(t) => root_of_upper(upper_of(t)),
    }
}

/// Classifies a token that is already in upper case.
pub fn root_from_upper(u: &str) -> (r: Root)
    ensures
        r == root_of_upper(u@),
{
    if same_text(u, "HOME") {
        Root::Home
    } else if same_text(u, "CONFIG") || same_text(u, "ROAMING") {
        Root::Config
    } else if same_text(u, "CACHE") || same_text(u, "LOCAL") {
        Root::Cache
    } else if same_text(u, "TEMP") || same_text(u, "TMP") {
        Root::Temp
    } else {
        Root::Unrecognized
    }
}

/// Classifies an optional root token, ignoring case.
pub fn parse_root(token: Option<&str>) -> (r: Root)
    ensures
        match token {
            None => r == Root::Absent,
            Some(t) => r == root_of_upper(upper_of(t@)),
        },
{
    match token {
        None => Root::Absent,
        Some(t) => {
            let u = uppercase(t);
            root_from_upper(u.as_str())
        },
    }
}

/// Whether the root stands for a base directory that the host must supply.
pub open spec fn needs_base(root: Root) -> bool {
    root is Home || root is Config || root is Cache || root is Temp
}

/// `rel` taken relative to `base`: an absolute `rel` stands alone; otherwise a
/// separator is put between the two unless `base` is empty or already ends in one.
pub open spec fn joined(base: Seq<char>, rel: Seq<char>) -> Seq<char> {
    if rel.len() > 0 && rel[0] == '/' {
        rel
    } else if base.len() == 0 || base.last() == '/' {
        base + rel
    } else {
        base + seq!['/'] + rel
    }
}

/// The characters of an optional string.
pub open spec fn text_of(s: Option<String>) -> Option<Seq<char>> {
    match s {
        Some(t) => Some(t@),
        None => None,
    }
}

/// The effective path of an entry: joined to the base directory where the root
/// names one, `None` where that directory is unavailable, and the path as it
/// stands where no root applies.
pub open spec fn resolved_path(root: Root, base: Option<Seq<char>>, path: Seq<char>) -> Option<Seq<char>> {
    if needs_base(root) {
        match base {
            Some(b) => Some(joined(b, path)),
            None => None,
        }
    } else {
        Some(path)
    }
}

/// Joins `rel` onto `base` as a path.
pub fn join_path(base: &str, rel: &str) -> (r: String)
    ensures
        r@ == joined(base@, rel@),
{
    let bl = base.unicode_len();
    if rel.unicode_len() > 0 && rel.get_char(0) == '/' {
        return String::from_str(rel);
    }
    let mut r = String::from_str(base);
    if bl > 0 && base.get_char(bl - 1) != '/' {
        proof {
            reveal_strlit("/");
        }
        r.append("/");
    }
    r.append(rel);
    r
}

/// Resolves an entry's path against the base directory of its root.
pub fn resolve_path(root: Root, base: Option<String>, path: &str) -> (r: Option<String>)
    ensures
        text_of(r) == resolved_path(root, text_of(base), path@),
{
    match root {
        Root::Home | Root::Config | Root::Cache | Root::Temp => match base {
            Some(b) => Some(join_path(b.as_str(), path)),
            None => None,
        },
        _ => Some(String::from_str(path)),
    }
}

/// Relies on dirs' `home_dir`; a path that is not valid UTF-8 counts as unavailable.
#[verifier::external_body]
fn home_directory() -> (r: Option<String>) {
    dirs::home_dir()?.into_os_string().into_string().ok()
}

/// Relies on dirs' `config_dir`; a path that is not valid UTF-8 counts as unavailable.
#[verifier::external_body]
fn config_directory() -> (r: Option<String>) {
    dirs::config_dir()?.into_os_string().into_string().ok()
}

/// Relies on dirs' `cache_dir`; a path that is not valid UTF-8 counts as unavailable.
#[verifier::external_body]
fn cache_directory() -> (r: Option<String>) {
    dirs::cache_dir()?.into_os_string().into_string().ok()
}

/// The base directory that the host supplies for a root. The temporary directory
/// is passed in; the user's directories come from the host and may be missing.
pub fn base_dir(root: Root, temp_dir: &str) -> (r: Option<String>)
    ensures
        root is Temp ==> text_of(r) == Some(temp_dir@),
        !needs_base(root) ==> r is None,
{
    match root {
        Root::Home => home_directory(),
        Root::Config => config_directory(),
        Root::Cache => cache_directory(),
        Root::Temp => Some(String::from_str(temp_dir)),
        _ => None,
    }
}

} // verus!
