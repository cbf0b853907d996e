use vstd::prelude::*;
use crate::cipher::KeyMaterial;
use crate::credential::decode_credential;
use crate::credential::parse_credential;
use crate::error::Error;
use crate::roots::base_dir;
use crate::roots::joined;
use crate::roots::needs_base;
use crate::roots::parse_root;
use crate::roots::resolve_path;
use crate::roots::resolved_path;
use crate::roots::root_of;
use crate::roots::same_text;
use crate::roots::text_of;
use crate::roots::upper_of;
use crate::roots::uppercase;
use crate::roots::Root;

verus! {

/// What a manifest entry asks for.
#[derive(Debug, Clone, Copy, PartialEq, Eq, Structural)]
pub enum Action {
    Encrypt,
    Decrypt,
    /// Any other action word.
    Unknown,
}

/// One operation of a manifest.
#[derive(Debug, Clone)]
pub struct ManifestEntry {
    /// `ENCRYPT` or `DECRYPT`, in any case.
    pub action: String,
    /// An optional root token such as `HOME` or `TEMP`.
    pub root: Option<String>,
    /// The credential; needed only to decrypt.
    pub key: Option<String>,
    /// Absolute, or relative to the root's directory.
    pub filepath: String,
}

/// Why an entry was passed over without being counted as a failure.
#[derive(Debug, Clone, Copy, PartialEq, Eq, Structural)]
pub enum SkipReason {
    /// The host could not supply the root's base directory.
    RootUnavailable,
    /// A decrypt entry carries no credential.
    MissingCredential,
}

/// The work decided for one entry.
#[derive(Debug, Clone)]
pub enum Plan {
    /// Encrypt the file at `path` under fresh key material.
    Encrypt { path: String },
    /// Decrypt the file at `path` with the entry's key material.
    Decrypt { path: String, material: KeyMaterial },
    Skipped(SkipReason),
    Failed(Error),
    /// The action word is neither encrypt nor decrypt.
    Unrecognized,
}

/// The action that an upper-case word names.
pub open spec fn action_of_upper(u: Seq<char>) -> Action {
    if u == "ENCRYPT"@ {
        Action::Encrypt
    } else if u == "DECRYPT"@ {
        Action::Decrypt
    } else {
        Action::Unknown
    }
}

/// Classifies an action word that is already in upper case.
pub fn action_from_upper(u: &str) -> (r: Action)
    ensures
        r == action_of_upper(u@),
{
    if same_text(u, "ENCRYPT") {
        Action::Encrypt
    } else if same_text(u, "DECRYPT") {
        Action::Decrypt
    } else {
        Action::Unknown
    }
}

/// Classifies an action word, ignoring case.
pub fn parse_action(s: &str) -> (r: Action)
    ensures
        r == action_of_upper(upper_of(s@)),
{
    let u = uppercase(s);
    action_from_upper(u.as_str())
}

/// The action of an entry.
pub open spec fn entry_action(e: ManifestEntry) -> Action {
    action_of_upper(upper_of(e.action@))
}

/// The root of an entry.
pub open spec fn entry_root(e: ManifestEntry) -> Root {
    root_of(text_of(e.root))
}

/// Whether `p` is the plan for entry `e` when the host supplies `base` for its root.
/// An unknown action is unrecognized; an unavailable base directory skips the
/// entry; a decrypt entry without credential is skipped, and one with a malformed
/// credential fails.
pub open spec fn plan_fits(e: ManifestEntry, base: Option<Seq<char>>, p: Plan) -> bool {
    let path = resolved_path(entry_root(e), base, e.filepath@);
    match entry_action(e) {
        Action::Unknown => p is Unrecognized,
        Action::Encrypt => match path {
            None => p matches Plan::Skipped(s) && s == SkipReason::RootUnavailable,
            Some(q) => p matches Plan::Encrypt { path } && path@ == q,
        },
        Action::Decrypt => match path {
            None => p matches Plan::Skipped(s) && s == SkipReason::RootUnavailable,
            Some(q) => match e.key {
                None => p matches Plan::Skipped(s) && s == SkipReason::MissingCredential,
                Some(k) => match parse_credential(k@) {
                    None => p matches Plan::Failed(err) && err == Error::CredentialFormat,
                    Some((key, nonce)) => p matches Plan::Decrypt { path, material }
                        && path@ == q && material.key@ == key && material.nonce@ == nonce,
                },
            },
        },
    }
}

/// Whether `base` is a possible answer of the host for `root`, given the
/// temporary directory `temp`.
pub open spec fn base_fits(root: Root, temp: Seq<char>, base: Option<Seq<char>>) -> bool {
    &&& root is Temp ==> base == Some(temp)
    &&& !needs_base(root) ==> base is None
}

/// Whether `p` is the plan for `e` for some answer of the host about its root.
pub open spec fn planned(e: ManifestEntry, temp: Seq<char>, p: Plan) -> bool {
    exists|base: Option<Seq<char>>| base_fits(entry_root(e), temp, base) && #[trigger] plan_fits(e, base, p)
}

/// Decides the work for one entry, given the base directory of its root.
pub fn plan_entry_with(e: &ManifestEntry, base: Option<String>) -> (r: Plan)
    ensures
        plan_fits(*e, text_of(base), r),
{
    let action = parse_action(e.action.as_str());
    if action == Action::Unknown {
        return Plan::Unrecognized;
    }
    let root = match &e.root {
        Some(t) => parse_root(Some(t.as_str())),
        None => parse_root(None),
    };
    let path = match resolve_path(root, base, e.filepath.as_str()) {
        Some(p) => p,
        None => return Plan::Skipped(SkipReason::RootUnavailable),
    };
    if action == Action::Encrypt {
        return Plan::Encrypt { path };
    }
    match &e.key {
        None => Plan::Skipped(SkipReason::MissingCredential),
        Some(k) => match decode_credential(k.as_str()) {
            Ok(material) => Plan::Decrypt { path, material },
            Err(err) => Plan::Failed(err),
        },
    }
}

/// Decides the work for one entry, asking the host for its root's directory;
/// `temp_dir` is the system's temporary directory.
pub fn plan_entry(e: &ManifestEntry, temp_dir: &str) -> (r: Plan)
    ensures
        planned(*e, temp_dir@, r),
{
    let root = match &e.root {
        Some(t) => parse_root(Some(t.as_str())),
        None => parse_root(None),
    };
    let base = base_dir(root, temp_dir);
    let ghost b = text_of(base);
    let r = plan_entry_with(e, base);
    assert(base_fits(entry_root(*e), temp_dir@, b) && plan_fits(*e, b, r));
    r
}

/// Decides the work for every entry of a manifest. Each plan depends on its own
/// entry alone, so a skipped or failed entry leaves the others' plans untouched.
pub fn plan_batch(entries: &Vec<ManifestEntry>, temp_dir: &str) -> (r: Vec<Plan>)
    ensures
        r@.len() == entries@.len(),
        forall|i: int| 0 <= i < entries@.len() ==> planned(entries@[i], temp_dir@, #[trigger] r@[i]),
{
    let mut r: Vec<Plan> = Vec::new();
    let mut i: usize = 0;
    while i < entries.len()
        invariant
            i <= entries@.len(),
            r@.len() == i,
            forall|k: int| 0 <= k < i ==> planned(entries@[k], temp_dir@, #[trigger] r@[k]),
        decreases entries@.len() - i,
    {
        let p = plan_entry(&entries[i], temp_dir);
        r.push(p);
        i = i + 1;
    }
    r
}

/// An encrypt entry whose root needs no host directory, or is the temporary
/// directory, is always planned for encryption, whatever else the manifest holds:
/// at the temporary directory joined with its path for a temporary root, and at
/// its path as written otherwise. No working directory enters the result.
pub proof fn lemma_encrypt_entry_plan(e: ManifestEntry, temp: Seq<char>, p: Plan)
    requires
        entry_action(e) is Encrypt,
        entry_root(e) is Temp || !needs_base(entry_root(e)),
        planned(e, temp, p),
    ensures
        p matches Plan::Encrypt { path } && path@ == (if entry_root(e) is Temp {
            joined(temp, e.filepath@)
        } else {
            e.filepath@
        }),
{
    let base = choose|base: Option<Seq<char>>| base_fits(entry_root(e), temp, base) && #[trigger] plan_fits(e, base, p);
    assert(plan_fits(e, base, p));
}

} // verus!
