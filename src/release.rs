use vstd::prelude::*;
use vstd::string::StrSliceExecFns;
use vstd::string::StringExecFns;
use crate::swap::Strategy;

verus! {

/// One downloadable file of a release.
#[derive(Clone, Debug)]
pub struct Artifact {
    pub name: String,
    pub download_url: String,
}

/// The latest published release: its tag and its files.
#[derive(Clone, Debug)]
pub struct Release {
    pub tag: String,
    pub artifacts: Vec<Artifact>,
}

/// What the running build is, as far as updating goes.
#[derive(Clone, Copy, Debug, PartialEq, Eq, Structural)]
pub struct Platform {
    /// Whether the build runs on Windows.
    pub windows: bool,
    /// Whether the platform lets a running executable be renamed.
    pub rename_open_executable: bool,
}

/// Whether some artifact is named `name`.
pub open spec fn has_named(arts: Seq<Artifact>, name: Seq<char>) -> bool {
    exists|k: int| 0 <= k < arts.len() && #[trigger] arts[k].name@ == name
}

/// `k` is the first artifact named `name`.
pub open spec fn first_named(arts: Seq<Artifact>, name: Seq<char>, k: int) -> bool {
    &&& 0 <= k < arts.len()
    &&& arts[k].name@ == name
    &&& forall|j: int| 0 <= j < k ==> #[trigger] arts[j].name@ != name
}

/// The name of the artifact built for a platform.
pub open spec fn artifact_name_of(windows: bool) -> Seq<char> {
    if windows {
        "miapp-win.exe"@
    } else {
        "miapp-linux"@
    }
}

/// The swap strategy that a platform allows.
pub open spec fn strategy_of(p: Platform) -> Strategy {
    if p.rename_open_executable {
        Strategy::RenameInPlace
    } else {
        Strategy::DeferredHelper
    }
}

/// The address of the latest release of `owner`'s repository `repo`.
pub open spec fn feed_url_of(owner: Seq<char>, repo: Seq<char>) -> Seq<char> {
    "https://api.github.com/repos/"@ + owner + "/"@ + repo + "/releases/latest"@
}

impl Platform {
    /// The name of the artifact built for this platform.
    pub fn artifact_name(&self) -> (r: &'static str)
        ensures
            r@ == artifact_name_of(self.windows),
    {
        if self.windows {
            "miapp-win.exe"
        } else {
            "miapp-linux"
        }
    }

    /// The swap strategy that this platform allows.
    pub fn strategy(&self) -> (r: Strategy)
        ensures
            r == strategy_of(*self),
    {
        if self.rename_open_executable {
            Strategy::RenameInPlace
        } else {
            Strategy::DeferredHelper
        }
    }
}

/// Whether two strings hold the same characters.
pub fn same_text(a: &str, b: &str) -> (r: bool)
    ensures
        r == (a@ == b@),
{
    let n = a.unicode_len();
    if n != b.unicode_len() {
        return false;
    }
    let mut i: usize = 0;
    while i < n
        invariant
            n == a@.len() == b@.len(),
            i <= n,
            forall|j: int| 0 <= j < i ==> a@[j] == b@[j],
        decreases n - i,
    {
        if a.get_char(i) != b.get_char(i) {
            return false;
        }
        i = i + 1;
    }
    assert(a@ =~= b@);
    true
}

/// The index of the first artifact of `release` named exactly `name`, or
/// `None` where the release has none for it.
pub fn find_artifact(release: &Release, name: &str) -> (r: Option<usize>)
    ensures
        r is None <==> !has_named(release.artifacts@, name@),
        r matches Some(k) ==> first_named(release.artifacts@, name@, k as int),
{
    let n = release.artifacts.len();
    let mut i: usize = 0;
    while i < n
        invariant
            n == release.artifacts@.len(),
            i <= n,
            forall|j: int| 0 <= j < i ==> #[trigger] release.artifacts@[j].name@ != name@,
        decreases n - i,
    {
        if same_text(release.artifacts[i].name.as_str(), name) {
            return Some(i);
        }
        i = i + 1;
    }
    None
}

/// The address of the latest release of `owner`'s repository `repo`.
pub fn feed_url(owner: &str, repo: &str) -> (r: String)
    ensures
        r@ == feed_url_of(owner@, repo@),
{
    let mut r = String::new();
    r.append("https://api.github.com/repos/");
    r.append(owner);
    r.append("/");
    r.append(repo);
    r.append("/releases/latest");
    r
}

} // verus!
