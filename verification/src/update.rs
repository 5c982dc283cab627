use vstd::prelude::*;
use crate::text::{
    chars_eq_str, chars_of, concat_str, parse_u32, parse_u32_spec, split_on, string_from_chars,
};

verus! {

/// The number a version part stands for: its value, or 0 where it is no number.
pub open spec fn component_value(p: Seq<char>) -> u32 {
    match parse_u32_spec(p) {
        Some(v) => v,
        None => 0,
    }
}

/// The numbers of a dotted version string, part by part (the parts between its dots).
pub open spec fn version_components(s: Seq<char>) -> Seq<u32> {
    split_on(s, '.').map_values(|p: Seq<char>| component_value(p))
}

/// The number at position `i` of a version, with missing positions read as 0.
pub open spec fn component_at(v: Seq<u32>, i: int) -> int {
    if 0 <= i < v.len() {
        v[i] as int
    } else {
        0
    }
}

/// Version `a` is newer than `b`: at the first position where they differ, `a` is larger.
pub open spec fn components_newer(a: Seq<u32>, b: Seq<u32>) -> bool {
    exists|i: int|
        #![trigger component_at(a, i), component_at(b, i)]
        0 <= i && component_at(a, i) > component_at(b, i) && forall|j: int|
            #![trigger component_at(a, j), component_at(b, j)]
            0 <= j < i ==> component_at(a, j) == component_at(b, j)
}

/// The numbers of a dotted version string.
pub fn version_components_of(s: &str) -> (v: Vec<u32>)
    ensures
        v@ == version_components(s@),
{
    let cs = chars_of(s);
    let n: usize = cs.len();
    let mut values: Vec<u32> = Vec::new();
    let mut cur: Vec<char> = Vec::new();
    let ghost mut done: Seq<Seq<char>> = Seq::empty();
    for i in 0..n
        invariant
            n == cs@.len(),
            cs@ == s@,
            split_on(cs@.take(i as int), '.') == done.push(cur@),
            values@ == done.map_values(|p: Seq<char>| component_value(p)),
    {
        let c = cs[i];
        assert(cs@.take(i + 1).drop_last() == cs@.take(i as int));
        if c == '.' {
            let v = match parse_u32(cur.as_slice()) {
                Some(x) => x,
                None => 0,
            };
            values.push(v);
            proof {
                done = done.push(cur@);
            }
            cur = Vec::new();
            assert(values@ =~= done.map_values(|p: Seq<char>| component_value(p)));
        } else {
            cur.push(c);
        }
    }
    assert(cs@.take(n as int) == cs@);
    let v = match parse_u32(cur.as_slice()) {
        Some(x) => x,
        None => 0,
    };
    values.push(v);
    proof {
        assert(values@ =~= done.push(cur@).map_values(|p: Seq<char>| component_value(p)));
    }
    values
}

/// Whether version `new` is newer than version `current` (both dotted numbers,
/// compared part by part, with missing or unreadable parts counting as 0).
pub fn is_version_newer(new: &str, current: &str) -> (r: bool)
    ensures
        r == components_newer(version_components(new@), version_components(current@)),
{
    let a = version_components_of(new);
    let b = version_components_of(current);
    let n: usize = if a.len() > b.len() { a.len() } else { b.len() };
    for i in 0..n
        invariant
            n == (if a@.len() > b@.len() { a@.len() } else { b@.len() }),
            a@ == version_components(new@),
            b@ == version_components(current@),
            forall|j: int| 0 <= j < i ==> component_at(a@, j) == component_at(b@, j),
    {
        let x: u32 = if i < a.len() { a[i] } else { 0 };
        let y: u32 = if i < b.len() { b[i] } else { 0 };
        assert(x == component_at(a@, i as int));
        assert(y == component_at(b@, i as int));
        if x > y {
            return true;
        }
        if x < y {
            assert forall|k: int|
                0 <= k && component_at(a@, k) > component_at(b@, k) implies !(forall|j: int|
                0 <= j < k ==> component_at(a@, j) == component_at(b@, j)) by {
                if k > i {
                    assert(component_at(a@, i as int) != component_at(b@, i as int));
                }
            }
            return false;
        }
    }
    assert forall|k: int|
        0 <= k && component_at(a@, k) > component_at(b@, k) implies !(forall|j: int|
        0 <= j < k ==> component_at(a@, j) == component_at(b@, j)) by {
        if k >= n {
            assert(component_at(a@, k) == 0);
        }
    }
    false
}

/// No version is newer than itself.
pub proof fn lemma_version_newer_irreflexive(v: Seq<u32>)
    ensures
        !components_newer(v, v),
{
}

/// Of two versions, at most one is newer than the other.
pub proof fn lemma_version_newer_asymmetric(a: Seq<u32>, b: Seq<u32>)
    requires
        components_newer(a, b),
    ensures
        !components_newer(b, a),
{
    let i = choose|i: int|
        #![trigger component_at(a, i), component_at(b, i)]
        0 <= i && component_at(a, i) > component_at(b, i) && forall|j: int|
            #![trigger component_at(a, j), component_at(b, j)]
            0 <= j < i ==> component_at(a, j) == component_at(b, j);
    assert forall|k: int|
        0 <= k && component_at(b, k) > component_at(a, k) implies !(forall|j: int|
        0 <= j < k ==> component_at(b, j) == component_at(a, j)) by {
        if k > i {
            assert(component_at(b, i) != component_at(a, i));
        } else if k < i {
            assert(component_at(a, k) == component_at(b, k));
        }
    }
}

/// Newer than is transitive.
pub proof fn lemma_version_newer_transitive(a: Seq<u32>, b: Seq<u32>, c: Seq<u32>)
    requires
        components_newer(a, b),
        components_newer(b, c),
    ensures
        components_newer(a, c),
{
    let i = choose|i: int|
        #![trigger component_at(a, i), component_at(b, i)]
        0 <= i && component_at(a, i) > component_at(b, i) && forall|j: int|
            #![trigger component_at(a, j), component_at(b, j)]
            0 <= j < i ==> component_at(a, j) == component_at(b, j);
    let k = choose|k: int|
        #![trigger component_at(b, k), component_at(c, k)]
        0 <= k && component_at(b, k) > component_at(c, k) && forall|j: int|
            #![trigger component_at(b, j), component_at(c, j)]
            0 <= j < k ==> component_at(b, j) == component_at(c, j);
    let m = if i < k { i } else { k };
    assert(component_at(a, m) > component_at(c, m)) by {
        if i < k {
            assert(component_at(b, i) == component_at(c, i));
        } else if k < i {
            assert(component_at(a, k) == component_at(b, k));
        }
    }
    assert forall|j: int| 0 <= j < m implies component_at(a, j) == component_at(c, j) by {
        assert(component_at(a, j) == component_at(b, j));
        assert(component_at(b, j) == component_at(c, j));
    }
}


/// What the tool knows and shows about a newer release.
pub struct UpdateState {
    pub has_update: bool,
    pub new_version: String,
    pub download_url: String,
    pub skipped: bool,
    pub in_progress: bool,
    pub status: String,
    pub body: Option<String>,
}

/// A release as the release service describes it.
pub struct GithubRelease {
    pub tag_name: String,
    pub body: Option<String>,
    pub assets: Vec<GithubAsset>,
}

/// A file attached to a release.
pub struct GithubAsset {
    pub name: String,
    pub browser_download_url: String,
}

/// The state before any check: no update known, nothing shown.
pub fn init_state() -> (s: UpdateState)
    ensures
        !s.has_update,
        s.new_version@ == Seq::<char>::empty(),
        s.download_url@ == Seq::<char>::empty(),
        !s.skipped,
        !s.in_progress,
        s.status@ == Seq::<char>::empty(),
        s.body is None,
{
    UpdateState {
        has_update: false,
        new_version: String::new(),
        download_url: String::new(),
        skipped: false,
        in_progress: false,
        status: String::new(),
        body: None,
    }
}

/// The version of this program.
pub open spec fn current_version() -> Seq<char> {
    seq!['2', '.', '4', '.', '1']
}

/// The name of the program file among a release's assets.
pub open spec fn program_asset_name() -> Seq<char> {
    seq!['n', 'z', 't', 'o', 'o', 'l', '_', 'o', 'a', 'r', '.', 'e', 'x', 'e']
}

/// A tag without its leading `v`s (`str::trim_start_matches('v')`).
pub open spec fn strip_leading_v(s: Seq<char>) -> Seq<char>
    decreases s.len(),
{
    if s.len() > 0 && s[0] == 'v' {
        strip_leading_v(s.skip(1))
    } else {
        s
    }
}

/// A release tag names a version newer than this program's.
pub open spec fn release_is_newer(tag: Seq<char>) -> bool {
    components_newer(
        version_components(strip_leading_v(tag)),
        version_components(current_version()),
    )
}

/// `i` is the first asset with the given name.
pub open spec fn is_first_asset_named(assets: Seq<GithubAsset>, name: Seq<char>, i: int) -> bool {
    &&& 0 <= i < assets.len()
    &&& assets[i].name@ == name
    &&& forall|j: int| 0 <= j < i ==> assets[j].name@ != name
}

/// The message that announces a new version.
pub open spec fn new_version_message(tag: Seq<char>) -> Seq<char> {
    "New version "@ + tag + " is available!"@
}

/// The characters of a tag after its leading `v`s.
fn strip_v(cs: &[char]) -> (r: Vec<char>)
    ensures
        r@ == strip_leading_v(cs@),
{
    let n: usize = cs.len();
    let mut i: usize = 0;
    assert(cs@.skip(0) == cs@);
    while i < n && cs[i] == 'v'
        invariant
            i <= n,
            n == cs@.len(),
            strip_leading_v(cs@) == strip_leading_v(cs@.skip(i as int)),
        decreases n - i,
    {
        assert(cs@.skip(i as int).skip(1) == cs@.skip(i + 1));
        i = i + 1;
    }
    let mut r: Vec<char> = Vec::new();
    let mut k: usize = i;
    while k < n
        invariant
            i <= k <= n,
            n == cs@.len(),
            r@ == cs@.subrange(i as int, k as int),
        decreases n - k,
    {
        r.push(cs[k]);
        assert(cs@.subrange(i as int, k + 1) == cs@.subrange(i as int, k as int).push(cs@[k as int]));
        k = k + 1;
    }
    assert(cs@.subrange(i as int, n as int) == cs@.skip(i as int));
    r
}

/// The position of the first asset with the given name.
fn find_asset(assets: &Vec<GithubAsset>, name: &str) -> (r: Option<usize>)
    ensures
        match r {
            Some(i) => is_first_asset_named(assets@, name@, i as int),
            None => forall|j: int| 0 <= j < assets@.len() ==> assets@[j].name@ != name@,
        },
{
    let n: usize = assets.len();
    for i in 0..n
        invariant
            n == assets@.len(),
            forall|j: int| 0 <= j < i ==> assets@[j].name@ != name@,
    {
        let cs = chars_of(assets[i].name.as_str());
        if chars_eq_str(cs.as_slice(), name) {
            return Some(i);
        }
    }
    None
}

/// Records what a release offers: when its tag names a newer version and it carries
/// the program file, the update is announced with that file's address; otherwise
/// nothing changes.
pub fn check_for_updates(state: &mut UpdateState, release: &GithubRelease)
    ensures
        if release_is_newer(release.tag_name@) && exists|i: int|
            is_first_asset_named(release.assets@, program_asset_name(), i) {
            let i = choose|i: int| is_first_asset_named(release.assets@, program_asset_name(), i);
            &&& final(state).has_update
            &&& final(state).new_version@ == release.tag_name@
            &&& final(state).download_url@ == release.assets@[i].browser_download_url@
            &&& final(state).status@ == new_version_message(release.tag_name@)
            &&& final(state).body == release.body
            &&& final(state).skipped == old(state).skipped
            &&& final(state).in_progress == old(state).in_progress
        } else {
            *final(state) == *old(state)
        },
{
    let tag = chars_of(release.tag_name.as_str());
    let clean_chars = strip_v(tag.as_slice());
    let clean = string_from_chars(clean_chars.as_slice());
    proof {
        reveal_strlit("2.4.1");
        assert("2.4.1"@ =~= current_version());
        reveal_strlit("nztool_oar.exe");
        assert("nztool_oar.exe"@ =~= program_asset_name());
    }
    if is_version_newer(clean.as_str(), "2.4.1") {
        match find_asset(&release.assets, "nztool_oar.exe") {
            Some(i) => {
                proof {
                    let k = choose|k: int| is_first_asset_named(release.assets@, program_asset_name(), k);
                    if k < i {
                        assert(release.assets@[k].name@ != program_asset_name());
                    } else if i < k {
                        assert(release.assets@[i as int].name@ != program_asset_name());
                    }
                    assert(k == i);
                }
                state.has_update = true;
                state.new_version = release.tag_name.clone();
                state.download_url = release.assets[i].browser_download_url.clone();
                let head = concat_str("New version ", release.tag_name.as_str());
                state.status = concat_str(head.as_str(), " is available!");
                state.body = match &release.body {
                    Some(b) => Some(b.clone()),
                    None => None,
                };
            },
            None => {},
        }
    }
}

/// A step of installing an update that can fail.
#[derive(Clone, Copy, PartialEq, Eq, Debug, Structural)]
pub enum UpdateStep {
    Download,
    Read,
    ExePath,
    Rename,
    Write,
}

/// The words that open the message of a failed step.
pub open spec fn update_failure_prefix(step: UpdateStep) -> Seq<char> {
    match step {
        UpdateStep::Download => "Download failed: "@,
        UpdateStep::Read => "Failed to read data: "@,
        UpdateStep::ExePath => "Failed to get current exe path: "@,
        UpdateStep::Rename => "Failed to rename current exe: "@,
        UpdateStep::Write => "Failed to write new exe: "@,
    }
}

/// Starts installing the announced update: marks it in progress, says so, and gives
/// the address to download.
pub fn start_update(state: &mut UpdateState) -> (url: String)
    ensures
        url@ == old(state).download_url@,
        final(state).in_progress,
        final(state).status@ == "Downloading update..."@,
        final(state).has_update == old(state).has_update,
        final(state).new_version == old(state).new_version,
        final(state).download_url == old(state).download_url,
        final(state).skipped == old(state).skipped,
        final(state).body == old(state).body,
{
    state.in_progress = true;
    state.status = "Downloading update...".to_owned();
    state.download_url.clone()
}

impl UpdateState {
    /// Records that a step of the installation failed, with what went wrong.
    pub fn fail(&mut self, step: UpdateStep, detail: &str)
        ensures
            !final(self).in_progress,
            final(self).status@ == update_failure_prefix(step) + detail@,
            final(self).has_update == old(self).has_update,
            final(self).new_version == old(self).new_version,
            final(self).download_url == old(self).download_url,
            final(self).skipped == old(self).skipped,
            final(self).body == old(self).body,
    {
        let prefix = match step {
            UpdateStep::Download => "Download failed: ",
            UpdateStep::Read => "Failed to read data: ",
            UpdateStep::ExePath => "Failed to get current exe path: ",
            UpdateStep::Rename => "Failed to rename current exe: ",
            UpdateStep::Write => "Failed to write new exe: ",
        };
        self.status = concat_str(prefix, detail);
        self.in_progress = false;
    }
}

} // verus!
