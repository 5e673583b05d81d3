use vstd::prelude::*;

use crate::manifest::{Manifest, ManifestView, ShaderView};
use crate::manifest::ShaderKind;
use crate::paths::{join, join_spec, str_eq};

verus! {

/// The fixed file name of the manifest that every visited directory must
/// contain.
pub fn manifest_file_name() -> (r: &'static str)
    ensures
        r@ == "shadermake.toml"@,
{
    "shadermake.toml"
}

/// A shader with its path fully resolved relative to the source root, ready
/// for compilation.
pub struct ShaderToCompile {
    pub name: String,
    pub path: String,
    pub kind: ShaderKind,
}

/// The mathematical value of a [`ShaderToCompile`].
#[verifier::ext_equal]
pub ghost struct ShaderToCompileView {
    pub name: Seq<char>,
    pub path: Seq<char>,
    pub kind: ShaderKind,
}

impl View for ShaderToCompile {
    type V = ShaderToCompileView;

    open spec fn view(&self) -> ShaderToCompileView {
        ShaderToCompileView { name: self.name@, path: self.path@, kind: self.kind }
    }
}

/// The flat worklist discovery produces.
pub struct ShadersToCompile(pub Vec<ShaderToCompile>);

impl View for ShadersToCompile {
    type V = Seq<ShaderToCompileView>;

    open spec fn view(&self) -> Seq<ShaderToCompileView> {
        self.0@.map_values(|s: ShaderToCompile| s@)
    }
}

/// The worklist entries a manifest read in `dir` contributes: one per
/// declaration, its path the declared path joined onto `dir`.
pub open spec fn manifest_contribution(dir: Seq<char>, m: ManifestView) -> Seq<
    ShaderToCompileView,
> {
    m.shaders.map_values(
        |p: (Seq<char>, ShaderView)|
            (ShaderToCompileView { name: p.0, path: join_spec(dir, p.1.path), kind: p.1.kind }),
    )
}

/// The directories a manifest read in `dir` queues for later visits: its
/// subdirectory names joined onto `dir`.
pub open spec fn queued_subdirectories(dir: Seq<char>, m: ManifestView) -> Seq<Seq<char>> {
    m.subdirectories.map_values(|s: Seq<char>| join_spec(dir, s))
}

/// Law: a well-formed manifest (pairwise-distinct names) contributes
/// worklist entries with pairwise-distinct names.
pub proof fn lemma_contribution_names_distinct(dir: Seq<char>, m: ManifestView)
    requires
        m.wf(),
    ensures
        forall|i: int, j: int|
            0 <= i < j < manifest_contribution(dir, m).len() ==> manifest_contribution(
                dir,
                m,
            )[i].name != manifest_contribution(dir, m)[j].name,
{
    assert forall|i: int, j: int|
        0 <= i < j < manifest_contribution(dir, m).len() implies manifest_contribution(
        dir,
        m,
    )[i].name != manifest_contribution(dir, m)[j].name by {
        assert(manifest_contribution(dir, m)[i].name == m.shaders[i].0);
        assert(manifest_contribution(dir, m)[j].name == m.shaders[j].0);
    }
}

/// The discovery engine's state: the directories still to visit (a stack,
/// popped from the end) and the worklist gathered so far. The walk starts at
/// the source root, written as the empty relative path.
pub struct Discovery {
    pub queue: Vec<String>,
    pub shaders: Vec<ShaderToCompile>,
}

/// The mathematical value of a [`Discovery`].
#[verifier::ext_equal]
pub ghost struct DiscoveryView {
    pub queue: Seq<Seq<char>>,
    pub shaders: Seq<ShaderToCompileView>,
}

impl View for Discovery {
    type V = DiscoveryView;

    open spec fn view(&self) -> DiscoveryView {
        DiscoveryView {
            queue: self.queue@.map_values(|s: String| s@),
            shaders: self.shaders@.map_values(|s: ShaderToCompile| s@),
        }
    }
}

/// The state discovery starts from: only the root queued, nothing gathered.
pub open spec fn discovery_init() -> DiscoveryView {
    DiscoveryView { queue: seq![Seq::<char>::empty()], shaders: Seq::empty() }
}

/// One discovery step: the popped directory's manifest adds its declarations
/// to the worklist and its subdirectories to the stack.
pub open spec fn discovery_step(st: DiscoveryView, m: ManifestView) -> DiscoveryView {
    let d = st.queue.last();
    DiscoveryView {
        queue: st.queue.drop_last() + queued_subdirectories(d, m),
        shaders: st.shaders + manifest_contribution(d, m),
    }
}

/// Law: one discovery step adds exactly the visited manifest's declarations
/// to the worklist, in order, each entry keeping its declared name and
/// stage, with its path the declared path joined onto the directory being
/// visited. So a completed walk gathers exactly the total number of
/// declarations across all visited manifests.
pub proof fn lemma_discovery_step_worklist(st: DiscoveryView, m: ManifestView)
    ensures
        discovery_step(st, m).shaders.len() == st.shaders.len() + m.shaders.len(),
        discovery_step(st, m).shaders.subrange(0, st.shaders.len() as int) == st.shaders,
        forall|i: int| 0 <= i < m.shaders.len() ==> discovery_step(st, m).shaders[st.shaders.len()
            + i] == (ShaderToCompileView {
            name: m.shaders[i].0,
            path: join_spec(st.queue.last(), m.shaders[i].1.path),
            kind: m.shaders[i].1.kind,
        }),
{
    let stepped = discovery_step(st, m).shaders;
    assert(stepped.subrange(0, st.shaders.len() as int) =~~= st.shaders);
    assert forall|i: int| 0 <= i < m.shaders.len() implies stepped[st.shaders.len() + i]
        == (ShaderToCompileView {
        name: m.shaders[i].0,
        path: join_spec(st.queue.last(), m.shaders[i].1.path),
        kind: m.shaders[i].1.kind,
    }) by {
        assert(stepped[st.shaders.len() + i] =~~= (ShaderToCompileView {
            name: m.shaders[i].0,
            path: join_spec(st.queue.last(), m.shaders[i].1.path),
            kind: m.shaders[i].1.kind,
        }));
    }
}

impl Discovery {
    pub fn new() -> (d: Discovery)
        ensures
            d@ == discovery_init(),
    {
        let mut queue: Vec<String> = Vec::new();
        queue.push(String::new());
        let d = Discovery { queue, shaders: Vec::new() };
        proof {
            assert(d@ =~= discovery_init());
        }
        d
    }

    /// Pop the next directory to visit, if any is left.
    pub fn next_directory(&mut self) -> (r: Option<String>)
        ensures
            old(self)@.queue.len() == 0 ==> r is None && final(self)@ == old(self)@,
            old(self)@.queue.len() > 0 ==> (r matches Some(d) && d@ == old(self)@.queue.last()
                && final(self)@.queue == old(self)@.queue.drop_last() && final(self)@.shaders
                == old(self)@.shaders),
    {
        let r = self.queue.pop();
        proof {
            if old(self)@.queue.len() == 0 {
                assert(final(self)@ =~= old(self)@);
            } else {
                assert(final(self)@.queue =~= old(self)@.queue.drop_last());
            }
        }
        r
    }

    /// Record the manifest found in `directory`: append its declarations to
    /// the worklist, with paths joined onto `directory`, and queue its
    /// subdirectories, likewise joined.
    pub fn add_manifest(&mut self, directory: &str, manifest: &Manifest)
        ensures
            final(self)@.shaders == old(self)@.shaders + manifest_contribution(
                directory@,
                manifest@,
            ),
            final(self)@.queue == old(self)@.queue + queued_subdirectories(
                directory@,
                manifest@,
            ),
    {
        let ghost contribution = manifest_contribution(directory@, manifest@);
        let ghost queued = queued_subdirectories(directory@, manifest@);
        let ghost shaders0 = self@.shaders;
        let ghost queue0 = self@.queue;
        proof {
            assert(shaders0 + contribution.take(0) =~~= shaders0);
            assert(queue0 + queued.take(0) =~~= queue0);
        }
        let mut i: usize = 0;
        while i < manifest.shaders.len()
            invariant
                0 <= i <= manifest.shaders@.len(),
                contribution == manifest_contribution(directory@, manifest@),
                contribution.len() == manifest.shaders@.len(),
                self@.shaders == shaders0 + contribution.take(i as int),
                self@.queue == queue0,
            decreases manifest.shaders@.len() - i,
        {
            let ghost pre = self@.shaders;
            let name = manifest.shaders[i].0.clone();
            let path = join(directory, manifest.shaders[i].1.path.as_str());
            let kind = manifest.shaders[i].1.kind;
            let stc = ShaderToCompile { name, path, kind };
            let ghost stcv = stc@;
            self.shaders.push(stc);
            proof {
                assert(stcv =~= contribution[i as int]);
                assert(self@.shaders =~~= pre.push(stcv));
                assert(contribution.take(i as int + 1) =~~= contribution.take(i as int).push(
                    contribution[i as int],
                ));
                assert(self@.shaders =~~= shaders0 + contribution.take(i as int + 1));
            }
            i = i + 1;
        }
        let mut j: usize = 0;
        while j < manifest.subdirectories.len()
            invariant
                0 <= j <= manifest.subdirectories@.len(),
                queued == queued_subdirectories(directory@, manifest@),
                queued.len() == manifest.subdirectories@.len(),
                self@.shaders == shaders0 + contribution,
                self@.queue == queue0 + queued.take(j as int),
            decreases manifest.subdirectories@.len() - j,
        {
            let ghost pre = self@.queue;
            let sub = join(directory, manifest.subdirectories[j].as_str());
            let ghost subv = sub@;
            self.queue.push(sub);
            proof {
                assert(subv =~= queued[j as int]);
                assert(self@.queue =~~= pre.push(subv));
                assert(queued.take(j as int + 1) =~~= queued.take(j as int).push(
                    queued[j as int],
                ));
                assert(self@.queue =~~= queue0 + queued.take(j as int + 1));
            }
            j = j + 1;
        }
        proof {
            assert(contribution.take(manifest.shaders@.len() as int) =~~= contribution);
            assert(queued.take(manifest.subdirectories@.len() as int) =~~= queued);
        }
    }

    /// Hand the gathered worklist out.
    pub fn into_shaders(self) -> (r: ShadersToCompile)
        ensures
            r@ == self@.shaders,
    {
        ShadersToCompile(self.shaders)
    }
}

/// A manifest tree held in memory: each entry pairs a directory path,
/// relative to the source root, with the manifest found there.
pub struct ManifestTree {
    pub entries: Vec<(String, Manifest)>,
}

impl View for ManifestTree {
    type V = Seq<(Seq<char>, ManifestView)>;

    open spec fn view(&self) -> Seq<(Seq<char>, ManifestView)> {
        self.entries@.map_values(|p: (String, Manifest)| (p.0@, p.1@))
    }
}

/// The manifest of the first entry for directory `d`, if the tree has one.
pub open spec fn tree_lookup_spec(t: Seq<(Seq<char>, ManifestView)>, d: Seq<char>) -> Option<
    ManifestView,
>
    decreases t.len(),
{
    if t.len() == 0 {
        None
    } else if t[0].0 == d {
        Some(t[0].1)
    } else {
        tree_lookup_spec(t.drop_first(), d)
    }
}

fn tree_lookup<'a>(tree: &'a ManifestTree, d: &str) -> (r: Option<&'a Manifest>)
    ensures
        r matches Some(m) ==> tree_lookup_spec(tree@, d@) == Some(m@),
        r is None <==> tree_lookup_spec(tree@, d@) is None,
{
    let mut i: usize = 0;
    proof {
        assert(tree@.skip(0) =~~= tree@);
    }
    while i < tree.entries.len()
        invariant
            0 <= i <= tree.entries@.len(),
            tree_lookup_spec(tree@, d@) == tree_lookup_spec(tree@.skip(i as int), d@),
        decreases tree.entries@.len() - i,
    {
        proof {
            assert(tree@.skip(i as int).len() > 0);
            assert(tree@.skip(i as int)[0] == tree@[i as int]);
            assert(tree@.skip(i as int).drop_first() =~~= tree@.skip(i as int + 1));
        }
        if str_eq(tree.entries[i].0.as_str(), d) {
            return Some(&tree.entries[i].1);
        }
        i = i + 1;
    }
    proof {
        assert(tree@.skip(tree.entries@.len() as int) =~~= Seq::<(Seq<char>, ManifestView)>::empty());
    }
    None
}

/// The discovery engine's state after `n` steps over the tree `t`, starting
/// from the root: each step pops the next queued directory and records its
/// manifest. `None` if some step found no manifest for its directory, or if
/// the walk had already finished.
pub open spec fn replay(t: Seq<(Seq<char>, ManifestView)>, n: nat) -> Option<DiscoveryView>
    decreases n,
{
    if n == 0 {
        Some(discovery_init())
    } else {
        match replay(t, (n - 1) as nat) {
            None => None,
            Some(st) => {
                if st.queue.len() == 0 {
                    None
                } else {
                    match tree_lookup_spec(t, st.queue.last()) {
                        None => None,
                        Some(m) => Some(discovery_step(st, m)),
                    }
                }
            },
        }
    }
}

/// After `n` steps over `t` the walk has drained its queue, having gathered
/// exactly `shaders`: the concatenation, in visit order, of every visited
/// manifest's declarations, each joined onto its manifest's directory.
pub open spec fn run_complete(
    t: Seq<(Seq<char>, ManifestView)>,
    n: nat,
    shaders: Seq<ShaderToCompileView>,
) -> bool {
    &&& replay(t, n) is Some
    &&& replay(t, n)->0.queue.len() == 0
    &&& shaders == replay(t, n)->0.shaders
}

/// After `n` steps over `t` the walk is stuck: a directory is queued whose
/// manifest the tree lacks, and `path` names the missing manifest file.
pub open spec fn run_stuck(t: Seq<(Seq<char>, ManifestView)>, n: nat, path: Seq<char>) -> bool {
    &&& replay(t, n) is Some
    &&& replay(t, n)->0.queue.len() > 0
    &&& tree_lookup_spec(t, replay(t, n)->0.queue.last()) is None
    &&& path == join_spec(replay(t, n)->0.queue.last(), "shadermake.toml"@)
}

/// The total number of shader declarations over the manifests that the
/// first `n` steps of a walk over `t` visit.
pub open spec fn replay_declarations(t: Seq<(Seq<char>, ManifestView)>, n: nat) -> nat
    decreases n,
{
    if n == 0 {
        0
    } else {
        match replay(t, (n - 1) as nat) {
            None => 0,
            Some(st) => {
                if st.queue.len() == 0 {
                    0
                } else {
                    match tree_lookup_spec(t, st.queue.last()) {
                        None => 0,
                        Some(m) => replay_declarations(t, (n - 1) as nat) + m.shaders.len(),
                    }
                }
            },
        }
    }
}

proof fn lemma_replay_shader_count(t: Seq<(Seq<char>, ManifestView)>, n: nat)
    requires
        replay(t, n) is Some,
    ensures
        replay(t, n)->0.shaders.len() == replay_declarations(t, n),
    decreases n,
{
    if n > 0 {
        lemma_replay_shader_count(t, (n - 1) as nat);
    }
}

/// Law: a completed walk's worklist holds exactly the total number of
/// shader declarations across all the manifests it visited.
pub proof fn lemma_run_complete_count(
    t: Seq<(Seq<char>, ManifestView)>,
    n: nat,
    shaders: Seq<ShaderToCompileView>,
)
    requires
        run_complete(t, n, shaders),
    ensures
        shaders.len() == replay_declarations(t, n),
{
    lemma_replay_shader_count(t, n);
}

/// Once a walk has drained its queue, no further step is possible.
proof fn lemma_replay_stops(t: Seq<(Seq<char>, ManifestView)>, n: nat, m: nat)
    requires
        replay(t, n) is Some,
        replay(t, n)->0.queue.len() == 0,
        m > n,
    ensures
        replay(t, m) is None,
    decreases m,
{
    if m == n + 1 {
        assert(replay(t, m) is None);
    } else {
        lemma_replay_stops(t, n, (m - 1) as nat);
    }
}

/// Law: the worklist of a completed walk is uniquely determined by the
/// manifest tree: two completed walks over the same tree take the same
/// number of steps and gather the same worklist.
pub proof fn lemma_run_complete_unique(
    t: Seq<(Seq<char>, ManifestView)>,
    n1: nat,
    n2: nat,
    s1: Seq<ShaderToCompileView>,
    s2: Seq<ShaderToCompileView>,
)
    requires
        run_complete(t, n1, s1),
        run_complete(t, n2, s2),
    ensures
        n1 == n2,
        s1 == s2,
{
    if n1 < n2 {
        lemma_replay_stops(t, n1, n2);
    }
    if n2 < n1 {
        lemma_replay_stops(t, n2, n1);
    }
}

/// After `n` steps over `t` the walk has visited more directories than the
/// tree has manifests, so some directory was visited twice: the subdirectory
/// references form a cycle.
pub open spec fn run_cyclic(t: Seq<(Seq<char>, ManifestView)>, n: nat) -> bool {
    &&& replay(t, n) is Some
    &&& replay(t, n)->0.queue.len() > 0
    &&& tree_lookup_spec(t, replay(t, n)->0.queue.last()) is Some
    &&& n == t.len()
}

/// A failure of discovery.
#[derive(Debug)]
pub enum DiscoveryError {
    /// A queued directory has no manifest; `path` names the missing file.
    MissingManifest { path: String },
    /// The subdirectory references revisit a directory instead of forming a
    /// tree.
    Cycle,
}

/// What [`gather_shaders`] promises of its result: a worklist only from a
/// completed walk, a missing-manifest failure only for a directory the walk
/// really got stuck on, and a cycle failure only from a walk that outran the
/// tree.
pub open spec fn gather_post(
    t: Seq<(Seq<char>, ManifestView)>,
    r: Result<ShadersToCompile, DiscoveryError>,
) -> bool {
    &&& (r is Ok ==> exists|n: nat| run_complete(t, n, r->Ok_0@))
    &&& (r is Err && r->Err_0 is MissingManifest ==> exists|n: nat|
        run_stuck(t, n, r->Err_0->MissingManifest_path@))
    &&& (r is Err && r->Err_0 is Cycle ==> exists|n: nat| run_cyclic(t, n))
}

/// Walk a manifest tree from its root and flatten it into the compilation
/// worklist, or fail on the first directory whose manifest is missing. On
/// success the worklist holds exactly one entry per declaration of every
/// visited manifest, its path the declared path joined onto every ancestor
/// directory name from the root down (see [`replay`]). On failure no
/// worklist is produced at all. A walk that takes more steps than the tree
/// has manifests must be revisiting a directory, and fails instead of
/// looping forever.
pub fn gather_shaders(tree: &ManifestTree) -> (r: Result<ShadersToCompile, DiscoveryError>)
    ensures
        gather_post(tree@, r),
{
    let mut disc = Discovery::new();
    let ghost mut n: nat = 0;
    let mut fuel: usize = tree.entries.len();
    loop
        invariant
            replay(tree@, n) == Some(disc@),
            n + fuel == tree@.len(),
        decreases fuel,
    {
        let ghost st_pre = disc@;
        match disc.next_directory() {
            None => {
                let s = disc.into_shaders();
                proof {
                    assert(run_complete(tree@, n, s@));
                }
                let res: Result<ShadersToCompile, DiscoveryError> = Ok(s);
                proof {
                    assert(run_complete(tree@, n, res->Ok_0@));
                    assert(gather_post(tree@, res));
                }
                return res;
            },
            Some(dir) => {
                match tree_lookup(tree, dir.as_str()) {
                    None => {
                        let path = join(dir.as_str(), manifest_file_name());
                        proof {
                            assert(run_stuck(tree@, n, path@));
                        }
                        let res: Result<ShadersToCompile, DiscoveryError> = Err(
                            DiscoveryError::MissingManifest { path },
                        );
                        proof {
                            assert(run_stuck(tree@, n, res->Err_0->MissingManifest_path@));
                            assert(gather_post(tree@, res));
                        }
                        return res;
                    },
                    Some(m) => {
                        if fuel == 0 {
                            proof {
                                assert(run_cyclic(tree@, n));
                            }
                            let res: Result<ShadersToCompile, DiscoveryError> = Err(
                                DiscoveryError::Cycle,
                            );
                            proof {
                                assert(gather_post(tree@, res));
                            }
                            return res;
                        }
                        disc.add_manifest(dir.as_str(), m);
                        fuel = fuel - 1;
                        proof {
                            assert(discovery_step(st_pre, m@) =~~= disc@);
                            assert(replay(tree@, n + 1) == Some(disc@));
                            n = n + 1;
                        }
                    },
                }
            },
        }
    }
}

} // verus!
