use vstd::prelude::*;
use vstd::string::StringExecFns;

verus! {

/// One action of the first-run bootstrap, named by a path relative to the
/// data root. The caller that owns the filesystem executes the steps in
/// order: directories first, then the seeded artifacts, then the two
/// one-shot subprocesses.
pub enum BootstrapStep {
    /// Create a directory (and any missing parents) under the data root.
    CreateDir { path: String },
    /// Write a file with exactly these contents under the data root.
    WriteFile { path: String, contents: String },
    /// Run the Ethereum-compatible daemon's binary once in its
    /// "init with genesis file" mode against this state directory.
    RunGethInit { datadir: String, genesis_path: String },
    /// Run the privacy-coin daemon's one-shot cryptographic parameter fetch.
    FetchZcashParams,
}

/// Mathematical model of a bootstrap step.
pub enum StepModel {
    CreateDir { path: Seq<char> },
    WriteFile { path: Seq<char>, contents: Seq<char> },
    RunGethInit { datadir: Seq<char>, genesis_path: Seq<char> },
    FetchZcashParams,
}

impl View for BootstrapStep {
    type V = StepModel;

    open spec fn view(&self) -> StepModel {
        match self {
            BootstrapStep::CreateDir { path } => StepModel::CreateDir { path: path@ },
            BootstrapStep::WriteFile { path, contents } => StepModel::WriteFile {
                path: path@,
                contents: contents@,
            },
            BootstrapStep::RunGethInit { datadir, genesis_path } => StepModel::RunGethInit {
                datadir: datadir@,
                genesis_path: genesis_path@,
            },
            BootstrapStep::FetchZcashParams => StepModel::FetchZcashParams,
        }
    }
}

/// The genesis specification seeded for the Ethereum-compatible daemon:
/// chain id 5123, every protocol activation at block 0, and one initial
/// allocation entry. Written once and never mutated.
pub open spec fn genesis_text() -> Seq<char> {
    "\n{\n\"config\": {\n    \"chainId\": 5123,\n    \"homesteadBlock\": 0,\n    \"eip150Block\": 0,\n    \"eip155Block\": 0,\n    \"eip158Block\": 0,\n    \"byzantiumBlock\": 0,\n    \"constantinopleBlock\": 0,\n    \"petersburgBlock\": 0,\n    \"istanbulBlock\": 0,\n    \"berlinBlock\": 0\n},\n\"difficulty\": \"0\",\n\"gasLimit\": \"21000000\",\n\"alloc\": {\n    \"0xc96aaa54e2d44c299564da76e1cd3184a2386b8d\":\n    { \"balance\": \"21000000000000000000000000\"}\n}\n}\n"@
}

/// The privacy-coin daemon's network-upgrade activation config: exactly the
/// two activation lines.
pub open spec fn zcash_conf_text() -> Seq<char> {
    "nuparams=5ba81b19:1\nnuparams=76b809bb:1"@
}

/// The genesis specification document, exactly as seeded on disk.
pub fn genesis_document() -> (r: String)
    ensures
        r@ == genesis_text(),
{
    String::from_str(
        "\n{\n\"config\": {\n    \"chainId\": 5123,\n    \"homesteadBlock\": 0,\n    \"eip150Block\": 0,\n    \"eip155Block\": 0,\n    \"eip158Block\": 0,\n    \"byzantiumBlock\": 0,\n    \"constantinopleBlock\": 0,\n    \"petersburgBlock\": 0,\n    \"istanbulBlock\": 0,\n    \"berlinBlock\": 0\n},\n\"difficulty\": \"0\",\n\"gasLimit\": \"21000000\",\n\"alloc\": {\n    \"0xc96aaa54e2d44c299564da76e1cd3184a2386b8d\":\n    { \"balance\": \"21000000000000000000000000\"}\n}\n}\n",
    )
}

/// The network-upgrade config document, exactly as seeded on disk.
pub fn zcash_conf_document() -> (r: String)
    ensures
        r@ == zcash_conf_text(),
{
    String::from_str("nuparams=5ba81b19:1\nnuparams=76b809bb:1")
}

/// The marker subtree whose existence proves that bootstrap already ran.
pub fn marker_relpath() -> (r: String)
    ensures
        r@ == "data"@,
{
    String::from_str("data")
}

/// The full first-run plan: one state directory per daemon, the two seeded
/// artifacts, and the two one-shot subprocesses.
pub open spec fn full_plan() -> Seq<StepModel> {
    seq![
        StepModel::CreateDir { path: "data/main"@ },
        StepModel::CreateDir { path: "data/testchain"@ },
        StepModel::CreateDir { path: "data/bitassets"@ },
        StepModel::CreateDir { path: "data/bitnames"@ },
        StepModel::CreateDir { path: "data/ethereum"@ },
        StepModel::CreateDir { path: "data/zcash"@ },
        StepModel::WriteFile { path: "data/ethereum/genesis.json"@, contents: genesis_text() },
        StepModel::RunGethInit {
            datadir: "data/ethereum"@,
            genesis_path: "data/ethereum/genesis.json"@,
        },
        StepModel::WriteFile { path: "data/zcash/zcash.conf"@, contents: zcash_conf_text() },
        StepModel::FetchZcashParams,
    ]
}

/// What the initializer does given the marker's state: nothing at all when
/// the marker subtree exists, the full plan otherwise. There is no finer
/// granularity.
pub open spec fn plan_model(marker_exists: bool) -> Seq<StepModel> {
    if marker_exists {
        Seq::<StepModel>::empty()
    } else {
        full_plan()
    }
}

/// Decides the first-run bootstrap: an empty plan when the marker subtree
/// exists, otherwise the full plan, step for step.
pub fn plan_bootstrap(marker_exists: bool) -> (r: Vec<BootstrapStep>)
    ensures
        r@.len() == plan_model(marker_exists).len(),
        forall|i: int|
            0 <= i < r@.len() ==> #[trigger] r@[i]@ == plan_model(marker_exists)[i],
{
    if marker_exists {
        Vec::new()
    } else {
        let mut steps: Vec<BootstrapStep> = Vec::new();
        steps.push(BootstrapStep::CreateDir { path: String::from_str("data/main") });
        steps.push(BootstrapStep::CreateDir { path: String::from_str("data/testchain") });
        steps.push(BootstrapStep::CreateDir { path: String::from_str("data/bitassets") });
        steps.push(BootstrapStep::CreateDir { path: String::from_str("data/bitnames") });
        steps.push(BootstrapStep::CreateDir { path: String::from_str("data/ethereum") });
        steps.push(BootstrapStep::CreateDir { path: String::from_str("data/zcash") });
        steps.push(
            BootstrapStep::WriteFile {
                path: String::from_str("data/ethereum/genesis.json"),
                contents: genesis_document(),
            },
        );
        steps.push(
            BootstrapStep::RunGethInit {
                datadir: String::from_str("data/ethereum"),
                genesis_path: String::from_str("data/ethereum/genesis.json"),
            },
        );
        steps.push(
            BootstrapStep::WriteFile {
                path: String::from_str("data/zcash/zcash.conf"),
                contents: zcash_conf_document(),
            },
        );
        steps.push(BootstrapStep::FetchZcashParams);
        assert(steps@[0]@ == full_plan()[0]);
        assert(steps@[1]@ == full_plan()[1]);
        assert(steps@[2]@ == full_plan()[2]);
        assert(steps@[3]@ == full_plan()[3]);
        assert(steps@[4]@ == full_plan()[4]);
        assert(steps@[5]@ == full_plan()[5]);
        assert(steps@[6]@ == full_plan()[6]);
        assert(steps@[7]@ == full_plan()[7]);
        assert(steps@[8]@ == full_plan()[8]);
        assert(steps@[9]@ == full_plan()[9]);
        steps
    }
}

/// The paths a step brings into existence under the data root.
pub open spec fn step_paths(s: StepModel) -> Set<Seq<char>> {
    match s {
        StepModel::CreateDir { path } => set![path],
        StepModel::WriteFile { path, contents } => set![path],
        StepModel::RunGethInit { datadir, genesis_path } => Set::<Seq<char>>::empty(),
        StepModel::FetchZcashParams => Set::<Seq<char>>::empty(),
    }
}

/// The paths a whole plan brings into existence.
pub open spec fn plan_paths(plan: Seq<StepModel>) -> Set<Seq<char>> {
    Set::new(
        |p: Seq<char>|
            exists|i: int| 0 <= i < plan.len() && #[trigger] step_paths(plan[i]).contains(p),
    )
}

/// Directory contents after executing a plan against an existing set of
/// paths: nothing in this layer ever deletes, so the plan's paths are simply
/// added.
pub open spec fn apply_plan(s: Set<Seq<char>>, plan: Seq<StepModel>) -> Set<Seq<char>> {
    s.union(plan_paths(plan))
}

/// A path lies in the marker subtree.
pub open spec fn under_marker(path: Seq<char>) -> bool {
    path == "data"@ || "data/"@.is_prefix_of(path)
}

/// The marker subtree exists: some path of the directory contents lies in
/// it.
pub open spec fn marker_present(s: Set<Seq<char>>) -> bool {
    exists|p: Seq<char>| #[trigger] s.contains(p) && under_marker(p)
}

/// A completed full run leaves the marker subtree in place, whatever was on
/// disk before.
pub proof fn lemma_full_run_sets_marker(s: Set<Seq<char>>)
    ensures
        marker_present(apply_plan(s, full_plan())),
{
    assert(step_paths(full_plan()[0]).contains("data/main"@));
    assert(plan_paths(full_plan()).contains("data/main"@));
    reveal_strlit("data/main");
    reveal_strlit("data/");
    assert("data/"@.is_prefix_of("data/main"@));
    assert(apply_plan(s, full_plan()).contains("data/main"@) && under_marker("data/main"@));
}

/// Idempotence of the initializer: whatever the starting contents, running
/// it twice in succession leaves the same directory contents as running it
/// once, because a completed first run leaves the marker subtree in place
/// and the initializer does nothing at all once the marker subtree exists.
pub proof fn lemma_initializer_idempotent(s0: Set<Seq<char>>)
    ensures
        ({
            let s1 = apply_plan(s0, plan_model(marker_present(s0)));
            let s2 = apply_plan(s1, plan_model(marker_present(s1)));
            s2 =~= s1
        }),
{
    let s1 = apply_plan(s0, plan_model(marker_present(s0)));
    if marker_present(s0) {
        let p = choose|p: Seq<char>| s0.contains(p) && under_marker(p);
        assert(s1.contains(p) && under_marker(p));
    } else {
        lemma_full_run_sets_marker(s0);
    }
    assert(marker_present(s1));
    assert(plan_paths(Seq::<StepModel>::empty()) =~= Set::<Seq<char>>::empty());
}

/// The exact contents the full plan brings into existence: the six daemon
/// state directories and the two seeded artifacts, and nothing else.
pub open spec fn seeded_layout() -> Set<Seq<char>> {
    set![
        "data/main"@,
        "data/testchain"@,
        "data/bitassets"@,
        "data/bitnames"@,
        "data/ethereum"@,
        "data/zcash"@,
        "data/ethereum/genesis.json"@,
        "data/zcash/zcash.conf"@,
    ]
}

/// Bootstrap from an empty data root yields exactly the seeded layout:
/// the six daemon directories plus the genesis specification and the
/// network-upgrade config.
pub proof fn lemma_bootstrap_layout()
    ensures
        apply_plan(Set::<Seq<char>>::empty(), full_plan()) =~= seeded_layout(),
{
    let plan = full_plan();
    assert forall|p: Seq<char>| plan_paths(plan).contains(p) implies seeded_layout().contains(
        p,
    ) by {
        let i = choose|i: int| 0 <= i < plan.len() && step_paths(plan[i]).contains(p);
        if i == 0 {
            assert(p == "data/main"@);
        } else if i == 1 {
            assert(p == "data/testchain"@);
        } else if i == 2 {
            assert(p == "data/bitassets"@);
        } else if i == 3 {
            assert(p == "data/bitnames"@);
        } else if i == 4 {
            assert(p == "data/ethereum"@);
        } else if i == 5 {
            assert(p == "data/zcash"@);
        } else if i == 6 {
            assert(p == "data/ethereum/genesis.json"@);
        } else if i == 7 {
            assert(step_paths(plan[7]) =~= Set::<Seq<char>>::empty());
        } else if i == 8 {
            assert(p == "data/zcash/zcash.conf"@);
        } else {
            assert(step_paths(plan[9]) =~= Set::<Seq<char>>::empty());
        }
    }
    assert(step_paths(plan[0]).contains("data/main"@));
    assert(step_paths(plan[1]).contains("data/testchain"@));
    assert(step_paths(plan[2]).contains("data/bitassets"@));
    assert(step_paths(plan[3]).contains("data/bitnames"@));
    assert(step_paths(plan[4]).contains("data/ethereum"@));
    assert(step_paths(plan[5]).contains("data/zcash"@));
    assert(step_paths(plan[6]).contains("data/ethereum/genesis.json"@));
    assert(step_paths(plan[8]).contains("data/zcash/zcash.conf"@));
    assert forall|p: Seq<char>| seeded_layout().contains(p) implies plan_paths(plan).contains(
        p,
    ) by {
    }
}

} // verus!
