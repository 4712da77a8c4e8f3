use switchboard_core::bootstrap::{plan_bootstrap, BootstrapStep};

fn paths_of(plan: &[BootstrapStep]) -> Vec<String> {
    let mut out = Vec::new();
    for step in plan {
        match step {
            BootstrapStep::CreateDir { path } => out.push(path.clone()),
            BootstrapStep::WriteFile { path, .. } => out.push(path.clone()),
            BootstrapStep::RunGethInit { .. } => {}
            BootstrapStep::FetchZcashParams => {}
        }
    }
    out
}

#[test]
fn bootstrap_is_skipped_when_marker_present() {
    let plan = plan_bootstrap(true);
    assert!(plan.is_empty());
}

#[test]
fn bootstrap_creates_six_daemon_directories() {
    let plan = plan_bootstrap(false);
    let mut dirs = Vec::new();
    for step in &plan {
        if let BootstrapStep::CreateDir { path } = step {
            dirs.push(path.clone());
        }
    }
    assert_eq!(
        dirs,
        vec![
            "data/main",
            "data/testchain",
            "data/bitassets",
            "data/bitnames",
            "data/ethereum",
            "data/zcash",
        ]
    );
}

#[test]
fn bootstrap_seeds_genesis_spec() {
    let plan = plan_bootstrap(false);
    let mut found = false;
    for step in &plan {
        if let BootstrapStep::WriteFile { path, contents } = step {
            if path.as_str() == "data/ethereum/genesis.json" {
                found = true;
                assert!(contents.contains("\"chainId\": 5123,"));
                assert!(contents.contains("\"0xc96aaa54e2d44c299564da76e1cd3184a2386b8d\""));
                assert!(contents.contains("{ \"balance\": \"21000000000000000000000000\"}"));
                assert_eq!(contents.matches("balance").count(), 1);
                assert!(contents.contains("\"homesteadBlock\": 0,"));
                assert!(contents.contains("\"berlinBlock\": 0\n"));
            }
        }
    }
    assert!(found);
}

#[test]
fn bootstrap_seeds_zcash_network_upgrade_config() {
    let plan = plan_bootstrap(false);
    let mut found = false;
    for step in &plan {
        if let BootstrapStep::WriteFile { path, contents } = step {
            if path.as_str() == "data/zcash/zcash.conf" {
                found = true;
                assert_eq!(contents.as_str(), "nuparams=5ba81b19:1\nnuparams=76b809bb:1");
            }
        }
    }
    assert!(found);
}

#[test]
fn bootstrap_runs_both_one_shot_subprocesses() {
    let plan = plan_bootstrap(false);
    assert_eq!(plan.len(), 10);
    match &plan[7] {
        BootstrapStep::RunGethInit { datadir, genesis_path } => {
            assert_eq!(datadir.as_str(), "data/ethereum");
            assert_eq!(genesis_path.as_str(), "data/ethereum/genesis.json");
        }
        _ => panic!("expected the one-shot genesis init as the eighth step"),
    }
    match &plan[9] {
        BootstrapStep::FetchZcashParams => {}
        _ => panic!("expected the parameter fetch as the last step"),
    }
}

#[test]
fn bootstrap_twice_yields_identical_contents() {
    // Simulate a data root as the set of paths that exist under it.
    let mut contents: Vec<String> = Vec::new();
    let marker = |contents: &Vec<String>| {
        contents.iter().any(|p| p == "data" || p.starts_with("data/"))
    };

    assert!(!marker(&contents));
    let first = plan_bootstrap(marker(&contents));
    for p in paths_of(&first) {
        contents.push(p);
    }
    let after_first = contents.clone();

    assert!(marker(&contents));
    let second = plan_bootstrap(marker(&contents));
    assert!(second.is_empty());
    for p in paths_of(&second) {
        contents.push(p);
    }

    assert_eq!(contents, after_first);
}
