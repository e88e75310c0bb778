use membrane_bundle::{
    check_chain, check_epoch, simulation_outcome, AccessError, BlockWindowGuard,
    BundleAccessServer, BundleSpec, Epoch, EpochGuard, GuardError, InclusionResponse,
    RevocationGuard, RevocationHandle, SimResult,
};
use tokio::sync::watch;

struct MockSimulator;

impl MockSimulator {
    fn simulate(&self, _bundle: &BundleSpec, _target_block: u64) -> Result<SimResult, capnp::Error> {
        Ok(SimResult {
            gas_used: 21000,
            success: true,
            state_root: vec![0xab; 32],
            revert_reason: String::new(),
        })
    }
}

fn test_epoch(seq: u64) -> Epoch {
    Epoch {
        seq,
        head: vec![],
        adopted_block: 100,
    }
}

fn test_server(
    epoch_rx: watch::Receiver<Epoch>,
    issued_seq: u64,
) -> (RevocationHandle, BundleAccessServer<MockSimulator>) {
    let (handle, revocation_guard) = RevocationGuard::new();
    let server = BundleAccessServer {
        epoch_guard: EpochGuard {
            issued_seq,
            receiver: epoch_rx,
        },
        revocation_guard,
        block_window: BlockWindowGuard {
            valid_from: 100,
            valid_until: 110,
        },
        bundle: BundleSpec {
            txs: vec![vec![0x01, 0x02]],
        },
        simulator: MockSimulator,
    };
    (handle, server)
}

fn simulate(server: &BundleAccessServer<MockSimulator>, target_block: u64) -> Result<SimResult, String> {
    let req = server.simulate_request(target_block).map_err(|e| e.message())?;
    let outcome = server.simulator.simulate(&req.bundle, req.target_block);
    simulation_outcome(outcome).map_err(|e| match e {
        AccessError::Guard(g) => g.message(),
        AccessError::Simulation(s) => s.to_string(),
    })
}

#[test]
fn check_all_passes_when_valid() {
    let (_tx, rx) = watch::channel(test_epoch(1));
    let (_handle, server) = test_server(rx, 1);
    assert!(server.check_all(105).is_ok());
}

#[test]
fn check_all_fails_stale_epoch() {
    let (tx, rx) = watch::channel(test_epoch(1));
    let (_handle, server) = test_server(rx, 1);
    tx.send(test_epoch(2)).unwrap();
    let err = server.check_all(105).unwrap_err();
    assert!(err.message().contains("staleEpoch"));
}

#[test]
fn check_all_fails_revoked() {
    let (_tx, rx) = watch::channel(test_epoch(1));
    let (handle, server) = test_server(rx, 1);
    handle.revoke();
    let err = server.check_all(105).unwrap_err();
    assert!(err.message().contains("revoked"));
}

#[test]
fn check_all_fails_block_out_of_window() {
    let (_tx, rx) = watch::channel(test_epoch(1));
    let (_handle, server) = test_server(rx, 1);
    let err = server.check_all(200).unwrap_err();
    assert!(err.message().contains("blockOutOfWindow"));
}

#[test]
fn block_window_inclusive_bounds() {
    let guard = BlockWindowGuard {
        valid_from: 100,
        valid_until: 110,
    };
    assert!(guard.check(100).is_ok()); // lower bound inclusive
    assert!(guard.check(110).is_ok()); // upper bound inclusive
    assert!(guard.check(99).is_err());
    assert!(guard.check(111).is_err());
}

#[test]
fn block_window_error_carries_target_and_bounds() {
    let guard = BlockWindowGuard {
        valid_from: 100,
        valid_until: 110,
    };
    assert_eq!(
        guard.check(111),
        Err(GuardError::BlockOutOfWindow {
            target: 111,
            valid_from: 100,
            valid_until: 110
        })
    );
    let single = BlockWindowGuard {
        valid_from: 7,
        valid_until: 7,
    };
    assert!(single.check(7).is_ok());
    assert!(single.check(6).is_err());
    assert!(single.check(8).is_err());
}

#[test]
fn epoch_check_fails_on_rollback_too() {
    assert_eq!(check_epoch(5, 5), Ok(()));
    assert_eq!(
        check_epoch(5, 6),
        Err(GuardError::StaleEpoch {
            issued: 5,
            current: 6
        })
    );
    assert_eq!(
        check_epoch(5, 4),
        Err(GuardError::StaleEpoch {
            issued: 5,
            current: 4
        })
    );
}

#[test]
fn chain_reports_stale_epoch_first() {
    let window = BlockWindowGuard {
        valid_from: 100,
        valid_until: 110,
    };
    assert_eq!(
        check_chain(1, 2, true, &window, 200),
        Err(GuardError::StaleEpoch {
            issued: 1,
            current: 2
        })
    );
    assert_eq!(check_chain(1, 1, true, &window, 200), Err(GuardError::Revoked));
    assert_eq!(
        check_chain(1, 1, false, &window, 200),
        Err(GuardError::BlockOutOfWindow {
            target: 200,
            valid_from: 100,
            valid_until: 110
        })
    );
    assert_eq!(check_chain(1, 1, false, &window, 105), Ok(()));
}

#[test]
fn server_reports_stale_epoch_before_other_failures() {
    let (tx, rx) = watch::channel(test_epoch(1));
    let (handle, server) = test_server(rx, 1);
    tx.send(test_epoch(2)).unwrap();
    handle.revoke();
    let err = server.check_all(200).unwrap_err();
    assert_eq!(
        err,
        GuardError::StaleEpoch {
            issued: 1,
            current: 2
        }
    );
    assert!(err.message().starts_with("staleEpoch"));
}

#[test]
fn simulate_returns_backend_fields_unchanged() {
    let (_tx, rx) = watch::channel(test_epoch(1));
    let (_handle, server) = test_server(rx, 1);
    let req = server.simulate_request(105).unwrap();
    assert_eq!(req.target_block, 105);
    assert_eq!(req.bundle.txs, vec![vec![0x01, 0x02]]);
    let sim = simulate(&server, 105).unwrap();
    assert_eq!(sim.gas_used, 21000);
    assert!(sim.success);
    assert_eq!(sim.state_root, vec![0xab; 32]);
    assert_eq!(sim.revert_reason, "");
}

#[test]
fn simulation_failure_is_passed_on() {
    let outcome: Result<SimResult, capnp::Error> = Err(capnp::Error::failed("node unreachable".to_string()));
    match simulation_outcome(outcome) {
        Err(AccessError::Simulation(e)) => assert!(e.to_string().contains("node unreachable")),
        _ => panic!("expected a simulation error"),
    }
}

#[test]
fn inclusion_is_authorised_only_when_guards_pass() {
    let (tx, rx) = watch::channel(test_epoch(1));
    let (handle, server) = test_server(rx, 1);
    assert_eq!(server.authorize_inclusion(100), Ok(InclusionResponse { included: true }));
    assert_eq!(server.authorize_inclusion(110), Ok(InclusionResponse { included: true }));
    assert!(server.authorize_inclusion(111).is_err());
    handle.revoke();
    assert_eq!(server.authorize_inclusion(105), Err(GuardError::Revoked));
    tx.send(test_epoch(3)).unwrap();
    assert_eq!(
        server.authorize_inclusion(105),
        Err(GuardError::StaleEpoch {
            issued: 1,
            current: 3
        })
    );
}

#[test]
fn grant_scenario_through_all_guards() {
    let (tx, rx) = watch::channel(test_epoch(1));
    let (handle, server) = test_server(rx, 1);
    let sim = simulate(&server, 105).unwrap();
    assert_eq!(sim.gas_used, 21000);
    assert!(sim.success);
    assert_eq!(sim.state_root, vec![0xab; 32]);
    assert_eq!(sim.revert_reason, "");

    tx.send(test_epoch(2)).unwrap();
    assert!(simulate(&server, 105).unwrap_err().contains("staleEpoch"));

    tx.send(test_epoch(1)).unwrap();
    handle.revoke();
    assert!(simulate(&server, 105).unwrap_err().contains("revoked"));

    let (_handle, fresh) = test_server(tx.subscribe(), 1);
    assert!(simulate(&fresh, 200).unwrap_err().contains("blockOutOfWindow"));
}

#[test]
fn error_tags() {
    assert_eq!(GuardError::Revoked.tag(), "revoked");
    assert_eq!(GuardError::StaleEpoch { issued: 1, current: 2 }.tag(), "staleEpoch");
    assert_eq!(
        GuardError::BlockOutOfWindow {
            target: 1,
            valid_from: 2,
            valid_until: 3
        }
        .tag(),
        "blockOutOfWindow"
    );
}

#[test]
fn window_failure_disqualifies_only_that_block() {
    let (_tx, rx) = watch::channel(test_epoch(1));
    let (_handle, server) = test_server(rx, 1);
    assert!(server.check_all(99).is_err());
    assert!(server.check_all(111).is_err());
    assert!(server.check_all(100).is_ok());
    assert!(server.check_all(110).is_ok());
}

#[test]
fn stale_server_stays_stale_after_rollback() {
    let (tx, rx) = watch::channel(test_epoch(5));
    let (_handle, server) = test_server(rx, 5);
    assert!(server.check_all(105).is_ok());
    tx.send(test_epoch(4)).unwrap();
    assert_eq!(
        server.check_all(105),
        Err(GuardError::StaleEpoch {
            issued: 5,
            current: 4
        })
    );
    tx.send(test_epoch(6)).unwrap();
    assert!(server.check_all(105).unwrap_err().message().contains("staleEpoch"));
}
