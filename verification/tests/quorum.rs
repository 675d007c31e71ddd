use swarm_orchestrator::quorum::consensus_threshold;

#[test]
fn threshold_follows_the_pbft_formula() {
    assert_eq!(consensus_threshold(1), 1);
    assert_eq!(consensus_threshold(3), 1);
    assert_eq!(consensus_threshold(4), 3);
    assert_eq!(consensus_threshold(7), 5);
    assert_eq!(consensus_threshold(10), 7);
}
