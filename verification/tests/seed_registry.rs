use p2p_node_handshake::dns_seed_manager::DnsSeedManager;
use p2p_node_handshake::peer::PeerAddr;

fn addr(tag: u64, port: u16) -> PeerAddr {
    PeerAddr { ip_hi: 0, ip_lo: tag, port }
}

#[test]
fn default_seed_table_is_fixed() {
    let expected = [
        "seed.bitcoin.sipa.be.",
        "dnsseed.bluematt.me.",
        "dnsseed.bitcoin.dashjr.org.",
        "seed.bitcoinstats.com.",
        "seed.bitcoin.jonasschnelli.ch.",
        "seed.btc.petertodd.org.",
        "seed.bitcoin.sprovoost.nl.",
        "dnsseed.emzy.de.",
        "seed.bitcoin.wiz.biz.",
    ];
    let seeds = DnsSeedManager::default_dns_seeds();
    assert_eq!(seeds.len(), 9);
    for i in 0..9 {
        assert_eq!(seeds[i], expected[i]);
    }
}

#[test]
fn seed_at_index_is_stable_across_calls() {
    for i in 0..9 {
        let first = DnsSeedManager::dns_seed_at_index(i);
        let second = DnsSeedManager::dns_seed_at_index(i);
        assert!(first.is_some());
        assert_eq!(first, second);
        assert_eq!(first.unwrap(), DnsSeedManager::default_dns_seeds()[i]);
    }
}

#[test]
fn seed_at_index_nine_is_out_of_range() {
    assert_eq!(DnsSeedManager::dns_seed_at_index(9), None);
    assert_eq!(DnsSeedManager::dns_seed_at_index(100), None);
}

#[test]
fn new_manager_is_empty() {
    let dsm = DnsSeedManager::new();
    assert_eq!(dsm.active_nodes.len(), 0);
    assert!(dsm.get(0).is_none());
}

#[test]
fn aggregation_of_all_failures_is_empty() {
    let results: Vec<Option<Vec<PeerAddr>>> = vec![None, None, None, None, None, None, None, None, None];
    let dsm = DnsSeedManager::from_lookup_results(&results);
    assert_eq!(dsm.active_nodes.len(), 0);
}

#[test]
fn aggregation_unions_successes_and_skips_failures() {
    let a = addr(1, 8333);
    let b = addr(2, 8333);
    let c = addr(3, 8334);
    let results: Vec<Option<Vec<PeerAddr>>> = vec![Some(vec![a]), None, Some(vec![b, c]), None];
    let dsm = DnsSeedManager::from_lookup_results(&results);
    assert_eq!(dsm.active_nodes, vec![a, b, c]);
}

#[test]
fn get_returns_entries_in_range_only() {
    let a = addr(7, 1);
    let results: Vec<Option<Vec<PeerAddr>>> = vec![Some(vec![a])];
    let dsm = DnsSeedManager::from_lookup_results(&results);
    assert_eq!(dsm.get(0), Some(&a));
    assert_eq!(dsm.get(1), None);
}
