use gpu_throughput::link_speed::{approximate, configurations, lookup, nearest_key, LinkConfig};
use gpu_throughput::ratio::{round_mean, round_ratio};

fn labels(configs: &[LinkConfig]) -> Vec<String> {
    configs.iter().map(|c| c.label().to_string()).collect()
}

#[test]
fn exact_keys_match_themselves() {
    for k in [1u64, 2, 4, 8, 16, 32, 64] {
        let r = approximate(k, 1);
        assert_eq!(r.key, k);
        assert_eq!(r.key.abs_diff(k), 0);
    }
}

#[test]
fn fraction_rounds_up_to_first_key() {
    let r = approximate(3, 5);
    assert_eq!(r.key, 1);
    assert_eq!(labels(&r.configs), vec!["PCIe 1.0 x4", "PCIe 2.0 x2", "PCIe 3.0 x1"]);
}

#[test]
fn ties_go_to_the_lower_key() {
    assert_eq!(approximate(12, 1).key, 8);
    assert_eq!(approximate(3, 1).key, 2);
    assert_eq!(approximate(6, 1).key, 4);
    assert_eq!(approximate(24, 1).key, 16);
    assert_eq!(approximate(48, 1).key, 32);
    assert_eq!(nearest_key(13), 16);
}

#[test]
fn above_the_table_gives_the_largest_key() {
    let r = approximate(100, 1);
    assert_eq!(r.key, 64);
    assert_eq!(labels(&r.configs), vec!["PCIe 5.0 x16"]);
    assert_eq!(nearest_key(u128::MAX), 64);
}

#[test]
fn zero_gives_the_smallest_key() {
    assert_eq!(approximate(0, 1).key, 1);
    assert_eq!(approximate(2, 5).key, 1);
}

#[test]
fn whole_table() {
    let expected: Vec<(u64, Vec<&str>)> = vec![
        (1, vec!["PCIe 1.0 x4", "PCIe 2.0 x2", "PCIe 3.0 x1"]),
        (2, vec!["PCIe 1.0 x8", "PCIe 2.0 x4", "PCIe 3.0 x2", "PCIe 4.0 x1"]),
        (4, vec!["PCIe 1.0 x16", "PCIe 2.0 x8", "PCIe 3.0 x4", "PCIe 4.0 x2", "PCIe 5.0 x1"]),
        (8, vec!["PCIe 2.0 x16", "PCIe 3.0 x8", "PCIe 4.0 x4", "PCIe 5.0 x2"]),
        (16, vec!["PCIe 3.0 x16", "PCIe 4.0 x8", "PCIe 5.0 x4"]),
        (32, vec!["PCIe 4.0 x16", "PCIe 5.0 x8"]),
        (64, vec!["PCIe 5.0 x16"]),
    ];
    for (key, names) in expected {
        assert_eq!(labels(&configurations(key)), names);
        let r = lookup(key as u128);
        assert_eq!(r.key, key);
        assert_eq!(labels(&r.configs), names);
    }
    assert!(configurations(3).is_empty());
}

#[test]
fn labels_of_configurations() {
    assert_eq!(LinkConfig { generation: 3, lanes: 16 }.label(), "PCIe 3.0 x16");
    assert_eq!(LinkConfig { generation: 1, lanes: 1 }.label(), "PCIe 1.0 x1");
    assert_eq!(LinkConfig { generation: 5, lanes: 8 }.label(), "PCIe 5.0 x8");
}

#[test]
fn rounding_of_ratios() {
    assert_eq!(round_ratio(3, 5), 1);
    assert_eq!(round_ratio(2, 5), 0);
    assert_eq!(round_ratio(5, 2), 3);
    assert_eq!(round_ratio(7, 3), 2);
    assert_eq!(round_ratio(u64::MAX, 1), u64::MAX as u128);
}

#[test]
fn rounding_of_means() {
    // (2.5 + 1) / 2 = 1.75
    assert_eq!(round_mean(5, 2, 1, 1), 2);
    // (1 + 2) / 2 = 1.5, half up
    assert_eq!(round_mean(1, 1, 2, 1), 2);
    // (1/3 + 1/3) / 2
    assert_eq!(round_mean(1, 3, 1, 3), 0);
    // (4 + 8) / 2
    assert_eq!(round_mean(4_000, 1_000, 4_000, 500), 6);
    assert_eq!(round_mean(u64::MAX, 1, u64::MAX, 1), u64::MAX as u128);
    assert_eq!(round_mean(u64::MAX, u64::MAX - 1, u64::MAX, u64::MAX), 1);
}
