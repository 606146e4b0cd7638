//! The link-speed table and its nearest-entry lookup.
//!
//! The table maps a throughput in whole GB/s (1, 2, 4, ..., 64) to the PCIe
//! configurations whose raw bandwidth is that figure. A PCIe 1.0 lane carries
//! a quarter of a GB/s and each later generation doubles that, so the entry
//! of key `k` lists, by generation, every configuration of `4 * k` quarters.
use crate::ratio::{round_ratio, rounded_ratio};
use vstd::prelude::*;

verus! {

/// The keys of the table, in increasing order.
pub open spec fn table_keys() -> Seq<u64> {
    seq![1u64, 2, 4, 8, 16, 32, 64]
}

pub open spec fn is_key(k: int) -> bool {
    exists|i: int| 0 <= i < table_keys().len() && table_keys()[i] == k
}

pub open spec fn dist(a: int, b: int) -> int {
    if a >= b {
        a - b
    } else {
        b - a
    }
}

/// `k` is the key nearest to `x`; among keys equally near, the lowest.
pub open spec fn is_nearest_key(k: int, x: int) -> bool {
    &&& is_key(k)
    &&& forall|j: int| #[trigger] is_key(j) ==> dist(k, x) <= dist(j, x)
    &&& forall|j: int| #[trigger] is_key(j) && dist(j, x) == dist(k, x) ==> k <= j
}

fn abs_diff(a: u64, x: u128) -> (r: u128)
    ensures
        r as int == dist(a as int, x as int),
{
    let a: u128 = a as u128;
    if a >= x {
        a - x
    } else {
        x - a
    }
}

/// The key of the table nearest to `x`; ties go to the lower key.
pub fn nearest_key(x: u128) -> (k: u64)
    ensures
        is_nearest_key(k as int, x as int),
{
    let keys: Vec<u64> = vec![1u64, 2, 4, 8, 16, 32, 64];
    assert(keys@ =~= table_keys());
    assert(forall|a: int, b: int| 0 <= a < b < 7 ==> keys@[a] < keys@[b]);
    let mut best: u64 = keys[0];
    let mut i: usize = 1;
    while i < keys.len()
        invariant
            1 <= i <= keys.len(),
            keys@ == table_keys(),
            forall|a: int, b: int| 0 <= a < b < 7 ==> keys@[a] < keys@[b],
            is_key(best as int),
            best <= keys@[i - 1],
            forall|j: int| 0 <= j < i ==> dist(best as int, x as int) <= dist(keys@[j] as int, x as int),
            forall|j: int|
                0 <= j < i && dist(keys@[j] as int, x as int) == dist(best as int, x as int)
                    ==> best <= keys@[j],
        decreases keys.len() - i,
    {
        let k = keys[i];
        if abs_diff(k, x) < abs_diff(best, x) {
            best = k;
        }
        i += 1;
    }
    assert forall|j: int| #[trigger] is_key(j) implies dist(best as int, x as int) <= dist(j, x as int)
        && (dist(j, x as int) == dist(best as int, x as int) ==> best <= j) by {
        let idx = choose|idx: int| 0 <= idx < table_keys().len() && table_keys()[idx] == j;
        assert(keys@[idx] == j);
    }
    best
}

/// One PCIe configuration: a generation (1 to 5, for "1.0" to "5.0") and a
/// lane count (1, 2, 4, 8 or 16).
#[derive(Clone, Copy, Debug, PartialEq, Eq, Structural)]
pub struct LinkConfig {
    pub generation: u8,
    pub lanes: u8,
}

pub open spec fn valid_lanes(w: int) -> bool {
    w == 1 || w == 2 || w == 4 || w == 8 || w == 16
}

/// Bandwidth of one lane of generation `g`, in quarters of a GB/s.
pub open spec fn lane_quarters(g: int) -> int {
    if g <= 1 {
        1
    } else if g == 2 {
        2
    } else if g == 3 {
        4
    } else if g == 4 {
        8
    } else {
        16
    }
}

impl LinkConfig {
    pub open spec fn wf(self) -> bool {
        1 <= self.generation <= 5 && valid_lanes(self.lanes as int)
    }

    /// Raw bandwidth of the configuration, in quarters of a GB/s.
    pub open spec fn quarters(self) -> int {
        lane_quarters(self.generation as int) * self.lanes
    }

    /// The label of the configuration, such as `PCIe 3.0 x16`.
    pub open spec fn label_text(self) -> Seq<char> {
        let g = (('0' as u8) + self.generation) as char;
        let lanes = if self.lanes < 10 {
            seq![(('0' as u8) + self.lanes) as char]
        } else {
            seq!['1', (('0' as u8) + self.lanes - 10) as char]
        };
        seq!['P', 'C', 'I', 'e', ' ', g, '.', '0', ' ', 'x'] + lanes
    }
}

impl LinkConfig {
    /// The label of the configuration, such as `PCIe 3.0 x16`.
    pub fn label(&self) -> (r: &'static str)
        requires
            self.wf(),
        ensures
            r@ == self.label_text(),
    {
        match (self.generation, self.lanes) {
            (1, 1) => {
                proof {
                    reveal_strlit("PCIe 1.0 x1");
                }
                "PCIe 1.0 x1"
            }
            (1, 2) => {
                proof {
                    reveal_strlit("PCIe 1.0 x2");
                }
                "PCIe 1.0 x2"
            }
            (1, 4) => {
                proof {
                    reveal_strlit("PCIe 1.0 x4");
                }
                "PCIe 1.0 x4"
            }
            (1, 8) => {
                proof {
                    reveal_strlit("PCIe 1.0 x8");
                }
                "PCIe 1.0 x8"
            }
            (1, 16) => {
                proof {
                    reveal_strlit("PCIe 1.0 x16");
                }
                "PCIe 1.0 x16"
            }
            (2, 1) => {
                proof {
                    reveal_strlit("PCIe 2.0 x1");
                }
                "PCIe 2.0 x1"
            }
            (2, 2) => {
                proof {
                    reveal_strlit("PCIe 2.0 x2");
                }
                "PCIe 2.0 x2"
            }
            (2, 4) => {
                proof {
                    reveal_strlit("PCIe 2.0 x4");
                }
                "PCIe 2.0 x4"
            }
            (2, 8) => {
                proof {
                    reveal_strlit("PCIe 2.0 x8");
                }
                "PCIe 2.0 x8"
            }
            (2, 16) => {
                proof {
                    reveal_strlit("PCIe 2.0 x16");
                }
                "PCIe 2.0 x16"
            }
            (3, 1) => {
                proof {
                    reveal_strlit("PCIe 3.0 x1");
                }
                "PCIe 3.0 x1"
            }
            (3, 2) => {
                proof {
                    reveal_strlit("PCIe 3.0 x2");
                }
                "PCIe 3.0 x2"
            }
            (3, 4) => {
                proof {
                    reveal_strlit("PCIe 3.0 x4");
                }
                "PCIe 3.0 x4"
            }
            (3, 8) => {
                proof {
                    reveal_strlit("PCIe 3.0 x8");
                }
                "PCIe 3.0 x8"
            }
            (3, 16) => {
                proof {
                    reveal_strlit("PCIe 3.0 x16");
                }
                "PCIe 3.0 x16"
            }
            (4, 1) => {
                proof {
                    reveal_strlit("PCIe 4.0 x1");
                }
                "PCIe 4.0 x1"
            }
            (4, 2) => {
                proof {
                    reveal_strlit("PCIe 4.0 x2");
                }
                "PCIe 4.0 x2"
            }
            (4, 4) => {
                proof {
                    reveal_strlit("PCIe 4.0 x4");
                }
                "PCIe 4.0 x4"
            }
            (4, 8) => {
                proof {
                    reveal_strlit("PCIe 4.0 x8");
                }
                "PCIe 4.0 x8"
            }
            (4, 16) => {
                proof {
                    reveal_strlit("PCIe 4.0 x16");
                }
                "PCIe 4.0 x16"
            }
            (5, 1) => {
                proof {
                    reveal_strlit("PCIe 5.0 x1");
                }
                "PCIe 5.0 x1"
            }
            (5, 2) => {
                proof {
                    reveal_strlit("PCIe 5.0 x2");
                }
                "PCIe 5.0 x2"
            }
            (5, 4) => {
                proof {
                    reveal_strlit("PCIe 5.0 x4");
                }
                "PCIe 5.0 x4"
            }
            (5, 8) => {
                proof {
                    reveal_strlit("PCIe 5.0 x8");
                }
                "PCIe 5.0 x8"
            }
            _ => {
                proof {
                    reveal_strlit("PCIe 5.0 x16");
                }
                "PCIe 5.0 x16"
            }
        }
    }
}

/// The configurations of generation `g` and later whose bandwidth is `key`
/// GB/s, by generation.
pub open spec fn entry_from(key: int, g: int) -> Seq<LinkConfig>
    decreases 6 - g,
{
    if g < 1 || g > 5 {
        Seq::empty()
    } else {
        let q = lane_quarters(g);
        let rest = entry_from(key, g + 1);
        if (4 * key) % q == 0 && valid_lanes((4 * key) / q) {
            seq![LinkConfig { generation: g as u8, lanes: ((4 * key) / q) as u8 }] + rest
        } else {
            rest
        }
    }
}

/// The entry of the table under `key`.
pub open spec fn entry(key: int) -> Seq<LinkConfig> {
    entry_from(key, 1)
}

fn lane_quarters_of(g: u8) -> (r: u128)
    requires
        1 <= g <= 5,
    ensures
        r as int == lane_quarters(g as int),
{
    if g == 1 {
        1
    } else if g == 2 {
        2
    } else if g == 3 {
        4
    } else if g == 4 {
        8
    } else {
        16
    }
}

/// The configurations whose raw bandwidth is `key` GB/s, by generation.
pub fn configurations(key: u64) -> (r: Vec<LinkConfig>)
    ensures
        r@ == entry(key as int),
{
    let mut r: Vec<LinkConfig> = Vec::new();
    let quarters: u128 = 4 * (key as u128);
    let mut g: u8 = 1;
    while g <= 5
        invariant
            1 <= g <= 6,
            quarters == 4 * key,
            r@ + entry_from(key as int, g as int) == entry(key as int),
        decreases 6 - g,
    {
        let q = lane_quarters_of(g);
        let w = quarters / q;
        if quarters % q == 0 && (w == 1 || w == 2 || w == 4 || w == 8 || w == 16) {
            let c = LinkConfig { generation: g, lanes: w as u8 };
            assert(r@.push(c) + entry_from(key as int, g + 1) =~= r@ + entry_from(key as int, g as int));
            r.push(c);
        }
        g += 1;
    }
    assert(r@ + entry_from(key as int, g as int) =~= r@);
    r
}

/// The table's answer for one throughput figure: the key that was matched
/// and its candidate configurations.
#[derive(Debug)]
pub struct LinkSpeed {
    pub key: u64,
    pub configs: Vec<LinkConfig>,
}

/// Looks up a throughput figure of whole GB/s in the table.
pub fn lookup(gbps: u128) -> (r: LinkSpeed)
    ensures
        is_nearest_key(r.key as int, gbps as int),
        r.configs@ == entry(r.key as int),
{
    let key = nearest_key(gbps);
    LinkSpeed { key, configs: configurations(key) }
}

/// Estimates the link behind a throughput of `num / den` GB/s: the figure
/// is rounded to whole GB/s (halves up) and looked up in the table.
pub fn approximate(num: u64, den: u64) -> (r: LinkSpeed)
    requires
        den > 0,
    ensures
        is_nearest_key(r.key as int, rounded_ratio(num as int, den as int)),
        r.configs@ == entry(r.key as int),
{
    lookup(round_ratio(num, den))
}

proof fn lemma_entry_from_rates(key: int, g: int)
    ensures
        forall|i: int|
            0 <= i < entry_from(key, g).len() ==> (#[trigger] entry_from(key, g)[i]).wf()
                && entry_from(key, g)[i].quarters() == 4 * key,
    decreases 6 - g,
{
    if 1 <= g <= 5 {
        lemma_entry_from_rates(key, g + 1);
        let q = lane_quarters(g);
        if (4 * key) % q == 0 && valid_lanes((4 * key) / q) {
            let c = LinkConfig { generation: g as u8, lanes: ((4 * key) / q) as u8 };
            assert(q * ((4 * key) / q) == 4 * key) by {
                vstd::arithmetic::div_mod::lemma_fundamental_div_mod(4 * key, q);
            }
            let w = (4 * key) / q;
            assert(c.generation as int == g);
            assert(c.lanes as int == w);
            assert(c.wf());
            assert(c.quarters() == q * w);
            assert(c.quarters() == 4 * key);
            assert(entry_from(key, g)[0] == c);
            assert forall|i: int| 0 <= i < entry_from(key, g).len() implies (#[trigger] entry_from(
                key,
                g,
            )[i]).wf() && entry_from(key, g)[i].quarters() == 4 * key by {
                if i > 0 {
                    assert(entry_from(key, g)[i] == entry_from(key, g + 1)[i - 1]);
                }
            }
        } else {
            assert(entry_from(key, g) == entry_from(key, g + 1));
        }
    }
}

/// Every candidate listed under a key is a valid configuration whose raw
/// bandwidth is exactly that key in GB/s.
pub proof fn lemma_entry_rates(key: int)
    ensures
        forall|i: int|
            0 <= i < entry(key).len() ==> (#[trigger] entry(key)[i]).wf() && entry(key)[i].quarters()
                == 4 * key,
{
    lemma_entry_from_rates(key, 1);
}

/// No key of the table has an empty list of candidates.
pub proof fn lemma_entries_nonempty(key: int)
    requires
        is_key(key),
    ensures
        entry(key).len() > 0,
{
    reveal_with_fuel(entry_from, 6);
}

/// At most one key is nearest to a figure under the tie rule, so the lookup
/// is deterministic.
pub proof fn lemma_nearest_key_unique(a: int, b: int, x: int)
    requires
        is_nearest_key(a, x),
        is_nearest_key(b, x),
    ensures
        a == b,
{
    assert(dist(a, x) <= dist(b, x));
    assert(dist(b, x) <= dist(a, x));
}

/// A figure equal to a key is matched by that key, at distance zero.
pub proof fn lemma_key_matches_itself(k: int)
    requires
        is_key(k),
    ensures
        is_nearest_key(k, k),
        dist(k, k) == 0,
        forall|j: int| #[trigger] is_nearest_key(j, k) ==> j == k,
{
    assert forall|j: int| #[trigger] is_nearest_key(j, k) implies j == k by {
        lemma_nearest_key_unique(j, k, k);
    }
}

/// The table written out: the configurations listed under each key.
pub open spec fn listed_entry(key: int) -> Seq<LinkConfig> {
    if key == 1 {
        seq![LinkConfig { generation: 1, lanes: 4 }, LinkConfig { generation: 2, lanes: 2 }, LinkConfig { generation: 3, lanes: 1 }]
    } else if key == 2 {
        seq![LinkConfig { generation: 1, lanes: 8 }, LinkConfig { generation: 2, lanes: 4 }, LinkConfig { generation: 3, lanes: 2 }, LinkConfig { generation: 4, lanes: 1 }]
    } else if key == 4 {
        seq![LinkConfig { generation: 1, lanes: 16 }, LinkConfig { generation: 2, lanes: 8 }, LinkConfig { generation: 3, lanes: 4 }, LinkConfig { generation: 4, lanes: 2 }, LinkConfig { generation: 5, lanes: 1 }]
    } else if key == 8 {
        seq![LinkConfig { generation: 2, lanes: 16 }, LinkConfig { generation: 3, lanes: 8 }, LinkConfig { generation: 4, lanes: 4 }, LinkConfig { generation: 5, lanes: 2 }]
    } else if key == 16 {
        seq![LinkConfig { generation: 3, lanes: 16 }, LinkConfig { generation: 4, lanes: 8 }, LinkConfig { generation: 5, lanes: 4 }]
    } else if key == 32 {
        seq![LinkConfig { generation: 4, lanes: 16 }, LinkConfig { generation: 5, lanes: 8 }]
    } else if key == 64 {
        seq![LinkConfig { generation: 5, lanes: 16 }]
    } else {
        Seq::empty()
    }
}

/// The table written out: the labels listed under each key.
pub open spec fn listed_labels(key: int) -> Seq<Seq<char>> {
    if key == 1 {
        seq!["PCIe 1.0 x4"@, "PCIe 2.0 x2"@, "PCIe 3.0 x1"@]
    } else if key == 2 {
        seq!["PCIe 1.0 x8"@, "PCIe 2.0 x4"@, "PCIe 3.0 x2"@, "PCIe 4.0 x1"@]
    } else if key == 4 {
        seq!["PCIe 1.0 x16"@, "PCIe 2.0 x8"@, "PCIe 3.0 x4"@, "PCIe 4.0 x2"@, "PCIe 5.0 x1"@]
    } else if key == 8 {
        seq!["PCIe 2.0 x16"@, "PCIe 3.0 x8"@, "PCIe 4.0 x4"@, "PCIe 5.0 x2"@]
    } else if key == 16 {
        seq!["PCIe 3.0 x16"@, "PCIe 4.0 x8"@, "PCIe 5.0 x4"@]
    } else if key == 32 {
        seq!["PCIe 4.0 x16"@, "PCIe 5.0 x8"@]
    } else if key == 64 {
        seq!["PCIe 5.0 x16"@]
    } else {
        Seq::empty()
    }
}

/// Under every key, the bandwidth rule lists exactly the configurations of
/// the written-out table, in its order, and their labels are its labels.
pub proof fn lemma_entry_is_listed(key: int)
    requires
        is_key(key),
    ensures
        entry(key) == listed_entry(key),
        entry(key).map_values(|c: LinkConfig| c.label_text()) == listed_labels(key),
{
    reveal_with_fuel(entry_from, 6);
    reveal_strlit("PCIe 1.0 x4");
    reveal_strlit("PCIe 2.0 x2");
    reveal_strlit("PCIe 3.0 x1");
    reveal_strlit("PCIe 1.0 x8");
    reveal_strlit("PCIe 2.0 x4");
    reveal_strlit("PCIe 3.0 x2");
    reveal_strlit("PCIe 4.0 x1");
    reveal_strlit("PCIe 1.0 x16");
    reveal_strlit("PCIe 2.0 x8");
    reveal_strlit("PCIe 3.0 x4");
    reveal_strlit("PCIe 4.0 x2");
    reveal_strlit("PCIe 5.0 x1");
    reveal_strlit("PCIe 2.0 x16");
    reveal_strlit("PCIe 3.0 x8");
    reveal_strlit("PCIe 4.0 x4");
    reveal_strlit("PCIe 5.0 x2");
    reveal_strlit("PCIe 3.0 x16");
    reveal_strlit("PCIe 4.0 x8");
    reveal_strlit("PCIe 5.0 x4");
    reveal_strlit("PCIe 4.0 x16");
    reveal_strlit("PCIe 5.0 x8");
    reveal_strlit("PCIe 5.0 x16");
    assert(entry(key) =~= listed_entry(key));
    assert(entry(key) == listed_entry(key));
    assert forall|j: int| 0 <= j < listed_entry(key).len() implies #[trigger] listed_entry(
        key,
    )[j].label_text() =~= listed_labels(key)[j] by {}
    assert(entry(key).map_values(|c: LinkConfig| c.label_text()) =~= listed_labels(key));
}

} // verus!
