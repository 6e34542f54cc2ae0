//! Output devices: how the list shown to the user is arranged, how a device
//! is found by name, and which sample rate a device is opened at.

use vstd::prelude::*;
use vstd::string::*;

verus! {

/// An audio output device as the settings menu lists it.
#[derive(Debug, Clone, PartialEq, Eq)]
pub struct OutputDevice {
    pub name: String,
    pub is_default: bool,
}

/// How two names or two devices stand to each other in the listing order.
#[derive(Debug, Clone, Copy, PartialEq, Eq, Structural)]
pub enum ListOrder {
    Before,
    Same,
    After,
}

/// `a` and `b` agree on their first `k` characters, and at `k` either `a`
/// has ended while `b` goes on, or both go on and `a` has the smaller character.
pub open spec fn first_difference_at(a: Seq<char>, b: Seq<char>, k: int) -> bool {
    &&& 0 <= k <= a.len()
    &&& k <= b.len()
    &&& forall|j: int| 0 <= j < k ==> a[j] == b[j]
    &&& ((k == a.len() && k < b.len()) || (k < a.len() && k < b.len() && (a[k] as u32) < (b[k]
        as u32)))
}

/// Lexicographic order on names, character by character. For well-formed
/// text this is the order in which `String`'s comparison puts names, since
/// UTF-8 keeps the order of code points.
pub open spec fn name_precedes(a: Seq<char>, b: Seq<char>) -> bool {
    exists|k: int| #[trigger] first_difference_at(a, b, k)
}

/// The listing order of devices: the default device first, the others by name.
pub open spec fn device_before(a: OutputDevice, b: OutputDevice) -> bool {
    ||| (a.is_default && !b.is_default)
    ||| (a.is_default == b.is_default && name_precedes(a.name@, b.name@))
}

/// Whether a device of this name is the default one.
pub open spec fn names_default(default_name: Option<String>, name: Seq<char>) -> bool {
    match default_name {
        Some(d) => d@ == name,
        None => false,
    }
}

/// Every device comes before every later one in the list.
pub open spec fn devices_in_order(d: Seq<OutputDevice>) -> bool {
    forall|a: int, b: int| 0 <= a < b < d.len() ==> device_before(#[trigger] d[a], #[trigger] d[b])
}

/// The list holds a device of this name.
pub open spec fn lists_name(d: Seq<OutputDevice>, name: Seq<char>) -> bool {
    exists|a: int| 0 <= a < d.len() && #[trigger] d[a].name@ == name
}

/// Some device reported this name.
pub open spec fn reports_name(names: Seq<Option<String>>, name: Seq<char>) -> bool {
    exists|j: int| 0 <= j < names.len() && #[trigger] names[j] is Some && names[j]->0@ == name
}

/// No name comes before itself.
pub proof fn lemma_name_precedes_irreflexive(a: Seq<char>)
    ensures
        !name_precedes(a, a),
{
}

/// If `a` comes before `b`, `b` does not come before `a`.
pub proof fn lemma_name_precedes_asymmetric(a: Seq<char>, b: Seq<char>)
    requires
        name_precedes(a, b),
    ensures
        !name_precedes(b, a),
{
    let k1 = choose|k: int| first_difference_at(a, b, k);
    if name_precedes(b, a) {
        let k2 = choose|k: int| first_difference_at(b, a, k);
        if k1 < k2 {
            assert(b[k1] == a[k1]);
        } else if k2 < k1 {
            assert(a[k2] == b[k2]);
        }
    }
}

/// The order on names is transitive.
pub proof fn lemma_name_precedes_transitive(a: Seq<char>, b: Seq<char>, c: Seq<char>)
    requires
        name_precedes(a, b),
        name_precedes(b, c),
    ensures
        name_precedes(a, c),
{
    let k1 = choose|k: int| first_difference_at(a, b, k);
    let k2 = choose|k: int| first_difference_at(b, c, k);
    if k1 < k2 {
        assert(first_difference_at(a, c, k1));
    } else if k2 < k1 {
        assert(first_difference_at(a, c, k2));
    } else {
        assert(first_difference_at(a, c, k1));
    }
}

/// The order on devices is transitive.
pub proof fn lemma_device_before_transitive(a: OutputDevice, b: OutputDevice, c: OutputDevice)
    requires
        device_before(a, b),
        device_before(b, c),
    ensures
        device_before(a, c),
{
    if a.is_default == b.is_default && b.is_default == c.is_default {
        lemma_name_precedes_transitive(a.name@, b.name@, c.name@);
    }
}

/// No device comes before one of the same name and the same default flag.
pub proof fn lemma_device_before_irreflexive(a: OutputDevice, b: OutputDevice)
    requires
        a.name@ == b.name@,
        a.is_default == b.is_default,
    ensures
        !device_before(a, b),
{
    lemma_name_precedes_irreflexive(a.name@);
}

/// Compares two names in the listing order.
pub fn compare_names(a: &str, b: &str) -> (o: ListOrder)
    ensures
        o == ListOrder::Before <==> name_precedes(a@, b@),
        o == ListOrder::Same <==> a@ == b@,
        o == ListOrder::After <==> name_precedes(b@, a@),
{
    let la = a.unicode_len();
    let lb = b.unicode_len();
    let mut i: usize = 0;
    while i < la && i < lb
        invariant
            la == a@.len(),
            lb == b@.len(),
            i <= la,
            i <= lb,
            forall|j: int| 0 <= j < i ==> a@[j] == b@[j],
        decreases la - i,
    {
        let ca = a.get_char(i);
        let cb = b.get_char(i);
        if (ca as u32) < (cb as u32) {
            assert(first_difference_at(a@, b@, i as int));
            proof {
                lemma_name_precedes_asymmetric(a@, b@);
            }
            return ListOrder::Before;
        }
        if (cb as u32) < (ca as u32) {
            assert(first_difference_at(b@, a@, i as int));
            proof {
                lemma_name_precedes_asymmetric(b@, a@);
            }
            return ListOrder::After;
        }
        i = i + 1;
    }
    if la == lb {
        assert(a@ =~= b@);
        proof {
            lemma_name_precedes_irreflexive(a@);
        }
        ListOrder::Same
    } else if la < lb {
        assert(first_difference_at(a@, b@, i as int));
        proof {
            lemma_name_precedes_asymmetric(a@, b@);
        }
        ListOrder::Before
    } else {
        assert(first_difference_at(b@, a@, i as int));
        proof {
            lemma_name_precedes_asymmetric(b@, a@);
        }
        ListOrder::After
    }
}

/// Compares two devices in the listing order.
pub fn compare_devices(a: &OutputDevice, b: &OutputDevice) -> (o: ListOrder)
    ensures
        o == ListOrder::Before <==> device_before(*a, *b),
        o == ListOrder::Same <==> (a.name@ == b.name@ && a.is_default == b.is_default),
        o == ListOrder::After <==> device_before(*b, *a),
{
    if a.is_default && !b.is_default {
        ListOrder::Before
    } else if !a.is_default && b.is_default {
        ListOrder::After
    } else {
        compare_names(a.name.as_str(), b.name.as_str())
    }
}

/// Builds the device list of the settings menu from the names the devices
/// reported, in the order they were enumerated (`None` for a device whose
/// name could not be read, which is left out), and the name of the system's
/// default device. A name reported twice is listed once; the default device
/// comes first, the others follow in the order of their names.
pub fn arrange_output_devices(names: Vec<Option<String>>, default_name: Option<String>) -> (devices:
    Vec<OutputDevice>)
    ensures
        devices_in_order(devices@),
        forall|a: int|
            0 <= a < devices@.len() ==> (#[trigger] devices@[a]).is_default == names_default(
                default_name,
                devices@[a].name@,
            ),
        forall|s: Seq<char>| lists_name(devices@, s) <==> reports_name(names@, s),
{
    let mut devices: Vec<OutputDevice> = Vec::new();
    let n = names.len();
    let mut i: usize = 0;
    while i < n
        invariant
            n == names@.len(),
            i <= n,
            devices_in_order(devices@),
            forall|a: int|
                0 <= a < devices@.len() ==> (#[trigger] devices@[a]).is_default == names_default(
                    default_name,
                    devices@[a].name@,
                ),
            forall|s: Seq<char>| lists_name(devices@, s) <==> reports_name(names@.take(i as int), s),
        decreases n - i,
    {
        proof {
            assert forall|s: Seq<char>|
                reports_name(names@.take(i + 1), s) <==> (reports_name(names@.take(i as int), s) || (
                names@[i as int] is Some && names@[i as int]->0@ == s)) by {
                if reports_name(names@.take(i + 1), s) {
                    let j = choose|j: int|
                        0 <= j < names@.take(i + 1).len() && #[trigger] names@.take(i + 1)[j] is Some
                            && names@.take(i + 1)[j]->0@ == s;
                    if j < i {
                        assert(names@.take(i as int)[j] == names@.take(i + 1)[j]);
                    }
                }
                if reports_name(names@.take(i as int), s) {
                    let j = choose|j: int|
                        0 <= j < names@.take(i as int).len() && #[trigger] names@.take(
                            i as int,
                        )[j] is Some && names@.take(i as int)[j]->0@ == s;
                    assert(names@.take(i + 1)[j] == names@.take(i as int)[j]);
                }
                if names@[i as int] is Some && names@[i as int]->0@ == s {
                    assert(names@.take(i + 1)[i as int] == names@[i as int]);
                }
            }
        }
        match &names[i] {
            None => {},
            Some(name) => {
                let is_default = match &default_name {
                    Some(d) => *d == *name,
                    None => false,
                };
                let device = OutputDevice { name: name.clone(), is_default };
                insert_in_order(&mut devices, device, Ghost(default_name));
            },
        }
        i = i + 1;
    }
    assert(names@.take(n as int) =~= names@);
    devices
}

/// Puts `device` into the ordered list at its place, unless a device of the
/// same name is already listed.
fn insert_in_order(devices: &mut Vec<OutputDevice>, device: OutputDevice, Ghost(default_name): Ghost<
    Option<String>>)
    requires
        devices_in_order(old(devices)@),
        forall|a: int|
            0 <= a < old(devices)@.len() ==> (#[trigger] old(devices)@[a]).is_default
                == names_default(default_name, old(devices)@[a].name@),
        device.is_default == names_default(default_name, device.name@),
    ensures
        devices_in_order(final(devices)@),
        forall|a: int|
            0 <= a < final(devices)@.len() ==> (#[trigger] final(devices)@[a]).is_default
                == names_default(default_name, final(devices)@[a].name@),
        forall|s: Seq<char>|
            lists_name(final(devices)@, s) <==> (lists_name(old(devices)@, s) || s == device.name@),
{
    let ghost old_devices = devices@;
    let len = devices.len();
    let mut k: usize = 0;
    while k < len
        invariant
            len == devices@.len(),
            old(devices)@ == old_devices,
            devices@ == old_devices,
            devices_in_order(old_devices),
            forall|a: int|
                0 <= a < old_devices.len() ==> (#[trigger] old_devices[a]).is_default
                    == names_default(default_name, old_devices[a].name@),
            k <= len,
            forall|a: int| 0 <= a < k ==> device_before(#[trigger] devices@[a], device),
        ensures
            devices@ == old_devices,
            k <= len,
            forall|a: int| 0 <= a < k ==> device_before(#[trigger] devices@[a], device),
            k < len ==> device_before(device, devices@[k as int]),
        decreases len - k,
    {
        match compare_devices(&device, &devices[k]) {
            ListOrder::Same => {
                assert(devices@[k as int].name@ == device.name@);
                assert(lists_name(devices@, device.name@));
                return;
            },
            ListOrder::Before => {
                break;
            },
            ListOrder::After => {},
        }
        k = k + 1;
    }
    // Every device from `k` on comes after the new one, so none of them shares its name.
    proof {
        if k < len {
            assert forall|b: int| k <= b < len implies device_before(device, #[trigger] devices@[b]) by {
                if b > k {
                    lemma_device_before_transitive(device, devices@[k as int], devices@[b]);
                }
            }
        }
        assert forall|b: int| 0 <= b < len implies #[trigger] devices@[b].name@ != device.name@ by {
            if devices@[b].name@ == device.name@ {
                assert(devices@[b].is_default == device.is_default);
                if b < k {
                    lemma_device_before_irreflexive(devices@[b], device);
                } else {
                    lemma_device_before_irreflexive(device, devices@[b]);
                }
            }
        }
    }
    devices.insert(k, device);
    proof {
        let d = devices@;
        assert(d =~= old_devices.insert(k as int, device));
        assert forall|a: int, b: int| 0 <= a < b < d.len() implies device_before(
            #[trigger] d[a],
            #[trigger] d[b],
        ) by {
            if b < k {
                assert(d[a] == old_devices[a] && d[b] == old_devices[b]);
            } else if b == k {
                assert(d[a] == old_devices[a]);
            } else if a < k {
                assert(d[a] == old_devices[a] && d[b] == old_devices[b - 1]);
                lemma_device_before_transitive(d[a], device, d[b]);
            } else if a == k {
                assert(d[b] == old_devices[b - 1]);
            } else {
                assert(d[a] == old_devices[a - 1] && d[b] == old_devices[b - 1]);
            }
        }
        assert forall|a: int| 0 <= a < d.len() implies (#[trigger] d[a]).is_default
            == names_default(default_name, d[a].name@) by {
            if a < k {
                assert(d[a] == old_devices[a]);
            } else if a > k {
                assert(d[a] == old_devices[a - 1]);
            }
        }
        assert forall|s: Seq<char>|
            lists_name(d, s) <==> (lists_name(old_devices, s) || s == device.name@) by {
            if lists_name(d, s) {
                let a = choose|a: int| 0 <= a < d.len() && #[trigger] d[a].name@ == s;
                if a < k {
                    assert(old_devices[a] == d[a]);
                } else if a > k {
                    assert(old_devices[a - 1] == d[a]);
                }
            }
            if lists_name(old_devices, s) {
                let a = choose|a: int| 0 <= a < old_devices.len() && #[trigger] old_devices[a].name@
                    == s;
                if a < k {
                    assert(d[a] == old_devices[a]);
                } else {
                    assert(d[a + 1] == old_devices[a]);
                }
            }
            if s == device.name@ {
                assert(d[k as int] == device);
            }
        }
    }
}

/// The place of the first device whose name could be read and equals
/// `target`, if there is one.
pub fn find_device(names: &Vec<Option<String>>, target: &str) -> (found: Option<usize>)
    ensures
        match found {
            Some(i) => {
                &&& i < names@.len()
                &&& names@[i as int] is Some
                &&& names@[i as int]->0@ == target@
                &&& forall|j: int|
                    0 <= j < i ==> !(#[trigger] names@[j] is Some && names@[j]->0@ == target@)
            },
            None => forall|j: int|
                0 <= j < names@.len() ==> !(#[trigger] names@[j] is Some && names@[j]->0@
                    == target@),
        },
{
    let n = names.len();
    let mut i: usize = 0;
    while i < n
        invariant
            n == names@.len(),
            i <= n,
            forall|j: int| 0 <= j < i ==> !(#[trigger] names@[j] is Some && names@[j]->0@ == target@),
        decreases n - i,
    {
        if let Some(name) = &names[i] {
            if let ListOrder::Same = compare_names(name.as_str(), target) {
                return Some(i);
            }
        }
        i = i + 1;
    }
    None
}

/// A range of sample rates an output device supports.
#[derive(Debug, Clone, Copy, PartialEq, Eq, Structural)]
pub struct SupportedRateRange {
    pub min_rate: u32,
    pub max_rate: u32,
}

/// The range holds the rate.
pub open spec fn range_supports(r: SupportedRateRange, rate: u32) -> bool {
    r.min_rate <= rate <= r.max_rate
}

/// How far apart two rates are.
pub open spec fn rate_gap(a: u32, b: u32) -> int {
    if a >= b {
        a - b
    } else {
        b - a
    }
}

/// Range `i` is the first of the listed ranges whose lowest rate is closest to `rate`.
pub open spec fn closest_range_at(rs: Seq<SupportedRateRange>, rate: u32, i: int) -> bool {
    &&& 0 <= i < rs.len()
    &&& forall|j: int|
        0 <= j < rs.len() ==> rate_gap(rs[i].min_rate, rate) <= rate_gap(#[trigger] rs[j].min_rate, rate)
    &&& forall|j: int|
        0 <= j < i ==> rate_gap(#[trigger] rs[j].min_rate, rate) > rate_gap(rs[i].min_rate, rate)
}

/// The sample rate a device is opened at: the configured one when the device
/// could not be asked or one of its ranges holds it; otherwise the device's
/// default rate; when that is unknown too, the lowest rate of the first range
/// closest to the configured one; the configured one when the device lists no
/// range.
pub open spec fn spec_pick_sample_rate(
    ranges: Option<Seq<SupportedRateRange>>,
    default_rate: Option<u32>,
    configured: u32,
) -> u32 {
    match ranges {
        None => configured,
        Some(rs) => if exists|i: int| 0 <= i < rs.len() && range_supports(#[trigger] rs[i], configured) {
            configured
        } else if default_rate is Some {
            default_rate->0
        } else if rs.len() > 0 {
            rs[choose|i: int| closest_range_at(rs, configured, i)].min_rate
        } else {
            configured
        },
    }
}

/// Only one range is the first closest one.
proof fn lemma_closest_range_unique(rs: Seq<SupportedRateRange>, rate: u32, i: int, k: int)
    requires
        closest_range_at(rs, rate, i),
        closest_range_at(rs, rate, k),
    ensures
        i == k,
{
    if i < k {
        assert(rate_gap(rs[i].min_rate, rate) > rate_gap(rs[k].min_rate, rate));
    } else if k < i {
        assert(rate_gap(rs[k].min_rate, rate) > rate_gap(rs[i].min_rate, rate));
    }
}

/// Chooses the sample rate to open a device at, from the ranges the device
/// reported (`None` when it could not be asked) and its default rate (`None`
/// when it has none).
pub fn pick_sample_rate(
    ranges: Option<&Vec<SupportedRateRange>>,
    default_rate: Option<u32>,
    configured_rate: u32,
) -> (rate: u32)
    ensures
        rate == spec_pick_sample_rate(
            match ranges {
                Some(v) => Some(v@),
                None => None,
            },
            default_rate,
            configured_rate,
        ),
{
    let configs = match ranges {
        Some(v) => v,
        None => {
            return configured_rate;
        },
    };
    let mut best_match: Option<usize> = None;
    let n = configs.len();
    let mut i: usize = 0;
    while i < n
        invariant
            n == configs@.len(),
            ranges == Some(configs),
            i <= n,
            forall|j: int| 0 <= j < i ==> !range_supports(#[trigger] configs@[j], configured_rate),
            i == 0 ==> best_match is None,
            i > 0 ==> best_match is Some && best_match->0 < i && closest_range_at(
                configs@.take(i as int),
                configured_rate,
                best_match->0 as int,
            ),
        decreases n - i,
    {
        let config = configs[i];
        // Prefer exact match (check full range)
        if configured_rate >= config.min_rate && configured_rate <= config.max_rate {
            assert(range_supports(configs@[i as int], configured_rate));
            assert(exists|j: int|
                0 <= j < configs@.len() && range_supports(#[trigger] configs@[j], configured_rate));
            return configured_rate;
        }
        // Track the rate closest to the configured one as a fallback
        let ghost prev = configs@.take(i as int);
        let ghost next = configs@.take(i + 1);
        assert(next =~= prev.push(configs@[i as int]));
        let closer = match best_match {
            None => true,
            Some(b) => rate_distance(config.min_rate, configured_rate) < rate_distance(
                configs[b].min_rate,
                configured_rate,
            ),
        };
        if closer {
            best_match = Some(i);
        }
        proof {
            let b = best_match->0 as int;
            assert forall|j: int| 0 <= j < next.len() implies rate_gap(next[b].min_rate, configured_rate)
                <= rate_gap(#[trigger] next[j].min_rate, configured_rate) by {
                if j < i {
                    assert(next[j] == prev[j]);
                }
                if b < i {
                    assert(next[b] == prev[b]);
                }
            }
            assert forall|j: int| 0 <= j < b implies rate_gap(#[trigger] next[j].min_rate, configured_rate)
                > rate_gap(next[b].min_rate, configured_rate) by {
                assert(next[j] == prev[j]);
                if b < i {
                    assert(next[b] == prev[b]);
                }
            }
        }
        i = i + 1;
    }
    proof {
        assert(configs@.take(n as int) =~= configs@);
    }
    match default_rate {
        Some(d) => d,
        None => match best_match {
            Some(b) => {
                proof {
                    let c = choose|k: int| closest_range_at(configs@, configured_rate, k);
                    lemma_closest_range_unique(configs@, configured_rate, c, b as int);
                }
                configs[b].min_rate
            },
            None => configured_rate,
        },
    }
}

/// How far apart two rates are.
fn rate_distance(a: u32, b: u32) -> (d: u32)
    ensures
        d == rate_gap(a, b),
{
    if a >= b {
        a - b
    } else {
        b - a
    }
}

/// What the chosen sample rate is, in terms of the device's answers:
/// - a device that could not be asked is opened at the configured rate;
/// - when some listed range holds the configured rate, its ends included, the
///   configured rate is kept;
/// - otherwise the device's default rate is used when there is one;
/// - otherwise the choice is the lowest rate of a listed range, none of whose
///   lowest rates is closer to the configured rate (or the configured rate
///   when nothing is listed).
pub proof fn lemma_sample_rate_choice(
    ranges: Option<Seq<SupportedRateRange>>,
    default_rate: Option<u32>,
    configured: u32,
)
    ensures
        ranges is None ==> spec_pick_sample_rate(ranges, default_rate, configured) == configured,
        forall|rs: Seq<SupportedRateRange>, i: int|
            ranges == Some(rs) && 0 <= i < rs.len() && #[trigger] rs[i].min_rate <= configured
                && configured <= rs[i].max_rate ==> spec_pick_sample_rate(
                ranges,
                default_rate,
                configured,
            ) == configured,
        forall|rs: Seq<SupportedRateRange>, d: u32|
            ranges == Some(rs) && default_rate == Some(d) && (forall|i: int|
                0 <= i < rs.len() ==> !(#[trigger] rs[i].min_rate <= configured && configured
                    <= rs[i].max_rate)) ==> spec_pick_sample_rate(ranges, default_rate, configured)
                == d,
        forall|rs: Seq<SupportedRateRange>|
            ranges == Some(rs) && default_rate is None && rs.len() > 0 && (forall|i: int|
                0 <= i < rs.len() ==> !(#[trigger] rs[i].min_rate <= configured && configured
                    <= rs[i].max_rate)) ==> exists|k: int|
                0 <= k < rs.len() && #[trigger] rs[k].min_rate == spec_pick_sample_rate(
                    ranges,
                    default_rate,
                    configured,
                ) && forall|j: int|
                    0 <= j < rs.len() ==> rate_gap(rs[k].min_rate, configured) <= rate_gap(
                        #[trigger] rs[j].min_rate,
                        configured,
                    ),
{
    if let Some(rs) = ranges {
        if rs.len() > 0 && default_rate is None && !(exists|i: int|
            0 <= i < rs.len() && range_supports(#[trigger] rs[i], configured)) {
            lemma_closest_range_exists(rs, configured);
            let k = choose|k: int| closest_range_at(rs, configured, k);
            assert(rs[k].min_rate == spec_pick_sample_rate(ranges, default_rate, configured));
        }
        assert forall|i: int|
            0 <= i < rs.len() && #[trigger] rs[i].min_rate <= configured && configured
                <= rs[i].max_rate implies spec_pick_sample_rate(ranges, default_rate, configured)
            == configured by {
            assert(range_supports(rs[i], configured));
        }
    }
}

/// A non-empty list of ranges has a first closest range.
proof fn lemma_closest_range_exists(rs: Seq<SupportedRateRange>, rate: u32)
    requires
        rs.len() > 0,
    ensures
        exists|i: int| closest_range_at(rs, rate, i),
    decreases rs.len(),
{
    if rs.len() == 1 {
        assert(closest_range_at(rs, rate, 0));
    } else {
        let front = rs.drop_last();
        lemma_closest_range_exists(front, rate);
        let b = choose|i: int| closest_range_at(front, rate, i);
        let last = rs.len() - 1;
        if rate_gap(rs[last].min_rate, rate) < rate_gap(rs[b].min_rate, rate) {
            assert forall|j: int| 0 <= j < rs.len() implies rate_gap(rs[last].min_rate, rate)
                <= rate_gap(#[trigger] rs[j].min_rate, rate) by {
                if j < last {
                    assert(front[j] == rs[j]);
                    assert(front[b] == rs[b]);
                }
            }
            assert forall|j: int| 0 <= j < last implies rate_gap(#[trigger] rs[j].min_rate, rate)
                > rate_gap(rs[last].min_rate, rate) by {
                assert(front[j] == rs[j]);
                assert(front[b] == rs[b]);
            }
            assert(closest_range_at(rs, rate, last));
        } else {
            assert forall|j: int| 0 <= j < rs.len() implies rate_gap(rs[b].min_rate, rate)
                <= rate_gap(#[trigger] rs[j].min_rate, rate) by {
                assert(front[b] == rs[b]);
                if j < last {
                    assert(front[j] == rs[j]);
                }
            }
            assert forall|j: int| 0 <= j < b implies rate_gap(#[trigger] rs[j].min_rate, rate)
                > rate_gap(rs[b].min_rate, rate) by {
                assert(front[j] == rs[j]);
                assert(front[b] == rs[b]);
            }
            assert(closest_range_at(rs, rate, b));
        }
    }
}

} // verus!
