use vstd::prelude::*;

use crate::constants::{PRODUCT_ID, VENDOR_ID};

verus! {

/// What discovery reads from a USB device descriptor.
#[derive(Debug, Clone, Copy, PartialEq, Eq, Structural)]
pub struct Descriptor {
    pub vendor_id: u16,
    pub product_id: u16,
    pub num_configurations: u8,
}

/// A device is the peripheral when its descriptor could be read, declares a
/// configuration, and carries the peripheral's vendor and product identifiers.
/// `None` stands for a descriptor that could not be read.
pub open spec fn spec_is_blinker(desc: Option<Descriptor>) -> bool {
    match desc {
        Some(d) => d.num_configurations > 0 && d.product_id == PRODUCT_ID && d.vendor_id
            == VENDOR_ID,
        None => false,
    }
}

/// Tells whether a device with this descriptor is the peripheral.
pub fn is_blinker(desc: &Option<Descriptor>) -> (r: bool)
    ensures
        r == spec_is_blinker(*desc),
{
    match desc {
        Some(d) => d.num_configurations > 0 && d.product_id == PRODUCT_ID && d.vendor_id
            == VENDOR_ID,
        None => false,
    }
}

/// `r` lists, in enumeration order, exactly the positions of `descs` that hold
/// the peripheral.
pub open spec fn lists_matches(descs: Seq<Option<Descriptor>>, r: Seq<usize>) -> bool {
    &&& forall|k: int| 0 <= k < r.len() ==> #[trigger] r[k] < descs.len() && spec_is_blinker(
        descs[r[k] as int],
    )
    &&& forall|k: int, l: int| 0 <= k < l < r.len() ==> #[trigger] r[k] < #[trigger] r[l]
    &&& forall|j: int|
        0 <= j < descs.len() && spec_is_blinker(#[trigger] descs[j]) ==> exists|k: int|
            0 <= k < r.len() && r[k] == j
}

/// The positions of the enumerated devices that are the peripheral, in
/// enumeration order. Devices whose descriptor could not be read, or that
/// carry other identifiers, are left out without error.
pub fn matching_devices(descs: &Vec<Option<Descriptor>>) -> (r: Vec<usize>)
    ensures
        lists_matches(descs@, r@),
{
    let mut r: Vec<usize> = Vec::new();
    let mut i: usize = 0;
    while i < descs.len()
        invariant
            i <= descs@.len(),
            forall|k: int| 0 <= k < r@.len() ==> #[trigger] r@[k] < i && spec_is_blinker(
                descs@[r@[k] as int],
            ),
            forall|k: int, l: int| 0 <= k < l < r@.len() ==> #[trigger] r@[k] < #[trigger] r@[l],
            forall|j: int|
                0 <= j < i && spec_is_blinker(#[trigger] descs@[j]) ==> exists|k: int|
                    0 <= k < r@.len() && r@[k] == j,
        decreases descs@.len() - i,
    {
        let ghost before = r@;
        if is_blinker(&descs[i]) {
            r.push(i);
        }
        proof {
            assert forall|j: int|
                0 <= j < i + 1 && spec_is_blinker(#[trigger] descs@[j]) implies exists|k: int|
                0 <= k < r@.len() && r@[k] == j by {
                if j < i {
                    let k = choose|k: int| 0 <= k < before.len() && before[k] == j;
                    assert(r@[k] == j);
                } else {
                    assert(r@[r@.len() - 1] == j);
                }
            }
        }
        i = i + 1;
    }
    r
}

/// The number of enumerated devices that are the peripheral.
pub fn device_count(descs: &Vec<Option<Descriptor>>) -> (r: usize)
    ensures
        r == descs@.filter(|d: Option<Descriptor>| spec_is_blinker(d)).len(),
{
    let mut n: usize = 0;
    let mut i: usize = 0;
    while i < descs.len()
        invariant
            i <= descs@.len(),
            n == descs@.subrange(0, i as int).filter(|d: Option<Descriptor>| spec_is_blinker(d)).len(),
            n <= i,
        decreases descs@.len() - i,
    {
        proof {
            reveal(Seq::filter);
            assert(descs@.subrange(0, i + 1).drop_last() =~= descs@.subrange(0, i as int));
        }
        if is_blinker(&descs[i]) {
            n = n + 1;
        }
        i = i + 1;
    }
    assert(descs@.subrange(0, i as int) =~= descs@);
    n
}

/// The position of the first enumerated device that is the peripheral, or
/// `None` when there is none.
pub fn first_match(descs: &Vec<Option<Descriptor>>) -> (r: Option<usize>)
    ensures
        match r {
            Some(i) => i < descs@.len() && spec_is_blinker(descs@[i as int]) && forall|j: int|
                0 <= j < i ==> !spec_is_blinker(#[trigger] descs@[j]),
            None => forall|j: int| 0 <= j < descs@.len() ==> !spec_is_blinker(#[trigger] descs@[j]),
        },
{
    let mut i: usize = 0;
    while i < descs.len()
        invariant
            i <= descs@.len(),
            forall|j: int| 0 <= j < i ==> !spec_is_blinker(#[trigger] descs@[j]),
        decreases descs@.len() - i,
    {
        if is_blinker(&descs[i]) {
            return Some(i);
        }
        i = i + 1;
    }
    None
}

} // verus!
