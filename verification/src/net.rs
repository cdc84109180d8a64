//! Choosing the network to join.
//!
//! The device joins the first access point of a scan whose name begins with
//! the marker below. What follows the marker in the name is the passphrase of
//! that network. Names are taken as bytes.

use vstd::prelude::*;

verus! {

/// The marker, `DRIPPY_`, that begins the name of a network meant for the device.
pub open spec fn marker() -> Seq<u8> {
    seq![0x44u8, 0x52u8, 0x49u8, 0x50u8, 0x50u8, 0x59u8, 0x5Fu8]
}

/// Whether a network name begins with the marker.
pub open spec fn is_marked(name: Seq<u8>) -> bool {
    marker().is_prefix_of(name)
}

/// The passphrase that a marked name carries: the name without the marker.
pub open spec fn passphrase_of(name: Seq<u8>) -> Seq<u8> {
    name.skip(marker().len() as int)
}

/// Whether a network name begins with the marker.
pub fn has_marker(name: &[u8]) -> (marked: bool)
    ensures
        marked == is_marked(name@),
{
    let marked = name.len() >= 7 && name[0] == 0x44 && name[1] == 0x52 && name[2] == 0x49
        && name[3] == 0x50 && name[4] == 0x50 && name[5] == 0x59 && name[6] == 0x5F;
    proof {
        let m = marker();
        assert(m.len() == 7);
        if marked {
            assert(m =~= name@.subrange(0, 7));
        } else if name.len() >= 7 {
            let head = name@.subrange(0, 7);
            assert(head[0] == name@[0] && head[1] == name@[1] && head[2] == name@[2] && head[3]
                == name@[3] && head[4] == name@[4] && head[5] == name@[5] && head[6] == name@[6]);
            assert(m[0] == 0x44 && m[1] == 0x52 && m[2] == 0x49 && m[3] == 0x50 && m[4] == 0x50
                && m[5] == 0x59 && m[6] == 0x5F);
        }
    }
    marked
}

/// Reads the passphrase out of a network name, if the name is marked.
pub fn passphrase(name: &[u8]) -> (phrase: Option<Vec<u8>>)
    ensures
        phrase is Some <==> is_marked(name@),
        phrase matches Some(bytes) ==> bytes@ == passphrase_of(name@),
{
    if !has_marker(name) {
        return None;
    }
    let mut bytes: Vec<u8> = Vec::new();
    let mut at: usize = 7;
    while at < name.len()
        invariant
            7 <= at <= name.len(),
            bytes@ == name@.subrange(7, at as int),
        decreases name.len() - at,
    {
        bytes.push(name[at]);
        at = at + 1;
    }
    assert(name@.subrange(7, name.len() as int) =~= name@.skip(7));
    Some(bytes)
}

/// Picks the network to join out of the names found by one scan: the first
/// marked one, in the order of the scan. `None` means that no network of the
/// scan is marked, and the scan is to be repeated.
pub fn choose_network(names: &Vec<Vec<u8>>) -> (choice: Option<usize>)
    ensures
        match choice {
            Some(index) => index < names.len() && is_marked(names[index as int]@) && forall|
                earlier: int,
            |
                0 <= earlier < index ==> !is_marked(#[trigger] names[earlier]@),
            None => forall|any: int| 0 <= any < names.len() ==> !is_marked(#[trigger] names[any]@),
        },
{
    let mut index: usize = 0;
    while index < names.len()
        invariant
            index <= names.len(),
            forall|earlier: int| 0 <= earlier < index ==> !is_marked(#[trigger] names[earlier]@),
        decreases names.len() - index,
    {
        if has_marker(names[index].as_slice()) {
            return Some(index);
        }
        index = index + 1;
    }
    None
}

} // verus!
