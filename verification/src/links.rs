//! Hash links: a trie node, a storage trie or a contract's code belongs to
//! a bundle only where its Keccak-256 hash stands in a node that is already
//! part of it.

use vstd::prelude::*;
use crate::hash::{keccak256, keccak256_of};

verus! {

/// Whether `needle` stands somewhere in `hay`, byte for byte.
pub open spec fn occurs_in(needle: Seq<u8>, hay: Seq<u8>) -> bool {
    exists|k: int| occurs_at(needle, hay, k)
}

/// Whether `needle` stands in `hay` at place `k`.
pub open spec fn occurs_at(needle: Seq<u8>, hay: Seq<u8>, k: int) -> bool {
    0 <= k && k + needle.len() <= hay.len() && hay.subrange(k, k + needle.len()) == needle
}

/// Whether one of the first `upto` nodes holds the hash.
pub open spec fn linked_from(hash: Seq<u8>, nodes: Seq<Vec<u8>>, upto: int) -> bool {
    exists|j: int| holds_hash(hash, nodes, upto, j)
}

/// Whether node `j`, one of the first `upto`, holds the hash.
pub open spec fn holds_hash(hash: Seq<u8>, nodes: Seq<Vec<u8>>, upto: int, j: int) -> bool {
    0 <= j < upto && j < nodes.len() && occurs_in(hash, nodes[j]@)
}

/// Whether the `i`-th node of a trie is linked: the root needs no link,
/// every other node is held by hash in a node before it.
pub open spec fn node_linked(nodes: Seq<Vec<u8>>, i: int) -> bool {
    i == 0 || linked_from(keccak256_of(nodes[i]@), nodes, i)
}

/// Whether the `i`-th of the items is linked to the trie: its hash stands
/// in a node of the trie, or in an item before it.
pub open spec fn item_linked(trie: Seq<Vec<u8>>, items: Seq<Vec<u8>>, i: int) -> bool {
    linked_from(keccak256_of(items[i]@), trie, trie.len() as int) || linked_from(
        keccak256_of(items[i]@),
        items,
        i,
    )
}

/// Whether the `i`-th code is linked to the trie: its hash stands in a node
/// of the trie.
pub open spec fn code_linked(trie: Seq<Vec<u8>>, codes: Seq<Vec<u8>>, i: int) -> bool {
    linked_from(keccak256_of(codes[i]@), trie, trie.len() as int)
}

/// Whether every node of the trie but its root is linked.
pub open spec fn trie_linked(nodes: Seq<Vec<u8>>) -> bool {
    forall|i: int| 0 <= i < nodes.len() ==> #[trigger] node_linked(nodes, i)
}

/// Whether every item is linked to the trie or to an item before it.
pub open spec fn items_linked(trie: Seq<Vec<u8>>, items: Seq<Vec<u8>>) -> bool {
    forall|i: int| 0 <= i < items.len() ==> #[trigger] item_linked(trie, items, i)
}

/// Whether every code is linked to the trie.
pub open spec fn codes_linked(trie: Seq<Vec<u8>>, codes: Seq<Vec<u8>>) -> bool {
    forall|i: int| 0 <= i < codes.len() ==> #[trigger] code_linked(trie, codes, i)
}

/// Whether the hash stands in `hay` at place `k`.
fn stands_at(hash: &[u8; 32], hay: &Vec<u8>, k: usize) -> (r: bool)
    requires
        k + 32 <= hay@.len(),
    ensures
        r == occurs_at(hash@, hay@, k as int),
{
    let len = hay.len();
    let mut i: usize = 0;
    while i < 32
        invariant
            i <= 32,
            k + 32 <= hay@.len(),
            hay@.len() == len,
            forall|j: int| 0 <= j < i ==> hay@[k + j] == hash@[j],
        decreases 32 - i,
    {
        if hay[k + i] != hash[i] {
            assert(hay@.subrange(k as int, k + 32)[i as int] == hay@[k + i]);
            return false;
        }
        i += 1;
    }
    assert(hay@.subrange(k as int, k + 32) =~= hash@);
    true
}

/// Whether the hash stands somewhere in `hay`.
pub fn occurs(hash: &[u8; 32], hay: &Vec<u8>) -> (r: bool)
    ensures
        r == occurs_in(hash@, hay@),
{
    if hay.len() < 32 {
        return false;
    }
    let last = hay.len() - 32;
    let mut k: usize = 0;
    while k <= last
        invariant
            last + 32 == hay@.len(),
            last + 32 <= usize::MAX,
            k <= last + 1,
            forall|j: int| 0 <= j < k ==> !occurs_at(hash@, hay@, j),
        decreases last + 1 - k,
    {
        if stands_at(hash, hay, k) {
            return true;
        }
        k += 1;
    }
    false
}

/// Whether one of the first `upto` nodes holds the hash.
pub fn referenced(hash: &[u8; 32], nodes: &Vec<Vec<u8>>, upto: usize) -> (r: bool)
    ensures
        r == linked_from(hash@, nodes@, upto as int),
{
    let end = if upto < nodes.len() {
        upto
    } else {
        nodes.len()
    };
    let mut j: usize = 0;
    while j < end
        invariant
            j <= end <= nodes@.len(),
            end <= upto,
            end == upto || end == nodes@.len(),
            forall|m: int| 0 <= m < j ==> !holds_hash(hash@, nodes@, upto as int, m),
        decreases end - j,
    {
        if occurs(hash, &nodes[j]) {
            assert(holds_hash(hash@, nodes@, upto as int, j as int));
            return true;
        }
        j += 1;
    }
    false
}

/// Whether every node of the trie but its root is held by hash in a node
/// before it.
pub fn check_trie(nodes: &Vec<Vec<u8>>) -> (r: bool)
    ensures
        r == trie_linked(nodes@),
{
    let mut i: usize = 1;
    while i < nodes.len()
        invariant
            1 <= i,
            forall|m: int| 0 <= m < i && m < nodes@.len() ==> #[trigger] node_linked(nodes@, m),
        decreases nodes@.len() - i,
    {
        let hash = keccak256(nodes[i].as_slice());
        if !referenced(&hash, nodes, i) {
            assert(!node_linked(nodes@, i as int));
            return false;
        }
        i += 1;
    }
    true
}

/// Whether every item is held by hash in a node of the trie or in an item
/// before it.
pub fn check_items(trie: &Vec<Vec<u8>>, items: &Vec<Vec<u8>>) -> (r: bool)
    ensures
        r == items_linked(trie@, items@),
{
    let mut i: usize = 0;
    while i < items.len()
        invariant
            i <= items@.len(),
            forall|m: int| 0 <= m < i ==> #[trigger] item_linked(trie@, items@, m),
        decreases items@.len() - i,
    {
        let hash = keccak256(items[i].as_slice());
        if !referenced(&hash, trie, trie.len()) && !referenced(&hash, items, i) {
            assert(!item_linked(trie@, items@, i as int));
            return false;
        }
        i += 1;
    }
    true
}

/// Whether every code is held by hash in a node of the trie.
pub fn check_codes(trie: &Vec<Vec<u8>>, codes: &Vec<Vec<u8>>) -> (r: bool)
    ensures
        r == codes_linked(trie@, codes@),
{
    let mut i: usize = 0;
    while i < codes.len()
        invariant
            i <= codes@.len(),
            forall|m: int| 0 <= m < i ==> #[trigger] code_linked(trie@, codes@, m),
        decreases codes@.len() - i,
    {
        let hash = keccak256(codes[i].as_slice());
        if !referenced(&hash, trie, trie.len()) {
            assert(!code_linked(trie@, codes@, i as int));
            return false;
        }
        i += 1;
    }
    true
}

} // verus!
