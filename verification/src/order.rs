//! The order in which entries are handled one after another: by path, which
//! within one directory is the order of the names' bytes.

use vstd::prelude::*;
use vstd::string::*;
use crate::settings::texts;

verus! {

/// `a` is `b` or comes before it, byte by byte; a prefix comes first.
pub open spec fn bytes_at_most(a: Seq<u8>, b: Seq<u8>) -> bool
    decreases a.len(),
{
    if a.len() == 0 {
        true
    } else if b.len() == 0 {
        false
    } else if a[0] != b[0] {
        a[0] < b[0]
    } else {
        bytes_at_most(a.drop_first(), b.drop_first())
    }
}

/// The name `a` is handled no later than the name `b`: its UTF-8 bytes are
/// those of `b` or come before them.
pub open spec fn name_at_most(a: Seq<char>, b: Seq<char>) -> bool {
    bytes_at_most(vstd::utf8::encode_utf8(a), vstd::utf8::encode_utf8(b))
}

/// Of two byte strings one comes no later than the other.
pub proof fn lemma_bytes_total(a: Seq<u8>, b: Seq<u8>)
    ensures
        bytes_at_most(a, b) || bytes_at_most(b, a),
    decreases a.len(),
{
    if a.len() > 0 && b.len() > 0 && a[0] == b[0] {
        lemma_bytes_total(a.drop_first(), b.drop_first());
    }
}

/// What comes no later than something that comes no later than a third
/// comes no later than the third.
pub proof fn lemma_bytes_transitive(a: Seq<u8>, b: Seq<u8>, c: Seq<u8>)
    requires
        bytes_at_most(a, b),
        bytes_at_most(b, c),
    ensures
        bytes_at_most(a, c),
    decreases a.len(),
{
    if a.len() > 0 && b.len() > 0 && c.len() > 0 && a[0] == b[0] && b[0] == c[0] {
        lemma_bytes_transitive(a.drop_first(), b.drop_first(), c.drop_first());
    }
}

/// Whether the name `a` is handled no later than the name `b`.
pub fn comes_no_later(a: &str, b: &str) -> (r: bool)
    ensures
        r == name_at_most(a@, b@),
{
    let x = a.as_bytes();
    let y = b.as_bytes();
    let mut i: usize = 0;
    assert(x@.skip(0) =~= x@ && y@.skip(0) =~= y@);
    while i < x.len() && i < y.len()
        invariant
            i <= x@.len(),
            i <= y@.len(),
            x@ == vstd::utf8::encode_utf8(a@),
            y@ == vstd::utf8::encode_utf8(b@),
            bytes_at_most(x@, y@) == bytes_at_most(x@.skip(i as int), y@.skip(i as int)),
        decreases x@.len() - i,
    {
        assert(x@.skip(i as int).len() > 0 && y@.skip(i as int).len() > 0);
        assert(x@.skip(i as int)[0] == x@[i as int]);
        assert(y@.skip(i as int)[0] == y@[i as int]);
        if x[i] != y[i] {
            return x[i] < y[i];
        }
        assert(x@.skip(i as int).drop_first() =~= x@.skip(i + 1));
        assert(y@.skip(i as int).drop_first() =~= y@.skip(i + 1));
        i += 1;
    }
    assert(x@.skip(i as int).len() == x@.len() - i);
    assert(y@.skip(i as int).len() == y@.len() - i);
    i == x.len()
}

/// `order` lists the positions of `names`, each once, so that the names
/// they point at never go down.
pub open spec fn is_sequential_order(order: Seq<usize>, names: Seq<Seq<char>>) -> bool {
    &&& order.len() == names.len()
    &&& sorted_positions(order, names, names.len() as int)
}

/// `order` lists the positions below `count`, each at most once, so that the
/// names they point at never go down.
pub open spec fn sorted_positions(order: Seq<usize>, names: Seq<Seq<char>>, count: int) -> bool {
    &&& forall|i: int| 0 <= i < order.len() ==> 0 <= #[trigger] order[i] < count
    &&& forall|i: int, j: int|
        0 <= i < j < order.len() ==> #[trigger] order[i] != #[trigger] order[j]
    &&& forall|i: int, j: int|
        0 <= i < j < order.len() ==> name_at_most(
            names[#[trigger] order[i] as int],
            names[#[trigger] order[j] as int],
        )
}

/// Every entry is handled, and handled once: a sequential order leaves no
/// position out.
pub proof fn lemma_order_lists_every_position(order: Seq<usize>, names: Seq<Seq<char>>, p: int)
    requires
        is_sequential_order(order, names),
        0 <= p < names.len(),
    ensures
        exists|i: int| 0 <= i < order.len() && order[i] == p,
{
    let n = names.len() as int;
    let listed = Seq::new(order.len(), |i: int| order[i] as int);
    assert(listed.no_duplicates()) by {
        assert forall|i: int, j: int|
            0 <= i < listed.len() && 0 <= j < listed.len() && i != j implies listed[i]
            != listed[j] by {
            if i < j {
                assert(order[i] != order[j]);
            } else {
                assert(order[j] != order[i]);
            }
        }
    }
    listed.unique_seq_to_set();
    vstd::set_lib::lemma_int_range(0, n);
    let all = vstd::set_lib::set_int_range(0, n);
    assert(listed.to_set().subset_of(all)) by {
        assert forall|x: int| listed.to_set().contains(x) implies all.contains(x) by {
            let i = choose|i: int| 0 <= i < listed.len() && listed[i] == x;
            assert(0 <= order[i] < n);
        }
    }
    vstd::set_lib::lemma_len_subset(listed.to_set(), all);
    vstd::set_lib::lemma_subset_equality(listed.to_set(), all);
    assert(all.contains(p));
    assert(listed.to_set().contains(p));
    let i = choose|i: int| 0 <= i < listed.len() && listed[i] == p;
    assert(order[i] == p);
}

fn insertion_point(names: &Vec<String>, order: &Vec<usize>, k: usize) -> (pos: usize)
    requires
        k < names@.len(),
        sorted_positions(order@, texts(names@), k as int),
    ensures
        pos <= order@.len(),
        forall|i: int|
            0 <= i < pos ==> name_at_most(
                texts(names@)[#[trigger] order@[i] as int],
                texts(names@)[k as int],
            ),
        forall|i: int|
            pos <= i < order@.len() ==> !name_at_most(
                texts(names@)[#[trigger] order@[i] as int],
                texts(names@)[k as int],
            ),
{
    let ghost all = texts(names@);
    let mut lo: usize = 0;
    let mut hi: usize = order.len();
    while lo < hi
        invariant
            lo <= hi <= order@.len(),
            k < names@.len(),
            all == texts(names@),
            sorted_positions(order@, all, k as int),
            forall|i: int| 0 <= i < lo ==> name_at_most(all[#[trigger] order@[i] as int], all[k as int]),
            forall|i: int|
                hi <= i < order@.len() ==> !name_at_most(
                    all[#[trigger] order@[i] as int],
                    all[k as int],
                ),
        decreases hi - lo,
    {
        let mid: usize = lo + (hi - lo) / 2;
        let at_mid: usize = order[mid];
        assert(at_mid == order@[mid as int]);
        if comes_no_later(names[at_mid].as_str(), names[k].as_str()) {
            assert forall|i: int| 0 <= i < mid + 1 implies name_at_most(
                all[#[trigger] order@[i] as int],
                all[k as int],
            ) by {
                if i < mid {
                    assert(name_at_most(all[order@[i] as int], all[order@[mid as int] as int]));
                    lemma_bytes_transitive(
                        vstd::utf8::encode_utf8(all[order@[i] as int]),
                        vstd::utf8::encode_utf8(all[at_mid as int]),
                        vstd::utf8::encode_utf8(all[k as int]),
                    );
                }
            }
            lo = mid + 1;
        } else {
            assert forall|i: int| mid <= i < order@.len() implies !name_at_most(
                all[#[trigger] order@[i] as int],
                all[k as int],
            ) by {
                if i > mid && name_at_most(all[order@[i] as int], all[k as int]) {
                    assert(name_at_most(all[order@[mid as int] as int], all[order@[i] as int]));
                    lemma_bytes_transitive(
                        vstd::utf8::encode_utf8(all[at_mid as int]),
                        vstd::utf8::encode_utf8(all[order@[i] as int]),
                        vstd::utf8::encode_utf8(all[k as int]),
                    );
                }
            }
            hi = mid;
        }
    }
    lo
}

/// The order in which the entries called `names` are handled one after
/// another: the positions of the names, sorted by name.
pub fn sequential_order(names: &Vec<String>) -> (order: Vec<usize>)
    ensures
        is_sequential_order(order@, texts(names@)),
{
    let ghost all = texts(names@);
    let mut order: Vec<usize> = Vec::new();
    let mut k: usize = 0;
    while k < names.len()
        invariant
            k <= names@.len(),
            all == texts(names@),
            order@.len() == k,
            sorted_positions(order@, all, k as int),
        decreases names@.len() - k,
    {
        let pos = insertion_point(names, &order, k);
        let ghost before = order@;
        order.insert(pos, k);
        proof {
            let after = order@;
            assert(after == before.insert(pos as int, k));
            assert forall|i: int| 0 <= i < after.len() implies after[i] == (if i < pos {
                before[i]
            } else if i == pos {
                k
            } else {
                before[i - 1]
            }) by {}
            assert forall|i: int, j: int| 0 <= i < j < after.len() implies name_at_most(
                all[#[trigger] after[i] as int],
                all[#[trigger] after[j] as int],
            ) by {
                if i == pos {
                    let first_after = before[pos as int];
                    lemma_bytes_total(
                        vstd::utf8::encode_utf8(all[first_after as int]),
                        vstd::utf8::encode_utf8(all[k as int]),
                    );
                    if j - 1 > pos {
                        assert(name_at_most(all[before[pos as int] as int], all[before[j - 1] as int]));
                        lemma_bytes_transitive(
                            vstd::utf8::encode_utf8(all[k as int]),
                            vstd::utf8::encode_utf8(all[first_after as int]),
                            vstd::utf8::encode_utf8(all[before[j - 1] as int]),
                        );
                    }
                } else if j == pos {
                    assert(name_at_most(all[before[i] as int], all[k as int]));
                } else {
                    let bi = if i < pos { i } else { i - 1 };
                    let bj = if j < pos { j } else { j - 1 };
                    assert(name_at_most(all[before[bi] as int], all[before[bj] as int]));
                }
            }
            assert forall|i: int, j: int| 0 <= i < j < after.len() implies #[trigger] after[i]
                != #[trigger] after[j] by {
                let bi = if i < pos { i } else { i - 1 };
                let bj = if j < pos { j } else { j - 1 };
                if i != pos && j != pos {
                    assert(before[bi] != before[bj]);
                } else if i == pos {
                    assert(before[bj] < k);
                } else {
                    assert(before[bi] < k);
                }
            }
            assert forall|i: int| 0 <= i < after.len() implies 0 <= #[trigger] after[i] < k + 1 by {
                if i < pos {
                    assert(before[i] < k);
                } else if i > pos {
                    assert(before[i - 1] < k);
                }
            }
        }
        k += 1;
    }
    order
}

} // verus!
