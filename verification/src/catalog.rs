//! Catalog preparation for the admin panel.
//!
//! The panel presents asset identifiers with their common prefix
//! removed and in ascending order.  `prepare_catalog` does both, with
//! a contract at the level of the identifiers' byte encodings: the
//! result is sorted by the byte order the host's strings sort in, and
//! its entries are a permutation of the inputs with the prefix
//! stripped.

use vstd::prelude::*;

use vstd::multiset::Multiset;
use vstd::seq_lib::lemma_multiset_commutative;
use vstd::string::StringSliceAdditionalSpecFns;
use vstd::utf8::{encode_utf8, is_continuation_byte};

verus! {

broadcast use vstd::seq_lib::group_to_multiset_ensures;

/// The UTF-8 encoding of a string's characters: the bytes the host
/// stores and orders it by.
pub open spec fn str_bytes(s: String) -> Seq<u8> {
    encode_utf8(s@)
}

/// Lexicographic order on byte sequences: the order `sort` on the
/// host's strings uses.
pub open spec fn bytes_le(a: Seq<u8>, b: Seq<u8>) -> bool
    decreases a.len(),
{
    if a.len() == 0 {
        true
    } else if b.len() == 0 {
        false
    } else if a[0] < b[0] {
        true
    } else if a[0] > b[0] {
        false
    } else {
        bytes_le(a.skip(1), b.skip(1))
    }
}

/// One catalog entry precedes another when its bytes do.
pub open spec fn str_le(a: String, b: String) -> bool {
    bytes_le(str_bytes(a), str_bytes(b))
}

/// A catalog is sorted when every pair of entries is ordered.
pub open spec fn catalog_sorted(s: Seq<String>) -> bool {
    forall|i: int, j: int| 0 <= i < j < s.len() ==> str_le(s[i], s[j])
}

/// The byte encodings of a catalog's entries.
pub open spec fn catalog_bytes(s: Seq<String>) -> Seq<Seq<u8>> {
    s.map_values(|t: String| str_bytes(t))
}

/// An identifier with the prefix removed: the suffix when the bytes
/// start with the prefix's bytes and the remainder begins at a
/// character boundary (as a matched whole-character prefix always
/// does), the identifier unchanged otherwise.
pub open spec fn stripped_bytes(s: Seq<u8>, p: Seq<u8>) -> Seq<u8> {
    if p.len() <= s.len() && s.subrange(0, p.len() as int) == p && (p.len() == s.len() || !is_continuation_byte(s[p.len() as int])) {
        s.skip(p.len() as int)
    } else {
        s
    }
}

/// The order is connex: of any two byte sequences one precedes the
/// other.
pub proof fn lemma_bytes_le_connex(a: Seq<u8>, b: Seq<u8>)
    ensures
        bytes_le(a, b) || bytes_le(b, a),
    decreases a.len(),
{
    if a.len() > 0 && b.len() > 0 && a[0] == b[0] {
        lemma_bytes_le_connex(a.skip(1), b.skip(1));
    }
}

/// The order is transitive.
pub proof fn lemma_bytes_le_trans(a: Seq<u8>, b: Seq<u8>, c: Seq<u8>)
    requires
        bytes_le(a, b),
        bytes_le(b, c),
    ensures
        bytes_le(a, c),
    decreases a.len(),
{
    if a.len() > 0 {
        if a[0] == b[0] && b[0] == c[0] {
            lemma_bytes_le_trans(a.skip(1), b.skip(1), c.skip(1));
        }
    }
}

/// Dropping an equal prefix from both sides keeps the order.
proof fn lemma_bytes_le_common_prefix(a: Seq<u8>, b: Seq<u8>, i: int)
    requires
        0 <= i <= a.len(),
        i <= b.len(),
        forall|j: int| 0 <= j < i ==> a[j] == b[j],
    ensures
        bytes_le(a, b) == bytes_le(a.skip(i), b.skip(i)),
    decreases i,
{
    if i > 0 {
        assert(bytes_le(a, b) == bytes_le(a.skip(1), b.skip(1)));
        lemma_bytes_le_common_prefix(a.skip(1), b.skip(1), i - 1);
        assert(a.skip(1).skip(i - 1) =~= a.skip(i));
        assert(b.skip(1).skip(i - 1) =~= b.skip(i));
    } else {
        assert(a.skip(0) =~= a);
        assert(b.skip(0) =~= b);
    }
}

/// Whether one catalog entry sorts at or before another, by the byte
/// order of their encodings.
pub fn str_le_exec(a: &String, b: &String) -> (r: bool)
    ensures
        r == str_le(*a, *b),
{
    let ab: &[u8] = a.as_str().as_bytes();
    let bb: &[u8] = b.as_str().as_bytes();
    let alen: usize = ab.len();
    let blen: usize = bb.len();
    let mut i: usize = 0;
    while i < alen && i < blen
        invariant
            i <= alen,
            i <= blen,
            alen == ab@.len(),
            blen == bb@.len(),
            ab@ == str_bytes(*a),
            bb@ == str_bytes(*b),
            forall|j: int| 0 <= j < i ==> ab@[j] == bb@[j],
        decreases alen - i,
    {
        let x: u8 = ab[i];
        let y: u8 = bb[i];
        if x < y {
            proof {
                lemma_bytes_le_common_prefix(ab@, bb@, i as int);
                assert(ab@.skip(i as int)[0] == x && bb@.skip(i as int)[0] == y);
                assert(bytes_le(ab@.skip(i as int), bb@.skip(i as int)));
            }
            return true;
        }
        if x > y {
            proof {
                lemma_bytes_le_common_prefix(ab@, bb@, i as int);
                assert(ab@.skip(i as int)[0] == x && bb@.skip(i as int)[0] == y);
                assert(!bytes_le(ab@.skip(i as int), bb@.skip(i as int)));
            }
            return false;
        }
        i += 1;
    }
    proof {
        lemma_bytes_le_common_prefix(ab@, bb@, i as int);
        if i == alen {
            assert(ab@.skip(i as int).len() == 0);
            assert(bytes_le(ab@.skip(i as int), bb@.skip(i as int)));
        } else {
            assert(ab@.skip(i as int).len() > 0 && bb@.skip(i as int).len() == 0);
            assert(!bytes_le(ab@.skip(i as int), bb@.skip(i as int)));
        }
    }
    i == alen
}

/// Removes the catalog prefix from one identifier, byte for byte.
pub fn strip_prefix_once(s: &String, prefix: &str) -> (r: String)
    ensures
        str_bytes(r) == stripped_bytes(str_bytes(*s), prefix.spec_bytes()),
{
    let sstr: &str = s.as_str();
    let sb: &[u8] = sstr.as_bytes();
    let pb: &[u8] = prefix.as_bytes();
    let plen: usize = pb.len();
    if plen > sb.len() {
        return s.clone();
    }
    let mut i: usize = 0;
    while i < plen
        invariant
            i <= plen,
            plen <= sb@.len(),
            plen == pb@.len(),
            sb@ == str_bytes(*s),
            pb@ == prefix.spec_bytes(),
            sstr@ == s@,
            forall|j: int| 0 <= j < i ==> sb@[j] == pb@[j],
        decreases plen - i,
    {
        if sb[i] != pb[i] {
            proof {
                assert(sb@.subrange(0, plen as int)[i as int] != pb@[i as int]);
            }
            return s.clone();
        }
        i += 1;
    }
    proof {
        assert(sb@.subrange(0, plen as int) =~= pb@);
        vstd::utf8::encode_utf8_valid_utf8(s@);
        if plen < sb.len() {
            vstd::utf8::is_char_boundary_iff_not_is_continuation_byte(sb@, plen as int);
        } else {
            vstd::utf8::is_char_boundary_start_end_of_seq(sb@);
        }
    }
    if sstr.is_char_boundary(plen) {
        let parts: (&str, &str) = sstr.split_at(plen);
        proof {
            assert(parts.1.spec_bytes() =~= sb@.skip(plen as int));
        }
        parts.1.to_owned()
    } else {
        s.clone()
    }
}

/// Inserts one entry into a sorted catalog, keeping it sorted; the
/// entries afterwards are the entries before plus the new one.
fn insert_sorted(v: &mut Vec<String>, x: String)
    requires
        catalog_sorted(old(v)@),
    ensures
        final(v)@.len() == old(v)@.len() + 1,
        catalog_sorted(final(v)@),
        catalog_bytes(final(v)@).to_multiset() =~= catalog_bytes(old(v)@).to_multiset().insert(
            str_bytes(x),
        ),
{
    let ghost x0 = x;
    let mut pos: usize = 0;
    while pos < v.len() && str_le_exec(&v[pos], &x)
        invariant
            pos <= v@.len(),
            v@ == old(v)@,
            x == x0,
            forall|j: int| 0 <= j < pos ==> str_le(v@[j], x),
        decreases v@.len() - pos,
    {
        pos += 1;
    }
    proof {
        if (pos as int) < v@.len() {
            lemma_bytes_le_connex(str_bytes(v@[pos as int]), str_bytes(x));
            assert(str_le(x, v@[pos as int]));
            assert forall|k: int| pos <= k < v@.len() implies str_le(x, v@[k]) by {
                if k > pos {
                    assert(str_le(v@[pos as int], v@[k]));
                    lemma_bytes_le_trans(
                        str_bytes(x),
                        str_bytes(v@[pos as int]),
                        str_bytes(v@[k]),
                    );
                }
            }
        }
    }
    let ghost before = v@;
    v.insert(pos, x);
    proof {
        let after = v@;
        let p = pos as int;
        assert(after == before.subrange(0, p).push(x0) + before.subrange(p, before.len() as int));
        assert forall|i: int, j: int| 0 <= i < j < after.len() implies str_le(
            after[i],
            after[j],
        ) by {
            if i < p && j < p {
                assert(after[i] == before[i] && after[j] == before[j]);
            } else if i < p && j == p {
                assert(after[i] == before[i] && after[j] == x0);
            } else if i < p && j > p {
                assert(after[i] == before[i] && after[j] == before[j - 1]);
                if j - 1 > i {
                    assert(str_le(before[i], before[j - 1]));
                } else {
                    lemma_bytes_le_trans(
                        str_bytes(before[i]),
                        str_bytes(x0),
                        str_bytes(before[j - 1]),
                    );
                }
            } else if i == p && j > p {
                assert(after[i] == x0 && after[j] == before[j - 1]);
            } else {
                assert(after[i] == before[i - 1] && after[j] == before[j - 1]);
            }
        }
        let head = before.subrange(0, p);
        let tail = before.subrange(p, before.len() as int);
        assert(before =~= head + tail);
        assert(catalog_bytes(before) =~= catalog_bytes(head) + catalog_bytes(tail));
        assert(catalog_bytes(after) =~= catalog_bytes(head) + (Seq::empty().push(
            str_bytes(x0),
        ) + catalog_bytes(tail)));
        lemma_multiset_commutative(catalog_bytes(head), catalog_bytes(tail));
        lemma_multiset_commutative(
            catalog_bytes(head),
            Seq::empty().push(str_bytes(x0)) + catalog_bytes(tail),
        );
        lemma_multiset_commutative(Seq::empty().push(str_bytes(x0)), catalog_bytes(tail));
        assert(Seq::<Seq<u8>>::empty().to_multiset() =~= Multiset::<Seq<u8>>::empty()) by {
            vstd::multiset::lemma_multiset_empty_len(Seq::<Seq<u8>>::empty().to_multiset());
        }
        assert(Seq::<Seq<u8>>::empty().push(str_bytes(x0)).to_multiset()
            =~= Multiset::<Seq<u8>>::empty().insert(str_bytes(x0)));
        assert(catalog_bytes(after).to_multiset() =~= catalog_bytes(before).to_multiset().insert(
            str_bytes(x0),
        ));
    }
}

/// Prepares a display catalog from raw asset identifiers: strips the
/// common prefix from each and sorts ascending.  The result's entries
/// are, as byte strings, exactly the stripped inputs rearranged.
pub fn prepare_catalog(raw: &Vec<String>, prefix: &str) -> (out: Vec<String>)
    ensures
        out@.len() == raw@.len(),
        catalog_sorted(out@),
        catalog_bytes(out@).to_multiset() =~= raw@.map_values(
            |s: String| stripped_bytes(str_bytes(s), prefix.spec_bytes()),
        ).to_multiset(),
{
    let ghost target = raw@.map_values(
        |s: String| stripped_bytes(str_bytes(s), prefix.spec_bytes()),
    );
    let mut out: Vec<String> = Vec::new();
    let mut k: usize = 0;
    proof {
        assert(catalog_bytes(out@) =~= target.subrange(0, 0));
    }
    while k < raw.len()
        invariant
            k <= raw@.len(),
            out@.len() == k,
            catalog_sorted(out@),
            target == raw@.map_values(
                |s: String| stripped_bytes(str_bytes(s), prefix.spec_bytes()),
            ),
            catalog_bytes(out@).to_multiset() =~= target.subrange(0, k as int).to_multiset(),
        decreases raw@.len() - k,
    {
        let entry: String = strip_prefix_once(&raw[k], prefix);
        insert_sorted(&mut out, entry);
        proof {
            assert(target.subrange(0, k + 1) =~= target.subrange(0, k as int).push(
                target[k as int],
            ));
        }
        k += 1;
    }
    proof {
        assert(target.subrange(0, target.len() as int) =~= target);
    }
    out
}

} // verus!
