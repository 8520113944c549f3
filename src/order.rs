//! The catalogue's order: by artist, then album (both compared as UTF-8
//! bytes, as `String`'s own order does), then track number ascending, with
//! tracks that have no number after those that have one.
use vstd::prelude::*;
use vstd::utf8::encode_utf8;
use crate::track::Track;

verus! {

broadcast use vstd::seq_lib::to_multiset_insert;

/// Three-way lexicographic comparison of byte sequences: -1, 0 or 1.
pub open spec fn cmp_bytes(a: Seq<u8>, b: Seq<u8>) -> int
    decreases a.len(),
{
    if a.len() == 0 {
        if b.len() == 0 { 0 } else { -1 }
    } else if b.len() == 0 {
        1
    } else if a[0] < b[0] {
        -1
    } else if a[0] > b[0] {
        1
    } else {
        cmp_bytes(a.drop_first(), b.drop_first())
    }
}

/// Three-way comparison of text by its UTF-8 bytes.
pub open spec fn cmp_text(a: Seq<char>, b: Seq<char>) -> int {
    cmp_bytes(encode_utf8(a), encode_utf8(b))
}

/// Three-way comparison of track numbers: ascending, absent last.
pub open spec fn cmp_number(a: Option<u32>, b: Option<u32>) -> int {
    match (a, b) {
        (Some(x), Some(y)) => if x < y { -1 } else if x > y { 1 } else { 0 },
        (Some(_), None) => -1,
        (None, Some(_)) => 1,
        (None, None) => 0,
    }
}

/// Three-way comparison of catalogue entries: artist, album, track number.
pub open spec fn cmp_tracks(a: Track, b: Track) -> int {
    let by_artist = cmp_text(a.artist@, b.artist@);
    let by_album = cmp_text(a.album@, b.album@);
    if by_artist != 0 {
        by_artist
    } else if by_album != 0 {
        by_album
    } else {
        cmp_number(a.track_number, b.track_number)
    }
}

/// No entry comes after one that follows it.
pub open spec fn is_sorted(s: Seq<Track>) -> bool {
    forall|i: int, j: int| 0 <= i < j < s.len() ==> cmp_tracks(#[trigger] s[i], #[trigger] s[j]) <= 0
}

/// `r` is `s` rearranged: position `k` of `r` holds entry `p[k]` of `s`,
/// each entry of `s` is used once, and entries that compare equal keep
/// their relative order.
pub open spec fn is_stable_arrangement(r: Seq<Track>, s: Seq<Track>, p: Seq<int>) -> bool {
    &&& r.len() == s.len()
    &&& p.len() == r.len()
    &&& forall|k: int| 0 <= k < r.len() ==> 0 <= #[trigger] p[k] < s.len() && r[k] == s[p[k]]
    &&& forall|k: int, l: int| 0 <= k < l < r.len() ==> #[trigger] p[k] != #[trigger] p[l]
    &&& forall|k: int, l: int|
        0 <= k < l < r.len() && cmp_tracks(#[trigger] r[k], #[trigger] r[l]) == 0 ==> p[k] < p[l]
}

proof fn lemma_cmp_bytes_facts(a: Seq<u8>, b: Seq<u8>)
    ensures
        cmp_bytes(a, b) == -cmp_bytes(b, a),
        -1 <= cmp_bytes(a, b) <= 1,
        cmp_bytes(a, b) == 0 <==> a == b,
    decreases a.len(),
{
    if a.len() == 0 && b.len() == 0 {
        assert(a =~= b);
    }
    if a.len() > 0 && b.len() > 0 {
        lemma_cmp_bytes_facts(a.drop_first(), b.drop_first());
        if a[0] == b[0] && a.drop_first() == b.drop_first() {
            assert(a =~= seq![a[0]] + a.drop_first());
            assert(b =~= seq![b[0]] + b.drop_first());
        }
    }
}

proof fn lemma_cmp_bytes_trans(a: Seq<u8>, b: Seq<u8>, c: Seq<u8>)
    requires
        cmp_bytes(a, b) <= 0,
        cmp_bytes(b, c) <= 0,
    ensures
        cmp_bytes(a, c) <= 0,
        cmp_bytes(a, b) < 0 || cmp_bytes(b, c) < 0 ==> cmp_bytes(a, c) < 0,
    decreases a.len(),
{
    if a.len() > 0 && b.len() > 0 && c.len() > 0 {
        if a[0] == b[0] && b[0] == c[0] {
            lemma_cmp_bytes_trans(a.drop_first(), b.drop_first(), c.drop_first());
        }
    }
}

proof fn lemma_cmp_tracks_antisym(a: Track, b: Track)
    ensures
        cmp_tracks(a, b) == -cmp_tracks(b, a),
{
    lemma_cmp_bytes_facts(encode_utf8(a.artist@), encode_utf8(b.artist@));
    lemma_cmp_bytes_facts(encode_utf8(a.album@), encode_utf8(b.album@));
}

proof fn lemma_cmp_tracks_trans(a: Track, b: Track, c: Track)
    requires
        cmp_tracks(a, b) <= 0,
        cmp_tracks(b, c) <= 0,
    ensures
        cmp_tracks(a, c) <= 0,
{
    let (aa, ba, ca) = (encode_utf8(a.artist@), encode_utf8(b.artist@), encode_utf8(c.artist@));
    let (al, bl, cl) = (encode_utf8(a.album@), encode_utf8(b.album@), encode_utf8(c.album@));
    lemma_cmp_bytes_facts(aa, ba);
    lemma_cmp_bytes_facts(ba, ca);
    lemma_cmp_bytes_facts(aa, ca);
    lemma_cmp_bytes_facts(al, bl);
    lemma_cmp_bytes_facts(bl, cl);
    lemma_cmp_bytes_facts(al, cl);
    lemma_cmp_bytes_trans(aa, ba, ca);
    if cmp_bytes(aa, ba) == 0 && cmp_bytes(ba, ca) == 0 {
        lemma_cmp_bytes_trans(al, bl, cl);
    }
}

/// Compares `a` and `b` by their UTF-8 bytes: -1, 0 or 1.
pub fn compare_text(a: &String, b: &String) -> (r: i8)
    ensures
        r == cmp_text(a@, b@),
{
    let x = a.as_str().as_bytes();
    let y = b.as_str().as_bytes();
    let mut i: usize = 0;
    proof {
        assert(x@.subrange(0, x@.len() as int) =~= x@);
        assert(y@.subrange(0, y@.len() as int) =~= y@);
    }
    while i < x.len() && i < y.len()
        invariant
            x@ == encode_utf8(a@),
            y@ == encode_utf8(b@),
            i <= x@.len(),
            i <= y@.len(),
            cmp_bytes(x@, y@) == cmp_bytes(x@.subrange(i as int, x@.len() as int), y@.subrange(i as int, y@.len() as int)),
        decreases x@.len() - i,
    {
        let ghost xs = x@.subrange(i as int, x@.len() as int);
        let ghost ys = y@.subrange(i as int, y@.len() as int);
        if x[i] < y[i] {
            return -1;
        }
        if x[i] > y[i] {
            return 1;
        }
        proof {
            assert(xs.drop_first() =~= x@.subrange(i + 1, x@.len() as int));
            assert(ys.drop_first() =~= y@.subrange(i + 1, y@.len() as int));
        }
        i = i + 1;
    }
    if x.len() == y.len() {
        0
    } else if i == x.len() {
        -1
    } else {
        1
    }
}

/// Compares track numbers: ascending, absent last.
pub fn compare_number(a: Option<u32>, b: Option<u32>) -> (r: i8)
    ensures
        r == cmp_number(a, b),
{
    match (a, b) {
        (Some(x), Some(y)) => if x < y { -1 } else if x > y { 1 } else { 0 },
        (Some(_), None) => -1,
        (None, Some(_)) => 1,
        (None, None) => 0,
    }
}

/// Compares two catalogue entries in catalogue order.
pub fn compare_tracks(a: &Track, b: &Track) -> (r: i8)
    ensures
        r == cmp_tracks(*a, *b),
{
    let by_artist = compare_text(&a.artist, &b.artist);
    if by_artist != 0 {
        return by_artist;
    }
    let by_album = compare_text(&a.album, &b.album);
    if by_album != 0 {
        return by_album;
    }
    compare_number(a.track_number, b.track_number)
}

/// Sorts entries into catalogue order, keeping entries that compare equal
/// in their input order.
pub fn sort_tracks(tracks: Vec<Track>) -> (r: Vec<Track>)
    ensures
        is_sorted(r@),
        r@.to_multiset() == tracks@.to_multiset(),
        exists|p: Seq<int>| is_stable_arrangement(r@, tracks@, p),
{
    let mut rest = tracks;
    let mut out: Vec<Track> = Vec::new();
    let ghost all = rest@;
    let ghost mut taken: Seq<Track> = Seq::empty();
    let ghost mut idx: Seq<int> = Seq::empty();
    while rest.len() > 0
        invariant
            all == taken + rest@,
            is_sorted(out@),
            out@.to_multiset() == taken.to_multiset(),
            is_stable_arrangement(out@, taken, idx),
        decreases rest@.len(),
    {
        let t = rest.remove(0);
        let mut j: usize = out.len();
        while j > 0 && compare_tracks(&out[j - 1], &t) > 0
            invariant
                j <= out@.len(),
                forall|k: int| j <= k < out@.len() ==> cmp_tracks(#[trigger] out@[k], t) > 0,
            decreases j,
        {
            j = j - 1;
        }
        proof {
            let s = out@;
            assert forall|p: int, q: int| 0 <= p < q < s.len() + 1 implies
                cmp_tracks(#[trigger] s.insert(j as int, t)[p], #[trigger] s.insert(j as int, t)[q]) <= 0 by {
                let n = s.insert(j as int, t);
                if q == j {
                    assert(n[q] == t);
                    assert(n[p] == s[p]);
                    assert(cmp_tracks(s[j - 1], t) <= 0);
                    if p < j - 1 {
                        lemma_cmp_tracks_trans(s[p], s[j - 1], t);
                    }
                } else if p == j {
                    assert(n[q] == s[q - 1]);
                    lemma_cmp_tracks_antisym(s[q - 1], t);
                } else if p < j && q > j {
                    assert(n[q] == s[q - 1]);
                    assert(n[p] == s[p]);
                } else if q < j {
                    assert(n[q] == s[q]);
                    assert(n[p] == s[p]);
                } else {
                    assert(n[q] == s[q - 1]);
                    assert(n[p] == s[p - 1]);
                }
            }
            assert(taken.push(t) + rest@ =~= all);
            vstd::seq_lib::to_multiset_build(taken, t);
            let n = s.insert(j as int, t);
            let tk = taken.push(t);
            let ni = idx.insert(j as int, taken.len() as int);
            assert forall|k: int| 0 <= k < n.len() implies 0 <= #[trigger] ni[k] < tk.len() && n[k] == tk[ni[k]] by {
                if k < j {
                    assert(n[k] == s[k] && ni[k] == idx[k]);
                } else if k > j {
                    assert(n[k] == s[k - 1] && ni[k] == idx[k - 1]);
                }
            }
            assert forall|k: int, l: int| 0 <= k < l < n.len() implies #[trigger] ni[k] != #[trigger] ni[l] by {
                if k != j && l != j {
                    let k0 = if k < j { k } else { k - 1 };
                    let l0 = if l < j { l } else { l - 1 };
                    assert(ni[k] == idx[k0] && ni[l] == idx[l0]);
                    assert(idx[k0] != idx[l0]);
                } else if k == j {
                    assert(ni[l] == idx[l - 1]);
                } else {
                    assert(ni[k] == idx[k]);
                }
            }
            assert forall|k: int, l: int|
                0 <= k < l < n.len() && cmp_tracks(#[trigger] n[k], #[trigger] n[l]) == 0 implies ni[k] < ni[l] by {
                if k != j && l != j {
                    let k0 = if k < j { k } else { k - 1 };
                    let l0 = if l < j { l } else { l - 1 };
                    assert(ni[k] == idx[k0] && ni[l] == idx[l0]);
                    assert(n[k] == s[k0] && n[l] == s[l0]);
                } else if k == j {
                    assert(n[l] == s[l - 1]);
                    lemma_cmp_tracks_antisym(s[l - 1], t);
                } else {
                    assert(ni[k] == idx[k]);
                }
            }
            taken = tk;
            idx = ni;
        }
        out.insert(j, t);
    }
    proof {
        assert(taken =~= all);
        assert(is_stable_arrangement(out@, tracks@, idx));
    }
    out
}

} // verus!
