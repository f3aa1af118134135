//! The order of a listing: by lowercase name, entries whose lowercase names
//! are equal staying in the order in which they were listed.

use crate::entry::FileInfo;
use crate::text::{
    lemma_lex_antisymmetric, lemma_lex_total, lemma_lex_transitive, lex_le, name_le, sort_key,
};
use vstd::prelude::*;

verus! {

/// The key by which an entry is ordered.
pub open spec fn key_of(file: FileInfo) -> Seq<u8> {
    sort_key(file.name@)
}

/// Every entry comes before, or ties with, every later one.
pub open spec fn is_sorted(files: Seq<FileInfo>) -> bool {
    forall|i: int, j: int|
        0 <= i < j < files.len() ==> lex_le(#[trigger] key_of(files[i]), #[trigger] key_of(files[j]))
}

/// The entries with the given key, in the order in which they stand.
pub open spec fn with_key(files: Seq<FileInfo>, key: Seq<u8>) -> Seq<FileInfo>
    decreases files.len(),
{
    if files.len() == 0 {
        Seq::empty()
    } else if key_of(files[0]) == key {
        seq![files[0]] + with_key(files.drop_first(), key)
    } else {
        with_key(files.drop_first(), key)
    }
}

/// `sorted` holds the entries of `listed` in ascending order of their keys,
/// and the entries of each key in the order that they have in `listed`.
pub open spec fn is_stable_sort_of(sorted: Seq<FileInfo>, listed: Seq<FileInfo>) -> bool {
    &&& sorted.len() == listed.len()
    &&& is_sorted(sorted)
    &&& forall|key: Seq<u8>| #[trigger] with_key(sorted, key) == with_key(listed, key)
}

proof fn lemma_with_key_concat(a: Seq<FileInfo>, b: Seq<FileInfo>, key: Seq<u8>)
    ensures
        with_key(a + b, key) == with_key(a, key) + with_key(b, key),
    decreases a.len(),
{
    if a.len() == 0 {
        assert(a + b =~= b);
        assert(with_key(a, key) + with_key(b, key) =~= with_key(b, key));
    } else {
        assert((a + b).drop_first() =~= a.drop_first() + b);
        lemma_with_key_concat(a.drop_first(), b, key);
        assert(with_key(a + b, key) =~= with_key(a, key) + with_key(b, key));
    }
}

proof fn lemma_with_key_absent(a: Seq<FileInfo>, key: Seq<u8>)
    requires
        forall|i: int| 0 <= i < a.len() ==> key_of(#[trigger] a[i]) != key,
    ensures
        with_key(a, key) == Seq::<FileInfo>::empty(),
    decreases a.len(),
{
    if a.len() > 0 {
        assert forall|i: int| 0 <= i < a.drop_first().len() implies key_of(
            #[trigger] a.drop_first()[i],
        ) != key by {
            assert(a.drop_first()[i] == a[i + 1]);
        }
        lemma_with_key_absent(a.drop_first(), key);
    }
}

/// Putting `x` into a sorted sequence, behind the entries that come
/// strictly before it and ahead of all others, gives the stable order of
/// `x` followed by what the sequence was sorted from.
proof fn lemma_insert_ordered(
    sorted: Seq<FileInfo>,
    listed: Seq<FileInfo>,
    x: FileInfo,
    at: int,
)
    requires
        is_stable_sort_of(sorted, listed),
        0 <= at <= sorted.len(),
        forall|i: int| 0 <= i < at ==> !lex_le(key_of(x), key_of(#[trigger] sorted[i])),
        at < sorted.len() ==> lex_le(key_of(x), key_of(sorted[at])),
    ensures
        is_stable_sort_of(sorted.insert(at, x), seq![x] + listed),
{
    let out = sorted.insert(at, x);
    let kx = key_of(x);
    assert forall|i: int, j: int| 0 <= i < j < out.len() implies lex_le(
        #[trigger] key_of(out[i]),
        #[trigger] key_of(out[j]),
    ) by {
        if j < at {
            assert(out[i] == sorted[i] && out[j] == sorted[j]);
        } else if j == at {
            assert(out[i] == sorted[i]);
            lemma_lex_total(kx, key_of(sorted[i]));
        } else if i < at {
            assert(out[i] == sorted[i] && out[j] == sorted[j - 1]);
        } else if i == at {
            assert(out[j] == sorted[j - 1]);
            if j - 1 > at {
                assert(lex_le(key_of(sorted[at]), key_of(sorted[j - 1])));
                lemma_lex_transitive(kx, key_of(sorted[at]), key_of(sorted[j - 1]));
            }
        } else {
            assert(out[i] == sorted[i - 1] && out[j] == sorted[j - 1]);
        }
    }
    assert forall|key: Seq<u8>| #[trigger] with_key(out, key) == with_key(seq![x] + listed, key) by {
        let head = sorted.take(at);
        let tail = sorted.skip(at);
        assert(sorted =~= head + tail);
        assert(out =~= head + (seq![x] + tail));
        lemma_with_key_concat(head, tail, key);
        lemma_with_key_concat(head, seq![x] + tail, key);
        assert((seq![x] + tail).drop_first() =~= tail);
        assert((seq![x] + listed).drop_first() =~= listed);
        assert(with_key(sorted, key) == with_key(listed, key));
        if key == kx {
            lemma_lex_total(kx, kx);
            assert forall|i: int| 0 <= i < head.len() implies key_of(#[trigger] head[i])
                != key by {
                assert(head[i] == sorted[i]);
            }
            lemma_with_key_absent(head, key);
            assert(with_key(out, key) =~= seq![x] + with_key(sorted, key));
        } else {
            assert(with_key(out, key) =~= with_key(sorted, key));
        }
    }
}

proof fn lemma_with_key_member(files: Seq<FileInfo>, key: Seq<u8>)
    requires
        with_key(files, key).len() > 0,
    ensures
        exists|i: int| 0 <= i < files.len() && key_of(#[trigger] files[i]) == key,
    decreases files.len(),
{
    if files.len() > 0 && key_of(files[0]) != key {
        lemma_with_key_member(files.drop_first(), key);
        let i = choose|i: int|
            0 <= i < files.drop_first().len() && key_of(#[trigger] files.drop_first()[i]) == key;
        assert(files[i + 1] == files.drop_first()[i]);
    }
}

proof fn lemma_rest_is_stable_sort(sorted: Seq<FileInfo>, other: Seq<FileInfo>)
    requires
        sorted.len() > 0,
        other.len() > 0,
        sorted[0] == other[0],
        is_sorted(sorted),
        forall|key: Seq<u8>| #[trigger] with_key(sorted, key) == with_key(other, key),
    ensures
        is_sorted(sorted.drop_first()),
        forall|key: Seq<u8>| #[trigger]
            with_key(sorted.drop_first(), key) == with_key(other.drop_first(), key),
{
    let rest = sorted.drop_first();
    assert forall|i: int, j: int| 0 <= i < j < rest.len() implies lex_le(
        #[trigger] key_of(rest[i]),
        #[trigger] key_of(rest[j]),
    ) by {
        assert(rest[i] == sorted[i + 1] && rest[j] == sorted[j + 1]);
    }
    assert forall|key: Seq<u8>| #[trigger]
        with_key(sorted.drop_first(), key) == with_key(other.drop_first(), key) by {
        assert(with_key(sorted, key) == with_key(other, key));
        if key_of(sorted[0]) == key {
            let a = with_key(sorted.drop_first(), key);
            let b = with_key(other.drop_first(), key);
            assert((seq![sorted[0]] + a).drop_first() =~= a);
            assert((seq![other[0]] + b).drop_first() =~= b);
        }
    }
}

/// A listing has one stable order: two sequences that both are the
/// stable order of the same listing are equal.
pub proof fn lemma_stable_sort_unique(a: Seq<FileInfo>, b: Seq<FileInfo>, listed: Seq<FileInfo>)
    requires
        is_stable_sort_of(a, listed),
        is_stable_sort_of(b, listed),
    ensures
        a == b,
{
    assert forall|key: Seq<u8>| #[trigger] with_key(a, key) == with_key(b, key) by {
        assert(with_key(a, key) == with_key(listed, key));
        assert(with_key(b, key) == with_key(listed, key));
    }
    lemma_same_groups_same_order(a, b);
}

proof fn lemma_same_groups_same_order(a: Seq<FileInfo>, b: Seq<FileInfo>)
    requires
        a.len() == b.len(),
        is_sorted(a),
        is_sorted(b),
        forall|key: Seq<u8>| #[trigger] with_key(a, key) == with_key(b, key),
    ensures
        a == b,
    decreases a.len(),
{
    if a.len() == 0 {
        assert(a =~= b);
    } else {
        let ka = key_of(a[0]);
        let kb = key_of(b[0]);
        assert(with_key(a, ka) == with_key(b, ka));
        assert(with_key(a, kb) == with_key(b, kb));
        assert(with_key(a, ka).len() > 0);
        assert(with_key(b, kb).len() > 0);
        lemma_with_key_member(b, ka);
        lemma_with_key_member(a, kb);
        let i = choose|i: int| 0 <= i < b.len() && key_of(#[trigger] b[i]) == ka;
        let j = choose|j: int| 0 <= j < a.len() && key_of(#[trigger] a[j]) == kb;
        lemma_lex_total(ka, ka);
        if i > 0 {
            assert(lex_le(key_of(b[0]), key_of(b[i])));
        }
        if j > 0 {
            assert(lex_le(key_of(a[0]), key_of(a[j])));
        }
        lemma_lex_antisymmetric(ka, kb);
        assert(with_key(a, ka)[0] == a[0]);
        assert(with_key(b, ka)[0] == b[0]);
        lemma_rest_is_stable_sort(a, b);
        lemma_rest_is_stable_sort(b, a);
        lemma_same_groups_same_order(a.drop_first(), b.drop_first());
        assert(a =~= seq![a[0]] + a.drop_first());
        assert(b =~= seq![b[0]] + b.drop_first());
    }
}

/// Sorts a listing by lowercase name, keeping entries whose lowercase
/// names are equal in the order in which they were listed.
pub fn sort_files(files: Vec<FileInfo>) -> (sorted: Vec<FileInfo>)
    ensures
        is_stable_sort_of(sorted@, files@),
{
    let ghost listed = files@;
    let mut rest = files;
    let mut out: Vec<FileInfo> = Vec::new();
    while rest.len() > 0
        invariant
            rest@.len() <= listed.len(),
            rest@ == listed.take(rest@.len() as int),
            is_stable_sort_of(out@, listed.skip(rest@.len() as int)),
        decreases rest@.len(),
    {
        let ghost before = out@;
        let ghost n = rest@.len() as int;
        let x = rest.pop().unwrap();
        let mut at: usize = 0;
        while at < out.len() && !name_le(x.name.as_str(), out[at].name.as_str())
            invariant
                at <= out@.len(),
                forall|i: int| 0 <= i < at ==> !lex_le(key_of(x), key_of(#[trigger] out@[i])),
            decreases out@.len() - at,
        {
            at = at + 1;
        }
        out.insert(at, x);
        proof {
            assert(x == listed[n - 1]);
            lemma_insert_ordered(before, listed.skip(n), x, at as int);
            assert(seq![x] + listed.skip(n) =~= listed.skip(n - 1));
            assert(rest@ =~= listed.take(n - 1));
        }
    }
    proof {
        assert(listed.skip(0) =~= listed);
    }
    out
}

} // verus!
