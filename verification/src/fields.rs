//! Custom fields as key-value lists: lookup by first occurrence, writes
//! that override by key, and a canonical key-sorted form.
use vstd::prelude::*;
use crate::models::{CustomField, FieldContent};
use crate::strutil::{lex_lt, str_eq, str_lt, lemma_lex_lt_trichotomy, lemma_lex_lt_trans, lemma_lex_lt_irrefl};

verus! {

/// The mathematical content of a field vector.
pub open spec fn fields_of(v: Vec<CustomField>) -> Seq<FieldContent> {
    v@.map_values(|f: CustomField| f@)
}

/// The value stored under a key: the first occurrence decides.
pub open spec fn lookup(fs: Seq<FieldContent>, k: Seq<char>) -> Option<Seq<char>>
    decreases fs.len(),
{
    if fs.len() == 0 {
        None
    } else if fs[0].key == k {
        Some(fs[0].value)
    } else {
        lookup(fs.drop_first(), k)
    }
}

/// The value the last write of a key left, if any.
pub open spec fn ops_last(ops: Seq<FieldContent>, k: Seq<char>) -> Option<Seq<char>>
    decreases ops.len(),
{
    if ops.len() == 0 {
        None
    } else if ops.last().key == k {
        Some(ops.last().value)
    } else {
        ops_last(ops.drop_last(), k)
    }
}

/// Fields in strictly increasing key order (hence with unique keys).
pub open spec fn fields_sorted(fs: Seq<FieldContent>) -> bool {
    forall|i: int, j: int| 0 <= i < j < fs.len() ==> lex_lt(fs[i].key, fs[j].key)
}

/// If a key occurs first at index `i`, lookup returns that value.
pub proof fn lemma_lookup_at(fs: Seq<FieldContent>, i: int, k: Seq<char>)
    requires
        0 <= i < fs.len(),
        fs[i].key == k,
        forall|j: int| 0 <= j < i ==> fs[j].key != k,
    ensures
        lookup(fs, k) == Some(fs[i].value),
    decreases i,
{
    if i > 0 {
        lemma_lookup_at(fs.drop_first(), i - 1, k);
    }
}

/// If a key occurs nowhere, lookup returns nothing.
pub proof fn lemma_lookup_absent(fs: Seq<FieldContent>, k: Seq<char>)
    requires
        forall|j: int| 0 <= j < fs.len() ==> fs[j].key != k,
    ensures
        lookup(fs, k) is None,
    decreases fs.len(),
{
    if fs.len() > 0 {
        lemma_lookup_absent(fs.drop_first(), k);
    }
}

/// Lookup after appending one field.
pub proof fn lemma_lookup_push(fs: Seq<FieldContent>, f: FieldContent, k: Seq<char>)
    ensures
        lookup(fs.push(f), k) == (if lookup(fs, k) is Some {
            lookup(fs, k)
        } else if f.key == k {
            Some(f.value)
        } else {
            None
        }),
    decreases fs.len(),
{
    if fs.len() == 0 {
        assert(fs.push(f)[0] == f);
        assert(fs.push(f).drop_first() =~= Seq::<FieldContent>::empty());
    } else {
        assert(fs.push(f).drop_first() =~= fs.drop_first().push(f));
        lemma_lookup_push(fs.drop_first(), f, k);
    }
}

/// Lookup after updating the first occurrence of a key in place.
pub proof fn lemma_lookup_update(fs: Seq<FieldContent>, i: int, f: FieldContent, k: Seq<char>)
    requires
        0 <= i < fs.len(),
        fs[i].key == f.key,
        forall|j: int| 0 <= j < i ==> fs[j].key != f.key,
    ensures
        lookup(fs.update(i, f), k) == (if f.key == k {
            Some(f.value)
        } else {
            lookup(fs, k)
        }),
    decreases i,
{
    let nfs = fs.update(i, f);
    if i == 0 {
        if f.key != k {
            assert(nfs.drop_first() =~= fs.drop_first());
        }
    } else {
        assert(nfs[0] == fs[0]);
        assert(nfs.drop_first() =~= fs.drop_first().update(i - 1, f));
        lemma_lookup_update(fs.drop_first(), i - 1, f, k);
    }
}

/// Lookup after inserting a field whose key is absent.
pub proof fn lemma_lookup_insert(fs: Seq<FieldContent>, i: int, f: FieldContent, k: Seq<char>)
    requires
        0 <= i <= fs.len(),
        forall|j: int| 0 <= j < fs.len() ==> fs[j].key != f.key,
    ensures
        lookup(fs.take(i) + seq![f] + fs.skip(i), k) == (if f.key == k {
            Some(f.value)
        } else {
            lookup(fs, k)
        }),
    decreases i,
{
    let nfs = fs.take(i) + seq![f] + fs.skip(i);
    if i == 0 {
        assert(nfs[0] == f);
        assert(nfs.drop_first() =~= fs);
        if f.key == k {
        } else {
        }
    } else {
        assert(nfs[0] == fs[0]);
        assert(nfs.drop_first() =~= fs.drop_first().take(i - 1) + seq![f] + fs.drop_first().skip(
            i - 1,
        ));
        lemma_lookup_insert(fs.drop_first(), i - 1, f, k);
        if fs[0].key == k {
        }
    }
}

/// In a sorted field list, the first key precedes the rest, so a key
/// never repeats and lookup is the unique association.
pub proof fn lemma_sorted_no_repeat(fs: Seq<FieldContent>)
    requires
        fields_sorted(fs),
        fs.len() > 0,
    ensures
        lookup(fs.drop_first(), fs[0].key) is None,
{
    assert forall|j: int| 0 <= j < fs.drop_first().len() implies fs.drop_first()[j].key
        != fs[0].key by {
        assert(lex_lt(fs[0].key, fs[j + 1].key));
        lemma_lex_lt_trichotomy(fs[0].key, fs[j + 1].key);
    }
    lemma_lookup_absent(fs.drop_first(), fs[0].key);
}

/// A key-sorted field list is determined by its lookup function.
pub proof fn lemma_fields_sorted_unique(a: Seq<FieldContent>, b: Seq<FieldContent>)
    requires
        fields_sorted(a),
        fields_sorted(b),
        forall|k: Seq<char>| #[trigger] lookup(a, k) == lookup(b, k),
    ensures
        a == b,
    decreases a.len(),
{
    if a.len() == 0 && b.len() == 0 {
        assert(a =~= b);
    } else if a.len() == 0 {
        lemma_lookup_at(b, 0, b[0].key);
        lemma_lookup_absent(a, b[0].key);
        assert(lookup(a, b[0].key) == lookup(b, b[0].key));
        assert(false);
    } else if b.len() == 0 {
        lemma_lookup_at(a, 0, a[0].key);
        lemma_lookup_absent(b, a[0].key);
        assert(lookup(a, a[0].key) == lookup(b, a[0].key));
        assert(false);
    } else {
        lemma_lookup_at(a, 0, a[0].key);
        lemma_lookup_at(b, 0, b[0].key);
        if a[0].key != b[0].key {
            lemma_lex_lt_trichotomy(a[0].key, b[0].key);
            if lex_lt(a[0].key, b[0].key) {
                // a's first key would have to appear in b after its head,
                // yet every later key of b is larger still
                assert(lookup(b, a[0].key) == lookup(a, a[0].key));
                assert(lookup(b, a[0].key) is Some);
                lemma_lookup_some_index(b, a[0].key);
                let j = choose|j: int| 0 <= j < b.len() && b[j].key == a[0].key;
                if j > 0 {
                    assert(lex_lt(b[0].key, b[j].key));
                }
                lemma_lex_lt_trichotomy(b[0].key, a[0].key);
                assert(false);
            } else {
                assert(lookup(a, b[0].key) == lookup(b, b[0].key));
                assert(lookup(a, b[0].key) is Some);
                lemma_lookup_some_index(a, b[0].key);
                let j = choose|j: int| 0 <= j < a.len() && a[j].key == b[0].key;
                if j > 0 {
                    assert(lex_lt(a[0].key, a[j].key));
                }
                lemma_lex_lt_trichotomy(a[0].key, b[0].key);
                assert(false);
            }
        }
        assert(lookup(a, a[0].key) == lookup(b, a[0].key));
        assert(a[0].value == b[0].value);
        let a1 = a.drop_first();
        let b1 = b.drop_first();
        assert(fields_sorted(a1)) by {
            assert(forall|i: int, j: int|
                0 <= i < j < a1.len() ==> lex_lt(a[i + 1].key, a[j + 1].key) && a1[i] == a[i + 1]
                    && a1[j] == a[j + 1]);
        }
        assert(fields_sorted(b1)) by {
            assert(forall|i: int, j: int|
                0 <= i < j < b1.len() ==> lex_lt(b[i + 1].key, b[j + 1].key) && b1[i] == b[i + 1]
                    && b1[j] == b[j + 1]);
        }
        assert forall|k: Seq<char>| #[trigger] lookup(a1, k) == lookup(b1, k) by {
            if k == a[0].key {
                lemma_sorted_no_repeat(a);
                lemma_sorted_no_repeat(b);
            } else {
                assert(lookup(a, k) == lookup(a1, k));
                assert(lookup(b, k) == lookup(b1, k));
            }
        }
        lemma_fields_sorted_unique(a1, b1);
        assert forall|i: int| 0 <= i < a.len() implies a[i] == b[i] by {
            if i > 0 {
                assert(a1[i - 1] == b1[i - 1]);
            } else {
                assert(a[0] == (FieldContent { key: a[0].key, value: a[0].value }));
                assert(b[0] == (FieldContent { key: b[0].key, value: b[0].value }));
            }
        }
        assert(a =~= b);
    }
}

/// A successful lookup means some index holds the key.
pub proof fn lemma_lookup_some_index(fs: Seq<FieldContent>, k: Seq<char>)
    requires
        lookup(fs, k) is Some,
    ensures
        exists|j: int| 0 <= j < fs.len() && fs[j].key == k,
    decreases fs.len(),
{
    if fs.len() > 0 {
        if fs[0].key == k {
            assert(fs[0].key == k);
        } else {
            lemma_lookup_some_index(fs.drop_first(), k);
            let j = choose|j: int| 0 <= j < fs.drop_first().len() && fs.drop_first()[j].key == k;
            assert(fs[j + 1].key == k);
        }
    }
}

/// Write `value` under `key`: the first occurrence is overwritten, or
/// the field is appended when the key is absent.
pub fn set_field(fs: &mut Vec<CustomField>, key: String, value: String)
    ensures
        lookup(fields_of(*final(fs)), key@) == Some(value@),
        forall|k: Seq<char>|
            k != key@ ==> #[trigger] lookup(fields_of(*final(fs)), k) == lookup(
                fields_of(*old(fs)),
                k,
            ),
{
    let ghost pre = fields_of(*fs);
    let mut i: usize = 0;
    while i < fs.len()
        invariant
            fields_of(*fs) == pre,
            pre == fields_of(*old(fs)),
            i <= pre.len(),
            forall|j: int| 0 <= j < i ==> pre[j].key != key@,
        decreases pre.len() - i,
    {
        if str_eq(fs[i].key.as_str(), key.as_str()) {
            proof {
                assert(pre[i as int].key == fs@[i as int]@.key);
            }
            fs.set(i, CustomField { key: key.clone(), value: value.clone() });
            proof {
                let post = fields_of(*fs);
                let fv = FieldContent { key: pre[i as int].key, value: post[i as int].value };
                assert(post =~= pre.update(i as int, post[i as int]));
                lemma_lookup_update(pre, i as int, post[i as int], post[i as int].key);
                assert forall|k: Seq<char>| k != post[i as int].key implies #[trigger] lookup(
                    post,
                    k,
                ) == lookup(pre, k) by {
                    lemma_lookup_update(pre, i as int, post[i as int], k);
                }
            }
            return;
        }
        proof {
            assert(pre[i as int].key == fs@[i as int]@.key);
        }
        i += 1;
    }
    fs.push(CustomField { key: key.clone(), value: value.clone() });
    proof {
        let post = fields_of(*fs);
        assert(post =~= pre.push(post[pre.len() as int]));
        lemma_lookup_absent(pre, post[pre.len() as int].key);
        lemma_lookup_push(pre, post[pre.len() as int], post[pre.len() as int].key);
        assert forall|k: Seq<char>| k != post[pre.len() as int].key implies #[trigger] lookup(
            post,
            k,
        ) == lookup(pre, k) by {
            lemma_lookup_push(pre, post[pre.len() as int], k);
        }
    }
}

/// Whether a key is present in the fields.
fn has_field(fs: &Vec<CustomField>, key: &String) -> (r: bool)
    ensures
        r == (lookup(fields_of(*fs), key@) is Some),
{
    let ghost view = fields_of(*fs);
    let mut i: usize = 0;
    while i < fs.len()
        invariant
            view == fields_of(*fs),
            i <= view.len(),
            forall|j: int| 0 <= j < i ==> view[j].key != key@,
        decreases view.len() - i,
    {
        if str_eq(fs[i].key.as_str(), key.as_str()) {
            proof {
                assert(view[i as int].key == fs@[i as int]@.key);
                lemma_lookup_at(view, i as int, key@);
            }
            return true;
        }
        proof {
            assert(view[i as int].key == fs@[i as int]@.key);
        }
        i += 1;
    }
    proof {
        lemma_lookup_absent(view, key@);
    }
    false
}

/// Insert a field whose key is absent into a key-sorted list, keeping
/// it sorted.
fn insert_field_sorted(out: &mut Vec<CustomField>, f: CustomField)
    requires
        fields_sorted(fields_of(*old(out))),
        lookup(fields_of(*old(out)), f@.key) is None,
    ensures
        fields_sorted(fields_of(*final(out))),
        lookup(fields_of(*final(out)), f@.key) == Some(f@.value),
        forall|k: Seq<char>|
            k != f@.key ==> #[trigger] lookup(fields_of(*final(out)), k)
                == lookup(fields_of(*old(out)), k),
{
    let ghost pre = fields_of(*out);
    let ghost fv = f@;
    proof {
        assert forall|j: int| 0 <= j < pre.len() implies pre[j].key != fv.key by {
            if pre[j].key == fv.key {
                lemma_lookup_at_exists(pre, j, fv.key);
            }
        }
    }
    let mut i: usize = 0;
    while i < out.len() && str_lt(out[i].key.as_str(), f.key.as_str())
        invariant
            fields_of(*out) == pre,
            fields_sorted(pre),
            f@ == fv,
            i <= pre.len(),
            forall|k: int| 0 <= k < i ==> lex_lt(pre[k].key, fv.key),
            forall|j: int| 0 <= j < pre.len() ==> pre[j].key != fv.key,
        decreases pre.len() - i,
    {
        proof {
            assert(pre[i as int].key == out@[i as int]@.key);
        }
        i += 1;
    }
    proof {
        if i < pre.len() {
            assert(pre[i as int].key == out@[i as int]@.key);
            assert(!lex_lt(pre[i as int].key, fv.key));
            lemma_lex_lt_trichotomy(pre[i as int].key, fv.key);
            assert(lex_lt(fv.key, pre[i as int].key));
        }
    }
    out.insert(i, f);
    proof {
        let post = fields_of(*out);
        assert(post =~= pre.take(i as int) + seq![fv] + pre.skip(i as int));
        assert forall|p: int, q: int| 0 <= p < q < post.len() implies lex_lt(
            post[p].key,
            post[q].key,
        ) by {
            let n = i as int;
            if p < n && q < n {
                assert(post[p] == pre[p] && post[q] == pre[q]);
            } else if p < n && q == n {
                assert(post[p] == pre[p] && post[q] == fv);
            } else if p < n && q > n {
                assert(post[p] == pre[p] && post[q] == pre[q - 1]);
                if p < q - 1 {
                    assert(lex_lt(pre[p].key, pre[q - 1].key));
                } else {
                    assert(lex_lt(pre[p].key, fv.key));
                    assert(lex_lt(fv.key, pre[q - 1].key));
                    lemma_lex_lt_trans(pre[p].key, fv.key, pre[q - 1].key);
                }
            } else if p == n {
                assert(post[p] == fv && post[q] == pre[q - 1]);
                if n < q - 1 {
                    assert(lex_lt(fv.key, pre[n].key));
                    assert(lex_lt(pre[n].key, pre[q - 1].key));
                    lemma_lex_lt_trans(fv.key, pre[n].key, pre[q - 1].key);
                } else {
                    assert(q - 1 == n);
                    assert(lex_lt(fv.key, pre[n].key));
                }
            } else {
                assert(post[p] == pre[p - 1] && post[q] == pre[q - 1]);
            }
        }
        lemma_lookup_insert(pre, i as int, fv, fv.key);
        assert forall|k: Seq<char>| k != fv.key implies #[trigger] lookup(post, k) == lookup(
            pre,
            k,
        ) by {
            lemma_lookup_insert(pre, i as int, fv, k);
        }
    }
}

/// A present key has an index.
proof fn lemma_lookup_at_exists(fs: Seq<FieldContent>, j: int, k: Seq<char>)
    requires
        0 <= j < fs.len(),
        fs[j].key == k,
    ensures
        lookup(fs, k) is Some,
    decreases j,
{
    if fs[0].key == k {
    } else {
        assert(j > 0);
        lemma_lookup_at_exists(fs.drop_first(), j - 1, k);
    }
}

/// The canonical form of a field list: key-sorted, first occurrence of
/// each key winning, with the same lookup function.
pub fn canonical_fields(fs: &Vec<CustomField>) -> (r: Vec<CustomField>)
    ensures
        fields_sorted(fields_of(r)),
        forall|k: Seq<char>| #[trigger]
            lookup(fields_of(r), k) == lookup(fields_of(*fs), k),
{
    let ghost all = fields_of(*fs);
    let mut out: Vec<CustomField> = Vec::new();
    let mut i: usize = 0;
    proof {
        assert(all.take(0) =~= Seq::<FieldContent>::empty());
    }
    while i < fs.len()
        invariant
            all == fields_of(*fs),
            i <= all.len(),
            fields_sorted(fields_of(out)),
            forall|k: Seq<char>| #[trigger]
                lookup(fields_of(out), k) == lookup(all.take(i as int), k),
        decreases all.len() - i,
    {
        let ghost outpre = fields_of(out);
        let key_copy = fs[i].key.clone();
        proof {
            assert(all[i as int] == fs@[i as int]@);
            assert(all.take(i + 1) =~= all.take(i as int).push(all[i as int]));
        }
        if !has_field(&out, &key_copy) {
            let f = fs[i].clone();
            insert_field_sorted(&mut out, f);
            proof {
                assert forall|k: Seq<char>| #[trigger] lookup(
                    fields_of(out),
                    k,
                ) == lookup(all.take(i + 1), k) by {
                    lemma_lookup_push(all.take(i as int), all[i as int], k);
                }
            }
        } else {
            proof {
                assert forall|k: Seq<char>| #[trigger] lookup(
                    fields_of(out),
                    k,
                ) == lookup(all.take(i + 1), k) by {
                    lemma_lookup_push(all.take(i as int), all[i as int], k);
                }
            }
        }
        i += 1;
    }
    proof {
        assert(all.take(all.len() as int) =~= all);
    }
    out
}

} // verus!
