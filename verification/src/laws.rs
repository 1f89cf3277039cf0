use vstd::prelude::*;

use crate::file::{
    distinct_bytes, match_at, project_key, project_spec, scan_from, scan_step, strip_spaces,
    version_key, version_spec,
};
use crate::flasher::padded;
use crate::model::ff_range;

verus! {

/// After the key has been fully matched, the scan accumulates the value up
/// to the terminator.
proof fn lemma_scan_accum(d: Seq<u8>, key: Seq<u8>, x: Seq<u8>)
    requires
        x.len() < d.len(),
        d.subrange(0, x.len() as int) == x,
        forall|k: int| 0 <= k < x.len() ==> x[k] != 36,
        d[x.len() as int] == 36,
    ensures
        scan_from(d, key, key.len() as int) == x,
    decreases x.len(),
{
    if x.len() == 0 {
        assert(scan_from(d, key, key.len() as int) =~= x);
    } else {
        assert(x[0] == d.subrange(0, x.len() as int)[0]);
        let d2 = d.subrange(1, d.len() as int);
        let x2 = x.subrange(1, x.len() as int);
        assert(d2.subrange(0, x2.len() as int) =~= x2);
        assert forall|k: int| 0 <= k < x2.len() implies x2[k] != 36 by {
            assert(x2[k] == x[k + 1]);
        }
        assert(d2[x2.len() as int] == d[x.len() as int]);
        lemma_scan_accum(d2, key, x2);
        assert(seq![d[0]] + x2 =~= x);
    }
}

/// Once the scan stands at the start of the key's occurrence with one byte
/// matched, it marches through the rest of the key.
proof fn lemma_scan_march(data: Seq<u8>, key: Seq<u8>, j: int, s: int)
    requires
        match_at(data, key, j),
        1 <= s <= key.len(),
    ensures
        scan_from(data.subrange(j + s, data.len() as int), key, s) == scan_from(
            data.subrange(j + key.len() as int, data.len() as int),
            key,
            key.len() as int,
        ),
    decreases key.len() - s,
{
    if s < key.len() {
        let d = data.subrange(j + s, data.len() as int);
        assert(key[s] == data.subrange(j, j + key.len() as int)[s]);
        assert(d[0] == data[j + s]);
        assert(scan_step(key, s, d[0]) == s + 1);
        assert(d.subrange(1, d.len() as int) =~= data.subrange(j + s + 1, data.len() as int));
        lemma_scan_march(data, key, j, s + 1);
    }
}

/// Up to the key's unique occurrence, the scan keeps exactly the progress
/// that mirrors the bytes just seen, and then finds the occurrence.
proof fn lemma_scan_prefix(data: Seq<u8>, key: Seq<u8>, j: int, t: int, i: int)
    requires
        distinct_bytes(key),
        key.len() >= 1,
        match_at(data, key, j),
        forall|u: int|
            0 <= u && u + key.len() <= data.len() && u != j ==> #[trigger] data.subrange(
                u,
                u + key.len() as int,
            ) != key,
        0 <= t <= j,
        0 <= i <= t,
        i < key.len(),
        data.subrange(t - i, t) == key.subrange(0, i),
    ensures
        scan_from(data.subrange(t, data.len() as int), key, i) == scan_from(
            data.subrange(j + key.len() as int, data.len() as int),
            key,
            key.len() as int,
        ),
    decreases j - t,
{
    let d = data.subrange(t, data.len() as int);
    let b = d[0];
    assert(b == data[t]);
    let i2 = scan_step(key, i, b);
    assert(d.subrange(1, d.len() as int) =~= data.subrange(t + 1, data.len() as int));
    if t == j {
        assert(key[0] == data.subrange(j, j + key.len() as int)[0]);
        if i > 0 {
            // with no repeated key bytes a stale partial match restarts on
            // the first byte of the occurrence
            assert(key[i] != key[0]);
        }
        assert(i2 == 1);
        lemma_scan_march(data, key, j, 1);
    } else {
        if i2 == key.len() {
            // the key would have been completed strictly before `j`
            assert(b == key[i]);
            let u = t + 1 - key.len() as int;
            assert forall|k: int| 0 <= k < key.len() implies data.subrange(
                u,
                u + key.len() as int,
            )[k] == key[k] by {
                if k < i {
                    assert(data.subrange(t - i, t)[k] == key.subrange(0, i)[k]);
                }
            }
            assert(data.subrange(u, u + key.len() as int) =~= key);
            assert(u != j);
            assert(false);
        }
        if b == key[i] {
            assert forall|k: int| 0 <= k < i2 implies data.subrange(t + 1 - i2, t + 1)[k]
                == key.subrange(0, i2)[k] by {
                if k < i {
                    assert(data.subrange(t - i, t)[k] == key.subrange(0, i)[k]);
                }
            }
            assert(data.subrange(t + 1 - i2, t + 1) =~= key.subrange(0, i2));
        } else if i2 == 1 {
            assert(data.subrange(t, t + 1) =~= key.subrange(0, 1));
        } else {
            assert(data.subrange(t + 1, t + 1) =~= key.subrange(0, 0));
        }
        lemma_scan_prefix(data, key, j, t + 1, i2);
    }
}

/// The common core of the tag laws: an image holding exactly one
/// occurrence of a distinct-byte key scans to the bytes between the key
/// and the terminator.
proof fn lemma_scan_unique_tag(data: Seq<u8>, key: Seq<u8>, j: int, x: Seq<u8>)
    requires
        distinct_bytes(key),
        key.len() >= 1,
        0 <= j,
        j + key.len() + x.len() + 1 <= data.len(),
        data.subrange(j, j + key.len() as int) == key,
        forall|u: int|
            0 <= u && u + key.len() <= data.len() && u != j ==> #[trigger] data.subrange(
                u,
                u + key.len() as int,
            ) != key,
        data.subrange(j + key.len() as int, j + key.len() + x.len() as int) == x,
        forall|k: int| 0 <= k < x.len() ==> x[k] != 36,
        data[j + key.len() + x.len() as int] == 36,
    ensures
        scan_from(data, key, 0) == x,
{
    assert(match_at(data, key, j));
    assert(data.subrange(0, 0) =~= key.subrange(0, 0));
    lemma_scan_prefix(data, key, j, 0, 0);
    assert(data.subrange(0, data.len() as int) =~= data);
    let d = data.subrange(j + key.len() as int, data.len() as int);
    assert forall|k: int| 0 <= k < x.len() implies d.subrange(0, x.len() as int)[k] == x[k] by {
        assert(x[k] == data.subrange(j + key.len() as int, j + key.len() + x.len() as int)[k]);
    }
    assert(d.subrange(0, x.len() as int) =~= x);
    assert(d[x.len() as int] == data[j + key.len() + x.len() as int]);
    lemma_scan_accum(d, key, x);
}

/// Law: an image holding exactly one `PRJ:` tag yields, as its project,
/// exactly the bytes between the tag and the terminator `$`.
pub proof fn lemma_project_unique_tag(data: Seq<u8>, j: int, x: Seq<u8>)
    requires
        0 <= j,
        j + 5 + x.len() <= data.len(),
        data.subrange(j, j + 4) == project_key(),
        forall|u: int|
            0 <= u && u + 4 <= data.len() && u != j ==> #[trigger] data.subrange(u, u + 4)
                != project_key(),
        data.subrange(j + 4, j + 4 + x.len() as int) == x,
        forall|k: int| 0 <= k < x.len() ==> x[k] != 36,
        data[j + 4 + x.len() as int] == 36,
    ensures
        project_spec(data) == x,
{
    let key = project_key();
    assert(key[0] == 80 && key[1] == 82 && key[2] == 74 && key[3] == 58);
    assert(distinct_bytes(key));
    lemma_scan_unique_tag(data, key, j, x);
}

/// Law: an image holding exactly one `VER:` tag yields, as its version,
/// the bytes between the tag and the terminator with all leading spaces
/// removed.
pub proof fn lemma_version_unique_tag(data: Seq<u8>, j: int, x: Seq<u8>)
    requires
        0 <= j,
        j + 5 + x.len() <= data.len(),
        data.subrange(j, j + 4) == version_key(),
        forall|u: int|
            0 <= u && u + 4 <= data.len() && u != j ==> #[trigger] data.subrange(u, u + 4)
                != version_key(),
        data.subrange(j + 4, j + 4 + x.len() as int) == x,
        forall|k: int| 0 <= k < x.len() ==> x[k] != 36,
        data[j + 4 + x.len() as int] == 36,
    ensures
        version_spec(data) == strip_spaces(x),
{
    let key = version_key();
    assert(key[0] == 86 && key[1] == 69 && key[2] == 82 && key[3] == 58);
    assert(distinct_bytes(key));
    lemma_scan_unique_tag(data, key, j, x);
}

/// Law: file-backed queries are stable: two project reads, two version
/// reads, or two size reads of the same image bytes agree.
pub proof fn lemma_file_queries_stable(d1: Seq<u8>, d2: Seq<u8>)
    requires
        d1 == d2,
    ensures
        project_spec(d1) == project_spec(d2),
        version_spec(d1) == version_spec(d2),
        d1.len() == d2.len(),
{
}

/// Law: what erasing leaves reads back as all 0xFF, and what programming
/// an image leaves reads back as the image padded with 0xFF to the device
/// size.
pub proof fn lemma_round_trip(f: Seq<u8>, img: Seq<u8>, n: int, erased: Seq<u8>, programmed: Seq<
    u8,
>)
    requires
        0 <= n == f.len(),
        erased == ff_range(f, 0, n),
        img.len() <= n,
        programmed == padded(img, n),
    ensures
        erased.len() == n,
        forall|k: int| 0 <= k < n ==> erased[k] == 0xFF,
        programmed.len() == n,
        forall|k: int| 0 <= k < img.len() ==> programmed[k] == img[k],
        forall|k: int| img.len() <= k < n ==> programmed[k] == 0xFF,
{
}

} // verus!
