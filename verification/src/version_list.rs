//! The versions offered by the launcher: the installed ones and the
//! published ones not installed, newest first.
//!
//! Lists are put newest first the way a stable sort from oldest to newest
//! followed by a reversal does it: among versions released at the same
//! instant, the one that came later in the list comes first.
use crate::manifest::main::{MinVersion, Version, channel_name};
use crate::manifest::version::{self, MainModel, version_type_name};
use crate::text::{contains_spec, contains_string, str_eq};
use crate::time::{UtcTime, lemma_time_le_total, lemma_time_le_transitive, time_le};
use vstd::prelude::*;

verus! {

/// Where a new entry goes in a list already newest first (given as
/// positions into `keys`): before the first entry that is not newer.
pub open spec fn insert_pos(r: Seq<usize>, keys: Seq<UtcTime>, x: int) -> nat
    decreases r.len(),
{
    if r.len() == 0 {
        0
    } else if time_le(keys[r[0] as int], keys[x]) {
        0
    } else {
        1 + insert_pos(r.subrange(1, r.len() as int), keys, x)
    }
}

/// The positions of the first `n` keys, newest first, ties latest first.
pub open spec fn order_desc(keys: Seq<UtcTime>, n: nat) -> Seq<usize>
    decreases n,
{
    if n == 0 {
        seq![]
    } else {
        let r = order_desc(keys, (n - 1) as nat);
        r.insert(insert_pos(r, keys, n - 1) as int, (n - 1) as usize)
    }
}

/// `i` is where `insert_pos` puts `x`: every entry before it is newer, and
/// the entry at it, if any, is not.
pub open spec fn is_insert_pos(r: Seq<usize>, keys: Seq<UtcTime>, x: int, i: int) -> bool {
    &&& 0 <= i <= r.len()
    &&& forall|k: int| 0 <= k < i ==> !time_le(#[trigger] keys[r[k] as int], keys[x])
    &&& i < r.len() ==> time_le(keys[r[i] as int], keys[x])
}

proof fn lemma_insert_pos(r: Seq<usize>, keys: Seq<UtcTime>, x: int, i: int)
    requires
        is_insert_pos(r, keys, x, i),
    ensures
        insert_pos(r, keys, x) == i,
    decreases r.len(),
{
    if r.len() > 0 && i > 0 {
        let t = r.subrange(1, r.len() as int);
        assert(!time_le(keys[r[0] as int], keys[x]));
        assert forall|k: int| 0 <= k < i - 1 implies !time_le(#[trigger] keys[t[k] as int], keys[x]) by {
            assert(t[k] == r[k + 1]);
        }
        if i - 1 < t.len() {
            assert(t[i - 1] == r[i]);
        }
        lemma_insert_pos(t, keys, x, i - 1);
    }
}

/// The positions of the keys, newest first (see `order_desc`).
pub fn sort_order_desc(keys: &Vec<UtcTime>) -> (r: Vec<usize>)
    ensures
        r@ == order_desc(keys@, keys@.len()),
{
    let mut order: Vec<usize> = Vec::new();
    let mut j: usize = 0;
    while j < keys.len()
        invariant
            j <= keys@.len(),
            order@ == order_desc(keys@, j as nat),
            forall|k: int| 0 <= k < order@.len() ==> #[trigger] order@[k] < j,
            order@.len() == j,
        decreases keys.len() - j,
    {
        let mut i: usize = 0;
        while i < order.len() && !keys[order[i]].is_before_or_at(&keys[j])
            invariant
                i <= order@.len(),
                j < keys@.len(),
                order@.len() == j,
                forall|k: int| 0 <= k < order@.len() ==> #[trigger] order@[k] < j,
                forall|k: int|
                    0 <= k < i ==> !time_le(#[trigger] keys@[order@[k] as int], keys@[j as int]),
            decreases order.len() - i,
        {
            i = i + 1;
        }
        proof {
            lemma_insert_pos(order@, keys@, j as int, i as int);
        }
        let ghost before = order@;
        order.insert(i, j);
        assert forall|k: int| 0 <= k < order@.len() implies #[trigger] order@[k] < j + 1 by {
            if k < i {
                assert(order@[k] == before[k]);
            } else if k > i {
                assert(order@[k] == before[k - 1]);
            }
        }
        j = j + 1;
    }
    order
}

/// The order lists each of the first `n` positions exactly once, newest
/// first, and among keys of the same instant the later position first.
pub proof fn lemma_order_desc(keys: Seq<UtcTime>, n: nat)
    requires
        n <= keys.len(),
        n <= usize::MAX,
    ensures
        order_desc(keys, n).len() == n,
        forall|i: int| 0 <= i < n ==> #[trigger] order_desc(keys, n)[i] < n,
        forall|i: int, j: int|
            0 <= i < j < n ==> #[trigger] order_desc(keys, n)[i] != #[trigger] order_desc(keys, n)[j],
        forall|i: int, j: int|
            0 <= i < j < n ==> time_le(
                keys[#[trigger] order_desc(keys, n)[j] as int],
                keys[#[trigger] order_desc(keys, n)[i] as int],
            ),
        forall|i: int, j: int|
            0 <= i < j < n && #[trigger] keys[order_desc(keys, n)[i] as int] == #[trigger] keys[order_desc(
                keys,
                n,
            )[j] as int] ==> order_desc(keys, n)[i] > order_desc(keys, n)[j],
    decreases n,
{
    if n > 0 {
        let m = (n - 1) as nat;
        lemma_order_desc(keys, m);
        let r = order_desc(keys, m);
        let x = m as int;
        let p = insert_pos(r, keys, x) as int;
        lemma_insert_pos_facts(r, keys, x);
        let s = order_desc(keys, n);
        assert(s == r.insert(p, m as usize));
        assert forall|i: int| 0 <= i < n implies #[trigger] s[i] < n by {
            if i < p {
                assert(s[i] == r[i]);
            } else if i > p {
                assert(s[i] == r[i - 1]);
            }
        }
        assert forall|i: int, j: int| 0 <= i < j < n implies #[trigger] s[i] != #[trigger] s[j] by {
            if i < p && j < p {
                assert(s[i] == r[i] && s[j] == r[j]);
            } else if i < p && j == p {
                assert(s[i] == r[i]);
            } else if i < p && j > p {
                assert(s[i] == r[i] && s[j] == r[j - 1]);
            } else if i == p {
                assert(s[j] == r[j - 1]);
            } else {
                assert(s[i] == r[i - 1] && s[j] == r[j - 1]);
            }
        }
        assert forall|i: int, j: int| 0 <= i < j < n implies time_le(
            keys[#[trigger] s[j] as int],
            keys[#[trigger] s[i] as int],
        ) by {
            if i < p && j < p {
                assert(s[i] == r[i] && s[j] == r[j]);
            } else if i < p && j == p {
                assert(s[i] == r[i]);
                lemma_time_le_total(keys[r[i] as int], keys[x]);
            } else if i < p && j > p {
                assert(s[i] == r[i] && s[j] == r[j - 1]);
            } else if i == p {
                assert(s[j] == r[j - 1]);
                assert(time_le(keys[r[j - 1] as int], keys[r[p] as int]) || j - 1 == p);
                lemma_time_le_transitive(keys[r[j - 1] as int], keys[r[p] as int], keys[x]);
            } else {
                assert(s[i] == r[i - 1] && s[j] == r[j - 1]);
            }
        }
        assert forall|i: int, j: int|
            0 <= i < j < n && #[trigger] keys[s[i] as int] == #[trigger] keys[s[j] as int] implies s[i]
            > s[j] by {
            if i < p && j < p {
                assert(s[i] == r[i] && s[j] == r[j]);
            } else if i < p && j == p {
                assert(s[i] == r[i]);
                assert(!time_le(keys[r[i] as int], keys[x]));
            } else if i < p && j > p {
                assert(s[i] == r[i] && s[j] == r[j - 1]);
            } else if i == p {
                assert(s[j] == r[j - 1]);
            } else {
                assert(s[i] == r[i - 1] && s[j] == r[j - 1]);
            }
        }
    }
}

/// Where `insert_pos` puts an entry into a list newest first: the entries
/// before it are newer, those from it on are not.
proof fn lemma_insert_pos_facts(r: Seq<usize>, keys: Seq<UtcTime>, x: int)
    requires
        forall|i: int, j: int|
            0 <= i < j < r.len() ==> time_le(keys[#[trigger] r[j] as int], keys[#[trigger] r[i] as int]),
    ensures
        insert_pos(r, keys, x) <= r.len(),
        forall|k: int| 0 <= k < insert_pos(r, keys, x) ==> !time_le(#[trigger] keys[r[k] as int], keys[x]),
        insert_pos(r, keys, x) < r.len() ==> time_le(keys[r[insert_pos(r, keys, x) as int] as int], keys[x]),
    decreases r.len(),
{
    if r.len() > 0 && !time_le(keys[r[0] as int], keys[x]) {
        let t = r.subrange(1, r.len() as int);
        assert forall|i: int, j: int| 0 <= i < j < t.len() implies time_le(
            keys[#[trigger] t[j] as int],
            keys[#[trigger] t[i] as int],
        ) by {
            assert(t[i] == r[i + 1] && t[j] == r[j + 1]);
        }
        lemma_insert_pos_facts(t, keys, x);
        let q = insert_pos(t, keys, x) as int;
        assert forall|k: int| 0 <= k < q + 1 implies !time_le(#[trigger] keys[r[k] as int], keys[x]) by {
            if k > 0 {
                assert(r[k] == t[k - 1]);
            }
        }
        if q < t.len() {
            assert(t[q] == r[q + 1]);
        }
    }
}

/// The versions of a list in the given order of positions.
pub open spec fn permuted<T>(s: Seq<T>, order: Seq<usize>) -> Seq<T> {
    Seq::new(order.len(), |i: int| s[order[i] as int])
}

/// The release dates of published versions.
pub open spec fn published_times(s: Seq<Version>) -> Seq<UtcTime> {
    Seq::new(s.len(), |i: int| s[i].release_time)
}

/// The release dates of installed versions.
pub open spec fn installed_times(s: Seq<version::Main>) -> Seq<UtcTime> {
    Seq::new(s.len(), |i: int| s[i].release_time)
}

/// A row of the version table as plain values: identifier, channel name,
/// release date and whether it is installed.
pub open spec fn row_model(v: MinVersion) -> (Seq<char>, Seq<char>, UtcTime, bool) {
    (v.id@, channel_name(v._type), v.release_time, v.installed)
}

pub open spec fn rows_model(s: Seq<MinVersion>) -> Seq<(Seq<char>, Seq<char>, UtcTime, bool)> {
    Seq::new(s.len(), |i: int| row_model(s[i]))
}

pub open spec fn row_times(s: Seq<(Seq<char>, Seq<char>, UtcTime, bool)>) -> Seq<UtcTime> {
    Seq::new(s.len(), |i: int| s[i].2)
}

/// Published versions, newest first.
pub fn sort_published(versions: Vec<Version>) -> (r: Vec<Version>)
    ensures
        r@ == permuted(versions@, order_desc(published_times(versions@), versions@.len())),
{
    let mut keys: Vec<UtcTime> = Vec::new();
    let mut i: usize = 0;
    while i < versions.len()
        invariant
            i <= versions@.len(),
            keys@ == published_times(versions@).subrange(0, i as int),
        decreases versions.len() - i,
    {
        keys.push(versions[i].release_time);
        i = i + 1;
    }
    assert(keys@ =~= published_times(versions@));
    let order = sort_order_desc(&keys);
    proof {
        lemma_order_desc(keys@, keys@.len());
    }
    let mut out: Vec<Version> = Vec::new();
    let mut k: usize = 0;
    while k < order.len()
        invariant
            k <= order@.len(),
            order@.len() == versions@.len(),
            forall|a: int| 0 <= a < order@.len() ==> #[trigger] order@[a] < versions@.len(),
            out@ == permuted(versions@, order@.subrange(0, k as int)),
        decreases order.len() - k,
    {
        out.push(versions[order[k]].clone());
        assert(out@ =~= permuted(versions@, order@.subrange(0, k + 1)));
        k = k + 1;
    }
    assert(order@.subrange(0, order@.len() as int) =~= order@);
    out
}

/// Installed versions, newest first.
pub fn sort_installed(versions: Vec<version::Main>) -> (r: Vec<version::Main>)
    ensures
        r.deep_view() == permuted(
            versions.deep_view(),
            order_desc(installed_times(versions@), versions@.len()),
        ),
{
    let mut keys: Vec<UtcTime> = Vec::new();
    let mut i: usize = 0;
    while i < versions.len()
        invariant
            i <= versions@.len(),
            keys@ == installed_times(versions@).subrange(0, i as int),
        decreases versions.len() - i,
    {
        keys.push(versions[i].release_time);
        i = i + 1;
    }
    assert(keys@ =~= installed_times(versions@));
    let order = sort_order_desc(&keys);
    proof {
        lemma_order_desc(keys@, keys@.len());
    }
    let mut out: Vec<version::Main> = Vec::new();
    let mut k: usize = 0;
    while k < order.len()
        invariant
            k <= order@.len(),
            order@.len() == versions@.len(),
            forall|a: int| 0 <= a < order@.len() ==> #[trigger] order@[a] < versions@.len(),
            out.deep_view() == permuted(versions.deep_view(), order@.subrange(0, k as int)),
        decreases order.len() - k,
    {
        let ghost before = out.deep_view();
        out.push(versions[order[k]].clone());
        assert(out.deep_view() =~= before.push(versions.deep_view()[order@[k as int] as int]));
        assert(out.deep_view() =~= permuted(versions.deep_view(), order@.subrange(0, k + 1)));
        k = k + 1;
    }
    assert(order@.subrange(0, order@.len() as int) =~= order@);
    out
}

/// Rows of the version table, newest first.
pub fn sort_rows(rows: Vec<MinVersion>) -> (r: Vec<MinVersion>)
    ensures
        rows_model(r@) == permuted(
            rows_model(rows@),
            order_desc(row_times(rows_model(rows@)), rows@.len()),
        ),
{
    let mut keys: Vec<UtcTime> = Vec::new();
    let mut i: usize = 0;
    while i < rows.len()
        invariant
            i <= rows@.len(),
            keys@ == row_times(rows_model(rows@)).subrange(0, i as int),
        decreases rows.len() - i,
    {
        keys.push(rows[i].release_time);
        i = i + 1;
    }
    assert(keys@ =~= row_times(rows_model(rows@)));
    let order = sort_order_desc(&keys);
    proof {
        lemma_order_desc(keys@, keys@.len());
    }
    let mut out: Vec<MinVersion> = Vec::new();
    let mut k: usize = 0;
    while k < order.len()
        invariant
            k <= order@.len(),
            order@.len() == rows@.len(),
            forall|a: int| 0 <= a < order@.len() ==> #[trigger] order@[a] < rows@.len(),
            out@ == permuted(rows@, order@.subrange(0, k as int)),
        decreases order.len() - k,
    {
        out.push(rows[order[k]].clone());
        assert(out@ =~= permuted(rows@, order@.subrange(0, k + 1)));
        k = k + 1;
    }
    assert(order@.subrange(0, order@.len() as int) =~= order@);
    assert(rows_model(out@) =~= permuted(
        rows_model(rows@),
        order_desc(row_times(rows_model(rows@)), rows@.len()),
    ));
    out
}

/// A row for an installed version.
pub open spec fn installed_row(m: MainModel) -> (Seq<char>, Seq<char>, UtcTime, bool) {
    (m.id, version_type_name(m._type), m.release_time, true)
}

/// A row for a published version that is not installed.
pub open spec fn published_row(v: Version) -> (Seq<char>, Seq<char>, UtcTime, bool) {
    (v.id@, v._type@, v.release_time, false)
}

/// Versions with a mod loader in their name are not listed.
pub open spec fn modded_id(id: Seq<char>) -> bool {
    contains_spec(id, "fabric"@) || contains_spec(id, "forge"@)
}

/// The rows of the installed versions, in order, without the modded ones.
pub open spec fn installed_rows(s: Seq<MainModel>) -> Seq<(Seq<char>, Seq<char>, UtcTime, bool)>
    decreases s.len(),
{
    if s.len() == 0 {
        seq![]
    } else {
        let rest = installed_rows(s.drop_last());
        if modded_id(s.last().id) {
            rest
        } else {
            rest.push(installed_row(s.last()))
        }
    }
}

/// The rows of the published versions, in order, without those whose
/// identifier is in `installed`.
pub open spec fn published_rows(s: Seq<Version>, installed: Seq<Seq<char>>) -> Seq<
    (Seq<char>, Seq<char>, UtcTime, bool),
>
    decreases s.len(),
{
    if s.len() == 0 {
        seq![]
    } else {
        let rest = published_rows(s.drop_last(), installed);
        if installed.contains(s.last().id@) {
            rest
        } else {
            rest.push(published_row(s.last()))
        }
    }
}

pub open spec fn installed_ids(s: Seq<MainModel>) -> Seq<Seq<char>> {
    Seq::new(s.len(), |i: int| s[i].id)
}

/// The rows offered before sorting: the installed versions, then the
/// published ones not installed.
pub open spec fn candidate_rows(installed: Seq<MainModel>, published: Seq<Version>) -> Seq<
    (Seq<char>, Seq<char>, UtcTime, bool),
> {
    installed_rows(installed) + published_rows(published, installed_ids(installed))
}

/// The rows of the version table from the installed versions and the
/// published ones (each list as given), before sorting.
pub fn merge_versions(installed: &Vec<version::Main>, published: &Vec<Version>) -> (r: Vec<MinVersion>)
    ensures
        rows_model(r@) == candidate_rows(installed.deep_view(), published@),
{
    let mut ids: Vec<String> = Vec::new();
    let mut i: usize = 0;
    while i < installed.len()
        invariant
            i <= installed@.len(),
            ids.deep_view() == installed_ids(installed.deep_view()).subrange(0, i as int),
        decreases installed.len() - i,
    {
        let ghost before = ids.deep_view();
        ids.push(installed[i].id.clone());
        assert(installed.deep_view()[i as int] == installed@[i as int].deep_view());
        assert(ids.deep_view() =~= before.push(installed@[i as int].id@));
        assert(ids.deep_view() =~= installed_ids(installed.deep_view()).subrange(0, i + 1));
        i = i + 1;
    }
    assert(ids.deep_view() =~= installed_ids(installed.deep_view()));
    let mut rows: Vec<MinVersion> = Vec::new();
    let mut i: usize = 0;
    while i < installed.len()
        invariant
            i <= installed@.len(),
            rows_model(rows@) == installed_rows(installed.deep_view().subrange(0, i as int)),
        decreases installed.len() - i,
    {
        proof {
            let s = installed.deep_view().subrange(0, i + 1);
            assert(s.drop_last() =~= installed.deep_view().subrange(0, i as int));
        }
        if !installed[i].is_modded() {
            let row = installed[i].to_min_version();
            proof {
                crate::manifest::main::lemma_channel_name_of_named(
                    row._type,
                    version_type_name(installed[i as int]._type),
                );
            }
            let ghost before = rows_model(rows@);
            rows.push(row);
            assert(rows_model(rows@) =~= before.push(installed_row(installed.deep_view()[i as int])));
        }
        i = i + 1;
    }
    assert(installed.deep_view().subrange(0, installed@.len() as int) =~= installed.deep_view());
    let ghost inst_rows = rows_model(rows@);
    let mut j: usize = 0;
    while j < published.len()
        invariant
            j <= published@.len(),
            ids.deep_view() == installed_ids(installed.deep_view()),
            rows_model(rows@) == inst_rows + published_rows(
                published@.subrange(0, j as int),
                installed_ids(installed.deep_view()),
            ),
        decreases published.len() - j,
    {
        proof {
            let s = published@.subrange(0, j + 1);
            assert(s.drop_last() =~= published@.subrange(0, j as int));
        }
        if !contains_string(&ids, published[j].id.as_str()) {
            let row = published[j].to_min_version();
            proof {
                crate::manifest::main::lemma_channel_name_of_named(row._type, published@[j as int]._type@);
            }
            let ghost before = rows_model(rows@);
            rows.push(row);
            assert(rows_model(rows@) =~= before.push(published_row(published@[j as int])));
        }
        j = j + 1;
    }
    assert(published@.subrange(0, published@.len() as int) =~= published@);
    rows
}

/// The versions the launcher offers: the installed versions and the
/// published ones are each put newest first, merged (see `candidate_rows`),
/// and the rows put newest first; the published versions come back newest
/// first too.
pub fn prepare_versions(installed: Vec<version::Main>, published: Vec<Version>) -> (r: (
    Vec<MinVersion>,
    Vec<Version>,
))
    ensures
        ({
            let inst = permuted(
                installed.deep_view(),
                order_desc(installed_times(installed@), installed@.len()),
            );
            let publ = permuted(published@, order_desc(published_times(published@), published@.len()));
            let rows = candidate_rows(inst, publ);
            &&& r.1@ == publ
            &&& rows_model(r.0@) == permuted(rows, order_desc(row_times(rows), rows.len()))
        }),
{
    let installed = sort_installed(installed);
    let published = sort_published(published);
    let rows = merge_versions(&installed, &published);
    (sort_rows(rows), published)
}

/// The table is newest first: each row is released no earlier than the
/// next one, and rows released at the same instant keep the reverse of
/// the order they were merged in.
pub proof fn lemma_rows_newest_first(rows: Seq<(Seq<char>, Seq<char>, UtcTime, bool)>, i: int, j: int)
    requires
        rows.len() <= usize::MAX,
        0 <= i < j < rows.len(),
    ensures
        time_le(
            permuted(rows, order_desc(row_times(rows), rows.len()))[j].2,
            permuted(rows, order_desc(row_times(rows), rows.len()))[i].2,
        ),
{
    lemma_order_desc(row_times(rows), rows.len());
    let o = order_desc(row_times(rows), rows.len());
    assert(time_le(row_times(rows)[o[j] as int], row_times(rows)[o[i] as int]));
}

/// Sorting keeps every row exactly once: the sorted table holds the rows it
/// was given, as many times each.
pub proof fn lemma_rows_kept(rows: Seq<(Seq<char>, Seq<char>, UtcTime, bool)>)
    requires
        rows.len() <= usize::MAX,
    ensures
        permuted(rows, order_desc(row_times(rows), rows.len())).to_multiset() == rows.to_multiset(),
{
    lemma_order_keeps_elements(rows, row_times(rows), rows.len());
    assert(rows.take(rows.len() as int) =~= rows);
}

/// Ordering the first `n` elements of a list keeps them, as many times
/// each.
pub proof fn lemma_order_keeps_elements<T>(s: Seq<T>, keys: Seq<UtcTime>, n: nat)
    requires
        n <= s.len(),
        n <= keys.len(),
        n <= usize::MAX,
    ensures
        permuted(s, order_desc(keys, n)).to_multiset() == s.take(n as int).to_multiset(),
    decreases n,
{
    if n == 0 {
        assert(permuted(s, order_desc(keys, 0)) =~= seq![]);
        assert(s.take(0) =~= seq![]);
    } else {
        let m = (n - 1) as nat;
        lemma_order_desc(keys, m);
        lemma_order_keeps_elements(s, keys, m);
        let r = order_desc(keys, m);
        lemma_insert_pos_facts(r, keys, m as int);
        let p = insert_pos(r, keys, m as int) as int;
        assert(permuted(s, r.insert(p, m as usize)) =~= permuted(s, r).insert(p, s[m as int]));
        vstd::seq_lib::to_multiset_insert(permuted(s, r), p, s[m as int]);
        assert(s.take(n as int) =~= s.take(m as int).push(s[m as int]));
        vstd::seq_lib::to_multiset_build(s.take(m as int), s[m as int]);
    }
}

} // verus!
