//! Lookup and listing of the icons bundled with the client. Asset paths are
//! `/`-separated; a listing names the entries directly under a folder,
//! sorted and without repeats.
use vstd::prelude::*;

use crate::text::str_eq;

verus! {

broadcast use vstd::string::group_string_axioms;

/// Strict lexicographic order of character sequences, by code point (the
/// order of `str`'s `Ord`).
pub open spec fn seq_lt(a: Seq<char>, b: Seq<char>) -> bool
    decreases a.len(),
{
    if a.len() == 0 {
        b.len() > 0
    } else if b.len() == 0 {
        false
    } else if (a[0] as int) < (b[0] as int) {
        true
    } else if (a[0] as int) > (b[0] as int) {
        false
    } else {
        seq_lt(a.drop_first(), b.drop_first())
    }
}

pub proof fn lemma_seq_lt_irreflexive(a: Seq<char>)
    ensures
        !seq_lt(a, a),
    decreases a.len(),
{
    if a.len() > 0 {
        lemma_seq_lt_irreflexive(a.drop_first());
    }
}

pub proof fn lemma_seq_lt_transitive(a: Seq<char>, b: Seq<char>, c: Seq<char>)
    requires
        seq_lt(a, b),
        seq_lt(b, c),
    ensures
        seq_lt(a, c),
    decreases a.len(),
{
    if a.len() > 0 && b.len() > 0 && c.len() > 0 {
        if (a[0] as int) == (b[0] as int) && (b[0] as int) == (c[0] as int) {
            lemma_seq_lt_transitive(a.drop_first(), b.drop_first(), c.drop_first());
        }
    }
}

pub proof fn lemma_seq_lt_total(a: Seq<char>, b: Seq<char>)
    requires
        a != b,
    ensures
        seq_lt(a, b) || seq_lt(b, a),
    decreases a.len(),
{
    if a.len() > 0 && b.len() > 0 {
        if (a[0] as int) == (b[0] as int) {
            assert(a[0] == b[0]);
            if a.drop_first() == b.drop_first() {
                assert(a =~= seq![a[0]] + a.drop_first());
                assert(b =~= seq![b[0]] + b.drop_first());
            }
            lemma_seq_lt_total(a.drop_first(), b.drop_first());
        }
    } else if a.len() == 0 && b.len() == 0 {
        assert(a =~= b);
    }
}

/// Each entry comes strictly before the next: sorted, without repeats.
pub open spec fn strictly_sorted(s: Seq<Seq<char>>) -> bool {
    forall|i: int, j: int| 0 <= i < j < s.len() ==> seq_lt(#[trigger] s[i], #[trigger] s[j])
}

pub open spec fn views(v: Seq<String>) -> Seq<Seq<char>> {
    Seq::new(v.len(), |i: int| v[i]@)
}

/// Whether `a` comes strictly before `b`.
pub fn str_less(a: &str, b: &str) -> (r: bool)
    ensures
        r == seq_lt(a@, b@),
{
    let a_len = a.unicode_len();
    let b_len = b.unicode_len();
    let mut i: usize = 0;
    assert(a@.skip(0) =~= a@);
    assert(b@.skip(0) =~= b@);
    while i < a_len && i < b_len
        invariant
            a_len == a@.len(),
            b_len == b@.len(),
            i <= a_len,
            i <= b_len,
            seq_lt(a@, b@) == seq_lt(a@.skip(i as int), b@.skip(i as int)),
        decreases a_len - i,
    {
        let ca = a.get_char(i);
        let cb = b.get_char(i);
        assert(a@.skip(i as int)[0] == ca);
        assert(b@.skip(i as int)[0] == cb);
        if (ca as u32) < (cb as u32) {
            return true;
        }
        if (ca as u32) > (cb as u32) {
            return false;
        }
        assert(a@.skip(i as int).drop_first() =~= a@.skip(i + 1));
        assert(b@.skip(i as int).drop_first() =~= b@.skip(i + 1));
        i = i + 1;
    }
    assert(a@.skip(i as int).len() == a_len - i);
    i == a_len && i < b_len
}

/// Inserts `name` into the strictly sorted `out`, unless it is there already.
fn insert_sorted(out: &mut Vec<String>, name: String)
    requires
        strictly_sorted(views(old(out)@)),
    ensures
        strictly_sorted(views(final(out)@)),
        forall|x: Seq<char>| #[trigger] views(final(out)@).contains(x) <==> (views(old(out)@).contains(x) || x == name@),
{
    let ghost before = views(out@);
    let mut p: usize = 0;
    while p < out.len() && str_less(out[p].as_str(), name.as_str())
        invariant
            p <= out.len(),
            out@ == old(out)@,
            before == views(out@),
            forall|k: int| 0 <= k < p ==> seq_lt(#[trigger] before[k], name@),
        decreases out.len() - p,
    {
        p = p + 1;
    }
    // every entry from p on is not before `name`
    if p < out.len() && str_eq(out[p].as_str(), name.as_str()) {
        assert(before[p as int] == name@);
        assert forall|x: Seq<char>| #[trigger] views(out@).contains(x) <==> (before.contains(x) || x == name@) by {
            if x == name@ {
                assert(views(out@)[p as int] == x);
            }
        }
        return;
    }
    proof {
        if p < out.len() {
            assert(!seq_lt(before[p as int], name@));
            assert(before[p as int] != name@);
            lemma_seq_lt_total(before[p as int], name@);
            assert(seq_lt(name@, before[p as int]));
            assert forall|j: int| p <= j < before.len() implies seq_lt(name@, #[trigger] before[j]) by {
                if j > p {
                    lemma_seq_lt_transitive(name@, before[p as int], before[j]);
                }
            }
        }
    }
    out.insert(p, name);
    let ghost after = views(out@);
    proof {
        assert(after =~= before.insert(p as int, name@));
        assert forall|i: int, j: int| 0 <= i < j < after.len() implies seq_lt(#[trigger] after[i], #[trigger] after[j]) by {
            if j < p {
            } else if j == p {
            } else if i < p {
                lemma_seq_lt_transitive(after[i], name@, after[j]);
            } else if i == p {
            } else {
            }
        }
        assert forall|x: Seq<char>| #[trigger] after.contains(x) <==> (before.contains(x) || x == name@) by {
            if after.contains(x) {
                let k = choose|k: int| 0 <= k < after.len() && after[k] == x;
                if k < p {
                    assert(before[k] == x);
                } else if k > p {
                    assert(before[k - 1] == x);
                }
            }
            if before.contains(x) {
                let k = choose|k: int| 0 <= k < before.len() && before[k] == x;
                if k < p {
                    assert(after[k] == x);
                } else {
                    assert(after[k + 1] == x);
                }
            }
            if x == name@ {
                assert(after[p as int] == x);
            }
        }
    }
}

/// The names sorted and without repeats.
pub fn sorted_unique_names(names: Vec<String>) -> (out: Vec<String>)
    ensures
        strictly_sorted(views(out@)),
        forall|x: Seq<char>| #[trigger] views(out@).contains(x) <==> views(names@).contains(x),
{
    let mut out: Vec<String> = Vec::new();
    let ghost given = names@;
    proof {
        assert(views(out@) =~= Seq::<Seq<char>>::empty());
    }
    let mut i: usize = 0;
    let n = names.len();
    while i < n
        invariant
            n == given.len(),
            i <= n,
            strictly_sorted(views(out@)),
            forall|x: Seq<char>| #[trigger] views(out@).contains(x) <==> views(given.take(i as int)).contains(x),
            names@.len() == n,
            forall|k: int| i <= k < n ==> #[trigger] names@[k] == given[k],
        decreases n - i,
    {
        let name = names[i].clone();
        proof {
            assert(name == given[i as int]);
        }
        insert_sorted(&mut out, name);
        proof {
            assert forall|x: Seq<char>| #[trigger] views(out@).contains(x) <==> views(given.take(i + 1)).contains(x) by {
                let t = views(given.take(i + 1));
                let s = views(given.take(i as int));
                if s.contains(x) {
                    let k = choose|k: int| 0 <= k < s.len() && s[k] == x;
                    assert(t[k] == x);
                }
                if t.contains(x) {
                    let k = choose|k: int| 0 <= k < t.len() && t[k] == x;
                    if k < i {
                        assert(s[k] == x);
                    }
                }
                if x == given[i as int]@ {
                    assert(t[i as int] == x);
                }
            }
        }
        i = i + 1;
    }
    proof {
        assert(given.take(n as int) =~= given);
    }
    out
}

/// The part of `s` before its first `/`, if it has one.
pub open spec fn head_before_slash(s: Seq<char>) -> Option<Seq<char>> {
    if exists|i: int| 0 <= i < s.len() && s[i] == '/' && !s.take(i).contains('/') {
        let i = choose|i: int| 0 <= i < s.len() && s[i] == '/' && !s.take(i).contains('/');
        Some(s.take(i))
    } else {
        None
    }
}

/// `s` lies directly in the folder `folder`: it is `folder`, a `/`, and a
/// last part without `/`.
pub open spec fn directly_in(s: Seq<char>, folder: Seq<char>) -> bool {
    &&& s.len() > folder.len()
    &&& s.take(folder.len() as int) == folder
    &&& s[folder.len() as int] == '/'
    &&& !s.skip(folder.len() as int + 1).contains('/')
}

/// What a listing of `path` shows of the asset at `asset`: for the root,
/// the asset's top folder; otherwise the asset itself when it lies directly
/// in `path`.
pub open spec fn listed_entry(asset: Seq<char>, path: Seq<char>) -> Option<Seq<char>> {
    if path.len() == 0 {
        head_before_slash(asset)
    } else if directly_in(asset, path) {
        Some(asset)
    } else {
        None
    }
}

fn first_slash(s: &str) -> (r: Option<usize>)
    ensures
        r matches Some(i) ==> i < s@.len() && s@[i as int] == '/' && !s@.take(i as int).contains('/'),
        r is None ==> !s@.contains('/'),
{
    let n = s.unicode_len();
    let mut i: usize = 0;
    while i < n
        invariant
            n == s@.len(),
            i <= n,
            !s@.take(i as int).contains('/'),
        decreases n - i,
    {
        if s.get_char(i) == '/' {
            return Some(i);
        }
        proof {
            assert forall|k: int| 0 <= k < i + 1 implies #[trigger] s@.take(i + 1)[k] != '/' by {
                if k < i {
                    assert(s@.take(i + 1)[k] == s@.take(i as int)[k]);
                }
            }
        }
        i = i + 1;
    }
    assert(s@.take(n as int) =~= s@);
    None
}

fn listed_entry_of(asset: &str, path: &str) -> (r: Option<String>)
    ensures
        match r {
            Some(e) => listed_entry(asset@, path@) == Some(e@),
            None => listed_entry(asset@, path@) is None,
        },
{
    if path.unicode_len() == 0 {
        match first_slash(asset) {
            Some(i) => {
                let head = asset.substring_char(0, i);
                proof {
                    let s = asset@;
                    assert(head@ =~= s.take(i as int));
                    let j = choose|j: int| 0 <= j < s.len() && s[j] == '/' && !s.take(j).contains('/');
                    if j < i {
                        assert(s.take(i as int)[j] == '/');
                    } else if j > i {
                        assert(s.take(j)[i as int] == '/');
                    }
                }
                Some(head.to_owned())
            },
            None => None,
        }
    } else {
        let p = path.unicode_len();
        let n = asset.unicode_len();
        if n <= p {
            return None;
        }
        let prefix = asset.substring_char(0, p);
        if !str_eq(prefix, path) {
            return None;
        }
        if asset.get_char(p) != '/' {
            return None;
        }
        let rest = asset.substring_char(p + 1, n);
        proof {
            assert(prefix@ =~= asset@.take(p as int));
            assert(rest@ =~= asset@.skip(p + 1));
        }
        match first_slash(rest) {
            Some(_) => None,
            None => Some(asset.to_owned()),
        }
    }
}

/// The entries of the folder `path` among the asset paths: the top folders
/// when `path` is empty, otherwise the assets directly in `path`; sorted and
/// without repeats.
pub fn list_assets(asset_paths: &Vec<String>, path: &str) -> (out: Vec<String>)
    ensures
        strictly_sorted(views(out@)),
        forall|x: Seq<char>| #[trigger] views(out@).contains(x) <==> exists|i: int|
            0 <= i < asset_paths@.len() && listed_entry(#[trigger] asset_paths@[i]@, path@) == Some(x),
{
    let mut entries: Vec<String> = Vec::new();
    let mut i: usize = 0;
    while i < asset_paths.len()
        invariant
            i <= asset_paths@.len(),
            forall|x: Seq<char>| #[trigger] views(entries@).contains(x) <==> exists|k: int|
                0 <= k < i && listed_entry(#[trigger] asset_paths@[k]@, path@) == Some(x),
        decreases asset_paths@.len() - i,
    {
        let ghost before = views(entries@);
        match listed_entry_of(asset_paths[i].as_str(), path) {
            Some(entry) => {
                let ghost ev = entry@;
                entries.push(entry);
                proof {
                    let after = views(entries@);
                    assert(after =~= before.push(ev));
                    assert(listed_entry(asset_paths@[i as int]@, path@) == Some(ev));
                    assert forall|x: Seq<char>| #[trigger] after.contains(x) implies exists|k: int|
                        0 <= k < i + 1 && listed_entry(#[trigger] asset_paths@[k]@, path@) == Some(x) by {
                        let m = choose|m: int| 0 <= m < after.len() && after[m] == x;
                        if m < before.len() {
                            assert(before[m] == x);
                            assert(before.contains(x));
                        } else {
                            assert(x == ev);
                            assert(listed_entry(asset_paths@[i as int]@, path@) == Some(x));
                        }
                    }
                    assert forall|x: Seq<char>| (exists|k: int|
                        0 <= k < i + 1 && listed_entry(#[trigger] asset_paths@[k]@, path@) == Some(x)) implies #[trigger] after.contains(x) by {
                        let k = choose|k: int| 0 <= k < i + 1 && listed_entry(#[trigger] asset_paths@[k]@, path@) == Some(x);
                        if k == i {
                            assert(after[before.len() as int] == x);
                        } else {
                            assert(exists|k2: int| 0 <= k2 < i && listed_entry(#[trigger] asset_paths@[k2]@, path@) == Some(x));
                            assert(before.contains(x));
                            let m = choose|m: int| 0 <= m < before.len() && before[m] == x;
                            assert(after[m] == x);
                        }
                    }
                }
            },
            None => {
                proof {
                    assert forall|x: Seq<char>| #[trigger] before.contains(x) <==> exists|k: int|
                        0 <= k < i + 1 && listed_entry(#[trigger] asset_paths@[k]@, path@) == Some(x) by {
                        if exists|k: int| 0 <= k < i + 1 && listed_entry(#[trigger] asset_paths@[k]@, path@) == Some(x) {
                            let k = choose|k: int| 0 <= k < i + 1 && listed_entry(#[trigger] asset_paths@[k]@, path@) == Some(x);
                            assert(k != i);
                        }
                    }
                }
            },
        }
        i = i + 1;
    }
    sorted_unique_names(entries)
}

/// The position of the asset at `path` in the table; none for an empty path.
pub fn find_asset(asset_paths: &Vec<String>, path: &str) -> (r: Option<usize>)
    ensures
        path@.len() == 0 ==> r is None,
        path@.len() > 0 ==> match r {
            Some(i) => i < asset_paths@.len() && asset_paths@[i as int]@ == path@ && forall|k: int|
                0 <= k < i ==> #[trigger] asset_paths@[k]@ != path@,
            None => forall|k: int| 0 <= k < asset_paths@.len() ==> #[trigger] asset_paths@[k]@ != path@,
        },
{
    if path.unicode_len() == 0 {
        return None;
    }
    let mut i: usize = 0;
    while i < asset_paths.len()
        invariant
            i <= asset_paths@.len(),
            path@.len() > 0,
            forall|k: int| 0 <= k < i ==> #[trigger] asset_paths@[k]@ != path@,
        decreases asset_paths@.len() - i,
    {
        if str_eq(asset_paths[i].as_str(), path) {
            return Some(i);
        }
        i = i + 1;
    }
    None
}

/// The paths of the icons bundled with the client, in table order.
pub open spec fn local_asset_paths_spec() -> Seq<Seq<char>> {
    seq![
        "system_core/arc_port_signal.svg"@,
        "system_core/arc_port_socket.svg"@,
        "system_core/arc_port_track.svg"@,
        "system_core/power.svg"@,
        "system_core/radar_scan_line.svg"@,
    ]
}

/// The table of bundled icon paths.
pub fn local_asset_paths() -> (paths: Vec<String>)
    ensures
        views(paths@) == local_asset_paths_spec(),
{
    let mut paths: Vec<String> = Vec::new();
    paths.push(String::from_str("system_core/arc_port_signal.svg"));
    paths.push(String::from_str("system_core/arc_port_socket.svg"));
    paths.push(String::from_str("system_core/arc_port_track.svg"));
    paths.push(String::from_str("system_core/power.svg"));
    paths.push(String::from_str("system_core/radar_scan_line.svg"));
    assert(views(paths@) =~= local_asset_paths_spec());
    paths
}

/// The entries of the folder `path` among the bundled icons, as
/// `list_assets` gives them.
pub fn list_local_assets(path: &str) -> (out: Vec<String>)
    ensures
        strictly_sorted(views(out@)),
        forall|x: Seq<char>| #[trigger] views(out@).contains(x) <==> exists|i: int|
            0 <= i < local_asset_paths_spec().len() && listed_entry(#[trigger] local_asset_paths_spec()[i], path@)
                == Some(x),
{
    let paths = local_asset_paths();
    let out = list_assets(&paths, path);
    proof {
        assert forall|i: int| 0 <= i < paths@.len() implies #[trigger] paths@[i]@ == local_asset_paths_spec()[i] by {
            assert(views(paths@)[i] == paths@[i]@);
        }
    }
    out
}

/// The position of the bundled icon at `path`, as `find_asset` finds it.
pub fn find_local_asset(path: &str) -> (r: Option<usize>)
    ensures
        path@.len() == 0 ==> r is None,
        path@.len() > 0 ==> match r {
            Some(i) => i < local_asset_paths_spec().len() && local_asset_paths_spec()[i as int] == path@
                && forall|k: int| 0 <= k < i ==> #[trigger] local_asset_paths_spec()[k] != path@,
            None => forall|k: int| 0 <= k < local_asset_paths_spec().len() ==> #[trigger] local_asset_paths_spec()[k]
                != path@,
        },
{
    let paths = local_asset_paths();
    proof {
        assert forall|i: int| 0 <= i < paths@.len() implies #[trigger] paths@[i]@ == local_asset_paths_spec()[i] by {
            assert(views(paths@)[i] == paths@[i]@);
        }
    }
    find_asset(&paths, path)
}

/// A listing never names an entry twice: entries in strict order are distinct.
pub proof fn law_listing_has_no_repeats(s: Seq<Seq<char>>)
    requires
        strictly_sorted(s),
    ensures
        forall|i: int, j: int| 0 <= i < s.len() && 0 <= j < s.len() && i != j ==> #[trigger] s[i] != #[trigger] s[j],
{
    assert forall|i: int, j: int| 0 <= i < s.len() && 0 <= j < s.len() && i != j implies #[trigger] s[i]
        != #[trigger] s[j] by {
        if i < j {
            assert(seq_lt(s[i], s[j]));
        } else {
            assert(seq_lt(s[j], s[i]));
        }
        lemma_seq_lt_irreflexive(s[i]);
    }
}

} // verus!
