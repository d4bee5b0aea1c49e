//! Slug and package-name handling: splitting an `org/name` slug, and the
//! compute part of reading a package manifest.

use vstd::prelude::*;

use crate::text::str_eq;

verus! {

/// The position of the first `'/'` in `s`, or `s.len()` when there is none.
pub open spec fn first_slash(s: Seq<char>) -> int
    decreases s.len(),
{
    if s.len() == 0 {
        0
    } else if s[0] == '/' {
        0
    } else {
        1 + first_slash(s.skip(1))
    }
}

pub proof fn lemma_first_slash(s: Seq<char>)
    ensures
        0 <= first_slash(s) <= s.len(),
        forall|j: int| 0 <= j < first_slash(s) ==> s[j] != '/',
        first_slash(s) < s.len() ==> s[first_slash(s)] == '/',
    decreases s.len(),
{
    if s.len() > 0 && s[0] != '/' {
        lemma_first_slash(s.skip(1));
        assert forall|j: int| 0 <= j < first_slash(s) implies s[j] != '/' by {
            if j > 0 {
                assert(s.skip(1)[j - 1] == s[j]);
            }
        }
        if first_slash(s) < s.len() {
            assert(s.skip(1)[first_slash(s) - 1] == s[first_slash(s)]);
        }
    }
}

/// Finds the first `'/'` in `s`; `s.len()` when there is none.
fn find_slash(s: &str) -> (r: usize)
    ensures
        r == first_slash(s@),
{
    let n = s.unicode_len();
    let mut i: usize = 0;
    loop
        invariant
            0 <= i <= n,
            n == s@.len(),
            forall|j: int| 0 <= j < i ==> s@[j] != '/',
        ensures
            0 <= i <= n,
            forall|j: int| 0 <= j < i ==> s@[j] != '/',
            i < n ==> s@[i as int] == '/',
        decreases n - i,
    {
        if i >= n {
            break ;
        }
        if s.get_char(i) == '/' {
            break ;
        }
        i = i + 1;
    }
    proof {
        lemma_first_slash(s@);
        if first_slash(s@) < i {
            assert(s@[first_slash(s@)] == '/');
        }
        if i < first_slash(s@) {
            assert(s@[i as int] != '/');
        }
    }
    i
}

/// Splits a slug `org/name` at its first `'/'` into the organization and
/// the name; a slug without a `'/'` yields nothing.
pub fn split_slug(slug: &str) -> (r: Option<(String, String)>)
    ensures
        match r {
            Some(parts) => first_slash(slug@) < slug@.len() && parts.0@ == slug@.take(
                first_slash(slug@),
            ) && parts.1@ == slug@.skip(first_slash(slug@) + 1),
            None => first_slash(slug@) == slug@.len(),
        },
{
    proof {
        lemma_first_slash(slug@);
    }
    let n = slug.unicode_len();
    let k = find_slash(slug);
    if k == n {
        None
    } else {
        let org = slug.substring_char(0, k).to_owned();
        let name = slug.substring_char(k + 1, n).to_owned();
        proof {
            assert(org@ =~= slug@.take(k as int));
            assert(name@ =~= slug@.skip(k as int + 1));
        }
        Some((org, name))
    }
}

/// Leading `'@'` marks dropped from a scope, as the manifest reader does.
pub open spec fn strip_ats_spec(s: Seq<char>) -> Seq<char>
    decreases s.len(),
{
    if s.len() > 0 && s[0] == '@' {
        strip_ats_spec(s.skip(1))
    } else {
        s
    }
}

fn strip_ats(s: &str) -> (r: String)
    ensures
        r@ == strip_ats_spec(s@),
{
    let n = s.unicode_len();
    let mut i: usize = 0;
    proof {
        assert(s@.skip(0) =~= s@);
    }
    loop
        invariant
            0 <= i <= n,
            n == s@.len(),
            strip_ats_spec(s@) == strip_ats_spec(s@.skip(i as int)),
        ensures
            strip_ats_spec(s@) == strip_ats_spec(s@.skip(i as int)),
            i <= n,
            i == n || s@[i as int] != '@',
        decreases n - i,
    {
        if i >= n {
            break ;
        }
        if s.get_char(i) != '@' {
            break ;
        }
        proof {
            assert(s@.skip(i as int)[0] == s@[i as int]);
            assert(s@.skip(i as int).skip(1) =~= s@.skip(i as int + 1));
        }
        i = i + 1;
    }
    proof {
        if i == n {
            assert(s@.skip(i as int) =~= Seq::<char>::empty());
        } else {
            assert(s@.skip(i as int)[0] == s@[i as int]);
        }
        assert(strip_ats_spec(s@.skip(i as int)) == s@.skip(i as int));
    }
    s.substring_char(i, n).to_owned()
}

/// Whether a package name has the scoped shape `@scope/pkg`: it starts with
/// `'@'` and holds exactly one `'/'`.
pub open spec fn scoped_name_ok(name: Seq<char>) -> bool {
    name.len() > 0 && name[0] == '@' && first_slash(name) < name.len() && first_slash(
        name.skip(first_slash(name) + 1),
    ) == name.len() - first_slash(name) - 1
}

/// The organization a scoped name belongs to: what stands before the
/// `'/'`, leading `'@'` marks dropped.
pub open spec fn scope_of(name: Seq<char>) -> Seq<char> {
    strip_ats_spec(name.take(first_slash(name)))
}

/// The bare package name of a scoped name: what stands after the `'/'`.
pub open spec fn pkg_of(name: Seq<char>) -> Seq<char> {
    name.skip(first_slash(name) + 1)
}

/// The organization and bare package name a scoped manifest name
/// `@scope/pkg` carries; any other shape yields nothing (the program this
/// library grew in stops on such names).
pub fn package_name_parts(name: &str) -> (r: Option<(String, String)>)
    ensures
        match r {
            Some(parts) => scoped_name_ok(name@) && parts.0@ == scope_of(name@) && parts.1@
                == pkg_of(name@),
            None => !scoped_name_ok(name@),
        },
{
    let n = name.unicode_len();
    if n == 0 {
        return None;
    }
    if name.get_char(0) != '@' {
        return None;
    }
    match split_slug(name) {
        None => None,
        Some((left, right)) => {
            let rn = right.as_str().unicode_len();
            let k = find_slash(right.as_str());
            proof {
                lemma_first_slash(name@);
                assert(right@ == name@.skip(first_slash(name@) + 1));
                assert(right@.len() == name@.len() - first_slash(name@) - 1);
                assert(k == first_slash(name@.skip(first_slash(name@) + 1)));
            }
            if k != rn {
                proof {
                    assert(!scoped_name_ok(name@));
                }
                return None;
            }
            let org = strip_ats(left.as_str());
            proof {
                assert(scoped_name_ok(name@));
                assert(org@ == scope_of(name@));
                assert(right@ == pkg_of(name@));
            }
            Some((org, right))
        },
    }
}

/// Whether `p` stands at the start of `s`.
pub open spec fn starts_with_spec(s: Seq<char>, p: Seq<char>) -> bool {
    s.len() >= p.len() && s.take(p.len() as int) == p
}

pub fn starts_with(s: &str, p: &str) -> (r: bool)
    ensures
        r == starts_with_spec(s@, p@),
{
    let n = s.unicode_len();
    let m = p.unicode_len();
    if n < m {
        return false;
    }
    let head = s.substring_char(0, m);
    str_eq(head, p)
}

/// The keys that carry the prefix, kept in their order.
pub open spec fn prefixed_keys(keys: Seq<Seq<char>>, p: Seq<char>) -> Seq<Seq<char>>
    decreases keys.len(),
{
    if keys.len() == 0 {
        Seq::<Seq<char>>::empty()
    } else {
        let rest = prefixed_keys(keys.drop_last(), p);
        if starts_with_spec(keys.last(), p) {
            rest.push(keys.last())
        } else {
            rest
        }
    }
}

/// The dependencies of a manifest that belong to the organization itself:
/// the keys of the regular and development dependency tables that start
/// with `@organization/`, regular ones first, each table's order kept.
pub fn internal_dependencies(organization: &str, dep_names: &Vec<String>, dev_dep_names: &Vec<
    String,
>) -> (r: Vec<String>)
    ensures
        r.deep_view() == prefixed_keys(
            dep_names.deep_view() + dev_dep_names.deep_view(),
            "@"@ + organization@ + "/"@,
        ),
{
    let mut prefix: String = String::from_str("@");
    prefix.append(organization);
    prefix.append("/");
    proof {
        assert(prefix@ =~= "@"@ + organization@ + "/"@);
    }
    let ghost all = dep_names.deep_view() + dev_dep_names.deep_view();
    let mut r: Vec<String> = Vec::new();
    proof {
        assert(all.take(0) =~= Seq::<Seq<char>>::empty());
        assert(r.deep_view() =~~= prefixed_keys(all.take(0), prefix@));
    }
    let nd = dep_names.len();
    let mut i: usize = 0;
    loop
        invariant
            0 <= i <= nd,
            nd == dep_names@.len(),
            all == dep_names.deep_view() + dev_dep_names.deep_view(),
            r.deep_view() == prefixed_keys(all.take(i as int), prefix@),
            prefix@ == "@"@ + organization@ + "/"@,
        ensures
            i == nd,
            r.deep_view() == prefixed_keys(all.take(i as int), prefix@),
        decreases nd - i,
    {
        if i >= nd {
            break ;
        }
        proof {
            assert(all[i as int] == dep_names.deep_view()[i as int]);
            assert(all.take(i as int + 1).drop_last() =~= all.take(i as int));
            assert(all.take(i as int + 1).last() == all[i as int]);
        }
        if starts_with(dep_names[i].as_str(), prefix.as_str()) {
            r.push(dep_names[i].clone());
            proof {
                assert(r.deep_view() =~~= prefixed_keys(all.take(i as int + 1), prefix@));
            }
        } else {
            proof {
                assert(r.deep_view() =~~= prefixed_keys(all.take(i as int + 1), prefix@));
            }
        }
        i = i + 1;
    }
    let nv = dev_dep_names.len();
    let mut j: usize = 0;
    loop
        invariant
            0 <= j <= nv,
            nv == dev_dep_names@.len(),
            nd == dep_names@.len(),
            all == dep_names.deep_view() + dev_dep_names.deep_view(),
            r.deep_view() == prefixed_keys(all.take(nd + j), prefix@),
            prefix@ == "@"@ + organization@ + "/"@,
        ensures
            j == nv,
            r.deep_view() == prefixed_keys(all.take(nd + j), prefix@),
        decreases nv - j,
    {
        if j >= nv {
            break ;
        }
        proof {
            assert(all[nd + j] == dev_dep_names.deep_view()[j as int]);
            assert(all.take(nd + j + 1).drop_last() =~= all.take(nd + j));
            assert(all.take(nd + j + 1).last() == all[nd + j]);
        }
        if starts_with(dev_dep_names[j].as_str(), prefix.as_str()) {
            r.push(dev_dep_names[j].clone());
            proof {
                assert(r.deep_view() =~~= prefixed_keys(all.take(nd + j + 1), prefix@));
            }
        } else {
            proof {
                assert(r.deep_view() =~~= prefixed_keys(all.take(nd + j + 1), prefix@));
            }
        }
        j = j + 1;
    }
    proof {
        assert(all.take(nd + nv) =~= all);
    }
    r
}

} // verus!
