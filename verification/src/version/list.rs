//! The versions that a repository's tags name, in ascending order.

use crate::token::{trimmed_by, TokenTrimmer, Trimmer};
use crate::version::{lenient_version, precedes, Version, VersionView};
use vstd::multiset::Multiset;
use vstd::prelude::*;

verus! {

/// The versions of a repository, lowest first.
#[derive(Debug, PartialEq)]
pub struct VersionList(pub Vec<Version>);

/// The views of `versions`, in order.
pub open spec fn views(versions: Seq<Version>) -> Seq<VersionView> {
    versions.map_values(|v: Version| v@)
}

/// The characters of each of `tags`, in order.
pub open spec fn texts(tags: Seq<String>) -> Seq<Seq<char>> {
    tags.map_values(|t: String| t@)
}

/// What a trimmer holds, where there is one.
pub open spec fn trimmer_view(trimmer: Option<TokenTrimmer>) -> Option<Trimmer> {
    match trimmer {
        Some(t) => Some(t@),
        None => None,
    }
}

impl View for VersionList {
    type V = Seq<VersionView>;

    open spec fn view(&self) -> Seq<VersionView> {
        views(self.0@)
    }
}

/// The versions that `tags` name once `trimmer` has cut each of them, in the
/// order of the tags; a tag that names no version is left out.
pub open spec fn parsed_versions(tags: Seq<Seq<char>>, trimmer: Option<Trimmer>) -> Seq<
    VersionView,
>
    decreases tags.len(),
{
    if tags.len() == 0 {
        Seq::empty()
    } else {
        let before = parsed_versions(tags.drop_last(), trimmer);
        match lenient_version(trimmed_by(trimmer, tags.last())) {
            Some(v) => before.push(v),
            None => before,
        }
    }
}

/// `sorted` with `v` put behind the last member that does not come after it.
pub open spec fn inserted(sorted: Seq<VersionView>, v: VersionView) -> Seq<VersionView>
    decreases sorted.len(),
{
    if sorted.len() == 0 {
        seq![v]
    } else if precedes(sorted.last(), v) {
        sorted.push(v)
    } else {
        inserted(sorted.drop_last(), v).push(sorted.last())
    }
}

/// The members of `s` put in order one by one, each behind those that do not
/// come after it: versions of equal precedence keep the order they had in `s`.
pub open spec fn sorted_versions(s: Seq<VersionView>) -> Seq<VersionView>
    decreases s.len(),
{
    if s.len() == 0 {
        Seq::empty()
    } else {
        inserted(sorted_versions(s.drop_last()), s.last())
    }
}

/// No member of `s` comes after a later one.
pub open spec fn ascending(s: Seq<VersionView>) -> bool {
    forall|i: int, j: int| 0 <= i < j < s.len() ==> precedes(s[i], s[j])
}

/// The latest of `s`: its last member, if it has one.
pub open spec fn latest(s: Seq<VersionView>) -> Option<VersionView> {
    if s.len() == 0 {
        None
    } else {
        Some(s.last())
    }
}

/// Where `v` belongs behind position `at - 1` and before position `at` of
/// `s`, `inserted` puts it at `at`.
proof fn lemma_inserted_at(s: Seq<VersionView>, v: VersionView, at: int)
    requires
        0 <= at <= s.len(),
        forall|j: int| at <= j < s.len() ==> !precedes(s[j], v),
        at == 0 || precedes(s[at - 1], v),
    ensures
        inserted(s, v) == s.insert(at, v),
    decreases s.len(),
{
    if s.len() == 0 {
    } else if at == s.len() {
    } else {
        lemma_inserted_at(s.drop_last(), v, at);
    }
}

/// `inserted` adds `v` to the members of `s` and takes none away.
pub proof fn lemma_inserted_members(s: Seq<VersionView>, v: VersionView)
    ensures
        inserted(s, v).to_multiset() == s.to_multiset().insert(v),
        forall|x: VersionView| inserted(s, v).contains(x) <==> (s.contains(x) || x == v),
    decreases s.len(),
{
    broadcast use vstd::seq_lib::group_to_multiset_ensures;

    let r = inserted(s, v);
    if s.len() == 0 {
    } else if precedes(s.last(), v) {
    } else {
        let head = s.drop_last();
        lemma_inserted_members(head, v);
        assert(s =~= head.push(s.last()));
    }
    assert forall|x: VersionView| r.contains(x) <==> (s.contains(x) || x == v) by {
        assert(r.contains(x) <==> r.to_multiset().count(x) > 0);
    }
}

/// Sorting keeps every member, each as often as it occurred.
pub proof fn lemma_sorted_versions_permutes(s: Seq<VersionView>)
    ensures
        sorted_versions(s).to_multiset() == s.to_multiset(),
        sorted_versions(s).len() == s.len(),
        forall|x: VersionView| sorted_versions(s).contains(x) <==> s.contains(x),
    decreases s.len(),
{
    broadcast use vstd::seq_lib::group_to_multiset_ensures;

    let r = sorted_versions(s);
    if s.len() == 0 {
    } else {
        lemma_sorted_versions_permutes(s.drop_last());
        lemma_inserted_members(sorted_versions(s.drop_last()), s.last());
        assert(s =~= s.drop_last().push(s.last()));
    }
    assert forall|x: VersionView| r.contains(x) <==> s.contains(x) by {
        assert(r.contains(x) <==> r.to_multiset().count(x) > 0);
    }
    r.to_multiset_ensures();
    s.to_multiset_ensures();
}

/// Puts `v` into `list` behind the last member that does not come after it.
/// An ascending list stays ascending.
fn insert_sorted(list: &mut Vec<Version>, v: Version)
    ensures
        views(final(list)@) == inserted(views(old(list)@), v@),
        ascending(views(old(list)@)) ==> ascending(views(final(list)@)),
{
    let mut at: usize = list.len();
    loop
        invariant
            at <= list.len(),
            list@ == old(list)@,
            forall|j: int| at <= j < list.len() ==> !precedes(#[trigger] list@[j]@, v@),
            forall|j: int| at <= j < list.len() ==> precedes(v@, #[trigger] list@[j]@),
        ensures
            at <= list.len(),
            list@ == old(list)@,
            forall|j: int| at <= j < list.len() ==> !precedes(#[trigger] list@[j]@, v@),
            forall|j: int| at <= j < list.len() ==> precedes(v@, #[trigger] list@[j]@),
            at == 0 || precedes(list@[at - 1]@, v@),
            at == 0 || forall|c: VersionView|
                #[trigger] precedes(c, list@[at - 1]@) ==> precedes(c, v@),
        decreases at,
    {
        if at == 0 {
            break ;
        }
        if list[at - 1].precedes(&v) {
            break ;
        }
        at -= 1;
    }
    proof {
        let s = views(list@);
        let r = s.insert(at as int, v@);
        lemma_inserted_at(s, v@, at as int);
        assert(views(list@.insert(at as int, v)) =~= r);
        if ascending(s) {
            assert forall|i: int, j: int| 0 <= i < j < r.len() implies precedes(r[i], r[j]) by {
                if j == at && i < at - 1 {
                    assert(precedes(s[i], s[at - 1]));
                }
            }
        }
    }
    list.insert(at, v);
}

impl VersionList {
    /// The versions that `tag_names` name, once `token_trimmer` has cut each
    /// name, in ascending order. A name that is no version is left out; a
    /// version that is named twice is there twice.
    pub fn from_tag_list(tag_names: &Vec<String>, token_trimmer: Option<TokenTrimmer>) -> (r:
        VersionList)
        ensures
            r@ == sorted_versions(parsed_versions(texts(tag_names@), trimmer_view(token_trimmer))),
            r@.to_multiset() == parsed_versions(
                texts(tag_names@),
                trimmer_view(token_trimmer),
            ).to_multiset(),
            ascending(r@),
    {
        let ghost trimmer = trimmer_view(token_trimmer);
        let trimmed_tag_names = Self::trimmed_tag_names(tag_names, token_trimmer);
        let mut versions: Vec<Version> = Vec::new();
        let mut i: usize = 0;
        while i < trimmed_tag_names.len()
            invariant
                i <= trimmed_tag_names.len(),
                trimmed_tag_names.len() == tag_names.len(),
                forall|k: int|
                    0 <= k < tag_names.len() ==> (#[trigger] trimmed_tag_names@[k])@ == trimmed_by(
                        trimmer,
                        tag_names@[k]@,
                    ),
                views(versions@) == sorted_versions(
                    parsed_versions(texts(tag_names@).take(i as int), trimmer),
                ),
                ascending(views(versions@)),
            decreases trimmed_tag_names.len() - i,
        {
            let ghost upto = texts(tag_names@).take(i as int);
            let ghost next = texts(tag_names@).take(i + 1);
            proof {
                assert(next.drop_last() =~= upto);
            }
            match Version::parse_lenient(trimmed_tag_names[i]) {
                Some(v) => {
                    proof {
                        assert(parsed_versions(next, trimmer).drop_last() =~= parsed_versions(
                            upto,
                            trimmer,
                        ));
                    }
                    insert_sorted(&mut versions, v);
                },
                None => {},
            }
            i += 1;
        }
        proof {
            assert(texts(tag_names@).take(i as int) =~= texts(tag_names@));
            let parsed = parsed_versions(texts(tag_names@), trimmer);
            lemma_sorted_versions_permutes(parsed);
        }
        VersionList(versions)
    }

    /// Each of `tag_names` as `token_trimmer` cuts it; unchanged where there is no trimmer.
    fn trimmed_tag_names<'a>(tag_names: &'a Vec<String>, token_trimmer: Option<TokenTrimmer>) -> (r:
        Vec<&'a str>)
        ensures
            r.len() == tag_names.len(),
            forall|k: int|
                0 <= k < tag_names.len() ==> (#[trigger] r@[k])@ == trimmed_by(
                    trimmer_view(token_trimmer),
                    tag_names@[k]@,
                ),
    {
        let mut out: Vec<&'a str> = Vec::new();
        let mut i: usize = 0;
        while i < tag_names.len()
            invariant
                i <= tag_names.len(),
                out.len() == i,
                forall|k: int|
                    0 <= k < i ==> (#[trigger] out@[k])@ == trimmed_by(
                        trimmer_view(token_trimmer),
                        tag_names@[k]@,
                    ),
            decreases tag_names.len() - i,
        {
            let name = tag_names[i].as_str();
            let trimmed = match &token_trimmer {
                Some(trimmer) => trimmer.trim_text(name),
                None => name,
            };
            out.push(trimmed);
            i += 1;
        }
        out
    }

    /// The last, and so the highest, of the versions; none where the list is empty.
    pub fn latest_version(&self) -> (r: Option<Version>)
        ensures
            match r {
                Some(v) => latest(self@) == Some(v@),
                None => latest(self@) is None,
            },
    {
        if self.0.len() == 0 {
            None
        } else {
            Some(self.0[self.0.len() - 1].clone())
        }
    }
}

} // verus!
