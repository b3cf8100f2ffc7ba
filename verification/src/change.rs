//! Change detection between the deployed and the latest file contents.
//!
//! A conditional deploy goes ahead only when the latest contents differ from
//! what was last deployed. Files are matched by path; where the deployed
//! collection holds a path more than once, the first entry with that path is
//! the one compared. Files that only the deployed collection holds do not
//! count as a change.

use vstd::prelude::*;
use crate::entities::{FileContents, FileContentsView};

verus! {

/// Some entry of `files` has the path `path`.
pub open spec fn has_path(files: Seq<FileContentsView>, path: Seq<char>) -> bool {
    exists|i: int| 0 <= i < files.len() && (#[trigger] files[i]).path == path
}

/// Entry `i` of `files` is the first one with the path `path`.
pub open spec fn is_first_with_path(files: Seq<FileContentsView>, path: Seq<char>, i: int) -> bool {
    &&& 0 <= i < files.len()
    &&& files[i].path == path
    &&& forall|j: int| 0 <= j < i ==> (#[trigger] files[j]).path != path
}

/// The latest file `latest` is new or differs from its deployed counterpart.
pub open spec fn entry_changed(deployed: Seq<FileContentsView>, latest: FileContentsView) -> bool {
    ||| !has_path(deployed, latest.path)
    ||| exists|i: int| #[trigger]
            is_first_with_path(deployed, latest.path, i) && deployed[i].contents != latest.contents
}

/// Whether a conditional deploy has to go ahead.
///
/// Nothing deployed yet always counts as changed. With something deployed and
/// no latest contents known, nothing counts as changed.
pub open spec fn spec_changed(
    deployed: Option<Seq<FileContentsView>>,
    latest: Option<Seq<FileContentsView>>,
) -> bool {
    match deployed {
        None => true,
        Some(d) => match latest {
            Some(l) => some_entry_changed(d, l),
            None => false,
        },
    }
}

/// Some latest file is new or differs from its deployed counterpart.
pub open spec fn some_entry_changed(
    deployed: Seq<FileContentsView>,
    latest: Seq<FileContentsView>,
) -> bool {
    exists|k: int| 0 <= k < latest.len() && entry_changed(deployed, #[trigger] latest[k])
}

/// Index of the first entry of `files` with the given path.
pub fn find_by_path(files: &Vec<FileContents>, path: &String) -> (found: Option<usize>)
    ensures
        match found {
            Some(i) => is_first_with_path(files.deep_view(), path@, i as int),
            None => !has_path(files.deep_view(), path@),
        },
{
    let mut i: usize = 0;
    while i < files.len()
        invariant
            i <= files.len(),
            forall|j: int| 0 <= j < i ==> (#[trigger] files.deep_view()[j]).path != path@,
        decreases files.len() - i,
    {
        if files[i].path == *path {
            assert(files.deep_view()[i as int].path == path@);
            return Some(i);
        }
        i += 1;
    }
    None
}

/// Decides whether the latest contents differ from the deployed ones.
pub fn changed(deployed: &Option<Vec<FileContents>>, latest: &Option<Vec<FileContents>>) -> (res:
    bool)
    ensures
        res == spec_changed(deployed.deep_view(), latest.deep_view()),
{
    match (deployed, latest) {
        (None, _) => true,
        (Some(d), Some(l)) => {
            let mut k: usize = 0;
            while k < l.len()
                invariant
                    k <= l.len(),
                    deployed.deep_view() == Some(d.deep_view()),
                    latest.deep_view() == Some(l.deep_view()),
                    forall|m: int|
                        0 <= m < k ==> !entry_changed(d.deep_view(), #[trigger] l.deep_view()[m]),
                decreases l.len() - k,
            {
                let found = find_by_path(d, &l[k].path);
                assert(l.deep_view()[k as int].path == l[k as int].path@);
                match found {
                    None => {
                        assert(entry_changed(d.deep_view(), l.deep_view()[k as int]));
                        return true;
                    },
                    Some(i) => {
                        assert(d.deep_view()[i as int].contents == d[i as int].contents@);
                        if l[k].contents != d[i].contents {
                            assert(entry_changed(d.deep_view(), l.deep_view()[k as int]));
                            return true;
                        }
                        proof {
                            lemma_first_is_unique(d.deep_view(), l.deep_view()[k as int].path, i as int);
                        }
                    },
                }
                k += 1;
            }
            false
        },
        (Some(_), None) => false,
    }
}

/// At most one index is the first with a given path.
pub proof fn lemma_first_is_unique(files: Seq<FileContentsView>, path: Seq<char>, i: int)
    requires
        is_first_with_path(files, path, i),
    ensures
        has_path(files, path),
        forall|j: int| is_first_with_path(files, path, j) ==> j == i,
{
}

/// Entries of `files` that share a path share their contents.
pub open spec fn paths_agree(files: Seq<FileContentsView>) -> bool {
    forall|i: int, j: int|
        0 <= i < files.len() && 0 <= j < files.len() && (#[trigger] files[i]).path == (
        #[trigger] files[j]).path ==> files[i].contents == files[j].contents
}

/// A stack that was never deployed always counts as changed.
pub proof fn lemma_never_deployed_is_changed(latest: Option<Seq<FileContentsView>>)
    ensures
        spec_changed(None, latest),
{
}

/// Where every latest file has a deployed entry with the same path and the
/// same contents, nothing has changed. Stated for deployed collections whose
/// entries agree wherever they share a path.
pub proof fn lemma_identical_is_unchanged(
    deployed: Seq<FileContentsView>,
    latest: Seq<FileContentsView>,
)
    requires
        paths_agree(deployed),
        forall|k: int|
            0 <= k < latest.len() ==> exists|j: int|
                0 <= j < deployed.len() && #[trigger] deployed[j] == #[trigger] latest[k],
    ensures
        !spec_changed(Some(deployed), Some(latest)),
{
    assert forall|k: int| 0 <= k < latest.len() implies !entry_changed(
        deployed,
        #[trigger] latest[k],
    ) by {
        let j = choose|j: int| 0 <= j < deployed.len() && #[trigger] deployed[j] == latest[k];
        assert(deployed[j].path == latest[k].path);
    }
}

/// A latest file whose path the deployed collection lacks is a change.
pub proof fn lemma_new_path_is_changed(
    deployed: Seq<FileContentsView>,
    latest: Seq<FileContentsView>,
    k: int,
)
    requires
        0 <= k < latest.len(),
        !has_path(deployed, latest[k].path),
    ensures
        spec_changed(Some(deployed), Some(latest)),
{
    assert(entry_changed(deployed, latest[k]));
}

/// A latest file whose contents differ from a deployed entry with the same
/// path is a change. Stated for deployed collections whose entries agree
/// wherever they share a path.
pub proof fn lemma_differing_contents_is_changed(
    deployed: Seq<FileContentsView>,
    latest: Seq<FileContentsView>,
    k: int,
    j: int,
)
    requires
        paths_agree(deployed),
        0 <= k < latest.len(),
        0 <= j < deployed.len(),
        deployed[j].path == latest[k].path,
        deployed[j].contents != latest[k].contents,
    ensures
        spec_changed(Some(deployed), Some(latest)),
{
    let i = lemma_first_exists(deployed, latest[k].path, j);
    assert(is_first_with_path(deployed, latest[k].path, i) && deployed[i].contents
        != latest[k].contents);
    assert(entry_changed(deployed, latest[k]));
}

/// A deployed file whose path no latest file has does not affect the result,
/// wherever in the deployed collection it stands.
pub proof fn lemma_deployed_only_path_is_ignored(
    deployed: Seq<FileContentsView>,
    latest: Seq<FileContentsView>,
    extra: FileContentsView,
    at: int,
)
    requires
        0 <= at <= deployed.len(),
        !has_path(latest, extra.path),
    ensures
        spec_changed(Some(deployed.insert(at, extra)), Some(latest)) == spec_changed(
            Some(deployed),
            Some(latest),
        ),
{
    let more = deployed.insert(at, extra);
    assert forall|k: int| 0 <= k < latest.len() implies entry_changed(more, #[trigger] latest[k])
        == entry_changed(deployed, latest[k]) by {
        let path = latest[k].path;
        assert(path != extra.path);
        if has_path(deployed, path) {
            let j = choose|j: int| 0 <= j < deployed.len() && (#[trigger] deployed[j]).path == path;
            let i = lemma_first_exists(deployed, path, j);
            let i2 = if i < at { i } else { i + 1 };
            assert(more[i2] == deployed[i]);
            assert forall|m: int| 0 <= m < i2 implies (#[trigger] more[m]).path != path by {
                if m < at {
                    assert(more[m] == deployed[m]);
                } else if m == at {
                } else {
                    assert(more[m] == deployed[m - 1]);
                }
            }
            assert(is_first_with_path(more, path, i2));
            lemma_first_is_unique(more, path, i2);
            lemma_first_is_unique(deployed, path, i);
        } else {
            if has_path(more, path) {
                let m = choose|m: int| 0 <= m < more.len() && (#[trigger] more[m]).path == path;
                if m < at {
                    assert(more[m] == deployed[m]);
                } else if m > at {
                    assert(more[m] == deployed[m - 1]);
                }
            }
        }
    }
}

/// Where some entry has the path, some entry is the first with it.
pub proof fn lemma_first_exists(files: Seq<FileContentsView>, path: Seq<char>, j: int) -> (i: int)
    requires
        0 <= j < files.len(),
        files[j].path == path,
    ensures
        is_first_with_path(files, path, i),
        i <= j,
    decreases j,
{
    if exists|m: int| 0 <= m < j && (#[trigger] files[m]).path == path {
        let m = choose|m: int| 0 <= m < j && (#[trigger] files[m]).path == path;
        lemma_first_exists(files, path, m)
    } else {
        j
    }
}

} // verus!
