//! The manifest and the pruning of the asset directory.
//!
//! The manifest is the local file the player reads: one line per video,
//! the asset directory path followed by the video's file name, in
//! manifest order. After a successful sync, every file of the asset
//! directory that is neither the manifest, nor the state file, nor
//! referenced by the current videos is pruned.

use crate::videos::Video;
use vstd::prelude::*;

verus! {

/// The character views of a list of strings.
pub open spec fn str_views(s: Seq<String>) -> Seq<Seq<char>> {
    s.map_values(|x: String| x@)
}

/// The manifest's entries for videos in manifest order: the asset
/// directory path followed by each video's file name, one per video.
pub open spec fn spec_manifest_entries(videos: Seq<Video>, dir: Seq<char>) -> Seq<Seq<char>> {
    videos.map_values(|v: Video| dir + v.asset_name@)
}

/// Writes the manifest lines for `videos`: for each video, in order, the
/// asset directory path followed by its file name.
pub fn manifest_entries(videos: &Vec<Video>, asset_dir: &str) -> (r: Vec<String>)
    ensures
        str_views(r@) == spec_manifest_entries(videos@, asset_dir@),
{
    let mut r: Vec<String> = Vec::new();
    let mut i: usize = 0;
    proof {
        assert(str_views(r@) =~= spec_manifest_entries(videos@.take(0), asset_dir@));
    }
    while i < videos.len()
        invariant
            i <= videos@.len(),
            r@.len() == i,
            str_views(r@) == spec_manifest_entries(videos@.take(i as int), asset_dir@),
        decreases videos@.len() - i,
    {
        let mut line = String::from_str(asset_dir);
        line.append(videos[i].asset_name.as_str());
        let ghost r_before = r@;
        r.push(line);
        proof {
            let entries = spec_manifest_entries(videos@.take(i as int + 1), asset_dir@);
            assert forall|j: int| 0 <= j < r@.len() implies str_views(r@)[j] == entries[j] by {
                if j < i {
                    assert(str_views(r_before)[j] == spec_manifest_entries(
                        videos@.take(i as int),
                        asset_dir@,
                    )[j]);
                    assert(r@[j] == r_before[j]);
                }
            }
            assert(str_views(r@) =~= entries);
        }
        i = i + 1;
    }
    proof {
        assert(videos@.take(videos@.len() as int) =~= videos@);
    }
    r
}

/// The file names the current videos reference inside the asset
/// directory.
pub fn referenced_names(videos: &Vec<Video>) -> (r: Vec<String>)
    ensures
        str_views(r@) == videos@.map_values(|v: Video| v.asset_name@),
{
    let mut r: Vec<String> = Vec::new();
    let mut i: usize = 0;
    proof {
        assert(str_views(r@) =~= videos@.take(0).map_values(|v: Video| v.asset_name@));
    }
    while i < videos.len()
        invariant
            i <= videos@.len(),
            r@.len() == i,
            str_views(r@) == videos@.take(i as int).map_values(|v: Video| v.asset_name@),
        decreases videos@.len() - i,
    {
        let ghost r_before = r@;
        r.push(videos[i].asset_name.clone());
        proof {
            let names = videos@.take(i as int + 1).map_values(|v: Video| v.asset_name@);
            assert forall|j: int| 0 <= j < r@.len() implies str_views(r@)[j] == names[j] by {
                if j < i {
                    assert(str_views(r_before)[j] == videos@.take(i as int).map_values(
                        |v: Video| v.asset_name@,
                    )[j]);
                    assert(r@[j] == r_before[j]);
                }
            }
            assert(str_views(r@) =~= names);
        }
        i = i + 1;
    }
    proof {
        assert(videos@.take(videos@.len() as int) =~= videos@);
    }
    r
}

/// A file of the asset directory is pruned when it is neither the
/// manifest, nor the state file, nor one of the referenced names.
pub open spec fn spec_should_prune(
    f: Seq<char>,
    manifest_name: Seq<char>,
    state_name: Seq<char>,
    referenced: Seq<Seq<char>>,
) -> bool {
    f != manifest_name && f != state_name && !referenced.contains(f)
}

/// Holds of the files that the prune leaves in place.
pub open spec fn keep_pred(
    manifest_name: Seq<char>,
    state_name: Seq<char>,
    referenced: Seq<Seq<char>>,
) -> spec_fn(Seq<char>) -> bool {
    |f: Seq<char>| !spec_should_prune(f, manifest_name, state_name, referenced)
}

/// Holds of the files that the prune deletes.
pub open spec fn prune_pred(
    manifest_name: Seq<char>,
    state_name: Seq<char>,
    referenced: Seq<Seq<char>>,
) -> spec_fn(Seq<char>) -> bool {
    |f: Seq<char>| spec_should_prune(f, manifest_name, state_name, referenced)
}

/// Whether `f` is one of `names`.
fn contains_name(names: &Vec<String>, f: &String) -> (r: bool)
    ensures
        r == str_views(names@).contains(f@),
{
    let mut i: usize = 0;
    while i < names.len()
        invariant
            i <= names@.len(),
            forall|j: int| 0 <= j < i ==> names@[j]@ != f@,
        decreases names@.len() - i,
    {
        if names[i] == *f {
            proof {
                assert(str_views(names@)[i as int] == f@);
            }
            return true;
        }
        i = i + 1;
    }
    proof {
        assert forall|j: int| 0 <= j < str_views(names@).len() implies str_views(names@)[j]
            != f@ by {
            assert(str_views(names@)[j] == names@[j]@);
        }
    }
    false
}

/// Decides the prune: of the files found in the asset directory, exactly
/// those that are neither the manifest, nor the state file, nor
/// referenced, in the order the directory listed them.
pub fn prune_plan(
    dir_files: &Vec<String>,
    referenced: &Vec<String>,
    manifest_name: &String,
    state_name: &String,
) -> (r: Vec<String>)
    ensures
        str_views(r@) == str_views(dir_files@).filter(
            prune_pred(manifest_name@, state_name@, str_views(referenced@)),
        ),
{
    let ghost pred = prune_pred(manifest_name@, state_name@, str_views(referenced@));
    let mut r: Vec<String> = Vec::new();
    let mut i: usize = 0;
    proof {
        reveal(Seq::filter);
        assert(str_views(r@) =~= str_views(dir_files@.take(0)).filter(pred));
    }
    while i < dir_files.len()
        invariant
            i <= dir_files@.len(),
            str_views(r@) == str_views(dir_files@.take(i as int)).filter(pred),
            pred == prune_pred(manifest_name@, state_name@, str_views(referenced@)),
        decreases dir_files@.len() - i,
    {
        let f = &dir_files[i];
        let is_manifest = *f == *manifest_name;
        let is_state = *f == *state_name;
        let is_referenced = contains_name(referenced, f);
        proof {
            reveal(Seq::filter);
            assert(str_views(dir_files@.take(i as int + 1)).drop_last() =~= str_views(
                dir_files@.take(i as int),
            ));
            assert(str_views(dir_files@.take(i as int + 1)).last() == f@);
        }
        if !is_manifest && !is_state && !is_referenced {
            r.push(f.clone());
            proof {
                assert(pred(f@));
                assert(str_views(r@) =~= str_views(dir_files@.take(i as int)).filter(pred).push(
                    f@,
                ));
            }
        } else {
            proof {
                assert(!pred(f@));
            }
        }
        i = i + 1;
    }
    proof {
        assert(dir_files@.take(dir_files@.len() as int) =~= dir_files@);
    }
    r
}

/// After the prune, the asset directory holds exactly the referenced
/// files plus the manifest and the state file: of the files the directory
/// listed, a file survives if and only if it is the manifest, the state
/// file, or referenced.
pub proof fn lemma_prune_keeps_exactly_referenced(
    files: Seq<Seq<char>>,
    manifest_name: Seq<char>,
    state_name: Seq<char>,
    referenced: Seq<Seq<char>>,
)
    ensures
        forall|f: Seq<char>|
            #[trigger] files.filter(keep_pred(manifest_name, state_name, referenced)).contains(f)
                <==> (files.contains(f) && (f == manifest_name || f == state_name
            || referenced.contains(f))),
{
    let keep = keep_pred(manifest_name, state_name, referenced);
    let survivors = files.filter(keep);
    assert forall|f: Seq<char>| survivors.contains(f) implies (files.contains(f) && (f
        == manifest_name || f == state_name || referenced.contains(f))) by {
        files.lemma_filter_contains_rev(keep, f);
        let i = choose|i: int| 0 <= i < survivors.len() && survivors[i] == f;
        files.lemma_filter_pred(keep, i);
    }
    assert forall|f: Seq<char>| (files.contains(f) && (f == manifest_name || f == state_name
        || referenced.contains(f))) implies survivors.contains(f) by {
        let i = choose|i: int| 0 <= i < files.len() && files[i] == f;
        assert(keep(files[i]));
        files.lemma_filter_contains(keep, i);
    }
}

} // verus!
