//! Archive installation into the cache: extraction is always into a fresh
//! destination — any stale inner directory is removed first, and the
//! platform metadata directory an archive may carry is removed afterwards.
//! The plan's net effect on a filesystem is modelled as a map from absolute
//! paths to file contents, and is proved idempotent: running the same plan
//! twice leaves exactly the tree one run leaves, never a merge of old and
//! new contents.

use vstd::prelude::*;
use crate::action::Action;
use crate::strings;

verus! {

/// The path of `child` directly under `base`.
pub open spec fn path_of(base: Seq<char>, child: Seq<char>) -> Seq<char> {
    base + seq!['/'] + child
}

/// Whether `p` is the path `dir` itself or lies below it.
pub open spec fn within(dir: Seq<char>, p: Seq<char>) -> bool {
    ||| p == dir
    ||| (p.len() > dir.len() && p.take(dir.len() as int) == dir && p[dir.len() as int] == '/')
}

/// A filesystem fragment: absolute file paths and their contents.
pub type FsModel = Map<Seq<char>, Seq<u8>>;

/// Recursive removal of the directory `dir`.
pub open spec fn remove_under(fs: FsModel, dir: Seq<char>) -> FsModel {
    Map::new(|p: Seq<char>| fs.dom().contains(p) && !within(dir, p), |p: Seq<char>| fs[p])
}

/// One action's effect on a filesystem; `unzip_files` is whatever file set
/// the archive extraction writes (absolute paths). Actions that do not touch
/// the modelled tree leave it unchanged.
pub open spec fn apply_action(fs: FsModel, a: Action, unzip_files: FsModel) -> FsModel {
    match a {
        Action::RemoveDir { path } => remove_under(fs, path@),
        Action::RemoveDirIfExists { path } => remove_under(fs, path@),
        Action::Unzip { archive, dest } => fs.union_prefer_right(unzip_files),
        _ => fs,
    }
}

/// The effect of a list of actions, applied in order.
pub open spec fn apply_plan(fs: FsModel, plan: Seq<Action>, unzip_files: FsModel) -> FsModel
    decreases plan.len(),
{
    if plan.len() == 0 {
        fs
    } else {
        apply_plan(apply_action(fs, plan[0], unzip_files), plan.drop_first(), unzip_files)
    }
}

/// The net effect of one archive install: the stale inner directory gone,
/// the archive's files written, the platform metadata directory gone.
pub open spec fn install_effect(
    fs: FsModel,
    files: FsModel,
    inner: Seq<char>,
    macosx: Seq<char>,
) -> FsModel {
    remove_under(remove_under(fs, inner).union_prefer_right(files), macosx)
}

/// The exact shape of the plan `extract_zip_plan` produces.
pub open spec fn is_extract_plan(
    plan: Seq<Action>,
    archive: Seq<char>,
    dest_root: Seq<char>,
    inner_dir: Seq<char>,
    inner_exists: bool,
) -> bool {
    &&& plan.len() == if inner_exists {
        3int
    } else {
        2int
    }
    &&& (inner_exists ==> (plan[0] matches Action::RemoveDir { path } && path@ == path_of(
        dest_root,
        inner_dir,
    )))
    &&& (if inner_exists {
        plan[1]
    } else {
        plan[0]
    }) matches Action::Unzip { archive: a, dest: d } && a@ == archive && d@ == dest_root
    &&& (if inner_exists {
        plan[2]
    } else {
        plan[1]
    }) matches Action::RemoveDirIfExists { path } && path@ == path_of(
        dest_root,
        strings::ZIP_MACOSX_METADATA_FOLDER@,
    )
}

/// Plans the installation of one archive into `dest_root`: if the archive's
/// inner directory is already there it is removed first — extraction always
/// produces a fresh copy, never a merge — and any platform metadata
/// directory is removed afterwards.
pub fn extract_zip_plan(
    archive: &str,
    dest_root: &str,
    inner_dir: &str,
    inner_exists: bool,
) -> (plan: Vec<Action>)
    ensures
        is_extract_plan(plan@, archive@, dest_root@, inner_dir@, inner_exists),
{
    proof {
        reveal_strlit("/");
        assert("/"@ =~= seq!['/']);
    }
    let mut plan: Vec<Action> = Vec::new();
    if inner_exists {
        plan.push(Action::RemoveDir { path: strings::path_join(dest_root, inner_dir) });
    }
    plan.push(
        Action::Unzip { archive: archive.to_owned(), dest: dest_root.to_owned() },
    );
    plan.push(
        Action::RemoveDirIfExists {
            path: strings::path_join(dest_root, strings::ZIP_MACOSX_METADATA_FOLDER),
        },
    );
    plan
}

/// An extraction plan realizes `install_effect` on any filesystem, for
/// whatever file set the archive extracts, provided the reported existence
/// of the inner directory was truthful when it said "absent".
pub proof fn lemma_extract_plan_effect(
    fs: FsModel,
    plan: Seq<Action>,
    files: FsModel,
    archive: Seq<char>,
    dest_root: Seq<char>,
    inner_dir: Seq<char>,
    inner_exists: bool,
)
    requires
        is_extract_plan(plan, archive, dest_root, inner_dir, inner_exists),
        !inner_exists ==> (forall|p: Seq<char>|
            fs.dom().contains(p) ==> !within(path_of(dest_root, inner_dir), p)),
    ensures
        apply_plan(fs, plan, files) == install_effect(
            fs,
            files,
            path_of(dest_root, inner_dir),
            path_of(dest_root, strings::ZIP_MACOSX_METADATA_FOLDER@),
        ),
{
    let inner = path_of(dest_root, inner_dir);
    let macosx = path_of(dest_root, strings::ZIP_MACOSX_METADATA_FOLDER@);
    if inner_exists {
        let fs1 = apply_action(fs, plan[0], files);
        let fs2 = apply_action(fs1, plan[1], files);
        let fs3 = apply_action(fs2, plan[2], files);
        assert(apply_plan(fs, plan, files) == fs3) by {
            reveal_with_fuel(apply_plan, 4);
            assert(plan.drop_first().drop_first().drop_first().len() == 0);
        }
        assert(fs3 == install_effect(fs, files, inner, macosx));
    } else {
        let fs1 = apply_action(fs, plan[0], files);
        let fs2 = apply_action(fs1, plan[1], files);
        assert(apply_plan(fs, plan, files) == fs2) by {
            reveal_with_fuel(apply_plan, 3);
            assert(plan.drop_first().drop_first().len() == 0);
        }
        assert(remove_under(fs, inner) =~= fs);
        assert(fs2 == install_effect(fs, files, inner, macosx));
    }
}

/// Law: running the extraction plan a second time — with the inner
/// directory's existence re-checked truthfully — leaves exactly the tree the
/// first run left.
pub proof fn lemma_extract_plan_idempotent(
    fs: FsModel,
    plan1: Seq<Action>,
    plan2: Seq<Action>,
    files: FsModel,
    archive: Seq<char>,
    dest_root: Seq<char>,
    inner_dir: Seq<char>,
    exists1: bool,
    exists2: bool,
)
    requires
        is_extract_plan(plan1, archive, dest_root, inner_dir, exists1),
        is_extract_plan(plan2, archive, dest_root, inner_dir, exists2),
        !exists1 ==> (forall|p: Seq<char>|
            fs.dom().contains(p) ==> !within(path_of(dest_root, inner_dir), p)),
        !exists2 ==> (forall|p: Seq<char>|
            apply_plan(fs, plan1, files).dom().contains(p) ==> !within(
                path_of(dest_root, inner_dir),
                p,
            )),
    ensures
        apply_plan(apply_plan(fs, plan1, files), plan2, files) == apply_plan(fs, plan1, files),
{
    let inner = path_of(dest_root, inner_dir);
    let macosx = path_of(dest_root, strings::ZIP_MACOSX_METADATA_FOLDER@);
    lemma_extract_plan_effect(fs, plan1, files, archive, dest_root, inner_dir, exists1);
    lemma_extract_plan_effect(
        apply_plan(fs, plan1, files),
        plan2,
        files,
        archive,
        dest_root,
        inner_dir,
        exists2,
    );
    lemma_install_effect_idempotent(fs, files, inner, macosx);
}

/// Law: installing the same archive into the same destination twice leaves
/// exactly the tree one install leaves; below the inner directory the result
/// is the archive's fresh contents, independent of what was there before;
/// and no platform metadata directory survives.
pub proof fn lemma_install_effect_idempotent(
    fs: FsModel,
    files: FsModel,
    inner: Seq<char>,
    macosx: Seq<char>,
)
    ensures
        install_effect(install_effect(fs, files, inner, macosx), files, inner, macosx)
            == install_effect(fs, files, inner, macosx),
        forall|p: Seq<char>|
            within(macosx, p) ==> !install_effect(fs, files, inner, macosx).dom().contains(p),
        forall|p: Seq<char>|
            within(inner, p) && !within(macosx, p) ==> (install_effect(
                fs,
                files,
                inner,
                macosx,
            ).dom().contains(p) <==> files.dom().contains(p)),
        forall|p: Seq<char>|
            within(inner, p) && !within(macosx, p) && files.dom().contains(p)
                ==> install_effect(fs, files, inner, macosx)[p] == files[p],
{
    let once = install_effect(fs, files, inner, macosx);
    let twice = install_effect(once, files, inner, macosx);
    assert(twice =~= once);
}

} // verus!
