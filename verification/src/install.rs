//! Installation into the game directory: validating the target, the
//! fixed paths the installer touches, and a file-set model of the mods
//! install sequence proving that the managed subtree it leaves behind
//! depends only on the staged content — never on what was there before.

use vstd::prelude::*;

use crate::errors::ApplyError;

verus! {

/// Passes exactly when the marker executable was found directly under
/// the game path; any other directory is rejected before anything is
/// touched.
pub fn validate_game_path(marker_exists: bool) -> (r: Result<(), ApplyError>)
    ensures
        r is Ok <==> marker_exists,
        r matches Err(e) ==> e is InvalidGamePath,
{
    if marker_exists {
        Ok(())
    } else {
        Err(ApplyError::InvalidGamePath)
    }
}

/// The marker whose presence makes a directory a valid game
/// installation.
pub open spec fn marker_path_spec(game: Seq<char>) -> Seq<char> {
    game + "/Titanfall2.exe"@
}

/// The directory this tool exclusively owns inside the game
/// installation.
pub open spec fn managed_dir_path_spec(game: Seq<char>) -> Seq<char> {
    game + "/R2Northstar-PR-test-managed-folder"@
}

/// Where the staged mods content is placed inside the managed subtree.
pub open spec fn mods_dest_path_spec(game: Seq<char>) -> Seq<char> {
    managed_dir_path_spec(game) + "/mods"@
}

/// The helper script written beside the game binary.
pub open spec fn batch_file_path_spec(game: Seq<char>) -> Seq<char> {
    game + "/r2ns-launch-mod-pr-version.bat"@
}

/// The helper script's fixed content: it starts the launcher with a
/// profile argument pointing at the managed subtree.
pub open spec fn batch_file_content_spec() -> Seq<char> {
    "NorthstarLauncher.exe -profile=R2Northstar-PR-test-managed-folder\r\n"@
}

/// Builds the marker executable's path under the game path.
pub fn marker_path(game: &String) -> (p: String)
    ensures
        p@ == marker_path_spec(game@),
{
    game.clone().concat("/Titanfall2.exe")
}

/// Builds the managed subtree's path under the game path.
pub fn managed_dir_path(game: &String) -> (p: String)
    ensures
        p@ == managed_dir_path_spec(game@),
{
    game.clone().concat("/R2Northstar-PR-test-managed-folder")
}

/// Builds the destination of staged mods content.
pub fn mods_dest_path(game: &String) -> (p: String)
    ensures
        p@ == mods_dest_path_spec(game@),
{
    let p = game.clone().concat("/R2Northstar-PR-test-managed-folder/mods");
    proof {
        reveal_strlit("/R2Northstar-PR-test-managed-folder/mods");
        reveal_strlit("/R2Northstar-PR-test-managed-folder");
        reveal_strlit("/mods");
        assert(p@ =~= mods_dest_path_spec(game@));
    }
    p
}

/// Builds the helper script's path under the game path.
pub fn batch_file_path(game: &String) -> (p: String)
    ensures
        p@ == batch_file_path_spec(game@),
{
    game.clone().concat("/r2ns-launch-mod-pr-version.bat")
}

/// The helper script's content.
pub fn batch_file_content() -> (s: String)
    ensures
        s@ == batch_file_content_spec(),
{
    String::from_str("NorthstarLauncher.exe -profile=R2Northstar-PR-test-managed-folder\r\n")
}

// ---------------------------------------------------------------------
// A file-set model of the mods install sequence.
//
// A file system is modelled as the set of paths of the files it holds.
// The mods install performs, in order: delete the managed subtree, copy
// the staged tree to the mods destination, delete the staging tree, and
// write the helper script.
// ---------------------------------------------------------------------

/// `pre` followed by the separator is a prefix of `p`: the file at `p`
/// lies somewhere under the directory `pre`.
pub open spec fn has_prefix(p: Seq<char>, pre: Seq<char>) -> bool {
    p.len() >= pre.len() && p.take(pre.len() as int) == pre
}

/// The file at `p` lies under the directory `d`.
pub open spec fn in_dir(p: Seq<char>, d: Seq<char>) -> bool {
    has_prefix(p, d + "/"@)
}

/// The files of `fs` lying under the directory `d`.
pub open spec fn subtree(fs: Set<Seq<char>>, d: Seq<char>) -> Set<Seq<char>> {
    Set::new(|p: Seq<char>| fs.contains(p) && in_dir(p, d))
}

/// Deleting the directory `d`: every file under it disappears.
pub open spec fn remove_tree(fs: Set<Seq<char>>, d: Seq<char>) -> Set<Seq<char>> {
    Set::new(|p: Seq<char>| fs.contains(p) && !in_dir(p, d))
}

/// Copying a staged tree (a set of relative file paths) under `dst`.
pub open spec fn place_tree(fs: Set<Seq<char>>, staged: Set<Seq<char>>, dst: Seq<char>) -> Set<
    Seq<char>,
> {
    Set::new(
        |p: Seq<char>|
            fs.contains(p) || exists|q: Seq<char>| staged.contains(q) && p == dst + "/"@ + q,
    )
}

/// Writing one file.
pub open spec fn write_file(fs: Set<Seq<char>>, p: Seq<char>) -> Set<Seq<char>> {
    fs.insert(p)
}

/// Neither directory lies under the other, so deleting one cannot touch
/// files of the other.
pub open spec fn dirs_disjoint(a: Seq<char>, b: Seq<char>) -> bool {
    !has_prefix(a + "/"@, b + "/"@) && !has_prefix(b + "/"@, a + "/"@)
}

/// The whole mods install sequence, applied to a file set: delete the
/// managed subtree, place the staged tree at the mods destination,
/// delete the staging tree at `staging_root`, write the helper script.
pub open spec fn install_mods_effect(
    fs: Set<Seq<char>>,
    game: Seq<char>,
    staged: Set<Seq<char>>,
    staging_root: Seq<char>,
) -> Set<Seq<char>> {
    write_file(
        remove_tree(
            place_tree(
                remove_tree(fs, managed_dir_path_spec(game)),
                staged,
                mods_dest_path_spec(game),
            ),
            staging_root,
        ),
        batch_file_path_spec(game),
    )
}

/// The managed subtree that holds exactly the staged files, re-rooted at
/// the mods destination.
pub open spec fn placed_mods(game: Seq<char>, staged: Set<Seq<char>>) -> Set<Seq<char>> {
    Set::new(
        |p: Seq<char>|
            exists|q: Seq<char>| staged.contains(q) && p == mods_dest_path_spec(game) + "/"@ + q,
    )
}

/// Two prefixes of one path are ordered: the shorter is a prefix of the
/// longer.
proof fn lemma_prefix_of_prefix(p: Seq<char>, a: Seq<char>, b: Seq<char>)
    requires
        has_prefix(p, a),
        has_prefix(p, b),
        a.len() <= b.len(),
    ensures
        b.len() >= a.len() && b.take(a.len() as int) == a,
{
    assert(b.take(a.len() as int) =~= p.take(b.len() as int).take(a.len() as int));
    assert(p.take(b.len() as int).take(a.len() as int) =~= p.take(a.len() as int));
}

/// The helper script does not lie inside the managed subtree: its name
/// is shorter than the managed directory's own prefix.
proof fn lemma_batch_not_in_managed(game: Seq<char>)
    ensures
        !in_dir(batch_file_path_spec(game), managed_dir_path_spec(game)),
{
    reveal_strlit("/r2ns-launch-mod-pr-version.bat");
    reveal_strlit("/R2Northstar-PR-test-managed-folder");
    reveal_strlit("/");
    assert(batch_file_path_spec(game).len() < (managed_dir_path_spec(game) + "/"@).len());
}

/// Every placed file lies under the managed directory.
proof fn lemma_placed_in_managed(game: Seq<char>, staged: Set<Seq<char>>, p: Seq<char>)
    requires
        placed_mods(game, staged).contains(p),
    ensures
        in_dir(p, managed_dir_path_spec(game)),
{
    reveal_strlit("/mods");
    reveal_strlit("/");
    let d = managed_dir_path_spec(game);
    let q = choose|q: Seq<char>|
        staged.contains(q) && p == mods_dest_path_spec(game) + "/"@ + q;
    assert(p.take((d + "/"@).len() as int) =~= d + "/"@);
}

/// The managed subtree after a mods install holds exactly the staged
/// files re-rooted at the mods destination, whatever the file set held
/// before. The staging tree must not overlap the managed directory,
/// which the pipeline guarantees by staging outside the game path.
pub proof fn lemma_install_mods_managed_subtree(
    fs: Set<Seq<char>>,
    game: Seq<char>,
    staged: Set<Seq<char>>,
    staging_root: Seq<char>,
)
    requires
        dirs_disjoint(staging_root, managed_dir_path_spec(game)),
    ensures
        subtree(install_mods_effect(fs, game, staged, staging_root), managed_dir_path_spec(game))
            == placed_mods(game, staged),
{
    let d = managed_dir_path_spec(game);
    let result = subtree(install_mods_effect(fs, game, staged, staging_root), d);
    assert forall|p: Seq<char>| result.contains(p) implies placed_mods(game, staged).contains(
        p,
    ) by {
        lemma_batch_not_in_managed(game);
        if in_dir(p, staging_root) {
            if staging_root.len() <= d.len() {
                lemma_prefix_of_prefix(p, staging_root + "/"@, d + "/"@);
            } else {
                lemma_prefix_of_prefix(p, d + "/"@, staging_root + "/"@);
            }
        }
    }
    assert forall|p: Seq<char>| placed_mods(game, staged).contains(p) implies result.contains(
        p,
    ) by {
        lemma_placed_in_managed(game, staged, p);
        if in_dir(p, staging_root) {
            if staging_root.len() <= d.len() {
                lemma_prefix_of_prefix(p, staging_root + "/"@, d + "/"@);
            } else {
                lemma_prefix_of_prefix(p, d + "/"@, staging_root + "/"@);
            }
        }
    }
    assert(result =~= placed_mods(game, staged));
}

/// Running the mods install twice with identical staged content leaves a
/// managed subtree with the same final file set both times, whatever
/// lay there before either run: there is no nested duplication.
pub proof fn lemma_install_mods_idempotent(
    fs: Set<Seq<char>>,
    game: Seq<char>,
    staged: Set<Seq<char>>,
    staging_root: Seq<char>,
)
    requires
        dirs_disjoint(staging_root, managed_dir_path_spec(game)),
    ensures
        subtree(
            install_mods_effect(
                install_mods_effect(fs, game, staged, staging_root),
                game,
                staged,
                staging_root,
            ),
            managed_dir_path_spec(game),
        ) == subtree(
            install_mods_effect(fs, game, staged, staging_root),
            managed_dir_path_spec(game),
        ),
{
    lemma_install_mods_managed_subtree(fs, game, staged, staging_root);
    lemma_install_mods_managed_subtree(
        install_mods_effect(fs, game, staged, staging_root),
        game,
        staged,
        staging_root,
    );
}

} // verus!
