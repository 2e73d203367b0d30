use vstd::prelude::*;
use crate::swap::FileRole;

verus! {

/// The residue of an interrupted or finished swap that start-up removes:
/// the old binary and the in-progress marker.
pub open spec fn stale_roles() -> Seq<FileRole> {
    seq![FileRole::Backup, FileRole::Marker]
}

/// `fs` after removing each of `roles` in turn; removing an absent file
/// changes nothing.
pub open spec fn remove_all(fs: Map<FileRole, Seq<u8>>, roles: Seq<FileRole>) -> Map<
    FileRole,
    Seq<u8>,
>
    decreases roles.len(),
{
    if roles.len() == 0 {
        fs
    } else {
        remove_all(fs.remove(roles[0]), roles.skip(1))
    }
}

/// The files once start-up recovery has run.
pub open spec fn cleanup(fs: Map<FileRole, Seq<u8>>) -> Map<FileRole, Seq<u8>> {
    remove_all(fs, stale_roles())
}

/// The files that start-up recovery removes, in order. Each removal is best
/// effort: a file that is absent or cannot be removed is no error.
pub fn stale_files() -> (r: Vec<FileRole>)
    ensures
        r@ == stale_roles(),
{
    let mut r: Vec<FileRole> = Vec::new();
    r.push(FileRole::Backup);
    r.push(FileRole::Marker);
    assert(r@ =~= stale_roles());
    r
}

proof fn lemma_cleanup_is_removal(fs: Map<FileRole, Seq<u8>>)
    ensures
        cleanup(fs) == fs.remove(FileRole::Backup).remove(FileRole::Marker),
{
    let roles = stale_roles();
    assert(roles.skip(1) =~= seq![FileRole::Marker]);
    assert(roles.skip(1).skip(1) =~= Seq::<FileRole>::empty());
    let fs1 = fs.remove(FileRole::Backup);
    let fs2 = fs1.remove(FileRole::Marker);
    assert(remove_all(fs2, roles.skip(1).skip(1)) == fs2);
    assert(remove_all(fs1, roles.skip(1)) == fs2);
    assert(remove_all(fs, roles) == fs2);
}

/// After start-up recovery neither the old binary nor the marker is left, and
/// the executable at its canonical path is as it was.
pub proof fn lemma_cleanup_clears_residue(fs: Map<FileRole, Seq<u8>>)
    ensures
        !cleanup(fs).contains_key(FileRole::Backup),
        !cleanup(fs).contains_key(FileRole::Marker),
        cleanup(fs).contains_key(FileRole::Executable) == fs.contains_key(FileRole::Executable),
        fs.contains_key(FileRole::Executable) ==> cleanup(fs)[FileRole::Executable]
            == fs[FileRole::Executable],
{
    lemma_cleanup_is_removal(fs);
}

/// Start-up recovery run twice does what it does once, and where no residue
/// is present it changes nothing.
pub proof fn lemma_cleanup_idempotent(fs: Map<FileRole, Seq<u8>>)
    ensures
        cleanup(cleanup(fs)) == cleanup(fs),
        !fs.contains_key(FileRole::Backup) && !fs.contains_key(FileRole::Marker) ==> cleanup(fs)
            == fs,
{
    lemma_cleanup_is_removal(fs);
    lemma_cleanup_is_removal(cleanup(fs));
    assert(cleanup(cleanup(fs)) =~= cleanup(fs));
    if !fs.contains_key(FileRole::Backup) && !fs.contains_key(FileRole::Marker) {
        assert(cleanup(fs) =~= fs);
    }
}

} // verus!
