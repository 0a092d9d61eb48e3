//! The mount table (`/proc/mounts`): entries and lookups shared by the
//! filesystem and disk metrics.

use vstd::prelude::*;

use crate::strutil::starts_with_spec;
use crate::strutil::str_starts_with;

verus! {

/// One `/proc/mounts` row: device, mount point, and filesystem type.
#[derive(Clone, PartialEq, Eq, Debug)]
pub struct MountEntry {
    /// The mounted device (`fs_spec` column).
    pub fs_spec: String,
    /// The mount point (`fs_file` column).
    pub fs_file: String,
    /// The filesystem type (`fs_vfstype` column).
    pub fs_vfstype: String,
}

/// Mathematical image of a [`MountEntry`].
#[verifier::ext_equal]
pub struct MountEntryV {
    pub fs_spec: Seq<char>,
    pub fs_file: Seq<char>,
    pub fs_vfstype: Seq<char>,
}

impl View for MountEntry {
    type V = MountEntryV;

    open spec fn view(&self) -> MountEntryV {
        MountEntryV {
            fs_spec: self.fs_spec@,
            fs_file: self.fs_file@,
            fs_vfstype: self.fs_vfstype@,
        }
    }
}

impl DeepView for MountEntry {
    type V = MountEntryV;

    open spec fn deep_view(&self) -> MountEntryV {
        self@
    }
}

/// A path under one of the pseudo-filesystem roots that carry no real
/// storage.
pub open spec fn is_pseudo_path(p: Seq<char>) -> bool {
    ||| starts_with_spec(p, "/proc"@)
    ||| starts_with_spec(p, "/sys"@)
    ||| starts_with_spec(p, "/dev"@)
    ||| starts_with_spec(p, "/run"@)
}

/// Exec test for [`is_pseudo_path`].
pub fn is_pseudo(path: &str) -> (r: bool)
    ensures
        r == is_pseudo_path(path@),
{
    str_starts_with(path, "/proc") || str_starts_with(path, "/sys") || str_starts_with(
        path,
        "/dev",
    ) || str_starts_with(path, "/run")
}

/// First mount entry whose mount point is `target`, if any.
pub open spec fn mount_lookup_spec(mounts: Seq<MountEntryV>, target: Seq<char>) -> Option<
    MountEntryV,
>
    decreases mounts.len(),
{
    if mounts.len() == 0 {
        None
    } else if mounts[0].fs_file == target {
        Some(mounts[0])
    } else {
        mount_lookup_spec(mounts.skip(1), target)
    }
}

/// First mount entry whose mount point is `target`, by value.
pub fn mount_lookup(mounts: &Vec<MountEntry>, target: &str) -> (r: Option<MountEntry>)
    ensures
        match r {
            Some(m) => mount_lookup_spec(mounts.deep_view(), target@) == Some(m@),
            None => mount_lookup_spec(mounts.deep_view(), target@) is None,
        },
{
    let n = mounts.len();
    proof {
        assert(mounts.deep_view().skip(0) =~= mounts.deep_view());
    }
    let mut i: usize = 0;
    while i < n
        invariant
            0 <= i <= n,
            n == mounts@.len(),
            mount_lookup_spec(mounts.deep_view(), target@) == mount_lookup_spec(
                mounts.deep_view().skip(i as int),
                target@,
            ),
        decreases n - i,
    {
        proof {
            assert(mounts.deep_view().skip(i as int)[0] == mounts.deep_view()[i as int]);
            assert(mounts.deep_view().skip(i as int).skip(1) =~= mounts.deep_view().skip(i + 1));
        }
        if crate::registry::str_eq(mounts[i].fs_file.as_str(), target) {
            let m = &mounts[i];
            let copy = MountEntry {
                fs_spec: m.fs_spec.clone(),
                fs_file: m.fs_file.clone(),
                fs_vfstype: m.fs_vfstype.clone(),
            };
            proof {
                assert(copy@ =~~= mounts.deep_view()[i as int]);
            }
            return Some(copy);
        }
        i += 1;
    }
    proof {
        assert(mounts.deep_view().skip(n as int) =~= Seq::<MountEntryV>::empty());
    }
    None
}

} // verus!
