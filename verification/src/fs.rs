//! Filesystem usage for one mount point.
//!
//! A `statvfs` reading gives block counts and sizes; the mount table
//! supplies the filesystem type and device, first by exact mount-point
//! match and otherwise by walking the path's ancestors.  All products
//! saturate, and a zero-sized filesystem yields a usage ratio of 0.

use vstd::prelude::*;
use vstd::string::StrSliceExecFns;

use crate::delta::cap_mul;
use crate::mounts::mount_lookup;
use crate::mounts::mount_lookup_spec;
use crate::mounts::MountEntry;
use crate::mounts::MountEntryV;
use crate::registry::ratio_or_zero;
use crate::registry::MetricValue;

verus! {

/// One raw `statvfs` reading for a mount point.
#[derive(Clone, Copy, PartialEq, Eq, Structural, Debug)]
pub struct RawFsStat {
    pub block_size: u64,
    pub fragment_size: u64,
    pub blocks: u64,
    pub blocks_free: u64,
    pub blocks_available: u64,
}

/// Error of [`FilesystemUsage::from_parts`].
#[derive(Clone, Copy, PartialEq, Eq, Structural, Debug)]
pub enum FsError {
    /// No mount-table entry covers the mount point.
    NoMountFound,
}

/// Filesystem usage information for a specific mount point.
#[derive(Clone, PartialEq, Eq, Debug)]
pub struct FilesystemUsage {
    /// The mount point path.
    pub mount_point: String,
    /// Total size of the filesystem in bytes.
    pub total_bytes: u64,
    /// Used space in bytes.
    pub used_bytes: u64,
    /// Available space in bytes.
    pub available_bytes: u64,
    /// Usage as an exact ratio in [0, 1].
    pub usage_ratio: MetricValue,
    /// Reserved space in bytes (typically for the root user).
    pub reserved_bytes: u64,
    /// Filesystem type (e.g. `ext4`, `xfs`, `btrfs`).
    pub fs_type: String,
    /// Device name.
    pub device: String,
}

/// The block size that applies: the fragment size when it is set,
/// otherwise the block size.
pub open spec fn effective_size_spec(raw: RawFsStat) -> u64 {
    if raw.fragment_size > 0 {
        raw.fragment_size
    } else {
        raw.block_size
    }
}

/// Total bytes of the filesystem (saturating).
pub open spec fn total_bytes_spec(raw: RawFsStat) -> u64 {
    cap_mul(raw.blocks, effective_size_spec(raw))
}

/// Free bytes of the filesystem (saturating).
pub open spec fn free_bytes_spec(raw: RawFsStat) -> u64 {
    cap_mul(raw.blocks_free, effective_size_spec(raw))
}

/// Bytes available to unprivileged users (saturating).
pub open spec fn available_bytes_spec(raw: RawFsStat) -> u64 {
    cap_mul(raw.blocks_available, effective_size_spec(raw))
}

/// Bytes reserved for the root user: free minus available, clamped.
pub open spec fn reserved_bytes_spec(raw: RawFsStat) -> u64 {
    if available_bytes_spec(raw) <= free_bytes_spec(raw) {
        (free_bytes_spec(raw) - available_bytes_spec(raw)) as u64
    } else {
        0
    }
}

/// Used bytes: total minus free, clamped.
pub open spec fn used_bytes_spec(raw: RawFsStat) -> u64 {
    if free_bytes_spec(raw) <= total_bytes_spec(raw) {
        (total_bytes_spec(raw) - free_bytes_spec(raw)) as u64
    } else {
        0
    }
}

/// The path prefixes that are ancestors of `path`, longest first,
/// considering positions `j` and below: one candidate `path.take(j)`
/// for every separator at `j >= 1`, and the root `/` itself when the
/// path is absolute.
pub open spec fn ancestors_from(path: Seq<char>, j: int) -> Seq<Seq<char>>
    decreases j,
{
    if j <= 0 {
        if path.len() > 0 && path[0] == '/' {
            seq![seq!['/']]
        } else {
            Seq::empty()
        }
    } else if path[j] == '/' {
        seq![path.take(j)] + ancestors_from(path, j - 1)
    } else {
        ancestors_from(path, j - 1)
    }
}

/// All proper ancestors of `path`, longest first.
pub open spec fn ancestors_of(path: Seq<char>) -> Seq<Seq<char>> {
    if path.len() == 0 {
        Seq::empty()
    } else {
        ancestors_from(path, path.len() - 1)
    }
}

/// First mount entry found for any of the candidate paths, in order.
pub open spec fn ancestor_lookup_spec(mounts: Seq<MountEntryV>, cands: Seq<Seq<char>>) -> Option<
    MountEntryV,
>
    decreases cands.len(),
{
    if cands.len() == 0 {
        None
    } else {
        match mount_lookup_spec(mounts, cands[0]) {
            Some(m) => Some(m),
            None => ancestor_lookup_spec(mounts, cands.skip(1)),
        }
    }
}

/// The mount entry that covers `mp`: the exact mount-point match if
/// one exists, otherwise the entry of the nearest ancestor.
pub open spec fn fs_info_spec(mounts: Seq<MountEntryV>, mp: Seq<char>) -> Option<MountEntryV> {
    match mount_lookup_spec(mounts, mp) {
        Some(m) => Some(m),
        None => ancestor_lookup_spec(mounts, ancestors_of(mp)),
    }
}

/// Find the mount entry covering `mount_point`, walking ancestors when
/// no exact match exists.
pub fn fs_info_for(mounts: &Vec<MountEntry>, mount_point: &str) -> (r: Option<MountEntry>)
    ensures
        match r {
            Some(m) => fs_info_spec(mounts.deep_view(), mount_point@) == Some(m@),
            None => fs_info_spec(mounts.deep_view(), mount_point@) is None,
        },
{
    let ghost mounts_v = mounts.deep_view();
    let direct = mount_lookup(mounts, mount_point);
    if let Some(m) = direct {
        return Some(m);
    }
    let len = mount_point.unicode_len();
    if len == 0 {
        return None;
    }
    let mut j: usize = len - 1;
    while j > 0
        invariant
            0 <= j <= len - 1,
            len == mount_point@.len(),
            len >= 1,
            mounts_v == mounts.deep_view(),
            mount_lookup_spec(mounts_v, mount_point@) is None,
            ancestor_lookup_spec(mounts_v, ancestors_of(mount_point@)) == ancestor_lookup_spec(
                mounts_v,
                ancestors_from(mount_point@, j as int),
            ),
        decreases j,
    {
        if mount_point.get_char(j) == '/' {
            let cand = mount_point.substring_char(0, j);
            proof {
                assert(cand@ =~= mount_point@.take(j as int));
                assert(ancestors_from(mount_point@, j as int) == seq![
                    mount_point@.take(j as int),
                ] + ancestors_from(mount_point@, j - 1));
                assert(ancestors_from(mount_point@, j as int)[0]
                    == mount_point@.take(j as int));
                assert(ancestors_from(mount_point@, j as int).skip(1) =~~= ancestors_from(
                    mount_point@,
                    j - 1,
                ));
            }
            let found = mount_lookup(mounts, cand);
            if let Some(m) = found {
                return Some(m);
            }
        }
        j -= 1;
    }
    // j == 0: the last candidate is the root, for absolute paths.
    if mount_point.get_char(0) == '/' {
        proof {
            reveal_strlit("/");
            assert("/"@ =~= seq!['/']);
            assert(ancestors_from(mount_point@, 0) == seq![seq!['/']]);
            assert(ancestors_from(mount_point@, 0)[0] == seq!['/']);
            assert(ancestors_from(mount_point@, 0).skip(1) =~~= Seq::<Seq<char>>::empty());
        }
        let found = mount_lookup(mounts, "/");
        if let Some(m) = found {
            return Some(m);
        }
        proof {
            let cands = ancestors_from(mount_point@, 0);
            assert(cands == seq![seq!['/']]);
            assert(mount_lookup_spec(mounts_v, cands[0]) is None);
            assert(cands.skip(1) =~= Seq::<Seq<char>>::empty());
            assert(ancestor_lookup_spec(mounts_v, cands.skip(1)) is None);
            assert(ancestor_lookup_spec(mounts_v, cands) is None);
        }
        return None;
    }
    proof {
        assert(ancestors_from(mount_point@, 0) =~~= Seq::<Seq<char>>::empty());
    }
    None
}

impl FilesystemUsage {
    /// The usage figures are internally consistent: the ratio is a
    /// well-formed fraction no greater than one.
    pub open spec fn wf(&self) -> bool {
        &&& self.usage_ratio.den >= 1
        &&& self.usage_ratio.num <= self.usage_ratio.den
    }

    /// Derive the usage for `mount_point` from one raw `statvfs`
    /// reading and the mount table.  Fails exactly when no mount-table
    /// entry covers the mount point.
    pub fn from_parts(mount_point: &str, raw: RawFsStat, mounts: &Vec<MountEntry>) -> (r: Result<
        FilesystemUsage,
        FsError,
    >)
        ensures
            match r {
                Ok(u) => {
                    &&& fs_info_spec(mounts.deep_view(), mount_point@) is Some
                    &&& u.mount_point@ == mount_point@
                    &&& u.total_bytes == total_bytes_spec(raw)
                    &&& u.used_bytes == used_bytes_spec(raw)
                    &&& u.available_bytes == available_bytes_spec(raw)
                    &&& u.usage_ratio == ratio_or_zero(used_bytes_spec(raw), total_bytes_spec(raw))
                    &&& u.reserved_bytes == reserved_bytes_spec(raw)
                    &&& u.fs_type@ == fs_info_spec(
                        mounts.deep_view(),
                        mount_point@,
                    ).unwrap().fs_vfstype
                    &&& u.device@ == fs_info_spec(mounts.deep_view(), mount_point@).unwrap().fs_spec
                    &&& u.wf()
                },
                Err(FsError::NoMountFound) => fs_info_spec(mounts.deep_view(), mount_point@)
                    is None,
            },
    {
        let effective_size = if raw.fragment_size > 0 {
            raw.fragment_size
        } else {
            raw.block_size
        };
        let total_bytes = crate::delta::sat_mul(raw.blocks, effective_size);
        let free_bytes = crate::delta::sat_mul(raw.blocks_free, effective_size);
        let available_bytes = crate::delta::sat_mul(raw.blocks_available, effective_size);
        let reserved_bytes = free_bytes.saturating_sub(available_bytes);
        let used_bytes = total_bytes.saturating_sub(free_bytes);
        let usage_ratio = if total_bytes == 0 {
            MetricValue { num: 0, den: 1 }
        } else {
            MetricValue { num: used_bytes, den: total_bytes }
        };
        let info = fs_info_for(mounts, mount_point);
        match info {
            None => Err(FsError::NoMountFound),
            Some(m) => Ok(
                FilesystemUsage {
                    mount_point: mount_point.to_owned(),
                    total_bytes,
                    used_bytes,
                    available_bytes,
                    usage_ratio,
                    reserved_bytes,
                    fs_type: m.fs_vfstype,
                    device: m.fs_spec,
                },
            ),
        }
    }

    /// The free fraction: one minus the usage ratio, over the same
    /// denominator.
    pub fn free_ratio(&self) -> (r: MetricValue)
        requires
            self.wf(),
        ensures
            r.num == self.usage_ratio.den - self.usage_ratio.num,
            r.den == self.usage_ratio.den,
            r.num <= r.den,
            r.den >= 1,
    {
        MetricValue {
            num: self.usage_ratio.den - self.usage_ratio.num,
            den: self.usage_ratio.den,
        }
    }
}

/// The device columns (`fs_spec`) of the mount entries that are not
/// under a pseudo-filesystem root, in table order: the candidates a
/// whole-table scan visits.
pub open spec fn scan_candidates_spec(mounts: Seq<MountEntryV>) -> Seq<Seq<char>>
    decreases mounts.len(),
{
    if mounts.len() == 0 {
        Seq::empty()
    } else {
        let rest = scan_candidates_spec(mounts.skip(1));
        if is_pseudo_device(mounts[0]) {
            rest
        } else {
            seq![mounts[0].fs_spec] + rest
        }
    }
}

/// Whether the entry's device column lies under a pseudo-filesystem
/// root.  The whole-table scan deliberately filters on the device
/// column, not the mount point.
pub open spec fn is_pseudo_device(m: MountEntryV) -> bool {
    crate::mounts::is_pseudo_path(m.fs_spec)
}

/// The device columns of all mounts outside the pseudo-filesystem
/// roots, for a whole-table usage scan.
pub fn scan_candidates(mounts: &Vec<MountEntry>) -> (r: Vec<String>)
    ensures
        r.deep_view() == scan_candidates_spec(mounts.deep_view()),
{
    let ghost mounts_v = mounts.deep_view();
    let n = mounts.len();
    let mut out: Vec<String> = Vec::new();
    proof {
        assert(mounts_v.skip(0) =~= mounts_v);
        assert(out.deep_view() =~~= Seq::<Seq<char>>::empty());
        assert(out.deep_view() + scan_candidates_spec(mounts_v) =~~= scan_candidates_spec(
            mounts_v,
        ));
    }
    let mut i: usize = 0;
    while i < n
        invariant
            0 <= i <= n,
            n == mounts@.len(),
            mounts_v == mounts.deep_view(),
            scan_candidates_spec(mounts_v) == out.deep_view() + scan_candidates_spec(
                mounts_v.skip(i as int),
            ),
        decreases n - i,
    {
        proof {
            assert(mounts_v.skip(i as int)[0] == mounts_v[i as int]);
            assert(mounts_v.skip(i as int).skip(1) =~= mounts_v.skip(i + 1));
        }
        if !crate::mounts::is_pseudo(mounts[i].fs_spec.as_str()) {
            let ghost out0 = out.deep_view();
            out.push(mounts[i].fs_spec.clone());
            proof {
                assert(out.deep_view() =~~= out0.push(mounts_v[i as int].fs_spec));
                assert(out0.push(mounts_v[i as int].fs_spec) + scan_candidates_spec(
                    mounts_v.skip(i + 1),
                ) =~~= out0 + (seq![mounts_v[i as int].fs_spec] + scan_candidates_spec(
                    mounts_v.skip(i + 1),
                )));
            }
        }
        i += 1;
    }
    proof {
        assert(mounts_v.skip(n as int) =~= Seq::<MountEntryV>::empty());
    }
    out
}

} // verus!
