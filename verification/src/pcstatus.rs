//! Host inspection: per-mount capacity read from the live filesystem
//! table, and classification of filesystem-scrub status text.

use vstd::prelude::*;

use crate::text::{range_contains, seq_contains, str_chars};

verus! {

/// One mount point's capacity, in bytes.
#[derive(Debug)]
pub struct DiskSpace {
    pub mount_point: String,
    pub total: u64,
    pub available_space: u64,
}

/// One mount point's scrub status: the raw status text and whether that
/// text flags an error.
#[derive(Debug)]
pub struct ScrubStatus {
    pub mount_point: String,
    pub message: String,
    pub error: bool,
}

/// Inspection-layer failure: the host's state could not be read at all.
#[derive(Debug)]
pub struct IoError {
    pub message: String,
}

/// The slice `s[i..j]` is one line of `s`: a maximal run of characters
/// free of newlines.
pub open spec fn is_line_at(s: Seq<char>, i: int, j: int) -> bool {
    &&& 0 <= i <= j <= s.len()
    &&& (i == 0 || s[i - 1] == '\n')
    &&& (j == s.len() || s[j] == '\n')
    &&& (forall|k: int| i <= k < j ==> s[k] != '\n')
}

/// A line flags a scrub error when it holds "Error summary" but not
/// "no errors found".
pub open spec fn line_flags_error(line: Seq<char>) -> bool {
    seq_contains(line, "Error summary"@) && !seq_contains(line, "no errors found"@)
}

/// Some line of `s` flags a scrub error.
pub open spec fn spec_has_error_line(s: Seq<char>) -> bool {
    exists|i: int, j: int| (#[trigger] is_line_at(s, i, j)) && line_flags_error(s.subrange(i, j))
}

proof fn lemma_line_end_unique(s: Seq<char>, i: int, j1: int, j2: int)
    requires
        is_line_at(s, i, j1),
        is_line_at(s, i, j2),
    ensures
        j1 == j2,
{
    if j1 < j2 {
        assert(s[j1] != '\n');
        assert(false);
    }
    if j2 < j1 {
        assert(s[j2] != '\n');
        assert(false);
    }
}

/// Scans the status text line by line; reports true exactly when some
/// line holds "Error summary" without also holding "no errors found".
pub fn find_error_scrub_status(message: &str) -> (r: bool)
    ensures
        r == spec_has_error_line(message@),
{
    let ghost s = message@;
    let chars = str_chars(message);
    let err_needle = str_chars("Error summary");
    let ok_needle = str_chars("no errors found");
    let n = chars.len();
    let mut start: usize = 0;
    loop
        invariant
            s == message@,
            chars@ == s,
            n == s.len(),
            err_needle@ == "Error summary"@,
            ok_needle@ == "no errors found"@,
            start <= n,
            start == 0 || s[start - 1] == '\n',
            forall|i: int, j: int|
                (#[trigger] is_line_at(s, i, j)) && i < start ==> !line_flags_error(
                    s.subrange(i, j),
                ),
        decreases n - start,
    {
        let mut end: usize = start;
        while end < n && chars[end] != '\n'
            invariant
                start <= end <= n,
                n == s.len(),
                chars@ == s,
                forall|k: int| start <= k < end ==> s[k] != '\n',
            decreases n - end,
        {
            end += 1;
        }
        proof {
            assert(is_line_at(s, start as int, end as int));
        }
        let has_err = range_contains(&chars, start, end, &err_needle);
        let has_ok = range_contains(&chars, start, end, &ok_needle);
        if has_err && !has_ok {
            proof {
                assert(line_flags_error(s.subrange(start as int, end as int)));
                assert(spec_has_error_line(s));
            }
            return true;
        }
        proof {
            assert forall|i: int, j: int|
                (#[trigger] is_line_at(s, i, j)) && i < end + 1 implies !line_flags_error(
                s.subrange(i, j),
            ) by {
                if i < start {
                } else if i == start {
                    lemma_line_end_unique(s, i, j, end as int);
                } else {
                    assert(s[i - 1] == '\n');
                    assert(false);
                }
            }
        }
        if end == n {
            proof {
                assert forall|i: int, j: int|
                    (#[trigger] is_line_at(s, i, j)) implies !line_flags_error(
                    s.subrange(i, j),
                ) by {
                    assert(i <= s.len());
                }
            }
            return false;
        }
        start = end + 1;
    }
}

/// `m` is one of the strings in `mps`.
pub open spec fn contains_str(mps: Seq<Seq<char>>, m: Seq<char>) -> bool {
    exists|i: int| 0 <= i < mps.len() && mps[i] == m
}

/// The character sequences of a sequence of strings.
pub open spec fn str_views(mps: Seq<String>) -> Seq<Seq<char>> {
    mps.map_values(|s: String| s@)
}

/// The entries kept by the mount-point filter: those whose mount point
/// is one of `mps`.
pub open spec fn selected(mps: Seq<Seq<char>>) -> spec_fn(DiskSpace) -> bool {
    |d: DiskSpace| contains_str(mps, d.mount_point@)
}

fn string_in(mps: &Vec<String>, m: &String) -> (r: bool)
    ensures
        r == contains_str(str_views(mps@), m@),
{
    let mut j: usize = 0;
    while j < mps.len()
        invariant
            j <= mps@.len(),
            forall|k: int| 0 <= k < j ==> str_views(mps@)[k] != m@,
        decreases mps@.len() - j,
    {
        if mps[j].eq(m) {
            proof {
                assert(str_views(mps@)[j as int] == m@);
            }
            return true;
        }
        j += 1;
    }
    false
}

/// Keeps exactly the entries of `disks` whose mount point matches one of
/// `mount_points` (exact string equality, no normalization), in order.
pub fn filter_disk_spaces(disks: &Vec<DiskSpace>, mount_points: &Vec<String>) -> (r: Vec<
    DiskSpace,
>)
    ensures
        r@ == disks@.filter(selected(str_views(mount_points@))),
{
    let ghost pred = selected(str_views(mount_points@));
    let mut r: Vec<DiskSpace> = Vec::new();
    let mut i: usize = 0;
    while i < disks.len()
        invariant
            i <= disks@.len(),
            r@ == disks@.take(i as int).filter(pred),
            pred == selected(str_views(mount_points@)),
        decreases disks@.len() - i,
    {
        let d = &disks[i];
        if string_in(mount_points, &d.mount_point) {
            let kept = DiskSpace {
                mount_point: d.mount_point.clone(),
                total: d.total,
                available_space: d.available_space,
            };
            proof {
                assert(kept == disks@[i as int]);
            }
            r.push(kept);
        }
        proof {
            assert(disks@.take(i + 1) =~= disks@.take(i as int).push(disks@[i as int]));
            disks@.take(i as int).lemma_filter_push(disks@[i as int], pred);
        }
        i += 1;
    }
    proof {
        assert(disks@.take(disks@.len() as int) =~= disks@);
    }
    r
}

/// Relies on sysinfo's `Disks::new_with_refreshed_list`, `Disk::mount_point`,
/// `Disk::total_space` and `Disk::available_space`: one entry per filesystem
/// the host currently mounts, with its mount point and its total and
/// available sizes in bytes. The result depends on the live state of the
/// machine, so nothing is promised of it; callers state what holds of
/// every outcome.
#[verifier::external_body]
fn refreshed_disk_list() -> Vec<DiskSpace> {
    let disks = sysinfo::Disks::new_with_refreshed_list();
    let mut list = Vec::new();
    for d in disks.list() {
        list.push(DiskSpace {
            mount_point: d.mount_point().to_string_lossy().into_owned(),
            total: d.total_space(),
            available_space: d.available_space(),
        });
    }
    list
}

/// Enumerates the live filesystem table and returns one entry per mount
/// point that matches an entry of `mount_points` exactly; configured mount
/// points absent from the live table are silently omitted. Whatever the
/// host reports, every returned entry names one of the requested mounts.
pub fn disk_space(mount_points: &Vec<String>) -> (r: Result<Vec<DiskSpace>, IoError>)
    ensures
        r is Ok,
        forall|i: int|
            0 <= i < r->Ok_0@.len() ==> contains_str(
                str_views(mount_points@),
                (#[trigger] r->Ok_0@[i]).mount_point@,
            ),
{
    let live = refreshed_disk_list();
    let kept = filter_disk_spaces(&live, mount_points);
    proof {
        assert forall|i: int| 0 <= i < kept@.len() implies contains_str(
            str_views(mount_points@),
            (#[trigger] kept@[i]).mount_point@,
        ) by {
            live@.lemma_filter_pred(selected(str_views(mount_points@)), i);
        }
    }
    Ok(kept)
}

/// Pairs each mount point with its captured status text and its
/// classification, keeping the input order.
pub fn build_scrub_statuses(mount_points: &Vec<String>, outputs: &Vec<String>) -> (r: Vec<
    ScrubStatus,
>)
    requires
        mount_points@.len() == outputs@.len(),
    ensures
        r@.len() == mount_points@.len(),
        forall|i: int|
            0 <= i < r@.len() ==> {
                &&& (#[trigger] r@[i]).mount_point == mount_points@[i]
                &&& r@[i].message == outputs@[i]
                &&& r@[i].error == spec_has_error_line(outputs@[i]@)
            },
{
    let mut r: Vec<ScrubStatus> = Vec::new();
    let mut i: usize = 0;
    while i < mount_points.len()
        invariant
            mount_points@.len() == outputs@.len(),
            i <= mount_points@.len(),
            r@.len() == i,
            forall|k: int|
                0 <= k < i ==> {
                    &&& (#[trigger] r@[k]).mount_point == mount_points@[k]
                    &&& r@[k].message == outputs@[k]
                    &&& r@[k].error == spec_has_error_line(outputs@[k]@)
                },
        decreases mount_points@.len() - i,
    {
        let msg = outputs[i].clone();
        let err = find_error_scrub_status(msg.as_str());
        r.push(ScrubStatus { mount_point: mount_points[i].clone(), message: msg, error: err });
        i += 1;
    }
    r
}

} // verus!
