//! The notification aggregator: composes the per-mount findings into one
//! report in a fixed section order, isolating each composition step's
//! failure, and reports which steps succeeded.

use vstd::prelude::*;
use vstd::string::*;

use crate::pcstatus::{DiskSpace, ScrubStatus};
use crate::text::{concat_map, lemma_concat_map_push, spec_dec, u64_to_string};

verus! {

/// Everything one notification run consumes: the two inspection results,
/// the low-space alert threshold in percent, and the delivery endpoint.
pub struct NoticeInfo {
    pub disk_spaces: Vec<DiskSpace>,
    pub btrfs_scrub_status: Vec<ScrubStatus>,
    pub remaining_space_alert: u32,
    pub slack_webhook_url: String,
}

impl NoticeInfo {
    /// Valid input for one run: the threshold is a percentage, and no
    /// mount reports more available space than its total.
    pub open spec fn wf(&self) -> bool {
        &&& self.remaining_space_alert <= 100
        &&& forall|i: int|
            0 <= i < self.disk_spaces@.len() ==> (#[trigger] self.disk_spaces@[i]).available_space
                <= self.disk_spaces@[i].total
    }
}

/// Which steps of one notification run succeeded.
#[derive(Debug)]
pub struct NotifyedInfo {
    pub general: bool,
    pub low_remaining_disk_space: bool,
    pub btrfs_scrub_error: bool,
    pub send_to_slack: bool,
}

/// A message-section builder failed; caught locally, never escalated.
#[derive(Debug)]
pub struct CompositionFailure {}

/// The composed report together with the three composition flags;
/// delivery is still outstanding.
pub struct ComposedNotification {
    pub message: String,
    pub general: bool,
    pub low_remaining_disk_space: bool,
    pub btrfs_scrub_error: bool,
}

/// Whole gibibytes of `bytes`, truncated toward zero.
pub open spec fn spec_gb(bytes: u64) -> nat {
    ((bytes as nat) / 1024) / 1024 / 1024
}

/// One general-section line: "<mount>: <available GB> / <total GB>".
pub open spec fn spec_general_line(d: DiskSpace) -> Seq<char> {
    d.mount_point@ + ": "@ + spec_dec(spec_gb(d.available_space)) + " GB / "@ + spec_dec(
        spec_gb(d.total),
    ) + " GB\n"@
}

/// The general-section line as a renderer for `concat_map`.
pub open spec fn general_line_fn() -> spec_fn(DiskSpace) -> Seq<char> {
    |d: DiskSpace| spec_general_line(d)
}

/// The general section: a fixed header, then one line per mount.
pub open spec fn spec_general_message(ds: Seq<DiskSpace>) -> Seq<char> {
    "Disk space\n"@ + concat_map(ds, general_line_fn())
}

/// A mount is flagged low on space when its used fraction, in percent,
/// reaches 100 minus the alert threshold. The comparison is exact:
/// used/total*100 >= 100-alert is multiplied out over the integers. A
/// mount reporting zero total capacity is never flagged.
pub open spec fn spec_is_low(d: DiskSpace, alert: u32) -> bool {
    d.total > 0 && (d.total - d.available_space) * 100 >= (100 - alert) * d.total
}

/// The low-space flag as a predicate for `filter`.
pub open spec fn low_pred(alert: u32) -> spec_fn(DiskSpace) -> bool {
    |d: DiskSpace| spec_is_low(d, alert)
}

/// The mounts flagged low on space, in input order.
pub open spec fn spec_low_disks(ds: Seq<DiskSpace>, alert: u32) -> Seq<DiskSpace> {
    ds.filter(low_pred(alert))
}

/// One low-space line: the flagged mount's path.
pub open spec fn mount_line_fn() -> spec_fn(DiskSpace) -> Seq<char> {
    |d: DiskSpace| d.mount_point@ + "\n"@
}

/// The low-space section: empty when no mount is flagged, else a warning
/// header and one line per flagged mount.
pub open spec fn spec_low_section(flagged: Seq<DiskSpace>) -> Seq<char> {
    if flagged.len() == 0 {
        Seq::empty()
    } else {
        ":\u{8b66}\u{544a}: Low remining disks:\n"@ + concat_map(flagged, mount_line_fn())
    }
}

/// One scrub block: an alert marker when the status flags an error, then
/// the mount point and the raw captured status text.
pub open spec fn spec_scrub_block(st: ScrubStatus) -> Seq<char> {
    (if st.error {
        "\u{26a0}\u{26a0}\u{26a0}\u{26a0}"@
    } else {
        Seq::empty()
    }) + "Mount point: "@ + st.mount_point@ + "\n"@ + st.message@ + "\n"@
}

/// The scrub block as a renderer for `concat_map`.
pub open spec fn scrub_block_fn() -> spec_fn(ScrubStatus) -> Seq<char> {
    |st: ScrubStatus| spec_scrub_block(st)
}

/// The scrub section: a fixed header, then one block per status.
pub open spec fn spec_btrfs_status(ss: Seq<ScrubStatus>) -> Seq<char> {
    "btrfs scrub status:\n"@ + concat_map(ss, scrub_block_fn())
}

/// Renders the general section: a header line, then one line per mount
/// with its available and total capacity in whole gigabytes.
pub fn make_general_message(info: &NoticeInfo) -> (r: Result<String, CompositionFailure>)
    ensures
        r is Ok,
        r->Ok_0@ == spec_general_message(info.disk_spaces@),
{
    let mut text = String::from_str("Disk space\n");
    let mut i: usize = 0;
    while i < info.disk_spaces.len()
        invariant
            i <= info.disk_spaces@.len(),
            text@ == "Disk space\n"@ + concat_map(
                info.disk_spaces@.take(i as int),
                general_line_fn(),
            ),
        decreases info.disk_spaces@.len() - i,
    {
        let ds = &info.disk_spaces[i];
        text.append(ds.mount_point.as_str());
        text.append(": ");
        let avail_gb = u64_to_string(ds.available_space / 1024 / 1024 / 1024);
        text.append(avail_gb.as_str());
        text.append(" GB / ");
        let total_gb = u64_to_string(ds.total / 1024 / 1024 / 1024);
        text.append(total_gb.as_str());
        text.append(" GB\n");
        proof {
            lemma_concat_map_push(
                info.disk_spaces@.take(i as int),
                general_line_fn(),
                info.disk_spaces@[i as int],
            );
            assert(info.disk_spaces@.take(i + 1) =~= info.disk_spaces@.take(i as int).push(
                info.disk_spaces@[i as int],
            ));
            assert(text@ =~= "Disk space\n"@ + concat_map(
                info.disk_spaces@.take(i + 1),
                general_line_fn(),
            ));
        }
        i += 1;
    }
    proof {
        assert(info.disk_spaces@.take(info.disk_spaces@.len() as int) =~= info.disk_spaces@);
    }
    Ok(text)
}

/// Returns the mounts whose used share of capacity reaches the alert
/// threshold, in input order. Requires the threshold to be a percentage
/// and no mount to report more available space than its total.
pub fn check_remaining_disk_size(disk_space: &Vec<DiskSpace>, remaining_space_alert: u32) -> (r:
    Result<Vec<DiskSpace>, CompositionFailure>)
    requires
        remaining_space_alert <= 100,
        forall|i: int|
            0 <= i < disk_space@.len() ==> (#[trigger] disk_space@[i]).available_space
                <= disk_space@[i].total,
    ensures
        r is Ok,
        r->Ok_0@ == spec_low_disks(disk_space@, remaining_space_alert),
{
    let mut low: Vec<DiskSpace> = Vec::new();
    let mut i: usize = 0;
    while i < disk_space.len()
        invariant
            remaining_space_alert <= 100,
            forall|k: int|
                0 <= k < disk_space@.len() ==> (#[trigger] disk_space@[k]).available_space
                    <= disk_space@[k].total,
            i <= disk_space@.len(),
            low@ == disk_space@.take(i as int).filter(low_pred(remaining_space_alert)),
        decreases disk_space@.len() - i,
    {
        let ds = &disk_space[i];
        let mut is_low = false;
        if ds.total > 0 {
            let used: u64 = ds.total - ds.available_space;
            let lhs: u128 = (used as u128) * 100;
            proof {
                vstd::arithmetic::mul::lemma_mul_inequality(
                    (100 - remaining_space_alert) as int,
                    100,
                    ds.total as int,
                );
            }
            let rhs: u128 = ((100 - remaining_space_alert) as u128) * (ds.total as u128);
            is_low = lhs >= rhs;
        }
        proof {
            assert(is_low == spec_is_low(disk_space@[i as int], remaining_space_alert));
        }
        if is_low {
            let kept = DiskSpace {
                mount_point: ds.mount_point.clone(),
                total: ds.total,
                available_space: ds.available_space,
            };
            proof {
                assert(kept == disk_space@[i as int]);
            }
            low.push(kept);
        }
        proof {
            assert(disk_space@.take(i + 1) =~= disk_space@.take(i as int).push(
                disk_space@[i as int],
            ));
            disk_space@.take(i as int).lemma_filter_push(
                disk_space@[i as int],
                low_pred(remaining_space_alert),
            );
        }
        i += 1;
    }
    proof {
        assert(disk_space@.take(disk_space@.len() as int) =~= disk_space@);
    }
    Ok(low)
}

/// Renders the scrub section: a header, then for each status an alert
/// marker when it flags an error, the mount point, and the raw text.
pub fn make_btrfs_status(status: &Vec<ScrubStatus>) -> (r: Result<String, CompositionFailure>)
    ensures
        r is Ok,
        r->Ok_0@ == spec_btrfs_status(status@),
{
    let mut text = String::from_str("btrfs scrub status:\n");
    let mut i: usize = 0;
    while i < status.len()
        invariant
            i <= status@.len(),
            text@ == "btrfs scrub status:\n"@ + concat_map(status@.take(i as int), scrub_block_fn()),
        decreases status@.len() - i,
    {
        let st = &status[i];
        if st.error {
            text.append("\u{26a0}\u{26a0}\u{26a0}\u{26a0}");
        }
        text.append("Mount point: ");
        text.append(st.mount_point.as_str());
        text.append("\n");
        text.append(st.message.as_str());
        text.append("\n");
        proof {
            lemma_concat_map_push(status@.take(i as int), scrub_block_fn(), status@[i as int]);
            assert(status@.take(i + 1) =~= status@.take(i as int).push(status@[i as int]));
            assert(text@ =~= "btrfs scrub status:\n"@ + concat_map(
                status@.take(i + 1),
                scrub_block_fn(),
            ));
        }
        i += 1;
    }
    proof {
        assert(status@.take(status@.len() as int) =~= status@);
    }
    Ok(text)
}

fn low_section_text(disks: &Vec<DiskSpace>) -> (t: String)
    ensures
        t@ == spec_low_section(disks@),
{
    let mut t = String::new();
    if disks.len() == 0 {
        return t;
    }
    t.append(":\u{8b66}\u{544a}: Low remining disks:\n");
    let mut i: usize = 0;
    while i < disks.len()
        invariant
            disks@.len() > 0,
            i <= disks@.len(),
            t@ == ":\u{8b66}\u{544a}: Low remining disks:\n"@ + concat_map(
                disks@.take(i as int),
                mount_line_fn(),
            ),
        decreases disks@.len() - i,
    {
        t.append(disks[i].mount_point.as_str());
        t.append("\n");
        proof {
            lemma_concat_map_push(disks@.take(i as int), mount_line_fn(), disks@[i as int]);
            assert(disks@.take(i + 1) =~= disks@.take(i as int).push(disks@[i as int]));
            assert(t@ =~= ":\u{8b66}\u{544a}: Low remining disks:\n"@ + concat_map(
                disks@.take(i + 1),
                mount_line_fn(),
            ));
        }
        i += 1;
    }
    proof {
        assert(disks@.take(disks@.len() as int) =~= disks@);
    }
    t
}

/// The message the three section results assemble into: each successful
/// section's text in the fixed order, a fixed failure notice standing in
/// for each failed one.
pub open spec fn spec_assembled(
    general: Result<String, CompositionFailure>,
    low: Result<Vec<DiskSpace>, CompositionFailure>,
    scrub: Result<String, CompositionFailure>,
) -> Seq<char> {
    (match general {
        Ok(t) => t@ + "\n\n"@,
        Err(_) => "Failed to make general."@,
    }) + (match low {
        Ok(flagged) => spec_low_section(flagged@),
        Err(_) => "Failed to check disk."@,
    }) + (match scrub {
        Ok(t) => t@,
        Err(_) => "Failed to check btrfs scrub."@,
    })
}

/// Assembles the three section results into one message, in the fixed
/// order general, low-space, scrub. A step's failure is isolated: the
/// other sections' text is kept unchanged, a fixed notice stands in for
/// the failed one, and exactly the successful steps' flags read true.
pub fn assemble_sections(
    general: Result<String, CompositionFailure>,
    low: Result<Vec<DiskSpace>, CompositionFailure>,
    scrub: Result<String, CompositionFailure>,
) -> (c: ComposedNotification)
    ensures
        c.general == general is Ok,
        c.low_remaining_disk_space == low is Ok,
        c.btrfs_scrub_error == scrub is Ok,
        c.message@ == spec_assembled(general, low, scrub),
{
    let mut message = String::new();
    let mut general_built = false;
    let mut low_built = false;
    let mut scrub_built = false;
    match &general {
        Ok(text) => {
            message.append(text.as_str());
            message.append("\n\n");
            general_built = true;
        },
        Err(_) => {
            message.append("Failed to make general.");
        },
    }
    match &low {
        Ok(flagged) => {
            let section = low_section_text(flagged);
            message.append(section.as_str());
            low_built = true;
        },
        Err(_) => {
            message.append("Failed to check disk.");
        },
    }
    match &scrub {
        Ok(text) => {
            message.append(text.as_str());
            scrub_built = true;
        },
        Err(_) => {
            message.append("Failed to check btrfs scrub.");
        },
    }
    proof {
        assert(message@ =~= spec_assembled(general, low, scrub));
    }
    ComposedNotification {
        message,
        general: general_built,
        low_remaining_disk_space: low_built,
        btrfs_scrub_error: scrub_built,
    }
}

/// The full report composed from valid input: general section, blank
/// line, low-space section, scrub section.
pub open spec fn spec_notification_message(info: NoticeInfo) -> Seq<char> {
    spec_general_message(info.disk_spaces@) + "\n\n"@ + spec_low_section(
        spec_low_disks(info.disk_spaces@, info.remaining_space_alert),
    ) + spec_btrfs_status(info.btrfs_scrub_status@)
}

/// Runs the three composition steps in their fixed order and assembles
/// the report. On valid input no step fails: all three flags read true
/// and the message is exactly the composed report.
pub fn compose_notification(info: &NoticeInfo) -> (c: ComposedNotification)
    requires
        info.wf(),
    ensures
        c.general,
        c.low_remaining_disk_space,
        c.btrfs_scrub_error,
        c.message@ == spec_notification_message(*info),
{
    let general = make_general_message(info);
    let low = check_remaining_disk_size(&info.disk_spaces, info.remaining_space_alert);
    let scrub = make_btrfs_status(&info.btrfs_scrub_status);
    let c = assemble_sections(general, low, scrub);
    proof {
        assert(c.message@ =~= spec_notification_message(*info));
    }
    c
}

/// Records the delivery outcome beside the three composition flags. The
/// delivery outcome cannot alter what was composed: the three flags are
/// copied unchanged, and only `send_to_slack` reflects `delivered`.
pub fn notified_info(c: &ComposedNotification, delivered: bool) -> (r: NotifyedInfo)
    ensures
        r.general == c.general,
        r.low_remaining_disk_space == c.low_remaining_disk_space,
        r.btrfs_scrub_error == c.btrfs_scrub_error,
        r.send_to_slack == delivered,
{
    NotifyedInfo {
        general: c.general,
        low_remaining_disk_space: c.low_remaining_disk_space,
        btrfs_scrub_error: c.btrfs_scrub_error,
        send_to_slack: delivered,
    }
}

/// With total capacity fixed, the used share does not decrease as the
/// available space decreases: a mount flagged low on space at some
/// available level stays flagged at every lower level.
pub proof fn lemma_low_space_monotone(d1: DiskSpace, d2: DiskSpace, alert: u32)
    requires
        d1.total == d2.total,
        d1.total > 0,
        d2.available_space <= d1.available_space <= d1.total,
    ensures
        (d1.total - d1.available_space) * 100 <= (d2.total - d2.available_space) * 100,
        spec_is_low(d1, alert) ==> spec_is_low(d2, alert),
{
}

/// Composing the general section twice from the same capacities yields
/// byte-identical text: the section is a function of the capacities alone.
pub proof fn lemma_general_section_idempotent(ds: Seq<DiskSpace>, r1: Seq<char>, r2: Seq<char>)
    requires
        r1 == spec_general_message(ds),
        r2 == spec_general_message(ds),
    ensures
        r1 == r2,
{
}

/// Forcing the scrub-status step to fail leaves the general and
/// low-space sections' text in the assembled message unchanged; only the
/// scrub section is replaced by its fixed failure notice.
pub proof fn lemma_scrub_failure_isolation(g: String, l: Vec<DiskSpace>, e: CompositionFailure)
    ensures
        spec_assembled(Ok(g), Ok(l), Err(e)) == g@ + "\n\n"@ + spec_low_section(l@)
            + "Failed to check btrfs scrub."@,
{
    assert(spec_assembled(Ok(g), Ok(l), Err(e)) =~= g@ + "\n\n"@ + spec_low_section(l@)
        + "Failed to check btrfs scrub."@);
}

} // verus!
