use nasubot::notice::{
    assemble_sections, check_remaining_disk_size, compose_notification, make_btrfs_status,
    make_general_message, notified_info, CompositionFailure, NoticeInfo,
};
use nasubot::pcstatus::{
    build_scrub_statuses, disk_space, filter_disk_spaces, find_error_scrub_status, DiskSpace,
    ScrubStatus,
};

const GIB: u64 = 1024 * 1024 * 1024;

fn ds(mount_point: &str, total: u64, available_space: u64) -> DiskSpace {
    DiskSpace {
        mount_point: mount_point.to_string(),
        total,
        available_space,
    }
}

fn sample_info() -> NoticeInfo {
    NoticeInfo {
        disk_spaces: vec![ds("/", 10 * GIB, GIB)],
        btrfs_scrub_status: vec![ScrubStatus {
            mount_point: "/".to_string(),
            message: "Error summary:    no errors found".to_string(),
            error: false,
        }],
        remaining_space_alert: 10,
        slack_webhook_url: "http://example.invalid/webhook".to_string(),
    }
}

#[test]
fn test_disk_space() {
    let mount_points = vec![String::from("/")];
    let disks = disk_space(&mount_points).unwrap();

    assert_eq!(disks.len(), 1);
}

#[test]
fn test_found_error_scrub_status() {
    let message = "UUID:             0000
Scrub started:    Thu Jan 23 22:52:24 2025
Status:           finished
Duration:         0:53:47
Total to scrub:   1.18TiB
Rate:             383.25MiB/s (some device limits set)
Error summary:    csum=72
  Corrected:      2
  Uncorrectable:  72
  Unverified:     0";

    assert!(find_error_scrub_status(&message));
}

#[test]
fn test_not_found_error_scrub_status() {
    let message = "UUID:             0000
Scrub started:    Thu Jan 23 22:52:24 2025
Status:           finished
Duration:         0:53:47
Total to scrub:   1.18TiB
Rate:             383.25MiB/s (some device limits set)
Error summary:    no errors found";
    assert!(!find_error_scrub_status(&message));
}

#[test]
fn test_scrub_status_edge_cases() {
    assert!(!find_error_scrub_status(""));
    assert!(find_error_scrub_status("Error summary"));
    assert!(!find_error_scrub_status("Error summary: no errors found"));
    assert!(find_error_scrub_status("all good\nError summary:    csum=3\nmore text"));
    // the two substrings only count within one and the same line
    assert!(!find_error_scrub_status("Error\nsummary"));
    assert!(find_error_scrub_status("no errors found\nError summary: csum=1"));
    assert!(find_error_scrub_status("Error summary: csum=1\r\nnext"));
}

#[test]
fn test_low_space_threshold() {
    // 95% used with a 10% threshold is flagged; 50% used is not
    let disks = vec![ds("/a", 100, 5), ds("/b", 100, 50)];
    let low = check_remaining_disk_size(&disks, 10).unwrap();
    assert_eq!(low.len(), 1);
    assert_eq!(low[0].mount_point, "/a");
}

#[test]
fn test_low_space_boundary_and_zero_total() {
    // exactly at the threshold counts as flagged
    let low = check_remaining_disk_size(&vec![ds("/edge", 100, 10)], 10).unwrap();
    assert_eq!(low.len(), 1);
    // a mount reporting zero total capacity is never flagged
    let none = check_remaining_disk_size(&vec![ds("/zero", 0, 0)], 10).unwrap();
    assert_eq!(none.len(), 0);
}

#[test]
fn test_low_space_monotone_concrete() {
    // with total and threshold fixed, shrinking the available space keeps a
    // flagged mount flagged
    let at_threshold = check_remaining_disk_size(&vec![ds("/m", 1000, 250)], 25).unwrap();
    assert_eq!(at_threshold.len(), 1);
    let below = check_remaining_disk_size(&vec![ds("/m", 1000, 100)], 25).unwrap();
    assert_eq!(below.len(), 1);
    let above = check_remaining_disk_size(&vec![ds("/m", 1000, 251)], 25).unwrap();
    assert_eq!(above.len(), 0);
}

#[test]
fn test_general_message_format() {
    let info = sample_info();
    let text = make_general_message(&info).unwrap();
    assert_eq!(text, "Disk space\n/: 1 GB / 10 GB\n");
}

#[test]
fn test_general_message_large_numbers() {
    let info = NoticeInfo {
        disk_spaces: vec![ds("/big", u64::MAX, 0)],
        btrfs_scrub_status: vec![],
        remaining_space_alert: 0,
        slack_webhook_url: String::new(),
    };
    let text = make_general_message(&info).unwrap();
    assert_eq!(text, "Disk space\n/big: 0 GB / 17179869183 GB\n");
}

#[test]
fn test_general_message_idempotent() {
    let info = sample_info();
    let first = make_general_message(&info).unwrap();
    let second = make_general_message(&info).unwrap();
    assert_eq!(first, second);
}

#[test]
fn test_btrfs_status_format() {
    let statuses = vec![
        ScrubStatus {
            mount_point: "/".to_string(),
            message: "fine".to_string(),
            error: false,
        },
        ScrubStatus {
            mount_point: "/data".to_string(),
            message: "Error summary: csum=72".to_string(),
            error: true,
        },
    ];
    let text = make_btrfs_status(&statuses).unwrap();
    assert_eq!(
        text,
        "btrfs scrub status:\nMount point: /\nfine\n\u{26a0}\u{26a0}\u{26a0}\u{26a0}Mount point: /data\nError summary: csum=72\n"
    );
}

#[test]
fn test_build_scrub_statuses_keeps_order() {
    let mounts = vec!["/".to_string(), "/data".to_string()];
    let outputs = vec![
        "Error summary:    no errors found".to_string(),
        "Error summary:    csum=72".to_string(),
    ];
    let statuses = build_scrub_statuses(&mounts, &outputs);
    assert_eq!(statuses.len(), 2);
    assert_eq!(statuses[0].mount_point, "/");
    assert_eq!(statuses[0].message, outputs[0]);
    assert!(!statuses[0].error);
    assert_eq!(statuses[1].mount_point, "/data");
    assert_eq!(statuses[1].message, outputs[1]);
    assert!(statuses[1].error);
}

#[test]
fn test_filter_disk_spaces_exact_match() {
    let live = vec![ds("/", 1, 1), ds("/data", 2, 1), ds("/other", 3, 1)];
    let mounts = vec!["/data".to_string(), "/".to_string()];
    let kept = filter_disk_spaces(&live, &mounts);
    assert_eq!(kept.len(), 2);
    assert_eq!(kept[0].mount_point, "/");
    assert_eq!(kept[1].mount_point, "/data");
    // no normalization: "/data/" does not match "/data"
    let none = filter_disk_spaces(&live, &vec!["/data/".to_string()]);
    assert_eq!(none.len(), 0);
}

#[test]
fn test_assemble_scrub_failure_is_isolated() {
    let info = sample_info();
    let general = make_general_message(&info).unwrap();
    let low = check_remaining_disk_size(&info.disk_spaces, info.remaining_space_alert).unwrap();
    let c = assemble_sections(Ok(general.clone()), Ok(low), Err(CompositionFailure {}));
    assert!(c.general);
    assert!(c.low_remaining_disk_space);
    assert!(!c.btrfs_scrub_error);
    assert!(c.message.starts_with(&general));
    assert!(c.message.contains(":\u{8b66}\u{544a}: Low remining disks:\n/\n"));
    assert!(c.message.ends_with("Failed to check btrfs scrub."));
}

#[test]
fn test_assemble_all_failures() {
    let c = assemble_sections(
        Err(CompositionFailure {}),
        Err(CompositionFailure {}),
        Err(CompositionFailure {}),
    );
    assert!(!c.general);
    assert!(!c.low_remaining_disk_space);
    assert!(!c.btrfs_scrub_error);
    assert_eq!(
        c.message,
        "Failed to make general.Failed to check disk.Failed to check btrfs scrub."
    );
}

#[test]
fn test_compose_end_to_end() {
    let info = sample_info();
    let c = compose_notification(&info);
    assert!(c.general);
    assert!(c.low_remaining_disk_space);
    assert!(c.btrfs_scrub_error);
    let expected = format!(
        "Disk space\n/: 1 GB / 10 GB\n\n\n:\u{8b66}\u{544a}: Low remining disks:\n/\nbtrfs scrub status:\nMount point: /\n{}\n",
        "Error summary:    no errors found"
    );
    assert_eq!(c.message, expected);
}

#[test]
fn test_compose_no_flagged_mounts_appends_nothing() {
    let info = NoticeInfo {
        disk_spaces: vec![ds("/", 10 * GIB, 9 * GIB)],
        btrfs_scrub_status: vec![],
        remaining_space_alert: 10,
        slack_webhook_url: String::new(),
    };
    let c = compose_notification(&info);
    assert!(c.low_remaining_disk_space);
    assert_eq!(
        c.message,
        "Disk space\n/: 9 GB / 10 GB\n\n\nbtrfs scrub status:\n"
    );
}

#[test]
fn test_delivery_failure_keeps_composition_flags() {
    let info = sample_info();
    let c = compose_notification(&info);
    let failed = notified_info(&c, false);
    assert!(failed.general);
    assert!(failed.low_remaining_disk_space);
    assert!(failed.btrfs_scrub_error);
    assert!(!failed.send_to_slack);
    let sent = notified_info(&c, true);
    assert!(sent.general);
    assert!(sent.low_remaining_disk_space);
    assert!(sent.btrfs_scrub_error);
    assert!(sent.send_to_slack);
}
