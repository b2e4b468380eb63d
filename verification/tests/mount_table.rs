use preflight::effect::{Reply, Request};
use preflight::error::{ErrorKind, ProbeError};
use preflight::mount::Mount;

#[test]
fn table_is_read_from_etc_mtab() {
    assert_eq!(Mount::mtab_request(), Request::ReadFile { path: "/etc/mtab".to_string() });
}

#[test]
fn content_of_the_file_is_parsed() {
    let text = "/dev/sda1 /mnt/boot vfat rw 0 0\ntmpfs /tmp tmpfs rw 0 0".to_string();
    let tab = Mount::from_mtab(Reply::Read(Ok(text))).unwrap();
    assert_eq!(tab.len(), 1);
    assert_eq!(tab.get("/dev/sda1").unwrap().get_mountpoint(), "/mnt/boot");
    assert_eq!(tab.get("/dev/sda1").unwrap().get_fs_type(), "vfat");
    let err = Mount::from_mtab(Reply::Read(Ok("/dev/sda1 /".to_string()))).err().unwrap();
    assert_eq!(err, ProbeError::InvalidFormat { line_no: 0, text: "/dev/sda1 /".to_string() });
}

#[test]
fn file_that_cannot_be_read_is_an_io_error() {
    let err = Mount::from_mtab(Reply::Read(Err("No such file or directory".to_string()))).err().unwrap();
    assert_eq!(
        err,
        ProbeError::IoError { path: "/etc/mtab".to_string(), message: "No such file or directory".to_string() }
    );
    assert_eq!(err.kind(), ErrorKind::IoError);
}

#[test]
fn other_replies_do_not_answer_the_table() {
    let err = Mount::from_mtab(Reply::Exists(Ok(true))).err().unwrap();
    assert_eq!(err, ProbeError::UnexpectedReply);
}

#[test]
fn block_devices_are_kept_and_others_dropped() {
    let tab = Mount::parse_mtab("/dev/sda1 /mnt/boot vfat rw 0 0\ntmpfs /tmp tmpfs rw 0 0").unwrap();
    assert_eq!(tab.len(), 1);
    let mount = tab.get("/dev/sda1").unwrap();
    assert_eq!(mount.get_mountpoint(), "/mnt/boot");
    assert_eq!(mount.get_fs_type(), "vfat");
    assert!(tab.get("tmpfs").is_none());
}

#[test]
fn devices_are_listed_in_the_order_of_their_first_line() {
    let text = "/dev/sdb1 /b ext4 rw 0 0\nproc /proc proc rw 0 0\n/dev/sda1 /a ext4 rw 0 0\n\
                /dev/sdb1 /c ext4 rw 0 0\n/dev/sdc1 /d ext4 rw 0 0\n/dev/sda1 /e ext4 rw 0 0\n";
    let tab = Mount::parse_mtab(text).unwrap();
    assert_eq!(tab.devices(), &vec!["/dev/sdb1".to_string(), "/dev/sda1".to_string(), "/dev/sdc1".to_string()]);
    assert_eq!(tab.len(), 3);
    let points: Vec<&str> = tab.devices().iter().map(|d| tab.get(d).unwrap().get_mountpoint()).collect();
    assert_eq!(points, vec!["/c", "/e", "/d"]);
    assert!(Mount::parse_mtab("").unwrap().devices().is_empty());
}

#[test]
fn each_device_has_one_entry() {
    let text = "/dev/sda1 /boot vfat rw 0 0\n\
                proc /proc proc rw 0 0\n\
                /dev/sda2 / ext4 rw,relatime 0 0\n\
                sysfs /sys sysfs rw 0 0\n\
                /dev/mapper/data /data xfs rw 0 0\n";
    let tab = Mount::parse_mtab(text).unwrap();
    assert_eq!(tab.len(), 3);
    assert_eq!(tab.get("/dev/sda1").unwrap().get_mountpoint(), "/boot");
    assert_eq!(tab.get("/dev/sda2").unwrap().get_mountpoint(), "/");
    assert_eq!(tab.get("/dev/sda2").unwrap().get_fs_type(), "ext4");
    assert_eq!(tab.get("/dev/mapper/data").unwrap().get_fs_type(), "xfs");
    assert!(!tab.contains_key("proc"));
    assert!(!tab.contains_key("sysfs"));
}

#[test]
fn later_line_replaces_earlier_one() {
    let text = "/dev/sdb1 /mnt/a ext3 rw 0 0\n/dev/sdb1 /mnt/b ext4 ro 0 0\n";
    let tab = Mount::parse_mtab(text).unwrap();
    assert_eq!(tab.len(), 1);
    let mount = tab.get("/dev/sdb1").unwrap();
    assert_eq!(mount.get_mountpoint(), "/mnt/b");
    assert_eq!(mount.get_fs_type(), "ext4");
}

#[test]
fn later_line_wins_across_other_lines() {
    let text = "/dev/sdb1 /mnt/a ext3 rw 0 0\ntmpfs /run tmpfs rw 0 0\n/dev/sdc1 /c ext2 rw 0 0\n/dev/sdb1 /mnt/z btrfs rw 0 0";
    let tab = Mount::parse_mtab(text).unwrap();
    assert_eq!(tab.len(), 2);
    assert_eq!(tab.get("/dev/sdb1").unwrap().get_mountpoint(), "/mnt/z");
    assert_eq!(tab.get("/dev/sdb1").unwrap().get_fs_type(), "btrfs");
    assert_eq!(tab.get("/dev/sdc1").unwrap().get_mountpoint(), "/c");
}

#[test]
fn short_line_fails_with_its_index() {
    let text = "/dev/sda1 /boot vfat rw 0 0\ntmpfs /tmp\n/dev/sda2 / ext4 rw 0 0\n";
    let err = Mount::parse_mtab(text).err().unwrap();
    assert_eq!(err, ProbeError::InvalidFormat { line_no: 1, text: "tmpfs /tmp".to_string() });
    assert_eq!(err.kind(), ErrorKind::InvalidFormat);
}

#[test]
fn first_short_line_is_reported() {
    let err = Mount::parse_mtab("one\ntwo words\n/dev/sda1 / ext4").err().unwrap();
    assert_eq!(err, ProbeError::InvalidFormat { line_no: 0, text: "one".to_string() });
}

#[test]
fn short_line_of_a_pseudo_file_system_fails_too() {
    let err = Mount::parse_mtab("/dev/sda1 / ext4 rw 0 0\n/dev/sda2 /home ext4\nnone").err().unwrap();
    assert_eq!(err, ProbeError::InvalidFormat { line_no: 2, text: "none".to_string() });
}

#[test]
fn empty_line_is_a_short_line() {
    let err = Mount::parse_mtab("/dev/sda1 / ext4 rw 0 0\n\n/dev/sda2 /home ext4 rw 0 0\n").err().unwrap();
    assert_eq!(err, ProbeError::InvalidFormat { line_no: 1, text: String::new() });
}

#[test]
fn two_columns_are_too_few_three_are_enough() {
    assert!(Mount::parse_mtab("/dev/sda1 /").is_err());
    let tab = Mount::parse_mtab("/dev/sda1 / ext4").unwrap();
    assert_eq!(tab.len(), 1);
    assert_eq!(tab.get("/dev/sda1").unwrap().get_fs_type(), "ext4");
}

#[test]
fn empty_table_has_no_entries() {
    let tab = Mount::parse_mtab("").unwrap();
    assert_eq!(tab.len(), 0);
    assert!(tab.is_empty());
}

#[test]
fn columns_may_be_separated_by_any_whitespace() {
    let tab = Mount::parse_mtab("  /dev/sda1\t\t/mnt/boot   vfat\trw 0 0  ").unwrap();
    assert_eq!(tab.len(), 1);
    let mount = tab.get("/dev/sda1").unwrap();
    assert_eq!(mount.get_mountpoint(), "/mnt/boot");
    assert_eq!(mount.get_fs_type(), "vfat");
}

#[test]
fn carriage_return_before_line_feed_is_no_part_of_the_line() {
    let err = Mount::parse_mtab("/dev/sda1 / ext4 rw 0 0\r\ntmpfs /tmp\r\n").err().unwrap();
    assert_eq!(err, ProbeError::InvalidFormat { line_no: 1, text: "tmpfs /tmp".to_string() });
    let tab = Mount::parse_mtab("/dev/sda1 / ext4\r\n").unwrap();
    assert_eq!(tab.get("/dev/sda1").unwrap().get_fs_type(), "ext4");
}

#[test]
fn device_prefix_is_exact() {
    let text = "/dev /a ext4 rw 0 0\n/device/x /b ext4 rw 0 0\ndev/sda /c ext4 rw 0 0\n/dev/ /d ext4 rw 0 0\n";
    let tab = Mount::parse_mtab(text).unwrap();
    assert_eq!(tab.len(), 1);
    assert_eq!(tab.get("/dev/").unwrap().get_mountpoint(), "/d");
}

#[test]
fn text_beyond_ascii_is_read_by_characters() {
    let tab = Mount::parse_mtab("/dev/sdä1 /mnt/büro ext4 rw 0 0\n/dev/sdb1\u{a0}/mnt/x\u{2003}ext2").unwrap();
    assert_eq!(tab.len(), 2);
    assert_eq!(tab.get("/dev/sdä1").unwrap().get_mountpoint(), "/mnt/büro");
    assert_eq!(tab.get("/dev/sdb1").unwrap().get_mountpoint(), "/mnt/x");
    assert_eq!(tab.get("/dev/sdb1").unwrap().get_fs_type(), "ext2");
}

#[test]
fn mount_can_be_cloned() {
    let tab = Mount::parse_mtab("/dev/sda1 /mnt/boot vfat rw 0 0").unwrap();
    let copy = tab.get("/dev/sda1").unwrap().clone();
    assert_eq!(copy.get_mountpoint(), "/mnt/boot");
    assert_eq!(copy.get_fs_type(), "vfat");
}
