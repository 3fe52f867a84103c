use msrstat::backend::{assemble_msr, open_cpu, open_cpuctl, read_msr};
use msrstat::cpuctl;
use msrstat::errors::Error;
use msrstat::session::{dump_stats, open_cpus, sandbox, Session};

#[test]
fn rdmsr_operation_code() {
    assert_eq!(cpuctl::cpuctl_rdmsr_code(), 0xC010_6301);
    assert_eq!(cpuctl::CPUCTL_RDMSR, 0xC010_6301);
    assert_eq!(cpuctl::PSTATE_STATUS_MSR, 0xC001_0293);
}

#[test]
fn operation_code_encoding() {
    assert_eq!(
        cpuctl::ioc_readwrite(cpuctl::CPUCTL_GROUP, cpuctl::CPUCTL_RDMSR_NUM, 16),
        0xC010_6301
    );
}

#[test]
fn restriction_is_one_way_and_names_one_operation() {
    let mut s = Session::new(8, 2);
    assert!(s.can_open());
    assert_eq!(s.core_count(), 8);
    assert_eq!(s.handle_count(), 0);
    let plan = sandbox(&mut s);
    assert!(!s.can_open());
    assert_eq!(plan.ioctl_codes, vec![0xC010_6301u64]);
    assert_eq!(plan.fds.len(), s.handle_count());
}

#[test]
fn a_full_run_opens_one_handle_per_core() {
    let mut s = Session::new(8, 2);
    let opened = open_cpus(&mut s);
    match opened {
        Ok(()) => {
            // Register devices exist here: exactly one handle per core.
            assert_eq!(s.handle_count(), 8);
            let plan = sandbox(&mut s);
            assert_eq!(plan.fds.len(), 8);
            assert!(!s.can_open());
            if let Ok(report) = dump_stats(&s) {
                assert_eq!(report.raw.len(), 8);
                assert_eq!(report.decoded.len(), 8);
            }
        }
        Err(e) => {
            // No register device on this system: the failure is the fatal
            // open error, and no partial result is produced.
            assert_eq!(e, Error::OpenFailed);
        }
    }
}

#[test]
fn read_through_a_bad_descriptor_fails() {
    assert_eq!(
        read_msr(-1, cpuctl::PSTATE_STATUS_MSR),
        Err(Error::ReadFailed)
    );
}

#[test]
fn open_of_an_absent_node_fails() {
    assert_eq!(open_cpu(9_999_999), Err(Error::OpenFailed));
    assert_eq!(open_cpuctl(9_999_999), Err(Error::OpenFailed));
}

#[test]
fn assembly_decision_is_exact() {
    // A full count accepts the little-endian assembly; any other count is
    // the integrity failure, whatever the buffer holds.
    let buf = vec![0x01, 0x02, 0x03, 0x04, 0x05, 0x06, 0x07, 0x08];
    assert_eq!(assemble_msr(8, &buf), Ok(0x0807_0605_0403_0201));
    assert_eq!(assemble_msr(7, &buf), Err(Error::ShortRead));
    assert_eq!(assemble_msr(0, &buf), Err(Error::ShortRead));
    let zeros = vec![0u8; 8];
    assert_eq!(assemble_msr(8, &zeros), Ok(0));
}

#[test]
fn short_read_is_an_integrity_failure() {
    // Reading past the end of a device that holds nothing returns fewer
    // than eight bytes, which must surface as the integrity failure, not
    // as a value.
    let fd = nix::fcntl::open(
        "/dev/null",
        nix::fcntl::OFlag::O_RDONLY,
        nix::sys::stat::Mode::empty(),
    )
    .unwrap();
    assert_eq!(
        read_msr(fd, cpuctl::PSTATE_STATUS_MSR),
        Err(Error::ShortRead)
    );
    let _ = nix::unistd::close(fd);
}

#[test]
fn full_read_of_zeros_decodes_to_zero() {
    let fd = nix::fcntl::open(
        "/dev/zero",
        nix::fcntl::OFlag::O_RDONLY,
        nix::sys::stat::Mode::empty(),
    )
    .unwrap();
    assert_eq!(read_msr(fd, cpuctl::PSTATE_STATUS_MSR), Ok(0));
    let _ = nix::unistd::close(fd);
}

#[test]
fn read_assembles_eight_bytes_little_endian() {
    // The register id is the byte offset, and the eight bytes read there
    // form the value least-significant byte first.
    let path = "/tmp/msrstat_assembly_fixture";
    let fd = nix::fcntl::open(
        path,
        nix::fcntl::OFlag::O_CREAT | nix::fcntl::OFlag::O_RDWR | nix::fcntl::OFlag::O_TRUNC,
        nix::sys::stat::Mode::from_bits_truncate(0o600),
    )
    .unwrap();
    nix::unistd::write(fd, &[0x01, 0x02, 0x03, 0x04, 0x05, 0x06, 0x07, 0x08]).unwrap();
    assert_eq!(read_msr(fd, 0), Ok(0x0807_0605_0403_0201));
    let _ = nix::unistd::close(fd);
    let _ = nix::unistd::unlink(path);
}

#[test]
fn empty_session_reads_nothing() {
    let s = Session::new(2, 2);
    let report = dump_stats(&s).unwrap();
    assert_eq!(report.raw.len(), 0);
    assert_eq!(report.decoded.len(), 0);
}
