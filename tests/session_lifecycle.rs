use eab_probe_rs::error::{ErrorKind, RttError};
use eab_probe_rs::locate::LocateStrategy;
use eab_probe_rs::session::{
    after_halt, after_reset, finish_read, finish_write, ControlBlock, Session, WriteStep,
    HALT_TIMEOUT_MS, READ_CHUNK_SIZE,
};

fn attached() -> Session {
    let mut s = Session::new("STM32L476RG".to_string(), None);
    s.finish_attach(Ok(())).unwrap();
    s
}

fn with_rtt(up: usize, down: usize) -> Session {
    let mut s = attached();
    let cb = ControlBlock { address: 0x2000_1010, up_channels: up, down_channels: down };
    assert_eq!(s.finish_start_rtt(Some(0x2000_1010), Ok(cb)).unwrap(), up);
    s
}

#[test]
fn attached_only_between_attach_and_detach() {
    let mut s = Session::new("STM32L476RG".to_string(), None);
    assert_eq!(s.chip(), "STM32L476RG");
    assert!(!s.is_attached());
    assert!(!s.is_rtt_active());
    assert!(s.finish_attach(Err("no power".to_string())).is_err());
    assert!(!s.is_attached());
    s.finish_attach(Ok(())).unwrap();
    assert!(s.is_attached());
    s.detach();
    assert!(!s.is_attached());
    s.detach();
    assert!(!s.is_attached());
}

#[test]
fn attach_failure_names_chip_and_cause() {
    let mut s = Session::new("nRF52840_xxAA".to_string(), Some("0483:374b".to_string()));
    match s.finish_attach(Err("target not responding".to_string())) {
        Err(e @ RttError::AttachFailure { .. }) => {
            assert_eq!(e.kind(), ErrorKind::Connection);
            if let RttError::AttachFailure { chip, cause } = e {
                assert_eq!(chip, "nRF52840_xxAA");
                assert_eq!(cause, "target not responding");
            }
        }
        other => panic!("unexpected {:?}", other),
    }
}

#[test]
fn detach_clears_rtt() {
    let mut s = with_rtt(2, 1);
    assert!(s.is_rtt_active());
    s.detach();
    assert!(!s.is_rtt_active());
    assert!(s.control_block().is_none());
    assert!(matches!(s.begin_read(0), Err(RttError::NotAttached)));
}

#[test]
fn reattach_keeps_link() {
    let mut s = with_rtt(2, 1);
    s.finish_attach(Ok(())).unwrap();
    assert!(s.is_attached());
    assert!(s.is_rtt_active());
}

#[test]
fn start_rtt_needs_attach() {
    let mut s = Session::new("X".to_string(), None);
    let r = s.begin_start_rtt(Some(0x2000_1010), None);
    assert!(matches!(r, Err(RttError::NotAttached)));
    assert_eq!(r.unwrap_err().kind(), ErrorKind::Usage);
    let cb = ControlBlock { address: 1, up_channels: 1, down_channels: 1 };
    assert!(matches!(s.finish_start_rtt(Some(1), Ok(cb)), Err(RttError::NotAttached)));
    assert!(!s.is_rtt_active());
}

#[test]
fn explicit_address_start_then_read_and_write() {
    let mut s = attached();
    let strategy = s.begin_start_rtt(Some(0x2000_1010), Some("fw.elf".to_string())).unwrap();
    assert!(matches!(strategy, LocateStrategy::Explicit(0x2000_1010)));
    let cb = ControlBlock { address: 0x2000_1010, up_channels: 3, down_channels: 3 };
    let n = s.finish_start_rtt(Some(0x2000_1010), Ok(cb)).unwrap();
    assert_eq!(n, 3);
    assert_eq!(s.control_block(), Some(cb));

    let max = s.begin_read(0).unwrap();
    assert_eq!(max, 4096);
    let bytes = finish_read(vec![0u8; max], Ok(0)).unwrap();
    assert!(bytes.is_empty());

    let data = b"ping";
    assert_eq!(s.begin_write(0, data.len()).unwrap(), WriteStep::Transfer);
    assert_eq!(finish_write(data.len(), Ok(4)).unwrap(), 4);
}

#[test]
fn restart_replaces_control_block() {
    let mut s = with_rtt(3, 3);
    let cb = ControlBlock { address: 0x2000_0000, up_channels: 1, down_channels: 2 };
    assert_eq!(s.finish_start_rtt(None, Ok(cb)).unwrap(), 1);
    assert_eq!(s.control_block(), Some(cb));
    assert!(matches!(s.begin_read(1), Err(RttError::ChannelNotFound(1))));
    assert!(s.begin_write(1, 3).is_ok());
}

#[test]
fn failed_validation_at_address_is_invalid() {
    let mut s = attached();
    match s.finish_start_rtt(Some(0x2000_1010), Err("bad magic".to_string())) {
        Err(RttError::ControlBlockInvalid { address, cause }) => {
            assert_eq!(address, 0x2000_1010);
            assert_eq!(cause, "bad magic");
        }
        other => panic!("unexpected {:?}", other),
    }
    assert!(!s.is_rtt_active());
}

#[test]
fn failed_scan_is_not_found() {
    let mut s = with_rtt(1, 1);
    let r = s.finish_start_rtt(None, Err("no signature".to_string()));
    assert!(matches!(r, Err(RttError::ControlBlockNotFound(ref c)) if c == "no signature"));
    assert_eq!(r.unwrap_err().kind(), ErrorKind::Protocol);
    assert!(s.is_rtt_active());
}

#[test]
fn read_before_rtt_is_not_started() {
    let s = attached();
    assert!(matches!(s.begin_read(0), Err(RttError::RttNotStarted)));
    assert!(matches!(s.begin_write(0, 1), Err(RttError::RttNotStarted)));
    let d = Session::new("X".to_string(), None);
    assert!(matches!(d.begin_write(0, 1), Err(RttError::NotAttached)));
}

#[test]
fn channel_index_beyond_count_is_rejected() {
    let s = with_rtt(2, 1);
    assert!(matches!(s.begin_read(2), Err(RttError::ChannelNotFound(2))));
    assert!(matches!(s.begin_read(usize::MAX), Err(RttError::ChannelNotFound(usize::MAX))));
    assert!(matches!(s.begin_write(1, 4), Err(RttError::ChannelNotFound(1))));
    assert!(matches!(s.begin_write(5, 0), Err(RttError::ChannelNotFound(5))));
    assert!(s.begin_read(1).is_ok());
    assert!(s.begin_write(0, 4).is_ok());
}

#[test]
fn read_returns_only_reported_bytes() {
    let buf: Vec<u8> = (0..READ_CHUNK_SIZE).map(|i| i as u8).collect();
    assert_eq!(finish_read(buf.clone(), Ok(3)).unwrap(), vec![0, 1, 2]);
    assert_eq!(finish_read(buf.clone(), Ok(READ_CHUNK_SIZE)).unwrap().len(), 4096);
    assert!(matches!(finish_read(buf, Ok(READ_CHUNK_SIZE + 1)), Err(RttError::ReadFailed(_))));
    let big = vec![7u8; 5000];
    assert!(matches!(finish_read(big, Ok(4097)), Err(RttError::ReadFailed(_))));
}

#[test]
fn read_failure_is_hardware_error() {
    let r = finish_read(vec![0u8; 16], Err("probe gone".to_string()));
    assert!(matches!(r, Err(RttError::ReadFailed(ref c)) if c == "probe gone"));
    assert_eq!(r.unwrap_err().kind(), ErrorKind::Hardware);
}

#[test]
fn empty_write_is_zero_without_error() {
    let s = with_rtt(1, 1);
    assert_eq!(s.begin_write(0, 0).unwrap(), WriteStep::Done(0));
}

#[test]
fn write_count_is_bounded_by_data() {
    assert_eq!(finish_write(10, Ok(6)).unwrap(), 6);
    assert_eq!(finish_write(10, Ok(0)).unwrap(), 0);
    assert!(matches!(finish_write(3, Ok(4)), Err(RttError::WriteFailed(_))));
    let r = finish_write(3, Err("link lost".to_string()));
    assert!(matches!(r, Err(RttError::WriteFailed(ref c)) if c == "link lost"));
}

#[test]
fn reset_needs_attach() {
    let s = Session::new("X".to_string(), None);
    assert!(matches!(s.begin_reset(), Err(RttError::NotAttached)));
    assert!(attached().begin_reset().is_ok());
}

#[test]
fn reset_with_halt_succeeds_or_times_out() {
    assert_eq!(HALT_TIMEOUT_MS, 100);
    assert_eq!(after_reset(true, Ok(())).unwrap(), true);
    assert_eq!(after_reset(false, Ok(())).unwrap(), false);
    assert!(after_halt(Ok(())).is_ok());
    let r = after_halt(Err("core still running".to_string()));
    assert!(matches!(r, Err(RttError::HaltTimeout(ref c)) if c == "core still running"));
    assert_eq!(r.unwrap_err().kind(), ErrorKind::Hardware);
}

#[test]
fn reset_failure_is_reported() {
    let r = after_reset(true, Err("reset line stuck".to_string()));
    assert!(matches!(r, Err(RttError::ResetFailed(ref c)) if c == "reset line stuck"));
}
