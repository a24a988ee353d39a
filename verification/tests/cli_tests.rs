use virtualos::cli::{daemon_route, CommandKind, DaemonRoute};
use virtualos::cli::{memory_spec_parts, split_memory_spec, suffix_factor, EbpfCmd, MemoryError};

#[test]
fn splits_number_and_suffix() {
    let m = split_memory_spec("512m").unwrap();
    assert_eq!((m.number.as_str(), m.suffix.as_str()), ("512", "m"));
    let m = split_memory_spec("1.5gb").unwrap();
    assert_eq!((m.number.as_str(), m.suffix.as_str()), ("1.5", "gb"));
    let m = split_memory_spec("1024").unwrap();
    assert_eq!((m.number.as_str(), m.suffix.as_str()), ("1024", ""));
    let m = split_memory_spec("abc").unwrap();
    assert_eq!((m.number.as_str(), m.suffix.as_str()), ("", "abc"));
    assert!(matches!(split_memory_spec(""), Err(MemoryError::Empty)));
}

#[test]
fn trims_and_lowercases_first() {
    let m = memory_spec_parts("  256MB \n").unwrap();
    assert_eq!((m.number.as_str(), m.suffix.as_str()), ("256", "mb"));
    let m = memory_spec_parts("2G").unwrap();
    assert_eq!(m.suffix, "g");
    assert!(matches!(memory_spec_parts("   "), Err(MemoryError::Empty)));
}

#[test]
fn suffix_factors() {
    assert_eq!(suffix_factor(""), Ok(1));
    assert_eq!(suffix_factor("k"), Ok(1024));
    assert_eq!(suffix_factor("kb"), Ok(1024));
    assert_eq!(suffix_factor("m"), Ok(1024 * 1024));
    assert_eq!(suffix_factor("mb"), Ok(1024 * 1024));
    assert_eq!(suffix_factor("g"), Ok(1024 * 1024 * 1024));
    assert_eq!(suffix_factor("gb"), Ok(1024 * 1024 * 1024));
    assert_eq!(suffix_factor("tb"), Err(MemoryError::UnknownSuffix("tb".to_string())));
    assert_eq!(suffix_factor("kib"), Err(MemoryError::UnknownSuffix("kib".to_string())));
    assert_eq!(suffix_factor("b"), Err(MemoryError::UnknownSuffix("b".to_string())));
}

#[test]
fn tracing_command() {
    assert_eq!(EbpfCmd::Trace, EbpfCmd::Trace);
}

#[test]
fn daemon_routing() {
    assert_eq!(daemon_route(CommandKind::Run, false), DaemonRoute::RefuseForegroundRun);
    assert_eq!(daemon_route(CommandKind::Run, true), DaemonRoute::Remote);
    assert_eq!(daemon_route(CommandKind::NetworkInit, true), DaemonRoute::RefuseNetworkInit);
    assert_eq!(daemon_route(CommandKind::Ps, false), DaemonRoute::Remote);
    assert_eq!(daemon_route(CommandKind::Ebpf, false), DaemonRoute::Local);
    assert_eq!(daemon_route(CommandKind::Monitor, false), DaemonRoute::Local);
}
