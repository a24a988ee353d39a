use virtualos::vm::{
    exit_action, guest_memory_bytes, BootConfigurator, CpuConfigurator, RunAction, VMKernelLoader,
    VcpuExitKind, VmConfig, VmmError,
};

fn config() -> VmConfig {
    VmConfig::new("/nonexistent/vmlinux".to_string(), "/bin/echo".to_string())
}

#[test]
fn defaults() {
    let c = config();
    assert_eq!(c.memory_mb, 128);
    assert_eq!(c.vcpu_count, 1);
    assert!(c.initramfs_path.is_none());
    assert!(c.args.is_empty());
}

#[test]
fn command_lines() {
    let mut c = config();
    assert_eq!(c.build_cmdline(), "console=ttyS0 rdinit=/bin/sh -- \"/bin/echo\"");
    c.args = vec!["hello".to_string(), "world".to_string()];
    assert_eq!(c.build_cmdline(), "console=ttyS0 rdinit=/bin/sh -- \"/bin/echo\" hello world");
}

#[test]
fn validation_order() {
    let mut c = config();
    assert_eq!(
        c.validate_with(false, true),
        Err(VmmError::InvalidConfig("Kernel image not found at /nonexistent/vmlinux".to_string()))
    );
    c.memory_mb = 32;
    assert_eq!(
        c.validate_with(true, true),
        Err(VmmError::InvalidConfig("Memory size must be at least 64 MB".to_string()))
    );
    c.memory_mb = 64;
    c.vcpu_count = 2;
    assert_eq!(
        c.validate_with(true, true),
        Err(VmmError::InvalidConfig("Only 1 vCPU is currently supported".to_string()))
    );
    c.vcpu_count = 1;
    assert_eq!(c.validate_with(true, false), Ok(()));
    c.initramfs_path = Some("/r.img".to_string());
    assert_eq!(
        c.validate_with(true, false),
        Err(VmmError::InvalidConfig("Initramfs not found at /r.img".to_string()))
    );
    assert_eq!(c.validate_with(true, true), Ok(()));
    // against the real file system: the kernel does not exist
    assert!(matches!(config().validate(), Err(VmmError::InvalidConfig(_))));
}

#[test]
fn header_fields() {
    let mut h = vec![0u8; 0x240];
    BootConfigurator::patch_cmdline_fields(&mut h, 0x1_0002_0000, 300);
    assert_eq!(&h[0x228..0x22c], &0x0002_0000u32.to_le_bytes());
    assert_eq!(&h[0x230..0x234], &300u32.to_le_bytes());
    assert!(h[..0x228].iter().all(|b| *b == 0));
    let mut short = vec![7u8; 0x100];
    BootConfigurator::patch_cmdline_fields(&mut short, 1, 2);
    assert_eq!(short, vec![7u8; 0x100]);
    let mut r = vec![0u8; 0x240];
    VMKernelLoader::patch_ramdisk_fields(&mut r, 0x100_0000, 4096);
    assert_eq!(&r[0x218..0x21c], &0x100_0000u32.to_le_bytes());
    assert_eq!(&r[0x220..0x224], &4096u32.to_le_bytes());
}

#[test]
fn memory_sizes() {
    assert_eq!(guest_memory_bytes(128), 128 << 20);
    assert_eq!(guest_memory_bytes(0), 0);
}

#[test]
fn exits() {
    assert_eq!(exit_action(&VcpuExitKind::Hlt), RunAction::Finish);
    assert_eq!(exit_action(&VcpuExitKind::Shutdown), RunAction::Finish);
    assert_eq!(exit_action(&VcpuExitKind::IoOut { port: 0x3f8 }), RunAction::WritePort { port: 0x3f8 });
    assert_eq!(exit_action(&VcpuExitKind::IoIn { port: 0x60 }), RunAction::ReadPort { port: 0x60 });
    assert_eq!(exit_action(&VcpuExitKind::Other), RunAction::Continue);
    assert_eq!(
        exit_action(&VcpuExitKind::FailEntry { reason: 33 }),
        RunAction::Fail(VmmError::InvalidConfig("VM entry failed: 33".to_string()))
    );
}

#[test]
fn long_mode_registers() {
    let r = CpuConfigurator::boot_registers(0x100000);
    assert_eq!((r.rip, r.rflags, r.rsi, r.cs_l, r.cs_db), (0x100000, 2, 0, 1, 0));
}
