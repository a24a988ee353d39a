//! MicroVM configuration and the pure parts of booting a guest: validation of
//! the configuration, the kernel command line, the boot-header fields that
//! point at the command line and the initial ramdisk, the guest memory size,
//! and what the run loop does on each kind of vCPU exit.
use vstd::prelude::*;
use crate::paths::path_exists;
use crate::text::{concat, decimal, has_infix, join, joined, push_decimal, push_str, views};

verus! {

/// Errors of VM set-up and execution. Errors reported by the KVM interface
/// carry the errno value; I/O and loader errors carry their message.
#[derive(Debug, PartialEq, Eq)]
pub enum VmmError {
    KvmOpen(i32),
    VmCreate(i32),
    VcpuCreate(i32),
    MemoryAllocation(String),
    MemoryRegion(i32),
    KernelLoad(String),
    KernelRead(String),
    InitramfsRead(String),
    BootParams(String),
    RegisterSetup(i32),
    VcpuRun(i32),
    InvalidConfig(String),
    Io(String),
    GuestMemory(String),
}

/// Guest physical addresses used when booting.
pub const KERNEL_START: u64 = 0x100000;
pub const BOOT_PARAMS: u64 = 0x90000;
pub const CMDLINE: u64 = 0x20000;
pub const INITRAMFS: u64 = 0x1000000;
pub const HIGH_MEM_START: u64 = 0x0;

/// Offsets of fields in the boot setup header.
pub const RAMDISK_IMAGE_OFFSET: usize = 0x218;
pub const RAMDISK_SIZE_OFFSET: usize = 0x220;
pub const CMD_LINE_PTR_OFFSET: usize = 0x228;
pub const CMDLINE_SIZE_OFFSET: usize = 0x230;

/// Configuration for a microVM.
pub struct VmConfig {
    /// Path to the kernel image (bzImage).
    pub kernel_path: String,
    /// Path to the initramfs, if any.
    pub initramfs_path: Option<String>,
    /// Command to execute inside the VM.
    pub command: String,
    /// Arguments for the command.
    pub args: Vec<String>,
    /// Memory size in MB.
    pub memory_mb: u64,
    /// Number of vCPUs (only 1 is supported).
    pub vcpu_count: u8,
}

/// The kernel command line for running `command` with `args` as the guest's
/// init: the command in double quotes after `--`, then the arguments
/// separated by single spaces.
pub open spec fn cmdline_of(command: Seq<char>, args: Seq<Seq<char>>) -> Seq<char> {
    let base = "console=ttyS0 rdinit=/bin/sh -- \""@ + command + "\""@;
    if args.len() == 0 {
        base
    } else {
        base + " "@ + joined(args, " "@)
    }
}

/// Every part of a join occurs in the joined text.
proof fn lemma_joined_has_part(parts: Seq<Seq<char>>, sep: Seq<char>, i: int)
    requires
        0 <= i < parts.len(),
    ensures
        has_infix(joined(parts, sep), parts[i]),
    decreases parts.len(),
{
    let j = joined(parts, sep);
    if parts.len() == 1 {
        assert(j == parts[0]);
        assert(j.subrange(0int, 0int + parts[i].len()) =~= parts[i]);
        assert(has_infix(j, parts[i]));
    } else {
        let front = joined(parts.drop_last(), sep);
        assert(j == front + sep + parts.last());
        if i == parts.len() - 1 {
            let k = j.len() - parts.last().len();
            assert(j.subrange(k, k + parts[i].len()) =~= parts[i]);
            assert(has_infix(j, parts[i]));
        } else {
            assert(parts.drop_last()[i] == parts[i]);
            lemma_joined_has_part(parts.drop_last(), sep, i);
            let at = choose|at: int| 0 <= at && at + parts[i].len() <= front.len()
                && #[trigger] front.subrange(at, at + parts[i].len()) == parts[i];
            assert(j.subrange(at, at + parts[i].len()) =~= front.subrange(at, at + parts[i].len()));
            assert(has_infix(j, parts[i]));
        }
    }
}

/// The kernel command line carries every configured argument: each argument
/// occurs in it, and a single argument `a` makes it end with " " and `a`.
pub proof fn lemma_cmdline_has_every_argument(command: Seq<char>, args: Seq<Seq<char>>)
    ensures
        forall|i: int| 0 <= i < args.len() ==> has_infix(cmdline_of(command, args), #[trigger] args[i]),
        args.len() == 1 ==> cmdline_of(command, args) == cmdline_of(command, Seq::empty()) + " "@ + args[0],
        args.len() > 0 ==> cmdline_of(command, args).len() > cmdline_of(command, Seq::empty()).len(),
{
    reveal_strlit(" ");
    let c = cmdline_of(command, args);
    assert forall|i: int| 0 <= i < args.len() implies has_infix(c, #[trigger] args[i]) by {
        lemma_joined_has_part(args, " "@, i);
        let j = joined(args, " "@);
        let at = choose|at: int| 0 <= at && at + args[i].len() <= j.len()
            && #[trigger] j.subrange(at, at + args[i].len()) == args[i];
        let k = c.len() - j.len();
        assert(c.subrange(k + at, k + at + args[i].len()) =~= j.subrange(at, at + args[i].len()));
    }
}

/// The configuration check on given answers to "does the kernel exist" and
/// "does the initramfs exist": the first failing check, in this order, gives
/// the error.
pub open spec fn validation_outcome(
    memory_mb: u64,
    vcpu_count: u8,
    kernel_path: Seq<char>,
    initramfs_path: Option<Seq<char>>,
    kernel_exists: bool,
    initramfs_exists: bool,
) -> Result<(), Seq<char>> {
    if !kernel_exists {
        Err("Kernel image not found at "@ + kernel_path)
    } else if memory_mb < 64 {
        Err("Memory size must be at least 64 MB"@)
    } else if vcpu_count != 1 {
        Err("Only 1 vCPU is currently supported"@)
    } else if initramfs_path is Some && !initramfs_exists {
        Err("Initramfs not found at "@ + initramfs_path->0)
    } else {
        Ok(())
    }
}

/// The view of an optional path.
pub open spec fn opt_view(p: Option<String>) -> Option<Seq<char>> {
    match p {
        Some(s) => Some(s@),
        None => None,
    }
}

/// Whether a result matches a validation outcome, an error message standing
/// for `InvalidConfig` with that message.
pub open spec fn matches_outcome(r: Result<(), VmmError>, outcome: Result<(), Seq<char>>) -> bool {
    match outcome {
        Ok(()) => r is Ok,
        Err(msg) => r matches Err(VmmError::InvalidConfig(m)) && m@ == msg,
    }
}

impl VmConfig {
    /// A configuration with defaults: no initramfs, no arguments, 128 MB, one vCPU.
    pub fn new(kernel_path: String, command: String) -> (c: Self)
        ensures
            c.kernel_path == kernel_path,
            c.initramfs_path is None,
            c.command == command,
            c.args@.len() == 0,
            c.memory_mb == 128,
            c.vcpu_count == 1,
    {
        VmConfig {
            kernel_path,
            initramfs_path: None,
            command,
            args: Vec::new(),
            memory_mb: 128,
            vcpu_count: 1,
        }
    }

    /// Checks the configuration given whether the kernel image and the
    /// initramfs exist.
    pub fn validate_with(&self, kernel_exists: bool, initramfs_exists: bool) -> (r: Result<(), VmmError>)
        ensures
            matches_outcome(
                r,
                validation_outcome(
                    self.memory_mb,
                    self.vcpu_count,
                    self.kernel_path@,
                    opt_view(self.initramfs_path),
                    kernel_exists,
                    initramfs_exists,
                ),
            ),
    {
        if !kernel_exists {
            return Err(VmmError::InvalidConfig(concat("Kernel image not found at ", self.kernel_path.as_str())));
        }
        if self.memory_mb < 64 {
            return Err(VmmError::InvalidConfig("Memory size must be at least 64 MB".to_owned()));
        }
        if self.vcpu_count != 1 {
            return Err(VmmError::InvalidConfig("Only 1 vCPU is currently supported".to_owned()));
        }
        match &self.initramfs_path {
            Some(p) => {
                if !initramfs_exists {
                    return Err(VmmError::InvalidConfig(concat("Initramfs not found at ", p.as_str())));
                }
            },
            None => {},
        }
        Ok(())
    }

    /// Checks the configuration against the file system: the kernel image
    /// must exist, memory must be at least 64 MB, exactly one vCPU is
    /// supported, and a configured initramfs must exist.
    pub fn validate(&self) -> (r: Result<(), VmmError>)
        ensures
            exists|kernel_exists: bool, initramfs_exists: bool| matches_outcome(
                r,
                #[trigger] validation_outcome(
                    self.memory_mb,
                    self.vcpu_count,
                    self.kernel_path@,
                    opt_view(self.initramfs_path),
                    kernel_exists,
                    initramfs_exists,
                ),
            ),
            self.memory_mb < 64 || self.vcpu_count != 1 ==> r is Err,
    {
        let kernel_exists = path_exists(self.kernel_path.as_str());
        let initramfs_exists = match &self.initramfs_path {
            Some(p) => path_exists(p.as_str()),
            None => true,
        };
        self.validate_with(kernel_exists, initramfs_exists)
    }

    /// The kernel command line that runs the configured command.
    pub fn build_cmdline(&self) -> (r: String)
        ensures
            r@ == cmdline_of(self.command@, views(self.args@)),
            self.args@.len() == 0 ==> r@ == "console=ttyS0 rdinit=/bin/sh -- \""@ + self.command@ + "\""@,
            self.args@.len() > 0 ==> r@ == "console=ttyS0 rdinit=/bin/sh -- \""@ + self.command@ + "\""@ + " "@
                + joined(views(self.args@), " "@),
    {
        let mut cmdline = concat("console=ttyS0 rdinit=/bin/sh -- \"", self.command.as_str());
        push_str(&mut cmdline, "\"");
        if self.args.len() > 0 {
            push_str(&mut cmdline, " ");
            let rest = join(&self.args, " ");
            push_str(&mut cmdline, rest.as_str());
            assert(cmdline@ =~= cmdline_of(self.command@, views(self.args@)));
        } else {
            assert(views(self.args@).len() == 0);
        }
        cmdline
    }
}

/// The four bytes of `v`, least significant first.
pub open spec fn le_bytes(v: u32) -> Seq<u8> {
    seq![
        (v % 0x100) as u8,
        ((v / 0x100) % 0x100) as u8,
        ((v / 0x1_0000) % 0x100) as u8,
        (v / 0x100_0000) as u8,
    ]
}

/// `h` with the four bytes at `at` replaced by `v` in little-endian order.
pub open spec fn with_le_u32(h: Seq<u8>, at: int, v: u32) -> Seq<u8> {
    h.take(at) + le_bytes(v) + h.skip(at + 4)
}

/// Writes `v` little-endian at `header[at..at + 4]`.
fn write_le_u32(header: &mut Vec<u8>, at: usize, v: u32)
    requires
        at + 4 <= old(header).len(),
    ensures
        final(header)@ == with_le_u32(old(header)@, at as int, v),
{
    assert(v as u8 == (v % 0x100) as u8) by (bit_vector);
    assert((v >> 8) as u8 == ((v / 0x100) % 0x100) as u8) by (bit_vector);
    assert((v >> 16) as u8 == ((v / 0x1_0000) % 0x100) as u8) by (bit_vector);
    assert((v >> 24) as u8 == (v / 0x100_0000) as u8) by (bit_vector);
    header.set(at, v as u8);
    header.set(at + 1, (v >> 8) as u8);
    header.set(at + 2, (v >> 16) as u8);
    header.set(at + 3, (v >> 24) as u8);
    assert(header@ =~= with_le_u32(old(header)@, at as int, v));
}

/// The header after pointing it at the command line: when the header reaches
/// past the pointer field, the pointer (low 32 bits of the address) and the
/// length (low 32 bits) are written little-endian; a shorter header is left
/// as it is.
pub open spec fn header_with_cmdline(h: Seq<u8>, addr: u64, len: usize) -> Seq<u8> {
    if h.len() > CMD_LINE_PTR_OFFSET + 4 {
        with_le_u32(with_le_u32(h, CMD_LINE_PTR_OFFSET as int, addr as u32), CMDLINE_SIZE_OFFSET as int, len as u32)
    } else {
        h
    }
}

/// Writes the guest's boot parameters.
pub struct BootConfigurator;

impl BootConfigurator {
    /// Records where the kernel command line is and how long it is in the
    /// boot setup header.
    pub fn patch_cmdline_fields(header: &mut Vec<u8>, cmdline_addr: u64, cmdline_len: usize)
        requires
            old(header)@.len() <= CMD_LINE_PTR_OFFSET + 4 || old(header)@.len() >= CMDLINE_SIZE_OFFSET + 4,
        ensures
            final(header)@ == header_with_cmdline(old(header)@, cmdline_addr, cmdline_len),
    {
        if header.len() > CMD_LINE_PTR_OFFSET + 4 {
            write_le_u32(header, CMD_LINE_PTR_OFFSET, cmdline_addr as u32);
            write_le_u32(header, CMDLINE_SIZE_OFFSET, cmdline_len as u32);
        }
    }
}

/// The header after pointing it at the initial ramdisk, on the same terms as
/// the command line.
pub open spec fn header_with_ramdisk(h: Seq<u8>, addr: u64, size: usize) -> Seq<u8> {
    if h.len() > RAMDISK_IMAGE_OFFSET + 4 {
        with_le_u32(with_le_u32(h, RAMDISK_IMAGE_OFFSET as int, addr as u32), RAMDISK_SIZE_OFFSET as int, size as u32)
    } else {
        h
    }
}

/// Places the kernel and the initial ramdisk in guest memory.
pub struct VMKernelLoader;

impl VMKernelLoader {
    /// Records where the initial ramdisk is and how large it is in the boot
    /// setup header.
    pub fn patch_ramdisk_fields(header: &mut Vec<u8>, ramdisk_addr: u64, ramdisk_size: usize)
        requires
            old(header)@.len() <= RAMDISK_IMAGE_OFFSET + 4 || old(header)@.len() >= RAMDISK_SIZE_OFFSET + 4,
        ensures
            final(header)@ == header_with_ramdisk(old(header)@, ramdisk_addr, ramdisk_size),
    {
        if header.len() > RAMDISK_IMAGE_OFFSET + 4 {
            write_le_u32(header, RAMDISK_IMAGE_OFFSET, ramdisk_addr as u32);
            write_le_u32(header, RAMDISK_SIZE_OFFSET, ramdisk_size as u32);
        }
    }
}

/// Reads the 32-bit little-endian value at `at`.
pub open spec fn le_u32_at(h: Seq<u8>, at: int) -> int {
    h[at] + h[at + 1] * 0x100 + h[at + 2] * 0x1_0000 + h[at + 3] * 0x100_0000
}

/// What is read back from a patched field is what was written: the low 32
/// bits of the value, little-endian; every byte outside the field is kept.
pub proof fn lemma_le_field_read_back(h: Seq<u8>, at: int, v: u32)
    requires
        0 <= at,
        at + 4 <= h.len(),
    ensures
        with_le_u32(h, at, v).len() == h.len(),
        le_u32_at(with_le_u32(h, at, v), at) == v,
        forall|i: int| 0 <= i < h.len() && !(at <= i < at + 4) ==> #[trigger] with_le_u32(h, at, v)[i] == h[i],
{
    let w = with_le_u32(h, at, v);
    assert(w[at] == (v % 0x100) as u8);
    assert(w[at + 1] == ((v / 0x100) % 0x100) as u8);
    assert(w[at + 2] == ((v / 0x1_0000) % 0x100) as u8);
    assert(w[at + 3] == (v / 0x100_0000) as u8);
    assert(((v % 0x100) as u8) + (((v / 0x100) % 0x100) as u8) * 0x100 + (((v / 0x1_0000) % 0x100) as u8)
        * 0x1_0000 + ((v / 0x100_0000) as u8) * 0x100_0000 == v) by (bit_vector);
}

/// Guest memory size in bytes for a size in MB: the MB count as a machine
/// word shifted left by 20, high bits dropped.
pub fn guest_memory_bytes(size_mb: u64) -> (r: usize)
    ensures
        r == (size_mb as usize) << 20usize,
{
    (size_mb as usize) << 20usize
}

/// Why a vCPU returned control to the run loop.
pub enum VcpuExitKind {
    IoOut { port: u16 },
    IoIn { port: u16 },
    Hlt,
    Shutdown,
    FailEntry { reason: u64 },
    Other,
}

/// What the run loop does after a vCPU exit.
#[derive(Debug, PartialEq, Eq)]
pub enum RunAction {
    /// Hand the guest's write to `port` to the device manager, then run again.
    WritePort { port: u16 },
    /// Serve the guest's read of `port` from the device manager, then run again.
    ReadPort { port: u16 },
    /// Nothing to serve; run again.
    Continue,
    /// The guest is done; the run ends with exit code 0.
    Finish,
    /// The run fails with this error.
    Fail(VmmError),
}

/// The run loop's response to each exit: port writes and reads go to the
/// device manager, halts and shutdowns end the run, a failed entry fails it,
/// every other exit continues it.
pub fn exit_action(exit: &VcpuExitKind) -> (r: RunAction)
    ensures
        match *exit {
            VcpuExitKind::IoOut { port } => r == RunAction::WritePort { port },
            VcpuExitKind::IoIn { port } => r == RunAction::ReadPort { port },
            VcpuExitKind::Hlt | VcpuExitKind::Shutdown => r == RunAction::Finish,
            VcpuExitKind::FailEntry { reason } => r matches RunAction::Fail(VmmError::InvalidConfig(m))
                && m@ == "VM entry failed: "@ + decimal(reason as nat),
            VcpuExitKind::Other => r == RunAction::Continue,
        },
{
    match exit {
        VcpuExitKind::IoOut { port } => RunAction::WritePort { port: *port },
        VcpuExitKind::IoIn { port } => RunAction::ReadPort { port: *port },
        VcpuExitKind::Hlt | VcpuExitKind::Shutdown => RunAction::Finish,
        VcpuExitKind::FailEntry { reason } => {
            let mut m = "VM entry failed: ".to_owned();
            push_decimal(&mut m, *reason);
            RunAction::Fail(VmmError::InvalidConfig(m))
        },
        VcpuExitKind::Other => RunAction::Continue,
    }
}

/// The vCPU register values for entering a 64-bit kernel.
#[derive(Clone, Copy)]
pub struct BootRegisters {
    pub cs_base: u64,
    pub cs_selector: u16,
    pub cs_l: u8,
    pub cs_db: u8,
    pub rip: u64,
    pub rflags: u64,
    pub rsi: u64,
}

/// Prepares the vCPU for 64-bit long mode.
pub struct CpuConfigurator;

impl CpuConfigurator {
    /// Registers for starting at `entry_point` in long mode: a flat 64-bit
    /// code segment, only the reserved flag bit set, no boot-parameter pointer.
    pub fn boot_registers(entry_point: u64) -> (r: BootRegisters)
        ensures
            r.cs_base == 0 && r.cs_selector == 0 && r.cs_l == 1 && r.cs_db == 0,
            r.rip == entry_point && r.rflags == 2 && r.rsi == 0,
    {
        BootRegisters { cs_base: 0, cs_selector: 0, cs_l: 1, cs_db: 0, rip: entry_point, rflags: 2, rsi: 0 }
    }
}

} // verus!
