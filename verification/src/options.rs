//! Creation options for anonymous memory files, and their flag encoding.

use vstd::prelude::*;

verus! {

/// Flag bit that sets close-on-exec on the new descriptor (`MFD_CLOEXEC`).
/// It is always requested.
pub const MFD_CLOEXEC: u32 = 0x01;

/// Flag bit that enables the seal machinery for the new file
/// (`MFD_ALLOW_SEALING`).
pub const MFD_ALLOW_SEALING: u32 = 0x02;

/// Flag bit that asks for huge-page backing (`MFD_HUGETLB`).
pub const MFD_HUGETLB: u32 = 0x04;

/// The shift that positions a huge-page size selector inside a flag word.
pub const MFD_HUGE_SHIFT: u32 = 26;

/// Size selector for 64KB huge pages (`MFD_HUGE_64KB`).
pub const MFD_HUGE_64KB: u32 = 16u32 << MFD_HUGE_SHIFT;

/// Size selector for 512KB huge pages (`MFD_HUGE_512KB`).
pub const MFD_HUGE_512KB: u32 = 19u32 << MFD_HUGE_SHIFT;

/// Size selector for 1MB huge pages (`MFD_HUGE_1MB`).
pub const MFD_HUGE_1MB: u32 = 20u32 << MFD_HUGE_SHIFT;

/// Size selector for 2MB huge pages (`MFD_HUGE_2MB`).
pub const MFD_HUGE_2MB: u32 = 21u32 << MFD_HUGE_SHIFT;

/// Size selector for 8MB huge pages (`MFD_HUGE_8MB`).
pub const MFD_HUGE_8MB: u32 = 23u32 << MFD_HUGE_SHIFT;

/// Size selector for 16MB huge pages (`MFD_HUGE_16MB`).
pub const MFD_HUGE_16MB: u32 = 24u32 << MFD_HUGE_SHIFT;

/// Size selector for 32MB huge pages (`MFD_HUGE_32MB`).
pub const MFD_HUGE_32MB: u32 = 25u32 << MFD_HUGE_SHIFT;

/// Size selector for 256MB huge pages (`MFD_HUGE_256MB`).
pub const MFD_HUGE_256MB: u32 = 28u32 << MFD_HUGE_SHIFT;

/// Size selector for 512MB huge pages (`MFD_HUGE_512MB`).
pub const MFD_HUGE_512MB: u32 = 29u32 << MFD_HUGE_SHIFT;

/// Size selector for 1GB huge pages (`MFD_HUGE_1GB`).
pub const MFD_HUGE_1GB: u32 = 30u32 << MFD_HUGE_SHIFT;

/// Size selector for 2GB huge pages (`MFD_HUGE_2GB`).
pub const MFD_HUGE_2GB: u32 = 31u32 << MFD_HUGE_SHIFT;

/// Size selector for 16GB huge pages (`MFD_HUGE_16GB`).
pub const MFD_HUGE_16GB: u32 = 34u32 << MFD_HUGE_SHIFT;

/// Page size for the translation look-aside buffer.
///
/// Support for specific sizes depends on the CPU and kernel configuration.
#[derive(Copy, Clone, Debug, PartialEq, Eq, PartialOrd, Ord, Hash, Structural)]
pub enum HugeTlb {
    Huge64KB,
    Huge512KB,
    Huge1MB,
    Huge2MB,
    Huge8MB,
    Huge16MB,
    Huge32MB,
    Huge256MB,
    Huge512MB,
    Huge1GB,
    Huge2GB,
    Huge16GB,
}

/// The flag bits a huge-page size selector contributes to a flag word.
pub open spec fn huge_tlb_flag(size: HugeTlb) -> u32 {
    match size {
        HugeTlb::Huge64KB => MFD_HUGE_64KB,
        HugeTlb::Huge512KB => MFD_HUGE_512KB,
        HugeTlb::Huge1MB => MFD_HUGE_1MB,
        HugeTlb::Huge2MB => MFD_HUGE_2MB,
        HugeTlb::Huge8MB => MFD_HUGE_8MB,
        HugeTlb::Huge16MB => MFD_HUGE_16MB,
        HugeTlb::Huge32MB => MFD_HUGE_32MB,
        HugeTlb::Huge256MB => MFD_HUGE_256MB,
        HugeTlb::Huge512MB => MFD_HUGE_512MB,
        HugeTlb::Huge1GB => MFD_HUGE_1GB,
        HugeTlb::Huge2GB => MFD_HUGE_2GB,
        HugeTlb::Huge16GB => MFD_HUGE_16GB,
    }
}

impl HugeTlb {
    /// The raw flag bits of this huge-page size selector.
    pub fn flag(self) -> (r: u32)
        ensures
            r == huge_tlb_flag(self),
    {
        match self {
            HugeTlb::Huge64KB => MFD_HUGE_64KB,
            HugeTlb::Huge512KB => MFD_HUGE_512KB,
            HugeTlb::Huge1MB => MFD_HUGE_1MB,
            HugeTlb::Huge2MB => MFD_HUGE_2MB,
            HugeTlb::Huge8MB => MFD_HUGE_8MB,
            HugeTlb::Huge16MB => MFD_HUGE_16MB,
            HugeTlb::Huge32MB => MFD_HUGE_32MB,
            HugeTlb::Huge256MB => MFD_HUGE_256MB,
            HugeTlb::Huge512MB => MFD_HUGE_512MB,
            HugeTlb::Huge1GB => MFD_HUGE_1GB,
            HugeTlb::Huge2GB => MFD_HUGE_2GB,
            HugeTlb::Huge16GB => MFD_HUGE_16GB,
        }
    }
}

/// The creation flag word for a configuration: close-on-exec always, the
/// sealing flag when sealing is allowed, and the huge-page flag together
/// with the encoded page size when one is configured.
pub open spec fn creation_flags(allow_sealing: bool, huge_tlb: Option<HugeTlb>) -> u32 {
    MFD_CLOEXEC | (if allow_sealing {
        MFD_ALLOW_SEALING
    } else {
        0
    }) | (match huge_tlb {
        Option::None => 0,
        Option::Some(size) => MFD_HUGETLB | huge_tlb_flag(size),
    })
}

/// Options for creating an anonymous memory file.
///
/// Two independent settings: whether sealing is allowed (off by default)
/// and an optional huge-page size (none by default).
#[derive(Copy, Clone, Debug)]
pub struct CreateOptions {
    allow_sealing: bool,
    huge_table: Option<HugeTlb>,
}

impl CreateOptions {
    /// Whether sealing operations will be allowed on the created file.
    pub closed spec fn spec_allow_sealing(self) -> bool {
        self.allow_sealing
    }

    /// The configured huge-page size, if any.
    pub closed spec fn spec_huge_tlb(self) -> Option<HugeTlb> {
        self.huge_table
    }

    /// Get the default creation options: sealing not allowed, no huge-page
    /// size configured.
    ///
    /// Note that the close-on-exec flag will always be set on the created
    /// file descriptor. To pass the descriptor to a child process,
    /// duplicate it *after forking*: disabling close-on-exec before
    /// forking causes a race condition with other threads.
    pub fn new() -> (r: Self)
        ensures
            !r.spec_allow_sealing(),
            r.spec_huge_tlb() is None,
    {
        CreateOptions { allow_sealing: false, huge_table: None }
    }

    /// Allow sealing operations on the created file.
    pub fn allow_sealing(self, value: bool) -> (r: Self)
        ensures
            r.spec_allow_sealing() == value,
            r.spec_huge_tlb() == self.spec_huge_tlb(),
    {
        CreateOptions { allow_sealing: value, ..self }
    }

    /// Create the file in a `hugetlbfs` filesystem using huge pages for
    /// the translation look-aside buffer.
    ///
    /// Support for this feature and specific sizes depend on the CPU and
    /// kernel configuration.
    pub fn huge_tlb(self, value: Option<HugeTlb>) -> (r: Self)
        ensures
            r.spec_allow_sealing() == self.spec_allow_sealing(),
            r.spec_huge_tlb() == value,
    {
        CreateOptions { huge_table: value, ..self }
    }

    /// Get the options as a raw flag word for the creation syscall.
    pub fn as_flags(&self) -> (r: u32)
        ensures
            r == creation_flags(self.spec_allow_sealing(), self.spec_huge_tlb()),
    {
        let sealing: u32 = if self.allow_sealing {
            MFD_ALLOW_SEALING
        } else {
            0
        };
        let huge: u32 = match self.huge_table {
            None => 0,
            Some(size) => MFD_HUGETLB | size.flag(),
        };
        MFD_CLOEXEC | sealing | huge
    }
}

impl Default for CreateOptions {
    /// The default creation options, as [`CreateOptions::new`] gives them.
    fn default() -> (r: Self)
        ensures
            !r.spec_allow_sealing(),
            r.spec_huge_tlb() is None,
    {
        CreateOptions::new()
    }
}

} // verus!
