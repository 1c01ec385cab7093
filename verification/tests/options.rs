use memfile::CreateOptions;
use memfile::FromFdError;
use memfile::HugeTlb;

#[test]
fn default_flags() {
    // Close-on-exec alone.
    assert!(CreateOptions::new().as_flags() == 0x1);
    assert!(CreateOptions::default().as_flags() == 0x1);
}

#[test]
fn sealing_flag() {
    assert!(CreateOptions::new().allow_sealing(true).as_flags() == 0x1 | 0x2);
    assert!(CreateOptions::new().allow_sealing(true).allow_sealing(false).as_flags() == 0x1);
}

#[test]
fn huge_tlb_flags() {
    assert!(HugeTlb::Huge64KB.flag() == 16 << 26);
    assert!(HugeTlb::Huge2MB.flag() == 21 << 26);
    assert!(HugeTlb::Huge16GB.flag() == 34u32 << 26);
    let flags = CreateOptions::new().huge_tlb(Some(HugeTlb::Huge2MB)).as_flags();
    assert!(flags == 0x1 | 0x4 | (21 << 26));
    let both = CreateOptions::new().allow_sealing(true).huge_tlb(Some(HugeTlb::Huge1GB)).as_flags();
    assert!(both == 0x1 | 0x2 | 0x4 | (30 << 26));
    let cleared = CreateOptions::new().huge_tlb(Some(HugeTlb::Huge2MB)).huge_tlb(None).as_flags();
    assert!(cleared == 0x1);
}

#[test]
fn from_fd_error_accessors() {
    let error = std::io::Error::new(std::io::ErrorKind::InvalidInput, "not a memfd");
    let wrapped = FromFdError::new(error, String::from("the original handle"));
    assert!(wrapped.error().kind() == std::io::ErrorKind::InvalidInput);
    assert!(wrapped.file() == "the original handle");
    let (error, file) = wrapped.into_parts();
    assert!(error.kind() == std::io::ErrorKind::InvalidInput);
    assert!(file == "the original handle");
}

#[test]
fn from_fd_error_into_error_and_file() {
    let error = std::io::Error::new(std::io::ErrorKind::PermissionDenied, "sealed");
    let wrapped = FromFdError::new(error, 7u64);
    assert!(wrapped.error().kind() == std::io::ErrorKind::PermissionDenied);
    assert!(wrapped.into_error().kind() == std::io::ErrorKind::PermissionDenied);

    let error = std::io::Error::new(std::io::ErrorKind::PermissionDenied, "sealed");
    let wrapped = FromFdError::new(error, 7u64);
    assert!(wrapped.into_file() == 7u64);
}
