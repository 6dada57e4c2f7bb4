use folo::error::hresult_from_nt;
use folo::error::hresult_from_win32;
use folo::error::Error;
use folo::error::OperationError;
use folo::error::ERROR_IO_PENDING;
use folo::error::FACILITY_NT_BIT;
use folo::error::SOCKET_ERROR;
use folo::error::STATUS_SUCCESS;
use folo::error::WSA_IO_PENDING;
use folo::buffer::PinnedBuffer;

#[test]
fn platform_codes() {
    assert_eq!(ERROR_IO_PENDING, 997);
    assert_eq!(SOCKET_ERROR, -1);
    assert_eq!(WSA_IO_PENDING, 997);
    assert_eq!(STATUS_SUCCESS, 0);
    assert_eq!(FACILITY_NT_BIT, 0x1000_0000);
}

#[test]
fn result_code_of_a_win32_error() {
    assert_eq!(hresult_from_win32(0), 0);
    assert_eq!(hresult_from_win32(5), -2147024891);
    assert_eq!(hresult_from_win32(997), -2147023899);
    assert_eq!(hresult_from_win32(997) as u32, 0x8007_03e5);
    assert_eq!(hresult_from_win32(0xffff) as u32, 0x8007_ffff);
    // Above sixteen bits only the low sixteen are kept.
    assert_eq!(hresult_from_win32(0x1_0005) as u32, 0x8007_0005);
    assert_eq!(hresult_from_win32(0x7fff_ffff) as u32, 0x8007_ffff);
    // A code with the failure bit is a result code already.
    assert_eq!(hresult_from_win32(0x8000_0000), i32::MIN);
    assert_eq!(hresult_from_win32(0x8007_0005), -2147024891);
    assert_eq!(hresult_from_win32(u32::MAX), -1);
}

#[test]
fn result_code_of_a_status() {
    assert_eq!(hresult_from_nt(0), 0);
    assert_eq!(hresult_from_nt(259), 259);
    assert_eq!(hresult_from_nt(i32::MAX), i32::MAX);
    assert_eq!(hresult_from_nt(-1073741819) as u32, 0xd000_0005);
    assert_eq!(hresult_from_nt(-1073741819), -805306363);
    assert_eq!(hresult_from_nt(i32::MIN) as u32, 0x9000_0000);
    // The bit may be there already.
    assert_eq!(hresult_from_nt(-805306363), -805306363);
    assert_eq!(hresult_from_nt(-1), -1);
}

#[test]
fn operation_error_holds_the_error_and_the_buffer() {
    let failure = OperationError::new(Error::Windows(5), PinnedBuffer::from_vec(vec![7, 8]));
    assert_eq!(failure.error, Error::Windows(5));
    assert_eq!(failure.buffer.as_slice(), &[7, 8][..]);
    let buffer = failure.into_inner_buffer();
    assert_eq!(buffer.as_slice(), &[7, 8][..]);
}
