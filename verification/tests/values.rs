use spdk_rs::bdev_async::{completion_result, two_step_result, unregister_result};
use spdk_rs::bdev_nvme::{bdev_nvme_delete_result, default_path_id, path_for_delete, NvmePathId, TRADDR_SIZE, TRANSPORT_PCIE};
use spdk_rs::dma::DmaBuf;
use spdk_rs::errno::{abs_i32, errno_error, errno_result_from_i32, to_result, to_result_u32, Errno, EEXIST, EINVAL, ENOSPC};
use spdk_rs::error::{DmaError, SpdkError};
use spdk_rs::ffihelper::{c_str, c_text, c_text_len, copy_cstr_with_null, copy_str_with_null, AsStr};
use spdk_rs::io_device_traverse::ChannelTraverseStatus;
use spdk_rs::io_type::{IoStatus, IoType, NUM_IO_TYPES};
use spdk_rs::io_vec::IoVec;
use spdk_rs::json_write_context::{is_plain_name, JsonWriteContext};
use spdk_rs::nvme::{spdk_nvme_status, NvmeStatus};
use spdk_rs::nvmf::{NvmfController, NvmfSubsystemEvent};
use spdk_rs::text::{decimal, signed_decimal};
use spdk_rs::unsafe_types::UnsafeData;

#[test]
fn zero_is_success() {
    assert_eq!(errno_result_from_i32(7u32, 0), Ok(7u32));
    assert_eq!(completion_result(0), Ok(()));
    assert_eq!(to_result(0, Errno::from_raw), Ok(()));
    assert_eq!(to_result_u32(0, |c| c + 1), Ok(()));
}

#[test]
fn errors_are_filed_under_the_absolute_value() {
    let r = errno_result_from_i32((), -EEXIST);
    assert_eq!(r, Err(Errno::from_raw(EEXIST)));
    assert_eq!(r.unwrap_err().code(), 17);
    assert_eq!(errno_result_from_i32((), EEXIST), Err(Errno::from_raw(EEXIST)));
    assert_eq!(errno_error::<u8>(-EINVAL), Err(Errno::from_raw(EINVAL)));
    assert_eq!(errno_error::<u8>(-EINVAL).unwrap_err().code(), 22);
    assert_eq!(to_result(-5, |c| c), Err(5));
    assert_eq!(to_result(5, |c| c * 2), Err(10));
    assert_eq!(to_result(-EEXIST, Errno::from_raw), Err(Errno::from_raw(EEXIST)));
    assert_eq!(to_result_u32(9, |c| c + 1), Err(10));
    assert_eq!(abs_i32(-3), 3);
    assert_eq!(abs_i32(i32::MAX), i32::MAX);
}

#[test]
fn unknown_error_numbers_are_filed_under_zero() {
    let e = Errno::from_raw(100_000);
    assert_eq!(e.code(), 0);
    assert!(e.is(0));
    assert_eq!(e.describe(), "UnknownErrno: Unknown errno");
    assert_eq!(Errno::from_raw(ENOSPC).describe(), "ENOSPC: No space left on device");
}

#[test]
fn unregister_results() {
    assert_eq!(unregister_result("d".to_string(), 0), Ok(()));
    assert_eq!(
        unregister_result("d".to_string(), -16),
        Err(SpdkError::BdevUnregisterFailed { source: Errno::from_raw(16), name: "d".to_string() })
    );
}

#[test]
fn two_step_results() {
    assert_eq!(two_step_result(0, Ok(())), Ok(()));
    assert_eq!(two_step_result(-19, Ok(())), Err(Errno::from_raw(19)));
    assert_eq!(two_step_result(0, Err(Errno::from_raw(5))), Err(Errno::from_raw(5)));
    assert_eq!(two_step_result(3, Ok(())), Ok(()));
    assert_eq!(bdev_nvme_delete_result(-2, Ok(())), Err(Errno::from_raw(2)));
    assert_eq!(bdev_nvme_delete_result(0, completion_result(-22)), Err(Errno::from_raw(22)));
}

#[test]
fn default_path_is_the_name_on_pcie() {
    let p = default_path_id("0000:01:00.0");
    assert_eq!(p.trtype, TRANSPORT_PCIE);
    assert_eq!(p.traddr.len(), TRADDR_SIZE);
    assert_eq!(c_text(&p.traddr), b"0000:01:00.0");
    let long = "x".repeat(300);
    let p = default_path_id(&long);
    assert_eq!(c_text_len(&p.traddr), 256);
    let given = NvmePathId { trtype: 1, traddr: vec![b'a', 0] };
    assert_eq!(path_for_delete("n", Some(given.clone())), given);
    assert_eq!(path_for_delete("n", None), default_path_id("n"));
}

#[test]
fn copy_closes_with_zero_and_truncates() {
    let mut dst = vec![0xffu8; 6];
    copy_str_with_null("abc", &mut dst);
    assert_eq!(dst, vec![b'a', b'b', b'c', 0, 0xff, 0xff]);
    let mut dst = vec![0xffu8; 4];
    copy_cstr_with_null(b"abcdef", &mut dst);
    assert_eq!(dst, vec![b'a', b'b', b'c', 0]);
    let mut dst = vec![0xffu8; 1];
    copy_str_with_null("abc", &mut dst);
    assert_eq!(dst, vec![0]);
    let mut dst = vec![7u8; 3];
    copy_str_with_null("", &mut dst);
    assert_eq!(dst, vec![0, 7, 7]);
    assert_eq!(c_text(b"ab\0cd\0"), b"ab");
    assert_eq!(c_text(b"abcd"), b"abcd");
    assert_eq!(c_text_len(b"\0"), 0);
    assert_eq!(c_str(b"gr\xc3\xbc\xc3\x9f\0dich"), "gr\u{fc}\u{df}");
    assert_eq!(c_str(b"ab\xc3\0"), "");
    assert_eq!(vec![b'o', b'k', 0, b'x'].as_str(), "ok");
    assert_eq!(c_text_len(b""), 0);
}

#[test]
fn traverse_status_codes() {
    assert_eq!(ChannelTraverseStatus::from_code(0), ChannelTraverseStatus::Proceed);
    assert_eq!(ChannelTraverseStatus::from_code(1), ChannelTraverseStatus::Cancel);
    assert_eq!(ChannelTraverseStatus::from_code(-7), ChannelTraverseStatus::Cancel);
    assert_eq!(ChannelTraverseStatus::Proceed.code(), 0);
    assert_eq!(ChannelTraverseStatus::Cancel.code(), 1);
}

#[test]
fn io_type_codes_round_trip() {
    for code in 0..=NUM_IO_TYPES {
        assert_eq!(IoType::from_code(code).code(), code);
    }
    assert_eq!(IoType::from_code(0), IoType::Invalid);
    assert_eq!(IoType::from_code(1), IoType::Read);
    assert_eq!(IoType::from_code(13), IoType::ZoneAppend);
    assert_eq!(IoType::from_code(20), IoType::IoNumTypes);
    assert_eq!(IoType::Copy.code(), 19);
}

#[test]
fn io_status_codes_round_trip() {
    for code in -8..=1 {
        assert_eq!(IoStatus::from_code(code).code(), code);
    }
    assert_eq!(IoStatus::from_code(-8), IoStatus::AioError);
    assert_eq!(IoStatus::from_code(0), IoStatus::Pending);
    assert_eq!(IoStatus::from_code(1), IoStatus::Success);
    assert_eq!(IoStatus::from_i8(-4), IoStatus::NoMemory);
    assert_eq!(IoStatus::Failed.code(), -1);
}

#[test]
fn io_vec_compare_finds_first_difference() {
    let a = IoVec::new(Some(vec![1, 2, 3, 4]), 4);
    let b = IoVec::new(Some(vec![1, 2, 9, 9]), 4);
    assert_eq!(IoVec::compare(&a, &b), Some(2));
    assert_eq!(IoVec::compare(&a, &a.clone()), None);
    let short = IoVec::new(Some(vec![1, 2, 3, 4]), 3);
    assert_eq!(IoVec::compare(&short, &a), Some(3));
    assert_eq!(IoVec::compare(&a, &short), Some(3));
    let none = IoVec::new(None, 0);
    assert_eq!(IoVec::compare(&none, &IoVec::new(None, 0)), None);
    assert!(!none.is_initialized());
    assert!(none.is_empty());
    assert!(a.is_initialized());
    assert!(!a.is_empty());
    assert_eq!(a.len(), 4);
    assert_eq!(a.byte_at(3), 4);
    assert_eq!(a.as_slice(), &[1, 2, 3, 4]);
    assert_eq!(short.as_slice(), &[1, 2, 3]);
    // Only the bytes that count are compared.
    let mut c = IoVec::new(Some(vec![1, 2, 9, 9]), 4);
    assert_eq!(c.set_len(2), 4);
    let mut d = IoVec::new(Some(vec![1, 2, 3, 4]), 2);
    assert_eq!(IoVec::compare(&c, &d), None);
    d.fill(7);
    assert_eq!(d.byte_at(0), 7);
    assert_eq!(d.byte_at(1), 7);
    assert_eq!(d.set_len(4), 2);
    assert_eq!(d.byte_at(2), 3);
}

#[test]
fn dma_buffers_start_zeroed() {
    let mut buf = DmaBuf::new(8, 4096).unwrap();
    assert_eq!(buf.len(), 8);
    let v = buf.to_io_vec();
    assert_eq!(v.len(), 8);
    assert_eq!(IoVec::compare(&v, &IoVec::new(Some(vec![0; 8]), 8)), None);
    buf.fill(0xab);
    assert_eq!(IoVec::compare(&buf.to_io_vec(), &v), Some(0));
    assert_eq!(buf.to_io_vec().byte_at(7), 0xab);
    assert!(DmaBuf::new(0, 0).is_ok());
    assert_eq!(DmaBuf::new(8, 3).unwrap_err(), DmaError::Alloc);
    assert_eq!(DmaBuf::new(8, 4097).unwrap_err(), DmaError::Alloc);
    assert_eq!(DmaError::Alloc.message(), "Failed to allocate DMA buffer");
}

#[test]
fn nvme_status_codes() {
    assert_eq!(NvmeStatus::from_codes(0, 0), NvmeStatus::Generic(0));
    assert!(NvmeStatus::from_codes(0, 0).is_success());
    assert!(!NvmeStatus::from_codes(0, 4).is_success());
    assert!(!NvmeStatus::from_codes(1, 0).is_success());
    assert_eq!(NvmeStatus::from_codes(1, 2), NvmeStatus::CmdSpecific(2));
    assert_eq!(NvmeStatus::from_codes(2, 0x87), NvmeStatus::unwritten_block());
    assert_eq!(NvmeStatus::from_codes(3, 1), NvmeStatus::Path(1));
    assert_eq!(NvmeStatus::from_codes(7, 28), NvmeStatus::no_space());
    assert!(NvmeStatus::from_codes(7, 28).is_no_space());
    assert!(!NvmeStatus::from_codes(7, 27).is_no_space());
    assert_eq!(NvmeStatus::from_codes(5, 6), NvmeStatus::Unknown(5, 6));
    assert_eq!(NvmeStatus::Unknown(5, 6).as_sct_sc_codes(), (5, 6));
    assert_eq!(NvmeStatus::Media(9).as_sct_sc_codes(), (2, 9));
    assert_eq!(NvmeStatus::VendorSpecific(-1).as_sct_sc_codes(), (7, -1));
    assert_eq!(NvmeStatus::success(), NvmeStatus::Generic(0));
    assert_eq!(NvmeStatus::data_transfer_error(), NvmeStatus::Generic(4));
}

#[test]
fn nvme_status_word() {
    // sct = 2 (bits 9..11), sc = 0x87 (bits 1..8), phase bit set.
    let raw: u16 = (2 << 9) | (0x87 << 1) | 1;
    let w = spdk_nvme_status { raw };
    assert_eq!(w.sct(), 2);
    assert_eq!(w.sc(), 0x87);
    assert_eq!(w.status(), NvmeStatus::Media(0x87));
    assert_eq!(spdk_nvme_status { raw: 0 }.status(), NvmeStatus::Generic(0));
    assert_eq!(spdk_nvme_status { raw: 0xffff }.status(), NvmeStatus::VendorSpecific(255));
}

#[test]
fn nvme_status_in_words() {
    assert_eq!(NvmeStatus::Generic(0).describe(), "SPDK_NVME_SCT_GENERIC (0)");
    assert_eq!(NvmeStatus::CmdSpecific(3).describe(), "SPDK_NVME_SCT_COMMAND_SPECIFIC (3)");
    assert_eq!(NvmeStatus::Media(135).describe(), "SPDK_NVME_SCT_MEDIA_ERROR (135)");
    assert_eq!(NvmeStatus::Path(2).describe(), "SPDK_NVME_SCT_PATH (2)");
    assert_eq!(
        NvmeStatus::VendorSpecific(28).describe(),
        "SPDK_NVME_SCT_VENDOR_SPECIFIC (ENOSPC: No space left on device: 28)"
    );
    assert_eq!(NvmeStatus::VendorSpecific(0).describe(), "SPDK_NVME_SCT_VENDOR_SPECIFIC (0)");
    assert_eq!(NvmeStatus::VendorSpecific(-5).describe(), "SPDK_NVME_SCT_VENDOR_SPECIFIC (-5)");
    assert_eq!(
        NvmeStatus::VendorSpecific(100_000).describe(),
        "SPDK_NVME_SCT_VENDOR_SPECIFIC (100000)"
    );
    assert_eq!(NvmeStatus::Unknown(4, -1).describe(), "UNKNOWN (4,-1)");
}

#[test]
fn nvmf_events() {
    let c = NvmfController { hostnqn: b"nqn.2014-08.org.nvmexpress:uuid:1\0\0\0".to_vec() };
    assert_eq!(c.hostnqn(), "nqn.2014-08.org.nvmexpress:uuid:1");
    assert_eq!(NvmfController { hostnqn: vec![0xff, 0xfe, 0] }.hostnqn(), "");
    assert_eq!(NvmfController { hostnqn: vec![] }.hostnqn(), "");
    assert_eq!(
        NvmfSubsystemEvent::from_cb_args(0, Some(c.clone())),
        NvmfSubsystemEvent::HostConnect(c.clone())
    );
    assert_eq!(
        NvmfSubsystemEvent::from_cb_args(1, Some(c.clone())),
        NvmfSubsystemEvent::HostDisconnect(c.clone())
    );
    assert_eq!(
        NvmfSubsystemEvent::from_cb_args(2, Some(c.clone())),
        NvmfSubsystemEvent::HostKeepAliveTimeout(c.clone())
    );
    assert_eq!(NvmfSubsystemEvent::from_cb_args(3, None), NvmfSubsystemEvent::Unknown);
    assert_eq!(NvmfSubsystemEvent::from_cb_args(9, Some(c)), NvmfSubsystemEvent::Unknown);
}

#[test]
fn numbers_in_decimal() {
    assert_eq!(decimal(0), "0");
    assert_eq!(decimal(7), "7");
    assert_eq!(decimal(10), "10");
    assert_eq!(decimal(1_048_576), "1048576");
    assert_eq!(decimal(u64::MAX), "18446744073709551615");
    assert_eq!(signed_decimal(0), "0");
    assert_eq!(signed_decimal(-1), "-1");
    assert_eq!(signed_decimal(i64::MIN), "-9223372036854775808");
    assert_eq!(signed_decimal(i64::MAX), "9223372036854775807");
}

#[test]
fn json_values_are_separated_by_commas() {
    let mut w = JsonWriteContext::new(64);
    w.write_named_array_begin("stats");
    assert_eq!(w.write_string("1"), Ok(()));
    assert_eq!(w.write_raw("{\"a\":2}"), Ok(()));
    w.write_named_array_begin("inner");
    w.write_array_end();
    w.write_array_end();
    assert_eq!(w.output(), "\"stats\":[1,{\"a\":2},\"inner\":[]]");
    assert!(!w.has_failed());
    w.write_array_end();
    assert!(w.has_failed());
    assert_eq!(w.write_raw("3"), Err(SpdkError::JsonWriteFailed { code: -1 }));
}

#[test]
fn json_writer_fails_when_full() {
    let mut w = JsonWriteContext::new(3);
    assert_eq!(w.write_raw("12"), Ok(()));
    // A comma and one character would make four.
    assert_eq!(w.write_raw("3"), Err(SpdkError::JsonWriteFailed { code: -1 }));
    assert_eq!(w.output(), "12");
    assert!(w.has_failed());
    let mut w = JsonWriteContext::new(3);
    assert_eq!(w.write_raw("1"), Ok(()));
    assert_eq!(w.write_raw("2"), Ok(()));
    assert_eq!(w.output(), "1,2");
}

#[test]
fn plain_names() {
    assert!(is_plain_name("stats"));
    assert!(is_plain_name(""));
    assert!(is_plain_name("a b"));
    assert!(!is_plain_name("a\"b"));
    assert!(!is_plain_name("a\\b"));
    assert!(!is_plain_name("a\nb"));
}

#[test]
fn cell_holds_and_gives() {
    let mut c = UnsafeData::new(5);
    assert!(c.has_value());
    assert_eq!(*c.as_ref(), 5);
    assert_eq!(c.replace(6), Some(5));
    assert_eq!(c.take(), Some(6));
    assert!(!c.has_value());
    assert_eq!(c.take(), None);
    let mut f = UnsafeData::new(1);
    *f.as_mut() += 4;
    assert_eq!(*f.as_ref(), 5);
    let mut e = UnsafeData::<u8>::empty();
    assert!(!e.has_value());
    assert_eq!(e.replace(1), None);
}
