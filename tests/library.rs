use soloud::codes::{bool_code, AttenuationModel, NoiseType, SoloudFlag, SoloudFlags, WaveForm};
use soloud::error::{check_status, SoloudError, SoloudErrorKind};
use soloud::filter::{param_index_valid, BassBoostFilterAttr, FilterAttr, ParamType};
use soloud::handle::{AudioAttenuator, AudioCollider, Handle};
use soloud::load::{encode_path, load_mem_args, load_mem_ex_args, MemLoad};
use soloud::slots::FilterSlots;

const KINDS: [SoloudErrorKind; 7] = [
    SoloudErrorKind::InvalidParemeter,
    SoloudErrorKind::FileNotFound,
    SoloudErrorKind::FileLoadFailed,
    SoloudErrorKind::DllNotFound,
    SoloudErrorKind::OutOfMemory,
    SoloudErrorKind::NotImplemented,
    SoloudErrorKind::UnknownError,
];

#[test]
fn from_i32_gives_each_named_kind() {
    for (i, k) in KINDS.iter().enumerate() {
        let code = i as i32 + 1;
        assert_eq!(SoloudErrorKind::from_i32(code), *k);
        assert_eq!(k.code(), code);
    }
}

#[test]
fn from_code_refuses_codes_outside_the_table() {
    assert_eq!(SoloudErrorKind::from_code(0), None);
    assert_eq!(SoloudErrorKind::from_code(8), None);
    assert_eq!(SoloudErrorKind::from_code(-1), None);
    assert_eq!(SoloudErrorKind::from_code(2), Some(SoloudErrorKind::FileNotFound));
    assert_eq!(SoloudErrorKind::from_code(7), Some(SoloudErrorKind::UnknownError));
}

#[test]
fn check_status_maps_codes() {
    assert!(check_status(0).is_ok());
    match check_status(2) {
        Err(SoloudError::Internal(k)) => assert_eq!(k, SoloudErrorKind::FileNotFound),
        other => panic!("unexpected {:?}", other),
    }
    match check_status(1) {
        Err(e) => assert_eq!(e.kind(), Some(SoloudErrorKind::InvalidParemeter)),
        Ok(()) => panic!("code 1 is a failure"),
    }
    match check_status(42) {
        Err(e) => assert_eq!(e.kind(), Some(SoloudErrorKind::UnknownError)),
        Ok(()) => panic!("code 42 is a failure"),
    }
}

#[test]
fn io_error_converts() {
    let e: SoloudError = std::io::Error::new(std::io::ErrorKind::NotFound, "gone").into();
    assert!(matches!(e, SoloudError::IoError(_)));
    assert_eq!(e.kind(), None);
}

#[test]
fn flags_combine_into_declared_bits() {
    assert_eq!(SoloudFlag::ClipRoundoff.bits(), 1);
    assert_eq!(SoloudFlag::EnableVisualization.bits(), 2);
    assert_eq!(SoloudFlag::LeftHanded3D.bits(), 4);
    assert_eq!(SoloudFlag::NoFpuRegisterChange.bits(), 8);
    let f = SoloudFlag::ClipRoundoff | SoloudFlag::EnableVisualization;
    assert_eq!(f.bits(), 3);
    assert!(f.contains(SoloudFlag::ClipRoundoff));
    assert!(f.contains(SoloudFlag::EnableVisualization));
    assert!(!f.contains(SoloudFlag::LeftHanded3D));
    let g = f.with(SoloudFlag::NoFpuRegisterChange).with(SoloudFlag::ClipRoundoff);
    assert_eq!(g.bits(), 11);
    let all = g.union(SoloudFlags::of(SoloudFlag::LeftHanded3D));
    assert_eq!(all.bits(), 15);
    assert_eq!(SoloudFlags::empty().bits(), 0);
    assert!(!SoloudFlags::empty().contains(SoloudFlag::ClipRoundoff));
}

#[test]
fn code_tables_keep_their_numbers() {
    assert_eq!(WaveForm::Square.to_i32(), 0);
    assert_eq!(WaveForm::Triangle.to_i32(), 3);
    assert_eq!(WaveForm::FSaw.to_i32(), 8);
    assert_eq!(AttenuationModel::NoAttenuation.to_u32(), 0);
    assert_eq!(AttenuationModel::ExponentialDistance.to_u32(), 3);
    assert_eq!(NoiseType::White.to_i32(), 0);
    assert_eq!(NoiseType::Blueish.to_i32(), 3);
    assert_eq!(BassBoostFilterAttr::Wet.to_u32(), 0);
    assert_eq!(BassBoostFilterAttr::Boost.to_u32(), 1);
    assert_eq!(bool_code(true), 1);
    assert_eq!(bool_code(false), 0);
}

#[test]
fn param_type_codes() {
    assert_eq!(ParamType::from_u32(0), Some(ParamType::FloatParam));
    assert_eq!(ParamType::from_u32(1), Some(ParamType::IntParam));
    assert_eq!(ParamType::from_u32(2), Some(ParamType::BoolParam));
    assert_eq!(ParamType::from_u32(3), None);
    assert_eq!(ParamType::BoolParam.to_u32(), 2);
}

#[test]
fn param_index_out_of_range_is_refused() {
    assert!(param_index_valid(0, 2));
    assert!(param_index_valid(1, 2));
    assert!(!param_index_valid(2, 2));
    assert!(!param_index_valid(7, 2));
    assert!(!param_index_valid(0, 0));
    assert!(!param_index_valid(0, -1));
    assert!(!param_index_valid(u32::MAX, i32::MAX));
}

#[test]
fn handle_is_never_null() {
    assert!(matches!(Handle::from_addr(0), Err(SoloudError::Unknown(_))));
    let h = Handle::from_addr(0x1000).unwrap();
    assert_eq!(h.addr(), 0x1000);
    assert_eq!(h.release(), 0x1000);
}

#[test]
fn collider_and_attenuator_expose_their_address() {
    let c = AudioCollider::new(Handle::from_addr(16).unwrap());
    assert_eq!(c.inner(), 16);
    let a = AudioAttenuator::new(Handle::from_addr(32).unwrap());
    assert_eq!(a.inner(), 32);
}

#[test]
fn path_with_nul_is_refused() {
    match encode_path(b"music/a\0b.ogg") {
        Err(SoloudError::NullError(p)) => assert_eq!(p, 7),
        other => panic!("unexpected {:?}", other),
    }
    match encode_path(b"\0\0") {
        Err(SoloudError::NullError(p)) => assert_eq!(p, 0),
        other => panic!("unexpected {:?}", other),
    }
}

#[test]
fn path_is_terminated() {
    assert_eq!(encode_path(b"a.wav").unwrap(), b"a.wav\0".to_vec());
    assert_eq!(encode_path(b"").unwrap(), vec![0u8]);
}

#[test]
fn load_mem_copies_and_leaves_the_buffer_to_the_caller() {
    let mut buf = vec![1u8, 2, 3, 4];
    let args = load_mem_args(&buf).unwrap();
    assert_eq!(args, MemLoad { len: 4, copy: true, take_ownership: true });
    buf[0] = 9;
    buf.push(5);
    assert_eq!(buf, vec![9u8, 2, 3, 4, 5]);
}

#[test]
fn load_mem_ex_passes_the_options() {
    let buf = [0u8; 10];
    let args = load_mem_ex_args(&buf, false, false).unwrap();
    assert_eq!(args, MemLoad { len: 10, copy: false, take_ownership: false });
    let args = load_mem_ex_args(&buf[..0], true, false).unwrap();
    assert_eq!(args, MemLoad { len: 0, copy: true, take_ownership: false });
}

#[test]
fn filter_slot_last_write_wins() {
    let a = Handle::from_addr(100).unwrap();
    let b = Handle::from_addr(200).unwrap();
    let c = Handle::from_addr(300).unwrap();
    let mut slots = FilterSlots::new();
    assert_eq!(slots.set_filter(2, Some(&c)), 300);
    assert_eq!(slots.set_filter(5, Some(&a)), 100);
    assert_eq!(slots.filter_at(5), Some(100));
    assert_eq!(slots.set_filter(5, Some(&b)), 200);
    assert_eq!(slots.filter_at(5), Some(200));
    assert_eq!(slots.filter_at(2), Some(300));
    assert_eq!(slots.set_filter(5, None), 0);
    assert_eq!(slots.filter_at(5), None);
    assert_eq!(slots.filter_at(2), Some(300));
    assert_eq!(slots.filter_at(4), None);
}
