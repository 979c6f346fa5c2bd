use etk_asm::opcodes::Specifier;
use etk_asm::ops::{AbstractOp, Imm};

fn imm_bytes(v: i128, width: usize) -> Option<Vec<u8>> {
    match Imm::try_from_int(v, width) {
        Ok(Imm::Constant(b)) => Some(b),
        _ => None,
    }
}

#[test]
fn u8_into_imm1() {
    assert_eq!(imm_bytes(0xdc, 1), Some(vec![0xdc]));
}

#[test]
fn u16_try_into_imm1() {
    assert_eq!(imm_bytes(0xFF, 1), Some(vec![0xFF]));
}

#[test]
fn imm1_try_from_u16_too_large() {
    Imm::try_from_int(0x0100, 1).unwrap_err();
}

#[test]
fn imm15_try_from_u128_too_large() {
    let x: i128 = 0xFFFFFFFFFFFFFFFFFFFFFFFFFFFFFF + 0x1;
    Imm::try_from_int(x, 15).unwrap_err();
}

#[test]
fn u8_into_imm2() {
    assert_eq!(imm_bytes(0xdc, 2), Some(vec![0x00, 0xdc]));
}

#[test]
fn u16_into_imm2() {
    assert_eq!(imm_bytes(0xfedc, 2), Some(vec![0xfe, 0xdc]));
}

#[test]
fn u128_into_imm32() {
    let x: i128 = 0x1023456789abcdef0123456789abcdef;
    assert_eq!(
        imm_bytes(x, 32),
        Some(vec![
            0x00, 0x00, 0x00, 0x00, 0x00, 0x00, 0x00, 0x00, 0x00, 0x00, 0x00, 0x00, 0x00, 0x00,
            0x00, 0x00, 0x10, 0x23, 0x45, 0x67, 0x89, 0xab, 0xcd, 0xef, 0x01, 0x23, 0x45, 0x67,
            0x89, 0xab, 0xcd, 0xef,
        ])
    );
}

#[test]
fn specifier_from_u8() {
    for ii in 0..=u8::MAX {
        let parsed = Specifier::from_byte(ii);
        if ii == 0xfe {
            assert_eq!(Specifier::Invalid, parsed);
        } else {
            assert_ne!(Specifier::Invalid, parsed);
        }
    }
}

#[test]
fn specifier_through_str() {
    for ii in 0..=u8::MAX {
        let spec = Specifier::from_byte(ii);
        let txt = spec.mnemonic();
        let parsed = Specifier::from_mnemonic(txt).unwrap();
        assert_eq!(spec, parsed);
    }
}

#[test]
fn op_new() {
    for ii in 0..=u8::MAX {
        let spec = Specifier::from_byte(ii);
        let op = AbstractOp::new(spec);
        if spec.immediate_len() > 0 {
            assert!(op.is_none());
        } else {
            let op = op.unwrap();
            assert_eq!(op.specifier(), Some(spec));
        }
    }
}

#[test]
fn specifier_push_for_zero() {
    assert_eq!(Specifier::push_for(0), Some(Specifier::Push1));
}

#[test]
fn specifier_push_for_one() {
    assert_eq!(Specifier::push_for(1), Some(Specifier::Push1));
}

#[test]
fn specifier_push_for_255() {
    assert_eq!(Specifier::push_for(255), Some(Specifier::Push1));
}

#[test]
fn specifier_push_for_256() {
    assert_eq!(Specifier::push_for(256), Some(Specifier::Push2));
}

#[test]
fn specifier_push_for_65535() {
    assert_eq!(Specifier::push_for(65535), Some(Specifier::Push2));
}

#[test]
fn specifier_push_for_65536() {
    assert_eq!(Specifier::push_for(65536), Some(Specifier::Push3));
}

#[test]
fn specifier_push_for_16777215() {
    assert_eq!(Specifier::push_for(16777215), Some(Specifier::Push3));
}

#[test]
fn specifier_push_for_16777216() {
    assert_eq!(Specifier::push_for(16777216), Some(Specifier::Push4));
}

#[test]
fn specifier_push_for_4294967295() {
    assert_eq!(Specifier::push_for(4294967295), Some(Specifier::Push4));
}

#[test]
fn specifier_to_u8_selfdestruct() {
    assert_eq!(0xffu8, Specifier::SelfDestruct.to_byte());
}
