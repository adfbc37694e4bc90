use ads1220::commands::{encode_register_command, sample_from_bytes, InvalidArgument};
use ads1220::field::{decode, encoded_bits, field_mask};
use ads1220::registers::{
    BitFlags, Channel, DataRate, Filter, Idac, Idac1r, Idac2r, Mode, Reference, BCS, CM, DRDYM,
    PGA, PGA_BYPASS, PSW, TS,
};
use ads1220::{Command, Config, Register};

#[test]
fn single_byte_opcodes() {
    assert_eq!(Command::RESET.bits(), 0b0000_0110);
    assert_eq!(Command::START.bits(), 0b0000_1000);
    assert_eq!(Command::POWERDOWN.bits(), 0b0000_0010);
    assert_eq!(Command::RDATA.bits(), 0b0001_0000);
    assert_eq!(Command::RREG.bits(), 0b0010_0000);
    assert_eq!(Command::WREG.bits(), 0b0100_0000);
}

#[test]
fn register_opcodes() {
    assert_eq!(encode_register_command(Command::RREG, 2, 1), Ok(0b0010_1000));
    assert_eq!(encode_register_command(Command::WREG, 0, 1), Ok(0b0100_0000));
    assert_eq!(encode_register_command(Command::WREG, 3, 4), Ok(0b0100_1111));
    assert_eq!(encode_register_command(Command::RREG, 1, 2), Ok(0b0010_0101));
}

#[test]
fn register_opcode_errors() {
    assert_eq!(
        encode_register_command(Command::START, 0, 1),
        Err(InvalidArgument::NotRegisterAccess)
    );
    assert_eq!(encode_register_command(Command::RREG, 4, 1), Err(InvalidArgument::Address));
    assert_eq!(encode_register_command(Command::WREG, 0, 0), Err(InvalidArgument::Count));
    assert_eq!(encode_register_command(Command::WREG, 0, 5), Err(InvalidArgument::Count));
}

#[test]
fn register_addresses() {
    assert_eq!(Register::CONFIG0.addr(), 0);
    assert_eq!(Register::CONFIG1.addr(), 1);
    assert_eq!(Register::CONFIG2.addr(), 2);
    assert_eq!(Register::CONFIG3.addr(), 3);
}

#[test]
fn sign_extension() {
    assert_eq!(sample_from_bytes(0x7F, 0xFF, 0xFF), 8388607);
    assert_eq!(sample_from_bytes(0x80, 0x00, 0x00), -8388608);
    assert_eq!(sample_from_bytes(0x00, 0x00, 0x01), 1);
    assert_eq!(sample_from_bytes(0xFF, 0xFF, 0xFF), -1);
    assert_eq!(sample_from_bytes(0x00, 0x00, 0x00), 0);
    assert_eq!(sample_from_bytes(0x12, 0x34, 0x56), 0x123456);
}

#[test]
fn codes_and_positions() {
    assert_eq!(PGA::Gain128.bits(), 7);
    assert_eq!(PGA::Gain128.bits_on_pos(), 0b0000_1110);
    assert_eq!(PGA::Gain4.bits_on_pos(), 0b0000_0100);
    assert_eq!(Channel::AIN2.bits(), 0xA);
    assert_eq!(Channel::AIN2.bits_on_pos(), 0xA0);
    assert_eq!(Channel::RESERVED.bits_on_pos(), 0xF0);
    assert_eq!(Mode::TURBO.bits(), 2);
    assert_eq!(Mode::TURBO.bits_on_pos(), 0b0001_0000);
    assert_eq!(DataRate::SPS1000.bits(), 6);
    assert_eq!(DataRate::SPS1000.bits_on_pos(), 0b1100_0000);
    assert_eq!(Idac::U1500.bits(), 7);
    assert_eq!(Filter::HZ60.bits(), 3);
    assert_eq!(Filter::HZ60.bits_on_pos(), 0b0011_0000);
    assert_eq!(Reference::AV.bits(), 3);
    assert_eq!(Reference::AV.bits_on_pos(), 0b1100_0000);
    assert_eq!(Idac1r::REFN0.bits(), 6);
    assert_eq!(Idac1r::REFN0.bits_on_pos(), 0b1100_0000);
    assert_eq!(Idac2r::REFN0.bits(), 6);
    assert_eq!(Idac2r::REFN0.bits_on_pos(), 0b0001_1000);
}

#[test]
fn masks_match_layout() {
    assert_eq!(field_mask::<Channel>(), 0xF0);
    assert_eq!(field_mask::<PGA>(), 0x0E);
    assert_eq!(field_mask::<PGA_BYPASS>(), BitFlags::PB);
    assert_eq!(field_mask::<DataRate>(), 0xE0);
    assert_eq!(field_mask::<Mode>(), 0x18);
    assert_eq!(field_mask::<CM>(), BitFlags::CM);
    assert_eq!(field_mask::<TS>(), BitFlags::TS);
    assert_eq!(field_mask::<BCS>(), BitFlags::BCS);
    assert_eq!(field_mask::<Reference>(), 0xC0);
    assert_eq!(field_mask::<Filter>(), 0x30);
    assert_eq!(field_mask::<PSW>(), BitFlags::PSW);
    assert_eq!(field_mask::<Idac>(), 0x07);
    assert_eq!(field_mask::<Idac1r>(), 0xE0);
    assert_eq!(field_mask::<Idac2r>(), 0x1C);
    assert_eq!(field_mask::<DRDYM>(), BitFlags::DRDYM);
}

#[test]
fn one_bit_fields_encode() {
    assert_eq!(encoded_bits(PGA_BYPASS::ENABLED), 0);
    assert_eq!(encoded_bits(PGA_BYPASS::DISABLED), 0b0000_0001);
    assert_eq!(encoded_bits(CM::CONTINUOUS), 0b0000_0100);
    assert_eq!(encoded_bits(TS::ENABLED), 0b0000_0010);
    assert_eq!(encoded_bits(BCS::ON), 0b0000_0001);
    assert_eq!(encoded_bits(PSW::CLOSING), 0b0000_1000);
    assert_eq!(encoded_bits(DRDYM::DOUT_DRDY), 0b0000_0010);
}

#[test]
fn config_bit_operations() {
    let c = Config { bits: 0b1010_0000 };
    assert_eq!(c.with_high(0b0000_0011).bits, 0b1010_0011);
    assert_eq!(c.with_low(0b1000_0000).bits, 0b0010_0000);
    assert_eq!(c.apply_field(0xF0, 0x50).bits, 0x50);
    assert_eq!(Config::default().bits, 0);
}

#[test]
fn field_write_keeps_other_bits() {
    for old in 0..=255u8 {
        let c = Config { bits: old };
        let n = c.with_field(PGA::Gain32);
        assert_eq!(n.bits, (old & !0x0E) | (0b101 << 1));
        let n = c.with_field(Channel::AIN1);
        assert_eq!(n.bits, (old & 0x0F) | 0x90);
        let n = c.with_field(Idac2r::AIN3);
        assert_eq!(n.bits, (old & !0x1C) | (4 << 2));
    }
}

#[test]
fn field_write_idempotent() {
    for old in 0..=255u8 {
        let c = Config { bits: old };
        let once = c.with_field(Reference::REF1);
        assert_eq!(once.with_field(Reference::REF1), once);
        let once = c.with_field(DRDYM::DOUT_DRDY);
        assert_eq!(once.with_field(DRDYM::DOUT_DRDY), once);
    }
}

#[test]
fn decode_after_encode() {
    let gains = [
        PGA::Gain1,
        PGA::Gain2,
        PGA::Gain4,
        PGA::Gain8,
        PGA::Gain16,
        PGA::Gain32,
        PGA::Gain64,
        PGA::Gain128,
    ];
    for g in gains {
        assert_eq!(decode::<PGA>(encoded_bits(g)), Some(g));
        assert_eq!(decode::<PGA>(Config { bits: 0xFF }.with_field(g).bits), Some(g));
    }
    assert_eq!(decode::<Channel>(0xA5), Some(Channel::AIN2));
    assert_eq!(decode::<Mode>(0x18), None);
    assert_eq!(decode::<DataRate>(0xE0), None);
    assert_eq!(decode::<Idac1r>(0b1001_0000), Some(Idac1r::AIN3));
    assert_eq!(decode::<CM>(Config { bits: 0 }.with_field(CM::CONTINUOUS).bits), Some(CM::CONTINUOUS));
}
