use ads1220::registers::{Channel, Idac1r, PGA, PGA_BYPASS, TS};
use ads1220::{MyError, Register, ADS1220};

#[derive(Debug, PartialEq, Eq)]
struct BusFault;

#[test]
fn set_gain_updates_config0() {
    let mut adc = ADS1220::new();
    let mut frames: Vec<Vec<u8>> = Vec::new();
    let r = adc.set_gain(PGA::Gain128, |w: Vec<u8>, n: usize| -> Result<Vec<u8>, BusFault> {
        frames.push(w);
        Ok(vec![0; n])
    });
    assert_eq!(r, Ok(()));
    assert_eq!(adc.config(Register::CONFIG0).bits, 0b0000_1110);
    assert_eq!(frames, vec![vec![0b0100_0000, 0b0000_1110]]);
}

#[test]
fn failed_set_channel_keeps_cache() {
    let mut adc = ADS1220::new();
    let ok = adc.set_gain(PGA::Gain4, |_w: Vec<u8>, n: usize| -> Result<Vec<u8>, BusFault> {
        Ok(vec![0; n])
    });
    assert_eq!(ok, Ok(()));
    let before = adc.config(Register::CONFIG0);
    let r = adc.set_channel(Channel::AIN3, |_w: Vec<u8>, _n: usize| -> Result<Vec<u8>, BusFault> {
        Err(BusFault)
    });
    assert_eq!(r, Err(MyError::Spi(BusFault)));
    assert_eq!(adc.config(Register::CONFIG0), before);
    assert_eq!(adc.config(Register::CONFIG0).bits, 0b0000_0100);
}

#[test]
fn setters_keep_sibling_fields() {
    let mut adc = ADS1220::new();
    let bus = |_w: Vec<u8>, n: usize| -> Result<Vec<u8>, BusFault> { Ok(vec![0; n]) };
    assert_eq!(adc.set_channel(Channel::AIN1, bus), Ok(()));
    assert_eq!(adc.set_gain(PGA::Gain8, bus), Ok(()));
    assert_eq!(adc.set_pga_bypass(PGA_BYPASS::DISABLED, bus), Ok(()));
    assert_eq!(adc.config(Register::CONFIG0).bits, 0b1001_0111);
    assert_eq!(adc.set_channel(Channel::DIFF_AIN0_AIN1, bus), Ok(()));
    assert_eq!(adc.config(Register::CONFIG0).bits, 0b0000_0111);
    assert_eq!(adc.config(Register::CONFIG1).bits, 0);
}

#[test]
fn setters_write_their_register() {
    let mut adc = ADS1220::new();
    let mut frames: Vec<Vec<u8>> = Vec::new();
    let r = adc.set_temp_mode(TS::ENABLED, |w: Vec<u8>, n: usize| -> Result<Vec<u8>, BusFault> {
        frames.push(w);
        Ok(vec![0; n])
    });
    assert_eq!(r, Ok(()));
    let r = adc.set_idac1_routing(Idac1r::REFP0, |w: Vec<u8>, n: usize| -> Result<Vec<u8>, BusFault> {
        frames.push(w);
        Ok(vec![0; n])
    });
    assert_eq!(r, Ok(()));
    assert_eq!(frames, vec![vec![0b0100_0100, 0b0000_0010], vec![0b0100_1100, 0b1010_0000]]);
    assert_eq!(adc.config(Register::CONFIG1).bits, 0b0000_0010);
    assert_eq!(adc.config(Register::CONFIG3).bits, 0b1010_0000);
}

#[test]
fn reset_clears_cache() {
    let mut adc = ADS1220::new();
    let bus = |_w: Vec<u8>, n: usize| -> Result<Vec<u8>, BusFault> { Ok(vec![0; n]) };
    assert_eq!(adc.set_gain(PGA::Gain2, bus), Ok(()));
    let mut frames: Vec<Vec<u8>> = Vec::new();
    let r = adc.reset(|w: Vec<u8>, n: usize| -> Result<Vec<u8>, BusFault> {
        frames.push(w);
        Ok(vec![0; n])
    });
    assert_eq!(r, Ok(()));
    assert_eq!(frames, vec![vec![0b0000_0110]]);
    assert_eq!(adc.config(Register::CONFIG0).bits, 0);
}

#[test]
fn failed_reset_keeps_cache() {
    let mut adc = ADS1220::new();
    let bus = |_w: Vec<u8>, n: usize| -> Result<Vec<u8>, BusFault> { Ok(vec![0; n]) };
    assert_eq!(adc.set_gain(PGA::Gain2, bus), Ok(()));
    let r = adc.reset(|_w: Vec<u8>, _n: usize| -> Result<Vec<u8>, BusFault> { Err(BusFault) });
    assert_eq!(r, Err(MyError::Spi(BusFault)));
    assert_eq!(adc.config(Register::CONFIG0).bits, 0b0000_0010);
}

#[test]
fn start_and_powerdown_frames() {
    let mut adc = ADS1220::new();
    let mut frames: Vec<Vec<u8>> = Vec::new();
    let r = adc.start(|w: Vec<u8>, n: usize| -> Result<Vec<u8>, BusFault> {
        frames.push(w);
        Ok(vec![0; n])
    });
    assert_eq!(r, Ok(()));
    let r = adc.powerdown(|w: Vec<u8>, n: usize| -> Result<Vec<u8>, BusFault> {
        frames.push(w);
        Ok(vec![0; n])
    });
    assert_eq!(r, Ok(()));
    assert_eq!(frames, vec![vec![0b0000_1000], vec![0b0000_0010]]);
}

#[test]
fn read_register_frame_and_value() {
    let mut adc = ADS1220::new();
    let mut seen: Vec<(Vec<u8>, usize)> = Vec::new();
    let r = adc.read_register(Register::CONFIG2, |w: Vec<u8>, n: usize| -> Result<Vec<u8>, BusFault> {
        seen.push((w, n));
        Ok(vec![0x5A])
    });
    assert_eq!(r, Ok(0x5A));
    assert_eq!(seen, vec![(vec![0b0010_1000], 1)]);
    assert_eq!(adc.config(Register::CONFIG2).bits, 0);
}

#[test]
fn read_data_sign_extends() {
    let mut adc = ADS1220::new();
    let mut seen: Vec<(Vec<u8>, usize)> = Vec::new();
    let r = adc.read_data(|w: Vec<u8>, n: usize| -> Result<Vec<u8>, BusFault> {
        seen.push((w, n));
        Ok(vec![0x80, 0x00, 0x00])
    });
    assert_eq!(r, Ok(-8388608));
    assert_eq!(seen, vec![(vec![0b0001_0000], 3)]);
    let r = adc.read_data(|_w: Vec<u8>, _n: usize| -> Result<Vec<u8>, BusFault> {
        Ok(vec![0x7F, 0xFF, 0xFF])
    });
    assert_eq!(r, Ok(8388607));
    let r = adc.read_data(|_w: Vec<u8>, _n: usize| -> Result<Vec<u8>, BusFault> { Err(BusFault) });
    assert_eq!(r, Err(MyError::Spi(BusFault)));
}
