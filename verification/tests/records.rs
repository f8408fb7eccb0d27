use firesim::binary32::{from_bits, to_bits, ONE_BITS};
use firesim::fixed::Fixed;
use firesim::sim::record::{
    frame_bytes, frame_from_bytes, frame_from_words, frame_words, parameter_uniform,
    parameter_words, RecordError,
};
use firesim::sim::{BurnState, CellState, ConfigurableParameters, SimulationFrame, SimulationParameters};

const ONE: u64 = 1 << 32;

fn reference_bits(raw: u64) -> u32 {
    ((raw as f64 / 4294967296.0) as f32).to_bits()
}

fn reference_raw(bits: u32) -> u64 {
    (f32::from_bits(bits) as f64 * 4294967296.0) as u64
}

#[test]
fn patterns_of_simple_numbers() {
    assert_eq!(ONE_BITS, 1.0f32.to_bits());
    assert_eq!(to_bits(Fixed::zero()), 0);
    assert_eq!(to_bits(Fixed::one()), 1.0f32.to_bits());
    assert_eq!(to_bits(Fixed::from_ratio(1, 2)), 0.5f32.to_bits());
    assert_eq!(to_bits(Fixed::from_int(3)), 3.0f32.to_bits());
    assert_eq!(to_bits(Fixed::from_int(150)), 150.0f32.to_bits());
    assert_eq!(to_bits(Fixed::from_raw(1)), (2.0f32).powi(-32).to_bits());
    assert_eq!(to_bits(Fixed::from_raw(u64::MAX)), 4294967296.0f32.to_bits());
    assert_eq!(to_bits(Fixed::from_ratio(1, 10000)), reference_bits(429496));
}

#[test]
fn to_bits_rounds_to_the_nearest_number_ties_to_even() {
    // Twenty-five significant bits: the last one is a tie.
    assert_eq!(to_bits(Fixed::from_raw((1 << 24) + 1)), reference_bits((1 << 24) + 1));
    assert_eq!(to_bits(Fixed::from_raw((1 << 24) + 3)), reference_bits((1 << 24) + 3));
    assert_eq!(to_bits(Fixed::from_raw((1 << 25) - 1)), reference_bits((1 << 25) - 1));
    assert_eq!(to_bits(Fixed::from_raw((1 << 24) + 1)), to_bits(Fixed::from_raw(1 << 24)));
    assert_eq!(to_bits(Fixed::from_raw((1 << 24) + 3)), to_bits(Fixed::from_raw((1 << 24) + 4)));
    let mut raw: u64 = 1;
    let mut checked = 0;
    while raw < (1 << 52) {
        for delta in [0u64, 1, 2, 3, 5, 7, 11] {
            let v = raw + delta * (raw >> 25).max(1);
            assert_eq!(to_bits(Fixed::from_raw(v)), reference_bits(v), "raw {}", v);
            checked += 1;
        }
        raw = raw * 3 / 2 + 1;
    }
    assert!(checked > 500);
    for shift in 0..40u32 {
        for top in [0x80_0000u64, 0x80_0001, 0xff_ffff, 0xc0_0000, 0x1ff_ffff, 0x100_0001] {
            let v = top << shift;
            if v < (1 << 53) {
                assert_eq!(to_bits(Fixed::from_raw(v)), reference_bits(v), "raw {}", v);
            }
        }
    }
}

#[test]
fn from_bits_gives_the_value_at_or_below() {
    assert_eq!(from_bits(0).raw, 0);
    assert_eq!(from_bits(1.0f32.to_bits()).raw, ONE);
    assert_eq!(from_bits(0.5f32.to_bits()).raw, ONE / 2);
    assert_eq!(from_bits(0.1f32.to_bits()).raw, reference_raw(0.1f32.to_bits()));
    assert_eq!(from_bits((-1.0f32).to_bits()).raw, 0);
    assert_eq!(from_bits((-0.0f32).to_bits()).raw, 0);
    assert_eq!(from_bits(f32::NAN.to_bits()).raw, 0);
    assert_eq!(from_bits(f32::INFINITY.to_bits()).raw, u64::MAX);
    assert_eq!(from_bits(f32::NEG_INFINITY.to_bits()).raw, 0);
    assert_eq!(from_bits(f32::MAX.to_bits()).raw, u64::MAX);
    assert_eq!(from_bits(f32::MIN_POSITIVE.to_bits()).raw, 0);
    assert_eq!(from_bits(1).raw, 0);
    assert_eq!(from_bits(4294967296.0f32.to_bits()).raw, u64::MAX);
    assert_eq!(from_bits(2147483648.0f32.to_bits()).raw, 1 << 63);
    let mut bits: u32 = 0;
    loop {
        assert_eq!(from_bits(bits).raw, reference_raw(bits), "bits {:#x}", bits);
        match bits.checked_add(40503) {
            Some(next) => bits = next,
            None => break,
        }
    }
}

#[test]
fn numbers_of_few_bits_come_back_unchanged() {
    for raw in [0u64, 1, 2, 3, 255, ONE / 4, ONE / 2, ONE, 3 * ONE, 0xff_ffff, 0xff_ffff << 40] {
        assert_eq!(from_bits(to_bits(Fixed::from_raw(raw))).raw, raw);
    }
    let third = Fixed::from_ratio(1, 3);
    let back = from_bits(to_bits(third));
    assert!(back.raw.abs_diff(third.raw) <= 1 << 6);
    assert!(from_bits(to_bits(Fixed::from_raw(ONE - 1))).raw <= ONE);
}

fn sample_frame() -> SimulationFrame {
    let mut frame = SimulationFrame::new(2, 1);
    frame.grid[0] = CellState {
        burning: BurnState::Burning { ticks_remaining: 7 },
        underbrush: Fixed::from_ratio(1, 4),
        tree: true,
    };
    frame
}

#[test]
fn cells_are_four_words_each() {
    let words = frame_words(&sample_frame());
    assert_eq!(words, vec![1.0f32.to_bits(), 0.25f32.to_bits(), 7, 0, 0, 0, 0, 0]);
    let bytes = frame_bytes(&sample_frame());
    assert_eq!(bytes.len(), 32);
    let mut expected = Vec::new();
    for w in words.iter() {
        expected.extend_from_slice(&w.to_ne_bytes());
    }
    assert_eq!(bytes, expected);
    assert_eq!(frame_bytes(&SimulationFrame::new(0, 0)), Vec::<u8>::new());
}

#[test]
fn frames_come_back_from_their_words() {
    let frame = sample_frame();
    let back = match frame_from_words(&frame_words(&frame), 2, 1) {
        Ok(f) => f,
        Err(e) => panic!("no frame: {:?}", e),
    };
    assert_eq!((back.width, back.height), (2, 1));
    assert_eq!(back.grid, frame.grid);
    let odd = vec![2.5f32.to_bits(), 7.0f32.to_bits(), 0, 99, (-1.0f32).to_bits(), f32::NAN.to_bits(), 3, 0];
    let back = match frame_from_words(&odd, 1, 2) {
        Ok(f) => f,
        Err(e) => panic!("no frame: {:?}", e),
    };
    assert_eq!(
        back.grid,
        vec![
            CellState { burning: BurnState::NotBurning, underbrush: Fixed::one(), tree: true },
            CellState {
                burning: BurnState::Burning { ticks_remaining: 3 },
                underbrush: Fixed::zero(),
                tree: false,
            },
        ]
    );
}

#[test]
fn frames_of_the_wrong_length_are_refused() {
    let words = frame_words(&sample_frame());
    assert_eq!(frame_from_words(&words, 3, 1).err(), Some(RecordError::WrongLength));
    assert_eq!(frame_from_words(&words[..7].to_vec(), 2, 1).err(), Some(RecordError::WrongLength));
    assert_eq!(frame_from_words(&words, usize::MAX, 2).err(), Some(RecordError::WrongLength));
    let bytes = frame_bytes(&sample_frame());
    assert_eq!(frame_from_bytes(&bytes, 1, 1).err(), Some(RecordError::WrongLength));
    assert_eq!(frame_from_bytes(&bytes[..31].to_vec(), 2, 1).err(), Some(RecordError::WrongLength));
}

#[test]
fn frames_come_back_from_their_bytes_unless_misaligned() {
    let frame = sample_frame();
    match frame_from_bytes(&frame_bytes(&frame), 2, 1) {
        Ok(back) => {
            assert_eq!((back.width, back.height), (2, 1));
            assert_eq!(back.grid, frame.grid);
        }
        Err(e) => assert_eq!(e, RecordError::Misaligned),
    }
}

#[test]
fn parameters_are_twelve_words() {
    let c = ConfigurableParameters::realistic(500, 500, Fixed::from_int(2), Fixed::from_int(36));
    let p = SimulationParameters::from(&c);
    let words = parameter_words(&p);
    assert_eq!(words.len(), 12);
    assert_eq!(words[0], reference_bits(1193046));
    assert_eq!(words[1], 0);
    assert_eq!(words[2], reference_bits(429496));
    assert_eq!(words[3], reference_bits(42949672));
    assert_eq!(words[4], reference_bits(894784));
    assert_eq!(words[5], 1);
    assert_eq!(words[6], 1);
    assert_eq!(words[7], 1.0f32.to_bits());
    assert_eq!(words[8], 0.5f32.to_bits());
    assert_eq!(words[9], 1.0f32.to_bits());
    assert_eq!(words[10], reference_bits(245664785));
    assert_eq!(words[11], 72);
    let bytes = parameter_uniform(&p);
    assert_eq!(bytes.len(), 48);
    assert_eq!(&bytes[44..48], &72u32.to_ne_bytes());
    assert_eq!(&bytes[28..32], &1.0f32.to_ne_bytes());
}
