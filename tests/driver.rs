use as7331::codec::{gain_time_byte, le_word, le_words, mode_byte, mode_fields, status_flags};
use as7331::device::As7331;
use as7331::exchange::{Action, Command, Exchange, Outcome, Reply, Transfer};
use as7331::registers::{
    AS7331_AGEN, AS7331_BREAK, AS7331_CREG1, AS7331_CREG3, AS7331_I2CADDR_DEFAULT,
    AS7331_MRES1, AS7331_MRES2, AS7331_MRES3, AS7331_OSR, AS7331_STATUS, AS7331_TEMP,
};
use as7331::state::{apply_edit, StateEdit};

const ADDR: u8 = AS7331_I2CADDR_DEFAULT;

/// Runs an exchange against a scripted bus; returns every transfer issued and the result.
fn run<F>(start: (Exchange, Transfer), mut bus: F) -> (Vec<Transfer>, Result<Reply, &'static str>)
where
    F: FnMut(&Transfer) -> Outcome<&'static str>,
{
    let (mut ex, mut t) = start;
    let mut issued = Vec::new();
    loop {
        issued.push(t);
        let outcome = bus(&t);
        match ex.advance(outcome) {
            Action::Issue(next) => t = next,
            Action::Finish(r) => {
                assert!(ex.is_finished());
                return (issued, r);
            }
        }
    }
}

/// A bus on which every transfer succeeds and every read returns `bytes`.
fn reads(bytes: Vec<u8>) -> impl FnMut(&Transfer) -> Outcome<&'static str> {
    move |t: &Transfer| match t {
        Transfer::Write { .. } => Outcome::Written,
        Transfer::WriteRead { len, .. } => {
            assert_eq!(*len, bytes.len());
            Outcome::Read(bytes.clone())
        }
    }
}

fn device() -> As7331<()> {
    As7331::new((), ADDR)
}

#[test]
fn new_and_destroy_keep_the_bus() {
    let dev = As7331::new(42u32, 0x75);
    assert_eq!(dev.addr, 0x75);
    assert_eq!(dev.destroy(), 42u32);
}

#[test]
fn init_writes_gain_time_for_every_code() {
    for gain in 0u8..12 {
        for time in 0u8..15 {
            let (issued, r) = run(device().init(1, 2, 1, 0x20, gain, time), reads(vec![]));
            assert_eq!(r, Ok(Reply::Done));
            assert_eq!(issued.len(), 3);
            assert_eq!(issued[0], Transfer::Write { addr: ADDR, reg: AS7331_CREG1, value: gain * 16 + time });
        }
    }
}

#[test]
fn init_writes_three_registers_in_order() {
    let (issued, r) = run(device().init(3, 2, 1, 0xAB, 0x0b, 0x0e), reads(vec![]));
    assert_eq!(r, Ok(Reply::Done));
    assert_eq!(
        issued,
        vec![
            Transfer::Write { addr: ADDR, reg: AS7331_CREG1, value: 0xBE },
            Transfer::Write { addr: ADDR, reg: AS7331_CREG3, value: 0xD2 },
            Transfer::Write { addr: ADDR, reg: AS7331_BREAK, value: 0xAB },
        ]
    );
}

#[test]
fn init_stops_after_a_failed_write() {
    let mut n = 0;
    let (issued, r) = run(device().init(0, 0, 0, 0, 1, 1), |_t: &Transfer| {
        n += 1;
        if n == 2 { Outcome::Failed("nack") } else { Outcome::Written }
    });
    assert_eq!(r, Err("nack"));
    assert_eq!(issued.len(), 2);
}

#[test]
fn status_flags_follow_bit_order() {
    let (issued, r) = run(device().get_status(), reads(vec![0xFF, 0b1011_0001]));
    assert_eq!(issued, vec![Transfer::WriteRead { addr: ADDR, reg: AS7331_STATUS, len: 2 }]);
    assert_eq!(r, Ok(Reply::Flags([1, 0, 0, 0, 1, 1, 0, 1])));
}

#[test]
fn read_all_decodes_four_little_endian_words() {
    let bytes = vec![0x34, 0x12, 0x78, 0x56, 0xBC, 0x9A, 0xF0, 0xDE];
    let (issued, r) = run(device().read_all_data(), reads(bytes));
    assert_eq!(issued, vec![Transfer::WriteRead { addr: ADDR, reg: AS7331_TEMP, len: 8 }]);
    assert_eq!(r, Ok(Reply::Words([0x1234, 0x5678, 0x9ABC, 0xDEF0])));
}

#[test]
fn single_results_are_little_endian() {
    let cases: Vec<((Exchange, Transfer), u8)> = vec![
        (device().read_temp_data(), AS7331_TEMP),
        (device().read_uv_a_data(), AS7331_MRES1),
        (device().read_uv_b_data(), AS7331_MRES2),
        (device().read_uv_c_data(), AS7331_MRES3),
    ];
    for (start, reg) in cases {
        let (issued, r) = run(start, reads(vec![0xCD, 0xAB]));
        assert_eq!(issued, vec![Transfer::WriteRead { addr: ADDR, reg, len: 2 }]);
        assert_eq!(r, Ok(Reply::Word(0xABCD)));
    }
}

#[test]
fn chip_id_is_returned_raw() {
    let (issued, r) = run(device().get_chip_id(), reads(vec![0x21]));
    assert_eq!(issued, vec![Transfer::WriteRead { addr: ADDR, reg: AS7331_AGEN, len: 1 }]);
    assert_eq!(r, Ok(Reply::Byte(0x21)));
}

#[test]
fn get_mode_decodes_the_first_byte() {
    let (issued, r) = run(device().get_mode(), reads(vec![0b1100_1011, 0xFF]));
    assert_eq!(issued, vec![Transfer::WriteRead { addr: ADDR, reg: AS7331_OSR, len: 2 }]);
    assert_eq!(r, Ok(Reply::Mode([3, 1, 1, 1])));
    let (_, r) = run(device().get_mode(), reads(vec![0x42, 0x00]));
    assert_eq!(r, Ok(Reply::Mode([2, 0, 1, 0])));
}

fn read_modify_write(start: (Exchange, Transfer), prior: u8) -> Vec<Transfer> {
    let (issued, r) = run(start, reads(vec![prior]));
    assert_eq!(r, Ok(Reply::Done));
    assert_eq!(issued.len(), 2);
    assert_eq!(issued[0], Transfer::WriteRead { addr: ADDR, reg: AS7331_OSR, len: 1 });
    issued
}

fn written(issued: &[Transfer]) -> u8 {
    match issued[1] {
        Transfer::Write { addr, reg, value } => {
            assert_eq!((addr, reg), (ADDR, AS7331_OSR));
            value
        }
        other => panic!("expected a write, got {:?}", other),
    }
}

#[test]
fn one_shot_sets_start_bit_only() {
    assert_eq!(written(&read_modify_write(device().one_shot(), 0x02)), 0x82);
    assert_eq!(written(&read_modify_write(device().one_shot(), 0x83)), 0x83);
}

#[test]
fn power_up_sets_power_bit_only() {
    assert_eq!(written(&read_modify_write(device().power_up(), 0x03)), 0x43);
    assert_eq!(written(&read_modify_write(device().power_up(), 0x42)), 0x42);
}

#[test]
fn power_down_clears_power_bit_only() {
    assert_eq!(written(&read_modify_write(device().power_down(), 0xFF)), 0xBF);
    assert_eq!(written(&read_modify_write(device().power_down(), 0x02)), 0x02);
}

#[test]
fn reset_sets_reset_bit_only() {
    assert_eq!(written(&read_modify_write(device().reset(), 0x42)), 0x4A);
    assert_eq!(written(&read_modify_write(device().reset(), 0x08)), 0x08);
}

#[test]
fn configuration_mode_sets_its_bit_only() {
    assert_eq!(written(&read_modify_write(device().set_configuration_mode(), 0x41)), 0x43);
    assert_eq!(written(&read_modify_write(device().set_configuration_mode(), 0x02)), 0x02);
}

#[test]
fn measurement_mode_always_writes_0x83() {
    for prior in [0x00u8, 0x42, 0xFF] {
        let mut reads_seen = 0;
        let (issued, r) = run(device().set_measurement_mode(), |t: &Transfer| match t {
            Transfer::Write { .. } => Outcome::Written,
            Transfer::WriteRead { .. } => {
                reads_seen += 1;
                Outcome::Read(vec![prior])
            }
        });
        assert_eq!(reads_seen, 0);
        assert_eq!(r, Ok(Reply::Done));
        assert_eq!(issued, vec![Transfer::Write { addr: ADDR, reg: AS7331_OSR, value: 0x83 }]);
    }
}

#[test]
fn failed_read_never_issues_the_write() {
    let starts = vec![
        device().one_shot(),
        device().power_up(),
        device().power_down(),
        device().reset(),
        device().set_configuration_mode(),
    ];
    for start in starts {
        let (issued, r) = run(start, |_t: &Transfer| Outcome::Failed("timeout"));
        assert_eq!(r, Err("timeout"));
        assert_eq!(issued, vec![Transfer::WriteRead { addr: ADDR, reg: AS7331_OSR, len: 1 }]);
    }
}

#[test]
fn failed_read_is_passed_on_unchanged() {
    let (_, r) = run(device().read_all_data(), |_t: &Transfer| Outcome::Failed("arbitration lost"));
    assert_eq!(r, Err("arbitration lost"));
}

#[test]
fn exchange_reports_its_command() {
    let (ex, _) = Exchange::new(ADDR, Command::Edit(StateEdit::PowerDown));
    assert_eq!(ex.command(), Command::Edit(StateEdit::PowerDown));
    assert!(!ex.is_finished());
}

#[test]
fn codec_values() {
    assert_eq!(gain_time_byte(0x0b, 0x0e), 0xBE);
    assert_eq!(gain_time_byte(0x1b, 0x01), 0xB1);
    assert_eq!(mode_byte(1, 1, 3), 0x53);
    assert_eq!(le_word(0xF0, 0xDE), 0xDEF0);
    assert_eq!(status_flags(0x80), [0, 0, 0, 0, 0, 0, 0, 1]);
    assert_eq!(status_flags(0x00), [0; 8]);
    assert_eq!(mode_fields(0x00), [0, 0, 0, 0]);
    assert_eq!(le_words(&[1, 0, 0, 1, 0xFF, 0xFF, 0, 0]), [1, 0x100, 0xFFFF, 0]);
    assert_eq!(apply_edit(StateEdit::StartMeasurement, 0x00), 0x80);
    assert_eq!(apply_edit(StateEdit::PowerDown, 0x40), 0x00);
}
