use sensor_hub::bus::{BusOp, BusReply};
use sensor_hub::gas::{
    faults, Action, Fault, GasError, GasSensor, Outcome, GAS_ADDR, HW_ID, MODE_EVERY_SECOND, REG_ALG_RESULT_DATA,
    REG_APP_START, REG_ERROR_ID, REG_HW_ID, REG_MEAS_MODE, REG_STATUS, STATUS_APP_VALID,
    STATUS_DATA_READY, STATUS_ERROR, STATUS_FW_MODE,
};

/// A simulated sensor on the bus, with its wake pin.
struct SimSensor {
    hw_id: u8,
    /// Status bytes handed out in turn; the last one repeats.
    statuses: Vec<u8>,
    started: bool,
    result: Vec<u8>,
    error_reg: u8,
    /// Fail every transaction from this one on (counted from 0).
    fail_from: Option<usize>,
    transactions: usize,
    pin_high: bool,
    log: Vec<String>,
}

impl SimSensor {
    fn new(statuses: Vec<u8>) -> SimSensor {
        SimSensor {
            hw_id: HW_ID,
            statuses,
            started: false,
            result: vec![0x01, 0xf4, 0x00, 0x10, 0x00, 0, 0, 0],
            error_reg: 0,
            fail_from: None,
            transactions: 0,
            pin_high: true,
            log: Vec::new(),
        }
    }

    fn status(&mut self) -> u8 {
        if self.statuses.len() > 1 {
            self.statuses.remove(0)
        } else {
            self.statuses[0]
        }
    }

    /// Performs one action; the outcome once the driver reports one.
    fn perform(&mut self, action: Action) -> Result<BusReply, Outcome> {
        match action {
            Action::Wake => {
                self.pin_high = false;
                Ok(BusReply::Done)
            }
            Action::Sleep => {
                self.pin_high = true;
                Ok(BusReply::Done)
            }
            Action::Delay(_) | Action::AwaitTick => Ok(BusReply::Done),
            Action::Note(e) => {
                self.log.push(format!("error register {e:#04x}"));
                Ok(BusReply::Done)
            }
            Action::Report(o) => Err(o),
            Action::Transfer(t) => {
                assert_eq!(t.address, GAS_ADDR);
                assert!(!self.pin_high, "transaction while the sensor sleeps");
                let n = self.transactions;
                self.transactions += 1;
                if let Some(k) = self.fail_from {
                    if n >= k {
                        return Ok(BusReply::Failed);
                    }
                }
                Ok(match t.op {
                    BusOp::ReadByte { reg } if reg == REG_HW_ID => BusReply::Byte(self.hw_id),
                    BusOp::ReadByte { reg } if reg == REG_STATUS => BusReply::Byte(self.status()),
                    BusOp::ReadByte { reg } if reg == REG_ERROR_ID => BusReply::Byte(self.error_reg),
                    BusOp::SendByte { value } if value == REG_APP_START => {
                        self.started = true;
                        self.log.push("app start".to_string());
                        BusReply::Done
                    }
                    BusOp::WriteByte { reg, value } if reg == REG_MEAS_MODE => {
                        assert_eq!(value, MODE_EVERY_SECOND);
                        self.log.push("mode set".to_string());
                        BusReply::Done
                    }
                    BusOp::BlockRead { reg, len } if reg == REG_ALG_RESULT_DATA => {
                        assert_eq!(len, 8);
                        BusReply::Block(self.result.clone())
                    }
                    other => panic!("unexpected operation {other:?}"),
                })
            }
        }
    }
}

/// Drives the machine until it reports an outcome.
fn session(m: &mut GasSensor, sim: &mut SimSensor) -> Outcome {
    let mut reply = BusReply::Done;
    for _ in 0..100 {
        let action = m.step(reply);
        match sim.perform(action) {
            Ok(r) => reply = r,
            Err(o) => return o,
        }
    }
    panic!("no outcome reported");
}

const RUNNING: u8 = STATUS_APP_VALID | STATUS_FW_MODE;

#[test]
fn boot_starts_firmware_when_not_running() {
    let mut sim = SimSensor::new(vec![STATUS_APP_VALID, RUNNING]);
    let mut m = GasSensor::new();
    assert_eq!(session(&mut m, &mut sim), Outcome::Ready);
    assert!(sim.started);
    assert_eq!(sim.log, vec!["app start".to_string(), "mode set".to_string()]);
    assert!(sim.pin_high);
    assert!(!m.is_halted());
}

#[test]
fn boot_skips_start_when_firmware_runs() {
    let mut sim = SimSensor::new(vec![RUNNING]);
    let mut m = GasSensor::new();
    assert_eq!(session(&mut m, &mut sim), Outcome::Ready);
    assert!(!sim.started);
    assert!(sim.pin_high);
}

#[test]
fn boot_fails_when_firmware_never_runs() {
    let mut sim = SimSensor::new(vec![STATUS_APP_VALID]);
    let mut m = GasSensor::new();
    assert_eq!(
        session(&mut m, &mut sim),
        Outcome::Failed(GasError::FirmwareNotStarted(STATUS_APP_VALID))
    );
    assert!(sim.started);
    assert!(sim.pin_high);
    assert!(m.is_halted());
    // a halted driver keeps reporting its error and touches nothing
    assert!(matches!(
        m.step(BusReply::Done),
        Action::Report(Outcome::Failed(GasError::FirmwareNotStarted(_)))
    ));
}

#[test]
fn boot_rejects_wrong_hardware() {
    let mut sim = SimSensor::new(vec![RUNNING]);
    sim.hw_id = 0x42;
    let mut m = GasSensor::new();
    assert_eq!(session(&mut m, &mut sim), Outcome::Failed(GasError::WrongHardware(0x42)));
    assert!(sim.pin_high);
}

#[test]
fn boot_rejects_invalid_application() {
    let mut sim = SimSensor::new(vec![0x00]);
    let mut m = GasSensor::new();
    assert_eq!(session(&mut m, &mut sim), Outcome::Failed(GasError::AppInvalid(0x00)));
    assert!(sim.pin_high);
}

#[test]
fn boot_transport_error_is_fatal_and_releases_pin() {
    for k in 0..4 {
        let mut sim = SimSensor::new(vec![STATUS_APP_VALID, RUNNING]);
        sim.fail_from = Some(k);
        let mut m = GasSensor::new();
        assert_eq!(session(&mut m, &mut sim), Outcome::Failed(GasError::Transport));
        assert!(sim.pin_high, "pin left low after failing transaction {k}");
    }
}

#[test]
fn boot_notes_error_register() {
    let mut sim = SimSensor::new(vec![RUNNING | STATUS_ERROR]);
    sim.error_reg = 0b0001_0000;
    let mut m = GasSensor::new();
    assert_eq!(session(&mut m, &mut sim), Outcome::Ready);
    assert_eq!(sim.log[0], "error register 0x10");
}

fn booted(statuses_after_boot: Vec<u8>) -> (GasSensor, SimSensor) {
    let mut sim = SimSensor::new(vec![RUNNING]);
    let mut m = GasSensor::new();
    assert_eq!(session(&mut m, &mut sim), Outcome::Ready);
    sim.statuses = statuses_after_boot;
    (m, sim)
}

#[test]
fn tick_publishes_plausible_reading() {
    let (mut m, mut sim) = booted(vec![RUNNING | STATUS_DATA_READY]);
    assert_eq!(session(&mut m, &mut sim), Outcome::Measured { co2: 500, tvoc: 16 });
    assert!(sim.pin_high);
}

#[test]
fn tick_skips_when_no_data_ready() {
    let (mut m, mut sim) = booted(vec![RUNNING]);
    let before = sim.transactions;
    assert_eq!(session(&mut m, &mut sim), Outcome::NotReady);
    // only the status was read
    assert_eq!(sim.transactions, before + 1);
    assert!(sim.pin_high);
}

#[test]
fn tick_discards_implausible_readings() {
    let (mut m, mut sim) = booted(vec![RUNNING | STATUS_DATA_READY]);
    sim.result = vec![0x01, 0x8f, 0x00, 0x00, 0, 0, 0, 0]; // co2 399
    assert_eq!(session(&mut m, &mut sim), Outcome::Discarded { co2: 399, tvoc: 0 });
    sim.result = vec![0x20, 0x01, 0x00, 0x00, 0, 0, 0, 0]; // co2 8193
    assert_eq!(session(&mut m, &mut sim), Outcome::Discarded { co2: 8193, tvoc: 0 });
    sim.result = vec![0x01, 0x90, 0x04, 0xa4, 0, 0, 0, 0]; // co2 400, tvoc 1188
    assert_eq!(session(&mut m, &mut sim), Outcome::Discarded { co2: 400, tvoc: 1188 });
    sim.result = vec![0x20, 0x00, 0x04, 0xa3, 0, 0, 0, 0]; // co2 8192, tvoc 1187
    assert_eq!(session(&mut m, &mut sim), Outcome::Measured { co2: 8192, tvoc: 1187 });
}

#[test]
fn tick_notes_error_bit_and_still_publishes() {
    let (mut m, mut sim) = booted(vec![RUNNING | STATUS_DATA_READY]);
    sim.result = vec![0x01, 0xf4, 0x00, 0x10, STATUS_ERROR, 0, 0, 0];
    sim.error_reg = 0b0000_0100;
    assert_eq!(session(&mut m, &mut sim), Outcome::Measured { co2: 500, tvoc: 16 });
    assert_eq!(sim.log.last().unwrap(), "error register 0x04");
}

#[test]
fn tick_error_mid_transaction_releases_pin_and_goes_on() {
    let (mut m, mut sim) = booted(vec![RUNNING | STATUS_DATA_READY]);
    sim.fail_from = Some(sim.transactions + 1); // the result read fails
    assert_eq!(session(&mut m, &mut sim), Outcome::TransportFailed);
    assert!(sim.pin_high);
    sim.fail_from = None;
    assert_eq!(session(&mut m, &mut sim), Outcome::Measured { co2: 500, tvoc: 16 });
}

#[test]
fn tick_short_result_block_counts_as_transport_failure() {
    let (mut m, mut sim) = booted(vec![RUNNING | STATUS_DATA_READY]);
    sim.result = vec![0x01, 0xf4];
    assert_eq!(session(&mut m, &mut sim), Outcome::TransportFailed);
    assert!(sim.pin_high);
}

#[test]
fn tick_waits_for_the_next_tick_first() {
    let (mut m, _sim) = booted(vec![RUNNING]);
    assert!(matches!(m.step(BusReply::Done), Action::AwaitTick));
    assert!(matches!(m.step(BusReply::Done), Action::Wake));
}

#[test]
fn error_register_names_faults() {
    assert_eq!(faults(0), Vec::<Fault>::new());
    assert_eq!(faults(0b0001_0000), vec![Fault::HeaterFault]);
    assert_eq!(
        faults(0b1110_0101),
        vec![Fault::HeaterSupply, Fault::MeasModeInvalid, Fault::MsgInvalid]
    );
    assert_eq!(faults(0xff).len(), 6);
}
