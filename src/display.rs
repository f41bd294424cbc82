//! The character display. Its two phases are two types: a display is created
//! uninitialized, and the one transition, [`St7032::init`], consumes it and
//! returns an initialized display together with the command sequence that
//! brings the controller up. Rendering exists only on the initialized type, so
//! rendering before initialization cannot be written.
//!
//! Both operations produce the exact bus steps to perform; the caller runs
//! them through the bus arbiter.

use vstd::prelude::*;
use core::marker::PhantomData;
use crate::bus::{plan_view, BusOp, OpView, Step, StepView, Transaction};

verus! {

/// Bus address of the display controller.
pub const DISPLAY_ADDR: u16 = 0x3e;

/// Register that takes commands.
pub const REG_COMMAND: u8 = 0x00;

/// Register that takes characters.
pub const REG_DATA: u8 = 0x40;

/// Contrast setting, six bits.
pub const CONTRAST: u8 = 32;

/// Command: clear the display and return home.
pub const CMD_CLEAR: u8 = 0x01;

/// Command: move the cursor to the start of the second line.
pub const CMD_SECOND_LINE: u8 = 0xc0;

/// Bytes below this code are shown as spaces.
pub const MIN_PRINTABLE: u8 = 0x06;

pub const SPACE: u8 = 0x20;

/// Pause between the two halves of initialization, in microseconds.
pub const INIT_SETTLE_US: u32 = 200_000;

/// Pause after a clear or cursor command, in microseconds.
pub const COMMAND_DELAY_US: u32 = 1_000;

/// Marker of a display that has not been initialized.
pub struct Uninit;

/// Marker of an initialized display.
pub struct Initialized;

/// A display in phase `S`.
pub struct St7032<S> {
    phase: PhantomData<S>,
}

pub open spec fn command(value: u8) -> StepView {
    StepView::Transfer { address: DISPLAY_ADDR, op: OpView::WriteByte { reg: REG_COMMAND, value } }
}

/// The controller's start-up commands: function set, extended instruction
/// set, oscillator, contrast low bits, power and contrast high bits, follower
/// control; then, after the settle pause, function set, display on, clear.
pub open spec fn init_plan() -> Seq<StepView> {
    seq![
        StepView::Transfer {
            address: DISPLAY_ADDR,
            op: OpView::BlockWrite {
                reg: REG_COMMAND,
                bytes: seq![
                    0x38u8,
                    0x39u8,
                    0x14u8,
                    (0x70 + CONTRAST % 16) as u8,
                    (0x54 + CONTRAST / 16 % 4) as u8,
                    0x6cu8,
                ],
            },
        },
        StepView::Delay(INIT_SETTLE_US),
        StepView::Transfer {
            address: DISPLAY_ADDR,
            op: OpView::BlockWrite { reg: REG_COMMAND, bytes: seq![0x38u8, 0x0du8, 0x01u8] },
        },
        StepView::Delay(COMMAND_DELAY_US),
    ]
}

/// A byte as shown: control codes below the printable range become spaces.
pub open spec fn shown(b: u8) -> u8 {
    if b < MIN_PRINTABLE {
        SPACE
    } else {
        b
    }
}

pub open spec fn shown_line(line: Seq<u8>) -> Seq<u8> {
    line.map_values(|b: u8| shown(b))
}

pub open spec fn line_steps(line: Seq<u8>) -> Seq<StepView> {
    seq![
        StepView::Transfer {
            address: DISPLAY_ADDR,
            op: OpView::WriteEach { reg: REG_DATA, bytes: shown_line(line) },
        },
    ]
}

/// Clear, first line, move to the second line, and the second line if any.
pub open spec fn render_plan(line1: Seq<u8>, line2: Option<Seq<u8>>) -> Seq<StepView> {
    seq![command(CMD_CLEAR), StepView::Delay(COMMAND_DELAY_US)] + line_steps(line1) + seq![
        command(CMD_SECOND_LINE),
        StepView::Delay(COMMAND_DELAY_US),
    ] + match line2 {
        Some(l) => line_steps(l),
        None => Seq::<StepView>::empty(),
    }
}

fn command_step(value: u8) -> (r: Step)
    ensures
        r@ == command(value),
{
    Step::Transfer(
        Transaction { address: DISPLAY_ADDR, op: BusOp::WriteByte { reg: REG_COMMAND, value } },
    )
}

fn line_step(line: &[u8]) -> (r: Step)
    ensures
        r@ == line_steps(line@)[0],
{
    let mut bytes: Vec<u8> = Vec::new();
    let mut i: usize = 0;
    while i < line.len()
        invariant
            i <= line@.len(),
            bytes@ =~= shown_line(line@.subrange(0, i as int)),
        decreases line@.len() - i,
    {
        let b = line[i];
        bytes.push(if b < MIN_PRINTABLE { SPACE } else { b });
        i = i + 1;
        assert(shown_line(line@.subrange(0, i as int)) =~= shown_line(
            line@.subrange(0, i - 1),
        ).push(shown(b)));
    }
    assert(line@.subrange(0, i as int) =~= line@);
    Step::Transfer(Transaction { address: DISPLAY_ADDR, op: BusOp::WriteEach { reg: REG_DATA, bytes } })
}

/// Decimal digits of `n`, most significant first, in ASCII.
pub open spec fn digits(n: nat) -> Seq<u8>
    decreases n,
{
    if n < 10 {
        seq![(48 + n) as u8]
    } else {
        digits(n / 10).push((48 + n % 10) as u8)
    }
}

/// A quantity given in hundredths, as text with two decimals.
pub open spec fn hundredths_text(n: nat) -> Seq<u8> {
    digits(n / 100) + seq![46u8, (48 + n / 10 % 10) as u8, (48 + n % 10) as u8]
}

/// Sixteenths of a degree in hundredths of a degree, rounded half up.
pub open spec fn celsius_hundredths(sixteenths: u16) -> nat {
    ((sixteenths * 100 + 8) / 16) as nat
}

/// The temperature line: degrees Celsius with two decimals, then " C".
pub open spec fn temperature_line(sixteenths: u16) -> Seq<u8> {
    hundredths_text(celsius_hundredths(sixteenths)) + seq![SPACE, 67u8]
}

/// The brightness line: percent with two decimals, then " %".
pub open spec fn brightness_line(hundredths: u16) -> Seq<u8> {
    hundredths_text(hundredths as nat) + seq![SPACE, 37u8]
}

fn push_digits(n: u32, out: &mut Vec<u8>)
    ensures
        final(out)@ == old(out)@ + digits(n as nat),
    decreases n,
{
    if n >= 10 {
        push_digits(n / 10, out);
    }
    out.push(48 + (n % 10) as u8);
    assert(final(out)@ =~= old(out)@ + digits(n as nat)) by {
        if n >= 10 {
            assert(old(out)@ + digits(n as nat) =~= (old(out)@ + digits((n / 10) as nat)).push(
                (48 + n % 10) as u8,
            ));
        }
    }
}

fn push_hundredths(n: u32, out: &mut Vec<u8>)
    ensures
        final(out)@ == old(out)@ + hundredths_text(n as nat),
{
    push_digits(n / 100, out);
    out.push(46);
    out.push(48 + (n / 10 % 10) as u8);
    out.push(48 + (n % 10) as u8);
    assert(final(out)@ =~= old(out)@ + hundredths_text(n as nat));
}

/// Text of a temperature given in sixteenths of a degree Celsius.
pub fn temperature_text(sixteenths: u16) -> (r: Vec<u8>)
    ensures
        r@ == temperature_line(sixteenths),
{
    let mut out: Vec<u8> = Vec::new();
    let centi: u32 = (sixteenths as u32 * 100 + 8) / 16;
    push_hundredths(centi, &mut out);
    out.push(SPACE);
    out.push(67);
    assert(out@ =~= temperature_line(sixteenths));
    out
}

/// Text of a brightness given in hundredths of a percent.
pub fn brightness_text(hundredths: u16) -> (r: Vec<u8>)
    ensures
        r@ == brightness_line(hundredths),
{
    let mut out: Vec<u8> = Vec::new();
    push_hundredths(hundredths as u32, &mut out);
    out.push(SPACE);
    out.push(37);
    assert(out@ =~= brightness_line(hundredths));
    out
}

impl St7032<Uninit> {
    /// A display whose controller has not been set up.
    pub fn new() -> (r: St7032<Uninit>) {
        St7032 { phase: PhantomData }
    }

    /// The one transition: consumes the uninitialized display and returns the
    /// initialized one with the steps that set the controller up, which must
    /// all succeed before the display is used.
    pub fn init(self) -> (r: (St7032<Initialized>, Vec<Step>))
        ensures
            plan_view(r.1@) == init_plan(),
    {
        let mut steps: Vec<Step> = Vec::new();
        let mut first: Vec<u8> = Vec::new();
        first.push(0x38);
        first.push(0x39);
        first.push(0x14);
        first.push(0x70 + CONTRAST % 16);
        first.push(0x54 + CONTRAST / 16 % 4);
        first.push(0x6c);
        steps.push(
            Step::Transfer(
                Transaction {
                    address: DISPLAY_ADDR,
                    op: BusOp::BlockWrite { reg: REG_COMMAND, bytes: first },
                },
            ),
        );
        steps.push(Step::Delay(INIT_SETTLE_US));
        let mut second: Vec<u8> = Vec::new();
        second.push(0x38);
        second.push(0x0d);
        second.push(0x01);
        steps.push(
            Step::Transfer(
                Transaction {
                    address: DISPLAY_ADDR,
                    op: BusOp::BlockWrite { reg: REG_COMMAND, bytes: second },
                },
            ),
        );
        steps.push(Step::Delay(COMMAND_DELAY_US));
        assert(steps@[0]@ == init_plan()[0]) by {
            assert(first@ =~= seq![
                0x38u8,
                0x39u8,
                0x14u8,
                (0x70 + CONTRAST % 16) as u8,
                (0x54 + CONTRAST / 16 % 4) as u8,
                0x6cu8,
            ]);
        }
        assert(steps@[2]@ == init_plan()[2]) by {
            assert(second@ =~= seq![0x38u8, 0x0du8, 0x01u8]);
        }
        assert(plan_view(steps@) =~= init_plan());
        (St7032 { phase: PhantomData }, steps)
    }
}

impl St7032<Initialized> {
    /// The steps that show `line1` on the first line and, if given, `line2`
    /// on the second, after clearing the display.
    pub fn render(&self, line1: &[u8], line2: Option<&[u8]>) -> (r: Vec<Step>)
        ensures
            plan_view(r@) == render_plan(
                line1@,
                match line2 {
                    Some(l) => Some(l@),
                    None => None,
                },
            ),
    {
        let mut steps: Vec<Step> = Vec::new();
        steps.push(command_step(CMD_CLEAR));
        steps.push(Step::Delay(COMMAND_DELAY_US));
        steps.push(line_step(line1));
        steps.push(command_step(CMD_SECOND_LINE));
        steps.push(Step::Delay(COMMAND_DELAY_US));
        match line2 {
            Some(l) => {
                steps.push(line_step(l));
            },
            None => {},
        }
        assert(plan_view(steps@) =~= render_plan(
            line1@,
            match line2 {
                Some(l) => Some(l@),
                None => None,
            },
        ));
        steps
    }
}

} // verus!
