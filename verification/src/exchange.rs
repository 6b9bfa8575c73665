//! The cross-thread value exchange: one overwrite-in-place cell per value
//! that the network task publishes and the control loop reads.

use crate::display::Readings;
use vstd::arithmetic::div_mod::lemma_div_denominator;
use vstd::prelude::*;

verus! {

/// What every cell holds until the first value is stored.
pub const SENTINEL: u32 = 0;

/// A single-value slot. A store replaces the value, a load leaves it alone;
/// neither waits for the other.
#[derive(Clone, Copy, Debug, PartialEq, Eq, Structural)]
pub struct ExchangeCell {
    pub value: u32,
}

/// One operation on a cell, by either task.
#[derive(Clone, Copy, Debug, PartialEq, Eq, Structural)]
pub enum CellOp {
    Store(u32),
    Load,
}

/// What the cell holds after the operations of `ops`, first first, when it
/// held `initial` before them: the value of the last store, or `initial`
/// where there was none.
pub open spec fn value_after(initial: u32, ops: Seq<CellOp>) -> u32
    decreases ops.len(),
{
    if ops.len() == 0 {
        initial
    } else {
        match ops.last() {
            CellOp::Store(value) => value,
            CellOp::Load => value_after(initial, ops.drop_last()),
        }
    }
}

/// What the loads among `ops` return, in order.
pub open spec fn loads_of(initial: u32, ops: Seq<CellOp>) -> Seq<u32>
    decreases ops.len(),
{
    if ops.len() == 0 {
        Seq::empty()
    } else {
        match ops.last() {
            CellOp::Store(_) => loads_of(initial, ops.drop_last()),
            CellOp::Load => loads_of(initial, ops.drop_last()).push(
                value_after(initial, ops.drop_last()),
            ),
        }
    }
}

impl ExchangeCell {
    /// A cell that holds the start-up value.
    pub fn new() -> (cell: ExchangeCell)
        ensures
            cell.value == SENTINEL,
    {
        ExchangeCell { value: SENTINEL }
    }

    /// Replaces the value.
    pub fn store(&mut self, value: u32)
        ensures
            final(self).value == value,
    {
        self.value = value;
    }

    /// Reads the value.
    pub fn load(&self) -> (value: u32)
        ensures
            value == self.value,
    {
        self.value
    }

    /// Carries out the operations of `ops` in order and returns what the
    /// loads among them read.
    pub fn replay(&mut self, ops: &Vec<CellOp>) -> (loads: Vec<u32>)
        ensures
            loads@ == loads_of(old(self).value, ops@),
            final(self).value == value_after(old(self).value, ops@),
    {
        let mut loads: Vec<u32> = Vec::new();
        let mut done: usize = 0;
        while done < ops.len()
            invariant
                done <= ops.len(),
                loads@ == loads_of(old(self).value, ops@.take(done as int)),
                self.value == value_after(old(self).value, ops@.take(done as int)),
            decreases ops.len() - done,
        {
            assert(ops@.take(done + 1).drop_last() =~= ops@.take(done as int));
            match ops[done] {
                CellOp::Store(value) => {
                    self.store(value);
                },
                CellOp::Load => {
                    loads.push(self.load());
                },
            }
            done = done + 1;
        }
        assert(ops@.take(done as int) =~= ops@);
        loads
    }
}

/// The value of a cell is one that was put into it: the value it started
/// with, or the value of one of the stores.
pub proof fn lemma_value_was_stored(initial: u32, ops: Seq<CellOp>)
    ensures
        value_after(initial, ops) == initial || exists|j: int|
            0 <= j < ops.len() && ops[j] == CellOp::Store(value_after(initial, ops)),
    decreases ops.len(),
{
    if ops.len() > 0 {
        let earlier = ops.drop_last();
        lemma_value_was_stored(initial, earlier);
        match ops.last() {
            CellOp::Store(value) => {
                assert(ops[ops.len() - 1] == CellOp::Store(value));
            },
            CellOp::Load => {
                if value_after(initial, earlier) != initial {
                    let j = choose|j: int|
                        0 <= j < earlier.len() && earlier[j] == CellOp::Store(
                            value_after(initial, earlier),
                        );
                    assert(ops[j] == earlier[j]);
                }
            },
        }
    }
}

/// Whatever order the stores of one task and the loads of the other fall
/// into, every load reads a whole value that was put into the cell: the
/// value of a store before it, or the value the cell started with.
pub proof fn lemma_load_reads_a_stored_value(initial: u32, ops: Seq<CellOp>, at: int)
    requires
        0 <= at < ops.len(),
        ops[at] == CellOp::Load,
    ensures
        value_after(initial, ops.take(at + 1)) == value_after(initial, ops.take(at)),
        value_after(initial, ops.take(at)) == initial || exists|j: int|
            0 <= j < at && ops[j] == CellOp::Store(value_after(initial, ops.take(at))),
{
    let earlier = ops.take(at);
    assert(ops.take(at + 1).drop_last() =~= earlier);
    lemma_value_was_stored(initial, earlier);
    if value_after(initial, earlier) != initial {
        let j = choose|j: int|
            0 <= j < earlier.len() && earlier[j] == CellOp::Store(value_after(initial, earlier));
        assert(ops[j] == earlier[j]);
    }
}

/// A load reads the latest store: where `value` was stored at `stored_at` and
/// only loads follow up to `at`, the cell holds `value` at `at`.
pub proof fn lemma_load_reads_latest_store(
    initial: u32,
    ops: Seq<CellOp>,
    stored_at: int,
    at: int,
    value: u32,
)
    requires
        0 <= stored_at < at <= ops.len(),
        ops[stored_at] == CellOp::Store(value),
        forall|k: int| stored_at < k < at ==> ops[k] == CellOp::Load,
    ensures
        value_after(initial, ops.take(at)) == value,
    decreases at - stored_at,
{
    let upto = ops.take(at);
    assert(upto.last() == ops[at - 1]);
    if at - 1 > stored_at {
        assert(upto.drop_last() =~= ops.take(at - 1));
        lemma_load_reads_latest_store(initial, ops, stored_at, at - 1, value);
    }
}

/// Two to the power `exponent`.
pub open spec fn two_to(exponent: nat) -> nat
    decreases exponent,
{
    if exponent == 0 {
        1
    } else {
        2 * two_to((exponent - 1) as nat)
    }
}

/// A measurement as it arrives: the bits of an IEEE-754 single-precision
/// number, sign first, then eight bits of biased exponent and twenty-three
/// of fraction.
#[derive(Clone, Copy, Debug, PartialEq, Eq, Structural)]
pub struct Sample {
    pub bits: u32,
}

impl Sample {
    /// The sign bit is set.
    pub open spec fn is_negative(&self) -> bool {
        self.bits >= 0x8000_0000
    }

    /// The biased exponent, 0 to 255.
    pub open spec fn exponent(&self) -> int {
        (self.bits as int / 0x80_0000) % 256
    }

    /// The fraction bits, as a number below two to the 23.
    pub open spec fn fraction(&self) -> int {
        self.bits as int % 0x80_0000
    }

    /// The sample is zero, of either sign.
    pub open spec fn is_zero(&self) -> bool {
        self.exponent() == 0 && self.fraction() == 0
    }

    /// The sample is not a number.
    pub open spec fn is_nan(&self) -> bool {
        self.exponent() == 255 && self.fraction() != 0
    }

    /// The whole number that the cell stores for the sample: its value with
    /// the digits after the point dropped, held to the range of the cell.
    /// What is not a number, and what is below one, counts as zero; what is
    /// too large, as the largest value of the cell.
    pub open spec fn whole(&self) -> int {
        let significand = 0x80_0000 + self.fraction();
        if self.is_nan() || self.is_negative() || self.exponent() < 127 {
            0
        } else if self.exponent() >= 159 {
            u32::MAX as int
        } else if self.exponent() >= 150 {
            significand * two_to((self.exponent() - 150) as nat)
        } else {
            significand / (two_to((150 - self.exponent()) as nat) as int)
        }
    }

    /// Decides whether the sample is zero, of either sign.
    pub fn zero(&self) -> (zero: bool)
        ensures
            zero == self.is_zero(),
    {
        (self.bits / 0x80_0000) % 256 == 0 && self.bits % 0x80_0000 == 0
    }

    /// Converts the sample to the whole number that a cell stores for it.
    pub fn to_whole(&self) -> (value: u32)
        ensures
            value == self.whole(),
    {
        let exponent: u32 = (self.bits / 0x80_0000) % 256;
        let fraction: u32 = self.bits % 0x80_0000;
        if (exponent == 255 && fraction != 0) || self.bits >= 0x8000_0000 || exponent < 127 {
            return 0;
        }
        if exponent >= 159 {
            return u32::MAX;
        }
        let significand: u64 = 0x80_0000 + fraction as u64;
        let mut value: u64 = significand;
        let mut done: u32 = 0;
        if exponent >= 150 {
            let steps: u32 = exponent - 150;
            assert(two_to(8) == 256) by {
                reveal_with_fuel(two_to, 9);
            }
            while done < steps
                invariant
                    done <= steps <= 8,
                    significand < 0x100_0000,
                    value == significand * two_to(done as nat),
                    value < 0x1_0000_0000,
                    two_to(done as nat) <= two_to(8),
                    two_to(8) == 256,
                decreases steps - done,
            {
                proof {
                    lemma_two_to_grows((done + 1) as nat, 8);
                    assert(significand * two_to((done + 1) as nat) == 2 * (significand * two_to(
                        done as nat,
                    ))) by (nonlinear_arith)
                        requires
                            two_to((done + 1) as nat) == 2 * two_to(done as nat),
                    ;
                    assert(significand * two_to((done + 1) as nat) <= significand * 256)
                        by (nonlinear_arith)
                        requires
                            two_to((done + 1) as nat) <= 256,
                    ;
                }
                value = value * 2;
                done = done + 1;
            }
        } else {
            let steps: u32 = 150 - exponent;
            while done < steps
                invariant
                    done <= steps <= 23,
                    significand < 0x100_0000,
                    value == significand as int / (two_to(done as nat) as int),
                    value <= significand,
                decreases steps - done,
            {
                proof {
                    lemma_two_to_positive(done as nat);
                    lemma_div_denominator(significand as int, two_to(done as nat) as int, 2);
                    assert(two_to(done as nat) * 2 == two_to((done + 1) as nat));
                }
                value = value / 2;
                done = done + 1;
            }
        }
        value as u32
    }
}

/// A power of two is at least one.
pub proof fn lemma_two_to_positive(exponent: nat)
    ensures
        two_to(exponent) >= 1,
    decreases exponent,
{
    if exponent > 0 {
        lemma_two_to_positive((exponent - 1) as nat);
    }
}

/// Powers of two grow with the exponent.
pub proof fn lemma_two_to_grows(smaller: nat, larger: nat)
    requires
        smaller <= larger,
    ensures
        two_to(smaller) <= two_to(larger),
    decreases larger,
{
    if smaller < larger {
        lemma_two_to_grows(smaller, (larger - 1) as nat);
        lemma_two_to_positive((larger - 1) as nat);
    }
}

/// One decoded message of the network task.
#[derive(Clone, Copy, Debug, PartialEq, Eq, Structural)]
pub struct EnvironmentalInfo {
    pub temp: Sample,
    pub humid: Sample,
    pub pm2_5: Sample,
    pub pm10: Sample,
}

/// What one message stores: for each cell the new value, or `None` where the
/// cell keeps the value it has.
#[derive(Clone, Copy, Debug, PartialEq, Eq, Structural)]
pub struct CellUpdates {
    pub temperature: Option<u32>,
    pub humidity: Option<u32>,
    pub pm2_5: Option<u32>,
    pub pm10: Option<u32>,
}

/// The four cells between the network task and the control loop. Each is
/// stored and loaded by itself: a message is no transaction.
#[derive(Clone, Copy, Debug, PartialEq, Eq, Structural)]
pub struct ExchangeCells {
    pub temperature: ExchangeCell,
    pub humidity: ExchangeCell,
    pub pm2_5: ExchangeCell,
    pub pm10: ExchangeCell,
}

/// The update of a cell for which a zero sample means "no update".
pub open spec fn unless_zero(sample: Sample) -> Option<u32> {
    if sample.is_zero() {
        None
    } else {
        Some(sample.whole() as u32)
    }
}

/// What a message stores. A payload that could not be decoded stores
/// nothing. In a decoded one a zero temperature or humidity suppresses the
/// update of that cell; for the particulate cells zero is a reading like any
/// other and is stored.
pub open spec fn updates_of(message: Option<EnvironmentalInfo>) -> CellUpdates {
    match message {
        None => CellUpdates { temperature: None, humidity: None, pm2_5: None, pm10: None },
        Some(info) => CellUpdates {
            temperature: unless_zero(info.temp),
            humidity: unless_zero(info.humid),
            pm2_5: Some(info.pm2_5.whole() as u32),
            pm10: Some(info.pm10.whole() as u32),
        },
    }
}

/// The cell after an update: the new value, or the cell as it was.
pub open spec fn updated(cell: ExchangeCell, update: Option<u32>) -> ExchangeCell {
    match update {
        Some(value) => ExchangeCell { value },
        None => cell,
    }
}

/// The cells after the updates of one message.
pub open spec fn applied(cells: ExchangeCells, updates: CellUpdates) -> ExchangeCells {
    ExchangeCells {
        temperature: updated(cells.temperature, updates.temperature),
        humidity: updated(cells.humidity, updates.humidity),
        pm2_5: updated(cells.pm2_5, updates.pm2_5),
        pm10: updated(cells.pm10, updates.pm10),
    }
}

/// What a redraw reads from the cells.
pub open spec fn readings_of(cells: ExchangeCells) -> Readings {
    Readings {
        temperature: cells.temperature.value,
        humidity: cells.humidity.value,
        pm2_5: cells.pm2_5.value,
        pm10: cells.pm10.value,
    }
}

fn store_unless_zero(sample: Sample) -> (update: Option<u32>)
    ensures
        update == unless_zero(sample),
{
    if sample.zero() {
        None
    } else {
        Some(sample.to_whole())
    }
}

/// Decides what a message stores into which cell.
pub fn cell_updates(message: Option<EnvironmentalInfo>) -> (updates: CellUpdates)
    ensures
        updates == updates_of(message),
{
    match message {
        None => CellUpdates { temperature: None, humidity: None, pm2_5: None, pm10: None },
        Some(info) => CellUpdates {
            temperature: store_unless_zero(info.temp),
            humidity: store_unless_zero(info.humid),
            pm2_5: Some(info.pm2_5.to_whole()),
            pm10: Some(info.pm10.to_whole()),
        },
    }
}

impl ExchangeCell {
    /// Stores the new value, if there is one.
    pub fn update(&mut self, update: Option<u32>)
        ensures
            *final(self) == updated(*old(self), update),
    {
        match update {
            Some(value) => {
                self.store(value);
            },
            None => {},
        }
    }
}

impl ExchangeCells {
    /// Four cells that hold the start-up value.
    pub fn new() -> (cells: ExchangeCells)
        ensures
            cells.temperature.value == SENTINEL,
            cells.humidity.value == SENTINEL,
            cells.pm2_5.value == SENTINEL,
            cells.pm10.value == SENTINEL,
    {
        ExchangeCells {
            temperature: ExchangeCell::new(),
            humidity: ExchangeCell::new(),
            pm2_5: ExchangeCell::new(),
            pm10: ExchangeCell::new(),
        }
    }

    /// Stores what one message of the network task brings.
    pub fn publish(&mut self, message: Option<EnvironmentalInfo>)
        ensures
            *final(self) == applied(*old(self), updates_of(message)),
    {
        let updates: CellUpdates = cell_updates(message);
        self.temperature.update(updates.temperature);
        self.humidity.update(updates.humidity);
        self.pm2_5.update(updates.pm2_5);
        self.pm10.update(updates.pm10);
    }

    /// Loads all four cells, as the control loop does before a redraw.
    pub fn snapshot(&self) -> (readings: Readings)
        ensures
            readings == readings_of(*self),
    {
        Readings {
            temperature: self.temperature.load(),
            humidity: self.humidity.load(),
            pm2_5: self.pm2_5.load(),
            pm10: self.pm10.load(),
        }
    }
}

/// A payload that could not be decoded leaves every cell as it was.
pub proof fn lemma_decode_failure_keeps_cells(cells: ExchangeCells)
    ensures
        applied(cells, updates_of(None)) == cells,
{
}

} // verus!
