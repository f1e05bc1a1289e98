//! The tuner view: a two-sided meter with a marker that shows how far the
//! heard frequency lies from the nearest note.
//!
//! Deviations are whole hundredths of a cent. Negative means flat, and the
//! marker stands left of the note; positive means sharp, and it stands right.

use vstd::prelude::*;
use vstd::string::*;

use crate::notes::{find_note, label_of, note_for, Note, NoteName};
use crate::term::{fg_reset, fg_tint, line_start, line_start_text, reset_code, tint_code, Tint};
use crate::text::{
    centered, centered_text, decimal_text, right_aligned, right_aligned_text, signed_decimal,
};
use crate::ui::Ui;

verus! {

/// Characters on each side of the meter.
pub const METER_WIDTH: usize = 25;

/// Size of a deviation, whatever its direction.
pub open spec fn magnitude(cents: int) -> int {
    if cents < 0 {
        -cents
    } else {
        cents
    }
}

/// Colour of a deviation: green under 10 cents, yellow under 30, red beyond.
pub open spec fn tint_of(cents: int) -> Tint {
    if magnitude(cents) < 1000 {
        Tint::Green
    } else if magnitude(cents) < 3000 {
        Tint::Yellow
    } else {
        Tint::Red
    }
}

/// Distance of the marker from the note: one character for every two whole
/// cents, and never more than the meter is wide.
pub open spec fn marker_offset(cents: int) -> nat {
    if magnitude(cents) / 200 > METER_WIDTH {
        METER_WIDTH as nat
    } else {
        (magnitude(cents) / 200) as nat
    }
}

/// A deviation in whole cents, rounded to the nearest; a half rounds away
/// from zero.
pub open spec fn rounded_cents(cents: int) -> int {
    if cents < 0 {
        -((-cents + 50) / 100)
    } else {
        (cents + 50) / 100
    }
}

/// A run of `n` fill characters.
pub open spec fn dots(n: nat) -> Seq<char> {
    Seq::new(n, |i: int| '.')
}

/// The marker in its colour.
pub open spec fn marker(tint: Tint) -> Seq<char> {
    tint_code(tint) + "v"@ + reset_code()
}

/// The note's label in its colour, centred in five characters.
pub open spec fn note_cell(tint: Tint, name: NoteName) -> Seq<char> {
    tint_code(tint) + centered(label_of(name), 5) + reset_code()
}

/// The deviation in whole cents as it is printed after the meter.
pub open spec fn cents_text(cents: int) -> Seq<char> {
    " "@ + right_aligned(signed_decimal(rounded_cents(cents)), 3) + " cents"@
}

/// The half of the meter that holds the marker, read outwards from the note.
pub open spec fn marked_half_outwards(cents: int) -> Seq<char> {
    dots(marker_offset(cents)) + marker(tint_of(cents)) + dots(
        (METER_WIDTH - marker_offset(cents)) as nat,
    )
}

/// The same half read towards the note.
pub open spec fn marked_half_inwards(cents: int) -> Seq<char> {
    dots((METER_WIDTH - marker_offset(cents)) as nat) + marker(tint_of(cents)) + dots(
        marker_offset(cents),
    )
}

/// The meter for the note `name` and a deviation of `cents`.
pub open spec fn meter(name: NoteName, cents: int) -> Seq<char> {
    if cents < 0 {
        marked_half_inwards(cents) + note_cell(tint_of(cents), name) + dots(METER_WIDTH as nat)
            + cents_text(cents)
    } else {
        dots(METER_WIDTH as nat) + note_cell(tint_of(cents), name) + marked_half_outwards(cents)
            + cents_text(cents)
    }
}

/// The meter shown for a frequency that maps to no note.
pub open spec fn unknown_meter() -> Seq<char> {
    dots(METER_WIDTH as nat) + centered("?"@, 5) + dots(METER_WIDTH as nat)
}

/// The frame for a frequency in millihertz and its deviation from the
/// nearest note. A frequency of zero stands for no reading, and gives an
/// empty frame.
pub open spec fn tuner_frame(freq: int, cents: int) -> Seq<char> {
    if freq == 0 {
        Seq::empty()
    } else {
        match note_for(freq) {
            Some(note) => line_start() + meter(note.name, cents),
            None => line_start() + unknown_meter(),
        }
    }
}

/// The colour that a deviation is drawn in.
pub fn tint(cents: i32) -> (t: Tint)
    ensures
        t == tint_of(cents as int),
{
    let size: i64 = size_of_deviation(cents);
    if size < 1000 {
        Tint::Green
    } else if size < 3000 {
        Tint::Yellow
    } else {
        Tint::Red
    }
}

/// Size of a deviation.
fn size_of_deviation(cents: i32) -> (size: i64)
    ensures
        size == magnitude(cents as int),
{
    let wide: i64 = cents as i64;
    if wide < 0 {
        -wide
    } else {
        wide
    }
}

/// Distance of the marker from the note, in characters.
pub fn marker_steps(cents: i32) -> (steps: usize)
    ensures
        steps == marker_offset(cents as int),
        steps <= METER_WIDTH,
{
    let steps: i64 = size_of_deviation(cents) / 200;
    if steps > 25 {
        METER_WIDTH
    } else {
        steps as usize
    }
}

/// A run of `n` fill characters.
fn dots_text(n: usize) -> (out: String)
    ensures
        out@ == dots(n as nat),
{
    let mut out = String::new();
    let mut i: usize = 0;
    assert(out@ =~= dots(0));
    while i < n
        invariant
            i <= n,
            out@ == dots(i as nat),
        decreases n - i,
    {
        proof {
            reveal_strlit(".");
        }
        out.append(".");
        i += 1;
        assert(out@ =~= dots(i as nat));
    }
    out
}

/// The marker in the colour `t`.
fn marker_text(t: Tint) -> (out: String)
    ensures
        out@ == marker(t),
{
    let mut out = fg_tint(t);
    out.append("v");
    let off = fg_reset();
    out.append(off.as_str());
    out
}

/// The label of `name` in the colour `t`.
fn note_cell_text(t: Tint, name: NoteName) -> (out: String)
    ensures
        out@ == note_cell(t, name),
{
    let mut out = fg_tint(t);
    let label = centered_text(name.label(), 5);
    out.append(label.as_str());
    let off = fg_reset();
    out.append(off.as_str());
    out
}

/// A deviation in whole cents, as a number with its sign.
fn whole_cents_text(cents: i32) -> (out: String)
    ensures
        out@ == signed_decimal(rounded_cents(cents as int)),
{
    let wide: i64 = cents as i64;
    if wide < 0 {
        let whole: i64 = (-wide + 50) / 100;
        if whole > 0 {
            let mut out = String::from_str("-");
            let digits = decimal_text(whole as u64);
            out.append(digits.as_str());
            out
        } else {
            decimal_text(0)
        }
    } else {
        decimal_text(((wide + 50) / 100) as u64)
    }
}

/// The deviation in whole cents as it is printed after the meter.
fn cents_label(cents: i32) -> (out: String)
    ensures
        out@ == cents_text(cents as int),
{
    let mut out = String::from_str(" ");
    let number = whole_cents_text(cents);
    let field = right_aligned_text(number.as_str(), 3);
    out.append(field.as_str());
    out.append(" cents");
    out
}

/// The half of the meter that holds the marker, read outwards from the note.
fn marked_half_outwards_text(cents: i32) -> (out: String)
    ensures
        out@ == marked_half_outwards(cents as int),
{
    let steps: usize = marker_steps(cents);
    let mut out = dots_text(steps);
    let mark = marker_text(tint(cents));
    out.append(mark.as_str());
    let rest = dots_text(METER_WIDTH - steps);
    out.append(rest.as_str());
    out
}

/// The half of the meter that holds the marker, read towards the note.
fn marked_half_inwards_text(cents: i32) -> (out: String)
    ensures
        out@ == marked_half_inwards(cents as int),
{
    let steps: usize = marker_steps(cents);
    let mut out = dots_text(METER_WIDTH - steps);
    let mark = marker_text(tint(cents));
    out.append(mark.as_str());
    let rest = dots_text(steps);
    out.append(rest.as_str());
    out
}

/// The meter for `name` and `cents`.
fn meter_text(name: NoteName, cents: i32) -> (out: String)
    ensures
        out@ == meter(name, cents as int),
{
    let cell = note_cell_text(tint(cents), name);
    let plain = dots_text(METER_WIDTH);
    let tail = cents_label(cents);
    if cents < 0 {
        let mut out = marked_half_inwards_text(cents);
        out.append(cell.as_str());
        out.append(plain.as_str());
        out.append(tail.as_str());
        out
    } else {
        let mut out = plain;
        out.append(cell.as_str());
        let marked = marked_half_outwards_text(cents);
        out.append(marked.as_str());
        out.append(tail.as_str());
        out
    }
}

/// The meter for a frequency that maps to no note.
fn unknown_meter_text() -> (out: String)
    ensures
        out@ == unknown_meter(),
{
    let mut out = dots_text(METER_WIDTH);
    let cell = centered_text("?", 5);
    out.append(cell.as_str());
    let rest = dots_text(METER_WIDTH);
    out.append(rest.as_str());
    out
}

/// The tuner view. It holds the last frequency heard, in millihertz; zero
/// stands for no reading yet.
pub struct TunerUi(pub u32);

impl Ui for TunerUi {
    /// The tuner takes any frequency at any time.
    open spec fn ready(&self) -> bool {
        true
    }

    /// Keeps the frequency of this tick.
    fn update(&mut self, freq: u32)
        ensures
            final(self).0 == freq,
    {
        self.0 = freq;
    }
}

impl TunerUi {
    /// The note nearest to the last frequency heard, where there is a
    /// reading and it maps to a note.
    pub fn note(&self) -> (nearest: Option<Note>)
        ensures
            nearest == if self.0 == 0 {
                None
            } else {
                note_for(self.0 as int)
            },
    {
        if self.0 == 0 {
            None
        } else {
            match find_note(self.0) {
                Ok(note) => Some(note),
                Err(_) => None,
            }
        }
    }

    /// The frame for the last frequency heard. `cents` is its deviation from
    /// the nearest note in hundredths of a cent; it is not read where there
    /// is no reading or no nearest note.
    pub fn render(&self, cents: i32) -> (frame: String)
        ensures
            frame@ == tuner_frame(self.0 as int, cents as int),
    {
        if self.0 == 0 {
            let frame = String::new();
            assert(frame@ =~= Seq::<char>::empty());
            return frame;
        }
        let mut frame = line_start_text();
        match find_note(self.0) {
            Ok(note) => {
                let meter = meter_text(note.name, cents);
                frame.append(meter.as_str());
            },
            Err(_) => {
                let meter = unknown_meter_text();
                frame.append(meter.as_str());
            },
        }
        frame
    }
}

} // verus!
