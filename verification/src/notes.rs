//! The equal-tempered note table and the nearest-note search.
//!
//! Frequencies are whole millihertz. The table spans nine octaves, from C0 to
//! B8. Its top octave is written out; every lower octave is the top octave
//! divided by a power of two, so A in the fifth octave is exactly 440 Hz.

use vstd::prelude::*;

verus! {

/// The twelve pitch classes of one octave.
#[derive(Clone, Copy, Debug, PartialEq, Eq, Structural)]
pub enum NoteName {
    C,
    CSharp,
    D,
    DSharp,
    E,
    F,
    FSharp,
    G,
    GSharp,
    A,
    ASharp,
    B,
}

/// One entry of the note table: a pitch class and its frequency in millihertz.
#[derive(Clone, Copy, Debug, PartialEq, Eq, Structural)]
pub struct Note {
    pub name: NoteName,
    pub freq: u32,
}

/// Why a frequency could not be mapped to a note.
#[derive(Clone, Copy, Debug, PartialEq, Eq, Structural)]
pub enum PitchError {
    /// The frequency lies above the midpoint of the two highest table entries.
    OutOfRange,
}

/// Number of entries in the note table.
pub const NOTE_COUNT: usize = 108;

/// Pitch class at position `class` of an octave, counted from C.
pub open spec fn class_name(class: int) -> NoteName {
    if class == 0 {
        NoteName::C
    } else if class == 1 {
        NoteName::CSharp
    } else if class == 2 {
        NoteName::D
    } else if class == 3 {
        NoteName::DSharp
    } else if class == 4 {
        NoteName::E
    } else if class == 5 {
        NoteName::F
    } else if class == 6 {
        NoteName::FSharp
    } else if class == 7 {
        NoteName::G
    } else if class == 8 {
        NoteName::GSharp
    } else if class == 9 {
        NoteName::A
    } else if class == 10 {
        NoteName::ASharp
    } else {
        NoteName::B
    }
}

/// Frequency in millihertz of pitch class `class` in the top octave.
pub open spec fn top_octave_freq(class: int) -> int {
    if class == 0 {
        4186009
    } else if class == 1 {
        4434922
    } else if class == 2 {
        4698636
    } else if class == 3 {
        4978032
    } else if class == 4 {
        5274041
    } else if class == 5 {
        5587652
    } else if class == 6 {
        5919911
    } else if class == 7 {
        6271927
    } else if class == 8 {
        6644875
    } else if class == 9 {
        7040000
    } else if class == 10 {
        7458620
    } else {
        7902133
    }
}

/// What the top octave is divided by to reach octave `octave`.
pub open spec fn octave_divisor(octave: int) -> int {
    if octave == 0 {
        256
    } else if octave == 1 {
        128
    } else if octave == 2 {
        64
    } else if octave == 3 {
        32
    } else if octave == 4 {
        16
    } else if octave == 5 {
        8
    } else if octave == 6 {
        4
    } else if octave == 7 {
        2
    } else {
        1
    }
}

/// Frequency in millihertz of table entry `i`.
#[verifier::opaque]
pub open spec fn table_freq(i: int) -> int {
    top_octave_freq(i % 12) / octave_divisor(i / 12)
}

/// Table entry `i`.
pub open spec fn table_entry(i: int) -> Note {
    Note { name: class_name(i % 12), freq: table_freq(i) as u32 }
}

/// Distance between two frequencies.
pub open spec fn dist(a: int, b: int) -> int {
    if a >= b {
        a - b
    } else {
        b - a
    }
}

/// Entry `k` is the nearest one to `freq`: no entry is closer, and every
/// entry just as close stands later in the table.
pub open spec fn is_nearest(k: int, freq: int) -> bool {
    &&& 0 <= k < NOTE_COUNT
    &&& forall|j: int|
        0 <= j < NOTE_COUNT ==> {
            &&& dist(table_freq(k), freq) <= dist(#[trigger] table_freq(j), freq)
            &&& (dist(table_freq(j), freq) == dist(table_freq(k), freq) ==> k <= j)
        }
}

/// Index of the entry nearest to `freq`.
pub open spec fn nearest_index(freq: int) -> int {
    choose|k: int| is_nearest(k, freq)
}

/// The note that `freq` maps to, where it maps to one.
pub open spec fn note_for(freq: int) -> Option<Note> {
    if out_of_range(freq) {
        None
    } else {
        Some(table_entry(nearest_index(freq)))
    }
}

/// The label that a pitch class is shown and matched by.
pub open spec fn label_of(name: NoteName) -> Seq<char> {
    match name {
        NoteName::C => "C"@,
        NoteName::CSharp => "C#"@,
        NoteName::D => "D"@,
        NoteName::DSharp => "D#"@,
        NoteName::E => "E"@,
        NoteName::F => "F"@,
        NoteName::FSharp => "F#"@,
        NoteName::G => "G"@,
        NoteName::GSharp => "G#"@,
        NoteName::A => "A"@,
        NoteName::ASharp => "A#"@,
        NoteName::B => "B"@,
    }
}

impl NoteName {
    /// The label of this pitch class: its letter, and `#` where it is sharp.
    pub fn label(self) -> (text: &'static str)
        ensures
            text@ == label_of(self),
    {
        match self {
            NoteName::C => "C",
            NoteName::CSharp => "C#",
            NoteName::D => "D",
            NoteName::DSharp => "D#",
            NoteName::E => "E",
            NoteName::F => "F",
            NoteName::FSharp => "F#",
            NoteName::G => "G",
            NoteName::GSharp => "G#",
            NoteName::A => "A",
            NoteName::ASharp => "A#",
            NoteName::B => "B",
        }
    }
}

/// The frequencies that the search gives up on: those closer to the highest
/// entry than to the one before it.
pub open spec fn out_of_range(freq: int) -> bool {
    2 * freq > table_freq(NOTE_COUNT - 2) + table_freq(NOTE_COUNT - 1)
}

/// Two frequencies at least 256 apart stay apart in every octave.
proof fn lemma_octave_keeps_order(low: int, high: int, octave: int)
    requires
        0 <= octave <= 8,
        256 <= low,
        low + 256 <= high,
    ensures
        0 < low / octave_divisor(octave) < high / octave_divisor(octave) <= high,
{
    if octave == 0 {
        assert(0 < low / 256 < high / 256 <= high);
    } else if octave == 1 {
        assert(0 < low / 128 < high / 128 <= high);
    } else if octave == 2 {
        assert(0 < low / 64 < high / 64 <= high);
    } else if octave == 3 {
        assert(0 < low / 32 < high / 32 <= high);
    } else if octave == 4 {
        assert(0 < low / 16 < high / 16 <= high);
    } else if octave == 5 {
        assert(0 < low / 8 < high / 8 <= high);
    } else if octave == 6 {
        assert(0 < low / 4 < high / 4 <= high);
    } else if octave == 7 {
        assert(0 < low / 2 < high / 2 <= high);
    } else {
        assert(0 < low / 1 < high / 1 <= high);
    }
}

/// The highest note of an octave lies below the lowest of the next.
proof fn lemma_octave_boundary(octave: int)
    requires
        0 <= octave <= 7,
    ensures
        0 < top_octave_freq(11) / octave_divisor(octave) < top_octave_freq(0) / octave_divisor(
            octave + 1,
        ) <= 7902133,
{
    if octave == 0 {
        assert(0 < 7902133int / 256 < 4186009int / 128);
    } else if octave == 1 {
        assert(0 < 7902133int / 128 < 4186009int / 64);
    } else if octave == 2 {
        assert(0 < 7902133int / 64 < 4186009int / 32);
    } else if octave == 3 {
        assert(0 < 7902133int / 32 < 4186009int / 16);
    } else if octave == 4 {
        assert(0 < 7902133int / 16 < 4186009int / 8);
    } else if octave == 5 {
        assert(0 < 7902133int / 8 < 4186009int / 4);
    } else if octave == 6 {
        assert(0 < 7902133int / 4 < 4186009int / 2);
    } else {
        assert(0 < 7902133int / 2 < 4186009int / 1);
    }
}

/// Neighbouring entries ascend strictly, and every entry is positive.
pub proof fn lemma_table_step(i: int)
    requires
        0 <= i < NOTE_COUNT - 1,
    ensures
        0 < table_freq(i) < table_freq(i + 1) <= 7902133,
{
    reveal(table_freq);
    let octave = i / 12;
    let class = i % 12;
    assert(0 <= octave <= 8 && 0 <= class <= 11);
    if class < 11 {
        assert((i + 1) / 12 == octave && (i + 1) % 12 == class + 1);
        lemma_octave_keeps_order(top_octave_freq(class), top_octave_freq(class + 1), octave);
    } else {
        assert((i + 1) / 12 == octave + 1 && (i + 1) % 12 == 0);
        lemma_octave_boundary(octave);
    }
}

/// The table is strictly ascending by frequency.
pub proof fn lemma_table_ascending(i: int, j: int)
    requires
        0 <= i < j < NOTE_COUNT,
    ensures
        0 < table_freq(i) < table_freq(j) <= 7902133,
    decreases j - i,
{
    lemma_table_step(j - 1);
    if i < j - 1 {
        lemma_table_ascending(i, j - 1);
    }
}

/// Pitch class at position `class` of an octave.
fn name_of_class(class: usize) -> (name: NoteName)
    requires
        class < 12,
    ensures
        name == class_name(class as int),
{
    match class {
        0 => NoteName::C,
        1 => NoteName::CSharp,
        2 => NoteName::D,
        3 => NoteName::DSharp,
        4 => NoteName::E,
        5 => NoteName::F,
        6 => NoteName::FSharp,
        7 => NoteName::G,
        8 => NoteName::GSharp,
        9 => NoteName::A,
        10 => NoteName::ASharp,
        _ => NoteName::B,
    }
}

/// Top-octave frequency of pitch class `class`.
fn top_octave(class: usize) -> (freq: u32)
    requires
        class < 12,
    ensures
        freq == top_octave_freq(class as int),
{
    match class {
        0 => 4186009,
        1 => 4434922,
        2 => 4698636,
        3 => 4978032,
        4 => 5274041,
        5 => 5587652,
        6 => 5919911,
        7 => 6271927,
        8 => 6644875,
        9 => 7040000,
        10 => 7458620,
        _ => 7902133,
    }
}

/// Divisor that takes the top octave down to `octave`.
fn divisor_of(octave: usize) -> (d: u32)
    requires
        octave < 9,
    ensures
        d == octave_divisor(octave as int),
        d > 0,
{
    match octave {
        0 => 256,
        1 => 128,
        2 => 64,
        3 => 32,
        4 => 16,
        5 => 8,
        6 => 4,
        7 => 2,
        _ => 1,
    }
}

/// Reads entry `i` of the note table.
pub fn note_at(i: usize) -> (note: Note)
    requires
        i < NOTE_COUNT,
    ensures
        note == table_entry(i as int),
        note.freq == table_freq(i as int),
{
    proof {
        reveal(table_freq);
    }
    let class: usize = i % 12;
    let octave: usize = i / 12;
    Note { name: name_of_class(class), freq: top_octave(class) / divisor_of(octave) }
}

/// The square of a distance.
#[verifier::opaque]
pub open spec fn squared(d: int) -> int {
    d * d
}

/// Squares keep the order of distances, and the square of a distance between
/// two 32-bit frequencies fits in 64 bits.
proof fn lemma_square_order(a: int, b: int)
    requires
        0 <= a,
        0 <= b,
    ensures
        squared(a) < squared(b) <==> a < b,
        a <= 0xffff_ffff ==> 0 <= squared(a) <= 0xffff_fffe_0000_0001,
        squared(a) == a * a,
{
    reveal(squared);
    assert(a < b ==> a * a < b * b) by (nonlinear_arith)
        requires
            0 <= a,
            0 <= b,
    ;
    assert(b <= a ==> b * b <= a * a) by (nonlinear_arith)
        requires
            0 <= a,
            0 <= b,
    ;
    assert(a <= 0xffff_ffff ==> 0 <= a * a <= 0xffff_ffff * 0xffff_ffff) by (nonlinear_arith)
        requires
            0 <= a,
    ;
}

/// Squared distance between a table frequency and a query.
fn squared_distance(entry: u32, freq: u32) -> (d: u64)
    ensures
        d == squared(dist(entry as int, freq as int)),
{
    let gap: u64 = if entry >= freq {
        (entry - freq) as u64
    } else {
        (freq - entry) as u64
    };
    proof {
        lemma_square_order(gap as int, gap as int);
    }
    gap * gap
}

/// An entry that the scan stops at is the nearest one: its distance is
/// smaller than its predecessor's and not larger than its successor's.
pub proof fn lemma_turning_point_is_nearest(k: int, freq: int)
    requires
        0 <= k < NOTE_COUNT - 1,
        k > 0 ==> dist(table_freq(k), freq) < dist(table_freq(k - 1), freq),
        dist(table_freq(k), freq) <= dist(table_freq(k + 1), freq),
    ensures
        is_nearest(k, freq),
        !out_of_range(freq),
{
    lemma_table_step(k);
    if k > 0 {
        lemma_table_step(k - 1);
    }
    assert forall|j: int| 0 <= j < NOTE_COUNT implies {
        &&& dist(table_freq(k), freq) <= dist(#[trigger] table_freq(j), freq)
        &&& (dist(table_freq(j), freq) == dist(table_freq(k), freq) ==> k <= j)
    } by {
        if j > k + 1 {
            lemma_table_ascending(k + 1, j);
        }
        if j < k - 1 {
            lemma_table_ascending(j, k - 1);
        }
    }
    if k < NOTE_COUNT - 2 {
        lemma_table_ascending(k, NOTE_COUNT - 2);
        lemma_table_ascending(k + 1, NOTE_COUNT - 1);
    }
}

/// At most one entry is the nearest to a frequency.
pub proof fn lemma_nearest_unique(a: int, b: int, freq: int)
    requires
        is_nearest(a, freq),
        is_nearest(b, freq),
    ensures
        a == b,
{
    let da = dist(table_freq(a), freq);
    let db = dist(table_freq(b), freq);
    assert(da <= db && db <= da);
}

/// From entry `i` upwards there is an entry at which the distance to `freq`
/// stops shrinking, unless `freq` is out of range.
proof fn lemma_turning_point_exists(freq: int, i: int) -> (k: int)
    requires
        !out_of_range(freq),
        0 <= i < NOTE_COUNT - 1,
        i > 0 ==> dist(table_freq(i), freq) < dist(table_freq(i - 1), freq),
    ensures
        0 <= k < NOTE_COUNT - 1,
        k > 0 ==> dist(table_freq(k), freq) < dist(table_freq(k - 1), freq),
        dist(table_freq(k), freq) <= dist(table_freq(k + 1), freq),
    decreases NOTE_COUNT - i,
{
    lemma_table_step(i);
    if dist(table_freq(i), freq) <= dist(table_freq(i + 1), freq) {
        i
    } else {
        lemma_table_step(NOTE_COUNT - 2);
        lemma_turning_point_exists(freq, i + 1)
    }
}

/// Every frequency that is not out of range has a nearest entry, and maps to
/// it. So does, in particular, every frequency between the lowest entry and
/// the second highest.
pub proof fn lemma_in_range_maps_to_nearest(freq: int)
    requires
        !out_of_range(freq),
    ensures
        is_nearest(nearest_index(freq), freq),
        note_for(freq) == Some(table_entry(nearest_index(freq))),
{
    let k = lemma_turning_point_exists(freq, 0);
    lemma_turning_point_is_nearest(k, freq);
}

/// Every table frequency but the highest maps to its own entry.
pub proof fn lemma_table_frequency_maps_to_itself(k: int)
    requires
        0 <= k < NOTE_COUNT - 1,
    ensures
        note_for(table_freq(k)) == Some(table_entry(k)),
{
    let freq = table_freq(k);
    lemma_table_step(k);
    if k > 0 {
        lemma_table_step(k - 1);
    }
    lemma_turning_point_is_nearest(k, freq);
    lemma_nearest_unique(k, nearest_index(freq), freq);
}

/// The highest table frequency, and every frequency above it, maps to no
/// note; every frequency below the second highest maps to one.
pub proof fn lemma_range_of_search(freq: int)
    ensures
        freq >= table_freq(NOTE_COUNT - 1) ==> note_for(freq) is None,
        freq < table_freq(NOTE_COUNT - 2) ==> note_for(freq) is Some,
{
    lemma_table_step(NOTE_COUNT - 2);
}

/// Finds the table entry nearest to `freq` (in millihertz).
///
/// The table is walked upwards while the squared distance to `freq` keeps
/// shrinking; the entry before the first one that is not closer is the
/// answer. Of two entries equally close, the lower one is returned. A
/// frequency for which the distance shrinks up to the last entry is refused:
/// nothing shows that the last entry is the note that was played.
pub fn find_note(freq: u32) -> (res: Result<Note, PitchError>)
    ensures
        res is Err <==> out_of_range(freq as int),
        res matches Err(e) ==> e == PitchError::OutOfRange,
        res matches Ok(note) ==> is_nearest(nearest_index(freq as int), freq as int) && note
            == table_entry(nearest_index(freq as int)),
        res.ok() == note_for(freq as int),
        freq >= table_freq(NOTE_COUNT - 1) ==> res is Err,
        freq < table_freq(NOTE_COUNT - 2) ==> res is Ok,
{
    let mut best: u64 = squared_distance(note_at(0).freq, freq);
    let mut i: usize = 1;
    proof {
        lemma_table_ascending(0, 1);
    }
    while i < NOTE_COUNT
        invariant
            1 <= i <= NOTE_COUNT,
            best == squared(dist(table_freq(i - 1), freq as int)),
            i >= 2 ==> dist(table_freq(i - 1), freq as int) < dist(table_freq(i - 2), freq as int),
        decreases NOTE_COUNT - i,
    {
        proof {
            lemma_table_step(i - 1);
        }
        let d: u64 = squared_distance(note_at(i).freq, freq);
        proof {
            lemma_square_order(
                dist(table_freq(i as int), freq as int),
                dist(table_freq(i - 1), freq as int),
            );
        }
        if d < best {
            best = d;
        } else {
            proof {
                lemma_turning_point_is_nearest(i - 1, freq as int);
                lemma_nearest_unique(i - 1, nearest_index(freq as int), freq as int);
                lemma_table_step(NOTE_COUNT - 2);
            }
            return Ok(note_at(i - 1));
        }
        i += 1;
    }
    proof {
        lemma_table_step(NOTE_COUNT - 2);
    }
    Err(PitchError::OutOfRange)
}

} // verus!
