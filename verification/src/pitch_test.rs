//! The note-matching game: play the requested note and hold it.
//!
//! Every tick maps the heard frequency to a note. A note wins when its label
//! begins with the label of the target, so a sharp also counts for its
//! natural. The tick on which a winning note is first heard only records it.
//! Each winning tick after that is counted; the tick that brings the count to
//! `HOLD_FRAMES` earns a point and draws a new target. Any tick that does not
//! win sets the count back to zero.

use rand::seq::SliceRandom;
use vstd::prelude::*;
use vstd::string::*;

use crate::notes::{find_note, label_of, note_for, NoteName};
use crate::term::{line_start, line_start_text};
use crate::text::{
    centered, centered_text, decimal, decimal_text, left_aligned, left_aligned_text, starts_with,
};
use crate::ui::Ui;

verus! {

/// Ticks in a row for which a winning note has to be held to earn a point:
/// one second at sixty ticks.
pub const HOLD_FRAMES: u32 = 60;

/// The notes that a target is drawn from, each as likely as another: the
/// twelve naturals and sharps of one octave, from A upwards.
pub open spec fn practice_notes() -> Seq<NoteName> {
    seq![
        NoteName::A,
        NoteName::ASharp,
        NoteName::B,
        NoteName::C,
        NoteName::CSharp,
        NoteName::D,
        NoteName::DSharp,
        NoteName::E,
        NoteName::F,
        NoteName::FSharp,
        NoteName::G,
        NoteName::GSharp,
    ]
}

/// Position of a note in the practice list.
pub open spec fn practice_index(name: NoteName) -> int {
    match name {
        NoteName::A => 0,
        NoteName::ASharp => 1,
        NoteName::B => 2,
        NoteName::C => 3,
        NoteName::CSharp => 4,
        NoteName::D => 5,
        NoteName::DSharp => 6,
        NoteName::E => 7,
        NoteName::F => 8,
        NoteName::FSharp => 9,
        NoteName::G => 10,
        NoteName::GSharp => 11,
    }
}

/// Every note stands in the practice list, and stands there once: the list
/// has twelve entries, and each note is found at its own position only.
pub proof fn lemma_practice_notes_complete(name: NoteName)
    ensures
        practice_notes().len() == 12,
        practice_notes().contains(name),
        forall|i: int|
            0 <= i < 12 ==> (#[trigger] practice_notes()[i] == name <==> i == practice_index(name)),
{
    let notes = practice_notes();
    let at = practice_index(name);
    assert(notes[at] == name);
    assert forall|i: int| 0 <= i < 12 implies (#[trigger] notes[i] == name <==> i == at) by {
        assert(practice_index(notes[i]) == i);
    }
}

/// The practice notes as a vector.
pub fn practice_set() -> (notes: Vec<NoteName>)
    ensures
        notes@ == practice_notes(),
{
    let notes = vec![
        NoteName::A,
        NoteName::ASharp,
        NoteName::B,
        NoteName::C,
        NoteName::CSharp,
        NoteName::D,
        NoteName::DSharp,
        NoteName::E,
        NoteName::F,
        NoteName::FSharp,
        NoteName::G,
        NoteName::GSharp,
    ];
    assert(notes@ =~= practice_notes());
    notes
}

/// Draws one of `notes` with rand's thread-local generator, through
/// `SliceRandom::choose`. Trusted: on a slice that is not empty, `choose`
/// returns a reference to one of its elements. Which one is not stated.
#[verifier::external_body]
fn choose_note(notes: &Vec<NoteName>) -> (picked: NoteName)
    requires
        notes@.len() > 0,
    ensures
        notes@.contains(picked),
{
    *notes.choose(&mut rand::thread_rng()).unwrap()
}

/// What the game shows and remembers.
pub struct GameState {
    /// The note heard at the last tick, if there was one.
    pub current: Option<NoteName>,
    /// The note that is asked for.
    pub target: NoteName,
    /// Points earned.
    pub score: nat,
    /// Winning ticks in a row since the last point or the last miss.
    pub hold: nat,
}

/// The label of the note heard, empty where none was.
pub open spec fn heard_label(heard: Option<NoteName>) -> Seq<char> {
    match heard {
        Some(name) => label_of(name),
        None => ""@,
    }
}

/// The win condition: the label heard begins with the target's label.
pub open spec fn wins(heard: Option<NoteName>, target: NoteName) -> bool {
    label_of(target).is_prefix_of(heard_label(heard))
}

/// The pitch class that a frequency in millihertz is heard as.
pub open spec fn heard_name(freq: int) -> Option<NoteName> {
    match note_for(freq) {
        Some(note) => Some(note.name),
        None => None,
    }
}

/// One tick of the game: `heard` is the note of this tick, `next_target` the
/// target that takes over if this tick earns the point.
///
/// A note that does not win ends the hold. A winning note that follows one
/// that did not win is only recorded: the hold starts with it, at zero. A
/// winning note that follows a winning one counts, and the tick that brings
/// the count to `HOLD_FRAMES` earns the point.
pub open spec fn step(s: GameState, heard: Option<NoteName>, next_target: NoteName) -> GameState {
    if !wins(heard, s.target) {
        GameState { current: heard, target: s.target, score: s.score, hold: 0 }
    } else if !wins(s.current, s.target) {
        GameState { current: heard, target: s.target, score: s.score, hold: 0 }
    } else if s.hold + 1 < HOLD_FRAMES {
        GameState { current: heard, target: s.target, score: s.score, hold: s.hold + 1 }
    } else {
        GameState { current: heard, target: next_target, score: s.score + 1, hold: 0 }
    }
}

/// The state after the ticks `heard`, all under the first target unless a
/// point is earned; `next_target` takes over at each point.
pub open spec fn run(s: GameState, heard: Seq<Option<NoteName>>, next_target: NoteName)
    -> GameState
    decreases heard.len(),
{
    if heard.len() == 0 {
        s
    } else {
        step(run(s, heard.drop_last(), next_target), heard.last(), next_target)
    }
}

/// Where no note was heard, the win condition does not hold, whatever the
/// target: every label has at least one character.
pub proof fn lemma_nothing_heard_never_wins(target: NoteName)
    ensures
        !wins(None, target),
{
    reveal_strlit("");
    reveal_strlit("C");
    reveal_strlit("C#");
    reveal_strlit("D");
    reveal_strlit("D#");
    reveal_strlit("E");
    reveal_strlit("F");
    reveal_strlit("F#");
    reveal_strlit("G");
    reveal_strlit("G#");
    reveal_strlit("A");
    reveal_strlit("A#");
    reveal_strlit("B");
    assert(label_of(target).len() > 0);
    assert(heard_label(None).len() == 0);
}

/// The first tick of a game earns nothing and starts no count, whatever is
/// heard: after it the hold count is zero, and score and target are as
/// before.
pub proof fn lemma_first_tick_only_detects(
    s: GameState,
    heard: Option<NoteName>,
    next_target: NoteName,
)
    requires
        s.current is None,
    ensures
        step(s, heard, next_target) == (GameState {
            current: heard,
            target: s.target,
            score: s.score,
            hold: 0,
        }),
{
    lemma_nothing_heard_never_wins(s.target);
}

/// The tick on which a winning note is first heard only records the note: the
/// hold count is zero after it, and score and target are unchanged.
pub proof fn lemma_first_match_only_records(
    s: GameState,
    heard: Option<NoteName>,
    next_target: NoteName,
)
    requires
        !wins(s.current, s.target),
        wins(heard, s.target),
    ensures
        step(s, heard, next_target) == (GameState {
            current: heard,
            target: s.target,
            score: s.score,
            hold: 0,
        }),
{
}

/// While the hold lasts, winning ticks only count up; the tick that completes
/// `HOLD_FRAMES` of them earns exactly one point and brings in the next target.
///
/// From a state in which the note heard last wins and the hold count is zero,
/// after `heard.len()` ticks that all win against the target: with fewer than
/// `HOLD_FRAMES` ticks the score and the target are unchanged, the hold count
/// is the number of ticks and the note heard last still wins; with exactly
/// `HOLD_FRAMES` ticks the score is one higher, the target is `next_target`
/// and the hold count is back at zero.
pub proof fn lemma_hold_earns_point(
    s: GameState,
    heard: Seq<Option<NoteName>>,
    next_target: NoteName,
)
    requires
        wins(s.current, s.target),
        s.hold == 0,
        heard.len() <= HOLD_FRAMES,
        forall|i: int| 0 <= i < heard.len() ==> wins(#[trigger] heard[i], s.target),
    ensures
        heard.len() < HOLD_FRAMES ==> run(s, heard, next_target).score == s.score && run(
            s,
            heard,
            next_target,
        ).target == s.target && run(s, heard, next_target).hold == heard.len() && wins(
            run(s, heard, next_target).current,
            s.target,
        ),
        heard.len() == HOLD_FRAMES ==> run(s, heard, next_target).score == s.score + 1 && run(
            s,
            heard,
            next_target,
        ).target == next_target && run(s, heard, next_target).hold == 0,
    decreases heard.len(),
{
    if heard.len() > 0 {
        let before = heard.drop_last();
        assert forall|i: int| 0 <= i < before.len() implies wins(#[trigger] before[i], s.target) by {
            assert(before[i] == heard[i]);
        }
        lemma_hold_earns_point(s, before, next_target);
        assert(wins(heard.last(), s.target));
    }
}

/// A tick that does not win ends the hold and leaves score and target alone.
pub proof fn lemma_miss_resets_hold(s: GameState, heard: Option<NoteName>, next_target: NoteName)
    requires
        !wins(heard, s.target),
    ensures
        step(s, heard, next_target).hold == 0,
        step(s, heard, next_target).score == s.score,
        step(s, heard, next_target).target == s.target,
{
}

/// The score never falls, and a tick adds at most one point.
pub proof fn lemma_score_monotonic(s: GameState, heard: Option<NoteName>, next_target: NoteName)
    ensures
        s.score <= step(s, heard, next_target).score <= s.score + 1,
{
}

/// The frame that shows a game state: the line start, then target, note
/// heard and score in columns of fixed width.
pub open spec fn game_frame(s: GameState) -> Seq<char> {
    line_start() + "target_note: "@ + centered(label_of(s.target), 4) + " | current: "@
        + centered(heard_label(s.current), 4) + " | score: "@ + left_aligned(decimal(s.score), 4)
}

/// The note-matching game.
pub struct PitchTestUi {
    current: Option<NoteName>,
    target_note: NoteName,
    score: u64,
    win_timeout: u32,
}

impl View for PitchTestUi {
    type V = GameState;

    closed spec fn view(&self) -> GameState {
        GameState {
            current: self.current,
            target: self.target_note,
            score: self.score as nat,
            hold: self.win_timeout as nat,
        }
    }
}

impl PitchTestUi {
    /// The hold count stays below `HOLD_FRAMES`, and the score fits its word.
    pub open spec fn wf(&self) -> bool {
        &&& self@.hold < HOLD_FRAMES
        &&& self@.score <= u64::MAX
    }

    /// A new game with a target drawn at random from the practice notes.
    pub fn new() -> (ui: Self)
        ensures
            ui.wf(),
            ui@.score == 0,
            ui@.hold == 0,
            ui@.current is None,
            practice_notes().contains(ui@.target),
    {
        let notes = practice_set();
        Self::with_target(choose_note(&notes))
    }

    /// A new game that asks for `target`.
    pub fn with_target(target: NoteName) -> (ui: Self)
        ensures
            ui.wf(),
            ui@ == (GameState { current: None, target, score: 0, hold: 0 }),
    {
        PitchTestUi { current: None, target_note: target, score: 0, win_timeout: 0 }
    }

    /// The note heard at the last tick.
    pub fn current(&self) -> (heard: Option<NoteName>)
        ensures
            heard == self@.current,
    {
        self.current
    }

    /// The note that is asked for.
    pub fn target_note(&self) -> (target: NoteName)
        ensures
            target == self@.target,
    {
        self.target_note
    }

    /// Points earned so far.
    pub fn score(&self) -> (score: u64)
        ensures
            score == self@.score,
    {
        self.score
    }

    /// Winning ticks in a row so far.
    pub fn win_timeout(&self) -> (hold: u32)
        ensures
            hold == self@.hold,
    {
        self.win_timeout
    }

    /// Whether the note heard last meets the win condition.
    pub fn is_win(&self) -> (won: bool)
        ensures
            won == wins(self@.current, self@.target),
    {
        heard_wins(self.current, self.target_note)
    }

    /// One tick on which `heard` was heard; `next_target` takes over as the
    /// target if this tick earns the point.
    pub fn tick(&mut self, heard: Option<NoteName>, next_target: NoteName)
        requires
            old(self).wf(),
            old(self)@.score < u64::MAX,
        ensures
            final(self).wf(),
            final(self)@ == step(old(self)@, heard, next_target),
    {
        let held: bool = heard_wins(self.current, self.target_note);
        self.current = heard;
        if !heard_wins(heard, self.target_note) {
            self.win_timeout = 0;
        } else if !held {
            self.win_timeout = 0;
        } else if self.win_timeout + 1 < HOLD_FRAMES {
            self.win_timeout = self.win_timeout + 1;
        } else {
            self.score = self.score + 1;
            self.win_timeout = 0;
            self.target_note = next_target;
        }
    }

    /// One tick with the frequency `freq`, in millihertz; `next_target` takes
    /// over as the target if this tick earns the point.
    pub fn advance(&mut self, freq: u32, next_target: NoteName)
        requires
            old(self).wf(),
            old(self)@.score < u64::MAX,
        ensures
            final(self).wf(),
            final(self)@ == step(old(self)@, heard_name(freq as int), next_target),
    {
        self.tick(hear(freq), next_target);
    }

    /// Whether a tick on which `heard` is heard earns the point: the note
    /// heard last and `heard` both win, and this tick completes the hold.
    pub fn earns_point(&self, heard: Option<NoteName>) -> (earns: bool)
        ensures
            earns == (wins(heard, self@.target) && wins(self@.current, self@.target)
                && self@.hold + 1 >= HOLD_FRAMES),
    {
        heard_wins(heard, self.target_note) && heard_wins(self.current, self.target_note)
            && self.win_timeout >= HOLD_FRAMES - 1
    }

    /// The frame that shows this state.
    pub fn render(&self) -> (frame: String)
        ensures
            frame@ == game_frame(self@),
    {
        let mut frame = line_start_text();
        frame.append("target_note: ");
        let target = centered_text(self.target_note.label(), 4);
        frame.append(target.as_str());
        frame.append(" | current: ");
        let current = centered_text(heard_text(self.current), 4);
        frame.append(current.as_str());
        frame.append(" | score: ");
        let digits = decimal_text(self.score);
        let score = left_aligned_text(digits.as_str(), 4);
        frame.append(score.as_str());
        frame
    }
}

impl Ui for PitchTestUi {
    /// The game can take a tick while its state is sound and the score can
    /// still grow.
    open spec fn ready(&self) -> bool {
        self.wf() && self@.score < u64::MAX
    }

    /// One tick with the frequency `freq`, in millihertz. If the tick earns
    /// the point, the next target is drawn at random from the practice notes.
    fn update(&mut self, freq: u32)
        ensures
            final(self).wf(),
            exists|next: NoteName|
                practice_notes().contains(next) && final(self)@ == step(
                    old(self)@,
                    heard_name(freq as int),
                    next,
                ),
    {
        let heard = hear(freq);
        if self.earns_point(heard) {
            let notes = practice_set();
            let next = choose_note(&notes);
            self.tick(heard, next);
        } else {
            let same = self.target_note;
            self.tick(heard, same);
            proof {
                let next = practice_notes()[0];
                assert(practice_notes().contains(next));
                assert(self@ == step(old(self)@, heard_name(freq as int), next));
            }
        }
    }
}

/// The pitch class that `freq` is heard as, if it maps to a note.
pub fn hear(freq: u32) -> (heard: Option<NoteName>)
    ensures
        heard == heard_name(freq as int),
{
    match find_note(freq) {
        Ok(note) => Some(note.name),
        Err(_) => None,
    }
}

/// The label of the note heard, empty where none was.
pub fn heard_text(heard: Option<NoteName>) -> (text: &'static str)
    ensures
        text@ == heard_label(heard),
{
    match heard {
        Some(name) => name.label(),
        None => "",
    }
}

/// Tests the win condition on a note heard and a target.
pub fn heard_wins(heard: Option<NoteName>, target: NoteName) -> (won: bool)
    ensures
        won == wins(heard, target),
{
    starts_with(heard_text(heard), target.label())
}

} // verus!
