use vstd::prelude::*;
use vstd::arithmetic::div_mod::{
    lemma_div_pos_is_pos, lemma_fundamental_div_mod_converse,
};
use vstd::arithmetic::mul::{
    lemma_mul_basics, lemma_mul_inequality, lemma_mul_is_distributive_add_other_way,
    lemma_mul_nonnegative,
};
use crate::config::Config;
use crate::note::Note;

verus! {

/// Samples in one played note of `units` beats: the exact value of
/// `units * beat_length * sample_rate`, truncated, with the beat length as
/// the rational `beat_num / beat_den`.  For the supported presets the
/// division is exact, so no rounding drift can accumulate.
pub open spec fn spec_note_ticks(cfg: Config, units: int) -> int {
    (units * (cfg.sample_rate as int * cfg.beat_num as int)) / (cfg.beat_den as int)
}

/// The transposition, in semitones, applied to every note of pass `pass`.
pub open spec fn spec_transposition(cfg: Config, pass: int) -> int {
    pass * cfg.transpose_step - cfg.transpose_offset
}

/// The pitch at which melody note `n` sounds in pass `pass`.
pub open spec fn spec_played_pitch(cfg: Config, n: Note, pass: int) -> int {
    n.0 + spec_transposition(cfg, pass)
}

/// The beat count with which every melody note sounds, after the
/// configured stretch.
pub open spec fn spec_played_units(cfg: Config, n: Note) -> int {
    n.1 * cfg.duration_scale
}

/// Machine-range side conditions for playing note `n` in pass `pass`:
/// the transposition, the transposed pitch and the stretched beat count
/// must each fit their fixed-width fields.
pub open spec fn note_fits(cfg: Config, n: Note, pass: int) -> bool {
    &&& i16::MIN <= spec_transposition(cfg, pass) <= i16::MAX
    &&& i16::MIN <= spec_played_pitch(cfg, n, pass) <= i16::MAX
    &&& spec_played_units(cfg, n) <= u16::MAX
}

/// Every note of the melody stays in machine range in every pass.
pub open spec fn melody_fits(cfg: Config, melody: Seq<Note>) -> bool {
    forall|pass: int, j: int|
        0 <= pass < cfg.passes && 0 <= j < melody.len() ==> #[trigger] note_fits(
            cfg,
            melody[j],
            pass,
        )
}

/// The run plays event `k` (pass-major order) from melody position
/// `k % len` during pass `k / len`.  These three give its pitch, its beat
/// count and its length in samples.
pub open spec fn spec_event_pitch(cfg: Config, melody: Seq<Note>, k: int) -> int {
    spec_played_pitch(cfg, melody[k % melody.len() as int], k / melody.len() as int)
}

pub open spec fn spec_event_units(cfg: Config, melody: Seq<Note>, k: int) -> int {
    spec_played_units(cfg, melody[k % melody.len() as int])
}

pub open spec fn spec_event_ticks(cfg: Config, melody: Seq<Note>, k: int) -> int {
    spec_note_ticks(cfg, spec_event_units(cfg, melody, k))
}

/// The running clock, in samples, at which event `k` starts: the sum of
/// the sample counts of all earlier events.
pub open spec fn spec_start(cfg: Config, melody: Seq<Note>, k: int) -> int
    decreases k,
{
    if k <= 0 {
        0
    } else {
        spec_start(cfg, melody, k - 1) + spec_event_ticks(cfg, melody, k - 1)
    }
}

/// The length in samples of the whole run: the clock after the last event.
pub open spec fn spec_stream_len(cfg: Config, melody: Seq<Note>) -> int {
    spec_start(cfg, melody, (cfg.passes as int) * (melody.len() as int))
}

/// One entry of the schedule: the note as played, the value of the running
/// clock when it starts, and how many samples it lasts.
#[derive(Debug, Clone, Copy, PartialEq, Eq, Structural)]
pub struct NoteEvent {
    pub note: Note,
    pub start: u64,
    pub ticks: u64,
}

/// Event `e` is what the run plays as its `k`-th note.
pub open spec fn event_ok(cfg: Config, melody: Seq<Note>, e: NoteEvent, k: int) -> bool {
    &&& e.note.0 == spec_event_pitch(cfg, melody, k)
    &&& e.note.1 == spec_event_units(cfg, melody, k)
    &&& e.start == spec_start(cfg, melody, k)
    &&& e.ticks == spec_event_ticks(cfg, melody, k)
}

/// The whole schedule is exactly the run: one entry per melody note per
/// pass, in order, each one correct.
pub open spec fn schedule_ok(cfg: Config, melody: Seq<Note>, events: Seq<NoteEvent>) -> bool {
    &&& events.len() == (cfg.passes as int) * (melody.len() as int)
    &&& forall|k: int|
        0 <= k < events.len() ==> event_ok(cfg, melody, #[trigger] events[k], k)
}

/// How many samples one played note of `units` beats lasts.
pub fn note_sample_count(cfg: &Config, units: u16) -> (t: u64)
    requires
        cfg.wf(),
    ensures
        t == spec_note_ticks(*cfg, units as int),
{
    let per_beat: u64 = (cfg.sample_rate as u64) * (cfg.beat_num as u64);
    assert((units as int) * (per_beat as int) <= 0xffff * 0xffff_ffff) by (nonlinear_arith)
        requires
            0 <= units as int <= 0xffff,
            0 <= per_beat as int <= 0xffff_ffff,
    ;
    let prod: u64 = (units as u64) * per_beat;
    prod / (cfg.beat_den as u64)
}

/// The transposition of pass `pass`.
pub fn pass_transposition(cfg: &Config, pass: u16) -> (t: i64)
    ensures
        t == spec_transposition(*cfg, pass as int),
        -0x8001_0000 <= t <= 0x8001_0000,
{
    assert(-0x7fff_ffff <= (pass as int) * (cfg.transpose_step as int)
        <= 0x7fff_ffff) by (nonlinear_arith)
        requires
            0 <= pass as int <= 0xffff,
            -0x8000 <= cfg.transpose_step as int <= 0x7fff,
    ;
    (pass as i64) * (cfg.transpose_step as i64) - (cfg.transpose_offset as i64)
}

/// Whether note `n` can be played in pass `pass` without leaving machine
/// range.
pub fn check_note_fits(cfg: &Config, n: Note, pass: u16) -> (b: bool)
    ensures
        b == note_fits(*cfg, n, pass as int),
{
    let t: i64 = pass_transposition(cfg, pass);
    let p: i64 = (n.0 as i64) + t;
    assert((n.1 as int) * (cfg.duration_scale as int) <= 0xffff * 0xffff) by (nonlinear_arith)
        requires
            0 <= n.1 as int <= 0xffff,
            0 <= cfg.duration_scale as int <= 0xffff,
    ;
    let d: u32 = (n.1 as u32) * (cfg.duration_scale as u32);
    -32768 <= t && t <= 32767 && -32768 <= p && p <= 32767 && d <= 65535
}

/// Melody note `n` as played in pass `pass`: transposed by the pass's
/// transposition and stretched by the configured factor.
pub fn play_note(cfg: &Config, n: Note, pass: u16) -> (r: Note)
    requires
        cfg.wf(),
        note_fits(*cfg, n, pass as int),
    ensures
        r.0 == spec_played_pitch(*cfg, n, pass as int),
        r.1 == spec_played_units(*cfg, n),
{
    let t: i64 = pass_transposition(cfg, pass);
    n.transpose(t as i16).scale_time(cfg.duration_scale)
}

/// `(a + 1) * b == a * b + b`.
proof fn lemma_succ_mul(a: int, b: int)
    ensures
        (a + 1) * b == a * b + b,
{
    lemma_mul_is_distributive_add_other_way(b, a, 1);
    lemma_mul_basics(b);
}

/// No event lasts a negative number of samples.
proof fn lemma_event_ticks_nonneg(cfg: Config, melody: Seq<Note>, k: int)
    requires
        cfg.wf(),
    ensures
        spec_event_ticks(cfg, melody, k) >= 0,
{
    let units = spec_event_units(cfg, melody, k);
    lemma_mul_nonnegative(melody[k % melody.len() as int].1 as int, cfg.duration_scale as int);
    lemma_mul_nonnegative(cfg.sample_rate as int, cfg.beat_num as int);
    lemma_mul_nonnegative(units, cfg.sample_rate as int * cfg.beat_num as int);
    lemma_div_pos_is_pos(units * (cfg.sample_rate as int * cfg.beat_num as int), cfg.beat_den as int);
}

/// The running clock never decreases.
proof fn lemma_start_le(cfg: Config, melody: Seq<Note>, a: int, b: int)
    requires
        cfg.wf(),
        0 <= a <= b,
    ensures
        spec_start(cfg, melody, a) <= spec_start(cfg, melody, b),
    decreases b - a,
{
    if a < b {
        lemma_start_le(cfg, melody, a, b - 1);
        lemma_event_ticks_nonneg(cfg, melody, b - 1);
    }
}

/// Lay out the whole run: for each of the configured passes, in order, each
/// melody note as played in that pass, with its start on the running clock
/// and its length in samples.  Returns nothing exactly when the run cannot
/// be represented: some note leaves machine range in some pass, or the
/// total length overflows the clock.
#[verifier::loop_isolation(false)]
pub fn build_schedule(cfg: &Config, melody: &Vec<Note>) -> (r: Option<Vec<NoteEvent>>)
    requires
        cfg.wf(),
    ensures
        match r {
            Some(events) => {
                &&& melody_fits(*cfg, melody@)
                &&& spec_stream_len(*cfg, melody@) <= u64::MAX
                &&& schedule_ok(*cfg, melody@, events@)
            },
            None => !(melody_fits(*cfg, melody@) && spec_stream_len(*cfg, melody@) <= u64::MAX),
        },
{
    let len: usize = melody.len();
    let mut events: Vec<NoteEvent> = Vec::new();
    let mut clock: u64 = 0;
    let mut pass: u16 = 0;
    proof {
        lemma_mul_basics(len as int);
    }
    while pass < cfg.passes
        invariant
            0 <= pass <= cfg.passes,
            events@.len() == (pass as int) * (len as int),
            clock == spec_start(*cfg, melody@, (pass as int) * (len as int)),
            forall|k: int|
                0 <= k < events@.len() ==> event_ok(*cfg, melody@, #[trigger] events@[k], k),
            forall|pp: int, j: int|
                0 <= pp < pass && 0 <= j < len ==> #[trigger] note_fits(*cfg, melody@[j], pp),
        decreases cfg.passes - pass,
    {
        let mut j: usize = 0;
        while j < len
            invariant
                0 <= pass < cfg.passes,
                0 <= j <= len,
                events@.len() == (pass as int) * (len as int) + j,
                clock == spec_start(*cfg, melody@, (pass as int) * (len as int) + j),
                forall|k: int|
                    0 <= k < events@.len() ==> event_ok(*cfg, melody@, #[trigger] events@[k], k),
                forall|pp: int, jj: int|
                    0 <= pp < pass && 0 <= jj < len ==> #[trigger] note_fits(*cfg, melody@[jj], pp),
                forall|jj: int|
                    0 <= jj < j ==> #[trigger] note_fits(*cfg, melody@[jj], pass as int),
            decreases len - j,
        {
            let ghost k: int = (pass as int) * (len as int) + j as int;
            if !check_note_fits(cfg, melody[j], pass) {
                return None;
            }
            let played: Note = play_note(cfg, melody[j], pass);
            let ticks: u64 = note_sample_count(cfg, played.1);
            proof {
                lemma_mul_nonnegative(pass as int, len as int);
                lemma_fundamental_div_mod_converse(k, len as int, pass as int, j as int);
            }
            let start: u64 = clock;
            match clock.checked_add(ticks) {
                Some(c2) => {
                    clock = c2;
                },
                None => {
                    proof {
                        lemma_mul_inequality(pass as int + 1, cfg.passes as int, len as int);
                        lemma_succ_mul(pass as int, len as int);
                        lemma_start_le(
                            *cfg,
                            melody@,
                            k + 1,
                            (cfg.passes as int) * (len as int),
                        );
                    }
                    return None;
                },
            }
            let ghost old_events = events@;
            events.push(NoteEvent { note: played, start, ticks });
            proof {
                assert forall|kk: int| 0 <= kk < events@.len() implies event_ok(
                    *cfg,
                    melody@,
                    #[trigger] events@[kk],
                    kk,
                ) by {
                    if kk < old_events.len() {
                        assert(event_ok(*cfg, melody@, old_events[kk], kk));
                    }
                }
            }
            j = j + 1;
        }
        proof {
            lemma_succ_mul(pass as int, len as int);
        }
        pass = pass + 1;
    }
    Some(events)
}

/// The sum of the sample counts of a sequence of events.
pub open spec fn spec_ticks_sum(events: Seq<NoteEvent>) -> int
    decreases events.len(),
{
    if events.len() == 0 {
        0
    } else {
        spec_ticks_sum(events.drop_last()) + events.last().ticks
    }
}

/// Longer prefixes of a schedule never sum to less.
proof fn lemma_ticks_sum_take_le(events: Seq<NoteEvent>, a: int, b: int)
    requires
        0 <= a <= b <= events.len(),
    ensures
        spec_ticks_sum(events.take(a)) <= spec_ticks_sum(events.take(b)),
    decreases b - a,
{
    if a < b {
        lemma_ticks_sum_take_le(events, a, b - 1);
        assert(events.take(b).drop_last() =~= events.take(b - 1));
    }
}

/// The sum of the sample counts of the first `m` events of a correct
/// schedule is the running clock at event `m`.
proof fn lemma_ticks_sum_prefix(cfg: Config, melody: Seq<Note>, events: Seq<NoteEvent>, m: int)
    requires
        0 <= m <= events.len(),
        forall|k: int| 0 <= k < events.len() ==> event_ok(cfg, melody, #[trigger] events[k], k),
    ensures
        spec_ticks_sum(events.take(m)) == spec_start(cfg, melody, m),
    decreases m,
{
    if m > 0 {
        lemma_ticks_sum_prefix(cfg, melody, events, m - 1);
        assert(events.take(m).drop_last() =~= events.take(m - 1));
        assert(event_ok(cfg, melody, events[m - 1], m - 1));
    }
}

/// Summing the per-note sample counts over every event of the run gives
/// exactly the length of the whole stream: the per-note rounding never
/// drifts against the total.
pub proof fn lemma_stream_len_is_ticks_sum(cfg: Config, melody: Seq<Note>, events: Seq<NoteEvent>)
    requires
        schedule_ok(cfg, melody, events),
    ensures
        spec_ticks_sum(events) == spec_stream_len(cfg, melody),
{
    lemma_ticks_sum_prefix(cfg, melody, events, events.len() as int);
    assert(events.take(events.len() as int) =~= events);
}

/// Add up the sample counts of a schedule's events; nothing exactly when
/// the sum overflows the clock.
pub fn schedule_total(events: &Vec<NoteEvent>) -> (t: Option<u64>)
    ensures
        match t {
            Some(s) => s == spec_ticks_sum(events@),
            None => spec_ticks_sum(events@) > u64::MAX,
        },
{
    let mut acc: u64 = 0;
    let mut i: usize = 0;
    proof {
        assert(events@.take(0) =~= Seq::<NoteEvent>::empty());
    }
    while i < events.len()
        invariant
            0 <= i <= events@.len(),
            acc == spec_ticks_sum(events@.take(i as int)),
        decreases events@.len() - i,
    {
        proof {
            assert(events@.take(i as int + 1).drop_last() =~= events@.take(i as int));
        }
        match acc.checked_add(events[i].ticks) {
            Some(a2) => {
                acc = a2;
            },
            None => {
                proof {
                    lemma_ticks_sum_take_le(events@, i as int + 1, events@.len() as int);
                    assert(events@.take(events@.len() as int) =~= events@);
                }
                return None;
            },
        }
        i = i + 1;
    }
    proof {
        assert(events@.take(events@.len() as int) =~= events@);
    }
    Some(acc)
}

/// The length in samples of the whole run over `melody`: the sum over
/// every pass and note of that note's sample count.  Nothing exactly when
/// the run cannot be represented, as for `build_schedule`.
pub fn total_samples(cfg: &Config, melody: &Vec<Note>) -> (t: Option<u64>)
    requires
        cfg.wf(),
    ensures
        match t {
            Some(s) => {
                &&& melody_fits(*cfg, melody@)
                &&& s == spec_stream_len(*cfg, melody@)
            },
            None => !(melody_fits(*cfg, melody@) && spec_stream_len(*cfg, melody@) <= u64::MAX),
        },
{
    match build_schedule(cfg, melody) {
        None => None,
        Some(events) => {
            proof {
                lemma_stream_len_is_ticks_sum(*cfg, melody@, events@);
            }
            match schedule_total(&events) {
                Some(s) => Some(s),
                None => {
                    proof {
                        assert(false);
                    }
                    None
                },
            }
        },
    }
}

/// Which clock a waveform listens to: restarted at the head of every note,
/// or run once through the whole stream.
#[derive(Debug, Clone, Copy, PartialEq, Eq, Structural)]
pub enum ClockPolicy {
    PerNote,
    Continuous,
}

/// The two synthesis strategies of the engine: a plain sine tone, or the
/// octave-ambiguous Shepard blend of sawtooth partials under the envelope.
#[derive(Debug, Clone, Copy, PartialEq, Eq, Structural)]
pub enum Voice {
    PureTone,
    ShepardSaw,
}

impl Voice {
    /// The clock that belongs to each voice: the plain tone restarts its
    /// clock at every note, while the Shepard voice carries one clock
    /// through the whole run.  The two must never be silently merged: they
    /// are audibly different outputs.
    pub fn clock_policy(self) -> (p: ClockPolicy)
        ensures
            p == (match self {
                Voice::PureTone => ClockPolicy::PerNote,
                Voice::ShepardSaw => ClockPolicy::Continuous,
            }),
    {
        match self {
            Voice::PureTone => ClockPolicy::PerNote,
            Voice::ShepardSaw => ClockPolicy::Continuous,
        }
    }
}

/// The waveform clock tick of sample `i` of an event that starts at
/// `start` on the running clock.
pub fn sample_tick(policy: ClockPolicy, start: u64, i: u64) -> (t: u64)
    requires
        start + i <= u64::MAX,
    ensures
        t == (match policy {
            ClockPolicy::PerNote => i as int,
            ClockPolicy::Continuous => start + i,
        }),
{
    match policy {
        ClockPolicy::PerNote => i,
        ClockPolicy::Continuous => start + i,
    }
}

} // verus!
