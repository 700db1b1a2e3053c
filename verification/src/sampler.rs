//! Integer core of the polyphonic sampler: region key/velocity matching,
//! loop-window rules, playback start positions and voice allocation with
//! voice stealing.

use vstd::prelude::*;

verus! {

/// Whether a region plays on `NoteOn` (the held/sustain layer) or `NoteOff`
/// (a short release/hammer-off sample).
#[derive(Debug, Clone, Copy, PartialEq, Eq, Structural)]
pub enum TriggerKind {
    Attack,
    Release,
}

/// How a region's `loop_start_frames..loop_end_frames` window is used during
/// playback.
#[derive(Debug, Clone, Copy, PartialEq, Eq, Structural)]
pub enum LoopMode {
    /// Play straight through once; no looping.
    Off,
    /// Loop the window forward forever (even after note-off).
    Infinite,
    /// Loop the window forward while the note is held; once release begins,
    /// play straight through to the sample's natural end.
    Sustain,
    /// Bounce back and forth across the window forever.
    PingPong,
    /// Play the whole sample backward once, from its end toward `offset_frames`;
    /// no looping.
    Reverse,
}

impl LoopMode {
    /// Number of valid `ParamId::SamplerLoopMode` automation values.
    pub const VARIANT_COUNT: u32 = 5;

    /// The automation index that encodes this loop mode.
    pub open spec fn index_of(self) -> u32 {
        match self {
            LoopMode::Off => 0,
            LoopMode::Infinite => 1,
            LoopMode::Sustain => 2,
            LoopMode::PingPong => 3,
            LoopMode::Reverse => 4,
        }
    }

    /// Encodes this loop mode as its automation index.
    pub fn param_index(self) -> (r: u32)
        ensures
            r == self.index_of(),
    {
        match self {
            LoopMode::Off => 0,
            LoopMode::Infinite => 1,
            LoopMode::Sustain => 2,
            LoopMode::PingPong => 3,
            LoopMode::Reverse => 4,
        }
    }

    /// Decodes an automation index, saturating at the last mode.
    pub fn from_param_index(index: u32) -> (r: Self)
        ensures
            r.index_of() == (if index < Self::VARIANT_COUNT { index } else { (Self::VARIANT_COUNT - 1) as u32 }),
    {
        match index {
            0 => LoopMode::Off,
            1 => LoopMode::Infinite,
            2 => LoopMode::Sustain,
            3 => LoopMode::PingPong,
            _ => LoopMode::Reverse,
        }
    }
}

impl LoopMode {
    /// Every value encodes to an index below `VARIANT_COUNT`, and no two
    /// values share an index, so decoding an encoded value gives it back.
    pub proof fn lemma_param_index_round_trip(self)
        ensures
            self.index_of() < Self::VARIANT_COUNT,
            forall|other: Self| #[trigger] other.index_of() == self.index_of() ==> other == self,
    {
    }
}

impl Default for LoopMode {
    fn default() -> (r: Self)
        ensures
            r == LoopMode::Off,
    {
        LoopMode::Off
    }
}

/// The key and velocity window of an SFZ-style region (both bounds inclusive).
#[derive(Debug, Clone, Copy, PartialEq, Eq, Structural)]
pub struct KeyVelocityRange {
    pub lokey: u8,
    pub hikey: u8,
    pub lovel: u8,
    pub hivel: u8,
}

impl KeyVelocityRange {
    /// Whether `note` played at `velocity_127` falls inside the window.
    pub fn matches(&self, note: u8, velocity_127: u8) -> (r: bool)
        ensures
            r == (self.lokey <= note <= self.hikey && self.lovel <= velocity_127 <= self.hivel),
    {
        note >= self.lokey && note <= self.hikey && velocity_127 >= self.lovel && velocity_127
            <= self.hivel
    }
}

/// Whether the loop window `loop_start_frames..loop_end_frames` wraps or
/// bounces playback for a sample of `frames` frames: the window must hold at
/// least two frames and end inside the sample; `Off` and `Reverse` never
/// loop, `Infinite` and `PingPong` always do, and `Sustain` loops only until
/// the voice starts releasing.
pub fn loop_window_active(
    mode: LoopMode,
    loop_start_frames: usize,
    loop_end_frames: usize,
    frames: usize,
    releasing: bool,
) -> (r: bool)
    ensures
        r == {
            &&& loop_end_frames - loop_start_frames >= 2
            &&& loop_end_frames <= frames
            &&& (mode == LoopMode::Infinite || mode == LoopMode::PingPong || (mode
                == LoopMode::Sustain && !releasing))
        },
{
    let loop_len = if loop_end_frames > loop_start_frames {
        loop_end_frames - loop_start_frames
    } else {
        0
    };
    if loop_len < 2 || loop_end_frames > frames {
        return false;
    }
    match mode {
        LoopMode::Off | LoopMode::Reverse => false,
        LoopMode::Infinite | LoopMode::PingPong => true,
        LoopMode::Sustain => !releasing,
    }
}

/// The frame a new voice starts reading from: `offset_frames` into the
/// sample, or for `Reverse` playback the sample's last frame (frame 0 for an
/// empty sample).
pub fn playback_start_frame(mode: LoopMode, frames: usize, offset_frames: usize) -> (r: usize)
    ensures
        mode == LoopMode::Reverse ==> r == (if frames > 0 { frames - 1 } else { 0 }),
        mode != LoopMode::Reverse ==> r == offset_frames,
{
    if mode == LoopMode::Reverse {
        if frames > 0 { frames - 1 } else { 0 }
    } else {
        offset_frames
    }
}

/// Where unlooped playback of a sample of `frames` frames ends. `Reverse`
/// playback runs down to `offset_frames` and ends once its read position
/// falls below it; forward playback ends once its read position reaches the
/// last frame, `frames - 1` (frame 0 for an empty sample), which is never
/// read as the left end of an interpolation pair.
pub fn playback_end_frame(mode: LoopMode, frames: usize, offset_frames: usize) -> (r: usize)
    ensures
        mode == LoopMode::Reverse ==> r == offset_frames,
        mode != LoopMode::Reverse ==> r == (if frames > 0 { frames - 1 } else { 0 }),
{
    if mode == LoopMode::Reverse {
        offset_frames
    } else if frames > 0 {
        frames - 1
    } else {
        0
    }
}

/// Number of frames in a sample buffer of `data_len` values: the data is
/// interleaved stereo when `channels == 2` and mono otherwise.
pub fn sample_frame_count(channels: u8, data_len: usize) -> (r: usize)
    ensures
        r == (if channels == 2 { data_len / 2 } else { data_len }),
{
    if channels == 2 {
        data_len / 2
    } else {
        data_len
    }
}

/// Positions in the data of the left and right values of frame `index`: the
/// two interleaved values for stereo data, the one value twice for mono.
pub fn sample_frame_slots(channels: u8, data_len: usize, index: usize) -> (r: (usize, usize))
    requires
        index < (if channels == 2 { data_len / 2 } else { data_len }),
    ensures
        channels == 2 ==> r.0 == 2 * index && r.1 == 2 * index + 1,
        channels != 2 ==> r.0 == index && r.1 == index,
        r.0 < data_len,
        r.1 < data_len,
{
    if channels == 2 {
        (2 * index, 2 * index + 1)
    } else {
        (index, index)
    }
}

/// What voice allocation and note-off handling need to know about one voice
/// of the pool.
#[derive(Debug, Clone, Copy, PartialEq, Eq, Structural)]
pub struct VoiceSlot {
    /// The voice is producing sound.
    pub active: bool,
    /// The voice's envelope is in its release stage.
    pub releasing: bool,
    /// Trigger order: larger ids were started later.
    pub activation_id: u64,
    /// The MIDI note the voice plays.
    pub note: u8,
    /// The voice plays a release-trigger region (it ignores note-off and
    /// ends when its sample does).
    pub release_trigger: bool,
}

impl VoiceSlot {
    /// An active voice in its release stage.
    pub open spec fn is_releasing(self) -> bool {
        self.active && self.releasing
    }
}

/// `i` holds the smallest activation id among the voices satisfying `pick`,
/// and no earlier such voice ties with it.
pub open spec fn is_first_oldest(voices: Seq<VoiceSlot>, pick: spec_fn(VoiceSlot) -> bool, i: int) -> bool {
    &&& 0 <= i < voices.len()
    &&& pick(voices[i])
    &&& forall|j: int|
        0 <= j < voices.len() && pick(#[trigger] voices[j]) ==> voices[i].activation_id
            <= voices[j].activation_id && (voices[j].activation_id == voices[i].activation_id
            ==> i <= j)
}

/// The slot a new note is given: the first idle voice; otherwise the oldest
/// releasing voice; otherwise the oldest voice (ties go to the earlier
/// slot); slot 0 for an empty pool.
pub open spec fn voice_slot_choice(voices: Seq<VoiceSlot>, r: int) -> bool {
    if exists|i: int| 0 <= i < voices.len() && !(#[trigger] voices[i]).active {
        &&& 0 <= r < voices.len()
        &&& !voices[r].active
        &&& forall|j: int| 0 <= j < r ==> (#[trigger] voices[j]).active
    } else if exists|i: int| 0 <= i < voices.len() && (#[trigger] voices[i]).is_releasing() {
        is_first_oldest(voices, |v: VoiceSlot| v.is_releasing(), r)
    } else if voices.len() > 0 {
        is_first_oldest(voices, |v: VoiceSlot| true, r)
    } else {
        r == 0
    }
}

/// Picks the voice a new note is played on: an idle voice if there is one,
/// otherwise the voice to steal (the oldest releasing voice, or failing that
/// the oldest voice).
pub fn find_voice_slot(voices: &[VoiceSlot]) -> (r: usize)
    ensures
        voice_slot_choice(voices@, r as int),
{
    let n = voices.len();
    let mut i: usize = 0;
    while i < n
        invariant
            n == voices@.len(),
            0 <= i <= n,
            forall|j: int| 0 <= j < i ==> (#[trigger] voices@[j]).active,
        decreases n - i,
    {
        if !voices[i].active {
            return i;
        }
        i = i + 1;
    }
    // Every voice is active: steal the oldest releasing voice, if any.
    let mut best: usize = 0;
    let mut found = false;
    let mut k: usize = 0;
    while k < n
        invariant
            n == voices@.len(),
            0 <= k <= n,
            found ==> 0 <= best < k && voices@[best as int].is_releasing(),
            found ==> forall|j: int|
                0 <= j < k && (#[trigger] voices@[j]).is_releasing() ==> voices@[best as int].activation_id
                    <= voices@[j].activation_id && (voices@[j].activation_id
                    == voices@[best as int].activation_id ==> best <= j),
            !found ==> forall|j: int| 0 <= j < k ==> !(#[trigger] voices@[j]).is_releasing(),
        decreases n - k,
    {
        if voices[k].active && voices[k].releasing {
            if !found || voices[k].activation_id < voices[best].activation_id {
                best = k;
                found = true;
            }
        }
        k = k + 1;
    }
    if found {
        return best;
    }
    // Nothing is releasing: steal the oldest voice.
    if n == 0 {
        return 0;
    }
    let mut oldest: usize = 0;
    let mut m: usize = 1;
    while m < n
        invariant
            n == voices@.len(),
            1 <= m <= n,
            0 <= oldest < m,
            forall|j: int|
                0 <= j < m ==> voices@[oldest as int].activation_id <= (#[trigger] voices@[j]).activation_id
                    && (voices@[j].activation_id == voices@[oldest as int].activation_id ==> oldest
                    <= j),
        decreases n - m,
    {
        if voices[m].activation_id < voices[oldest].activation_id {
            oldest = m;
        }
        m = m + 1;
    }
    oldest
}

/// Whether a note-off for `note` starts the release of voice `v`: it must be
/// sounding that note, not already releasing, and not a release-trigger
/// voice.
pub open spec fn released_by_note_off(v: VoiceSlot, note: u8) -> bool {
    v.active && v.note == note && !v.release_trigger && !v.releasing
}

/// Begins the release of every active attack-trigger voice currently playing
/// `note`; release-trigger voices and voices of other notes are unchanged.
pub fn release_note(voices: &mut Vec<VoiceSlot>, note: u8)
    ensures
        final(voices)@.len() == old(voices)@.len(),
        forall|i: int|
            0 <= i < old(voices)@.len() ==> #[trigger] final(voices)@[i] == (if released_by_note_off(
                old(voices)@[i],
                note,
            ) {
                (VoiceSlot { releasing: true, ..old(voices)@[i] })
            } else {
                old(voices)@[i]
            }),
{
    let n = voices.len();
    let mut i: usize = 0;
    while i < n
        invariant
            n == voices@.len(),
            n == old(voices)@.len(),
            0 <= i <= n,
            forall|j: int|
                0 <= j < i ==> #[trigger] voices@[j] == (if released_by_note_off(old(voices)@[j], note) {
                    VoiceSlot { releasing: true, ..old(voices)@[j] }
                } else {
                    old(voices)@[j]
                }),
            forall|j: int| i <= j < n ==> #[trigger] voices@[j] == old(voices)@[j],
        decreases n - i,
    {
        let v = voices[i];
        if v.active && v.note == note && !v.release_trigger && !v.releasing {
            voices.set(i, VoiceSlot { releasing: true, ..v });
        }
        i = i + 1;
    }
}

/// Note-off never touches release-trigger voices or voices of other notes,
/// and releasing the same note twice changes nothing more.
pub proof fn lemma_note_off_spares_other_voices(v: VoiceSlot, note: u8)
    ensures
        v.release_trigger ==> !released_by_note_off(v, note),
        v.note != note ==> !released_by_note_off(v, note),
        !v.active ==> !released_by_note_off(v, note),
        released_by_note_off(v, note) ==> !released_by_note_off(
            (VoiceSlot { releasing: true, ..v }),
            note,
        ),
{
}

/// At most every voice of the pool is sounding.
pub proof fn lemma_active_count_at_most_pool_size(voices: Seq<VoiceSlot>)
    ensures
        count_active(voices) <= voices.len(),
    decreases voices.len(),
{
    if voices.len() > 0 {
        lemma_active_count_at_most_pool_size(voices.drop_last());
    }
}

/// When every voice is sounding and some are releasing, the voice chosen for
/// a new note is a releasing one, so still-held notes are not cut off.
pub proof fn lemma_stealing_prefers_releasing_voices(voices: Seq<VoiceSlot>, r: int)
    requires
        voice_slot_choice(voices, r),
        forall|i: int| 0 <= i < voices.len() ==> (#[trigger] voices[i]).active,
        exists|i: int| 0 <= i < voices.len() && (#[trigger] voices[i]).is_releasing(),
    ensures
        0 <= r < voices.len(),
        voices[r].is_releasing(),
{
}

/// Number of voices among `voices` that satisfy `active`.
pub open spec fn count_active(voices: Seq<VoiceSlot>) -> nat
    decreases voices.len(),
{
    if voices.len() == 0 {
        0
    } else {
        count_active(voices.drop_last()) + if voices.last().active { 1nat } else { 0nat }
    }
}

/// Counts the voices that are currently producing sound.
pub fn active_voice_count(voices: &[VoiceSlot]) -> (r: usize)
    ensures
        r == count_active(voices@),
{
    let mut count: usize = 0;
    let mut i: usize = 0;
    while i < voices.len()
        invariant
            0 <= i <= voices@.len(),
            count == count_active(voices@.take(i as int)),
            count <= i,
        decreases voices@.len() - i,
    {
        assert(voices@.take(i as int + 1).drop_last() =~= voices@.take(i as int));
        if voices[i].active {
            count = count + 1;
        }
        i = i + 1;
    }
    assert(voices@.take(voices@.len() as int) =~= voices@);
    count
}

/// The number of sounding voices is the number of slots whose `active` flag
/// is set: it reads nothing but those flags, so a pool of `n` active voices
/// counts `n` whatever they are playing or whether they are releasing.
pub proof fn lemma_active_count_counts_active_flags(voices: Seq<VoiceSlot>)
    ensures
        count_active(voices) == voices.filter(|v: VoiceSlot| v.active).len(),
        (forall|i: int| 0 <= i < voices.len() ==> #[trigger] voices[i].active) ==> count_active(
            voices,
        ) == voices.len(),
        (forall|i: int| 0 <= i < voices.len() ==> !(#[trigger] voices[i].active)) ==> count_active(
            voices,
        ) == 0,
    decreases voices.len(),
{
    reveal(Seq::filter);
    if voices.len() > 0 {
        let rest = voices.drop_last();
        lemma_active_count_counts_active_flags(rest);
        assert forall|i: int| 0 <= i < rest.len() implies rest[i] == voices[i] by {}
        if forall|i: int| 0 <= i < voices.len() ==> #[trigger] voices[i].active {
            assert(voices.last() == voices[voices.len() - 1]);
        }
        if forall|i: int| 0 <= i < voices.len() ==> !(#[trigger] voices[i].active) {
            assert(voices.last() == voices[voices.len() - 1]);
        }
    }
}

impl LoopMode {
    /// The automation indices, fixed by the parameter's wire format: Off = 0, Infinite = 1, Sustain = 2, PingPong = 3, Reverse = 4.
    /// Decoding index `i` below `VARIANT_COUNT` therefore gives the `i`-th
    /// of these, and any larger index gives Reverse.
    pub proof fn lemma_param_index_values()
        ensures
            LoopMode::Off.index_of() == 0,
            LoopMode::Infinite.index_of() == 1,
            LoopMode::Sustain.index_of() == 2,
            LoopMode::PingPong.index_of() == 3,
            LoopMode::Reverse.index_of() == 4,
            Self::VARIANT_COUNT == 5,
    {
    }
}

} // verus!
