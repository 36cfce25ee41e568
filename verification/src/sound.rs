//! The audio events that the core hands to whoever plays sound.

use vstd::prelude::*;

verus! {

/// A request to the audio side: play an effect once, or switch the music.
#[derive(Clone, Copy, PartialEq, Eq, Structural, Debug, Hash)]
pub enum AudioEvent {
    Effect(Effect),
    Track(Track),
}

/// A short sound played once.
#[derive(Clone, Copy, PartialEq, Eq, Structural, Debug, Hash)]
pub enum Effect {
    BeepLong,
    EnemyAttack,
    PlayerAttack,
    Door,
    Typing,
    Backspace,
}

/// A piece of background music.
#[derive(Clone, Copy, PartialEq, Eq, Structural, Debug, Hash)]
pub enum Track {
    Intro,
    Complications,
    Loop,
}

/// Every track, each once.
pub open spec fn all_tracks_spec() -> Seq<Track> {
    seq![Track::Intro, Track::Complications, Track::Loop]
}

/// Lists every track, each once.
pub fn all_tracks() -> (r: Vec<Track>)
    ensures
        r@ == all_tracks_spec(),
{
    let r = vec![Track::Intro, Track::Complications, Track::Loop];
    assert(r@ =~= all_tracks_spec());
    r
}

/// The list of tracks misses none and repeats none.
pub proof fn lemma_all_tracks_complete(t: Track)
    ensures
        all_tracks_spec().contains(t),
        all_tracks_spec().no_duplicates(),
{
    let s = all_tracks_spec();
    assert(s[0] == Track::Intro && s[1] == Track::Complications && s[2] == Track::Loop);
}

impl AudioEvent {
    /// The file that holds the sound of the event.
    pub open spec fn asset(self) -> Seq<char> {
        match self {
            AudioEvent::Effect(Effect::BeepLong) => "assets/wav/beep_long.wav"@,
            AudioEvent::Effect(Effect::EnemyAttack) => "assets/wav/enemy_attack.wav"@,
            AudioEvent::Effect(Effect::PlayerAttack) => "assets/wav/player_attack.wav"@,
            AudioEvent::Effect(Effect::Door) => "assets/wav/door.wav"@,
            AudioEvent::Effect(Effect::Typing) => "assets/wav/typing.wav"@,
            AudioEvent::Effect(Effect::Backspace) => "assets/wav/backspace.wav"@,
            AudioEvent::Track(Track::Intro) => "assets/music/intro.mp3"@,
            AudioEvent::Track(Track::Complications) => "assets/music/complications.mp3"@,
            AudioEvent::Track(Track::Loop) => "assets/music/loop.mp3"@,
        }
    }

    /// The file that holds the sound of the event.
    pub fn asset_path(&self) -> (r: &'static str)
        ensures
            r@ == self.asset(),
    {
        match self {
            AudioEvent::Effect(Effect::BeepLong) => "assets/wav/beep_long.wav",
            AudioEvent::Effect(Effect::EnemyAttack) => "assets/wav/enemy_attack.wav",
            AudioEvent::Effect(Effect::PlayerAttack) => "assets/wav/player_attack.wav",
            AudioEvent::Effect(Effect::Door) => "assets/wav/door.wav",
            AudioEvent::Effect(Effect::Typing) => "assets/wav/typing.wav",
            AudioEvent::Effect(Effect::Backspace) => "assets/wav/backspace.wav",
            AudioEvent::Track(Track::Intro) => "assets/music/intro.mp3",
            AudioEvent::Track(Track::Complications) => "assets/music/complications.mp3",
            AudioEvent::Track(Track::Loop) => "assets/music/loop.mp3",
        }
    }
}

/// The number of samples over which one track fades into the next.
pub const FADE_SAMPLES: u32 = 44_100;

/// The number of samples after which the wanted track is looked at again.
pub const CHECK_SAMPLES: u32 = 10_000;

/// How the next sample of music is made.
#[derive(Clone, Copy, PartialEq, Eq, Structural, Debug)]
pub enum Mix {
    /// The next sample of one track.
    Plain(Track),
    /// The next samples of two tracks, blended: `numerator` parts in
    /// `denominator` of the way from `current` to `last`.
    Fade { current: Track, last: Track, numerator: u32, denominator: u32 },
}

/// Which track plays, which one is fading, and how far the counters have
/// run. The samples themselves are drawn elsewhere.
#[derive(Clone, Copy, PartialEq, Eq, Structural, Debug)]
pub struct MusicPlayback {
    pub current_track: Track,
    pub last_track: Option<Track>,
    pub samples_since_check: u32,
    pub samples_since_switch: u32,
}

/// One more sample on a counter, which stops at the largest value it holds.
pub open spec fn counted(samples: u32) -> u32 {
    if samples == u32::MAX {
        samples
    } else {
        (samples + 1) as u32
    }
}

impl MusicPlayback {
    /// Whether the playback is in order: a track never fades into itself.
    pub open spec fn wf(self) -> bool {
        self.last_track != Some(self.current_track)
    }

    /// The playback one sample on: both counters have moved, and a fade
    /// that has lasted long enough is over.
    pub open spec fn advanced(self) -> MusicPlayback {
        MusicPlayback {
            last_track: if counted(self.samples_since_switch) >= FADE_SAMPLES {
                None
            } else {
                self.last_track
            },
            samples_since_check: counted(self.samples_since_check),
            samples_since_switch: counted(self.samples_since_switch),
            ..self
        }
    }

    /// Whether it is time to look at the wanted track.
    pub open spec fn check_is_due(self) -> bool {
        self.samples_since_check > CHECK_SAMPLES
    }

    /// The playback after the wanted track was looked at: another track
    /// than the current one becomes the current one, and the one that
    /// played starts to fade; the count to the next look starts over.
    pub open spec fn switched(self, wanted: Track) -> MusicPlayback {
        if wanted != self.current_track {
            MusicPlayback {
                current_track: wanted,
                last_track: Some(self.current_track),
                samples_since_check: 0,
                samples_since_switch: 0,
            }
        } else {
            MusicPlayback { samples_since_check: 0, ..self }
        }
    }

    /// How the next sample is made: from the current track alone, or, as
    /// long as another track fades, from both.
    pub open spec fn mix_spec(self) -> Mix {
        match self.last_track {
            Some(last) if last != self.current_track => Mix::Fade {
                current: self.current_track,
                last,
                numerator: self.samples_since_switch,
                denominator: FADE_SAMPLES,
            },
            _ => Mix::Plain(self.current_track),
        }
    }

    /// The playback at the start: the intro plays and nothing fades.
    pub fn create() -> (r: Self)
        ensures
            r == (MusicPlayback {
                current_track: Track::Intro,
                last_track: None,
                samples_since_check: 0,
                samples_since_switch: 0,
            }),
            r.wf(),
    {
        MusicPlayback {
            current_track: Track::Intro,
            last_track: None,
            samples_since_check: 0,
            samples_since_switch: 0,
        }
    }

    /// Moves the playback one sample on and says whether it is time to
    /// look at the wanted track.
    pub fn advance(&mut self) -> (due: bool)
        ensures
            *final(self) == old(self).advanced(),
            due == final(self).check_is_due(),
            old(self).wf() ==> final(self).wf(),
            final(self).last_track is Some ==> final(self).samples_since_switch < FADE_SAMPLES,
    {
        self.samples_since_check = self.samples_since_check.saturating_add(1);
        self.samples_since_switch = self.samples_since_switch.saturating_add(1);
        if self.samples_since_switch >= FADE_SAMPLES {
            self.last_track = None;
        }
        self.samples_since_check > CHECK_SAMPLES
    }

    /// Takes note of the wanted track.
    pub fn set_track(&mut self, track: Track)
        ensures
            *final(self) == old(self).switched(track),
            old(self).wf() ==> final(self).wf(),
            final(self).current_track == track,
            !final(self).check_is_due(),
    {
        if track != self.current_track {
            self.last_track = Some(self.current_track);
            self.current_track = track;
            self.samples_since_switch = 0;
        }
        self.samples_since_check = 0;
    }

    /// How the next sample is made.
    pub fn mix(&self) -> (r: Mix)
        ensures
            r == self.mix_spec(),
            self.wf() ==> (r is Plain <==> self.last_track is None),
    {
        match self.last_track {
            Some(last) => {
                if last != self.current_track {
                    Mix::Fade {
                        current: self.current_track,
                        last,
                        numerator: self.samples_since_switch,
                        denominator: FADE_SAMPLES,
                    }
                } else {
                    Mix::Plain(self.current_track)
                }
            },
            None => Mix::Plain(self.current_track),
        }
    }
}

/// A fade comes to an end: a playback that is left alone plays its
/// current track alone after as many samples as a fade lasts.
pub proof fn lemma_fade_ends(playback: MusicPlayback)
    requires
        playback.samples_since_switch >= FADE_SAMPLES - 1,
    ensures
        playback.advanced().last_track is None,
        playback.advanced().mix_spec() == Mix::Plain(playback.current_track),
{
}

} // verus!
