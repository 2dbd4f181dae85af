use vstd::prelude::*;

verus! {

/// What to load and which streams to decode.
pub struct MediaLoadOptions {
    pub source: String,
    pub enable_video: Option<bool>,
    pub enable_audio: Option<bool>,
}

/// Which backend a player should use.
pub struct MediaPlayerOptions {
    pub backend: Option<String>,
}

/// The codecs a backend decodes.
pub struct CodecSupport {
    pub video: Vec<String>,
    pub audio: Vec<String>,
}

/// A decoded video frame.
pub struct VideoFramePacket {
    pub pts_ms: u32,
    pub width: u32,
    pub height: u32,
    pub pixel_format: String,
    pub bytes: Vec<u8>,
}

/// A decoded block of audio samples.
pub struct AudioPacket {
    pub pts_ms: u32,
    pub sample_rate: u32,
    pub channels: u8,
    pub sample_format: String,
    pub bytes: Vec<u8>,
}

// ── Backends ────────────────────────────────────────────────────────────────

/// The names of the decoder backends compiled into this build: none, as
/// the FFmpeg backend is not part of it.
pub open spec fn compiled_backends() -> Seq<Seq<char>> {
    Seq::empty()
}

/// The video codecs the default backend decodes: none without a backend.
pub open spec fn default_video_codecs() -> Seq<Seq<char>> {
    Seq::empty()
}

/// The audio codecs the default backend decodes: none without a backend.
pub open spec fn default_audio_codecs() -> Seq<Seq<char>> {
    Seq::empty()
}

/// The decoder backends compiled into this build (see `compiled_backends`).
pub fn available_backend_names() -> (v: Vec<&'static str>)
    ensures
        v@.map_values(|n: &'static str| n@) == compiled_backends(),
{
    Vec::new()
}

/// The backend a player uses when none is asked for: none in this build.
pub fn default_backend_name() -> (r: Option<&'static str>)
    ensures
        r is None,
{
    None
}

/// Why no backend could be made.
#[derive(Debug)]
pub enum MediaBackendError {
    /// No backend was asked for and there is no default one.
    NoneAvailable,
    /// The FFmpeg backend was asked for but is not compiled in.
    NotCompiled,
    /// A backend of an unknown name was asked for.
    Unknown(String),
}

impl MediaBackendError {
    /// The error's text.
    pub fn message(&self) -> (s: String)
        ensures
            s@ == (match *self {
                MediaBackendError::NoneAvailable =>
                    "no media backend available in this build; compile with ffmpeg-backend feature"@,
                MediaBackendError::NotCompiled =>
                    "ffmpeg backend is not compiled in; enable the ffmpeg-backend feature"@,
                MediaBackendError::Unknown(name) => "unknown media backend '"@ + name@
                    + "', available: "@,
            }),
    {
        match self {
            MediaBackendError::NoneAvailable => String::from_str(
                "no media backend available in this build; compile with ffmpeg-backend feature",
            ),
            MediaBackendError::NotCompiled => String::from_str(
                "ffmpeg backend is not compiled in; enable the ffmpeg-backend feature",
            ),
            MediaBackendError::Unknown(name) => {
                let mut s = String::from_str("unknown media backend '");
                s.append(name.as_str());
                s.append("', available: ");
                s
            },
        }
    }
}

/// Makes the backend of the given name. In this build every name is refused:
/// `"ffmpeg"` as not compiled in, any other as unknown.
pub fn create_backend(name: &str) -> (r: Result<(), MediaBackendError>)
    ensures
        match r {
            Ok(()) => false,
            Err(e) => if name@ == "ffmpeg"@ {
                e is NotCompiled
            } else {
                e matches MediaBackendError::Unknown(n) && n@ == name@
            },
        },
{
    if crate::textkit::str_eq(name, "ffmpeg") {
        Err(MediaBackendError::NotCompiled)
    } else {
        Err(MediaBackendError::Unknown(String::from_str(name)))
    }
}

/// Picks the backend a player is made with: the one asked for, else the
/// default one.
pub fn select_backend(backend: Option<&str>) -> (r: Result<(), MediaBackendError>)
    ensures
        match r {
            Ok(()) => false,
            Err(e) => match backend {
                None => e is NoneAvailable,
                Some(name) => if name@ == "ffmpeg"@ {
                    e is NotCompiled
                } else {
                    e matches MediaBackendError::Unknown(n) && n@ == name@
                },
            },
        },
{
    match backend {
        Some(name) => create_backend(name),
        None => match default_backend_name() {
            Some(name) => create_backend(name),
            None => Err(MediaBackendError::NoneAvailable),
        },
    }
}

/// The codecs of the default backend; empty lists without one.
pub fn get_codec_support() -> (c: CodecSupport)
    ensures
        crate::textkit::views(c.video@) == default_video_codecs(),
        crate::textkit::views(c.audio@) == default_audio_codecs(),
{
    let c = CodecSupport { video: Vec::new(), audio: Vec::new() };
    assert(crate::textkit::views(c.video@) =~= default_video_codecs());
    assert(crate::textkit::views(c.audio@) =~= default_audio_codecs());
    c
}

fn list_contains(list: &Vec<String>, item: &str) -> (b: bool)
    ensures
        b == exists|i: int| 0 <= i < list@.len() && #[trigger] list@[i]@ == item@,
{
    let n = list.len();
    for i in 0..n
        invariant
            n == list@.len(),
            forall|j: int| 0 <= j < i ==> #[trigger] list@[j]@ != item@,
    {
        if crate::textkit::str_eq(list[i].as_str(), item) {
            return true;
        }
    }
    false
}

/// Whether the default backend decodes a video codec (one of
/// `default_video_codecs`).
pub fn supports_video_codec(codec: &str) -> (b: bool)
    ensures
        b == default_video_codecs().contains(codec@),
{
    let support = get_codec_support();
    let b = list_contains(&support.video, codec);
    proof {
        if b {
            let i = choose|i: int| 0 <= i < support.video@.len() && #[trigger] support.video@[i]@ == codec@;
            assert(crate::textkit::views(support.video@)[i] == codec@);
        }
    }
    b
}

/// Whether the default backend decodes an audio codec (one of
/// `default_audio_codecs`).
pub fn supports_audio_codec(codec: &str) -> (b: bool)
    ensures
        b == default_audio_codecs().contains(codec@),
{
    let support = get_codec_support();
    let b = list_contains(&support.audio, codec);
    proof {
        if b {
            let i = choose|i: int| 0 <= i < support.audio@.len() && #[trigger] support.audio@[i]@ == codec@;
            assert(crate::textkit::views(support.audio@)[i] == codec@);
        }
    }
    b
}

/// The names of the compiled-in backends (see `compiled_backends`), as
/// strings.
pub fn available_media_backends() -> (v: Vec<String>)
    ensures
        crate::textkit::views(v@) == compiled_backends(),
{
    let names = available_backend_names();
    let mut out: Vec<String> = Vec::new();
    let n = names.len();
    for i in 0..n
        invariant
            n == names@.len(),
            names@.map_values(|m: &'static str| m@) == compiled_backends(),
            crate::textkit::views(out@) == compiled_backends().take(i as int),
    {
        let s = String::from_str(names[i]);
        out.push(s);
        proof {
            assert(names@.map_values(|m: &'static str| m@)[i as int] == names@[i as int]@);
            assert(crate::textkit::views(out@) =~= compiled_backends().take(i + 1));
        }
    }
    assert(compiled_backends().take(n as int) =~= compiled_backends());
    out
}

// ── Playback state ──────────────────────────────────────────────────────────

/// A time in milliseconds as reported: saturated to `u32`.
pub open spec fn reported_ms(t: u64) -> u32 {
    if t <= u32::MAX { t as u32 } else { u32::MAX }
}

/// Saturates a time in milliseconds to `u32`.
pub fn clamp_ms(t: u64) -> (r: u32)
    ensures
        r == reported_ms(t),
{
    if t <= 4294967295u64 {
        t as u32
    } else {
        4294967295u32
    }
}

/// Why a playback operation was refused.
#[derive(Debug)]
pub enum PlaybackError {
    /// Nothing has been loaded yet.
    NotLoaded,
}

impl PlaybackError {
    /// The error's text.
    pub fn message(&self) -> (s: String)
        ensures
            s@ == "media source is not loaded; call load() first"@,
    {
        String::from_str("media source is not loaded; call load() first")
    }
}

/// The playback state a decoder backend keeps, volume aside.
pub struct PlaybackState {
    pub source: Option<String>,
    pub is_loaded: bool,
    pub is_playing: bool,
    pub enable_video: bool,
    pub enable_audio: bool,
    pub current_time_ms: u64,
    pub duration_ms: u64,
    pub muted: bool,
}

/// Two states hold the same source, with the same streams enabled and the
/// same muting.
pub open spec fn same_source(a: PlaybackState, b: PlaybackState) -> bool {
    &&& a.source == b.source
    &&& a.enable_video == b.enable_video
    &&& a.enable_audio == b.enable_audio
    &&& a.muted == b.muted
}

impl PlaybackState {
    /// Nothing loaded, not playing, at time 0.
    pub fn new() -> (p: Self)
        ensures
            p.source is None,
            !p.is_loaded && !p.is_playing,
            !p.enable_video && !p.enable_audio,
            p.current_time_ms == 0 && p.duration_ms == 0,
            !p.muted,
    {
        PlaybackState {
            source: None,
            is_loaded: false,
            is_playing: false,
            enable_video: false,
            enable_audio: false,
            current_time_ms: 0,
            duration_ms: 0,
            muted: false,
        }
    }

    /// Fails unless a source is loaded.
    pub fn ensure_loaded(&self) -> (r: Result<(), PlaybackError>)
        ensures
            r is Ok <==> self.is_loaded,
    {
        if !self.is_loaded {
            return Err(PlaybackError::NotLoaded);
        }
        Ok(())
    }

    /// Records a source the backend has opened, whose duration the container
    /// gives in microseconds: loaded, paused at time 0, with the streams the
    /// options ask for (both by default).
    pub fn load(&mut self, options: &MediaLoadOptions, duration_us: i64)
        ensures
            final(self).source matches Some(s) && s@ == options.source@,
            final(self).is_loaded && !final(self).is_playing,
            final(self).enable_video == (match options.enable_video {
                Some(b) => b,
                None => true,
            }),
            final(self).enable_audio == (match options.enable_audio {
                Some(b) => b,
                None => true,
            }),
            final(self).current_time_ms == 0,
            final(self).duration_ms == (if duration_us > 0 { duration_us as int / 1000 } else { 0 }),
            final(self).muted == old(self).muted,
    {
        self.source = Some(options.source.clone());
        self.enable_video = match options.enable_video {
            Some(b) => b,
            None => true,
        };
        self.enable_audio = match options.enable_audio {
            Some(b) => b,
            None => true,
        };
        self.current_time_ms = 0;
        self.duration_ms = if duration_us > 0 {
            (duration_us as u64) / 1000
        } else {
            0
        };
        self.is_loaded = true;
        self.is_playing = false;
    }

    /// Starts playing a loaded source.
    pub fn play(&mut self) -> (r: Result<(), PlaybackError>)
        ensures
            r is Ok <==> old(self).is_loaded,
            final(self).is_playing == (old(self).is_loaded || old(self).is_playing),
            final(self).current_time_ms == old(self).current_time_ms,
            final(self).duration_ms == old(self).duration_ms,
            final(self).is_loaded == old(self).is_loaded,
            same_source(*old(self), *final(self)),
    {
        self.ensure_loaded()?;
        self.is_playing = true;
        Ok(())
    }

    /// Pauses a loaded source where it is.
    pub fn pause(&mut self) -> (r: Result<(), PlaybackError>)
        ensures
            r is Ok <==> old(self).is_loaded,
            final(self).is_playing == (!old(self).is_loaded && old(self).is_playing),
            final(self).current_time_ms == old(self).current_time_ms,
            final(self).duration_ms == old(self).duration_ms,
            final(self).is_loaded == old(self).is_loaded,
            same_source(*old(self), *final(self)),
    {
        self.ensure_loaded()?;
        self.is_playing = false;
        Ok(())
    }

    /// Stops a loaded source and rewinds it to time 0.
    pub fn stop(&mut self) -> (r: Result<(), PlaybackError>)
        ensures
            r is Ok <==> old(self).is_loaded,
            old(self).is_loaded ==> !final(self).is_playing && final(self).current_time_ms == 0,
            !old(self).is_loaded ==> final(self).is_playing == old(self).is_playing
                && final(self).current_time_ms == old(self).current_time_ms,
            final(self).duration_ms == old(self).duration_ms,
            final(self).is_loaded == old(self).is_loaded,
            same_source(*old(self), *final(self)),
    {
        self.ensure_loaded()?;
        self.is_playing = false;
        self.current_time_ms = 0;
        Ok(())
    }

    /// Moves a loaded source to a position.
    pub fn seek(&mut self, position_ms: u32) -> (r: Result<(), PlaybackError>)
        ensures
            r is Ok <==> old(self).is_loaded,
            final(self).current_time_ms == (if old(self).is_loaded {
                position_ms as u64
            } else {
                old(self).current_time_ms
            }),
            final(self).is_playing == old(self).is_playing,
            final(self).duration_ms == old(self).duration_ms,
            final(self).is_loaded == old(self).is_loaded,
            same_source(*old(self), *final(self)),
    {
        self.ensure_loaded()?;
        self.current_time_ms = position_ms as u64;
        Ok(())
    }

    /// Mutes or unmutes; nothing else changes.
    pub fn set_muted(&mut self, muted: bool)
        ensures
            final(self).muted == muted,
            final(self).is_playing == old(self).is_playing,
            final(self).current_time_ms == old(self).current_time_ms,
            final(self).source == old(self).source,
            final(self).enable_video == old(self).enable_video,
            final(self).enable_audio == old(self).enable_audio,
            final(self).is_loaded == old(self).is_loaded,
            final(self).duration_ms == old(self).duration_ms,
    {
        self.muted = muted;
    }

    /// The first half of a tick: a playing source moves on by `delta_ms`
    /// (saturating). Returns whether the source is playing, that is whether
    /// the backend should decode and then settle the tick.
    pub fn tick_advance(&mut self, delta_ms: u32) -> (active: bool)
        ensures
            active == (old(self).is_loaded && old(self).is_playing),
            final(self).current_time_ms == (if active {
                if old(self).current_time_ms + delta_ms <= u64::MAX {
                    (old(self).current_time_ms + delta_ms) as u64
                } else {
                    u64::MAX
                }
            } else {
                old(self).current_time_ms
            }),
            final(self).is_playing == old(self).is_playing,
            final(self).is_loaded == old(self).is_loaded,
            final(self).duration_ms == old(self).duration_ms,
            same_source(*old(self), *final(self)),
    {
        if self.is_loaded && self.is_playing {
            self.current_time_ms = self.current_time_ms.saturating_add(delta_ms as u64);
            true
        } else {
            false
        }
    }

    /// The second half of a tick, after decoding: playback stops at the end
    /// of a source of known duration, and once the stream is exhausted and
    /// every decoded packet has been read.
    pub fn tick_settle(&mut self, exhausted: bool)
        ensures
            final(self).current_time_ms == (if old(self).duration_ms > 0
                && old(self).current_time_ms >= old(self).duration_ms {
                old(self).duration_ms
            } else {
                old(self).current_time_ms
            }),
            final(self).is_playing == (old(self).is_playing && !exhausted && !(old(self).duration_ms
                > 0 && old(self).current_time_ms >= old(self).duration_ms)),
            final(self).is_loaded == old(self).is_loaded,
            final(self).duration_ms == old(self).duration_ms,
            same_source(*old(self), *final(self)),
    {
        if self.duration_ms > 0 && self.current_time_ms >= self.duration_ms {
            self.current_time_ms = self.duration_ms;
            self.is_playing = false;
        }
        if exhausted {
            self.is_playing = false;
        }
    }

    /// The current time and the duration as reported, saturated to `u32`.
    pub fn reported_times(&self) -> (r: (u32, u32))
        ensures
            r.0 == reported_ms(self.current_time_ms),
            r.1 == reported_ms(self.duration_ms),
    {
        (clamp_ms(self.current_time_ms), clamp_ms(self.duration_ms))
    }
}

} // verus!
