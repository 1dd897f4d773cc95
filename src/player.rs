//! The player as a state machine: each event from the page (pointer input,
//! timers, media and fullscreen notices, the catalog fetch) moves the state
//! and yields the effects that the page is to carry out, in order.

use vstd::prelude::*;
use vstd::string::StringExecFns;
use crate::catalog::{AvailableMovies, sort_catalog, stably_sorted_from};
use crate::controls::{ControlsVisibility, SLEEP_DELAY_MS};
use crate::geometry::{pointer_fraction, span_fraction};
use crate::scrub::{PlaybackState, clamp_time, fraction_of_time, nudge_target};
use crate::zoom::{Cursor, ZoomTimeline, zoom_target};

verus! {

/// Work that waits until the page has been drawn again.
#[derive(Clone, Copy, Debug, PartialEq, Eq, Structural)]
pub enum Deferred {
    ScrollMoviesView,
    ReloadLoadPlayer,
    Play,
}

/// What the page is to do on the player's behalf.
#[derive(Clone, Copy, Debug, PartialEq, Eq, Structural)]
pub enum Effect {
    /// Ask for fullscreen on the player's container (not on the media
    /// element, so that the overlay controls stay visible).
    RequestContainerFullscreen,
    ExitFullscreen,
    Render,
    PlayMedia,
    PauseMedia,
    /// Seek the media element to this time, in milliseconds.
    SeekMedia(u64),
    /// Run a `SleepControls` check after this many milliseconds.
    StartSleepTimer(u64),
    FetchCatalog,
    /// Reload the media element from its current source.
    LoadMedia,
    /// Scroll the clip selector to its trailing edge.
    ScrollSelectorToEnd,
    /// Deliver this event once the page has been drawn again.
    AfterRender(Deferred),
}

/// What happened on the page, with the facts that the page measured.
#[derive(Clone, Debug)]
pub enum Event {
    /// The fullscreen button; the flag is whether the platform reports an
    /// element in fullscreen right now.
    Fullscreen { platform_fullscreen: bool },
    /// The platform's notice that fullscreen was entered or left.
    FullscreenChanged,
    TogglePlayPause,
    Play,
    Pause,
    /// A press on the primary timeline, whose box starts at `bar_left` and is
    /// `bar_width` wide; `duration_ms` is the media's duration if known.
    SeekTo { pointer_x: i32, bar_left: i32, bar_width: i32, duration_ms: Option<u64> },
    /// A press on the zoom scrubber at local surface position `local_x`.
    ZoomSeek { local_x: i32, duration_ms: Option<u64> },
    /// A press on one of the zoom cursors.
    GrabCursor(Cursor),
    /// The pointer moved to local surface position `local_x`.
    CursorMove { local_x: i32 },
    PointerUp,
    /// The pointer left the zoom timeline's tracking surface.
    PointerLeave,
    /// A nudge by `delta_ms` from the media's time `current_ms`.
    AddTime { current_ms: u64, delta_ms: i64, duration_ms: Option<u64> },
    /// The media reported its time and its duration, both in milliseconds.
    TimeUpdate { current_ms: u64, total_ms: u64 },
    WakeControls { now_ms: u64 },
    SleepControls { now_ms: u64 },
    /// The catalog fetch finished: the clips, or `None` if it failed.
    MoviesDataFetched(Option<AvailableMovies>),
    FetchMoviesData,
    /// A clip was chosen; the string is its stream address.
    ChangeSrc(String),
    ReloadLoadPlayer,
    ScrollMoviesView,
    /// A key other than the play/pause key.
    Nothing,
}

impl Event {
    /// The measured facts are usable: a timeline that is pressed has been
    /// laid out with a positive width.
    pub open spec fn valid(self) -> bool {
        match self {
            Event::SeekTo { bar_width, .. } => bar_width > 0,
            _ => true,
        }
    }
}

/// The effects of a seek that went to `target`, if anywhere.
pub open spec fn seek_effects(target: Option<int>) -> Seq<Effect> {
    match target {
        Some(t) => seq![Effect::SeekMedia(t as u64)],
        None => seq![],
    }
}

/// Everything the player holds.
#[derive(Clone, Debug)]
pub struct Player {
    pub playback: PlaybackState,
    pub zoom: ZoomTimeline,
    pub controls: ControlsVisibility,
    pub movies: Option<AvailableMovies>,
    pub video_src: Option<String>,
}

impl Player {
    pub open spec fn wf(self) -> bool {
        self.playback.wf() && self.zoom.wf()
    }

    /// This player with another playback state.
    pub open spec fn with_playback(self, p: PlaybackState) -> Player {
        Player { playback: p, ..self }
    }

    /// This player with another zoom timeline.
    pub open spec fn with_zoom(self, z: ZoomTimeline) -> Player {
        Player { zoom: z, ..self }
    }

    /// This player with other controls.
    pub open spec fn with_controls(self, c: ControlsVisibility) -> Player {
        Player { controls: c, ..self }
    }

    /// This player after seeking to fraction `f`, with the effects of it.
    pub open spec fn seeks(self, f: int, duration: Option<u64>, next: Player, effects: Seq<
        Effect,
    >) -> bool {
        let p = self.playback.after_seek(f, duration);
        &&& next == self.with_playback(p)
        &&& effects == seek_effects(p.current_time())
    }

    /// `next` and `effects` are what event `ev` leads to from this state.
    pub open spec fn transition(self, ev: Event, next: Player, effects: Seq<Effect>) -> bool {
        match ev {
            Event::Fullscreen { platform_fullscreen } => {
                &&& next == self
                &&& effects == if platform_fullscreen {
                    seq![Effect::ExitFullscreen]
                } else {
                    seq![Effect::RequestContainerFullscreen]
                }
            },
            Event::FullscreenChanged => next == self && effects == seq![Effect::Render],
            Event::Play => {
                &&& next == self.with_playback(PlaybackState { playing: true, ..self.playback })
                &&& effects == seq![Effect::PlayMedia]
            },
            Event::Pause => {
                &&& next == self.with_playback(PlaybackState { playing: false, ..self.playback })
                &&& effects == seq![Effect::PauseMedia]
            },
            Event::TogglePlayPause => {
                &&& next == self.with_playback(
                    PlaybackState { playing: !self.playback.playing, ..self.playback },
                )
                &&& effects == if self.playback.playing {
                    seq![Effect::PauseMedia]
                } else {
                    seq![Effect::PlayMedia]
                }
            },
            Event::SeekTo { pointer_x, bar_left, bar_width, duration_ms } => self.seeks(
                span_fraction(pointer_x as int, bar_left as int, bar_width as int),
                duration_ms,
                next,
                effects,
            ),
            Event::ZoomSeek { local_x, duration_ms } => self.seeks(
                zoom_target(
                    self.zoom.window.left as int,
                    self.zoom.window.right as int,
                    local_x as int,
                ),
                duration_ms,
                next,
                effects,
            ),
            Event::GrabCursor(c) => next == self.with_zoom(self.zoom.after_grab(c)) && effects
                == Seq::<Effect>::empty(),
            Event::CursorMove { local_x } => next == self.with_zoom(
                self.zoom.after_move(local_x as int),
            ) && effects == Seq::<Effect>::empty(),
            Event::PointerUp | Event::PointerLeave => next == self.with_zoom(
                self.zoom.after_release(),
            ) && effects == Seq::<Effect>::empty(),
            Event::AddTime { current_ms, delta_ms, duration_ms } => {
                &&& next == self
                &&& effects == seq![
                    Effect::SeekMedia(clamp_time(current_ms + delta_ms, duration_ms) as u64),
                ]
            },
            Event::TimeUpdate { current_ms, total_ms } => {
                &&& effects == Seq::<Effect>::empty()
                &&& if total_ms == 0 {
                    next == self
                } else {
                    next == self.with_playback(
                        PlaybackState {
                            fraction: fraction_of_time(
                                current_ms as int,
                                total_ms as int,
                            ) as i64,
                            duration_ms: Some(total_ms),
                            ..self.playback
                        },
                    )
                }
            },
            Event::WakeControls { now_ms } => {
                &&& next == self.with_controls(self.controls.after_wake(now_ms as int))
                &&& effects == seq![Effect::StartSleepTimer(SLEEP_DELAY_MS)]
            },
            Event::SleepControls { now_ms } => {
                &&& next == self.with_controls(self.controls.after_check(now_ms as int))
                &&& effects == Seq::<Effect>::empty()
            },
            Event::MoviesDataFetched(fetched) => match fetched {
                Some(m) => {
                    &&& next.playback == self.playback
                    &&& next.zoom == self.zoom
                    &&& next.controls == self.controls
                    &&& next.video_src == self.video_src
                    &&& next.movies matches Some(c) && stably_sorted_from(
                        c.past_day_movies@,
                        m.past_day_movies@,
                    ) && stably_sorted_from(c.today_movies@, m.today_movies@)
                    &&& effects == seq![Effect::AfterRender(Deferred::ScrollMoviesView)]
                },
                None => next == self && effects == Seq::<Effect>::empty(),
            },
            Event::FetchMoviesData => next == self && effects == seq![Effect::FetchCatalog],
            Event::ChangeSrc(src) => {
                &&& next == Player { video_src: Some(src), ..self }
                &&& effects == seq![Effect::AfterRender(Deferred::ReloadLoadPlayer)]
            },
            Event::ReloadLoadPlayer => {
                &&& next == self.with_playback(PlaybackState { fraction: 0, ..self.playback })
                &&& effects == seq![Effect::LoadMedia, Effect::AfterRender(Deferred::Play)]
            },
            Event::ScrollMoviesView => next == self && effects == seq![
                Effect::ScrollSelectorToEnd,
            ],
            Event::Nothing => next == self && effects == Seq::<Effect>::empty(),
        }
    }
}

impl Player {
    /// A fresh player at time `now_ms`: paused at the start, cursors at their
    /// starting positions, controls hidden, no catalog and no source.
    pub fn new(now_ms: u64) -> (r: Player)
        ensures
            r.wf(),
            r.playback == PlaybackState::initial(),
            r.zoom.window.left == crate::zoom::DEFAULT_LEFT,
            r.zoom.window.right == crate::zoom::DEFAULT_RIGHT,
            r.zoom.drag == crate::zoom::DragState::Idle,
            r.controls == (ControlsVisibility { visible: false, last_wake_ms: now_ms }),
            r.movies is None,
            r.video_src is None,
    {
        Player {
            playback: PlaybackState::new(),
            zoom: ZoomTimeline::new(),
            controls: ControlsVisibility::new(now_ms),
            movies: None,
            video_src: None,
        }
    }

    /// Handles one event: updates the state and returns the effects for the
    /// page to carry out, in order.
    pub fn update(&mut self, ev: Event) -> (r: Vec<Effect>)
        requires
            old(self).wf(),
            ev.valid(),
        ensures
            final(self).wf(),
            old(self).transition(ev, *final(self), r@),
    {
        let mut effects: Vec<Effect> = Vec::new();
        match ev {
            Event::Fullscreen { platform_fullscreen } => {
                if platform_fullscreen {
                    effects.push(Effect::ExitFullscreen);
                    assert(effects@ =~= seq![Effect::ExitFullscreen]);
                } else {
                    effects.push(Effect::RequestContainerFullscreen);
                    assert(effects@ =~= seq![Effect::RequestContainerFullscreen]);
                }
            },
            Event::FullscreenChanged => {
                effects.push(Effect::Render);
                assert(effects@ =~= seq![Effect::Render]);
            },
            Event::Play => {
                self.playback.playing = true;
                effects.push(Effect::PlayMedia);
                assert(effects@ =~= seq![Effect::PlayMedia]);
            },
            Event::Pause => {
                self.playback.playing = false;
                effects.push(Effect::PauseMedia);
                assert(effects@ =~= seq![Effect::PauseMedia]);
            },
            Event::TogglePlayPause => {
                if self.playback.playing {
                    effects.push(Effect::PauseMedia);
                    assert(effects@ =~= seq![Effect::PauseMedia]);
                } else {
                    effects.push(Effect::PlayMedia);
                    assert(effects@ =~= seq![Effect::PlayMedia]);
                }
                self.playback.playing = !self.playback.playing;
            },
            Event::SeekTo { pointer_x, bar_left, bar_width, duration_ms } => {
                let f = pointer_fraction(pointer_x, bar_left, bar_width);
                if let Some(t) = self.playback.seek_to(f, duration_ms) {
                    effects.push(Effect::SeekMedia(t));
                    assert(effects@ =~= seq![Effect::SeekMedia(t)]);
                }
            },
            Event::ZoomSeek { local_x, duration_ms } => {
                let f = self.zoom.zoom_seek_fraction(local_x);
                if let Some(t) = self.playback.seek_to(f, duration_ms) {
                    effects.push(Effect::SeekMedia(t));
                    assert(effects@ =~= seq![Effect::SeekMedia(t)]);
                }
            },
            Event::GrabCursor(c) => {
                self.zoom.grab(c);
            },
            Event::CursorMove { local_x } => {
                self.zoom.pointer_move(local_x);
            },
            Event::PointerUp => {
                self.zoom.pointer_up();
            },
            Event::PointerLeave => {
                self.zoom.pointer_leave();
            },
            Event::AddTime { current_ms, delta_ms, duration_ms } => {
                let t = nudge_target(current_ms, delta_ms, duration_ms);
                effects.push(Effect::SeekMedia(t));
                assert(effects@ =~= seq![Effect::SeekMedia(t)]);
            },
            Event::TimeUpdate { current_ms, total_ms } => {
                self.playback.sync_time(current_ms, total_ms);
            },
            Event::WakeControls { now_ms } => {
                let delay = self.controls.wake(now_ms);
                effects.push(Effect::StartSleepTimer(delay));
                assert(effects@ =~= seq![Effect::StartSleepTimer(delay)]);
            },
            Event::SleepControls { now_ms } => {
                self.controls.sleep_check(now_ms);
            },
            Event::MoviesDataFetched(fetched) => {
                if let Some(m) = fetched {
                    self.movies = Some(sort_catalog(m));
                    effects.push(Effect::AfterRender(Deferred::ScrollMoviesView));
                    assert(effects@ =~= seq![Effect::AfterRender(Deferred::ScrollMoviesView)]);
                }
            },
            Event::FetchMoviesData => {
                effects.push(Effect::FetchCatalog);
                assert(effects@ =~= seq![Effect::FetchCatalog]);
            },
            Event::ChangeSrc(src) => {
                self.video_src = Some(src);
                effects.push(Effect::AfterRender(Deferred::ReloadLoadPlayer));
                assert(effects@ =~= seq![Effect::AfterRender(Deferred::ReloadLoadPlayer)]);
            },
            Event::ReloadLoadPlayer => {
                self.playback.fraction = 0;
                effects.push(Effect::LoadMedia);
                effects.push(Effect::AfterRender(Deferred::Play));
                assert(effects@ =~= seq![Effect::LoadMedia, Effect::AfterRender(Deferred::Play)]);
            },
            Event::ScrollMoviesView => {
                effects.push(Effect::ScrollSelectorToEnd);
                assert(effects@ =~= seq![Effect::ScrollSelectorToEnd]);
            },
            Event::Nothing => {},
        }
        effects
    }
}

/// The event for a key pressed anywhere on the page: the space bar toggles
/// play and pause, and every other key does nothing.
pub fn key_event(key: &String) -> (r: Event)
    ensures
        key@ == seq![' '] ==> r is TogglePlayPause,
        key@ != seq![' '] ==> r is Nothing,
{
    proof {
        reveal_strlit(" ");
    }
    let space = String::from_str(" ");
    assert(space@ =~= seq![' ']);
    if key.eq(&space) {
        Event::TogglePlayPause
    } else {
        Event::Nothing
    }
}

/// Height of the media element, in percent of the player: all of it in
/// fullscreen, as the platform reports it, and nine tenths otherwise.
pub fn video_height_percent(platform_fullscreen: bool) -> (r: u32)
    ensures
        r == (if platform_fullscreen { 100u32 } else { 90u32 }),
{
    if platform_fullscreen {
        100
    } else {
        90
    }
}

/// The fullscreen button flips no state of the player: when the platform
/// reports no fullscreen it asks for fullscreen on the player's container,
/// otherwise it asks to leave; the platform's notice of the change only
/// redraws. So nothing that depends on fullscreen is read from the player.
pub proof fn lemma_fullscreen_follows_platform(
    p: Player,
    f: bool,
    next: Player,
    effects: Seq<Effect>,
    after_notice: Player,
    notice_effects: Seq<Effect>,
)
    requires
        p.transition(Event::Fullscreen { platform_fullscreen: f }, next, effects),
        next.transition(Event::FullscreenChanged, after_notice, notice_effects),
    ensures
        next == p,
        !f ==> effects == seq![Effect::RequestContainerFullscreen],
        f ==> effects == seq![Effect::ExitFullscreen],
        after_notice == p,
        notice_effects == seq![Effect::Render],
{
}

/// Choosing a clip puts the position back at the start before the new
/// source plays: the choice records the source and only defers a reload; the
/// reload resets the position and loads before it defers playing; and the
/// play that follows starts from position 0 on the new source.
pub proof fn lemma_select_resets_before_play(
    p: Player,
    src: String,
    chosen: Player,
    chosen_effects: Seq<Effect>,
    reloaded: Player,
    reload_effects: Seq<Effect>,
    started: Player,
    start_effects: Seq<Effect>,
)
    requires
        p.transition(Event::ChangeSrc(src), chosen, chosen_effects),
        chosen.transition(Event::ReloadLoadPlayer, reloaded, reload_effects),
        reloaded.transition(Event::Play, started, start_effects),
    ensures
        chosen.video_src == Some(src),
        chosen_effects == seq![Effect::AfterRender(Deferred::ReloadLoadPlayer)],
        reloaded.playback.fraction == 0,
        reload_effects == seq![Effect::LoadMedia, Effect::AfterRender(Deferred::Play)],
        started.playback.fraction == 0,
        started.playback.playing,
        started.video_src == Some(src),
        start_effects == seq![Effect::PlayMedia],
{
}

} // verus!
