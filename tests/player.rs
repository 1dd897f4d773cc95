use video_controls::catalog::{
    sort_catalog, stream_url, AvailableMovies, PastDayMovies, TodayMovie,
};
use video_controls::geometry::FRACTION_SCALE;
use video_controls::player::{key_event, video_height_percent, Deferred, Effect, Event, Player};
use video_controls::zoom::Cursor;

fn past(ts: u64, name: &str) -> PastDayMovies {
    PastDayMovies {
        formatted_date: format!("day {}", ts),
        timestamp: ts,
        filename: name.to_string(),
    }
}

fn today(hour: u32, path: &str) -> TodayMovie {
    TodayMovie {
        hour,
        filepath: path.to_string(),
        formatted_date: format!("{}h", hour),
    }
}

fn catalog() -> AvailableMovies {
    AvailableMovies {
        past_day_movies: vec![past(300, "c.mp4"), past(100, "a.mp4"), past(200, "b.mp4")],
        today_movies: vec![today(14, "t14.mp4"), today(9, "t9.mp4"), today(20, "t20.mp4")],
    }
}

#[test]
fn catalog_lists_are_sorted_on_arrival() {
    let mut p = Player::new(0);
    let fx = p.update(Event::MoviesDataFetched(Some(catalog())));
    assert_eq!(fx, vec![Effect::AfterRender(Deferred::ScrollMoviesView)]);
    let m = p.movies.as_ref().unwrap();
    let ts: Vec<u64> = m.past_day_movies.iter().map(|x| x.timestamp).collect();
    assert_eq!(ts, vec![100, 200, 300]);
    let hours: Vec<u32> = m.today_movies.iter().map(|x| x.hour).collect();
    assert_eq!(hours, vec![9, 14, 20]);
    assert_eq!(m.past_day_movies[0].filename, "a.mp4");
}

#[test]
fn sort_keeps_equal_keys_in_order() {
    let m = AvailableMovies {
        past_day_movies: vec![past(5, "x"), past(1, "y"), past(5, "z"), past(1, "w")],
        today_movies: vec![],
    };
    let s = sort_catalog(m);
    let names: Vec<&str> = s.past_day_movies.iter().map(|x| x.filename.as_str()).collect();
    assert_eq!(names, vec!["y", "w", "x", "z"]);
    assert!(s.today_movies.is_empty());
}

#[test]
fn failed_fetch_leaves_catalog_empty() {
    let mut p = Player::new(0);
    let fx = p.update(Event::MoviesDataFetched(None));
    assert!(fx.is_empty());
    assert!(p.movies.is_none());
    assert_eq!(p.update(Event::FetchMoviesData), vec![Effect::FetchCatalog]);
    assert_eq!(p.update(Event::ScrollMoviesView), vec![Effect::ScrollSelectorToEnd]);
}

#[test]
fn stream_addresses() {
    assert_eq!(stream_url("http://host/stream", "a.mp4"), "http://host/stream/a.mp4");
    let mut p = Player::new(0);
    p.update(Event::MoviesDataFetched(Some(catalog())));
    let m = p.movies.as_ref().unwrap();
    assert_eq!(m.past_source(2, "s"), "s/c.mp4");
    assert_eq!(m.today_source(0, "s"), "s/t9.mp4");
}

#[test]
fn fullscreen_request_targets_container() {
    let mut p = Player::new(0);
    let fx = p.update(Event::Fullscreen { platform_fullscreen: false });
    assert_eq!(fx, vec![Effect::RequestContainerFullscreen]);
    let fx = p.update(Event::Fullscreen { platform_fullscreen: true });
    assert_eq!(fx, vec![Effect::ExitFullscreen]);
    assert_eq!(p.update(Event::FullscreenChanged), vec![Effect::Render]);
    assert_eq!(video_height_percent(true), 100);
    assert_eq!(video_height_percent(false), 90);
}

#[test]
fn selecting_clip_resets_position_before_play() {
    let mut p = Player::new(0);
    p.update(Event::SeekTo { pointer_x: 150, bar_left: 100, bar_width: 100, duration_ms: Some(4_000) });
    assert_eq!(p.playback.fraction, 500_000);
    let fx = p.update(Event::ChangeSrc("s/a.mp4".to_string()));
    assert_eq!(fx, vec![Effect::AfterRender(Deferred::ReloadLoadPlayer)]);
    assert_eq!(p.video_src.as_deref(), Some("s/a.mp4"));
    let fx = p.update(Event::ReloadLoadPlayer);
    assert_eq!(p.playback.fraction, 0);
    assert_eq!(fx, vec![Effect::LoadMedia, Effect::AfterRender(Deferred::Play)]);
    let fx = p.update(Event::Play);
    assert_eq!(fx, vec![Effect::PlayMedia]);
    assert!(p.playback.playing);
    assert_eq!(p.playback.fraction, 0);
}

#[test]
fn play_pause_toggle() {
    let mut p = Player::new(0);
    assert_eq!(p.update(Event::TogglePlayPause), vec![Effect::PlayMedia]);
    assert!(p.playback.playing);
    assert_eq!(p.update(Event::TogglePlayPause), vec![Effect::PauseMedia]);
    assert!(!p.playback.playing);
    assert_eq!(p.update(Event::Play), vec![Effect::PlayMedia]);
    assert_eq!(p.update(Event::Pause), vec![Effect::PauseMedia]);
    assert!(!p.playback.playing);
    assert!(p.update(Event::Nothing).is_empty());
}

#[test]
fn seek_events_yield_media_seeks() {
    let mut p = Player::new(0);
    let fx = p.update(Event::SeekTo { pointer_x: 130, bar_left: 100, bar_width: 200, duration_ms: Some(60_000) });
    assert_eq!(fx, vec![Effect::SeekMedia(9_000)]);
    assert_eq!(p.playback.fraction, 150_000);
    let fx = p.update(Event::SeekTo { pointer_x: 130, bar_left: 100, bar_width: 200, duration_ms: None });
    assert!(fx.is_empty());
    let fx = p.update(Event::AddTime { current_ms: 9_000, delta_ms: -30_000, duration_ms: Some(60_000) });
    assert_eq!(fx, vec![Effect::SeekMedia(0)]);
    let fx = p.update(Event::ZoomSeek { local_x: 12_500, duration_ms: Some(90_000) });
    assert_eq!(fx, vec![Effect::SeekMedia(0)]);
    let fx = p.update(Event::ZoomSeek { local_x: 87_500, duration_ms: Some(90_000) });
    assert_eq!(fx, vec![Effect::SeekMedia(84_999)]);
    assert!(p.update(Event::TimeUpdate { current_ms: 45_000, total_ms: 90_000 }).is_empty());
    assert_eq!(p.playback.fraction, FRACTION_SCALE / 2);
}

#[test]
fn cursor_events_drive_zoom_window() {
    let mut p = Player::new(0);
    assert!(p.update(Event::GrabCursor(Cursor::Left)).is_empty());
    p.update(Event::CursorMove { local_x: 50_000 });
    p.update(Event::PointerLeave);
    p.update(Event::CursorMove { local_x: 60_000 });
    assert_eq!(p.zoom.window.left, 50_000);
    assert_eq!(p.zoom.window.right, 90_000);
    p.update(Event::GrabCursor(Cursor::Right));
    p.update(Event::CursorMove { local_x: 80_000 });
    p.update(Event::PointerUp);
    assert_eq!(p.zoom.window.right, 80_000);
}

#[test]
fn wake_and_sleep_events() {
    let mut p = Player::new(0);
    assert_eq!(p.controls.opacity(), 0);
    assert_eq!(p.update(Event::WakeControls { now_ms: 0 }), vec![Effect::StartSleepTimer(1_500)]);
    p.update(Event::WakeControls { now_ms: 1_000 });
    assert!(p.update(Event::SleepControls { now_ms: 1_500 }).is_empty());
    assert_eq!(p.controls.opacity(), 1);
    p.update(Event::SleepControls { now_ms: 2_500 });
    assert_eq!(p.controls.opacity(), 0);
}

#[test]
fn space_toggles_and_other_keys_do_nothing() {
    assert!(matches!(key_event(&" ".to_string()), Event::TogglePlayPause));
    assert!(matches!(key_event(&"a".to_string()), Event::Nothing));
    assert!(matches!(key_event(&"  ".to_string()), Event::Nothing));
    assert!(matches!(key_event(&"".to_string()), Event::Nothing));
}
