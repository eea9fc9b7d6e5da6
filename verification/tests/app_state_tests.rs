use mado::app_state::{settings_reverted, settings_saved, AppState, Command, Mode, ServicePlan};
use mado::camera::CameraInfo;
use mado::playlist::LoopMode;

fn cams() -> Vec<CameraInfo> {
    vec![
        CameraInfo { index: 0, name: "FaceTime".to_string(), unique_id: "UID0".to_string() },
        CameraInfo { index: 1, name: "USB".to_string(), unique_id: String::new() },
    ]
}

fn s(v: &[&str]) -> Vec<String> {
    v.iter().map(|x| x.to_string()).collect()
}

#[test]
fn starts_in_camera_mode_on_first_camera() {
    let mut st = AppState::new(cams());
    assert_eq!(st.mode, Mode::Camera);
    assert_eq!(st.selected_unique_id, "UID0");
    match st.plan_service() {
        ServicePlan::Camera { unique_id, index } => {
            assert_eq!(unique_id, "UID0");
            assert_eq!(index, 0);
        }
        ServicePlan::Video { .. } => panic!("expected camera"),
    }
    let mut none = AppState::new(vec![]);
    assert_eq!(none.selected_unique_id, "");
    match none.plan_service() {
        ServicePlan::Camera { unique_id, index } => {
            assert_eq!(unique_id, "");
            assert_eq!(index, 0);
        }
        ServicePlan::Video { .. } => panic!("expected camera"),
    }
}

#[test]
fn dropping_onto_empty_list_switches_to_video() {
    let mut st = AppState::new(cams());
    assert_eq!(st.videos_dropped(s(&["a.mp4", "b.mp4"])), Command::Restart);
    assert_eq!(st.mode, Mode::Video);
    assert_eq!(st.playlist.current, 0);
    match st.plan_service() {
        ServicePlan::Video { path } => assert_eq!(path, "a.mp4"),
        ServicePlan::Camera { .. } => panic!("expected video"),
    }
    // a second drop appends without restarting
    assert_eq!(st.videos_dropped(s(&["c.mp4"])), Command::Keep);
    assert_eq!(st.playlist.len(), 3);
    assert_eq!(st.videos_dropped(vec![]), Command::Keep);
}

#[test]
fn dropping_onto_nonempty_list_in_camera_mode_stays() {
    let mut st = AppState::new(cams());
    st.videos_dropped(s(&["a.mp4"]));
    assert_eq!(st.switch_to_camera(), Command::Restart);
    assert_eq!(st.switch_to_camera(), Command::Keep);
    assert_eq!(st.videos_dropped(s(&["b.mp4"])), Command::Keep);
    assert_eq!(st.mode, Mode::Camera);
    assert_eq!(st.switch_to_video(), Command::Restart);
    assert_eq!(st.mode, Mode::Video);
}

#[test]
fn video_button_needs_clips() {
    let mut st = AppState::new(cams());
    assert_eq!(st.switch_to_video(), Command::Keep);
    assert_eq!(st.mode, Mode::Camera);
}

#[test]
fn flips_are_per_source() {
    let mut st = AppState::new(cams());
    st.toggle_flip_h();
    assert_eq!(st.effective_flip(), (true, false));
    st.videos_dropped(s(&["a.mp4", "b.mp4"]));
    assert_eq!(st.effective_flip(), (false, false));
    st.toggle_flip_v();
    assert_eq!(st.effective_flip(), (false, true));
    assert!(st.playlist.items[0].flip_v);
    assert!(!st.playlist.items[1].flip_v);
    assert!(st.camera_flip_h && !st.camera_flip_v);
    st.toggle_item_flip_h(1);
    assert!(st.playlist.items[1].flip_h);
    st.toggle_item_flip_v(7);
    st.toggle_flip_v();
    assert_eq!(st.effective_flip(), (false, false));
}

#[test]
fn keys_only_in_video_mode() {
    let mut st = AppState::new(cams());
    assert_eq!(st.handle_keys(true, true), (None, Command::Keep));
    assert!(!st.paused);
    st.videos_dropped(s(&["a.mp4"]));
    assert_eq!(st.handle_keys(true, false), (Some(true), Command::Keep));
    assert!(st.paused);
    assert_eq!(st.handle_keys(true, true), (Some(false), Command::Restart));
    st.handle_keys(true, false);
    st.plan_service();
    assert!(!st.paused);
}

#[test]
fn end_of_clip_follows_loop_mode() {
    let mut st = AppState::new(cams());
    st.videos_dropped(s(&["a.mp4", "b.mp4"]));
    assert_eq!(st.video_ended(false), Command::Keep);
    assert_eq!(st.video_ended(true), Command::Restart);
    assert_eq!(st.playlist.current, 1);
    assert_eq!(st.video_ended(true), Command::Stop);
    st.playlist.loop_mode = LoopMode::All;
    assert_eq!(st.video_ended(true), Command::Restart);
    assert_eq!(st.playlist.current, 0);
    st.switch_to_camera();
    assert_eq!(st.video_ended(true), Command::Keep);
}

#[test]
fn panel_actions() {
    let mut st = AppState::new(cams());
    st.videos_dropped(s(&["a.mp4", "b.mp4", "c.mp4"]));
    st.show_playlist = true;
    assert_eq!(st.play_item(2), Command::Restart);
    assert_eq!(st.playlist.current, 2);
    assert_eq!(st.play_item(9), Command::Keep);
    assert_eq!(st.remove_item(0), Command::Keep);
    assert_eq!(st.playlist.current, 1);
    assert_eq!(st.remove_item(1), Command::Restart);
    assert_eq!(st.remove_item(0), Command::Restart);
    assert!(st.playlist.is_empty());
    assert!(!st.show_playlist);
    assert_eq!(st.mode, Mode::Camera);
}

#[test]
fn clear_all_leaves_video() {
    let mut st = AppState::new(cams());
    st.videos_dropped(s(&["a.mp4"]));
    st.show_playlist = true;
    assert_eq!(st.clear_playlist(), Command::Restart);
    assert_eq!(st.mode, Mode::Camera);
    assert!(!st.show_playlist);
    assert_eq!(st.clear_playlist(), Command::Keep);
}

#[test]
fn video_without_clip_falls_back_to_camera() {
    let mut st = AppState::new(cams());
    st.mode = Mode::Video;
    st.selected_idx = 1;
    match st.plan_service() {
        ServicePlan::Camera { unique_id, index } => {
            assert_eq!(unique_id, "");
            assert_eq!(index, 1);
        }
        ServicePlan::Video { .. } => panic!("expected camera"),
    }
    assert_eq!(st.mode, Mode::Camera);
}

#[test]
fn camera_selection() {
    let mut st = AppState::new(cams());
    assert_eq!(st.select_camera(0), Command::Keep);
    assert_eq!(st.select_camera(1), Command::Restart);
    st.plan_service();
    assert_eq!(st.selected_unique_id, "");
}

#[test]
fn settings_save_outcome() {
    assert_eq!(settings_saved(Ok(()), Mode::Video), ("Saved".to_string(), true));
    assert_eq!(settings_saved(Ok(()), Mode::Camera), ("Saved".to_string(), false));
    assert_eq!(
        settings_saved(Err("mkdir: denied".to_string()), Mode::Video),
        ("Error: mkdir: denied".to_string(), false)
    );
    assert_eq!(settings_reverted(), "Reverted");
}
