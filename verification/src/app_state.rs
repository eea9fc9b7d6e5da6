//! The decisions of the player window: camera or video mode, the flips, pause,
//! what happens when files are dropped, when a clip ends and when the playlist
//! panel is used. The window runs the returned commands (restart or stop the
//! running source).

use vstd::prelude::*;
use vstd::string::StringExecFns;
use crate::camera::CameraInfo;
use crate::playlist::{LoopMode, Playlist, PlaylistItem, PlaylistModel};

verus! {

/// The source shown in the window.
#[derive(Debug, Clone, Copy, PartialEq, Eq, Structural)]
pub enum Mode {
    Camera,
    Video,
}

/// What the window has to do with the running source after an event.
#[derive(Debug, Clone, Copy, PartialEq, Eq, Structural)]
pub enum Command {
    /// Keep the running source.
    Keep,
    /// Stop the running source and start the one `plan_service` names.
    Restart,
    /// Stop the running source and start none (the last frame stays up).
    Stop,
}

/// The source to start.
pub enum ServicePlan {
    /// Start the camera service on this camera (by unique id when it has one,
    /// else by index).
    Camera { unique_id: String, index: u32 },
    /// Open this video file.
    Video { path: String },
}

/// The state of the window that its decisions read and write.
pub struct AppState {
    pub cameras: Vec<CameraInfo>,
    pub selected_idx: usize,
    pub selected_unique_id: String,
    /// The flips of the camera image (each clip has its own).
    pub camera_flip_h: bool,
    pub camera_flip_v: bool,
    pub mode: Mode,
    pub playlist: Playlist,
    pub show_playlist: bool,
    pub paused: bool,
}

/// The window state as the contracts see it.
#[verifier::ext_equal]
pub struct AppModel {
    pub cameras: Seq<CameraInfo>,
    pub selected_idx: int,
    pub selected_unique_id: Seq<char>,
    pub camera_flip_h: bool,
    pub camera_flip_v: bool,
    pub mode: Mode,
    pub playlist: PlaylistModel,
    pub show_playlist: bool,
    pub paused: bool,
}

impl View for AppState {
    type V = AppModel;

    open spec fn view(&self) -> AppModel {
        AppModel {
            cameras: self.cameras@,
            selected_idx: self.selected_idx as int,
            selected_unique_id: self.selected_unique_id@,
            camera_flip_h: self.camera_flip_h,
            camera_flip_v: self.camera_flip_v,
            mode: self.mode,
            playlist: self.playlist@,
            show_playlist: self.show_playlist,
            paused: self.paused,
        }
    }
}

impl AppModel {
    pub open spec fn with_mode(self, m: Mode) -> AppModel {
        AppModel { mode: m, ..self }
    }

    pub open spec fn with_playlist(self, pl: PlaylistModel) -> AppModel {
        AppModel { playlist: pl, ..self }
    }

    pub open spec fn switched_to_camera(self) -> AppModel {
        self.with_mode(Mode::Camera)
    }

    pub open spec fn switch_to_camera_command(self) -> Command {
        if self.mode != Mode::Camera {
            Command::Restart
        } else {
            Command::Keep
        }
    }

    pub open spec fn switched_to_video(self) -> AppModel {
        if self.mode != Mode::Video && self.playlist.items.len() > 0 {
            self.with_mode(Mode::Video)
        } else {
            self
        }
    }

    pub open spec fn switch_to_video_command(self) -> Command {
        if self.mode != Mode::Video && self.playlist.items.len() > 0 {
            Command::Restart
        } else {
            Command::Keep
        }
    }

    /// Space toggles pause, in video mode only.
    pub open spec fn after_keys(self, space: bool) -> AppModel {
        if self.mode == Mode::Video && space {
            AppModel { paused: !self.paused, ..self }
        } else {
            self
        }
    }

    pub open spec fn key_pause_change(self, space: bool) -> Option<bool> {
        if self.mode == Mode::Video && space {
            Some(!self.paused)
        } else {
            None
        }
    }

    pub open spec fn key_command(self, left: bool) -> Command {
        if self.mode == Mode::Video && left {
            Command::Restart
        } else {
            Command::Keep
        }
    }

    /// The end of a clip advances the playlist, in video mode only.
    pub open spec fn after_eof(self, is_eof: bool) -> AppModel {
        if self.mode == Mode::Video && is_eof {
            self.with_playlist(self.playlist.advanced())
        } else {
            self
        }
    }

    pub open spec fn eof_command(self, is_eof: bool) -> Command {
        if self.mode == Mode::Video && is_eof {
            if self.playlist.next_index() is Some {
                Command::Restart
            } else {
                Command::Stop
            }
        } else {
            Command::Keep
        }
    }

    pub open spec fn after_select_camera(self, idx: int) -> AppModel {
        AppModel { selected_idx: idx, ..self }
    }

    pub open spec fn after_clear(self) -> AppModel {
        AppModel { playlist: self.playlist.cleared(), show_playlist: false, mode: Mode::Camera, ..self }
    }

    pub open spec fn after_play(self, idx: int) -> AppModel {
        if 0 <= idx < self.playlist.items.len() {
            AppModel { playlist: self.playlist.selected(idx), mode: Mode::Video, ..self }
        } else {
            self
        }
    }

    /// Removing a clip; an emptied list also hides the panel and leaves video mode.
    pub open spec fn after_remove(self, idx: int) -> AppModel {
        let pl = self.playlist.removed(idx);
        if pl.items.len() == 0 {
            AppModel { playlist: pl, show_playlist: false, mode: Mode::Camera, ..self }
        } else {
            self.with_playlist(pl)
        }
    }

    pub open spec fn remove_command(self, idx: int) -> Command {
        if self.playlist.removed(idx).items.len() == 0 {
            self.switch_to_camera_command()
        } else if idx == self.playlist.current && self.mode == Mode::Video {
            Command::Restart
        } else {
            Command::Keep
        }
    }

    pub open spec fn item_flip_h_toggled(self, idx: int) -> AppModel {
        if 0 <= idx < self.playlist.items.len() {
            let it = self.playlist.items[idx];
            self.with_playlist(
                PlaylistModel {
                    items: self.playlist.items.update(idx, PlaylistItem { flip_h: !it.flip_h, ..it }),
                    ..self.playlist
                },
            )
        } else {
            self
        }
    }

    pub open spec fn item_flip_v_toggled(self, idx: int) -> AppModel {
        if 0 <= idx < self.playlist.items.len() {
            let it = self.playlist.items[idx];
            self.with_playlist(
                PlaylistModel {
                    items: self.playlist.items.update(idx, PlaylistItem { flip_v: !it.flip_v, ..it }),
                    ..self.playlist
                },
            )
        } else {
            self
        }
    }

    /// The flips applied to the image on screen: the camera's in camera mode,
    /// the current clip's in video mode (none when there is no current clip).
    pub open spec fn effective_flip(self) -> (bool, bool) {
        match self.mode {
            Mode::Camera => (self.camera_flip_h, self.camera_flip_v),
            Mode::Video => match self.playlist.current_clip() {
                Some(it) => (it.flip_h, it.flip_v),
                None => (false, false),
            },
        }
    }

    /// Flips the image horizontally: the camera in camera mode, the current
    /// clip in video mode.
    pub open spec fn toggled_flip_h(self) -> AppModel {
        match self.mode {
            Mode::Camera => AppModel { camera_flip_h: !self.camera_flip_h, ..self },
            Mode::Video => match self.playlist.current_clip() {
                Some(it) => AppModel {
                    playlist: PlaylistModel {
                        items: self.playlist.items.update(
                            self.playlist.current,
                            PlaylistItem { flip_h: !it.flip_h, ..it },
                        ),
                        ..self.playlist
                    },
                    ..self
                },
                None => self,
            },
        }
    }

    pub open spec fn toggled_flip_v(self) -> AppModel {
        match self.mode {
            Mode::Camera => AppModel { camera_flip_v: !self.camera_flip_v, ..self },
            Mode::Video => match self.playlist.current_clip() {
                Some(it) => AppModel {
                    playlist: PlaylistModel {
                        items: self.playlist.items.update(
                            self.playlist.current,
                            PlaylistItem { flip_v: !it.flip_v, ..it },
                        ),
                        ..self.playlist
                    },
                    ..self
                },
                None => self,
            },
        }
    }

    /// The camera the service starts on: the selected one, or no id and index 0.
    pub open spec fn camera_target(self) -> (Seq<char>, u32) {
        if 0 <= self.selected_idx < self.cameras.len() {
            (self.cameras[self.selected_idx].unique_id@, self.cameras[self.selected_idx].index)
        } else {
            (Seq::empty(), 0)
        }
    }

    /// Whether a restart in this state starts the camera (a video restart
    /// without a current clip falls back to the camera).
    pub open spec fn starts_camera(self) -> bool {
        self.mode == Mode::Camera || self.playlist.current_clip() is None
    }

    /// Whether `plan` starts what a restart in this state starts: the camera
    /// target, or the path of the current clip.
    pub open spec fn plan_matches(self, plan: ServicePlan) -> bool {
        if self.starts_camera() {
            plan matches ServicePlan::Camera { unique_id, index } && unique_id@ == self.camera_target().0
                && index == self.camera_target().1
        } else {
            plan matches ServicePlan::Video { path } && path == self.playlist.current_clip().unwrap().path
        }
    }

    /// The state after a restart is planned: not paused; the mode falls back to
    /// camera when video mode has no clip; the selected id follows the camera started.
    pub open spec fn after_plan(self) -> AppModel {
        if self.starts_camera() {
            AppModel {
                mode: Mode::Camera,
                selected_unique_id: self.camera_target().0,
                paused: false,
                ..self
            }
        } else {
            AppModel { paused: false, ..self }
        }
    }

    /// The state after video files are dropped (already filtered to videos).
    pub open spec fn after_drop(self, paths: Seq<String>) -> AppModel {
        if paths.len() == 0 {
            self
        } else {
            let pl = self.playlist.appended(paths);
            if self.mode != Mode::Video && self.playlist.items.len() == 0 {
                AppModel { playlist: PlaylistModel { current: 0, ..pl }, mode: Mode::Video, ..self }
            } else {
                AppModel { playlist: pl, ..self }
            }
        }
    }

    /// Whether dropping `paths` restarts the source: the list was empty, the
    /// window was not playing video and some file was dropped.
    pub open spec fn drop_restarts(self, paths: Seq<String>) -> bool {
        paths.len() > 0 && self.mode != Mode::Video && self.playlist.items.len() == 0
    }
}

/// The window state at start-up: the first camera selected, camera mode,
/// nothing flipped, an empty playlist with looping off.
pub open spec fn initial_state(cameras: Seq<CameraInfo>) -> AppModel {
    AppModel {
        cameras,
        selected_idx: 0,
        selected_unique_id: if cameras.len() > 0 {
            cameras[0].unique_id@
        } else {
            Seq::empty()
        },
        camera_flip_h: false,
        camera_flip_v: false,
        mode: Mode::Camera,
        playlist: PlaylistModel { items: Seq::empty(), current: 0, loop_mode: LoopMode::Off },
        show_playlist: false,
        paused: false,
    }
}

impl AppState {
    pub fn new(cameras: Vec<CameraInfo>) -> (r: Self)
        ensures
            r@.cameras == cameras@,
            r@.selected_idx == 0,
            r@ == initial_state(cameras@),
    {
        let selected_unique_id = if cameras.len() > 0 {
            cameras[0].unique_id.clone()
        } else {
            String::new()
        };
        AppState {
            cameras,
            selected_idx: 0,
            selected_unique_id,
            camera_flip_h: false,
            camera_flip_v: false,
            mode: Mode::Camera,
            playlist: Playlist::default(),
            show_playlist: false,
            paused: false,
        }
    }

    pub fn effective_flip(&self) -> (r: (bool, bool))
        ensures
            r == self@.effective_flip(),
    {
        match self.mode {
            Mode::Camera => (self.camera_flip_h, self.camera_flip_v),
            Mode::Video => match self.playlist.current_item() {
                Some(it) => (it.flip_h, it.flip_v),
                None => (false, false),
            },
        }
    }

    pub fn toggle_flip_h(&mut self)
        ensures
            final(self)@ == old(self)@.toggled_flip_h(),
    {
        match self.mode {
            Mode::Camera => self.camera_flip_h = !self.camera_flip_h,
            Mode::Video => {
                if let Some(it) = self.playlist.current_item_mut() {
                    it.flip_h = !it.flip_h;
                }
            },
        }
    }

    pub fn toggle_flip_v(&mut self)
        ensures
            final(self)@ == old(self)@.toggled_flip_v(),
    {
        match self.mode {
            Mode::Camera => self.camera_flip_v = !self.camera_flip_v,
            Mode::Video => {
                if let Some(it) = self.playlist.current_item_mut() {
                    it.flip_v = !it.flip_v;
                }
            },
        }
    }

    fn camera_target(&self) -> (r: (String, u32))
        ensures
            r.0@ == self@.camera_target().0,
            r.1 == self@.camera_target().1,
    {
        if self.selected_idx < self.cameras.len() {
            let c = &self.cameras[self.selected_idx];
            (c.unique_id.clone(), c.index)
        } else {
            (String::new(), 0)
        }
    }

    /// Decides what a (re)start of the source starts: the selected camera, or
    /// the current clip in video mode (video mode without a clip falls back to
    /// the camera). A started source is never paused.
    pub fn plan_service(&mut self) -> (r: ServicePlan)
        ensures
            final(self)@ == old(self)@.after_plan(),
            old(self)@.plan_matches(r),
    {
        self.paused = false;
        if self.mode == Mode::Video {
            let path_opt = match self.playlist.current_item() {
                Some(it) => Some(it.path.clone()),
                None => None,
            };
            if let Some(path) = path_opt {
                return ServicePlan::Video { path };
            }
            self.mode = Mode::Camera;
        }
        let (uid, idx) = self.camera_target();
        self.selected_unique_id = uid.clone();
        ServicePlan::Camera { unique_id: uid, index: idx }
    }

    pub fn switch_to_camera(&mut self) -> (r: Command)
        ensures
            final(self)@ == old(self)@.switched_to_camera(),
            r == old(self)@.switch_to_camera_command(),
    {
        if self.mode != Mode::Camera {
            self.mode = Mode::Camera;
            Command::Restart
        } else {
            Command::Keep
        }
    }

    pub fn switch_to_video(&mut self) -> (r: Command)
        ensures
            final(self)@ == old(self)@.switched_to_video(),
            r == old(self)@.switch_to_video_command(),
    {
        if self.mode != Mode::Video && !self.playlist.is_empty() {
            self.mode = Mode::Video;
            Command::Restart
        } else {
            Command::Keep
        }
    }

    /// Video files dropped on the window: they are appended to the playlist;
    /// when the list was empty and the window was not playing video, it
    /// switches to video mode and plays the first clip.
    pub fn videos_dropped(&mut self, paths: Vec<String>) -> (r: Command)
        ensures
            final(self)@ == old(self)@.after_drop(paths@),
            r == (if old(self)@.drop_restarts(paths@) {
                Command::Restart
            } else {
                Command::Keep
            }),
    {
        if paths.len() == 0 {
            return Command::Keep;
        }
        let became_nonempty = self.playlist.append(paths);
        if self.mode != Mode::Video && became_nonempty {
            self.playlist.current = 0;
            self.mode = Mode::Video;
            Command::Restart
        } else {
            Command::Keep
        }
    }

    /// The keys of video mode: Space toggles pause (the new pause state is
    /// returned for the player), Left restarts the clip from its start.
    pub fn handle_keys(&mut self, space: bool, left: bool) -> (r: (Option<bool>, Command))
        ensures
            final(self)@ == old(self)@.after_keys(space),
            r.0 == old(self)@.key_pause_change(space),
            r.1 == old(self)@.key_command(left),
    {
        if self.mode != Mode::Video {
            return (None, Command::Keep);
        }
        let mut pause_change: Option<bool> = None;
        if space {
            self.paused = !self.paused;
            pause_change = Some(self.paused);
        }
        let cmd = if left {
            Command::Restart
        } else {
            Command::Keep
        };
        (pause_change, cmd)
    }

    /// Called each frame with whether the player reached the end of the clip:
    /// in video mode the playlist advances by its loop mode; the next clip is
    /// started, or playback stops on the last frame.
    pub fn video_ended(&mut self, is_eof: bool) -> (r: Command)
        requires
            old(self)@.playlist.items.len() > 0 && old(self).playlist.loop_mode != LoopMode::One
                ==> old(self).playlist.current < usize::MAX,
        ensures
            final(self)@ == old(self)@.after_eof(is_eof),
            r == old(self)@.eof_command(is_eof),
    {
        if self.mode != Mode::Video || !is_eof {
            return Command::Keep;
        }
        match self.playlist.advance() {
            Some(_) => Command::Restart,
            None => Command::Stop,
        }
    }

    /// A camera picked in the selector: a different camera restarts the service.
    pub fn select_camera(&mut self, idx: usize) -> (r: Command)
        ensures
            final(self)@ == old(self)@.after_select_camera(idx as int),
            r == (if idx != old(self).selected_idx {
                Command::Restart
            } else {
                Command::Keep
            }),
    {
        if idx != self.selected_idx {
            self.selected_idx = idx;
            Command::Restart
        } else {
            Command::Keep
        }
    }

    /// "Clear All" in the playlist panel: empties the list, hides the panel and
    /// leaves video mode.
    pub fn clear_playlist(&mut self) -> (r: Command)
        ensures
            final(self)@ == old(self)@.after_clear(),
            r == old(self)@.switch_to_camera_command(),
    {
        self.playlist.clear();
        self.show_playlist = false;
        if self.mode == Mode::Video {
            self.switch_to_camera()
        } else {
            Command::Keep
        }
    }

    /// A clip clicked in the playlist panel: it becomes current and plays.
    pub fn play_item(&mut self, idx: usize) -> (r: Command)
        ensures
            final(self)@ == old(self)@.after_play(idx as int),
            r == (if idx < old(self)@.playlist.items.len() {
                Command::Restart
            } else {
                Command::Keep
            }),
    {
        if self.playlist.select(idx) {
            self.mode = Mode::Video;
            Command::Restart
        } else {
            Command::Keep
        }
    }

    /// "Remove" on a clip of the panel: an emptied list hides the panel and
    /// leaves video mode; removing the playing clip restarts playback.
    pub fn remove_item(&mut self, idx: usize) -> (r: Command)
        ensures
            final(self)@ == old(self)@.after_remove(idx as int),
            r == old(self)@.remove_command(idx as int),
    {
        let was_current = idx == self.playlist.current;
        self.playlist.remove(idx);
        if self.playlist.is_empty() {
            self.show_playlist = false;
            if self.mode == Mode::Video {
                self.switch_to_camera()
            } else {
                Command::Keep
            }
        } else if was_current && self.mode == Mode::Video {
            Command::Restart
        } else {
            Command::Keep
        }
    }

    /// The horizontal flip button of one clip in the panel.
    pub fn toggle_item_flip_h(&mut self, idx: usize)
        ensures
            final(self)@ == old(self)@.item_flip_h_toggled(idx as int),
    {
        if idx < self.playlist.items.len() {
            let mut it = self.playlist.items.remove(idx);
            it.flip_h = !it.flip_h;
            self.playlist.items.insert(idx, it);
            assert(self@.playlist.items =~= old(self)@.item_flip_h_toggled(idx as int).playlist.items);
        }
    }

    /// The vertical flip button of one clip in the panel.
    pub fn toggle_item_flip_v(&mut self, idx: usize)
        ensures
            final(self)@ == old(self)@.item_flip_v_toggled(idx as int),
    {
        if idx < self.playlist.items.len() {
            let mut it = self.playlist.items.remove(idx);
            it.flip_v = !it.flip_v;
            self.playlist.items.insert(idx, it);
            assert(self@.playlist.items =~= old(self)@.item_flip_v_toggled(idx as int).playlist.items);
        }
    }
}


/// At the end of a clip in video mode, playback restarts exactly when the
/// playlist has a clip to play next (whatever index that is: with Loop One
/// the same clip plays again, with Loop All a one-clip list repeats it), and
/// stops exactly when it has none; the current index moves to that next clip.
pub proof fn lemma_clip_end_restarts_when_next(m: AppModel)
    requires
        m.mode == Mode::Video,
        m.playlist.wf(),
    ensures
        m.eof_command(true) == Command::Restart <==> m.playlist.next_index() is Some,
        m.eof_command(true) == Command::Stop <==> m.playlist.next_index() is None,
        m.playlist.next_index() matches Some(i) ==> m.after_eof(true).playlist.current == i,
        m.playlist.items.len() > 0 && m.playlist.loop_mode == LoopMode::One ==> m.eof_command(true)
            == Command::Restart && m.after_eof(true).playlist.current == m.playlist.current,
        m.playlist.items.len() > 0 && m.playlist.loop_mode == LoopMode::All ==> m.eof_command(true)
            == Command::Restart,
        m.playlist.items.len() > 0 && m.playlist.loop_mode == LoopMode::Off ==> (m.eof_command(true)
            == Command::Restart <==> m.playlist.current + 1 < m.playlist.items.len()),
        m.playlist.items.len() == 0 ==> m.eof_command(true) == Command::Stop,
        m.after_eof(true).playlist.items == m.playlist.items,
        m.eof_command(false) == Command::Keep && m.after_eof(false) == m,
{
}

/// The vertical flip button of a clip negates that clip's vertical flip and
/// nothing else: its horizontal flip and path, the other clips, the current
/// index, the loop mode and the rest of the window stay as they were. The
/// horizontal button does the same with the horizontal flip.
pub proof fn lemma_item_flip_touches_one_flag(m: AppModel, idx: int)
    requires
        0 <= idx < m.playlist.items.len(),
    ensures
        ({
            let v = m.item_flip_v_toggled(idx);
            &&& v.playlist.items.len() == m.playlist.items.len()
            &&& v.playlist.items[idx].flip_v == !m.playlist.items[idx].flip_v
            &&& v.playlist.items[idx].flip_h == m.playlist.items[idx].flip_h
            &&& v.playlist.items[idx].path == m.playlist.items[idx].path
            &&& forall|j: int| 0 <= j < m.playlist.items.len() && j != idx ==> #[trigger] v.playlist.items[j]
                == m.playlist.items[j]
            &&& v.playlist.current == m.playlist.current
            &&& v.playlist.loop_mode == m.playlist.loop_mode
            &&& v == AppModel { playlist: v.playlist, ..m }
        }),
        ({
            let h = m.item_flip_h_toggled(idx);
            &&& h.playlist.items.len() == m.playlist.items.len()
            &&& h.playlist.items[idx].flip_h == !m.playlist.items[idx].flip_h
            &&& h.playlist.items[idx].flip_v == m.playlist.items[idx].flip_v
            &&& h.playlist.items[idx].path == m.playlist.items[idx].path
            &&& forall|j: int| 0 <= j < m.playlist.items.len() && j != idx ==> #[trigger] h.playlist.items[j]
                == m.playlist.items[j]
            &&& h.playlist.current == m.playlist.current
            &&& h.playlist.loop_mode == m.playlist.loop_mode
            &&& h == AppModel { playlist: h.playlist, ..m }
        }),
        m.item_flip_v_toggled(-1) == m && m.item_flip_h_toggled(m.playlist.items.len() as int) == m,
{
}

/// Pressing a flip button twice restores the window state.
pub proof fn lemma_flip_twice_restores(m: AppModel)
    ensures
        m.toggled_flip_h().toggled_flip_h() == m,
        m.toggled_flip_v().toggled_flip_v() == m,
{
    if m.mode == Mode::Video && m.playlist.current_clip() is Some {
        assert(m.toggled_flip_h().toggled_flip_h().playlist.items =~= m.playlist.items);
        assert(m.toggled_flip_v().toggled_flip_v().playlist.items =~= m.playlist.items);
    }
}

/// A flip button flips what is on screen along its axis only; in camera mode
/// it changes the camera's flip and no clip; in video mode it changes the
/// current clip only and not the camera's flip (each clip keeps its own flips).
pub proof fn lemma_flip_targets_shown_source(m: AppModel)
    requires
        m.mode == Mode::Camera || m.playlist.current_clip() is Some,
    ensures
        m.toggled_flip_h().effective_flip() == (!m.effective_flip().0, m.effective_flip().1),
        m.toggled_flip_v().effective_flip() == (m.effective_flip().0, !m.effective_flip().1),
        m.mode == Mode::Camera ==> m.toggled_flip_h().playlist == m.playlist && m.toggled_flip_v().playlist
            == m.playlist,
        m.mode == Mode::Video ==> {
            &&& m.toggled_flip_h().camera_flip_h == m.camera_flip_h
            &&& m.toggled_flip_h().camera_flip_v == m.camera_flip_v
            &&& m.toggled_flip_v().camera_flip_h == m.camera_flip_h
            &&& m.toggled_flip_v().camera_flip_v == m.camera_flip_v
            &&& forall|i: int|
                0 <= i < m.playlist.items.len() && i != m.playlist.current ==> #[trigger] m.toggled_flip_h().playlist.items[i]
                    == m.playlist.items[i] && m.toggled_flip_v().playlist.items[i] == m.playlist.items[i]
        },
{
}

/// Dropping files never replaces the playlist: the clips already there stay in
/// front, in order, and the dropped ones follow in the order given. Dropping
/// onto an empty list outside video mode switches to video mode on the first
/// dropped file.
pub proof fn lemma_drop_appends(m: AppModel, paths: Seq<String>)
    requires
        m.playlist.wf(),
    ensures
        m.after_drop(paths).playlist.items == m.playlist.items + paths.map_values(
            |p: String| crate::playlist::fresh_item(p),
        ),
        m.drop_restarts(paths) ==> {
            &&& m.after_drop(paths).mode == Mode::Video
            &&& m.after_drop(paths).playlist.current_clip() == Some(crate::playlist::fresh_item(paths[0]))
        },
        m.after_drop(paths).playlist.wf(),
{
    if m.drop_restarts(paths) {
        assert(m.after_drop(paths).playlist.items[0] == crate::playlist::fresh_item(paths[0]));
    }
}

/// A planned start is never paused, and video mode survives a plan only when
/// there is a clip to play.
pub proof fn lemma_plan_unpauses(m: AppModel)
    ensures
        !m.after_plan().paused,
        m.after_plan().mode == Mode::Video ==> m.after_plan().playlist.current_clip() is Some,
{
}

/// Every event of the window keeps the playlist's current index on a clip
/// (or at 0 for an empty list).
pub proof fn lemma_events_keep_playlist_wf(m: AppModel, paths: Seq<String>, idx: int, b: bool)
    requires
        m.playlist.wf(),
    ensures
        m.after_plan().playlist.wf(),
        m.toggled_flip_h().playlist.wf(),
        m.toggled_flip_v().playlist.wf(),
        m.after_drop(paths).playlist.wf(),
        m.after_keys(b).playlist.wf(),
        m.after_eof(b).playlist.wf(),
        m.after_clear().playlist.wf(),
        m.after_play(idx).playlist.wf(),
        m.after_remove(idx).playlist.wf(),
        m.item_flip_h_toggled(idx).playlist.wf(),
        m.item_flip_v_toggled(idx).playlist.wf(),
        m.switched_to_camera().playlist.wf(),
        m.switched_to_video().playlist.wf(),
{
    if m.mode == Mode::Video && b && m.playlist.items.len() > 0 && m.playlist.loop_mode == LoopMode::All {
        vstd::arithmetic::div_mod::lemma_mod_bound(m.playlist.current + 1, m.playlist.items.len() as int);
    }
}

/// The outcome of saving the settings: the status line that the settings
/// panel shows, and whether the running source restarts to apply them (only
/// while a video plays).
pub fn settings_saved(saved: Result<(), String>, mode: Mode) -> (r: (String, bool))
    ensures
        match saved {
            Ok(()) => r.0@ == "Saved"@ && r.1 == (mode == Mode::Video),
            Err(e) => r.0@ == "Error: "@ + e@ && !r.1,
        },
{
    match saved {
        Ok(()) => (String::from_str("Saved"), mode == Mode::Video),
        Err(e) => (String::from_str("Error: ").concat(e.as_str()), false),
    }
}

/// The status line that the settings panel shows after a revert.
pub fn settings_reverted() -> (r: String)
    ensures
        r@ == "Reverted"@,
{
    String::from_str("Reverted")
}

} // verus!
