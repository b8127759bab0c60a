use vstd::prelude::*;

verus! {

/// Available scenes that can be rendered.
#[derive(Debug, Clone, Copy, PartialEq, Eq, Structural)]
pub enum SceneType {
    Dragon,
    Teapot,
    Specular,
    Diffuse,
    Triangle,
}

impl SceneType {
    /// The label of the scene as a sequence of characters.
    pub open spec fn spec_name(&self) -> Seq<char> {
        match self {
            SceneType::Dragon => "Dragon"@,
            SceneType::Teapot => "Teapot"@,
            SceneType::Specular => "Specular Spheres"@,
            SceneType::Diffuse => "Diffuse Spheres"@,
            SceneType::Triangle => "Simple Triangle"@,
        }
    }

    /// Every scene, in menu order.
    pub open spec fn spec_all() -> Seq<SceneType> {
        seq![
            SceneType::Dragon,
            SceneType::Teapot,
            SceneType::Specular,
            SceneType::Diffuse,
            SceneType::Triangle,
        ]
    }

    pub fn name(&self) -> (label: &'static str)
        ensures
            label@ == self.spec_name(),
    {
        match self {
            SceneType::Dragon => "Dragon",
            SceneType::Teapot => "Teapot",
            SceneType::Specular => "Specular Spheres",
            SceneType::Diffuse => "Diffuse Spheres",
            SceneType::Triangle => "Simple Triangle",
        }
    }

    pub fn all() -> (scenes: &'static [SceneType])
        ensures
            scenes@ == Self::spec_all(),
    {
        &[
            SceneType::Dragon,
            SceneType::Teapot,
            SceneType::Specular,
            SceneType::Diffuse,
            SceneType::Triangle,
        ]
    }
}

/// Render quality presets.
#[derive(Debug, Clone, Copy, PartialEq, Eq, Structural)]
pub enum RenderQuality {
    Preview,
    Low,
    Medium,
    High,
    Ultra,
}

impl RenderQuality {
    /// The label of the preset as a sequence of characters.
    pub open spec fn spec_name(&self) -> Seq<char> {
        match self {
            RenderQuality::Preview => "Preview (1 spp)"@,
            RenderQuality::Low => "Low (4 spp)"@,
            RenderQuality::Medium => "Medium (16 spp)"@,
            RenderQuality::High => "High (64 spp)"@,
            RenderQuality::Ultra => "Ultra (256 spp)"@,
        }
    }

    /// Camera rays per pixel of the preset.
    pub open spec fn spec_samples_per_pixel(&self) -> u32 {
        match self {
            RenderQuality::Preview => 1,
            RenderQuality::Low => 4,
            RenderQuality::Medium => 16,
            RenderQuality::High => 64,
            RenderQuality::Ultra => 256,
        }
    }

    /// Shadow rays per light of the preset.
    pub open spec fn spec_light_samples(&self) -> u32 {
        match self {
            RenderQuality::Preview => 1,
            RenderQuality::Low => 4,
            RenderQuality::Medium => 8,
            RenderQuality::High => 16,
            RenderQuality::Ultra => 32,
        }
    }

    /// Every preset, cheapest first.
    pub open spec fn spec_all() -> Seq<RenderQuality> {
        seq![
            RenderQuality::Preview,
            RenderQuality::Low,
            RenderQuality::Medium,
            RenderQuality::High,
            RenderQuality::Ultra,
        ]
    }

    pub fn name(&self) -> (label: &'static str)
        ensures
            label@ == self.spec_name(),
    {
        match self {
            RenderQuality::Preview => "Preview (1 spp)",
            RenderQuality::Low => "Low (4 spp)",
            RenderQuality::Medium => "Medium (16 spp)",
            RenderQuality::High => "High (64 spp)",
            RenderQuality::Ultra => "Ultra (256 spp)",
        }
    }

    #[verifier::when_used_as_spec(spec_samples_per_pixel)]
    pub fn samples_per_pixel(&self) -> (samples: u32)
        ensures
            samples == self.spec_samples_per_pixel(),
    {
        match self {
            RenderQuality::Preview => 1,
            RenderQuality::Low => 4,
            RenderQuality::Medium => 16,
            RenderQuality::High => 64,
            RenderQuality::Ultra => 256,
        }
    }

    #[verifier::when_used_as_spec(spec_light_samples)]
    pub fn light_samples(&self) -> (samples: u32)
        ensures
            samples == self.spec_light_samples(),
    {
        match self {
            RenderQuality::Preview => 1,
            RenderQuality::Low => 4,
            RenderQuality::Medium => 8,
            RenderQuality::High => 16,
            RenderQuality::Ultra => 32,
        }
    }

    pub fn all() -> (presets: &'static [RenderQuality])
        ensures
            presets@ == Self::spec_all(),
    {
        &[
            RenderQuality::Preview,
            RenderQuality::Low,
            RenderQuality::Medium,
            RenderQuality::High,
            RenderQuality::Ultra,
        ]
    }
}

/// Actions that the GUI wants to trigger.
#[derive(Debug, Clone, Copy, PartialEq, Eq, Structural)]
pub enum GuiAction {
    Nothing,
    ChangeScene(SceneType),
    StartFullRender,
    CancelRender,
    ToggleDebugMode,
    SaveImage,
    ResetCamera,
    UpdateRenderSettings { samples_per_pixel: u32, light_samples: u32, max_bounces: u32 },
}

/// What the user did to a widget of the panels.
#[derive(Debug, Clone, Copy, PartialEq, Eq, Structural)]
pub enum GuiEvent {
    /// "Save Image", in the menu or on the panel.
    SaveImageClicked,
    /// The "Settings Panel" box of the view menu.
    SettingsPanelToggled,
    /// The "Help" box of the view menu, or the help window's close button.
    HelpToggled,
    /// An entry of the scene list.
    SceneClicked(SceneType),
    /// The "Fast/Debug" label.
    DebugModeClicked,
    /// The "Full Render" label.
    FullModeClicked,
    /// The "Continuous Update" box.
    ContinuousToggled,
    /// An entry of the quality list.
    QualityClicked(RenderQuality),
    /// The "Custom Settings" box.
    CustomSettingsToggled,
    /// The samples-per-pixel field was dragged to a value.
    SamplesPerPixelDragged(u32),
    /// The light-samples field was dragged to a value.
    LightSamplesDragged(u32),
    /// The max-bounces field was dragged to a value.
    MaxBouncesDragged(u32),
    /// "Cancel", which is shown while a render runs.
    CancelClicked,
    /// "Start Full Render", which is shown while no render runs.
    StartFullRenderClicked,
    /// "Reset Camera".
    ResetCameraClicked,
}

/// Largest number of samples per pixel that the custom field takes.
pub const MAX_CUSTOM_SAMPLES_PER_PIXEL: u32 = 1024;

/// Largest number of light samples that the custom field takes.
pub const MAX_CUSTOM_LIGHT_SAMPLES: u32 = 128;

/// Largest number of bounces that the custom field takes.
pub const MAX_CUSTOM_BOUNCES: u32 = 100;

/// `value` brought into the range from 1 to `max`.
pub open spec fn clamped(value: u32, max: u32) -> u32 {
    if value < 1 {
        1
    } else if value > max {
        max
    } else {
        value
    }
}

fn clamp(value: u32, max: u32) -> (c: u32)
    ensures
        c == clamped(value, max),
{
    if value < 1 {
        1
    } else if value > max {
        max
    } else {
        value
    }
}

/// State for the GUI.
#[derive(Debug, Clone, Copy, PartialEq, Eq, Structural)]
pub struct GuiState {
    pub selected_scene: SceneType,
    pub render_quality: RenderQuality,
    pub is_rendering: bool,
    /// Progress of the running render, in percent.
    pub render_progress: u32,
    pub is_debug_mode: bool,
    pub continuous_rendering: bool,
    // Custom render settings
    pub custom_samples_per_pixel: u32,
    pub custom_light_samples: u32,
    pub custom_max_bounces: u32,
    pub use_custom_settings: bool,
    // UI state
    pub show_settings_panel: bool,
    pub show_help: bool,
}

impl Default for GuiState {
    fn default() -> (state: Self)
        ensures
            state == GuiState::spec_default(),
    {
        GuiState {
            selected_scene: SceneType::Dragon,
            render_quality: RenderQuality::Medium,
            is_rendering: false,
            render_progress: 0,
            is_debug_mode: true,
            continuous_rendering: true,
            custom_samples_per_pixel: 16,
            custom_light_samples: 8,
            custom_max_bounces: 50,
            use_custom_settings: false,
            show_settings_panel: true,
            show_help: false,
        }
    }
}

impl GuiState {
    /// The state in which the GUI starts.
    pub open spec fn spec_default() -> GuiState {
        GuiState {
            selected_scene: SceneType::Dragon,
            render_quality: RenderQuality::Medium,
            is_rendering: false,
            render_progress: 0,
            is_debug_mode: true,
            continuous_rendering: true,
            custom_samples_per_pixel: 16,
            custom_light_samples: 8,
            custom_max_bounces: 50,
            use_custom_settings: false,
            show_settings_panel: true,
            show_help: false,
        }
    }

    /// The custom settings lie in the ranges of their fields.
    pub open spec fn wf(&self) -> bool {
        &&& 1 <= self.custom_samples_per_pixel <= MAX_CUSTOM_SAMPLES_PER_PIXEL
        &&& 1 <= self.custom_light_samples <= MAX_CUSTOM_LIGHT_SAMPLES
        &&& 1 <= self.custom_max_bounces <= MAX_CUSTOM_BOUNCES
    }

    pub fn new() -> (state: Self)
        ensures
            state == GuiState::spec_default(),
            state.wf(),
    {
        GuiState::default()
    }

    /// The samples per pixel that a render is to use: the custom number where
    /// custom settings are on, else the number of the quality preset.
    pub open spec fn spec_effective_samples_per_pixel(&self) -> u32 {
        if self.use_custom_settings {
            self.custom_samples_per_pixel
        } else {
            self.render_quality.spec_samples_per_pixel()
        }
    }

    /// The light samples that a render is to use: the custom number where
    /// custom settings are on, else the number of the quality preset.
    pub open spec fn spec_effective_light_samples(&self) -> u32 {
        if self.use_custom_settings {
            self.custom_light_samples
        } else {
            self.render_quality.spec_light_samples()
        }
    }

    /// Get the effective samples per pixel based on quality or custom settings.
    #[verifier::when_used_as_spec(spec_effective_samples_per_pixel)]
    pub fn effective_samples_per_pixel(&self) -> (samples: u32)
        ensures
            samples == self.spec_effective_samples_per_pixel(),
            self.wf() ==> samples >= 1,
    {
        if self.use_custom_settings {
            self.custom_samples_per_pixel
        } else {
            self.render_quality.samples_per_pixel()
        }
    }

    /// Get the effective light samples based on quality or custom settings.
    #[verifier::when_used_as_spec(spec_effective_light_samples)]
    pub fn effective_light_samples(&self) -> (samples: u32)
        ensures
            samples == self.spec_effective_light_samples(),
            self.wf() ==> samples >= 1,
    {
        if self.use_custom_settings {
            self.custom_light_samples
        } else {
            self.render_quality.light_samples()
        }
    }

    /// The render settings that the panels ask for, as an action: the
    /// effective numbers of samples, and the custom number of bounces where
    /// custom settings are on, else `bounces`, the number in use.
    pub fn render_settings(&self, bounces: u32) -> (action: GuiAction)
        ensures
            action == (GuiAction::UpdateRenderSettings {
                samples_per_pixel: self.spec_effective_samples_per_pixel(),
                light_samples: self.spec_effective_light_samples(),
                max_bounces: if self.use_custom_settings {
                    self.custom_max_bounces
                } else {
                    bounces
                },
            }),
    {
        GuiAction::UpdateRenderSettings {
            samples_per_pixel: self.effective_samples_per_pixel(),
            light_samples: self.effective_light_samples(),
            max_bounces: if self.use_custom_settings {
                self.custom_max_bounces
            } else {
                bounces
            },
        }
    }

    /// The state after an event.
    pub open spec fn after(self, event: GuiEvent) -> GuiState {
        match event {
            GuiEvent::SettingsPanelToggled => GuiState {
                show_settings_panel: !self.show_settings_panel,
                ..self
            },
            GuiEvent::HelpToggled => GuiState { show_help: !self.show_help, ..self },
            GuiEvent::SceneClicked(scene) => GuiState { selected_scene: scene, ..self },
            GuiEvent::DebugModeClicked => GuiState { is_debug_mode: true, ..self },
            GuiEvent::FullModeClicked => GuiState { is_debug_mode: false, ..self },
            GuiEvent::ContinuousToggled => GuiState {
                continuous_rendering: !self.continuous_rendering,
                ..self
            },
            GuiEvent::QualityClicked(quality) => GuiState { render_quality: quality, ..self },
            GuiEvent::CustomSettingsToggled => GuiState {
                use_custom_settings: !self.use_custom_settings,
                ..self
            },
            GuiEvent::SamplesPerPixelDragged(value) => GuiState {
                custom_samples_per_pixel: clamped(value, MAX_CUSTOM_SAMPLES_PER_PIXEL),
                ..self
            },
            GuiEvent::LightSamplesDragged(value) => GuiState {
                custom_light_samples: clamped(value, MAX_CUSTOM_LIGHT_SAMPLES),
                ..self
            },
            GuiEvent::MaxBouncesDragged(value) => GuiState {
                custom_max_bounces: clamped(value, MAX_CUSTOM_BOUNCES),
                ..self
            },
            GuiEvent::SaveImageClicked
            | GuiEvent::CancelClicked
            | GuiEvent::StartFullRenderClicked
            | GuiEvent::ResetCameraClicked => self,
        }
    }

    /// The action that an event triggers. The mode labels trigger a toggle
    /// only where they change the mode, and the two render buttons act only
    /// while they are shown.
    pub open spec fn action(self, event: GuiEvent) -> GuiAction {
        match event {
            GuiEvent::SaveImageClicked => GuiAction::SaveImage,
            GuiEvent::SceneClicked(scene) => GuiAction::ChangeScene(scene),
            GuiEvent::DebugModeClicked => if self.is_debug_mode {
                GuiAction::Nothing
            } else {
                GuiAction::ToggleDebugMode
            },
            GuiEvent::FullModeClicked => if self.is_debug_mode {
                GuiAction::ToggleDebugMode
            } else {
                GuiAction::Nothing
            },
            GuiEvent::CancelClicked => if self.is_rendering {
                GuiAction::CancelRender
            } else {
                GuiAction::Nothing
            },
            GuiEvent::StartFullRenderClicked => if self.is_rendering {
                GuiAction::Nothing
            } else {
                GuiAction::StartFullRender
            },
            GuiEvent::ResetCameraClicked => GuiAction::ResetCamera,
            _ => GuiAction::Nothing,
        }
    }

    /// Takes an event of the panels: brings the state up to date and says
    /// which action the event triggers.
    pub fn handle(&mut self, event: GuiEvent) -> (action: GuiAction)
        ensures
            *final(self) == old(self).after(event),
            action == old(self).action(event),
            old(self).wf() ==> final(self).wf(),
            action == GuiAction::ToggleDebugMode <==> final(self).is_debug_mode != old(
                self
            ).is_debug_mode,
    {
        match event {
            GuiEvent::SaveImageClicked => GuiAction::SaveImage,
            GuiEvent::SettingsPanelToggled => {
                self.show_settings_panel = !self.show_settings_panel;
                GuiAction::Nothing
            },
            GuiEvent::HelpToggled => {
                self.show_help = !self.show_help;
                GuiAction::Nothing
            },
            GuiEvent::SceneClicked(scene) => {
                self.selected_scene = scene;
                GuiAction::ChangeScene(scene)
            },
            GuiEvent::DebugModeClicked => {
                if !self.is_debug_mode {
                    self.is_debug_mode = true;
                    GuiAction::ToggleDebugMode
                } else {
                    GuiAction::Nothing
                }
            },
            GuiEvent::FullModeClicked => {
                if self.is_debug_mode {
                    self.is_debug_mode = false;
                    GuiAction::ToggleDebugMode
                } else {
                    GuiAction::Nothing
                }
            },
            GuiEvent::ContinuousToggled => {
                self.continuous_rendering = !self.continuous_rendering;
                GuiAction::Nothing
            },
            GuiEvent::QualityClicked(quality) => {
                self.render_quality = quality;
                GuiAction::Nothing
            },
            GuiEvent::CustomSettingsToggled => {
                self.use_custom_settings = !self.use_custom_settings;
                GuiAction::Nothing
            },
            GuiEvent::SamplesPerPixelDragged(value) => {
                self.custom_samples_per_pixel = clamp(value, MAX_CUSTOM_SAMPLES_PER_PIXEL);
                GuiAction::Nothing
            },
            GuiEvent::LightSamplesDragged(value) => {
                self.custom_light_samples = clamp(value, MAX_CUSTOM_LIGHT_SAMPLES);
                GuiAction::Nothing
            },
            GuiEvent::MaxBouncesDragged(value) => {
                self.custom_max_bounces = clamp(value, MAX_CUSTOM_BOUNCES);
                GuiAction::Nothing
            },
            GuiEvent::CancelClicked => {
                if self.is_rendering {
                    GuiAction::CancelRender
                } else {
                    GuiAction::Nothing
                }
            },
            GuiEvent::StartFullRenderClicked => {
                if self.is_rendering {
                    GuiAction::Nothing
                } else {
                    GuiAction::StartFullRender
                }
            },
            GuiEvent::ResetCameraClicked => GuiAction::ResetCamera,
        }
    }

    /// Takes over what the renderer reports: whether it is busy, and how far
    /// it is, in percent.
    pub fn update_progress(&mut self, is_rendering: bool, progress: u32)
        ensures
            *final(self) == (GuiState {
                is_rendering,
                render_progress: if progress > 100 {
                    100
                } else {
                    progress
                },
                ..*old(self)
            }),
    {
        self.is_rendering = is_rendering;
        self.render_progress = if progress > 100 {
            100
        } else {
            progress
        };
    }
}

/// The keys that the renderer knows.
#[derive(Debug, Clone, Copy, PartialEq, Eq, Structural)]
pub enum Key {
    W,
    A,
    S,
    D,
    Q,
    E,
    R,
    F,
    C,
    Escape,
}

/// What a key asks of the renderer.
#[derive(Debug, Clone, Copy, PartialEq, Eq, Structural)]
pub enum Command {
    /// Move the camera by one step along an axis.
    MoveCamera { dx: i32, dy: i32, dz: i32 },
    /// Change from debug to full mode or back.
    ToggleRenderingMode,
    /// Start a full render with the current settings.
    StartFullRender,
    /// Switch re-rendering on movement on or off.
    ToggleContinuous,
    Quit,
}

/// A step of length one along one of the three axes.
pub open spec fn is_axis_step(dx: i32, dy: i32, dz: i32) -> bool {
    ||| (dx == 1 || dx == -1) && dy == 0 && dz == 0
    ||| dx == 0 && (dy == 1 || dy == -1) && dz == 0
    ||| dx == 0 && dy == 0 && (dz == 1 || dz == -1)
}

/// The key bindings: W and S move forward and back along z, A and D left and
/// right along x, Q and E up and down along y; R changes the mode, F starts a
/// full render, C switches continuous rendering, and escape quits.
pub open spec fn spec_key_command(key: Key) -> Command {
    match key {
        Key::W => Command::MoveCamera { dx: 0, dy: 0, dz: (-1) as i32 },
        Key::S => Command::MoveCamera { dx: 0, dy: 0, dz: 1 },
        Key::A => Command::MoveCamera { dx: (-1) as i32, dy: 0, dz: 0 },
        Key::D => Command::MoveCamera { dx: 1, dy: 0, dz: 0 },
        Key::Q => Command::MoveCamera { dx: 0, dy: 1, dz: 0 },
        Key::E => Command::MoveCamera { dx: 0, dy: (-1) as i32, dz: 0 },
        Key::R => Command::ToggleRenderingMode,
        Key::F => Command::StartFullRender,
        Key::C => Command::ToggleContinuous,
        Key::Escape => Command::Quit,
    }
}

/// The command bound to a key.
pub fn key_command(key: Key) -> (command: Command)
    ensures
        command == spec_key_command(key),
        command matches Command::MoveCamera { dx, dy, dz } ==> is_axis_step(dx, dy, dz),
{
    match key {
        Key::W => Command::MoveCamera { dx: 0, dy: 0, dz: -1 },
        Key::S => Command::MoveCamera { dx: 0, dy: 0, dz: 1 },
        Key::A => Command::MoveCamera { dx: -1, dy: 0, dz: 0 },
        Key::D => Command::MoveCamera { dx: 1, dy: 0, dz: 0 },
        Key::Q => Command::MoveCamera { dx: 0, dy: 1, dz: 0 },
        Key::E => Command::MoveCamera { dx: 0, dy: -1, dz: 0 },
        Key::R => Command::ToggleRenderingMode,
        Key::F => Command::StartFullRender,
        Key::C => Command::ToggleContinuous,
        Key::Escape => Command::Quit,
    }
}

} // verus!
