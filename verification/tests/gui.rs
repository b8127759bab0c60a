use rustracer::gui::{
    key_command, Command, GuiAction, GuiEvent, GuiState, Key, RenderQuality, SceneType,
};

#[test]
fn scene_names() {
    assert_eq!(SceneType::Dragon.name(), "Dragon");
    assert_eq!(SceneType::Teapot.name(), "Teapot");
    assert_eq!(SceneType::Specular.name(), "Specular Spheres");
    assert_eq!(SceneType::Diffuse.name(), "Diffuse Spheres");
    assert_eq!(SceneType::Triangle.name(), "Simple Triangle");
}

#[test]
fn scene_list_is_in_menu_order() {
    assert_eq!(
        SceneType::all().to_vec(),
        vec![
            SceneType::Dragon,
            SceneType::Teapot,
            SceneType::Specular,
            SceneType::Diffuse,
            SceneType::Triangle,
        ]
    );
}

#[test]
fn quality_names() {
    assert_eq!(RenderQuality::Preview.name(), "Preview (1 spp)");
    assert_eq!(RenderQuality::Low.name(), "Low (4 spp)");
    assert_eq!(RenderQuality::Medium.name(), "Medium (16 spp)");
    assert_eq!(RenderQuality::High.name(), "High (64 spp)");
    assert_eq!(RenderQuality::Ultra.name(), "Ultra (256 spp)");
}

#[test]
fn quality_samples() {
    let spp: Vec<u32> = RenderQuality::all().iter().map(|q| q.samples_per_pixel()).collect();
    let lights: Vec<u32> = RenderQuality::all().iter().map(|q| q.light_samples()).collect();
    assert_eq!(spp, vec![1, 4, 16, 64, 256]);
    assert_eq!(lights, vec![1, 4, 8, 16, 32]);
}

#[test]
fn gui_starts_with_medium_quality_in_debug_mode() {
    let state = GuiState::new();
    assert_eq!(state, GuiState::default());
    assert_eq!(state.selected_scene, SceneType::Dragon);
    assert_eq!(state.render_quality, RenderQuality::Medium);
    assert!(state.is_debug_mode);
    assert!(state.continuous_rendering);
    assert!(!state.is_rendering);
    assert_eq!(state.render_progress, 0);
    assert_eq!(state.custom_samples_per_pixel, 16);
    assert_eq!(state.custom_light_samples, 8);
    assert_eq!(state.custom_max_bounces, 50);
    assert!(state.show_settings_panel);
    assert!(!state.show_help);
}

#[test]
fn effective_samples_follow_quality_or_custom_settings() {
    let mut state = GuiState::new();
    assert_eq!(state.effective_samples_per_pixel(), 16);
    assert_eq!(state.effective_light_samples(), 8);
    state.handle(GuiEvent::QualityClicked(RenderQuality::Ultra));
    assert_eq!(state.effective_samples_per_pixel(), 256);
    assert_eq!(state.effective_light_samples(), 32);
    state.handle(GuiEvent::SamplesPerPixelDragged(300));
    state.handle(GuiEvent::LightSamplesDragged(5));
    assert_eq!(state.effective_samples_per_pixel(), 256);
    state.handle(GuiEvent::CustomSettingsToggled);
    assert_eq!(state.effective_samples_per_pixel(), 300);
    assert_eq!(state.effective_light_samples(), 5);
}

#[test]
fn custom_fields_clamp_to_their_ranges() {
    let mut state = GuiState::new();
    state.handle(GuiEvent::SamplesPerPixelDragged(0));
    assert_eq!(state.custom_samples_per_pixel, 1);
    state.handle(GuiEvent::SamplesPerPixelDragged(5000));
    assert_eq!(state.custom_samples_per_pixel, 1024);
    state.handle(GuiEvent::LightSamplesDragged(129));
    assert_eq!(state.custom_light_samples, 128);
    state.handle(GuiEvent::LightSamplesDragged(0));
    assert_eq!(state.custom_light_samples, 1);
    state.handle(GuiEvent::MaxBouncesDragged(101));
    assert_eq!(state.custom_max_bounces, 100);
    state.handle(GuiEvent::MaxBouncesDragged(0));
    assert_eq!(state.custom_max_bounces, 1);
    state.handle(GuiEvent::MaxBouncesDragged(37));
    assert_eq!(state.custom_max_bounces, 37);
}

#[test]
fn mode_labels_toggle_only_when_the_mode_changes() {
    let mut state = GuiState::new();
    assert_eq!(state.handle(GuiEvent::DebugModeClicked), GuiAction::Nothing);
    assert!(state.is_debug_mode);
    assert_eq!(state.handle(GuiEvent::FullModeClicked), GuiAction::ToggleDebugMode);
    assert!(!state.is_debug_mode);
    assert_eq!(state.handle(GuiEvent::FullModeClicked), GuiAction::Nothing);
    assert_eq!(state.handle(GuiEvent::DebugModeClicked), GuiAction::ToggleDebugMode);
    assert!(state.is_debug_mode);
}

#[test]
fn render_buttons_act_only_while_shown() {
    let mut state = GuiState::new();
    assert_eq!(state.handle(GuiEvent::CancelClicked), GuiAction::Nothing);
    assert_eq!(state.handle(GuiEvent::StartFullRenderClicked), GuiAction::StartFullRender);
    state.update_progress(true, 40);
    assert!(state.is_rendering);
    assert_eq!(state.render_progress, 40);
    assert_eq!(state.handle(GuiEvent::StartFullRenderClicked), GuiAction::Nothing);
    assert_eq!(state.handle(GuiEvent::CancelClicked), GuiAction::CancelRender);
    state.update_progress(false, 250);
    assert_eq!(state.render_progress, 100);
}

#[test]
fn plain_buttons_and_boxes() {
    let mut state = GuiState::new();
    assert_eq!(state.handle(GuiEvent::SaveImageClicked), GuiAction::SaveImage);
    assert_eq!(state.handle(GuiEvent::ResetCameraClicked), GuiAction::ResetCamera);
    assert_eq!(
        state.handle(GuiEvent::SceneClicked(SceneType::Teapot)),
        GuiAction::ChangeScene(SceneType::Teapot)
    );
    assert_eq!(state.selected_scene, SceneType::Teapot);
    assert_eq!(state.handle(GuiEvent::HelpToggled), GuiAction::Nothing);
    assert!(state.show_help);
    assert_eq!(state.handle(GuiEvent::SettingsPanelToggled), GuiAction::Nothing);
    assert!(!state.show_settings_panel);
    assert_eq!(state.handle(GuiEvent::ContinuousToggled), GuiAction::Nothing);
    assert!(!state.continuous_rendering);
}

#[test]
fn key_bindings() {
    assert_eq!(key_command(Key::W), Command::MoveCamera { dx: 0, dy: 0, dz: -1 });
    assert_eq!(key_command(Key::S), Command::MoveCamera { dx: 0, dy: 0, dz: 1 });
    assert_eq!(key_command(Key::A), Command::MoveCamera { dx: -1, dy: 0, dz: 0 });
    assert_eq!(key_command(Key::D), Command::MoveCamera { dx: 1, dy: 0, dz: 0 });
    assert_eq!(key_command(Key::Q), Command::MoveCamera { dx: 0, dy: 1, dz: 0 });
    assert_eq!(key_command(Key::E), Command::MoveCamera { dx: 0, dy: -1, dz: 0 });
    assert_eq!(key_command(Key::R), Command::ToggleRenderingMode);
    assert_eq!(key_command(Key::F), Command::StartFullRender);
    assert_eq!(key_command(Key::C), Command::ToggleContinuous);
    assert_eq!(key_command(Key::Escape), Command::Quit);
}

#[test]
fn render_settings_of_the_panels() {
    let mut state = GuiState::new();
    assert_eq!(
        state.render_settings(50),
        GuiAction::UpdateRenderSettings { samples_per_pixel: 16, light_samples: 8, max_bounces: 50 }
    );
    state.handle(GuiEvent::QualityClicked(RenderQuality::Low));
    state.handle(GuiEvent::MaxBouncesDragged(7));
    assert_eq!(
        state.render_settings(3),
        GuiAction::UpdateRenderSettings { samples_per_pixel: 4, light_samples: 4, max_bounces: 3 }
    );
    state.handle(GuiEvent::CustomSettingsToggled);
    assert_eq!(
        state.render_settings(3),
        GuiAction::UpdateRenderSettings { samples_per_pixel: 16, light_samples: 8, max_bounces: 7 }
    );
}
