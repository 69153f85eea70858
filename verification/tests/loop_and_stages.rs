use vulkan_tutorial_rust::config::AppConfig;
use vulkan_tutorial_rust::events::{control_flow, AppEvent, LoopControl};
use vulkan_tutorial_rust::pipeline::{shader_stage_plan, ShaderStage, ShaderStageDesc};

#[test]
fn close_request_stops_the_loop() {
    assert_eq!(control_flow(AppEvent::CloseRequested), LoopControl::Stop);
}

#[test]
fn escape_stops_the_loop() {
    assert_eq!(control_flow(AppEvent::EscapePressed), LoopControl::Stop);
}

#[test]
fn other_events_keep_the_loop_running() {
    assert_eq!(control_flow(AppEvent::OtherKeyInput), LoopControl::KeepRunning);
    assert_eq!(control_flow(AppEvent::Other), LoopControl::KeepRunning);
}

#[test]
fn stage_plan_is_vertex_then_fragment() {
    let plan = shader_stage_plan(17, 42);
    assert_eq!(
        plan,
        vec![
            ShaderStageDesc { stage: ShaderStage::Vertex, module: 17 },
            ShaderStageDesc { stage: ShaderStage::Fragment, module: 42 },
        ]
    );
}

#[test]
fn config_keeps_its_fields() {
    let config = AppConfig::new(String::from("05.Window Surface"), 800, 600, true);
    assert_eq!(config.window_title, "05.Window Surface");
    assert_eq!(config.window_width, 800);
    assert_eq!(config.window_height, 600);
    assert!(config.validation_enabled);
}

#[test]
fn validation_toggle_gates_layer_count() {
    let with_validation = AppConfig::new(String::from("t"), 1, 1, true);
    assert_eq!(with_validation.enabled_layer_count(1), 1);
    let without_validation = AppConfig::new(String::from("t"), 1, 1, false);
    assert_eq!(without_validation.enabled_layer_count(1), 0);
}
