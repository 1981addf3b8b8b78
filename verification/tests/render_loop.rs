use gl_triangle::render::{
    frame_commands, handle_window_event, os_close_requested, setup_commands, window_config,
    window_title, GlCommand, KeyAction, KeyCode, LoopState, WindowConfig, WindowEvent,
};
use gl_triangle::shader::LinkedProgram;

#[test]
fn escape_press_closes_within_one_event() {
    let mut state = LoopState::Running;
    handle_window_event(
        &mut state,
        WindowEvent::Key { key: KeyCode::Escape, action: KeyAction::Press },
    );
    assert_eq!(state, LoopState::Closing);
}

#[test]
fn no_other_event_closes_a_running_loop() {
    let stay_running = vec![
        WindowEvent::Key { key: KeyCode::Other, action: KeyAction::Press },
        WindowEvent::Key { key: KeyCode::Escape, action: KeyAction::Release },
        WindowEvent::Key { key: KeyCode::Escape, action: KeyAction::Repeat },
        WindowEvent::Key { key: KeyCode::Other, action: KeyAction::Release },
        WindowEvent::Other,
    ];
    for event in stay_running {
        let mut state = LoopState::Running;
        handle_window_event(&mut state, event);
        assert_eq!(state, LoopState::Running);
    }
}

#[test]
fn window_close_control_closes() {
    let mut state = LoopState::Running;
    os_close_requested(&mut state);
    assert_eq!(state, LoopState::Closing);
}

#[test]
fn both_close_paths_reach_the_same_terminal_state() {
    let mut by_escape = LoopState::Running;
    handle_window_event(
        &mut by_escape,
        WindowEvent::Key { key: KeyCode::Escape, action: KeyAction::Press },
    );
    let mut by_window_control = LoopState::Running;
    os_close_requested(&mut by_window_control);
    assert_eq!(by_escape, by_window_control);

    // The terminal state absorbs every further event: one exit, taken once.
    let further = vec![
        WindowEvent::Key { key: KeyCode::Escape, action: KeyAction::Press },
        WindowEvent::Key { key: KeyCode::Other, action: KeyAction::Press },
        WindowEvent::Other,
    ];
    for event in further {
        handle_window_event(&mut by_escape, event);
        assert_eq!(by_escape, LoopState::Closing);
    }
}

#[test]
fn each_frame_issues_exactly_one_draw_of_three_indices() {
    let frame = frame_commands();
    let draws: Vec<&GlCommand> = frame
        .iter()
        .filter(|c| matches!(c, GlCommand::DrawTriangles { .. }))
        .collect();
    assert_eq!(draws.len(), 1);
    assert_eq!(*draws[0], GlCommand::DrawTriangles { index_count: 3 });
}

#[test]
fn frame_order_is_clear_bind_draw_present() {
    let frame = frame_commands();
    assert_eq!(frame.len(), 4);
    assert!(matches!(frame[0], GlCommand::ClearFrame { .. }));
    assert_eq!(frame[1], GlCommand::BindVertexLayout);
    assert_eq!(frame[2], GlCommand::DrawTriangles { index_count: 3 });
    assert_eq!(frame[3], GlCommand::PresentFrame);
}

#[test]
fn clear_color_is_the_fixed_background() {
    let frame = frame_commands();
    match frame[0] {
        GlCommand::ClearFrame { red_bits, green_bits, blue_bits, alpha_bits } => {
            assert_eq!(f32::from_bits(red_bits), 0.1);
            assert_eq!(f32::from_bits(green_bits), 0.2);
            assert_eq!(f32::from_bits(blue_bits), 0.3);
            assert_eq!(f32::from_bits(alpha_bits), 1.0);
        }
        _ => panic!("the frame must start by clearing"),
    }
}

#[test]
fn frames_never_rewrite_the_vertex_buffer() {
    let frame = frame_commands();
    for c in &frame {
        assert!(!matches!(c, GlCommand::UploadVertexData));
        assert!(!matches!(c, GlCommand::UploadIndexData));
    }
}

#[test]
fn setup_uploads_each_buffer_exactly_once() {
    let setup = setup_commands(&LinkedProgram { id: 7 });
    let vertex_uploads =
        setup.iter().filter(|c| matches!(c, GlCommand::UploadVertexData)).count();
    let index_uploads =
        setup.iter().filter(|c| matches!(c, GlCommand::UploadIndexData)).count();
    assert_eq!(vertex_uploads, 1);
    assert_eq!(index_uploads, 1);
    assert_eq!(setup[0], GlCommand::UseProgram { program_id: 7 });
    assert_eq!(setup[4], GlCommand::DescribeAttribute { location: 0 });
    assert_eq!(setup[5], GlCommand::DescribeAttribute { location: 1 });
}

#[test]
fn window_is_fixed_size_with_fixed_title() {
    assert_eq!(window_config(), WindowConfig { width: 800, height: 600 });
    assert_eq!(window_title(), "[glad] Rust - OpenGL with GLFW");
}
