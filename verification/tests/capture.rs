use uberdisplay_pc::capture::{
    bgra_to_nv12, capture_dimensions, capture_info_snapshot, capture_nv12, capture_order,
    capture_nv12_with_target, clamp_u8, context_created, dxgi_stats_snapshot, is_scaled,
    needs_init, output_matches, record_failure, update_capture_info, CaptureFailure, CapturePath,
    CaptureState,
};

fn reference(bgra: &[u8], width: usize, height: usize) -> Vec<u8> {
    let mut y_plane = vec![0u8; width * height];
    let mut uv_plane = vec![0u8; width * height / 2];
    for y in 0..height {
        for x in 0..width {
            let idx = (y * width + x) * 4;
            let b = bgra[idx] as i32;
            let g = bgra[idx + 1] as i32;
            let r = bgra[idx + 2] as i32;
            y_plane[y * width + x] = ((((66 * r + 129 * g + 25 * b + 128) >> 8) + 16).clamp(0, 255)) as u8;
        }
    }
    for y in (0..height).step_by(2) {
        for x in (0..width).step_by(2) {
            let mut u_sum = 0i32;
            let mut v_sum = 0i32;
            for dy in 0..2 {
                for dx in 0..2 {
                    let idx = ((y + dy) * width + (x + dx)) * 4;
                    let b = bgra[idx] as i32;
                    let g = bgra[idx + 1] as i32;
                    let r = bgra[idx + 2] as i32;
                    u_sum += ((-38 * r - 74 * g + 112 * b + 128) >> 8) + 128;
                    v_sum += ((112 * r - 94 * g - 18 * b + 128) >> 8) + 128;
                }
            }
            let uv_index = (y / 2) * width + x;
            uv_plane[uv_index] = (u_sum / 4).clamp(0, 255) as u8;
            uv_plane[uv_index + 1] = (v_sum / 4).clamp(0, 255) as u8;
        }
    }
    y_plane.extend_from_slice(&uv_plane);
    y_plane
}

fn noise(len: usize, seed: u32) -> Vec<u8> {
    let mut state = seed;
    (0..len)
        .map(|_| {
            state = state.wrapping_mul(1_664_525).wrapping_add(1_013_904_223);
            (state >> 24) as u8
        })
        .collect()
}

#[test]
fn clamping_keeps_bytes_in_range() {
    assert_eq!(clamp_u8(-1), 0);
    assert_eq!(clamp_u8(i32::MIN), 0);
    assert_eq!(clamp_u8(0), 0);
    assert_eq!(clamp_u8(17), 17);
    assert_eq!(clamp_u8(255), 255);
    assert_eq!(clamp_u8(256), 255);
    assert_eq!(clamp_u8(i32::MAX), 255);
}

#[test]
fn primary_colours_convert_to_their_known_values() {
    let red = [0u8, 0, 255, 255];
    let green = [0u8, 255, 0, 255];
    let blue = [255u8, 0, 0, 255];
    let white = [255u8, 255, 255, 255];
    let black = [0u8, 0, 0, 0];
    let four = |pixel: [u8; 4]| [pixel, pixel, pixel, pixel].concat();
    assert_eq!(bgra_to_nv12(&four(white), 2, 2), vec![235, 235, 235, 235, 128, 128]);
    assert_eq!(bgra_to_nv12(&four(black), 2, 2), vec![16, 16, 16, 16, 128, 128]);
    assert_eq!(bgra_to_nv12(&four(red), 2, 2), vec![82, 82, 82, 82, 90, 240]);
    assert_eq!(bgra_to_nv12(&four(green), 2, 2), vec![144, 144, 144, 144, 54, 34]);
    assert_eq!(bgra_to_nv12(&four(blue), 2, 2), vec![41, 41, 41, 41, 240, 110]);
    let mixed = [red, green, blue, white].concat();
    assert_eq!(bgra_to_nv12(&mixed, 2, 2), vec![82, 144, 41, 235, 128, 128]);
}

#[test]
fn conversion_agrees_with_the_shifting_formula() {
    for (width, height, seed) in [(2usize, 2usize, 1u32), (4, 2, 2), (2, 6, 3), (8, 4, 4), (16, 10, 5)] {
        let frame = noise(width * height * 4, seed);
        let converted = bgra_to_nv12(&frame, width as i32, height as i32);
        assert_eq!(converted.len(), width * height * 3 / 2);
        assert_eq!(converted, reference(&frame, width, height));
    }
}

#[test]
fn capture_dimensions_are_aligned() {
    assert_eq!(capture_dimensions(1921, 1081), (1920, 1080));
    assert_eq!(capture_dimensions(0, 3), (2, 2));
}

#[test]
fn a_context_is_needed_when_the_target_changes() {
    let mut state = CaptureState::new();
    let display = Some("DISPLAY1".to_string());
    assert!(needs_init(&state, 1920, 1080, &None));
    context_created(&mut state, 1920, 1080, &display);
    assert!(!needs_init(&state, 1920, 1080, &Some("DISPLAY1".to_string())));
    assert!(needs_init(&state, 1920, 1080, &None));
    assert!(needs_init(&state, 1920, 1080, &Some("DISPLAY2".to_string())));
    assert!(needs_init(&state, 1918, 1080, &display));
    assert!(needs_init(&state, 1920, 1078, &display));
}

#[test]
fn failures_are_counted_by_class() {
    let mut state = CaptureState::new();
    context_created(&mut state, 4, 4, &None);
    assert_eq!(record_failure(&mut state, CaptureFailure::Timeout), "DXGI capture timeout");
    assert_eq!(record_failure(&mut state, CaptureFailure::Timeout), "DXGI capture timeout");
    assert!(!needs_init(&state, 4, 4, &None));
    assert_eq!(dxgi_stats_snapshot(&state), Some((2, 0, 0, 0)));
    assert_eq!(record_failure(&mut state, CaptureFailure::AccessLost), "DXGI capture access lost");
    assert!(needs_init(&state, 4, 4, &None));
    assert_eq!(dxgi_stats_snapshot(&state), None);
    context_created(&mut state, 4, 4, &None);
    assert_eq!(dxgi_stats_snapshot(&state), Some((2, 1, 0, 0)));
    let message = record_failure(
        &mut state,
        CaptureFailure::Other("DXGI AcquireNextFrame failed: 0x887a0001".to_string()),
    );
    assert_eq!(message, "DXGI AcquireNextFrame failed: 0x887a0001");
    assert!(needs_init(&state, 4, 4, &None));
    context_created(&mut state, 4, 4, &None);
    assert_eq!(dxgi_stats_snapshot(&state), Some((2, 1, 1, 0)));
}

#[test]
fn failure_counters_stop_at_their_largest_value() {
    let mut state = CaptureState::new();
    state.timeouts = u32::MAX;
    state.access_lost = u32::MAX - 1;
    record_failure(&mut state, CaptureFailure::Timeout);
    record_failure(&mut state, CaptureFailure::AccessLost);
    record_failure(&mut state, CaptureFailure::AccessLost);
    assert_eq!(state.timeouts, u32::MAX);
    assert_eq!(state.access_lost, u32::MAX);
}

#[test]
fn labels_are_published() {
    let mut state = CaptureState::new();
    assert_eq!(capture_info_snapshot(&state), Some(("CPU".to_string(), "Scaled".to_string())));
    context_created(&mut state, 4, 4, &None);
    assert_eq!(capture_info_snapshot(&state), Some(("Unknown".to_string(), "Unknown".to_string())));
    update_capture_info(&mut state, "CPU", "1:1");
    assert_eq!(capture_info_snapshot(&state), Some(("CPU".to_string(), "1:1".to_string())));
}

#[test]
fn a_captured_frame_becomes_nv12() {
    let mut state = CaptureState::new();
    let frame = noise(4 * 2 * 4, 9);
    let target = Some("DISPLAY1".to_string());
    let result = capture_nv12_with_target(&mut state, 5, 3, &target, Ok(frame.clone()), CapturePath::Gpu, false);
    assert_eq!(result, Ok(reference(&frame, 4, 2)));
    assert!(!needs_init(&state, 4, 2, &target));
    assert_eq!(dxgi_stats_snapshot(&state), Some((0, 0, 0, 32)));
    assert_eq!(capture_info_snapshot(&state), Some(("GPU".to_string(), "1:1".to_string())));
    let scaled = capture_nv12(&mut state, 4, 2, Ok(frame.clone()), CapturePath::Cpu, true);
    assert_eq!(scaled, Ok(reference(&frame, 4, 2)));
    assert!(!needs_init(&state, 4, 2, &None));
    assert_eq!(capture_info_snapshot(&state), Some(("CPU".to_string(), "Scaled".to_string())));
}

#[test]
fn a_frame_of_the_wrong_size_is_a_failure() {
    let mut state = CaptureState::new();
    context_created(&mut state, 4, 2, &None);
    let result = capture_nv12(&mut state, 4, 2, Ok(vec![0u8; 31]), CapturePath::Gpu, false);
    assert_eq!(result, Err("Captured frame has an unexpected size".to_string()));
    assert!(needs_init(&state, 4, 2, &None));
    assert_eq!(state.frame_failures, 1);
    let empty = capture_nv12(&mut state, 0, 0, Ok(vec![]), CapturePath::Cpu, false);
    assert_eq!(empty, Err("Captured frame has an unexpected size".to_string()));
    assert_eq!(state.frame_failures, 2);
}

#[test]
fn a_failed_capture_hands_its_message_on() {
    let mut state = CaptureState::new();
    let result = capture_nv12(
        &mut state,
        4,
        2,
        Err("Capture not supported on this platform".to_string()),
        CapturePath::Cpu,
        false,
    );
    assert_eq!(result, Err("Capture not supported on this platform".to_string()));
    assert_eq!(state.frame_failures, 0);
    assert!(state.context.is_none());
}

#[test]
fn outputs_are_matched_by_name_in_any_case() {
    assert!(output_matches(None, "\\\\.\\DISPLAY1"));
    assert!(output_matches(None, ""));
    assert!(output_matches(Some("\\\\.\\display1"), "\\\\.\\DISPLAY1"));
    assert!(output_matches(Some("Display"), "dISPLAY"));
    assert!(!output_matches(Some("DISPLAY1"), "DISPLAY2"));
    assert!(!output_matches(Some("DISPLAY1"), "DISPLAY"));
    assert!(!output_matches(Some("ä"), "Ä"));
    assert!(output_matches(Some(""), ""));
}

#[test]
fn a_blit_scales_when_the_sizes_differ() {
    assert!(!is_scaled(1920, 1080, 1920, 1080));
    assert!(is_scaled(1920, 1080, 1280, 1080));
    assert!(is_scaled(1920, 1080, 1920, 720));
    assert!(is_scaled(2560, 1440, 1920, 1080));
}

#[test]
fn the_gpu_path_is_tried_first() {
    assert_eq!(capture_order(), vec![CapturePath::Gpu, CapturePath::Cpu]);
}
