use rdpkit::avc::InclusiveRectangle;
use rdpkit::client::pacing::{plan_stage_outputs, DriverStep, FramePacer, StageOutput};
use rdpkit::client::gui::{LauncherOutcome, MstscGui, MstscTab};
use rdpkit::client::presentation::{pack_softbuffer_rgb, write_rgba_to_surface_words, SurfaceWriteError};
use rdpkit::client::profile::{ConnectionProfile, PerformancePreset, ProfileManager, RdpProperties, ResolutionPreset};
use rdpkit::client::session::{
    copy_rgba_frame, finish_frame_present, should_emit_latest_image, union_dirty_region,
    update_resize_reconnect_state, MAX_SAME_SIZE_RECONNECTS,
};
use rdpkit::client::title::{
    capitalize_first, connected_title, connecting_title, connection_failed_title, session_error_title,
    terminated_message, truncate_for_title,
};
use rdpkit::client::window_input::{
    ExitPolicy, KeyAction, KeyOperation, KeyboardState, EXIT_FAILURE, EXIT_OK, EXIT_PROTOCOL_ERR, SCANCODE_ENTER,
};
use rdpkit::client::version::display_version;
use rdpkit::client::session::{after_session, ClientNext, ClientStop, SessionEnd};

#[test]
fn capitalize_first_empty_string() {
    assert_eq!(capitalize_first(""), "");
}

#[test]
fn capitalize_first_already_capitalized() {
    assert_eq!(capitalize_first("Hello world"), "Hello world");
}

#[test]
fn capitalize_first_lowercase_ascii() {
    assert_eq!(capitalize_first("hello world"), "Hello world");
}

#[test]
fn capitalize_first_multibyte_char() {
    assert_eq!(capitalize_first("\u{e9}t\u{e9}"), "\u{c9}t\u{e9}");
}

#[test]
fn capitalize_first_expanding_mapping() {
    // 'ß' uppercases to two characters.
    assert_eq!(capitalize_first("\u{df}x"), "SSx");
}

#[test]
fn truncate_for_title_short_string_unchanged() {
    assert_eq!(truncate_for_title("hello", 10), "hello");
}

#[test]
fn truncate_for_title_exact_length_unchanged() {
    assert_eq!(truncate_for_title("hello", 5), "hello");
}

#[test]
fn truncate_for_title_long_string_truncated_with_ellipsis() {
    let result = truncate_for_title("abcdefghij", 5);
    assert_eq!(result, "abcde\u{2026}");
}

#[test]
fn truncate_for_title_multibyte_chars_respected() {
    let s = "\u{4e2d}\u{4e2d}\u{4e2d}\u{4e2d}";
    let result = truncate_for_title(s, 2);
    assert_eq!(result, "\u{4e2d}\u{4e2d}\u{2026}");
}

#[test]
fn truncate_for_title_zero_limit() {
    assert_eq!(truncate_for_title("abc", 0), "\u{2026}");
    assert_eq!(truncate_for_title("", 0), "");
}

#[test]
fn display_version_marks_dirty_builds() {
    assert_eq!(display_version("0.1.0", "false"), "0.1.0");
    assert_eq!(display_version("0.1.0-dev.87+cb0506a5", "true"), "0.1.0-dev.87+cb0506a5 (dirty)");
    assert_eq!(display_version("0.1.0", "TRUE"), "0.1.0");
}

#[test]
fn write_rgba_to_surface_words_converts_pixels_for_softbuffer() {
    let image = [
        0x11, 0x22, 0x33, 0xff, //
        0x44, 0x55, 0x66, 0x77,
    ];
    let mut surface = [0u32; 2];

    write_rgba_to_surface_words(&image, 2, 1, &mut surface).expect("write surface words");

    assert_eq!(surface, [0x0011_2233, 0x0044_5566]);
}

#[test]
fn write_rgba_to_surface_words_rejects_unaligned_input() {
    let image = [0x11, 0x22, 0x33];
    let mut surface = [0u32; 1];

    let error = write_rgba_to_surface_words(&image, 1, 1, &mut surface).expect_err("unaligned input should fail");

    assert!(error.message().contains("decoded image length is not divisible by four"));
}

#[test]
fn write_rgba_to_surface_words_rejects_dimension_mismatch() {
    let image = [
        0x11, 0x22, 0x33, 0xff, //
        0x44, 0x55, 0x66, 0x77,
    ];
    let mut surface = [0u32; 2];

    let error = write_rgba_to_surface_words(&image, 1, 1, &mut surface).expect_err("dimension mismatch should fail");

    assert!(error.message().contains("frame dimensions and pixel payload diverged"));
    assert_eq!(
        error.message(),
        "frame dimensions and pixel payload diverged: width=1, height=1, frame_pixels=2"
    );
}

#[test]
fn write_rgba_to_surface_words_rejects_surface_mismatch() {
    let image = [0u8; 8];
    let mut surface = [7u32; 3];
    let error = write_rgba_to_surface_words(&image, 2, 1, &mut surface).expect_err("surface mismatch should fail");
    assert_eq!(
        error,
        SurfaceWriteError::SurfaceMismatch { surface_pixels: 3, frame_pixels: 2 }
    );
    assert_eq!(error.message(), "surface and framebuffer sizes diverged: surface_pixels=3, frame_pixels=2");
    assert_eq!(surface, [7, 7, 7]);
}

#[test]
fn pack_softbuffer_rgb_uses_expected_channel_layout() {
    assert_eq!(pack_softbuffer_rgb(0x11, 0x22, 0x33), 0x0011_2233);
}

#[test]
fn write_rgba_to_surface_words_converts_full_8_pixel_chunk() {
    let image: [u8; 32] = [
        0x10, 0x20, 0x30, 0xff,
        0x11, 0x21, 0x31, 0x00,
        0x12, 0x22, 0x32, 0x80,
        0x13, 0x23, 0x33, 0xff,
        0x14, 0x24, 0x34, 0x01,
        0x15, 0x25, 0x35, 0xfe,
        0x16, 0x26, 0x36, 0x00,
        0x17, 0x27, 0x37, 0xff,
    ];
    let mut surface = [0u32; 8];

    write_rgba_to_surface_words(&image, 8, 1, &mut surface).expect("write surface words");

    assert_eq!(
        surface,
        [
            0x0010_2030,
            0x0011_2131,
            0x0012_2232,
            0x0013_2333,
            0x0014_2434,
            0x0015_2535,
            0x0016_2636,
            0x0017_2737,
        ]
    );
}

#[test]
fn write_rgba_to_surface_words_handles_chunk_with_tail() {
    let mut image = vec![0u8; 9 * 4];
    for (i, chunk) in image.chunks_exact_mut(4).enumerate() {
        let v = u8::try_from(i).expect("fits in u8");
        chunk[0] = v;
        chunk[1] = v.wrapping_add(0x10);
        chunk[2] = v.wrapping_add(0x20);
        chunk[3] = 0xff;
    }
    let mut surface = [0u32; 9];

    write_rgba_to_surface_words(&image, 9, 1, &mut surface).expect("write surface words");

    for (i, &word) in surface.iter().enumerate() {
        let v = u8::try_from(i).expect("fits in u8");
        let expected = pack_softbuffer_rgb(v, v.wrapping_add(0x10), v.wrapping_add(0x20));
        assert_eq!(word, expected, "pixel {i} mismatch");
    }
}

#[test]
fn test_profile_manager_add_and_remove() {
    let mut manager = ProfileManager::default();
    let initial_count = manager.profiles.len();

    let new_prof = ConnectionProfile::new("Custom Host", "192.168.1.50", 3389);
    let new_idx = manager.add_profile(new_prof);
    assert_eq!(manager.profiles.len(), initial_count + 1);
    assert_eq!(manager.active_profile().host, "192.168.1.50");

    manager.remove_profile(new_idx);
    assert_eq!(manager.profiles.len(), initial_count);
}

#[test]
fn remove_profile_keeps_last_profile_and_clamps_active() {
    let mut manager = ProfileManager { active_index: 0, profiles: vec![ConnectionProfile::new("a", "h", 1)] };
    manager.remove_profile(0);
    assert_eq!(manager.profiles.len(), 1);
    manager.add_profile(ConnectionProfile::new("b", "h2", 2));
    assert_eq!(manager.active_index, 1);
    manager.remove_profile(0);
    assert_eq!(manager.profiles.len(), 1);
    assert_eq!(manager.active_index, 0);
    assert_eq!(manager.active_profile().name, "b");
    manager.remove_profile(5);
    assert_eq!(manager.profiles.len(), 1);
}

#[test]
fn active_profile_falls_back_to_first() {
    let mut manager = ProfileManager::default();
    manager.active_index = 42;
    assert_eq!(manager.active_profile().name, "spark-0060 (ARM64 Spark)");
    manager.active_profile_mut().port = 1;
    assert_eq!(manager.profiles[0].port, 1);
}

#[test]
fn default_profile_settings() {
    let p = ConnectionProfile::default();
    assert_eq!(p.name, "Default Connection");
    assert_eq!(p.host, "100.64.0.4");
    assert_eq!(p.port, 33898);
    assert_eq!((p.desktop_width, p.desktop_height, p.color_depth), (1920, 1080, 32));
    assert!(p.redirect_clipboard && p.compression_enabled);
}

#[test]
fn rdp_file_export_lists_every_setting() {
    let mut p = ConnectionProfile::new("x", "100.64.0.4", 33898);
    p.desktop_width = 2560;
    p.desktop_height = 1440;
    p.redirect_clipboard = false;
    let exported = p.to_rdp_file();
    assert_eq!(
        exported,
        "full address:s:100.64.0.4:33898\nusername:s:damartel\ndesktopwidth:i:2560\ndesktopheight:i:1440\n\
         session bpp:i:32\nredirectclipboard:i:0\naudiomode:i:0\nnetworklevelauthentication:i:1\ncompression:i:1\n"
    );
}

#[test]
fn launcher_shows_and_edits_the_active_profile() {
    let gui = MstscGui::new(ProfileManager::default());
    assert_eq!(gui.custom_host_input, "100.64.0.4:33898");
    assert_eq!(gui.custom_username_input, "damartel");
    assert_eq!(gui.active_tab, MstscTab::General);
    assert!(matches!(gui.outcome, LauncherOutcome::Undecided));
    assert_eq!(gui.status_message, "Ready to connect");

    let mut gui = gui;
    gui.custom_host_input = "10.1.2.3:4000".to_string();
    gui.custom_username_input = "bob".to_string();
    gui.sync_active_profile_from_inputs();
    let p = gui.profile_manager.active_profile();
    assert_eq!((p.host.as_str(), p.port, p.username.as_str()), ("10.1.2.3", 4000, "bob"));

    gui.custom_host_input = "server:notaport".to_string();
    gui.sync_active_profile_from_inputs();
    let p = gui.profile_manager.active_profile();
    assert_eq!((p.host.as_str(), p.port), ("server", 4000));

    gui.custom_host_input = "plainhost".to_string();
    gui.sync_active_profile_from_inputs();
    assert_eq!(gui.profile_manager.active_profile().host, "plainhost");

    gui.custom_host_input = String::new();
    gui.sync_inputs_from_active_profile();
    assert_eq!(gui.custom_host_input, "plainhost:4000");
}

#[test]
fn dirty_frame_is_re_emitted_only_after_present_ack() {
    let mut frame_in_flight = false;
    let mut latest_frame_dirty = false;

    assert!(should_emit_latest_image(frame_in_flight, &mut latest_frame_dirty));
    frame_in_flight = true;
    latest_frame_dirty = false;

    assert!(!should_emit_latest_image(frame_in_flight, &mut latest_frame_dirty));
    assert!(latest_frame_dirty);
    assert!(frame_in_flight);

    assert!(finish_frame_present(&mut frame_in_flight, &mut latest_frame_dirty));
    assert!(!frame_in_flight);
    assert!(!latest_frame_dirty);
}

#[test]
fn copy_rgba_frame_preserves_rgba_bytes() {
    let image = [
        0x11, 0x22, 0x33, 0xff, //
        0x44, 0x55, 0x66, 0x77,
    ];
    let mut buffer = Vec::new();

    let partial = copy_rgba_frame(&image, &mut buffer, 2, None).expect("copy frame");

    assert!(!partial);
    assert_eq!(buffer, image);
}

#[test]
fn copy_rgba_frame_reuses_existing_capacity() {
    let image = [
        0x01, 0x02, 0x03, 0xff, //
        0x04, 0x05, 0x06, 0xff,
    ];
    let mut buffer = Vec::with_capacity(8);
    let initial_capacity = buffer.capacity();

    let partial = copy_rgba_frame(&image, &mut buffer, 2, None).expect("copy frame");

    assert!(!partial);
    assert_eq!(buffer.len(), image.len());
    assert_eq!(buffer.capacity(), initial_capacity);
}

#[test]
fn copy_rgba_frame_partial_updates_only_dirty_rows() {
    let old_row0 = [0x00u8; 16];
    let new_row0 = [0xAAu8; 16];
    let old_row1 = [0xFFu8; 16];
    let new_row1 = [0xFFu8; 16];

    let mut image = [0u8; 32];
    image[..16].copy_from_slice(&new_row0);
    image[16..].copy_from_slice(&new_row1);

    let mut buffer = Vec::with_capacity(32);
    buffer.extend_from_slice(&old_row0);
    buffer.extend_from_slice(&old_row1);

    let dirty = InclusiveRectangle { left: 0, top: 0, right: 3, bottom: 0 };

    let partial = copy_rgba_frame(&image, &mut buffer, 4, Some(&dirty)).expect("partial copy");

    assert!(partial, "expected a partial copy");
    assert_eq!(&buffer[..16], &new_row0);
    assert_eq!(&buffer[16..], &old_row1);
}

#[test]
fn copy_rgba_frame_partial_falls_back_when_buffer_empty() {
    let image = [0xBBu8; 16];
    let mut buffer = Vec::new();

    let dirty = InclusiveRectangle { left: 0, top: 0, right: 3, bottom: 0 };

    let partial = copy_rgba_frame(&image, &mut buffer, 4, Some(&dirty)).expect("copy with empty buffer");

    assert!(!partial, "must fall back to full copy when buffer is empty");
    assert_eq!(buffer, image.as_ref());
}

#[test]
fn copy_rgba_frame_rejects_unaligned_and_clamps_bottom() {
    let mut buffer = vec![1u8; 3];
    assert!(copy_rgba_frame(&[0u8; 3], &mut buffer, 1, None).is_err());
    assert_eq!(buffer, vec![1u8; 3]);

    // Rows 1..=9 requested on a 2-row image: only row 1 is copied.
    let image = [5u8; 16];
    let mut buffer = vec![0u8; 16];
    let dirty = InclusiveRectangle { left: 0, top: 1, right: 1, bottom: 9 };
    assert!(copy_rgba_frame(&image, &mut buffer, 2, Some(&dirty)).expect("partial"));
    assert_eq!(&buffer[..8], &[0u8; 8]);
    assert_eq!(&buffer[8..], &[5u8; 8]);
}

#[test]
fn union_dirty_region_starts_from_none() {
    let mut acc: Option<InclusiveRectangle> = None;
    let rect = InclusiveRectangle { left: 10, top: 20, right: 30, bottom: 40 };
    union_dirty_region(&mut acc, rect);
    assert_eq!(acc, Some(rect));
}

#[test]
fn union_dirty_region_expands_bounding_box() {
    let mut acc = Some(InclusiveRectangle { left: 10, top: 20, right: 30, bottom: 40 });
    union_dirty_region(&mut acc, InclusiveRectangle { left: 5, top: 25, right: 50, bottom: 35 });
    assert_eq!(acc, Some(InclusiveRectangle { left: 5, top: 20, right: 50, bottom: 40 }));
}

#[test]
fn resize_reconnect_resets_counter_when_size_changes() {
    let counter = update_resize_reconnect_state(1024, 768, 1600, 900, MAX_SAME_SIZE_RECONNECTS)
        .expect("size change should be accepted");

    assert_eq!(counter, 0);
}

#[test]
fn resize_reconnect_counts_unchanged_size_retries() {
    let counter = update_resize_reconnect_state(1024, 768, 1024, 768, 1).expect("same size retry should be tracked");

    assert_eq!(counter, 2);
}

#[test]
fn resize_reconnect_rejects_excessive_unchanged_size_retries() {
    let error = update_resize_reconnect_state(1024, 768, 1024, 768, MAX_SAME_SIZE_RECONNECTS)
        .expect_err("same size retry limit should be enforced");

    assert!(error.message().contains("too many resize reconnects without a desktop size change"));
}

use rdpkit::client::framebuffer::{unicode_text_operations, FrameBufferState, Operation};

#[test]
fn unicode_text_operations_emit_press_and_release_pairs() {
    let operations = unicode_text_operations("A\u{1f642}\n");

    assert_eq!(operations.len(), 4);
    assert!(matches!(operations[0], Operation::UnicodeKeyPressed('A')));
    assert!(matches!(operations[1], Operation::UnicodeKeyReleased('A')));
    assert!(matches!(operations[2], Operation::UnicodeKeyPressed('\u{1f642}')));
    assert!(matches!(operations[3], Operation::UnicodeKeyReleased('\u{1f642}')));
}

#[test]
fn unicode_text_operations_ignore_control_characters() {
    let operations = unicode_text_operations("\r\n\t");

    assert!(operations.is_empty());
}

#[test]
fn unicode_text_operations_ignore_c1_controls_only() {
    let operations = unicode_text_operations("\u{7f}\u{85}\u{a0}");
    assert_eq!(operations, vec![Operation::UnicodeKeyPressed('\u{a0}'), Operation::UnicodeKeyReleased('\u{a0}')]);
}

#[test]
fn queue_image_buffer_only_counts_pending_frames_as_overwritten() {
    let mut app = FrameBufferState::new();

    let recycled = app.queue_image_buffer(vec![0; 16], 640, 480);
    assert!(recycled.is_none());
    assert!(app.frame_pending_present);

    let recycled = app.queue_image_buffer(vec![1; 16], 640, 480).expect("existing frame should be recycled");
    assert!(recycled.1, "replacing a pending frame should be marked as overwritten");
    assert!(app.frame_pending_present);

    app.frame_pending_present = false;

    let recycled = app.queue_image_buffer(vec![2; 16], 640, 480).expect("existing frame should be recycled");
    assert!(!recycled.1, "replacing an already presented frame should not be marked as overwritten");
    assert!(app.frame_pending_present);
}

#[test]
fn blit_image_region_places_offset_subrect_and_leaves_rest_black() {
    let mut app = FrameBufferState::new();

    let (surface_w, surface_h) = (10u16, 8u16);
    let (x, y, w, h) = (3u16, 2u16, 4u16, 3u16);

    let region = vec![0x11u8; usize::from(w) * usize::from(h) * 4];
    app.blit_image_region(&region, x, y, w, h, surface_w, surface_h);

    assert_eq!(app.buffer_size, (surface_w, surface_h));
    assert_eq!(app.buffer.len(), usize::from(surface_w) * usize::from(surface_h) * 4);
    assert!(app.frame_pending_present);

    for py in 0..surface_h {
        for px in 0..surface_w {
            let i = (usize::from(py) * usize::from(surface_w) + usize::from(px)) * 4;
            let inside = px >= x && px < x + w && py >= y && py < y + h;
            if inside {
                assert_eq!(&app.buffer[i..i + 4], &[0x11, 0x11, 0x11, 0x11], "region ({px},{py})");
            } else {
                assert_eq!(&app.buffer[i..i + 4], &[0, 0, 0, 0xFF], "black ({px},{py})");
            }
        }
    }
}

#[test]
fn blit_image_region_clips_out_of_bounds_region() {
    let mut app = FrameBufferState::new();

    let (surface_w, surface_h) = (8u16, 8u16);
    let (x, y, w, h) = (6u16, 6u16, 5u16, 5u16);
    let region = vec![0x22u8; usize::from(w) * usize::from(h) * 4];

    app.blit_image_region(&region, x, y, w, h, surface_w, surface_h);

    for py in 0..surface_h {
        for px in 0..surface_w {
            let i = (usize::from(py) * usize::from(surface_w) + usize::from(px)) * 4;
            let inside = px >= x && py >= y;
            if inside {
                assert_eq!(&app.buffer[i..i + 4], &[0x22, 0x22, 0x22, 0x22], "corner ({px},{py})");
            } else {
                assert_eq!(&app.buffer[i..i + 4], &[0, 0, 0, 0xFF], "black ({px},{py})");
            }
        }
    }
}

#[test]
fn blit_image_region_preserves_unchanged_pixels_of_prior_frame() {
    let mut app = FrameBufferState::new();

    let (surface_w, surface_h) = (6u16, 6u16);
    app.queue_image_buffer(vec![0x55u8; usize::from(surface_w) * usize::from(surface_h) * 4], surface_w, surface_h);

    let (x, y, w, h) = (1u16, 1u16, 2u16, 2u16);
    let region = vec![0x99u8; usize::from(w) * usize::from(h) * 4];
    app.blit_image_region(&region, x, y, w, h, surface_w, surface_h);

    for py in 0..surface_h {
        for px in 0..surface_w {
            let i = (usize::from(py) * usize::from(surface_w) + usize::from(px)) * 4;
            let inside = px >= x && px < x + w && py >= y && py < y + h;
            let expected = if inside { 0x99 } else { 0x55 };
            assert!(app.buffer[i..i + 4].iter().all(|&b| b == expected), "pixel ({px},{py}) expected {expected:#x}");
        }
    }
}

#[test]
fn blit_image_region_outside_surface_only_reallocates() {
    let mut app = FrameBufferState::new();
    app.blit_image_region(&[1u8; 4], 9, 0, 1, 1, 4, 4);
    assert_eq!(app.buffer.len(), 64);
    assert!(!app.frame_pending_present);
    app.blit_image_region(&[1u8; 4], 0, 0, 1, 1, 0, 4);
    assert_eq!(app.buffer.len(), 64);
}

fn rect(left: u16, top: u16, right: u16, bottom: u16) -> InclusiveRectangle {
    InclusiveRectangle { left, top, right, bottom }
}

#[test]
fn pacer_sends_first_frame_with_coalesced_region() {
    let mut pacer = FramePacer::new();
    pacer.record_update(rect(10, 10, 20, 20));
    pacer.record_update(rect(5, 15, 12, 40));
    assert_eq!(pacer.begin_emit(), Some(Some(rect(5, 10, 20, 40))));
    assert!(pacer.frame_in_flight);
    assert_eq!(pacer.dirty_region, None);
    assert_eq!(pacer.emitted_frame_count, 1);
}

#[test]
fn pacer_holds_frame_until_ack_and_timer() {
    let mut pacer = FramePacer::new();
    assert_eq!(pacer.begin_emit(), Some(None));
    pacer.record_update(rect(1, 2, 3, 4));
    assert_eq!(pacer.begin_emit(), None);
    assert!(pacer.latest_frame_dirty);
    assert!(pacer.frame_presented());
    assert!(pacer.pacing_armed);
    pacer.pacing_fired();
    assert_eq!(pacer.begin_emit(), Some(Some(rect(1, 2, 3, 4))));
    assert_eq!(pacer.emitted_frame_count, 2);
}

#[test]
fn pacer_ack_without_dirty_frame_arms_nothing() {
    let mut pacer = FramePacer::new();
    assert_eq!(pacer.begin_emit(), Some(None));
    assert!(!pacer.frame_presented());
    assert!(!pacer.pacing_armed);
    assert!(!pacer.frame_in_flight);
}

#[test]
fn pacer_reset_region_forces_full_copy() {
    let mut pacer = FramePacer::new();
    pacer.record_update(rect(1, 1, 2, 2));
    pacer.reset_region();
    assert_eq!(pacer.begin_emit(), Some(None));
}

#[test]
fn stage_outputs_coalesce_updates_before_other_outputs() {
    let outputs = vec![
        StageOutput::GraphicsUpdate(rect(0, 0, 1, 1)),
        StageOutput::GraphicsUpdate(rect(2, 2, 3, 3)),
        StageOutput::Other("pointer"),
        StageOutput::Other("response"),
        StageOutput::GraphicsUpdate(rect(4, 4, 5, 5)),
    ];
    let steps = plan_stage_outputs(outputs);
    assert_eq!(steps.len(), 7);
    assert!(matches!(steps[0], DriverStep::RecordUpdate(r) if r == rect(0, 0, 1, 1)));
    assert!(matches!(steps[1], DriverStep::RecordUpdate(_)));
    assert!(matches!(steps[2], DriverStep::QueueImage));
    assert!(matches!(steps[3], DriverStep::Handle("pointer")));
    assert!(matches!(steps[4], DriverStep::Handle("response")));
    assert!(matches!(steps[5], DriverStep::RecordUpdate(_)));
    assert!(matches!(steps[6], DriverStep::QueueImage));
    assert!(plan_stage_outputs::<u8>(Vec::new()).is_empty());
}

#[test]
fn after_session_reconnects_with_new_size_and_resets_count() {
    let next = after_session::<(), ()>(1024, 768, 2, SessionEnd::ReconnectWithNewSize { width: 1280, height: 720 });
    assert!(matches!(next, ClientNext::Reconnect { width: 1280, height: 720, same_size_reconnects: 0 }));
}

#[test]
fn after_session_stops_after_three_same_size_reconnects() {
    let mut count = 0u8;
    for expected in 1..=3u8 {
        match after_session::<(), ()>(800, 600, count, SessionEnd::ReconnectWithNewSize { width: 800, height: 600 }) {
            ClientNext::Reconnect { same_size_reconnects, .. } => {
                assert_eq!(same_size_reconnects, expected);
                count = same_size_reconnects;
            }
            ClientNext::Stop(_) => panic!("stopped too early"),
        }
    }
    let next = after_session::<(), ()>(800, 600, count, SessionEnd::ReconnectWithNewSize { width: 800, height: 600 });
    assert!(matches!(next, ClientNext::Stop(ClientStop::TooManyResizeReconnects(_))));
}

#[test]
fn after_session_stops_on_termination_or_failure() {
    assert!(matches!(
        after_session::<u8, &str>(1, 1, 0, SessionEnd::TerminatedGracefully(7)),
        ClientNext::Stop(ClientStop::Graceful(7))
    ));
    assert!(matches!(
        after_session::<u8, &str>(1, 1, 0, SessionEnd::Failed("io")),
        ClientNext::Stop(ClientStop::Failed("io"))
    ));
}

#[test]
fn launcher_connect_writes_inputs_and_returns_profile() {
    let mut gui = MstscGui::new(ProfileManager::default());
    gui.custom_host_input = "10.1.2.3:4000".to_owned();
    gui.custom_username_input = "alice".to_owned();
    gui.press_connect();
    match &gui.outcome {
        LauncherOutcome::Connect(p) => {
            assert_eq!(p.host, "10.1.2.3");
            assert_eq!(p.port, 4000);
            assert_eq!(p.username, "alice");
            assert_eq!(p.name, "spark-0060 (ARM64 Spark)");
        }
        _ => panic!("expected connect"),
    }
    assert_eq!(gui.profile_manager.active_profile().host, "10.1.2.3");
}

#[test]
fn launcher_buttons() {
    let mut gui = MstscGui::new(ProfileManager::default());
    gui.press_help();
    assert_eq!(gui.status_message, "Help: Enter host:port and click Connect");
    assert!(gui.show_options);
    gui.toggle_options();
    assert!(!gui.show_options);
    gui.press_cancel();
    assert!(matches!(gui.outcome, LauncherOutcome::Cancel));
}

#[test]
fn launcher_select_and_add_profiles() {
    let mut gui = MstscGui::new(ProfileManager::default());
    gui.select_profile(2);
    assert_eq!(gui.profile_manager.active_index, 2);
    assert_eq!(gui.custom_host_input, "100.64.0.1:3389");
    gui.add_new_profile();
    assert_eq!(gui.profile_manager.profiles.len(), 5);
    assert_eq!(gui.profile_manager.active_index, 4);
    assert_eq!(gui.profile_manager.profiles[4].name, "Custom Host");
    assert_eq!(gui.custom_host_input, "127.0.0.1:33890");
}

#[test]
fn ctrl_alt_enter_toggles_fullscreen_without_forwarding() {
    let mut k = KeyboardState::new();
    assert_eq!(k.on_modifiers_changed(false, true, true, false).map(|v| v.len()), Some(4));
    assert_eq!(k.on_keyboard_input(true, Some(SCANCODE_ENTER)), KeyAction::SetFullscreen(true));
    assert!(k.is_fullscreen);
    assert_eq!(k.on_keyboard_input(true, Some(SCANCODE_ENTER)), KeyAction::SetFullscreen(false));
    assert!(!k.is_fullscreen);
    assert_eq!(
        k.on_keyboard_input(false, Some(SCANCODE_ENTER)),
        KeyAction::Forward { scancode: 0x1C, pressed: false }
    );
}

#[test]
fn keys_are_forwarded_unless_composing() {
    let mut k = KeyboardState::new();
    assert_eq!(k.on_keyboard_input(true, Some(0x1E)), KeyAction::Forward { scancode: 0x1E, pressed: true });
    assert_eq!(k.on_keyboard_input(true, None), KeyAction::Ignore);
    assert_eq!(k.on_keyboard_input(true, Some(0x1_0000)), KeyAction::Unsupported(0x1_0000));
    k.on_ime_preedit(false);
    assert!(k.ime_preedit_active);
    assert_eq!(k.on_keyboard_input(true, Some(0x1E)), KeyAction::Ignore);
    assert_eq!(k.on_modifiers_changed(true, false, false, false), None);
    let ops = k.on_ime_commit("h\u{7}i");
    assert!(!k.ime_preedit_active);
    assert_eq!(ops.len(), 4);
    k.on_ime_preedit(false);
    k.on_ime_disabled();
    assert!(!k.ime_preedit_active);
}

#[test]
fn modifier_change_sends_left_modifier_keys() {
    let mut k = KeyboardState::new();
    let ops = k.on_modifiers_changed(true, false, true, true).expect("not composing");
    assert_eq!(
        ops,
        vec![
            KeyOperation { extended: false, code: 0x2A, pressed: true },
            KeyOperation { extended: false, code: 0x1D, pressed: false },
            KeyOperation { extended: false, code: 0x38, pressed: true },
            KeyOperation { extended: true, code: 0x5B, pressed: true },
        ]
    );
    assert!(!k.ctrl_pressed);
    assert!(k.alt_pressed);
}

#[test]
fn exit_codes_follow_what_happened() {
    let mut policy = ExitPolicy::new();
    assert_eq!(policy.on_close_requested(false), None);
    assert_eq!(policy.on_close_requested(true), Some(EXIT_FAILURE));
    assert_eq!(policy.on_session_error("worker: GUI stopped unexpectedly"), Some(EXIT_OK));
    assert_eq!(policy.pending_close_code, None);
    assert_eq!(policy.on_session_error("broken pipe"), None);
    assert_eq!(policy.on_close_requested(true), Some(EXIT_PROTOCOL_ERR));
    let mut policy = ExitPolicy::new();
    policy.on_connection_failure();
    assert_eq!(policy.on_close_requested(true), Some(76));
}

#[test]
fn window_titles() {
    assert_eq!(connecting_title("srv"), "IronRDP \u{2014} Connecting to srv...");
    assert_eq!(connected_title("srv"), "IronRDP \u{2014} srv");
    let long = "x".repeat(120);
    let t = connection_failed_title(&long);
    assert_eq!(t, format!("IronRDP \u{2014} Connection failed: {}\u{2026}", "x".repeat(100)));
    assert_eq!(session_error_title("eof"), "IronRDP \u{2014} Session error: eof");
    assert_eq!(terminated_message("user requested"), "Terminated gracefully: user requested");
}

#[test]
fn presenting_clears_pending_frame() {
    let mut fb = FrameBufferState::new();
    assert!(!fb.mark_presented());
    let _ = fb.queue_image_buffer(vec![0; 4], 1, 1);
    assert!(fb.mark_presented());
    assert!(!fb.frame_pending_present);
    assert!(!fb.mark_presented());
}

#[test]
fn profile_connector_settings() {
    let mut p = ConnectionProfile::new("n", "h", 1);
    let s = p.connector_settings();
    assert_eq!(s.username, "damartel");
    assert_eq!((s.desktop_width, s.desktop_height), (1920, 1080));
    assert!(!s.enable_graphics_pipeline);
    assert!(s.enable_audio_playback);
    assert!(s.compression_rdp61);
    assert!(s.domain.is_none());
    p.audio_mode = 2;
    p.compression_enabled = false;
    p.egfx_enabled = true;
    p.domain = Some("corp".to_owned());
    let s = p.connector_settings();
    assert!(!s.enable_audio_playback);
    assert!(!s.compression_rdp61);
    assert!(s.enable_graphics_pipeline);
    assert_eq!(s.domain.as_deref(), Some("corp"));
}

#[test]
fn launcher_presets() {
    let mut p = ConnectionProfile::new("n", "h", 1);
    p.apply_resolution_preset(ResolutionPreset::Qhd);
    assert_eq!((p.desktop_width, p.desktop_height), (2560, 1440));
    p.apply_resolution_preset(ResolutionPreset::Uhd4k);
    assert_eq!((p.desktop_width, p.desktop_height), (3840, 2160));
    p.apply_resolution_preset(ResolutionPreset::FullHd);
    assert_eq!((p.desktop_width, p.desktop_height), (1920, 1080));
    p.compression_level = 1;
    p.apply_performance_preset(PerformancePreset::Lan10G);
    assert!(p.egfx_enabled && p.avc444_enabled && p.compression_enabled);
    assert_eq!(p.compression_level, 3);
    p.apply_performance_preset(PerformancePreset::TailscaleWan);
    assert!(!p.egfx_enabled);
    assert!(p.avc444_enabled);
    assert_eq!(p.compression_level, 3);
}

#[test]
fn rdp_properties_import_into_a_profile() {
    let props = RdpProperties {
        full_address: Some("rdp.example.com:3390".to_string()),
        username: Some("alice".to_string()),
        desktop_width: Some(1280),
        desktop_height: Some(70000),
        session_bpp: Some(24),
        redirect_clipboard: Some(0),
        audio_mode: Some(2),
    };
    let p = ConnectionProfile::from_rdp_properties(&props);
    assert_eq!(p.host, "rdp.example.com");
    assert_eq!(p.port, 3390);
    assert_eq!(p.username, "alice");
    assert_eq!((p.desktop_width, p.desktop_height), (1280, 4464));
    assert_eq!(p.color_depth, 24);
    assert!(!p.redirect_clipboard);
    assert_eq!(p.audio_mode, 2);
    assert_eq!(p.name, "Imported (rdp.example.com)");
}

#[test]
fn rdp_import_keeps_defaults_for_what_is_absent() {
    let none = RdpProperties {
        full_address: Some("10.0.0.1:port".to_string()),
        username: None,
        desktop_width: None,
        desktop_height: None,
        session_bpp: None,
        redirect_clipboard: None,
        audio_mode: None,
    };
    let p = ConnectionProfile::from_rdp_properties(&none);
    assert_eq!((p.host.as_str(), p.port), ("10.0.0.1", 33898));
    assert_eq!(p.name, "Imported (10.0.0.1)");
    let d = ConnectionProfile::default();
    assert_eq!((p.username, p.desktop_width, p.desktop_height), (d.username, d.desktop_width, d.desktop_height));
    let bare = RdpProperties { full_address: Some("server".to_string()), ..none };
    let p = ConnectionProfile::from_rdp_properties(&bare);
    assert_eq!((p.host.as_str(), p.port), ("server", 33898));
}
