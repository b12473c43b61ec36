use render_core::color::Rgba;
use render_core::config::ConfigInfo;
use render_core::device::{FrameCommands, InitError, InitReport, Renderer};
use render_core::surface::{CreateError, PresentationSurface};

fn good_report() -> InitReport {
    InitReport {
        vertex_compiled: true,
        vertex_log: String::new(),
        fragment_compiled: true,
        fragment_log: String::new(),
        linked: true,
        link_log: String::new(),
        program: 7,
        vao: 11,
        vbo: 13,
    }
}

fn some_config() -> Vec<ConfigInfo> {
    vec![ConfigInfo {
        supports_transparency: true,
        num_samples: 0,
    }]
}

#[test]
fn device_new_succeeds_with_clean_report() {
    let d = Renderer::new(good_report(), 800, 600).unwrap();
    assert!(d.alive);
    assert_eq!(d.program, 7);
    assert_eq!(d.vao, 11);
    assert_eq!(d.vbo, 13);
    assert_eq!(d.viewport_width, 800);
    assert_eq!(d.viewport_height, 600);
    assert_eq!(d.geometry, vec![-500, -500, 0, 500, -500, 0, 0, 500, 0]);
}

#[test]
fn device_new_reports_vertex_shader_failure() {
    let report = InitReport {
        vertex_compiled: false,
        vertex_log: String::from("0:1 syntax error"),
        ..good_report()
    };
    let e = Renderer::new(report, 800, 600).unwrap_err();
    assert_eq!(
        e,
        InitError::VertexShaderFailed(String::from("0:1 syntax error"))
    );
}

#[test]
fn device_new_reports_fragment_shader_failure() {
    let report = InitReport {
        fragment_compiled: false,
        fragment_log: String::from("bad fragment"),
        ..good_report()
    };
    let e = Renderer::new(report, 800, 600).unwrap_err();
    assert_eq!(
        e,
        InitError::FragmentShaderFailed(String::from("bad fragment"))
    );
}

#[test]
fn device_new_reports_link_failure() {
    let report = InitReport {
        linked: false,
        link_log: String::from("unresolved varying"),
        ..good_report()
    };
    let e = Renderer::new(report, 800, 600).unwrap_err();
    assert_eq!(e, InitError::LinkFailed(String::from("unresolved varying")));
}

#[test]
fn draw_submits_default_clear_and_one_triangle() {
    let d = Renderer::new(good_report(), 800, 600).unwrap();
    let frame = d.draw();
    assert_eq!(
        frame,
        FrameCommands {
            program: 7,
            vao: 11,
            vbo: 13,
            clear: Rgba {
                red: 100,
                green: 100,
                blue: 100,
                alpha: 900
            },
            viewport_width: 800,
            viewport_height: 600,
            first_vertex: 0,
            vertex_count: 3,
        }
    );
}

#[test]
fn draw_with_clear_color_uses_the_given_colour() {
    let d = Renderer::new(good_report(), 320, 200).unwrap();
    let frame = d.draw_with_clear_color(0, 1000, 250, 500);
    assert_eq!(
        frame.clear,
        Rgba {
            red: 0,
            green: 1000,
            blue: 250,
            alpha: 500
        }
    );
    assert_eq!(frame.vertex_count, 3);
    assert_eq!(frame.first_vertex, 0);
}

#[test]
fn device_resize_updates_viewport_only() {
    let mut d = Renderer::new(good_report(), 800, 600).unwrap();
    d.resize(1024, 768);
    assert_eq!(d.viewport_width, 1024);
    assert_eq!(d.viewport_height, 768);
    assert_eq!(d.program, 7);
    assert!(d.alive);
}

#[test]
fn shutdown_invalidates_handles() {
    let mut d = Renderer::new(good_report(), 800, 600).unwrap();
    d.shutdown();
    assert!(!d.alive);
    assert_eq!(d.program, 0);
    assert_eq!(d.vao, 0);
    assert_eq!(d.vbo, 0);
}

#[test]
fn surface_create_rejects_zero_width() {
    let r = PresentationSurface::create(0, 600, &some_config());
    assert_eq!(r.unwrap_err(), CreateError::ZeroSize);
}

#[test]
fn surface_create_rejects_zero_height() {
    let r = PresentationSurface::create(800, 0, &some_config());
    assert_eq!(r.unwrap_err(), CreateError::ZeroSize);
}

#[test]
fn surface_create_rejects_empty_configs() {
    let r = PresentationSurface::create(800, 600, &Vec::new());
    assert_eq!(r.unwrap_err(), CreateError::NoCompatibleConfig);
}

#[test]
fn surface_create_starts_at_window_size() {
    let (s, idx) = PresentationSurface::create(800, 600, &some_config()).unwrap();
    assert_eq!(idx, 0);
    assert_eq!(
        s,
        PresentationSurface {
            width: 800,
            height: 600,
            swap_interval: 0,
            context_alive: true,
            current: false,
            frames_presented: 0,
        }
    );
}

#[test]
fn make_current_binds_the_context() {
    let (mut s, _) = PresentationSurface::create(800, 600, &some_config()).unwrap();
    assert!(!s.current);
    s.make_current();
    assert!(s.current);
    assert_eq!(s.width, 800);
    assert_eq!(s.height, 600);
}

#[test]
fn surface_zero_resize_is_filtered() {
    let (mut s, _) = PresentationSurface::create(800, 600, &some_config()).unwrap();
    s.make_current();
    let before = s;
    s.resize(0, 480);
    assert_eq!(s, before);
    s.resize(640, 0);
    assert_eq!(s, before);
}

#[test]
fn surface_identical_resize_is_idempotent() {
    let (mut once, _) = PresentationSurface::create(800, 600, &some_config()).unwrap();
    once.make_current();
    once.resize(640, 480);
    let mut twice = once;
    twice.resize(640, 480);
    assert_eq!(twice, once);
}

#[test]
fn present_counts_frames() {
    let (mut s, _) = PresentationSurface::create(800, 600, &some_config()).unwrap();
    s.make_current();
    s.present();
    s.present();
    assert_eq!(s.frames_presented, 2);
    assert_eq!(s.width, 800);
    assert_eq!(s.height, 600);
}

#[test]
fn interval_request_is_recorded() {
    let (mut s, _) = PresentationSurface::create(800, 600, &some_config()).unwrap();
    s.make_current();
    s.set_presentation_interval(1);
    assert_eq!(s.swap_interval, 1);
}

#[test]
fn destroy_requires_device_shut_down_first() {
    let (mut s, _) = PresentationSurface::create(800, 600, &some_config()).unwrap();
    let mut d = Renderer::new(good_report(), 800, 600).unwrap();
    d.shutdown();
    s.destroy(&d);
    assert!(!s.context_alive);
}
