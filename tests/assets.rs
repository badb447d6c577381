use doryen::{
    font_layout, load_font_bytes, resolve_path, AppOptions, AppState, AssetLoader, FontError,
    FontLayout, FrameStep, Stage,
};

fn options(w: u32, h: u32) -> AppOptions {
    AppOptions {
        console_width: w,
        console_height: h,
        window_title: String::from("test"),
        font_path: String::from("terminal.png"),
        vsync: true,
        fullscreen: false,
        show_cursor: true,
    }
}

fn png(width: u32, height: u32) -> Vec<u8> {
    let img = image::DynamicImage::ImageRgba8(image::RgbaImage::new(width, height));
    let mut out: Vec<u8> = Vec::new();
    img.write_to(&mut out, image::ImageOutputFormat::Png).unwrap();
    out
}

#[test]
fn font_sheet_sizes_the_window() {
    let l = font_layout(160, 160, 80, 25).unwrap();
    assert_eq!(
        l,
        FontLayout {
            font_width: 160,
            font_height: 160,
            char_width: 10,
            char_height: 10,
            screen_width: 800,
            screen_height: 250,
        }
    );
}

#[test]
fn font_sheet_cell_size_rounds_down() {
    let l = font_layout(200, 100, 3, 2).unwrap();
    assert_eq!(l.char_width, 12);
    assert_eq!(l.char_height, 6);
    assert_eq!(l.screen_width, 36);
    assert_eq!(l.screen_height, 12);
}

#[test]
fn oversized_window_is_an_error() {
    assert_eq!(font_layout(32, 16, u32::MAX, 1), Err(FontError::WindowTooLarge));
    assert_eq!(font_layout(16, 32, 1, u32::MAX), Err(FontError::WindowTooLarge));
}

#[test]
fn decoded_png_gives_layout_and_pixels() {
    let bytes = png(160, 160);
    let f = load_font_bytes(&options(80, 25), &bytes).unwrap();
    assert_eq!(f.layout.screen_width, 800);
    assert_eq!(f.layout.screen_height, 250);
    assert_eq!(f.layout.font_width, 160);
    assert_eq!(f.pixels.len(), 160 * 160 * 4);
}

#[test]
fn undecodable_bytes_are_an_error() {
    let r = load_font_bytes(&options(80, 25), &[1u8, 2, 3, 4, 5]);
    assert_eq!(r.unwrap_err(), FontError::Decode);
}

#[test]
fn not_ready_assets_stay_untouched() {
    let mut l: AssetLoader<u32> = AssetLoader::new();
    l.add_pending(String::from("a"), 1);
    l.add_pending(String::from("b"), 2);
    for _ in 0..3 {
        let got = l.take_ready(&vec![false, false]);
        assert!(got.is_empty());
        assert_eq!(l.pending_count(), 2);
        assert_eq!(l.pending[0].path, "a");
        assert_eq!(l.pending[1].handle, 2);
    }
}

#[test]
fn ready_assets_resolve_once() {
    let mut l: AssetLoader<u32> = AssetLoader::new();
    l.add_pending(String::from("a"), 1);
    l.add_pending(String::from("b"), 2);
    l.add_pending(String::from("c"), 3);
    let got = l.take_ready(&vec![true, false, true]);
    assert_eq!(got.len(), 2);
    assert_eq!(got[0].path, "a");
    assert_eq!(got[1].handle, 3);
    assert_eq!(l.pending_count(), 1);
    assert_eq!(l.pending[0].path, "b");
    let again = l.take_ready(&vec![true]);
    assert_eq!(again.len(), 1);
    assert_eq!(again[0].handle, 2);
    assert_eq!(l.pending_count(), 0);
}

#[test]
fn failed_decode_drops_only_that_asset() {
    let mut s: AppState<u32> = AppState::new(options(80, 25), 0);
    assert!(s.begin());
    assert_eq!(s.request_font(7, false), None);
    s.loader.add_pending(String::from("other.png"), 8);
    let ready = s.loader.take_ready(&vec![true, false]);
    assert_eq!(ready.len(), 1);
    assert_eq!(ready[0].path, "terminal.png");
    assert_eq!(s.font_decoded(&[0u8, 1, 2]).unwrap_err(), FontError::Decode);
    assert_eq!(s.font, None);
    assert_eq!(s.stage, Stage::AwaitingFont);
    assert_eq!(s.loader.pending_count(), 1);
    assert_eq!(s.loader.pending[0].handle, 8);
}

#[test]
fn async_font_starts_running() {
    let mut s: AppState<u32> = AppState::new(options(80, 25), 0);
    assert!(s.begin());
    assert_eq!(s.request_font(7, false), None);
    assert_eq!(s.plan_frame(0), vec![FrameStep::Render]);
    let ready = s.loader.take_ready(&vec![true]);
    assert_eq!(ready[0].handle, 7);
    let f = s.font_decoded(&png(160, 160)).unwrap();
    assert_eq!(f.layout.screen_width, 800);
    assert_eq!(s.stage, Stage::Running);
    assert_eq!(s.font.unwrap().screen_height, 250);
    assert_eq!(s.plan_frame(0), vec![FrameStep::Render, FrameStep::Draw]);
}

#[test]
fn ready_font_is_handed_back() {
    let mut s: AppState<u32> = AppState::new(options(10, 10), 0);
    assert!(s.begin());
    assert_eq!(s.request_font(4, true), Some(4));
    assert_eq!(s.loader.pending_count(), 0);
}

#[test]
fn loop_starts_once() {
    let mut s: AppState<u32> = AppState::new(options(80, 25), 0);
    assert_eq!(s.stage, Stage::Uninitialized);
    assert!(s.begin());
    assert_eq!(s.stage, Stage::AwaitingFont);
    assert!(!s.begin());
    assert_eq!(s.stage, Stage::AwaitingFont);
}

#[test]
fn relative_paths_are_rooted_on_native() {
    assert_eq!(resolve_path("terminal.png", true), "static/terminal.png");
    assert_eq!(resolve_path("a", true), "static/a");
    assert_eq!(resolve_path("", true), "static/");
    assert_eq!(resolve_path("/usr/font.png", true), "/usr/font.png");
    assert_eq!(resolve_path("C:\\font.png", true), "C:\\font.png");
    assert_eq!(resolve_path("terminal.png", false), "terminal.png");
}

#[test]
fn second_font_is_refused() {
    let mut s: AppState<u32> = AppState::new(options(80, 25), 0);
    assert!(s.begin());
    s.font_decoded(&png(160, 160)).unwrap();
    let r = s.font_decoded(&png(320, 320));
    assert_eq!(r.unwrap_err(), FontError::AlreadyBound);
    assert_eq!(s.font.unwrap().screen_width, 800);
    assert_eq!(s.stage, Stage::Running);
}

#[test]
fn bmp_font_sheet_is_decoded() {
    let img = image::DynamicImage::ImageRgba8(image::RgbaImage::new(32, 48));
    let mut bmp: Vec<u8> = Vec::new();
    img.write_to(&mut bmp, image::ImageOutputFormat::Bmp).unwrap();
    let f = load_font_bytes(&options(80, 25), &bmp).unwrap();
    assert_eq!(f.layout.font_width, 32);
    assert_eq!(f.layout.font_height, 48);
    assert_eq!(f.layout.screen_width, 160);
    assert_eq!(f.layout.screen_height, 75);
    assert_eq!(f.pixels.len(), 32 * 48 * 4);
}

#[test]
fn polling_with_nothing_ready_changes_nothing() {
    let mut s: AppState<u32> = AppState::new(options(80, 25), 0);
    assert!(s.begin());
    assert_eq!(s.request_font(7, false), None);
    for _ in 0..4 {
        assert!(s.poll_pending(&vec![false]).is_empty());
        assert_eq!(s.loader.pending_count(), 1);
        assert_eq!(s.font, None);
        assert_eq!(s.stage, Stage::AwaitingFont);
    }
    let got = s.poll_pending(&vec![true]);
    assert_eq!(got[0].handle, 7);
    assert_eq!(s.loader.pending_count(), 0);
    assert!(s.poll_pending(&vec![]).is_empty());
}

#[test]
fn new_state_holds_the_quad() {
    let mut s: AppState<u32> = AppState::new(options(80, 25), 0);
    assert_eq!(s.data.pos_data.len(), 8);
    assert_eq!(s.data.tex_data, Some(vec![0i8, 1, 0, 0, 1, 0, 1, 1]));
    assert_eq!(s.data.count, 4);
    assert_eq!(s.data.data_per_primitive, 1);
    assert!(s.begin());
    s.plan_frame(1_000_000_000);
    assert!(s.data.is_well_formed());
    assert_eq!(s.data.tex_data.as_ref().map(|t| t.len()), Some(8));
}
