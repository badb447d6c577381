//! Runtime core of a console rendering engine: the fixed-timestep frame
//! scheduler, the frame-rate counter, the font asset loader with its
//! non-blocking pending set, font metrics, the full-screen quad geometry and
//! asset path resolution.

mod runtime;
mod font;
mod geometry;
mod loader;
mod options;
mod path;
mod timing;

pub use timing::{
    frame_steps, lemma_next_tick_monotone, lemma_next_tick_monotone_across_frames, lemma_render_once_per_frame, lemma_tick_count_bound,
    next_tick_after, ticks_due, FrameStep, Scheduler, FPS, MAX_FRAMESKIP,
    MAX_TICKS_PER_FRAME, NANOS_PER_SECOND, SKIP_TICKS, TICKS_PER_SECOND,
};
pub use font::{
    font_layout, font_outcome, layout_of, load_font_bytes, rgba_decoding, FontError, FontImage,
    FontLayout, GLYPHS_PER_ROW, GLYPH_ROWS,
};
pub use options::AppOptions;
pub use loader::{
    count_flags, lemma_not_ready_untouched, lemma_poll_partitions, lemma_poll_sides, select, AssetLoader,
    PendingAsset,
};
pub use geometry::{create_primitive, quad_positions, quad_tex_coords, DrawMode, PrimitiveData};
pub use path::{is_absolute, resolve_path, resolved_path};
pub use runtime::{AppState, Stage};
