use vstd::prelude::*;

use crate::font::{font_outcome, load_font_bytes, FontError, FontImage, FontLayout};
use crate::geometry::{create_primitive, quad_positions, quad_tex_coords, DrawMode, PrimitiveData};
use crate::loader::{lemma_not_ready_untouched, select, AssetLoader, PendingAsset};
use crate::options::AppOptions;
use crate::timing::{frame_steps, next_tick_after, ticks_due, FrameStep, Scheduler, FPS, SKIP_TICKS};

verus! {

/// Where an application is in its life.
#[derive(Clone, Copy, Debug, PartialEq, Eq, Structural)]
pub enum Stage {
    /// Built, loop not started.
    Uninitialized,
    /// Loop started, font requested and not decoded yet: frames render but draw nothing.
    AwaitingFont,
    /// A font is decoded and its texture bound: frames draw.
    Running,
}

/// The state that an application's frame loop decides on; `H` is the handle
/// type of the files being loaded.
pub struct AppState<H> {
    pub options: AppOptions,
    pub stage: Stage,
    pub loader: AssetLoader<H>,
    /// Layout of the bound font, once one is decoded.
    pub font: Option<FontLayout>,
    pub scheduler: Scheduler,
    pub fps: FPS,
    pub data: PrimitiveData,
}

impl<H> AppState<H> {
    /// A font is known exactly when the application runs, and the scheduler
    /// and the geometry are sound.
    pub open spec fn wf(&self) -> bool {
        &&& self.scheduler.wf()
        &&& self.data.wf()
        &&& (self.font.is_some() <==> self.stage == Stage::Running)
    }

    /// A fresh application at time `now`, with its quad, nothing pending and
    /// no font.
    pub fn new(options: AppOptions, now: u64) -> (s: AppState<H>)
        ensures
            s.wf(),
            s.options == options,
            s.stage == Stage::Uninitialized,
            s.loader.pending@.len() == 0,
            s.font.is_none(),
            s.scheduler.next_tick == now,
            s.scheduler.tick_interval == SKIP_TICKS,
            s.fps.counter == 0 && s.fps.last == now && s.fps.fps == 0,
            s.data.pos_data@ == quad_positions(),
            s.data.tex_data.is_some(),
            s.data.tex_data.unwrap()@ == quad_tex_coords(),
            s.data.pos_data@.len() == 8,
            s.data.tex_data.unwrap()@.len() == 8,
            s.data.count == 4,
            s.data.data_per_primitive == 1,
            s.data.draw_mode == DrawMode::TriangleFan,
    {
        AppState {
            options,
            stage: Stage::Uninitialized,
            loader: AssetLoader::new(),
            font: None,
            scheduler: Scheduler::new(now, SKIP_TICKS),
            fps: FPS::new(now),
            data: create_primitive(),
        }
    }

    /// Starts the loop: allowed once only. The first call moves to awaiting
    /// the font and returns `true`; any later call changes nothing and
    /// returns `false`.
    pub fn begin(&mut self) -> (started: bool)
        requires
            old(self).wf(),
        ensures
            final(self).wf(),
            started == (old(self).stage == Stage::Uninitialized),
            started ==> final(self).stage == Stage::AwaitingFont,
            !started ==> final(self).stage == old(self).stage,
            final(self).font == old(self).font,
            final(self).options == old(self).options,
            final(self).loader == old(self).loader,
            final(self).scheduler == old(self).scheduler,
            final(self).fps == old(self).fps,
            final(self).data == old(self).data,
    {
        match self.stage {
            Stage::Uninitialized => {
                self.stage = Stage::AwaitingFont;
                true
            },
            _ => false,
        }
    }

    /// Takes the just-opened font file. When its data is ready the handle is
    /// handed back to be read at once; when it is not, it joins the pending
    /// set under the font's path and nothing is handed back.
    pub fn request_font(&mut self, handle: H, ready: bool) -> (now: Option<H>)
        requires
            old(self).wf(),
        ensures
            final(self).wf(),
            ready ==> now == Some(handle) && final(self).loader.pending@ == old(
                self,
            ).loader.pending@,
            !ready ==> now.is_none() && final(self).loader.pending@ == old(
                self,
            ).loader.pending@.push(PendingAsset { path: old(self).options.font_path, handle }),
            final(self).stage == old(self).stage,
            final(self).font == old(self).font,
            final(self).options == old(self).options,
            final(self).scheduler == old(self).scheduler,
            final(self).fps == old(self).fps,
            final(self).data == old(self).data,
    {
        if ready {
            Some(handle)
        } else {
            let path = self.options.font_path.clone();
            self.loader.add_pending(path, handle);
            None
        }
    }

    /// Takes the bytes of the font file. While no font is bound, a font that
    /// decodes and fits becomes the bound font and the application runs, and
    /// on an error nothing changes. Once a font is bound, further bytes are
    /// refused with `AlreadyBound` and nothing changes, so the window and
    /// texture made for the first font are made once only.
    pub fn font_decoded(&mut self, image_data: &[u8]) -> (r: Result<FontImage, FontError>)
        requires
            old(self).wf(),
        ensures
            final(self).wf(),
            old(self).font.is_some() ==> {
                &&& r == Err::<FontImage, FontError>(FontError::AlreadyBound)
                &&& final(self).font == old(self).font
                &&& final(self).stage == old(self).stage
            },
            old(self).font.is_none() ==> match font_outcome(
                image_data@,
                old(self).options.console_width,
                old(self).options.console_height,
            ) {
                Ok((l, px)) => match r {
                    Ok(f) => {
                        &&& f.layout == l
                        &&& f.pixels@ == px
                        &&& f.pixels@.len() == 4 * l.font_width * l.font_height
                        &&& final(self).font == Some(l)
                        &&& final(self).stage == Stage::Running
                    },
                    Err(_) => false,
                },
                Err(e) => {
                    &&& r == Err::<FontImage, FontError>(e)
                    &&& final(self).font == old(self).font
                    &&& final(self).stage == old(self).stage
                },
            },
            final(self).options == old(self).options,
            final(self).loader == old(self).loader,
            final(self).scheduler == old(self).scheduler,
            final(self).fps == old(self).fps,
            final(self).data == old(self).data,
    {
        if self.font.is_some() {
            return Err(FontError::AlreadyBound);
        }
        let r = load_font_bytes(&self.options, image_data);
        match &r {
            Ok(f) => {
                self.font = Some(f.layout);
                self.stage = Stage::Running;
            },
            Err(_) => {},
        }
        r
    }

    /// One poll of the pending assets (`ready[i]` for the `i`-th): the ready
    /// ones leave the set and are handed back to be read; the rest stay in
    /// order, and nothing else changes. When nothing is ready, nothing at all
    /// changes, however often it is polled.
    pub fn poll_pending(&mut self, ready: &Vec<bool>) -> (resolved: Vec<PendingAsset<H>>)
        requires
            old(self).wf(),
            ready@.len() == old(self).loader.pending@.len(),
        ensures
            final(self).wf(),
            resolved@ == select(old(self).loader.pending@, ready@, true),
            final(self).loader.pending@ == select(old(self).loader.pending@, ready@, false),
            (forall|i: int| 0 <= i < ready@.len() ==> !ready@[i]) ==> {
                &&& resolved@.len() == 0
                &&& final(self).loader.pending@ == old(self).loader.pending@
            },
            final(self).stage == old(self).stage,
            final(self).font == old(self).font,
            final(self).options == old(self).options,
            final(self).scheduler == old(self).scheduler,
            final(self).fps == old(self).fps,
            final(self).data == old(self).data,
    {
        let resolved = self.loader.take_ready(ready);
        proof {
            if forall|i: int| 0 <= i < ready@.len() ==> !ready@[i] {
                lemma_not_ready_untouched(old(self).loader.pending@, ready@);
            }
        }
        resolved
    }

    /// Plans the frame at `time`: the ticks due, one render, and a draw when
    /// a font is bound.
    pub fn plan_frame(&mut self, time: u64) -> (steps: Vec<FrameStep>)
        requires
            old(self).wf(),
            time + old(self).scheduler.tick_interval <= u64::MAX,
        ensures
            final(self).wf(),
            steps@ == frame_steps(
                ticks_due(
                    old(self).scheduler.next_tick as int,
                    time as int,
                    old(self).scheduler.tick_interval as int,
                ) as nat,
                old(self).font.is_some(),
            ),
            final(self).scheduler.next_tick as int == next_tick_after(
                old(self).scheduler.next_tick as int,
                time as int,
                old(self).scheduler.tick_interval as int,
            ),
            final(self).scheduler.tick_interval == old(self).scheduler.tick_interval,
            final(self).stage == old(self).stage,
            final(self).font == old(self).font,
            final(self).options == old(self).options,
            final(self).loader == old(self).loader,
            final(self).fps == old(self).fps,
            final(self).data == old(self).data,
    {
        let bound = self.font.is_some();
        self.scheduler.plan_frame(time, bound)
    }
}

} // verus!
