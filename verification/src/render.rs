//! One render pass: fan the work units out, then write the whole buffer.

use vstd::prelude::*;
use rayon::iter::IntoParallelIterator;
use rayon::iter::ParallelIterator;
use crate::budget::fast_cap;
use crate::budget::preview_cap;
use crate::fidelity::Fidelity;
use crate::grid::Grid;

verus! {

/// What a pass needs to know of a frame besides the shader: the image size,
/// the tier, and the effective iteration cap for the current view.
#[derive(Clone, Copy, Debug, PartialEq, Eq, Structural)]
pub struct RenderRequest {
    pub width: usize,
    pub height: usize,
    pub fidelity: Fidelity,
    pub max_iter: u32,
}

impl RenderRequest {
    /// A request is well formed when its pixel count fits the machine word.
    pub open spec fn wf(&self) -> bool {
        self.width * self.height <= usize::MAX
    }

    /// The partition of the image that the tier asks for.
    pub open spec fn grid(&self) -> Grid {
        Grid { width: self.width, height: self.height, block: self.fidelity.block() as usize }
    }

    /// The iteration cap of the pass: the effective cap for a final frame,
    /// the preview cap derived from it for a preview.
    pub open spec fn cap(&self) -> u32 {
        match self.fidelity {
            Fidelity::HighQuality => self.max_iter,
            Fidelity::Fast => preview_cap(self.max_iter as int) as u32,
        }
    }

    /// The partition of the image that the tier asks for, or `None` when the
    /// pixel count does not fit the machine word.
    pub fn plan(&self) -> (grid: Option<Grid>)
        ensures
            grid is Some <==> self.wf(),
            grid matches Some(g) ==> g == self.grid() && g.wf(),
    {
        Grid::new(self.width, self.height, self.fidelity.block_side())
    }

    /// The iteration cap of the pass.
    pub fn iteration_cap(&self) -> (cap: u32)
        ensures
            cap == self.cap(),
    {
        match self.fidelity {
            Fidelity::HighQuality => self.max_iter,
            Fidelity::Fast => fast_cap(self.max_iter),
        }
    }
}

/// The arguments with which the shader is called for unit `k`: column and
/// row of the unit's first pixel, and the iteration cap of the pass.
pub open spec fn sample_args(grid: Grid, cap: u32, k: int) -> (usize, usize, u32) {
    (grid.origin(k).0 as usize, grid.origin(k).1 as usize, cap)
}

/// Whether `samples` holds, for every unit of the grid in order, a value
/// that the shader may return for that unit.
pub open spec fn shaded<F: Fn(usize, usize, u32) -> u32>(
    grid: Grid,
    cap: u32,
    shade: F,
    samples: Seq<u32>,
) -> bool {
    &&& samples.len() == grid.units()
    &&& forall|k: int|
        0 <= k < grid.units() ==> call_ensures(shade, sample_args(grid, cap, k), #[trigger] samples[k])
}

/// Samples unit `k`: calls the shader at the unit's first pixel.
pub fn sample_unit<F: Fn(usize, usize, u32) -> u32>(grid: &Grid, cap: u32, shade: &F, k: usize) -> (sample: u32)
    requires
        grid.wf(),
        k < grid.units(),
        call_requires(*shade, sample_args(*grid, cap, k as int)),
    ensures
        call_ensures(*shade, sample_args(*grid, cap, k as int), sample),
{
    let (x, y) = grid.unit_origin(k);
    shade(x, y, cap)
}

/// `rayon`'s `into_par_iter().map(..).collect()` over the unit numbers
/// `0..units`, not proved here: the vector that comes back has one entry per
/// unit, in unit order, and entry `k` is what `sample_unit` returned for
/// unit `k`.
#[verifier::external_body]
fn sample_all<F: Fn(usize, usize, u32) -> u32 + Sync>(
    grid: &Grid,
    units: usize,
    cap: u32,
    shade: &F,
) -> (samples: Vec<u32>)
    requires
        grid.wf(),
        units == grid.units(),
        forall|k: int|
            0 <= k < grid.units() ==> call_requires(*shade, #[trigger] sample_args(*grid, cap, k)),
    ensures
        shaded(*grid, cap, *shade, samples@),
{
    (0..units).into_par_iter().map(|k| sample_unit(grid, cap, shade, k)).collect()
}

/// Whether `image` is a possible outcome of the pass that `request`
/// describes: every unit was shaded once, at its first pixel and with the
/// cap of the pass, and every pixel holds the sample of its unit.
pub open spec fn rendered<F: Fn(usize, usize, u32) -> u32>(
    request: RenderRequest,
    shade: F,
    image: Seq<u32>,
) -> bool {
    exists|samples: Seq<u32>|
        #![trigger shaded(request.grid(), request.cap(), shade, samples)]
        shaded(request.grid(), request.cap(), shade, samples) && image == request.grid().image(
            samples,
        )
}

/// Runs one pass to completion. The work units are shaded in parallel; then
/// the whole buffer is overwritten, so nothing of an earlier pass survives.
/// The buffer must have exactly `width * height` cells.
pub fn render<F: Fn(usize, usize, u32) -> u32 + Sync>(
    request: &RenderRequest,
    shade: &F,
    out: &mut Vec<u32>,
)
    requires
        old(out)@.len() == request.width * request.height,
        forall|x: usize, y: usize|
            x < request.width && y < request.height ==> call_requires(
                *shade,
                (x, y, request.cap()),
            ),
    ensures
        rendered(*request, *shade, final(out)@),
{
    let grid = Grid {
        width: request.width,
        height: request.height,
        block: request.fidelity.block_side(),
    };
    let cap = request.iteration_cap();
    proof {
        assert(grid.pixels() == out.len());
        assert forall|k: int| 0 <= k < grid.units() implies call_requires(
            *shade,
            #[trigger] sample_args(grid, cap, k),
        ) by {
            grid.lemma_origin_in_unit(k);
        }
    }
    let units = grid.unit_count();
    let samples = sample_all(&grid, units, cap, shade);
    let ghost taken = samples@;
    if grid.block == 1 {
        proof {
            grid.lemma_unit_tiles(taken);
        }
        *out = samples;
    } else {
        grid.replicate(&samples, out);
    }
    assert(shaded(request.grid(), request.cap(), *shade, taken) && out@ == request.grid().image(
        taken,
    ));
}

/// Whether the shader is a function of its arguments: no call can return
/// two different values for the same arguments.
pub open spec fn single_valued<F: Fn(usize, usize, u32) -> u32>(shade: F) -> bool {
    forall|args: (usize, usize, u32), a: u32, b: u32|
        call_ensures(shade, args, a) && call_ensures(shade, args, b) ==> a == b
}

/// What a pass leaves in each pixel: a value that the shader returns for the
/// first pixel of the unit that owns the pixel, at the cap of the pass. In a
/// final frame that is the pixel itself, at the full effective cap.
pub proof fn lemma_rendered_pixel<F: Fn(usize, usize, u32) -> u32>(
    request: RenderRequest,
    shade: F,
    image: Seq<u32>,
    x: int,
    y: int,
)
    requires
        request.wf(),
        rendered(request, shade, image),
        0 <= x < request.width,
        0 <= y < request.height,
    ensures
        image.len() == request.width * request.height,
        0 <= request.grid().index_at(x, y) < image.len(),
        call_ensures(
            shade,
            sample_args(request.grid(), request.cap(), request.grid().unit_at(x, y)),
            image[request.grid().index_at(x, y)],
        ),
        request.fidelity == Fidelity::HighQuality ==> call_ensures(
            shade,
            (x as usize, y as usize, request.max_iter),
            image[request.grid().index_at(x, y)],
        ),
{
    let grid = request.grid();
    grid.lemma_index(x, y);
    grid.lemma_unit_in_range(x, y);
    let k = grid.unit_at(x, y);
    if request.fidelity == Fidelity::HighQuality {
        grid.lemma_unit_is_tile(k, x, y);
    }
}

/// Replication: two pixels of one unit hold the same value after a pass.
pub proof fn lemma_rendered_tile<F: Fn(usize, usize, u32) -> u32>(
    request: RenderRequest,
    shade: F,
    image: Seq<u32>,
    x1: int,
    y1: int,
    x2: int,
    y2: int,
)
    requires
        request.wf(),
        rendered(request, shade, image),
        0 <= x1 < request.width,
        0 <= y1 < request.height,
        0 <= x2 < request.width,
        0 <= y2 < request.height,
        request.grid().unit_at(x1, y1) == request.grid().unit_at(x2, y2),
    ensures
        image[request.grid().index_at(x1, y1)] == image[request.grid().index_at(x2, y2)],
{
    let grid = request.grid();
    grid.lemma_index(x1, y1);
    grid.lemma_index(x2, y2);
}

/// Determinism: with a shader that is a function of its arguments, two
/// passes for the same request leave identical buffers.
pub proof fn lemma_render_deterministic<F: Fn(usize, usize, u32) -> u32>(
    request: RenderRequest,
    shade: F,
    first: Seq<u32>,
    second: Seq<u32>,
)
    requires
        rendered(request, shade, first),
        rendered(request, shade, second),
        single_valued(shade),
    ensures
        first == second,
{
    let a = choose|samples: Seq<u32>|
        #![trigger shaded(request.grid(), request.cap(), shade, samples)]
        shaded(request.grid(), request.cap(), shade, samples) && first == request.grid().image(
            samples,
        );
    let b = choose|samples: Seq<u32>|
        #![trigger shaded(request.grid(), request.cap(), shade, samples)]
        shaded(request.grid(), request.cap(), shade, samples) && second == request.grid().image(
            samples,
        );
    assert(a =~= b);
}

} // verus!
