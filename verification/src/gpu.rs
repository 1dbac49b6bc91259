//! The GPU execution plan: depth batching, the packed 3D-texture data, the
//! uniform and push-constant layouts, and the readback decode.
//!
//! The field does not fit one texture binding, so it is cut into equal
//! batches along the depth axis and the marching integral runs as one compute
//! pass per batch, strictly in order, with the output image carrying the
//! accumulated state between passes. Everything discrete about that scheme is
//! stated and verified here; the driver that owns the device only uploads
//! these buffers and dispatches the passes in the planned order.

use vstd::prelude::*;
use crate::config::RenderConfiguration;
use crate::field::Cell;
use crate::field::RadianceField;
use crate::field::SPHERICAL_HARMONIC_WIDTH;

verus! {

broadcast use vstd::std_specs::vec::axiom_spec_len;

/// How many depth planes one compute pass covers.
pub const BATCH_SIZE: usize = 64;

/// Width and height of one compute workgroup over the screen.
pub const WORKGROUP_SIZE: usize = 8;

/// A condition that is fatal before any device work is issued.
#[derive(Clone, Copy, Debug, PartialEq, Eq)]
pub enum GpuSetupError {
    /// The field's depth is not a whole number of batches.
    BatchMismatch,
    /// The screen is not a whole number of workgroups on both axes.
    ScreenNotAligned,
}

/// Cells in one depth batch: a full plane of the grid, `BATCH_SIZE` deep.
pub open spec fn batch_volume(size: nat) -> nat {
    size * size * (BATCH_SIZE as nat)
}

/// One packed texel carries, for one coefficient position, the three channel
/// coefficients and the density of one cell.
pub open spec fn texel_matches(texel: [u32; 4], cell: Cell, slice: int) -> bool {
    &&& texel[0] == cell.sh_r[slice]
    &&& texel[1] == cell.sh_g[slice]
    &&& texel[2] == cell.sh_b[slice]
    &&& texel[3] == cell.density
}

/// Size relations of an exact batch split that the packing loops lean on.
#[verifier::nonlinear]
proof fn lemma_batch_split(size: int, n_batches: int)
    requires
        size == 64 * n_batches,
        0 <= n_batches,
    ensures
        n_batches * (size * size * 64) == size * size * size,
        size * size <= size * size * size || size == 0,
        size * size * 64 <= size * size * size || n_batches == 0,
{
}

/// A cell picked from inside one batch lies inside the flat grid storage.
#[verifier::nonlinear]
proof fn lemma_batch_cell_in_bounds(vol: int, n_batches: int, b: int, j: int)
    requires
        0 <= b < n_batches,
        0 <= j < vol,
    ensures
        0 <= b * vol + j < n_batches * vol,
        b * vol <= (n_batches - 1) * vol,
{
}

/// Appending one more full slice to a texture grows it by one slice volume.
#[verifier::nonlinear]
proof fn lemma_slice_step(vol: int, i: int)
    requires
        0 <= vol,
        0 <= i,
    ensures
        (i + 1) * vol == i * vol + vol,
{
}

/// A texel position inside one batch texture stays inside that texture.
#[verifier::nonlinear]
proof fn lemma_texel_in_bounds(vol: int, i: int, j: int)
    requires
        0 <= i < 9,
        0 <= j < vol,
    ensures
        0 <= i * vol + j < 9 * vol,
        i * vol + j < i * vol + vol,
        (i + 1) * vol == i * vol + vol,
{
}

/// Repacks the field for the GPU: one entry per depth batch, each holding
/// nine texture slices laid out one after the other, where slice `i` stores
/// for every cell of the batch the texel
/// `(sh_r[i], sh_g[i], sh_b[i], density)`, in the cells' storage order.
/// Refuses a field whose depth is not a whole number of batches, before any
/// device work could be issued.
pub fn radiance_field_to_textures(field: &RadianceField) -> (r: Result<
    Vec<Vec<[u32; 4]>>,
    GpuSetupError,
>)
    requires
        field.wf(),
    ensures
        match r {
            Ok(batches) => {
                &&& field.spec_size() % (BATCH_SIZE as nat) == 0
                &&& batches@.len() == field.spec_size() / (BATCH_SIZE as nat)
                &&& forall|b: int|
                    0 <= b < batches@.len() ==> (#[trigger] batches@[b])@.len() == 9
                        * batch_volume(field.spec_size())
                &&& forall|b: int, i: int, j: int|
                    0 <= b < batches@.len() && 0 <= i < 9 && 0 <= j < batch_volume(
                        field.spec_size(),
                    ) ==> texel_matches(
                        #[trigger] batches@[b]@[i * batch_volume(field.spec_size()) + j],
                        field.spec_cells()[b * batch_volume(field.spec_size()) + j],
                        i,
                    )
            },
            Err(GpuSetupError::BatchMismatch) => field.spec_size() % (BATCH_SIZE as nat) != 0,
            Err(_) => false,
        },
{
    let size = field.size();
    if size % BATCH_SIZE != 0 {
        return Err(GpuSetupError::BatchMismatch);
    }
    let n_batches = size / BATCH_SIZE;
    let cells = field.cells();
    proof {
        vstd::arithmetic::div_mod::lemma_fundamental_div_mod(size as int, BATCH_SIZE as int);
        lemma_batch_split(size as int, n_batches as int);
        assert(cells.len() == field.spec_cells().len());
    }
    let vol = size * size * BATCH_SIZE;
    let mut batches: Vec<Vec<[u32; 4]>> = Vec::new();
    let mut b: usize = 0;
    while b < n_batches
        invariant
            field.wf(),
            size == field.spec_size(),
            size == 64 * n_batches,
            vol == batch_volume(size as nat),
            n_batches * vol == field.spec_cells().len(),
            cells@ == field.spec_cells(),
            b <= n_batches,
            batches@.len() == b,
            forall|p: int|
                0 <= p < b ==> (#[trigger] batches@[p])@.len() == 9 * vol,
            forall|p: int, i: int, j: int|
                0 <= p < b && 0 <= i < 9 && 0 <= j < vol ==> texel_matches(
                    #[trigger] batches@[p]@[i * vol + j],
                    field.spec_cells()[p * vol + j],
                    i,
                ),
        decreases n_batches - b,
    {
        let mut texture: Vec<[u32; 4]> = Vec::new();
        let mut i: usize = 0;
        while i < SPHERICAL_HARMONIC_WIDTH
            invariant
                field.wf(),
                size == field.spec_size(),
                size == 64 * n_batches,
                vol == batch_volume(size as nat),
                n_batches * vol == field.spec_cells().len(),
                cells@ == field.spec_cells(),
                b < n_batches,
                i <= 9,
                texture@.len() == i * vol,
                forall|p: int, j: int|
                    0 <= p < i && 0 <= j < vol ==> texel_matches(
                        #[trigger] texture@[p * vol + j],
                        field.spec_cells()[b * vol + j],
                        p,
                    ),
            decreases 9 - i,
        {
            let mut j: usize = 0;
            while j < vol
                invariant
                    field.wf(),
                    size == field.spec_size(),
                    size == 64 * n_batches,
                    vol == batch_volume(size as nat),
                    n_batches * vol == field.spec_cells().len(),
                    cells@ == field.spec_cells(),
                    b < n_batches,
                    i < 9,
                    j <= vol,
                    texture@.len() == i * vol + j,
                    forall|p: int, q: int|
                        0 <= p < i && 0 <= q < vol ==> texel_matches(
                            #[trigger] texture@[p * vol + q],
                            field.spec_cells()[b * vol + q],
                            p,
                        ),
                    forall|q: int|
                        0 <= q < j ==> texel_matches(
                            #[trigger] texture@[i * vol + q],
                            field.spec_cells()[b * vol + q],
                            i as int,
                        ),
                decreases vol - j,
            {
                proof {
                    lemma_batch_cell_in_bounds(vol as int, n_batches as int, b as int, j as int);
                    lemma_texel_in_bounds(vol as int, i as int, j as int);
                    assert(cells.len() == cells@.len());
                }
                let cell = &cells[b * vol + j];
                texture.push([cell.sh_r[i], cell.sh_g[i], cell.sh_b[i], cell.density]);
                proof {
                    assert forall|p: int, q: int| 0 <= p < i && 0 <= q < vol implies #[trigger] (p
                        * vol + q) < i * vol by {
                        lemma_slice_step(vol as int, p);
                        vstd::arithmetic::mul::lemma_mul_inequality(p + 1, i as int, vol as int);
                    }
                }
                j += 1;
            }
            proof {
                lemma_slice_step(vol as int, i as int);
            }
            i += 1;
        }
        batches.push(texture);
        b += 1;
    }
    Ok(batches)
}

/// The numeric render configuration exactly as the compute kernel's uniform
/// block lays it out, word for word.
#[derive(Clone, Copy, Debug, PartialEq)]
pub struct GpuRenderCfg {
    pub camera_distance: u32,
    pub camera_theta: u32,
    pub camera_phi: u32,
    pub camera_vfov: u32,
    pub camera_target_pos: [u32; 4],
    pub bounding_box_lo: [u32; 4],
    pub bounding_box_hi: [u32; 4],
    pub rm_settings_n_steps: u32,
    pub pad: [u32; 3],
}

impl GpuRenderCfg {
    /// Lifts a render configuration into the uniform layout: three-component
    /// vectors widen with a zero word, the trailing padding is zero.
    pub fn new(cfg: &RenderConfiguration) -> (r: Self)
        ensures
            r.camera_distance == cfg.camera.distance,
            r.camera_theta == cfg.camera.theta,
            r.camera_phi == cfg.camera.phi,
            r.camera_vfov == cfg.camera.vfov,
            r.camera_target_pos@ == seq![
                cfg.camera.target_pos[0],
                cfg.camera.target_pos[1],
                cfg.camera.target_pos[2],
                0u32,
            ],
            r.bounding_box_lo@ == seq![
                cfg.bounding_box.lo[0],
                cfg.bounding_box.lo[1],
                cfg.bounding_box.lo[2],
                0u32,
            ],
            r.bounding_box_hi@ == seq![
                cfg.bounding_box.hi[0],
                cfg.bounding_box.hi[1],
                cfg.bounding_box.hi[2],
                0u32,
            ],
            r.rm_settings_n_steps == cfg.rm_settings.n_steps,
            r.pad@ == seq![0u32, 0u32, 0u32],
    {
        GpuRenderCfg {
            camera_distance: cfg.camera.distance,
            camera_theta: cfg.camera.theta,
            camera_phi: cfg.camera.phi,
            camera_vfov: cfg.camera.vfov,
            camera_target_pos: [
                cfg.camera.target_pos[0],
                cfg.camera.target_pos[1],
                cfg.camera.target_pos[2],
                0,
            ],
            bounding_box_lo: [
                cfg.bounding_box.lo[0],
                cfg.bounding_box.lo[1],
                cfg.bounding_box.lo[2],
                0,
            ],
            bounding_box_hi: [
                cfg.bounding_box.hi[0],
                cfg.bounding_box.hi[1],
                cfg.bounding_box.hi[2],
                0,
            ],
            rm_settings_n_steps: cfg.rm_settings.n_steps,
            pad: [0, 0, 0],
        }
    }

    /// The uniform block as the words the device receives, in declaration
    /// order.
    pub fn to_words(&self) -> (r: Vec<u32>)
        ensures
            r@ == seq![
                self.camera_distance,
                self.camera_theta,
                self.camera_phi,
                self.camera_vfov,
                self.camera_target_pos[0],
                self.camera_target_pos[1],
                self.camera_target_pos[2],
                self.camera_target_pos[3],
                self.bounding_box_lo[0],
                self.bounding_box_lo[1],
                self.bounding_box_lo[2],
                self.bounding_box_lo[3],
                self.bounding_box_hi[0],
                self.bounding_box_hi[1],
                self.bounding_box_hi[2],
                self.bounding_box_hi[3],
                self.rm_settings_n_steps,
                self.pad[0],
                self.pad[1],
                self.pad[2],
            ],
    {
        let mut words: Vec<u32> = Vec::new();
        words.push(self.camera_distance);
        words.push(self.camera_theta);
        words.push(self.camera_phi);
        words.push(self.camera_vfov);
        words.push(self.camera_target_pos[0]);
        words.push(self.camera_target_pos[1]);
        words.push(self.camera_target_pos[2]);
        words.push(self.camera_target_pos[3]);
        words.push(self.bounding_box_lo[0]);
        words.push(self.bounding_box_lo[1]);
        words.push(self.bounding_box_lo[2]);
        words.push(self.bounding_box_lo[3]);
        words.push(self.bounding_box_hi[0]);
        words.push(self.bounding_box_hi[1]);
        words.push(self.bounding_box_hi[2]);
        words.push(self.bounding_box_hi[3]);
        words.push(self.rm_settings_n_steps);
        words.push(self.pad[0]);
        words.push(self.pad[1]);
        words.push(self.pad[2]);
        proof {
            assert(words@ =~= seq![
                self.camera_distance,
                self.camera_theta,
                self.camera_phi,
                self.camera_vfov,
                self.camera_target_pos[0],
                self.camera_target_pos[1],
                self.camera_target_pos[2],
                self.camera_target_pos[3],
                self.bounding_box_lo[0],
                self.bounding_box_lo[1],
                self.bounding_box_lo[2],
                self.bounding_box_lo[3],
                self.bounding_box_hi[0],
                self.bounding_box_hi[1],
                self.bounding_box_hi[2],
                self.bounding_box_hi[3],
                self.rm_settings_n_steps,
                self.pad[0],
                self.pad[1],
                self.pad[2],
            ]);
        }
        words
    }
}

/// What one compute pass is told through push constants: the z slab it owns
/// and its place in the ordered pass sequence. The slab bounds are IEEE-754
/// bit patterns computed by the driver from `index` and `n_passes`.
#[derive(Clone, Copy, Debug, PartialEq)]
pub struct PassParams {
    pub bounds_lo: [u32; 4],
    pub bounds_hi: [u32; 4],
    pub index: u32,
    pub n_passes: u32,
}

impl PassParams {
    /// The push-constant words the device receives for this pass, in
    /// declaration order, with two zero padding words at the end.
    pub fn to_words(&self) -> (r: Vec<u32>)
        ensures
            r@ == seq![
                self.bounds_lo[0],
                self.bounds_lo[1],
                self.bounds_lo[2],
                self.bounds_lo[3],
                self.bounds_hi[0],
                self.bounds_hi[1],
                self.bounds_hi[2],
                self.bounds_hi[3],
                self.index,
                self.n_passes,
                0u32,
                0u32,
            ],
    {
        let mut words: Vec<u32> = Vec::new();
        words.push(self.bounds_lo[0]);
        words.push(self.bounds_lo[1]);
        words.push(self.bounds_lo[2]);
        words.push(self.bounds_lo[3]);
        words.push(self.bounds_hi[0]);
        words.push(self.bounds_hi[1]);
        words.push(self.bounds_hi[2]);
        words.push(self.bounds_hi[3]);
        words.push(self.index);
        words.push(self.n_passes);
        words.push(0);
        words.push(0);
        proof {
            assert(words@ =~= seq![
                self.bounds_lo[0],
                self.bounds_lo[1],
                self.bounds_lo[2],
                self.bounds_lo[3],
                self.bounds_hi[0],
                self.bounds_hi[1],
                self.bounds_hi[2],
                self.bounds_hi[3],
                self.index,
                self.n_passes,
                0u32,
                0u32,
            ]);
        }
        words
    }
}

/// Checks that the screen is a whole number of workgroups on both axes, the
/// precondition of the dispatch grid; fatal before any device work otherwise.
pub fn validate_screen(width: usize, height: usize) -> (r: Result<(), GpuSetupError>)
    ensures
        match r {
            Ok(()) => width % 8 == 0 && height % 8 == 0,
            Err(GpuSetupError::ScreenNotAligned) => width % 8 != 0 || height % 8 != 0,
            Err(_) => false,
        },
{
    if width % WORKGROUP_SIZE == 0 && height % WORKGROUP_SIZE == 0 {
        Ok(())
    } else {
        Err(GpuSetupError::ScreenNotAligned)
    }
}

/// The dispatch grid covering the screen: one workgroup per 8-by-8 tile, one
/// layer deep.
pub fn dispatch_grid(width: usize, height: usize) -> (r: (usize, usize, usize))
    requires
        width % 8 == 0,
        height % 8 == 0,
    ensures
        r == (width / 8, height / 8, 1usize),
{
    (width / WORKGROUP_SIZE, height / WORKGROUP_SIZE, 1)
}

} // verus!
