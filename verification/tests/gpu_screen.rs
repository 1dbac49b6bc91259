use radiance::config::Aabb;
use radiance::config::Camera;
use radiance::config::RaymarchSettings;
use radiance::config::RenderConfiguration;
use radiance::config::RENDER_TARGET_COLOR;
use radiance::field::Cell;
use radiance::field::RadianceField;
use radiance::field::SPHERICAL_HARMONIC_WIDTH;
use radiance::gpu::dispatch_grid;
use radiance::gpu::radiance_field_to_textures;
use radiance::gpu::validate_screen;
use radiance::gpu::GpuRenderCfg;
use radiance::gpu::GpuSetupError;
use radiance::gpu::PassParams;
use radiance::gpu::BATCH_SIZE;
use radiance::screen::pixel_coords;

fn tagged_cell(idx: u32) -> Cell {
    let mut sh_r = [0u32; SPHERICAL_HARMONIC_WIDTH];
    let mut sh_g = [0u32; SPHERICAL_HARMONIC_WIDTH];
    let mut sh_b = [0u32; SPHERICAL_HARMONIC_WIDTH];
    for k in 0..SPHERICAL_HARMONIC_WIDTH {
        sh_r[k] = idx * 16 + k as u32;
        sh_g[k] = idx * 16 + k as u32 + 0x4000_0000;
        sh_b[k] = idx * 16 + k as u32 + 0x8000_0000;
    }
    Cell { density: idx, sh_r, sh_g, sh_b }
}

#[test]
fn textures_pack_one_batch_per_depth_slab() {
    let size = BATCH_SIZE;
    let volume = size * size * size;
    let cells: Vec<Cell> = (0..volume).map(|i| tagged_cell(i as u32)).collect();
    let field = RadianceField::new(size, cells).unwrap();
    let batches = radiance_field_to_textures(&field).unwrap();
    assert_eq!(batches.len(), 1);
    let texture = &batches[0];
    assert_eq!(texture.len(), 9 * volume);
    // Slice i stores, for cell j, the texel (sh_r[i], sh_g[i], sh_b[i], density).
    let j = 4242;
    let c = tagged_cell(j as u32);
    for i in 0..9 {
        assert_eq!(
            texture[i * volume + j],
            [c.sh_r[i], c.sh_g[i], c.sh_b[i], c.density],
        );
    }
    let last = tagged_cell((volume - 1) as u32);
    assert_eq!(
        texture[9 * volume - 1],
        [last.sh_r[8], last.sh_g[8], last.sh_b[8], last.density],
    );
}

#[test]
fn textures_refuse_unbatchable_depth() {
    let cells: Vec<Cell> = (0..8).map(|i| tagged_cell(i as u32)).collect();
    let field = RadianceField::new(2, cells).unwrap();
    assert_eq!(
        radiance_field_to_textures(&field).unwrap_err(),
        GpuSetupError::BatchMismatch,
    );
}

#[test]
fn screen_must_tile_into_workgroups() {
    assert!(validate_screen(256, 256).is_ok());
    assert_eq!(validate_screen(255, 256).unwrap_err(), GpuSetupError::ScreenNotAligned);
    assert_eq!(validate_screen(256, 4).unwrap_err(), GpuSetupError::ScreenNotAligned);
    assert_eq!(dispatch_grid(256, 64), (32, 8, 1));
}

#[test]
fn uniform_block_words_in_declaration_order() {
    let cfg = RenderConfiguration::new(
        Camera { distance: 1, theta: 2, phi: 3, vfov: 4, target_pos: [5, 6, 7] },
        RaymarchSettings { n_steps: 300 },
        Aabb { lo: [8, 9, 10], hi: [11, 12, 13] },
        RENDER_TARGET_COLOR,
    )
    .unwrap();
    let gpu_cfg = GpuRenderCfg::new(&cfg);
    assert_eq!(gpu_cfg.camera_target_pos, [5, 6, 7, 0]);
    assert_eq!(gpu_cfg.bounding_box_lo, [8, 9, 10, 0]);
    assert_eq!(gpu_cfg.bounding_box_hi, [11, 12, 13, 0]);
    assert_eq!(
        gpu_cfg.to_words(),
        vec![1, 2, 3, 4, 5, 6, 7, 0, 8, 9, 10, 0, 11, 12, 13, 0, 300, 0, 0, 0],
    );
}

#[test]
fn push_constant_words_in_declaration_order() {
    let pass = PassParams {
        bounds_lo: [21, 22, 23, 24],
        bounds_hi: [31, 32, 33, 34],
        index: 2,
        n_passes: 4,
    };
    assert_eq!(
        pass.to_words(),
        vec![21, 22, 23, 24, 31, 32, 33, 34, 2, 4, 0, 0],
    );
}

#[test]
fn pixel_mapping_is_row_major() {
    assert_eq!(pixel_coords(11, 4), (3, 2));
    assert_eq!(pixel_coords(0, 7), (0, 0));
    for i in 0..24 {
        let (x, y) = pixel_coords(i, 6);
        assert_eq!(y * 6 + x, i);
    }
}
