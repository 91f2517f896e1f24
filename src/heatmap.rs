//! A heatmap built from a grid of samples: its colormap field and its mesh.

use crate::binding::{colormap_layout, colormap_layout_spec, LayoutEntry};
use crate::color::{grid_colors, normalize};
use crate::mesh::{quad_indices, quad_vertices, Mesh};
use crate::texture::{
    color_bytes, colormap_sampler, colormap_sampler_spec, lemma_texel_byte, texel_bytes_spec,
    ColormapTexture, SamplerConfig, TextureFormat,
};
use vstd::prelude::*;

verus! {

/// Why a heatmap could not be built.
#[derive(Clone, Copy, Debug, PartialEq, Eq, Structural)]
pub enum HeatmapError {
    /// The grid holds `actual` samples where its width times its height is
    /// `expected`.
    ShapeMismatch { expected: u64, actual: u64 },
}

/// The colormap of a heatmap: its texture, the sampler that reads it, and the
/// layout under which the two are bound.
pub struct ScalarField {
    pub texture: ColormapTexture,
    pub sampler: SamplerConfig,
    pub bind_group_layout: Vec<LayoutEntry>,
}

/// A heatmap ready to be handed to the GPU.
pub struct Heatmap {
    pub field: ScalarField,
    pub mesh: Mesh,
}

impl Heatmap {
    /// This heatmap is the one built from the `width` by `height` grid
    /// `data`, row-major.
    pub open spec fn built_from(&self, data: Seq<i64>, width: u32, height: u32) -> bool {
        &&& data.len() == width * height
        &&& self.field.texture.wf()
        &&& self.field.texture.width == width
        &&& self.field.texture.height == height
        &&& self.field.texture.format == TextureFormat::Rgba8UnormSrgb
        &&& self.field.texture.sampled
        &&& self.field.texture.copy_destination
        &&& self.field.texture.texels@ == texel_bytes_spec(grid_colors(data))
        &&& self.field.sampler == colormap_sampler_spec()
        &&& self.field.bind_group_layout@ == colormap_layout_spec()
        &&& self.mesh.wf()
        &&& self.mesh.vertices@ == quad_vertices()
        &&& self.mesh.indices@ == quad_indices()
        &&& self.mesh.num_indices == 6
    }

    /// Builds the heatmap of the `width` by `height` grid `data`, row-major.
    /// Fails, and only then, when the grid does not hold `width * height`
    /// samples.
    pub fn new(data: &[i64], width: u32, height: u32) -> (r: Result<Heatmap, HeatmapError>)
        requires
            data@.len() * 4 <= usize::MAX,
        ensures
            r is Ok <==> data@.len() == width * height,
            r is Ok ==> r->Ok_0.built_from(data@, width, height),
            r is Err ==> r == Err::<Heatmap, HeatmapError>(
                HeatmapError::ShapeMismatch {
                    expected: (width * height) as u64,
                    actual: data@.len() as u64,
                },
            ),
    {
        assert(width * height <= 0xFFFF_FFFFu64 * 0xFFFF_FFFFu64) by (nonlinear_arith)
            requires
                width <= 0xFFFF_FFFFu64,
                height <= 0xFFFF_FFFFu64,
        ;
        let expected: u64 = width as u64 * height as u64;
        if data.len() as u64 != expected {
            return Err(HeatmapError::ShapeMismatch { expected, actual: data.len() as u64 });
        }
        let colors = normalize(data);
        let texture = ColormapTexture::from_colors(colors.as_slice(), width, height);
        let field = ScalarField {
            texture,
            sampler: colormap_sampler(),
            bind_group_layout: colormap_layout(),
        };
        Ok(Heatmap { field, mesh: Mesh::quad() })
    }
}

/// The texture of a heatmap is exactly as wide and as high as its grid.
pub proof fn lemma_texture_extent(h: &Heatmap, data: Seq<i64>, width: u32, height: u32)
    requires
        h.built_from(data, width, height),
    ensures
        h.field.texture.width == width,
        h.field.texture.height == height,
{
}

/// The pixel of a heatmap's texture at row `row` and column `col` holds the
/// color of sample `row * width + col` of its grid: channel `k` of it is at
/// byte `row * bytes_per_row + 4 * col + k`.
pub proof fn lemma_pixel_at(
    h: &Heatmap,
    data: Seq<i64>,
    width: u32,
    height: u32,
    row: int,
    col: int,
    k: int,
)
    requires
        h.built_from(data, width, height),
        0 <= row < height,
        0 <= col < width,
        0 <= k < 4,
    ensures
        0 <= row * width + col < data.len(),
        h.field.texture.texels@[row * h.field.texture.bytes_per_row + 4 * col + k]
            == color_bytes(grid_colors(data)[row * width + col])[k],
{
    let w = width as int;
    let i = row * w + col;
    let hgt = height as int;
    assert(0 <= row * w) by (nonlinear_arith)
        requires
            0 <= row,
            0 <= w,
    ;
    assert((row + 1) * w <= hgt * w) by (nonlinear_arith)
        requires
            row + 1 <= hgt,
            0 <= w,
    ;
    assert((row + 1) * w == row * w + w) by (nonlinear_arith);
    assert(row * (4 * w) + 4 * col + k == 4 * i + k) by (nonlinear_arith)
        requires
            i == row * w + col,
    ;
    lemma_texel_byte(grid_colors(data), i, k);
}

/// The mesh of a heatmap does not depend on its data: two heatmaps built from
/// any two grids have the same vertices, indices and index count.
pub proof fn lemma_mesh_independent(
    h1: &Heatmap,
    data1: Seq<i64>,
    width1: u32,
    height1: u32,
    h2: &Heatmap,
    data2: Seq<i64>,
    width2: u32,
    height2: u32,
)
    requires
        h1.built_from(data1, width1, height1),
        h2.built_from(data2, width2, height2),
    ensures
        h1.mesh.vertices@ == h2.mesh.vertices@,
        h1.mesh.indices@ == h2.mesh.indices@,
        h1.mesh.num_indices == h2.mesh.num_indices,
{
}

} // verus!
