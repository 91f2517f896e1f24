//! Builds the GPU-ready state of a color-mapped heatmap from a grid of
//! scalar samples: the normalized colors, the 8-bit texture image and its
//! upload layout, the sampler and bind-group layout, and the quad mesh.

mod binding;
mod color;
mod heatmap;
mod mesh;
mod ramp;
mod texture;

pub use binding::{colormap_layout, colormap_layout_spec, BindingKind, LayoutEntry};
pub use color::{
    channel, channel_value, color_of, grid_colors, grid_max, grid_min, lemma_color_monotonic,
    lemma_grid_colors_monotonic,
    lemma_constant_grid_fallback, lemma_grid_bounds, lemma_ratio_bounds, normalize,
    ratio_one_color, ratio_zero_color, value_range, Rgba8,
};
pub use heatmap::{
    lemma_mesh_independent, lemma_pixel_at, lemma_texture_extent, Heatmap, HeatmapError,
    ScalarField,
};
pub use mesh::{
    format_size, formats_size, packed_attribute, quad_indices, quad_vertices, vertex_layout, Mesh,
    Vertex, VertexAttribute, VertexFormat, VertexLayout,
};
pub use ramp::{color_scale, ramp_color, RAMP_DELTA, RAMP_STEPS, RED_START};
pub use texture::{
    color_bytes, colormap_sampler, colormap_sampler_spec, lemma_texel_byte, lemma_texel_len,
    texel_bytes, texel_bytes_spec, AddressMode, ColormapTexture, FilterMode, SamplerConfig,
    TextureFormat, BYTES_PER_PIXEL,
};
