use navier_map::{
    channel_value, color_scale, colormap_layout, colormap_sampler, normalize, texel_bytes,
    value_range, vertex_layout, AddressMode, BindingKind, FilterMode, Heatmap, HeatmapError,
    LayoutEntry, Mesh, Rgba8, TextureFormat, Vertex, VertexAttribute, VertexFormat,
};

fn rgba(r: u8, g: u8, b: u8, a: u8) -> Rgba8 {
    Rgba8 { r, g, b, a }
}

fn quad_corners() -> Vec<Vertex> {
    vec![
        Vertex { half_x: -1, half_y: -1, tex_u: 0, tex_v: 0 },
        Vertex { half_x: 1, half_y: -1, tex_u: 1, tex_v: 0 },
        Vertex { half_x: 1, half_y: 1, tex_u: 1, tex_v: 1 },
        Vertex { half_x: -1, half_y: 1, tex_u: 0, tex_v: 1 },
    ]
}

#[test]
fn two_by_two_ramp_scenario() {
    let data = [0i64, 1, 2, 3];
    assert_eq!(value_range(&data), (0, 3));
    let colors = normalize(&data);
    assert_eq!(
        colors,
        vec![
            rgba(0, 0, 255, 255),
            rgba(85, 0, 170, 255),
            rgba(170, 0, 85, 255),
            rgba(255, 0, 0, 255),
        ]
    );
    let h = Heatmap::new(&data, 2, 2).unwrap();
    assert_eq!(
        h.field.texture.texels,
        vec![0, 0, 255, 255, 85, 0, 170, 255, 170, 0, 85, 255, 255, 0, 0, 255]
    );
    assert_eq!(h.mesh.vertices, quad_corners());
    assert_eq!(h.mesh.indices, vec![0u16, 1, 2, 0, 2, 3]);
    assert_eq!(h.mesh.num_indices, 6);
}

#[test]
fn constant_grid_uses_fallback_color() {
    for (w, h) in [(1u32, 1u32), (3, 2), (16, 16)] {
        let data = vec![5i64; (w * h) as usize];
        let colors = normalize(&data);
        assert!(colors.iter().all(|c| *c == rgba(0, 0, 255, 255)));
        let map = Heatmap::new(&data, w, h).unwrap();
        let texels = &map.field.texture.texels;
        assert_eq!(texels.len(), (4 * w * h) as usize);
        for px in texels.chunks(4) {
            assert_eq!(px, &[0, 0, 255, 255]);
        }
    }
}

#[test]
fn extremes_get_end_colors() {
    let data = [7i64, -3, 12, 7, -3, 12];
    let colors = normalize(&data);
    assert_eq!(colors[1], rgba(0, 0, 255, 255));
    assert_eq!(colors[4], rgba(0, 0, 255, 255));
    assert_eq!(colors[2], rgba(255, 0, 0, 255));
    assert_eq!(colors[5], rgba(255, 0, 0, 255));
    // 10 / 15 of the range: 170 red, 85 blue.
    assert_eq!(colors[0], rgba(170, 0, 85, 255));
    assert_eq!(colors[0], colors[3]);
}

#[test]
fn colors_are_monotonic_in_value() {
    let data: Vec<i64> = (0..50).map(|i| i * i - 300).collect();
    let colors = normalize(&data);
    for i in 1..colors.len() {
        if data[i] >= data[i - 1] {
            assert!(colors[i].r >= colors[i - 1].r);
            assert!(colors[i].b <= colors[i - 1].b);
        }
    }
}

#[test]
fn extreme_sample_values_do_not_overflow() {
    let data = [i64::MIN, 0, i64::MAX];
    let colors = normalize(&data);
    assert_eq!(colors[0], rgba(0, 0, 255, 255));
    assert_eq!(colors[1], rgba(128, 0, 127, 255));
    assert_eq!(colors[2], rgba(255, 0, 0, 255));
}

#[test]
fn channel_rounds_half_up() {
    assert_eq!(channel_value(0, 7), 0);
    assert_eq!(channel_value(7, 7), 255);
    assert_eq!(channel_value(1, 2), 128);
    assert_eq!(channel_value(1, 3), 85);
    assert_eq!(channel_value(2, 3), 170);
    assert_eq!(channel_value(1, 255), 1);
}

#[test]
fn empty_grid_gives_empty_texture() {
    assert!(normalize(&[]).is_empty());
    let h = Heatmap::new(&[], 0, 0).unwrap();
    assert!(h.field.texture.texels.is_empty());
    assert_eq!(h.mesh.num_indices, 6);
}

#[test]
fn texture_matches_grid_extent() {
    let data: Vec<i64> = (0..12).collect();
    let h = Heatmap::new(&data, 4, 3).unwrap();
    let t = &h.field.texture;
    assert_eq!((t.width, t.height), (4, 3));
    assert_eq!(t.format, TextureFormat::Rgba8UnormSrgb);
    assert!(t.sampled && t.copy_destination);
    assert_eq!(t.bytes_per_row, 16);
    assert_eq!(t.rows_per_image, 3);
    assert_eq!(t.texels.len(), 48);
    // Row 2, column 1 is sample 9.
    let colors = normalize(&data);
    let at = 2 * 16 + 4 * 1;
    assert_eq!(&t.texels[at..at + 4], &[colors[9].r, colors[9].g, colors[9].b, colors[9].a]);
}

#[test]
fn shape_mismatch_fails() {
    let data = [1i64, 2, 3];
    assert_eq!(
        Heatmap::new(&data, 2, 2).err(),
        Some(HeatmapError::ShapeMismatch { expected: 4, actual: 3 })
    );
    assert_eq!(
        Heatmap::new(&[1, 2, 3, 4, 5], 2, 2).err(),
        Some(HeatmapError::ShapeMismatch { expected: 4, actual: 5 })
    );
    assert!(Heatmap::new(&data, 3, 1).is_ok());
    assert!(Heatmap::new(&data, 1, 3).is_ok());
}

#[test]
fn mesh_does_not_depend_on_data() {
    let a = Heatmap::new(&[1, 2, 3, 4, 5, 6], 3, 2).unwrap();
    let b = Heatmap::new(&[9], 1, 1).unwrap();
    assert_eq!(a.mesh.vertices, b.mesh.vertices);
    assert_eq!(a.mesh.indices, b.mesh.indices);
    assert_eq!(a.mesh.num_indices, b.mesh.num_indices);
    let q = Mesh::quad();
    assert_eq!(q.vertices, quad_corners());
}

#[test]
fn sampler_and_layout() {
    let s = colormap_sampler();
    assert_eq!(s.address_mode_u, AddressMode::ClampToEdge);
    assert_eq!(s.address_mode_v, AddressMode::ClampToEdge);
    assert_eq!(s.address_mode_w, AddressMode::ClampToEdge);
    assert_eq!(s.mag_filter, FilterMode::Linear);
    assert_eq!(s.min_filter, FilterMode::Linear);
    assert_eq!(s.mipmap_filter, FilterMode::Linear);
    assert_eq!(
        colormap_layout(),
        vec![
            LayoutEntry { binding: 0, kind: BindingKind::FilterableTexture2d },
            LayoutEntry { binding: 1, kind: BindingKind::FilteringSampler },
        ]
    );
}

#[test]
fn texel_bytes_are_rgba_in_order() {
    let bytes = texel_bytes(&[rgba(1, 2, 3, 4), rgba(5, 6, 7, 8)]);
    assert_eq!(bytes, vec![1, 2, 3, 4, 5, 6, 7, 8]);
}

#[test]
fn vertex_layouts_pack_attributes() {
    let l = Vertex::desc();
    assert_eq!(l.array_stride, 16);
    assert_eq!(
        l.attributes,
        vec![
            VertexAttribute { format: VertexFormat::Float32x2, offset: 0, shader_location: 0 },
            VertexAttribute { format: VertexFormat::Float32x2, offset: 8, shader_location: 1 },
        ]
    );
    let p = vertex_layout(&[VertexFormat::Float32x2, VertexFormat::Float32]);
    assert_eq!(p.array_stride, 12);
    assert_eq!(p.attributes[1].offset, 8);
    assert_eq!(p.attributes[1].format, VertexFormat::Float32);
    assert_eq!(p.attributes[1].shader_location, 1);
}

#[test]
fn color_scale_steps() {
    let s = color_scale();
    assert_eq!(s.len(), 100);
    assert_eq!(s[0], rgba(0, 0, 252, 255));
    assert_eq!(s[14], rgba(0, 0, 210, 255));
    assert_eq!(s[15], rgba(3, 0, 207, 255));
    assert_eq!(s[84], rgba(210, 0, 0, 255));
    assert_eq!(s[99], rgba(255, 0, 0, 255));
}
