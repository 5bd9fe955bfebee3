use gltf_linux_preview::assets::AssetKey;
use gltf_linux_preview::stats::{
    model_stats, stats_lines, triangle_count, MaterialRef, MaterialTextures, MeshData, MeshRef,
    ModelStats, PrimitiveTopology, SceneNode, StatsAccumulator, TextureRef,
};

fn mesh(id: u64, topology: PrimitiveTopology, indices: Option<usize>, vertices: usize) -> MeshRef {
    MeshRef {
        id: AssetKey::Index(id),
        data: Some(MeshData {
            topology,
            vertex_count: vertices,
            index_count: indices,
            vertex_buffer_bytes: vertices * 32,
            index_buffer_bytes: indices.map(|n| n * 4),
        }),
    }
}

fn texture(id: u64, bytes: Option<usize>) -> Option<TextureRef> {
    Some(TextureRef { id: AssetKey::Uuid(id as u128), data_bytes: bytes })
}

fn material(id: u64, textures: Option<MaterialTextures>) -> MaterialRef {
    MaterialRef { id: AssetKey::Index(1000 + id), textures }
}

fn plain_textures() -> MaterialTextures {
    MaterialTextures {
        base_color: None,
        emissive: None,
        metallic_roughness: None,
        normal_map: None,
        occlusion: None,
    }
}

fn leaf(mesh: Option<MeshRef>, material: Option<MaterialRef>) -> SceneNode {
    SceneNode { mesh, material, as_loaded: None, children: Vec::new() }
}

#[test]
fn triangle_counts_of_every_topology() {
    assert_eq!(triangle_count(PrimitiveTopology::TriangleList, 7), 2);
    assert_eq!(triangle_count(PrimitiveTopology::TriangleStrip, 1), 0);
    assert_eq!(triangle_count(PrimitiveTopology::TriangleStrip, 2), 0);
    assert_eq!(triangle_count(PrimitiveTopology::TriangleStrip, 5), 3);
    assert_eq!(triangle_count(PrimitiveTopology::PointList, 9), 0);
    assert_eq!(triangle_count(PrimitiveTopology::LineList, 9), 0);
    assert_eq!(triangle_count(PrimitiveTopology::LineStrip, 9), 0);
}

#[test]
fn stats_of_an_empty_hierarchy() {
    let stats = model_stats(&leaf(None, None)).unwrap();
    assert_eq!(
        stats,
        ModelStats { polygons: 0, faces: 0, vertices: 0, vram_bytes: 0, available: true }
    );
}

#[test]
fn shared_meshes_count_polygons_per_use_and_bytes_once() {
    // Two instances of one indexed mesh (12 indices, 8 vertices) and one
    // strip drawn from its 6 vertices.
    let cube = mesh(1, PrimitiveTopology::TriangleList, Some(12), 8);
    let strip = mesh(2, PrimitiveTopology::TriangleStrip, None, 6);
    let root = SceneNode {
        mesh: None,
        material: None,
        as_loaded: None,
        children: vec![
            leaf(Some(cube), None),
            SceneNode {
                mesh: None,
                material: None,
                as_loaded: None,
                children: vec![leaf(Some(cube), None), leaf(Some(strip), None)],
            },
        ],
    };
    let stats = model_stats(&root).unwrap();
    assert_eq!(stats.polygons, 4 + 4 + 4);
    assert_eq!(stats.faces, stats.polygons);
    assert_eq!(stats.vertices, 8 + 8 + 6);
    assert_eq!(stats.vram_bytes, (8 * 32 + 12 * 4) + 6 * 32);
}

#[test]
fn textures_count_once_per_image_and_materials_once() {
    let cube = mesh(1, PrimitiveTopology::TriangleList, None, 3);
    let shared = texture(7, Some(100));
    let first = material(
        1,
        Some(MaterialTextures {
            base_color: shared,
            emissive: shared,
            metallic_roughness: texture(8, Some(10)),
            normal_map: texture(9, None),
            occlusion: None,
        }),
    );
    let second = material(
        2,
        Some(MaterialTextures { base_color: shared, occlusion: texture(10, Some(1)), ..plain_textures() }),
    );
    let root = SceneNode {
        mesh: Some(cube),
        material: Some(first),
        as_loaded: None,
        children: vec![leaf(Some(cube), Some(first)), leaf(Some(cube), Some(second))],
    };
    let stats = model_stats(&root).unwrap();
    assert_eq!(stats.polygons, 3);
    assert_eq!(stats.vram_bytes, 3 * 32 + 100 + 10 + 1);
}

#[test]
fn unloaded_assets_add_nothing_and_stay_unmarked_or_marked_as_read() {
    let unloaded = MeshRef { id: AssetKey::Index(5), data: None };
    let unloaded_material = material(3, None);
    let cube = mesh(5, PrimitiveTopology::TriangleList, None, 3);
    let root = SceneNode {
        mesh: Some(unloaded),
        material: Some(unloaded_material),
        as_loaded: None,
        children: vec![leaf(Some(cube), Some(material(3, Some(MaterialTextures {
            base_color: texture(1, Some(50)),
            ..plain_textures()
        }))))],
    };
    let stats = model_stats(&root).unwrap();
    // The unloaded mesh is not marked, so its later loaded copy counts its
    // buffers; the material was marked when first met, so its textures never
    // count.
    assert_eq!(stats.polygons, 1);
    assert_eq!(stats.vram_bytes, 3 * 32);
}

#[test]
fn loaded_assets_are_counted_in_place_of_view_variants() {
    let variant = mesh(2, PrimitiveTopology::TriangleList, None, 30);
    let loaded = mesh(1, PrimitiveTopology::TriangleList, None, 6);
    let node = SceneNode {
        mesh: Some(variant),
        material: None,
        as_loaded: Some((loaded, material(1, None))),
        children: Vec::new(),
    };
    let stats = model_stats(&node).unwrap();
    assert_eq!(stats.polygons, 2);
    assert_eq!(stats.vertices, 6);
    assert_eq!(stats.vram_bytes, 6 * 32);

    let without_mesh = SceneNode {
        mesh: None,
        material: None,
        as_loaded: Some((loaded, material(1, None))),
        children: Vec::new(),
    };
    assert_eq!(model_stats(&without_mesh).unwrap().polygons, 0);
}

#[test]
fn overflowing_totals_give_none() {
    let huge = |id: u64| MeshRef {
        id: AssetKey::Index(id),
        data: Some(MeshData {
            topology: PrimitiveTopology::PointList,
            vertex_count: 1,
            index_count: None,
            vertex_buffer_bytes: usize::MAX,
            index_buffer_bytes: None,
        }),
    };
    let one = leaf(Some(huge(1)), None);
    assert_eq!(model_stats(&one).unwrap().vram_bytes, usize::MAX);
    let two = SceneNode {
        mesh: Some(huge(1)),
        material: None,
        as_loaded: None,
        children: vec![leaf(Some(huge(2)), None)],
    };
    assert!(model_stats(&two).is_none());
    let same_twice = SceneNode {
        mesh: Some(huge(1)),
        material: None,
        as_loaded: None,
        children: vec![leaf(Some(huge(1)), None)],
    };
    assert_eq!(model_stats(&same_twice).unwrap().vram_bytes, usize::MAX);
}

#[test]
fn accumulator_carries_marks_across_hierarchies() {
    let cube = mesh(1, PrimitiveTopology::TriangleList, None, 3);
    let mut acc = StatsAccumulator::new();
    assert!(acc.accumulate_model_stats(&leaf(Some(cube), None)));
    assert_eq!(
        acc.totals(),
        ModelStats { polygons: 1, faces: 1, vertices: 3, vram_bytes: 96, available: false }
    );
    assert!(acc.accumulate_model_stats(&leaf(Some(cube), None)));
    assert_eq!(
        acc.totals(),
        ModelStats { polygons: 2, faces: 2, vertices: 6, vram_bytes: 96, available: false }
    );
}

#[test]
fn stats_lines_before_and_after() {
    let loading = stats_lines(&ModelStats::default());
    assert_eq!(loading, vec!["Estatisticas carregando...".to_string()]);
    let ready = stats_lines(&ModelStats {
        polygons: 12,
        faces: 12,
        vertices: 24,
        vram_bytes: 1_572_864,
        available: true,
    });
    assert_eq!(
        ready,
        vec![
            "Poligonos: 12".to_string(),
            "Faces: 12".to_string(),
            "Vertices: 24".to_string(),
            "VRAM estimada: 1.5 MiB".to_string(),
        ]
    );
}
