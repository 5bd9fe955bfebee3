//! Model statistics: triangulated polygon and face counts and the vertex
//! count over every mesh instance of the model, and the estimated VRAM of its
//! unique vertex/index buffers and unique textures.
use vstd::prelude::*;

use crate::assets::AssetKey;
use crate::text::{byte_size_text, decimal, format_bytes, push_decimal};

verus! {

/// How the vertices of a mesh are assembled into primitives.
#[derive(Clone, Copy, Debug, PartialEq, Eq, Structural)]
pub enum PrimitiveTopology {
    PointList,
    LineList,
    LineStrip,
    TriangleList,
    TriangleStrip,
}

/// The number of triangles that `count` elements form under a topology.
pub open spec fn triangles(topology: PrimitiveTopology, count: nat) -> nat {
    match topology {
        PrimitiveTopology::TriangleList => count / 3,
        PrimitiveTopology::TriangleStrip => if count >= 2 {
            (count - 2) as nat
        } else {
            0
        },
        _ => 0,
    }
}

/// The number of triangles that `element_count` indices (or vertices) form:
/// one per three in a list, one per element after the first two in a strip,
/// none for points and lines.
pub fn triangle_count(topology: PrimitiveTopology, element_count: usize) -> (n: usize)
    ensures
        n == triangles(topology, element_count as nat),
{
    match topology {
        PrimitiveTopology::TriangleList => element_count / 3,
        PrimitiveTopology::TriangleStrip => if element_count >= 2 {
            element_count - 2
        } else {
            0
        },
        _ => 0,
    }
}

/// What the statistics read of a loaded mesh asset.
#[derive(Clone, Copy, Debug, PartialEq, Eq, Structural)]
pub struct MeshData {
    pub topology: PrimitiveTopology,
    pub vertex_count: usize,
    /// The number of indices, for an indexed mesh.
    pub index_count: Option<usize>,
    pub vertex_buffer_bytes: usize,
    /// The size of the index buffer, for an indexed mesh.
    pub index_buffer_bytes: Option<usize>,
}

/// A mesh handle: its asset's identity and, once loaded, the asset.
#[derive(Clone, Copy, Debug, PartialEq, Eq, Structural)]
pub struct MeshRef {
    pub id: AssetKey,
    pub data: Option<MeshData>,
}

/// A texture used by a material: the image's identity and the size of its
/// pixel data, when the image is loaded and holds data.
#[derive(Clone, Copy, Debug, PartialEq, Eq, Structural)]
pub struct TextureRef {
    pub id: AssetKey,
    pub data_bytes: Option<usize>,
}

/// The texture slots of a loaded material.
#[derive(Clone, Copy, Debug, PartialEq, Eq, Structural)]
pub struct MaterialTextures {
    pub base_color: Option<TextureRef>,
    pub emissive: Option<TextureRef>,
    pub metallic_roughness: Option<TextureRef>,
    pub normal_map: Option<TextureRef>,
    pub occlusion: Option<TextureRef>,
}

/// A material handle: its asset's identity and, once loaded, its textures.
#[derive(Clone, Copy, Debug, PartialEq, Eq, Structural)]
pub struct MaterialRef {
    pub id: AssetKey,
    pub textures: Option<MaterialTextures>,
}

/// One entity of the model's hierarchy.
pub struct SceneNode {
    /// The mesh the entity renders now, if it renders one.
    pub mesh: Option<MeshRef>,
    /// The material the entity renders with now, if any.
    pub material: Option<MaterialRef>,
    /// The mesh and material the model was loaded with, once recorded; the
    /// view modes may have swapped the rendered ones for variants.
    pub as_loaded: Option<(MeshRef, MaterialRef)>,
    pub children: Vec<SceneNode>,
}

/// A rendered mesh with the material it counts with.
#[derive(Clone, Copy, Debug, PartialEq, Eq, Structural)]
pub struct MeshInstance {
    pub mesh: MeshRef,
    pub material: Option<MaterialRef>,
}

/// The instance an entity contributes: none unless it renders a mesh; its
/// recorded mesh and material as loaded when there are, else what it renders.
pub open spec fn node_instance(node: SceneNode) -> Option<MeshInstance> {
    match node.mesh {
        None => None,
        Some(mesh) => match node.as_loaded {
            Some(orig) => Some(MeshInstance { mesh: orig.0, material: Some(orig.1) }),
            None => Some(MeshInstance { mesh, material: node.material }),
        },
    }
}

pub open spec fn option_seq<T>(o: Option<T>) -> Seq<T> {
    match o {
        Some(x) => seq![x],
        None => Seq::empty(),
    }
}

/// The mesh instances of a hierarchy, in depth-first pre-order.
pub open spec fn node_instances(node: SceneNode) -> Seq<MeshInstance>
    decreases node,
{
    option_seq(node_instance(node)) + nodes_instances(node.children@)
}

/// The mesh instances of a list of sibling hierarchies, in order.
pub open spec fn nodes_instances(nodes: Seq<SceneNode>) -> Seq<MeshInstance>
    decreases nodes,
{
    if nodes.len() == 0 {
        Seq::empty()
    } else {
        nodes_instances(nodes.drop_last()) + node_instances(nodes.last())
    }
}

/// The number of elements (indices, else vertices) a mesh is drawn from.
pub open spec fn element_count(m: MeshData) -> nat {
    match m.index_count {
        Some(n) => n as nat,
        None => m.vertex_count as nat,
    }
}

pub open spec fn size_or_zero(n: Option<usize>) -> nat {
    match n {
        Some(x) => x as nat,
        None => 0,
    }
}

/// The bytes of a mesh's vertex and index buffers.
pub open spec fn buffer_bytes(m: MeshData) -> nat {
    m.vertex_buffer_bytes as nat + size_or_zero(m.index_buffer_bytes)
}

/// The texture slots of a material, in the order they are counted.
pub open spec fn texture_slots(t: MaterialTextures) -> Seq<Option<TextureRef>> {
    seq![t.base_color, t.emissive, t.metallic_roughness, t.normal_map, t.occlusion]
}

/// The images already counted and the bytes counted for a material's textures.
pub struct TextureScan {
    pub images: Set<AssetKey>,
    pub bytes: nat,
}

/// Counts one texture slot: a texture whose image was not met before marks
/// it and adds its data size.
pub open spec fn scan_slot(acc: TextureScan, slot: Option<TextureRef>) -> TextureScan {
    match slot {
        None => acc,
        Some(tex) => if acc.images.contains(tex.id) {
            acc
        } else {
            TextureScan {
                images: acc.images.insert(tex.id),
                bytes: acc.bytes + size_or_zero(tex.data_bytes),
            }
        },
    }
}

pub open spec fn scan_slots(acc: TextureScan, slots: Seq<Option<TextureRef>>) -> TextureScan
    decreases slots.len(),
{
    if slots.len() == 0 {
        acc
    } else {
        scan_slot(scan_slots(acc, slots.drop_last()), slots.last())
    }
}

/// The running totals of a statistics pass, with the assets already counted.
pub struct Tally {
    pub polygons: int,
    pub faces: int,
    pub vertices: int,
    pub vram: int,
    pub meshes: Set<AssetKey>,
    pub materials: Set<AssetKey>,
    pub images: Set<AssetKey>,
}

/// Counts the mesh of an instance: its triangles always, its buffers only
/// the first time its asset is met.
pub open spec fn count_mesh(t: Tally, mesh: MeshRef) -> Tally {
    match mesh.data {
        None => t,
        Some(d) => {
            let n = triangles(d.topology, element_count(d));
            Tally {
                polygons: t.polygons + n,
                faces: t.faces + n,
                vertices: t.vertices + d.vertex_count,
                vram: if t.meshes.contains(mesh.id) {
                    t.vram
                } else {
                    t.vram + buffer_bytes(d)
                },
                meshes: t.meshes.insert(mesh.id),
                materials: t.materials,
                images: t.images,
            }
        },
    }
}

/// Counts the material of an instance: the first time its asset is met, the
/// textures of it that were not counted yet.
pub open spec fn count_material(t: Tally, material: Option<MaterialRef>) -> Tally {
    match material {
        None => t,
        Some(mat) => if t.materials.contains(mat.id) {
            t
        } else {
            match mat.textures {
                None => Tally { materials: t.materials.insert(mat.id), ..t },
                Some(tx) => {
                    let scan = scan_slots(TextureScan { images: t.images, bytes: 0 }, texture_slots(tx));
                    Tally {
                        vram: t.vram + scan.bytes,
                        materials: t.materials.insert(mat.id),
                        images: scan.images,
                        ..t
                    }
                },
            }
        },
    }
}

pub open spec fn count_instance(t: Tally, inst: MeshInstance) -> Tally {
    count_material(count_mesh(t, inst.mesh), inst.material)
}

/// The totals after counting a sequence of instances in order.
pub open spec fn count_instances(t: Tally, s: Seq<MeshInstance>) -> Tally
    decreases s.len(),
{
    if s.len() == 0 {
        t
    } else {
        count_instance(count_instances(t, s.drop_last()), s.last())
    }
}

/// Totals before anything is counted.
pub open spec fn empty_tally() -> Tally {
    Tally {
        polygons: 0,
        faces: 0,
        vertices: 0,
        vram: 0,
        meshes: Set::empty(),
        materials: Set::empty(),
        images: Set::empty(),
    }
}

/// The totals of a whole model.
pub open spec fn model_tally(root: SceneNode) -> Tally {
    count_instances(empty_tally(), node_instances(root))
}

/// Every total fits in a `usize`.
pub open spec fn fits(t: Tally) -> bool {
    &&& t.polygons <= usize::MAX
    &&& t.faces <= usize::MAX
    &&& t.vertices <= usize::MAX
    &&& t.vram <= usize::MAX
}

/// The statistics shown for the model.
#[derive(Clone, Copy, Debug, PartialEq, Eq, Structural)]
pub struct ModelStats {
    pub polygons: usize,
    pub faces: usize,
    pub vertices: usize,
    pub vram_bytes: usize,
    /// Whether the statistics have been computed.
    pub available: bool,
}

impl Default for ModelStats {
    fn default() -> (s: Self)
        ensures
            s.polygons == 0 && s.faces == 0 && s.vertices == 0 && s.vram_bytes == 0 && !s.available,
    {
        ModelStats { polygons: 0, faces: 0, vertices: 0, vram_bytes: 0, available: false }
    }
}

// ---- Lemmas on the totals ----

proof fn lemma_scan_monotone(acc: TextureScan, slots: Seq<Option<TextureRef>>)
    ensures
        scan_slots(acc, slots).bytes >= acc.bytes,
    decreases slots.len(),
{
    if slots.len() > 0 {
        lemma_scan_monotone(acc, slots.drop_last());
    }
}

proof fn lemma_instance_monotone(t: Tally, inst: MeshInstance)
    ensures
        count_instance(t, inst).polygons >= t.polygons,
        count_instance(t, inst).faces >= t.faces,
        count_instance(t, inst).vertices >= t.vertices,
        count_instance(t, inst).vram >= t.vram,
{
    let t1 = count_mesh(t, inst.mesh);
    if let Some(mat) = inst.material {
        if let Some(tx) = mat.textures {
            lemma_scan_monotone(TextureScan { images: t1.images, bytes: 0 }, texture_slots(tx));
        }
    }
}

proof fn lemma_count_monotone(t: Tally, s: Seq<MeshInstance>)
    ensures
        count_instances(t, s).polygons >= t.polygons,
        count_instances(t, s).faces >= t.faces,
        count_instances(t, s).vertices >= t.vertices,
        count_instances(t, s).vram >= t.vram,
    decreases s.len(),
{
    if s.len() > 0 {
        lemma_count_monotone(t, s.drop_last());
        lemma_instance_monotone(count_instances(t, s.drop_last()), s.last());
    }
}

proof fn lemma_count_append(t: Tally, a: Seq<MeshInstance>, b: Seq<MeshInstance>)
    ensures
        count_instances(t, a + b) == count_instances(count_instances(t, a), b),
    decreases b.len(),
{
    if b.len() == 0 {
        assert(a + b =~= a);
    } else {
        assert((a + b).drop_last() =~= a + b.drop_last());
        lemma_count_append(t, a, b.drop_last());
    }
}

proof fn lemma_unfit_stays(t: Tally, s: Seq<MeshInstance>)
    requires
        !fits(t),
    ensures
        !fits(count_instances(t, s)),
{
    lemma_count_monotone(t, s);
}

proof fn lemma_nodes_push(nodes: Seq<SceneNode>, i: int)
    requires
        0 <= i < nodes.len(),
    ensures
        nodes_instances(nodes.take(i + 1)) == nodes_instances(nodes.take(i)) + node_instances(
            nodes[i],
        ),
{
    assert(nodes.take(i + 1).drop_last() =~= nodes.take(i));
}

// ---- Counting ----

/// The set of keys in a list.
pub open spec fn key_set(keys: Seq<AssetKey>) -> Set<AssetKey> {
    Set::new(|k: AssetKey| keys.contains(k))
}

/// Marks `key` as met; tells whether it was new.
fn mark_new(keys: &mut Vec<AssetKey>, key: AssetKey) -> (new: bool)
    ensures
        new == !key_set(old(keys)@).contains(key),
        key_set(final(keys)@) == key_set(old(keys)@).insert(key),
{
    let mut i: usize = 0;
    while i < keys.len()
        invariant
            i <= keys@.len(),
            forall|j: int| 0 <= j < i ==> keys@[j] != key,
        decreases keys@.len() - i,
    {
        if keys[i] == key {
            assert(keys@.contains(key));
            assert(key_set(keys@).insert(key) =~= key_set(keys@));
            return false;
        }
        i = i + 1;
    }
    let ghost before = keys@;
    keys.push(key);
    proof {
        assert(!before.contains(key));
        assert forall|k: AssetKey| #[trigger] keys@.contains(k) <==> before.contains(k) || k == key by {
            if keys@.contains(k) {
                let j = choose|j: int| 0 <= j < keys@.len() && keys@[j] == k;
                if j < before.len() {
                    assert(before[j] == k);
                }
            }
            if before.contains(k) {
                let j = choose|j: int| 0 <= j < before.len() && before[j] == k;
                assert(keys@[j] == k);
            }
            if k == key {
                assert(keys@[before.len() as int] == k);
            }
        }
        assert(key_set(keys@) =~= key_set(before).insert(key));
    }
    true
}

/// The totals of a statistics pass over a model, with the mesh, material and
/// image assets met so far.
pub struct StatsAccumulator {
    stats: ModelStats,
    mesh_ids: Vec<AssetKey>,
    material_ids: Vec<AssetKey>,
    image_ids: Vec<AssetKey>,
}

impl StatsAccumulator {
    pub closed spec fn tally(&self) -> Tally {
        Tally {
            polygons: self.stats.polygons as int,
            faces: self.stats.faces as int,
            vertices: self.stats.vertices as int,
            vram: self.stats.vram_bytes as int,
            meshes: key_set(self.mesh_ids@),
            materials: key_set(self.material_ids@),
            images: key_set(self.image_ids@),
        }
    }

    /// An accumulator with nothing counted.
    pub fn new() -> (acc: Self)
        ensures
            acc.tally() == empty_tally(),
    {
        let acc = StatsAccumulator {
            stats: ModelStats::default(),
            mesh_ids: Vec::new(),
            material_ids: Vec::new(),
            image_ids: Vec::new(),
        };
        assert(key_set(acc.mesh_ids@) =~= Set::<AssetKey>::empty());
        assert(key_set(acc.material_ids@) =~= Set::<AssetKey>::empty());
        assert(key_set(acc.image_ids@) =~= Set::<AssetKey>::empty());
        acc
    }

    /// The totals counted so far, not yet marked as the finished statistics.
    pub fn totals(&self) -> (s: ModelStats)
        ensures
            s.polygons == self.tally().polygons,
            s.faces == self.tally().faces,
            s.vertices == self.tally().vertices,
            s.vram_bytes == self.tally().vram,
            !s.available,
    {
        ModelStats {
            polygons: self.stats.polygons,
            faces: self.stats.faces,
            vertices: self.stats.vertices,
            vram_bytes: self.stats.vram_bytes,
            available: false,
        }
    }

    fn add_mesh(&mut self, mesh: &MeshRef) -> (ok: bool)
        ensures
            ok ==> final(self).tally() == count_mesh(old(self).tally(), *mesh),
            !ok ==> !fits(count_mesh(old(self).tally(), *mesh)),
            final(self).image_ids@ == old(self).image_ids@,
            final(self).material_ids@ == old(self).material_ids@,
    {
        let ghost t = self.tally();
        match &mesh.data {
            None => true,
            Some(d) => {
                let elements = match d.index_count {
                    Some(n) => n,
                    None => d.vertex_count,
                };
                let n = triangle_count(d.topology, elements);
                let polygons = match self.stats.polygons.checked_add(n) {
                    Some(p) => p,
                    None => return false,
                };
                let faces = match self.stats.faces.checked_add(n) {
                    Some(f) => f,
                    None => return false,
                };
                let vertices = match self.stats.vertices.checked_add(d.vertex_count) {
                    Some(v) => v,
                    None => return false,
                };
                self.stats.polygons = polygons;
                self.stats.faces = faces;
                self.stats.vertices = vertices;
                let ghost seen_before = key_set(self.mesh_ids@);
                if mark_new(&mut self.mesh_ids, mesh.id) {
                    let with_vertices = match self.stats.vram_bytes.checked_add(d.vertex_buffer_bytes) {
                        Some(v) => v,
                        None => return false,
                    };
                    let index_bytes = match d.index_buffer_bytes {
                        Some(b) => b,
                        None => 0,
                    };
                    let with_indices = match with_vertices.checked_add(index_bytes) {
                        Some(v) => v,
                        None => return false,
                    };
                    self.stats.vram_bytes = with_indices;
                } else {
                    assert(seen_before.contains(mesh.id));
                }
                assert(self.tally().meshes == t.meshes.insert(mesh.id));
                true
            },
        }
    }

    /// Counts the textures of a material whose images were not met yet, and
    /// marks those images as met; `None` when the sum would not fit.
    fn material_texture_bytes(&mut self, textures: &MaterialTextures) -> (bytes: Option<usize>)
        ensures
            ({
                let scan = scan_slots(
                    TextureScan { images: key_set(old(self).image_ids@), bytes: 0 },
                    texture_slots(*textures),
                );
                match bytes {
                    Some(b) => b == scan.bytes && key_set(final(self).image_ids@) == scan.images,
                    None => scan.bytes > usize::MAX,
                }
            }),
            final(self).stats == old(self).stats,
            final(self).mesh_ids@ == old(self).mesh_ids@,
            final(self).material_ids@ == old(self).material_ids@,
    {
        let slots = [
            textures.base_color,
            textures.emissive,
            textures.metallic_roughness,
            textures.normal_map,
            textures.occlusion,
        ];
        let ghost all = texture_slots(*textures);
        assert(slots@ =~= all);
        let ghost start = TextureScan { images: key_set(self.image_ids@), bytes: 0 };
        let mut sum: usize = 0;
        let mut i: usize = 0;
        while i < 5
            invariant
                i <= 5,
                slots@ == all,
                all == texture_slots(*textures),
                start == (TextureScan { images: key_set(old(self).image_ids@), bytes: 0 }),
                scan_slots(start, all.take(i as int)).bytes == sum,
                scan_slots(start, all.take(i as int)).images == key_set(self.image_ids@),
                self.stats == old(self).stats,
                self.mesh_ids@ == old(self).mesh_ids@,
                self.material_ids@ == old(self).material_ids@,
            decreases 5 - i,
        {
            assert(all.take(i + 1).drop_last() =~= all.take(i as int));
            assert(all.take(i + 1).last() == all[i as int]);
            match slots[i] {
                None => {},
                Some(tex) => {
                    if mark_new(&mut self.image_ids, tex.id) {
                        let add = match tex.data_bytes {
                            Some(b) => b,
                            None => 0,
                        };
                        match sum.checked_add(add) {
                            Some(s) => {
                                sum = s;
                            },
                            None => {
                                proof {
                                    lemma_scan_prefix(start, all, i + 1);
                                }
                                return None;
                            },
                        }
                    }
                },
            }
            i = i + 1;
        }
        assert(all.take(5) =~= all);
        Some(sum)
    }

    fn add_material(&mut self, material: &Option<MaterialRef>) -> (ok: bool)
        ensures
            ok ==> final(self).tally() == count_material(old(self).tally(), *material),
            !ok ==> !fits(count_material(old(self).tally(), *material)),
    {
        match material {
            None => true,
            Some(mat) => {
                let ghost t = self.tally();
                if !mark_new(&mut self.material_ids, mat.id) {
                    assert(key_set(self.material_ids@) =~= t.materials);
                    return true;
                }
                match &mat.textures {
                    None => true,
                    Some(tx) => {
                        match self.material_texture_bytes(tx) {
                            None => false,
                            Some(bytes) => match self.stats.vram_bytes.checked_add(bytes) {
                                Some(v) => {
                                    self.stats.vram_bytes = v;
                                    true
                                },
                                None => false,
                            },
                        }
                    },
                }
            },
        }
    }

    fn add_instance(&mut self, inst: MeshInstance) -> (ok: bool)
        ensures
            ok ==> final(self).tally() == count_instance(old(self).tally(), inst),
            !ok ==> !fits(count_instance(old(self).tally(), inst)),
    {
        let ghost t = self.tally();
        if !self.add_mesh(&inst.mesh) {
            proof {
                let t1 = count_mesh(t, inst.mesh);
                if let Some(mat) = inst.material {
                    if let Some(tx) = mat.textures {
                        lemma_scan_monotone(TextureScan { images: t1.images, bytes: 0 }, texture_slots(tx));
                    }
                }
            }
            return false;
        }
        self.add_material(&inst.material)
    }

    /// Counts every mesh instance of a hierarchy, depth first, the entity
    /// before its children; `false` when a total would not fit in a `usize`.
    pub fn accumulate_model_stats(&mut self, node: &SceneNode) -> (ok: bool)
        ensures
            ok ==> final(self).tally() == count_instances(old(self).tally(), node_instances(*node)),
            !ok ==> !fits(count_instances(old(self).tally(), node_instances(*node))),
        decreases node,
    {
        let ghost t0 = self.tally();
        let ghost own = option_seq(node_instance(*node));
        if let Some(mesh) = &node.mesh {
            let inst = match &node.as_loaded {
                Some(orig) => MeshInstance { mesh: orig.0, material: Some(orig.1) },
                None => MeshInstance { mesh: *mesh, material: node.material },
            };
            assert(own =~= seq![inst]);
            assert(own.drop_last() =~= Seq::<MeshInstance>::empty());
            assert(own.last() == inst);
            assert(count_instances(t0, own.drop_last()) == t0);
            assert(count_instances(t0, own) == count_instance(t0, inst));
            if !self.add_instance(inst) {
                proof {
                    lemma_count_append(t0, own, nodes_instances(node.children@));
                    lemma_unfit_stays(count_instances(t0, own), nodes_instances(node.children@));
                }
                return false;
            }
        } else {
            assert(own =~= Seq::<MeshInstance>::empty());
            assert(count_instances(t0, own) == t0);
        }
        let ghost t1 = self.tally();
        assert(t1 == count_instances(t0, own));
        let ghost children = node.children@;
        let mut i: usize = 0;
        while i < node.children.len()
            invariant
                i <= children.len(),
                children == node.children@,
                self.tally() == count_instances(t1, nodes_instances(children.take(i as int))),
                t1 == count_instances(t0, own),
                t0 == old(self).tally(),
                own == option_seq(node_instance(*node)),
            decreases children.len() - i,
        {
            proof {
                lemma_nodes_push(children, i as int);
                lemma_count_append(
                    t1,
                    nodes_instances(children.take(i as int)),
                    node_instances(children[i as int]),
                );
            }
            if !self.accumulate_model_stats(&node.children[i]) {
                proof {
                    let done = nodes_instances(children.take(i + 1));
                    let rest = nodes_instances(children.skip(i + 1));
                    assert(!fits(count_instances(t1, done)));
                    lemma_nodes_split(children, i + 1);
                    lemma_unfit_stays(count_instances(t1, done), rest);
                    lemma_count_append(t1, done, rest);
                    assert(!fits(count_instances(t1, nodes_instances(children))));
                    lemma_count_append(t0, own, nodes_instances(children));
                    assert(node_instances(*node) == own + nodes_instances(children));
                }
                return false;
            }
            i = i + 1;
        }
        proof {
            assert(children.take(children.len() as int) =~= children);
            lemma_count_append(t0, own, nodes_instances(children));
        }
        true
    }
}

proof fn lemma_scan_prefix(acc: TextureScan, slots: Seq<Option<TextureRef>>, k: int)
    requires
        0 <= k <= slots.len(),
    ensures
        scan_slots(acc, slots).bytes >= scan_slots(acc, slots.take(k)).bytes,
    decreases slots.len(),
{
    if k == slots.len() {
        assert(slots.take(k) =~= slots);
    } else {
        lemma_scan_prefix(acc, slots.drop_last(), k);
        assert(slots.drop_last().take(k) =~= slots.take(k));
    }
}

proof fn lemma_nodes_split(nodes: Seq<SceneNode>, k: int)
    requires
        0 <= k <= nodes.len(),
    ensures
        nodes_instances(nodes) == nodes_instances(nodes.take(k)) + nodes_instances(nodes.skip(k)),
    decreases nodes.len(),
{
    if nodes.len() == 0 {
        assert(nodes.take(k) =~= nodes);
        assert(nodes.skip(k) =~= nodes);
    } else if k == nodes.len() {
        assert(nodes.take(k) =~= nodes);
        assert(nodes.skip(k) =~= Seq::<SceneNode>::empty());
        assert(nodes_instances(nodes.skip(k)) =~= Seq::<MeshInstance>::empty());
    } else {
        lemma_nodes_split(nodes.drop_last(), k);
        assert(nodes.drop_last().take(k) =~= nodes.take(k));
        assert(nodes.skip(k).drop_last() =~= nodes.drop_last().skip(k));
        assert(nodes.skip(k).last() == nodes.last());
    }
}

/// The statistics of a whole model, or `None` when a total does not fit in a
/// `usize`.
pub fn model_stats(root: &SceneNode) -> (stats: Option<ModelStats>)
    ensures
        match stats {
            Some(s) => {
                &&& fits(model_tally(*root))
                &&& s.polygons == model_tally(*root).polygons
                &&& s.faces == model_tally(*root).faces
                &&& s.vertices == model_tally(*root).vertices
                &&& s.vram_bytes == model_tally(*root).vram
                &&& s.available
            },
            None => !fits(model_tally(*root)),
        },
{
    let mut acc = StatsAccumulator::new();
    if !acc.accumulate_model_stats(root) {
        return None;
    }
    let mut stats = acc.totals();
    stats.available = true;
    Some(stats)
}

/// The lines the model panel shows for the statistics.
pub open spec fn stats_lines_spec(stats: ModelStats) -> Seq<Seq<char>> {
    if stats.available {
        seq![
            "Poligonos: "@ + decimal(stats.polygons as nat),
            "Faces: "@ + decimal(stats.faces as nat),
            "Vertices: "@ + decimal(stats.vertices as nat),
            "VRAM estimada: "@ + byte_size_text(stats.vram_bytes as nat),
        ]
    } else {
        seq!["Estatisticas carregando..."@]
    }
}

/// The lines of the model panel: polygons, faces, vertices and estimated VRAM once the
/// statistics are computed, a loading notice before.
pub fn stats_lines(stats: &ModelStats) -> (lines: Vec<String>)
    ensures
        lines@.len() == stats_lines_spec(*stats).len(),
        forall|i: int|
            0 <= i < lines@.len() ==> #[trigger] lines@[i]@ == stats_lines_spec(*stats)[i],
{
    let mut lines: Vec<String> = Vec::new();
    if !stats.available {
        let mut s = String::new();
        s.append("Estatisticas carregando...");
        lines.push(s);
        return lines;
    }
    let mut polygons = String::new();
    polygons.append("Poligonos: ");
    push_decimal(&mut polygons, stats.polygons as u128);
    lines.push(polygons);
    let mut faces = String::new();
    faces.append("Faces: ");
    push_decimal(&mut faces, stats.faces as u128);
    lines.push(faces);
    let mut vertices = String::new();
    vertices.append("Vertices: ");
    push_decimal(&mut vertices, stats.vertices as u128);
    lines.push(vertices);
    let mut vram = String::new();
    vram.append("VRAM estimada: ");
    vram.append(format_bytes(stats.vram_bytes).as_str());
    lines.push(vram);
    lines
}

/// The triangles one instance adds to the polygon and face counts.
pub open spec fn instance_triangles(inst: MeshInstance) -> nat {
    match inst.mesh.data {
        Some(d) => triangles(d.topology, element_count(d)),
        None => 0,
    }
}

/// The vertices one instance adds to the vertex count.
pub open spec fn instance_vertices(inst: MeshInstance) -> nat {
    match inst.mesh.data {
        Some(d) => d.vertex_count as nat,
        None => 0,
    }
}

/// The vertices of all instances of a sequence.
pub open spec fn total_vertices(s: Seq<MeshInstance>) -> nat
    decreases s.len(),
{
    if s.len() == 0 {
        0
    } else {
        total_vertices(s.drop_last()) + instance_vertices(s.last())
    }
}

/// The triangles of all instances of a sequence.
pub open spec fn total_triangles(s: Seq<MeshInstance>) -> nat
    decreases s.len(),
{
    if s.len() == 0 {
        0
    } else {
        total_triangles(s.drop_last()) + instance_triangles(s.last())
    }
}

proof fn lemma_counts_add_triangles(t: Tally, s: Seq<MeshInstance>)
    ensures
        count_instances(t, s).polygons == t.polygons + total_triangles(s),
        count_instances(t, s).faces == t.faces + total_triangles(s),
        count_instances(t, s).vertices == t.vertices + total_vertices(s),
    decreases s.len(),
{
    if s.len() > 0 {
        lemma_counts_add_triangles(t, s.drop_last());
    }
}

/// Every mesh instance counts: the polygons (and the faces) of a model are
/// the triangles of all its loaded mesh instances, and its vertices their
/// vertices, shared meshes once per use.
pub proof fn law_polygons_count_every_instance(root: SceneNode)
    ensures
        model_tally(root).polygons == total_triangles(node_instances(root)),
        model_tally(root).faces == total_triangles(node_instances(root)),
        model_tally(root).vertices == total_vertices(node_instances(root)),
{
    lemma_counts_add_triangles(empty_tally(), node_instances(root));
}

/// Polygons and faces are the same triangulated count.
pub proof fn law_polygons_equal_faces(root: SceneNode)
    ensures
        model_tally(root).polygons == model_tally(root).faces,
{
    law_polygons_count_every_instance(root);
}

/// What an instance leaves marked as counted.
pub open spec fn marks(t: Tally, inst: MeshInstance) -> bool {
    &&& inst.mesh.data is Some ==> t.meshes.contains(inst.mesh.id)
    &&& inst.material matches Some(mat) ==> t.materials.contains(mat.id)
}

proof fn lemma_instance_grows(t: Tally, inst: MeshInstance)
    ensures
        t.meshes.subset_of(count_instance(t, inst).meshes),
        t.materials.subset_of(count_instance(t, inst).materials),
        marks(count_instance(t, inst), inst),
{
}

proof fn lemma_marks_persist(t: Tally, s: Seq<MeshInstance>, inst: MeshInstance)
    requires
        marks(t, inst),
    ensures
        marks(count_instances(t, s), inst),
    decreases s.len(),
{
    if s.len() > 0 {
        lemma_marks_persist(t, s.drop_last(), inst);
        lemma_instance_grows(count_instances(t, s.drop_last()), s.last());
    }
}

proof fn lemma_counted_instances_marked(t: Tally, s: Seq<MeshInstance>, inst: MeshInstance)
    requires
        s.contains(inst),
    ensures
        marks(count_instances(t, s), inst),
    decreases s.len(),
{
    let prev = count_instances(t, s.drop_last());
    if s.last() == inst {
        lemma_instance_grows(prev, inst);
    } else {
        let j = choose|j: int| 0 <= j < s.len() && s[j] == inst;
        assert(s.drop_last()[j] == inst);
        lemma_counted_instances_marked(t, s.drop_last(), inst);
        lemma_marks_persist(prev, seq![s.last()], inst);
        assert(seq![s.last()].drop_last() =~= Seq::<MeshInstance>::empty());
    }
}

/// VRAM counts unique buffers and textures: counting again an instance
/// already counted (the same mesh with the same material) adds its triangles
/// and no bytes.
pub proof fn law_repeated_instance_adds_no_vram(t: Tally, s: Seq<MeshInstance>, inst: MeshInstance)
    requires
        s.contains(inst),
    ensures
        count_instances(t, s.push(inst)).vram == count_instances(t, s).vram,
        count_instances(t, s.push(inst)).polygons == count_instances(t, s).polygons
            + instance_triangles(inst),
{
    lemma_counted_instances_marked(t, s, inst);
    assert(s.push(inst).drop_last() =~= s);
}

/// A triangle list forms one triangle per three elements, whatever their
/// number: the count is the quotient of the element count by three. A strip
/// forms one triangle per element after the first two; points and lines
/// form none.
pub proof fn law_triangle_counts(n: nat)
    ensures
        3 * triangles(PrimitiveTopology::TriangleList, n) <= n,
        n < 3 * triangles(PrimitiveTopology::TriangleList, n) + 3,
        n >= 2 ==> triangles(PrimitiveTopology::TriangleStrip, n) + 2 == n,
        n < 2 ==> triangles(PrimitiveTopology::TriangleStrip, n) == 0,
        triangles(PrimitiveTopology::PointList, n) == 0,
        triangles(PrimitiveTopology::LineList, n) == 0,
        triangles(PrimitiveTopology::LineStrip, n) == 0,
{
    vstd::arithmetic::div_mod::lemma_fundamental_div_mod(n as int, 3);
}

/// A material without any texture set.
pub open spec fn no_textures() -> MaterialTextures {
    MaterialTextures {
        base_color: None,
        emissive: None,
        metallic_roughness: None,
        normal_map: None,
        occlusion: None,
    }
}

/// Every texture slot counts: the first use of a material whose only
/// texture, in any of its five slots, is an image not counted before adds
/// exactly that image's data size to the VRAM, and marks the image.
pub proof fn law_every_texture_slot_counts(t: Tally, material: AssetKey, tex: TextureRef, bytes: usize)
    requires
        !t.materials.contains(material),
        !t.images.contains(tex.id),
        tex.data_bytes == Some(bytes),
    ensures
        ({
            let count = |tx: MaterialTextures|
                count_material(t, Some(MaterialRef { id: material, textures: Some(tx) }));
            &&& count(MaterialTextures { base_color: Some(tex), ..no_textures() }).vram == t.vram + bytes
            &&& count(MaterialTextures { emissive: Some(tex), ..no_textures() }).vram == t.vram + bytes
            &&& count(MaterialTextures { metallic_roughness: Some(tex), ..no_textures() }).vram == t.vram
                + bytes
            &&& count(MaterialTextures { normal_map: Some(tex), ..no_textures() }).vram == t.vram + bytes
            &&& count(MaterialTextures { occlusion: Some(tex), ..no_textures() }).vram == t.vram + bytes
            &&& count(MaterialTextures { normal_map: Some(tex), ..no_textures() }).images.contains(tex.id)
        }),
{
    reveal_with_fuel(scan_slots, 6);
}

/// A material counted before adds nothing, whatever its textures.
pub proof fn law_material_counts_once(t: Tally, material: MaterialRef)
    requires
        t.materials.contains(material.id),
    ensures
        count_material(t, Some(material)) == t,
{
}

/// Counting a loaded mesh adds its triangles (formed from its indices when
/// it is indexed, else from its vertices) to the polygons and the faces and
/// its vertices to the vertex count; it adds its vertex and index buffer
/// bytes the first time its asset is met and nothing after.
pub proof fn law_mesh_counts(t: Tally, id: AssetKey, d: MeshData)
    ensures
        ({
            let c = count_mesh(t, MeshRef { id, data: Some(d) });
            let elements: nat = match d.index_count {
                Some(k) => k as nat,
                None => d.vertex_count as nat,
            };
            let index_bytes: nat = match d.index_buffer_bytes {
                Some(b) => b as nat,
                None => 0,
            };
            &&& c.polygons == t.polygons + triangles(d.topology, elements)
            &&& c.faces == t.faces + triangles(d.topology, elements)
            &&& c.vertices == t.vertices + d.vertex_count
            &&& !t.meshes.contains(id) ==> c.vram == t.vram + d.vertex_buffer_bytes + index_bytes
            &&& t.meshes.contains(id) ==> c.vram == t.vram
            &&& c.meshes == t.meshes.insert(id)
            &&& c.materials == t.materials
            &&& c.images == t.images
        }),
{
}

/// A mesh that is not loaded counts nothing and is not marked as met.
pub proof fn law_unloaded_mesh_counts_nothing(t: Tally, id: AssetKey)
    ensures
        count_mesh(t, MeshRef { id, data: None }) == t,
{
}

/// A material that is not loaded adds no bytes but is marked as met.
pub proof fn law_unloaded_material_is_marked(t: Tally, id: AssetKey)
    requires
        !t.materials.contains(id),
    ensures
        count_material(t, Some(MaterialRef { id, textures: None })).vram == t.vram,
        count_material(t, Some(MaterialRef { id, textures: None })).materials == t.materials.insert(id),
        count_material(t, None) == t,
{
}

/// An image counts once: an image already counted adds nothing, an image
/// used in two slots of a fresh material is counted once, and an image
/// without data adds nothing but is marked as counted.
pub proof fn law_images_count_once(t: Tally, material: AssetKey, tex: TextureRef, bytes: usize)
    requires
        !t.materials.contains(material),
    ensures
        t.images.contains(tex.id) ==> count_material(
            t,
            Some(MaterialRef { id: material, textures: Some(MaterialTextures { base_color: Some(tex), ..no_textures() }) }),
        ).vram == t.vram,
        !t.images.contains(tex.id) && tex.data_bytes == Some(bytes) ==> count_material(
            t,
            Some(MaterialRef {
                id: material,
                textures: Some(MaterialTextures { base_color: Some(tex), occlusion: Some(tex), ..no_textures() }),
            }),
        ).vram == t.vram + bytes,
        !t.images.contains(tex.id) && tex.data_bytes is None ==> ({
            let c = count_material(
                t,
                Some(MaterialRef { id: material, textures: Some(MaterialTextures { emissive: Some(tex), ..no_textures() }) }),
            );
            c.vram == t.vram && c.images.contains(tex.id)
        }),
{
    reveal_with_fuel(scan_slots, 6);
}

/// Which instance an entity contributes: none when it renders no mesh; its
/// mesh and material as loaded when they were recorded (not the view
/// variants it renders now); else the mesh and material it renders.
pub proof fn law_entity_instance(node: SceneNode)
    ensures
        node.mesh is None ==> node_instance(node) is None,
        node.mesh is Some && node.as_loaded is Some ==> node_instance(node) == Some(
            MeshInstance { mesh: (node.as_loaded->0).0, material: Some((node.as_loaded->0).1) },
        ),
        node.mesh is Some && node.as_loaded is None ==> node_instance(node) == Some(
            MeshInstance { mesh: node.mesh->0, material: node.material },
        ),
{
}

/// The number of entities of a hierarchy that render a mesh.
pub open spec fn mesh_entities(node: SceneNode) -> nat
    decreases node,
{
    (if node.mesh is Some {
        1nat
    } else {
        0nat
    }) + mesh_entities_of(node.children@)
}

pub open spec fn mesh_entities_of(nodes: Seq<SceneNode>) -> nat
    decreases nodes,
{
    if nodes.len() == 0 {
        0
    } else {
        mesh_entities_of(nodes.drop_last()) + mesh_entities(nodes.last())
    }
}

proof fn lemma_instances_len(node: SceneNode)
    ensures
        node_instances(node).len() == mesh_entities(node),
    decreases node,
{
    lemma_nodes_instances_len(node.children@);
}

proof fn lemma_nodes_instances_len(nodes: Seq<SceneNode>)
    ensures
        nodes_instances(nodes).len() == mesh_entities_of(nodes),
    decreases nodes,
{
    if nodes.len() > 0 {
        lemma_nodes_instances_len(nodes.drop_last());
        lemma_instances_len(nodes.last());
    }
}

/// The statistics count one instance per entity that renders a mesh, the
/// entity first, then each child hierarchy in turn: the instances of a
/// hierarchy are as many as its mesh entities, and each child's instances
/// appear, in order and together, after those of the entity and of the
/// children before it.
pub proof fn law_hierarchy_instances(node: SceneNode, i: int)
    requires
        0 <= i < node.children@.len(),
    ensures
        node_instances(node).len() == mesh_entities(node),
        ({
            let start = option_seq(node_instance(node)).len() + nodes_instances(
                node.children@.take(i),
            ).len();
            let child = node_instances(node.children@[i]);
            node_instances(node).subrange(start as int, (start + child.len()) as int) == child
        }),
        node_instance(node) matches Some(inst) ==> node_instances(node)[0] == inst,
{
    lemma_instances_len(node);
    let children = node.children@;
    lemma_nodes_split(children, i + 1);
    lemma_nodes_push(children, i);
    let own = option_seq(node_instance(node));
    let before = nodes_instances(children.take(i));
    let child = node_instances(children[i]);
    let rest = nodes_instances(children.skip(i + 1));
    assert(node_instances(node) == own + (before + child) + rest);
    assert(node_instances(node).subrange((own.len() + before.len()) as int, (own.len() + before.len()
        + child.len()) as int) =~= child);
}

} // verus!
