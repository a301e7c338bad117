use vstd::prelude::*;

verus! {

/// One mesh of the registry: its triangle indices (16-bit, counter-clockwise
/// winding) and the number of vertices in its paired vertex buffer. The
/// vertex payload itself (positions and colors) is opaque to this model and
/// is uploaded by the host next to these indices.
#[derive(Debug, PartialEq, Eq)]
pub struct Mesh {
    pub indices: Vec<u16>,
    pub vertex_count: u32,
}

/// The low half of a 16-bit index, as it is laid out in the index buffer.
pub open spec fn low_byte(x: u16) -> u8 {
    (x % 256) as u8
}

/// The high half of a 16-bit index, as it is laid out in the index buffer.
pub open spec fn high_byte(x: u16) -> u8 {
    (x / 256) as u8
}

impl Mesh {
    /// Every index names a vertex that exists: an indexed draw over the
    /// whole buffer stays in range. The index count also fits the 32-bit
    /// draw-range argument.
    pub open spec fn wf(self) -> bool {
        &&& forall|i: int| 0 <= i < self.indices@.len() ==> self.indices@[i] < self.vertex_count
        &&& self.indices@.len() <= u32::MAX
    }

    /// Accepts the mesh exactly when every index is below the vertex count;
    /// an out-of-range index is rejected at upload time, before any draw
    /// could reach it.
    pub fn new(indices: Vec<u16>, vertex_count: u32) -> (r: Option<Mesh>)
        requires
            indices@.len() <= u32::MAX,
        ensures
            r is Some <==> (forall|i: int|
                0 <= i < indices@.len() ==> indices@[i] < vertex_count),
            r matches Some(m) ==> m == (Mesh { indices, vertex_count }),
            r matches Some(m) ==> m.wf(),
    {
        let mut k: usize = 0;
        while k < indices.len()
            invariant
                k <= indices@.len(),
                forall|i: int| 0 <= i < k ==> indices@[i] < vertex_count,
            decreases indices@.len() - k,
        {
            if indices[k] as u32 >= vertex_count {
                return None;
            }
            k = k + 1;
        }
        Some(Mesh { indices, vertex_count })
    }

    /// The number of indices the draw call covers.
    pub fn index_count(&self) -> (n: u32)
        requires
            self.wf(),
        ensures
            n == self.indices@.len(),
    {
        self.indices.len() as u32
    }

    /// The index buffer's byte payload: each 16-bit index laid out low byte
    /// first, as the device consumes 16-bit index buffers.
    pub fn index_bytes(&self) -> (b: Vec<u8>)
        ensures
            b@.len() == 2 * self.indices@.len(),
            forall|i: int| 0 <= i < self.indices@.len() ==> {
                &&& b@[2 * i] == low_byte(self.indices@[i])
                &&& b@[2 * i + 1] == high_byte(self.indices@[i])
            },
    {
        let mut b: Vec<u8> = Vec::new();
        let mut k: usize = 0;
        while k < self.indices.len()
            invariant
                k <= self.indices@.len(),
                b@.len() == 2 * k,
                forall|i: int| 0 <= i < k ==> {
                    &&& b@[2 * i] == low_byte(self.indices@[i])
                    &&& b@[2 * i + 1] == high_byte(self.indices@[i])
                },
            decreases self.indices@.len() - k,
        {
            let x = self.indices[k];
            b.push((x % 256) as u8);
            b.push((x / 256) as u8);
            k = k + 1;
        }
        b
    }
}

} // verus!
