//! Byte layout of a vertex buffer that stores every position first and every
//! colour after them, each as tightly packed `GLfloat` components.
//!
//! The float data itself never enters this module: it only says how many
//! floats a buffer must hold and at which byte each attribute of each vertex
//! starts, and proves that those places lie inside the buffer.

use vstd::prelude::*;

verus! {

/// Bytes in one `GLfloat`.
pub const FLOAT_BYTES: usize = 4;

/// Bytes in one `GLushort`, the type of an element index.
pub const INDEX_BYTES: usize = 2;

/// Where the attribute pointers of one object begin, in bytes from the start
/// of the vertex buffer.
#[derive(Clone, Copy, Debug, PartialEq, Eq, Structural)]
pub struct Offsets {
    /// Where the object's first position starts.
    pub position: usize,
    /// Where the object's first colour starts; the end of the buffer where
    /// it holds no colours.
    pub color: usize,
}

/// What a [`Blocks`] stands for: the number of vertices and how many floats
/// each of them has per attribute.
pub struct BlocksView {
    pub vertices: nat,
    pub position_components: nat,
    pub color_components: nat,
}

impl BlocksView {
    /// Number of floats in the whole buffer.
    pub open spec fn floats(self) -> nat {
        self.vertices * (self.position_components + self.color_components)
    }

    /// Size of the position block, which starts at byte 0.
    pub open spec fn position_bytes(self) -> nat {
        self.vertices * self.position_components * 4
    }

    /// Size of the colour block, which follows the position block.
    pub open spec fn color_bytes(self) -> nat {
        self.vertices * self.color_components * 4
    }

    /// Size of the whole buffer.
    pub open spec fn total_bytes(self) -> nat {
        self.position_bytes() + self.color_bytes()
    }

    /// Byte at which the position of `vertex` starts.
    pub open spec fn position_start(self, vertex: nat) -> nat {
        vertex * self.position_components * 4
    }

    /// Byte at which the colour of `vertex` starts.
    pub open spec fn color_start(self, vertex: nat) -> nat {
        self.position_bytes() + vertex * self.color_components * 4
    }

    /// The offsets of an object that begins with vertex `first`.
    pub open spec fn offsets(self, first: nat) -> Offsets {
        Offsets {
            position: self.position_start(first) as usize,
            color: self.color_start(first) as usize,
        }
    }

    /// The buffer's size can be handed over as a `GLsizeiptr`.
    pub open spec fn wf(self) -> bool {
        self.total_bytes() <= isize::MAX
    }

    /// The buffer takes four bytes for each of its floats.
    pub proof fn lemma_bytes_of_floats(self)
        ensures
            self.total_bytes() == self.floats() * 4,
    {
        lemma_total_bytes(self.vertices, self.position_components, self.color_components);
    }

    /// The position of every vertex lies inside the position block, which
    /// ends where the colours begin.
    pub proof fn lemma_position_in_block(self, vertex: nat)
        requires
            vertex < self.vertices,
        ensures
            self.position_start(vertex) + self.position_components * 4 <= self.position_bytes(),
            self.position_bytes() == self.color_start(0),
    {
        lemma_next_vertex(vertex, self.vertices, self.position_components);
    }

    /// The colour of every vertex lies behind the position block and inside
    /// the buffer.
    pub proof fn lemma_color_in_block(self, vertex: nat)
        requires
            vertex < self.vertices,
        ensures
            self.position_bytes() <= self.color_start(vertex),
            self.color_start(vertex) + self.color_components * 4 <= self.total_bytes(),
    {
        lemma_next_vertex(vertex, self.vertices, self.color_components);
    }

    /// An attribute pointer set to the start of vertex `first` finds, as its
    /// vertex number `vertex`, the buffer's vertex `first + vertex`.
    pub proof fn lemma_object_vertex(self, first: nat, vertex: nat)
        ensures
            self.position_start(first) + vertex * self.position_components * 4
                == self.position_start(first + vertex),
            self.color_start(first) + vertex * self.color_components * 4 == self.color_start(
                first + vertex,
            ),
    {
        lemma_shift(first, vertex, self.position_components);
        lemma_shift(first, vertex, self.color_components);
    }

    /// Where positions and colours have the same number of components, the
    /// colours begin halfway through the buffer.
    pub proof fn lemma_equal_blocks_meet_halfway(self)
        requires
            self.position_components == self.color_components,
        ensures
            self.color_start(0) == self.total_bytes() / 2,
            self.color_start(0) == (self.floats() * 4) / 2,
    {
        self.lemma_bytes_of_floats();
    }
}

/// Layout of one vertex buffer: `vertices` positions of
/// `position_components` floats each, then `vertices` colours of
/// `color_components` floats each.
#[derive(Clone, Copy, Debug)]
pub struct Blocks {
    vertices: usize,
    position_components: usize,
    color_components: usize,
}

impl View for Blocks {
    type V = BlocksView;

    closed spec fn view(&self) -> BlocksView {
        BlocksView {
            vertices: self.vertices as nat,
            position_components: self.position_components as nat,
            color_components: self.color_components as nat,
        }
    }
}

impl Blocks {
    #[verifier::type_invariant]
    spec fn inv(self) -> bool {
        self@.wf()
    }

    /// Lays out a buffer, unless its size in bytes would exceed `isize::MAX`.
    pub fn new(vertices: usize, position_components: usize, color_components: usize) -> (r: Option<
        Blocks,
    >)
        ensures
            r is Some <==> (BlocksView {
                vertices: vertices as nat,
                position_components: position_components as nat,
                color_components: color_components as nat,
            }).wf(),
            r matches Some(b) ==> b@ == (BlocksView {
                vertices: vertices as nat,
                position_components: position_components as nat,
                color_components: color_components as nat,
            }),
    {
        proof {
            lemma_total_bytes(
                vertices as nat,
                position_components as nat,
                color_components as nat,
            );
        }
        if vertices == 0 {
            return Some(Blocks { vertices, position_components, color_components });
        }
        let components = match position_components.checked_add(color_components) {
            Some(c) => c,
            None => {
                return None;
            },
        };
        let floats = match vertices.checked_mul(components) {
            Some(f) => f,
            None => {
                return None;
            },
        };
        match floats.checked_mul(FLOAT_BYTES) {
            Some(bytes) => if bytes <= isize::MAX as usize {
                Some(Blocks { vertices, position_components, color_components })
            } else {
                None
            },
            None => None,
        }
    }

    /// Number of vertices in the buffer.
    pub fn vertices(&self) -> (n: usize)
        ensures
            n == self@.vertices,
    {
        self.vertices
    }

    /// Floats in one position.
    pub fn position_components(&self) -> (n: usize)
        ensures
            n == self@.position_components,
    {
        self.position_components
    }

    /// Floats in one colour; 0 where the buffer holds positions only.
    pub fn color_components(&self) -> (n: usize)
        ensures
            n == self@.color_components,
    {
        self.color_components
    }

    /// Length that the float array uploaded into this buffer must have.
    pub fn floats(&self) -> (n: usize)
        ensures
            n == self@.floats(),
    {
        proof {
            use_type_invariant(self);
            lemma_total_bytes(self@.vertices, self@.position_components, self@.color_components);
        }
        if self.vertices == 0 {
            0
        } else {
            self.vertices * (self.position_components + self.color_components)
        }
    }

    /// Size of the upload, as `glBufferData` takes it.
    pub fn total_bytes(&self) -> (n: isize)
        ensures
            n == self@.total_bytes(),
    {
        proof {
            self@.lemma_bytes_of_floats();
            use_type_invariant(self);
        }
        (self.floats() * FLOAT_BYTES) as isize
    }

    /// Byte offsets for the attribute pointers of an object whose vertices
    /// begin with the buffer's vertex `first`; `None` where the buffer has
    /// fewer vertices than that.
    pub fn offsets(&self, first: usize) -> (r: Option<Offsets>)
        ensures
            r is Some <==> first <= self@.vertices,
            r matches Some(o) ==> o == self@.offsets(first as nat),
    {
        if first > self.vertices {
            return None;
        }
        proof {
            use_type_invariant(self);
            lemma_within(self@.vertices, self@.vertices, self@.position_components);
            lemma_within(first as nat, self@.vertices, self@.position_components);
            lemma_within(first as nat, self@.vertices, self@.color_components);
        }
        let colors = self.vertices * self.position_components * FLOAT_BYTES;
        Some(
            Offsets {
                position: first * self.position_components * FLOAT_BYTES,
                color: colors + first * self.color_components * FLOAT_BYTES,
            },
        )
    }
}

/// Vertex `vertex` of a block ends where the next one starts, and no later
/// than the block does.
proof fn lemma_next_vertex(vertex: nat, vertices: nat, components: nat)
    by (nonlinear_arith)
    requires
        vertex < vertices,
    ensures
        vertex * components * 4 + components * 4 == (vertex + 1) * components * 4,
        (vertex + 1) * components * 4 <= vertices * components * 4,
{
}

/// The first `first` vertices of a block take no more bytes than the block,
/// and no product on the way to that number is larger than it.
proof fn lemma_within(first: nat, vertices: nat, components: nat)
    by (nonlinear_arith)
    requires
        first <= vertices,
    ensures
        first * components <= first * components * 4,
        first * components * 4 <= vertices * components * 4,
{
}

/// Skipping `first` vertices and then `vertex` more skips `first + vertex`.
proof fn lemma_shift(first: nat, vertex: nat, components: nat)
    by (nonlinear_arith)
    ensures
        first * components * 4 + vertex * components * 4 == (first + vertex) * components * 4,
{
}

/// The two blocks together take four bytes for every float of every vertex,
/// and a buffer with a vertex in it has at least one vertex's floats.
proof fn lemma_total_bytes(vertices: nat, position_components: nat, color_components: nat)
    by (nonlinear_arith)
    ensures
        vertices * position_components * 4 + vertices * color_components * 4 == vertices * (
        position_components + color_components) * 4,
        vertices == 0 ==> vertices * (position_components + color_components) == 0,
        vertices >= 1 ==> vertices * (position_components + color_components)
            >= position_components + color_components,
{
}

} // verus!
