//! What each demo uploads and draws: the layout of its vertex buffer, the
//! objects it draws from that buffer, and how many vertices a draw call asks
//! for.

use crate::demo::Demo;
use crate::layout::{Blocks, BlocksView, Offsets, INDEX_BYTES};
use vstd::prelude::*;

verus! {

/// Vertices in the buffer of the prism, and in the buffer that the two wedges
/// share.
pub const NUMBER_OF_VERTICES: usize = 36;

/// Element indices of one wedge: eight triangles over the wedge's own
/// eighteen vertices.
pub open spec fn indices() -> Seq<u16> {
    seq![
        0u16, 2, 1,
        3, 2, 0,
        4, 5, 6,
        6, 7, 4,
        8, 9, 10,
        11, 13, 12,
        14, 16, 15,
        17, 16, 14,
    ]
}

/// The element indices, as they are uploaded.
pub fn index_data() -> (data: [u16; 24])
    ensures
        data@ == indices(),
{
    let data: [u16; 24] = [
        0, 2, 1,
        3, 2, 0,
        4, 5, 6,
        6, 7, 4,
        8, 9, 10,
        11, 13, 12,
        14, 16, 15,
        17, 16, 14,
    ];
    assert(data@ =~= indices());
    data
}

/// Size of the element index upload, as `glBufferData` takes it.
pub fn index_bytes() -> (n: isize)
    ensures
        n == indices().len() * INDEX_BYTES,
{
    let data = index_data();
    (data.len() * INDEX_BYTES) as isize
}

impl Demo {
    /// The layout of the demo's vertex buffer.
    pub open spec fn layout(self) -> BlocksView {
        match self {
            Demo::HelloColor | Demo::MovingTriangle => BlocksView {
                vertices: 3,
                position_components: 4,
                color_components: 0,
            },
            Demo::Perspective => BlocksView {
                vertices: NUMBER_OF_VERTICES as nat,
                position_components: 4,
                color_components: 4,
            },
            Demo::Overlap => BlocksView {
                vertices: NUMBER_OF_VERTICES as nat,
                position_components: 3,
                color_components: 4,
            },
        }
    }

    /// The buffer's vertex with which each object of the demo begins. The
    /// wedges split their buffer in half; every other demo draws one object.
    pub open spec fn first_vertices(self) -> Seq<nat> {
        match self {
            Demo::Overlap => seq![0nat, (NUMBER_OF_VERTICES / 2) as nat],
            _ => seq![0nat],
        }
    }

    /// How many vertices one draw call asks for: element indices for the
    /// wedges, consecutive vertices for every other demo.
    pub open spec fn drawn(self) -> nat {
        match self {
            Demo::HelloColor => 6,
            Demo::MovingTriangle => 3,
            Demo::Perspective => NUMBER_OF_VERTICES as nat,
            Demo::Overlap => indices().len(),
        }
    }

    /// The vertices that one draw call fetches, counted from the object's
    /// first vertex, in the order in which it fetches them.
    pub open spec fn fetched(self) -> Seq<nat> {
        match self {
            Demo::Overlap => indices().map_values(|index: u16| index as nat),
            _ => Seq::new(self.drawn(), |k: int| k as nat),
        }
    }

    /// Lays out the demo's vertex buffer.
    pub fn blocks(self) -> (blocks: Blocks)
        ensures
            blocks@ == self.layout(),
    {
        let blocks = match self {
            Demo::HelloColor | Demo::MovingTriangle => Blocks::new(3, 4, 0),
            Demo::Perspective => Blocks::new(NUMBER_OF_VERTICES, 4, 4),
            Demo::Overlap => Blocks::new(NUMBER_OF_VERTICES, 3, 4),
        };
        blocks.unwrap()
    }

    /// The attribute offsets of each object that the demo draws, in the order
    /// in which it draws them.
    pub fn objects(self) -> (objects: Vec<Offsets>)
        ensures
            objects@ == self.first_vertices().map_values(
                |first: nat| self.layout().offsets(first),
            ),
    {
        let blocks = self.blocks();
        let mut objects: Vec<Offsets> = Vec::new();
        objects.push(blocks.offsets(0).unwrap());
        match self {
            Demo::Overlap => {
                objects.push(blocks.offsets(NUMBER_OF_VERTICES / 2).unwrap());
            },
            _ => {},
        }
        assert(objects@ =~= self.first_vertices().map_values(
            |first: nat| self.layout().offsets(first),
        ));
        objects
    }

    /// The count that the demo hands to its draw call.
    pub fn draw_count(self) -> (count: i32)
        ensures
            count == self.drawn(),
    {
        match self {
            Demo::HelloColor => 6,
            Demo::MovingTriangle => 3,
            Demo::Perspective => NUMBER_OF_VERTICES as i32,
            Demo::Overlap => index_data().len() as i32,
        }
    }
}

/// Every vertex that a draw call fetches is one of the buffer's, whichever
/// object is drawn. The coloured triangle asks for six vertices of a buffer
/// that holds three, so of that demo this holds of the first triangle only.
pub proof fn lemma_fetches_in_buffer(demo: Demo, object: int, k: int)
    requires
        0 <= object < demo.first_vertices().len(),
        0 <= k < demo.fetched().len(),
        demo == Demo::HelloColor ==> k < 3,
    ensures
        demo.first_vertices()[object] + demo.fetched()[k] < demo.layout().vertices,
{
}

/// Every byte that a draw call reads lies in the vertex buffer, each
/// attribute in its own block: a position in front of the colours, a colour
/// behind the positions. Of the coloured triangle this holds of the first
/// triangle only.
pub proof fn lemma_reads_in_buffer(demo: Demo, object: int, k: int)
    requires
        0 <= object < demo.first_vertices().len(),
        0 <= k < demo.fetched().len(),
        demo == Demo::HelloColor ==> k < 3,
    ensures
        ({
            let layout = demo.layout();
            let at = layout.offsets(demo.first_vertices()[object]);
            let position = at.position + demo.fetched()[k] * layout.position_components * 4;
            let color = at.color + demo.fetched()[k] * layout.color_components * 4;
            &&& position + layout.position_components * 4 <= layout.position_bytes()
            &&& layout.position_bytes() <= color
            &&& color + layout.color_components * 4 <= layout.total_bytes()
        }),
{
    let layout = demo.layout();
    let first = demo.first_vertices()[object];
    let vertex = demo.fetched()[k];
    lemma_fetches_in_buffer(demo, object, k);
    layout.lemma_object_vertex(first, vertex);
    layout.lemma_position_in_block(first + vertex);
    layout.lemma_color_in_block(first + vertex);
}

} // verus!
