//! The demos, and the command-line tokens that select them.

use vstd::prelude::*;
use vstd::string::StringSliceAdditionalSpecFns;
use vstd::utf8::encode_utf8_decode_utf8;

verus! {

/// One of the demo programs.
#[derive(Clone, Copy, Debug, PartialEq, Eq, Structural)]
pub enum Demo {
    /// A single triangle, coloured by the fragment's place in the window.
    HelloColor,
    /// A triangle that the vertex shader moves in a circle.
    MovingTriangle,
    /// A prism under a perspective projection.
    Perspective,
    /// Two wedges that pass through each other, drawn by element index.
    Overlap,
}

impl Demo {
    /// The token that selects the demo.
    pub open spec fn token(self) -> Seq<char> {
        match self {
            Demo::HelloColor => "ch_2"@,
            Demo::MovingTriangle => "ch_3_3"@,
            Demo::Perspective => "ch_4_3"@,
            Demo::Overlap => "ch_5_1"@,
        }
    }
}

/// The demo that `token` selects, if it selects one.
pub open spec fn demo_of(token: Seq<char>) -> Option<Demo> {
    if token == "ch_2"@ {
        Some(Demo::HelloColor)
    } else if token == "ch_3_3"@ {
        Some(Demo::MovingTriangle)
    } else if token == "ch_4_3"@ {
        Some(Demo::Perspective)
    } else if token == "ch_5_1"@ {
        Some(Demo::Overlap)
    } else {
        None
    }
}

/// Whether two strings hold the same characters.
fn same_text(a: &str, b: &str) -> (same: bool)
    ensures
        same == (a@ == b@),
{
    let x = a.as_bytes();
    let y = b.as_bytes();
    proof {
        encode_utf8_decode_utf8(a@);
        encode_utf8_decode_utf8(b@);
    }
    if x.len() != y.len() {
        return false;
    }
    let mut i: usize = 0;
    while i < x.len()
        invariant
            i <= x.len(),
            x.len() == y.len(),
            x@ == a.spec_bytes(),
            y@ == b.spec_bytes(),
            forall|j: int| 0 <= j < i ==> x@[j] == y@[j],
        decreases x.len() - i,
    {
        if x[i] != y[i] {
            return false;
        }
        i += 1;
    }
    assert(x@ =~= y@);
    true
}

impl Demo {
    /// Finds the demo that a command-line token names.
    pub fn select(token: &str) -> (demo: Option<Demo>)
        ensures
            demo == demo_of(token@),
    {
        if same_text(token, "ch_2") {
            Some(Demo::HelloColor)
        } else if same_text(token, "ch_3_3") {
            Some(Demo::MovingTriangle)
        } else if same_text(token, "ch_4_3") {
            Some(Demo::Perspective)
        } else if same_text(token, "ch_5_1") {
            Some(Demo::Overlap)
        } else {
            None
        }
    }
}

/// Every demo can be selected, and by its own token only: no token is taken
/// for another.
pub proof fn lemma_token_selects(token: Seq<char>, demo: Demo)
    ensures
        demo_of(token) == Some(demo) <==> token == demo.token(),
{
    reveal_strlit("ch_2");
    reveal_strlit("ch_3_3");
    reveal_strlit("ch_4_3");
    reveal_strlit("ch_5_1");
    assert("ch_3_3"@[3] != "ch_4_3"@[3]);
    assert("ch_3_3"@[3] != "ch_5_1"@[3]);
    assert("ch_4_3"@[3] != "ch_5_1"@[3]);
}

} // verus!
