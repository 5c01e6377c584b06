use vstd::prelude::*;

verus! {

/// The tutorials that the command line can choose, each named after its
/// chapter and section. The camera tutorials (chapter 1, section 7.3, and
/// chapter 2, section 2.1) are built but not reachable from the command line,
/// and the numbers of tutorials whose code is not part of this crate, such as
/// the default `1_6_2`, choose nothing.
#[derive(Debug, Clone, Copy, PartialEq, Eq, Structural)]
pub enum Tutorial {
    /// Chapter 1, section 3.2: colour interpolation across a triangle.
    Interpolation,
    /// Chapter 1, section 3.3: the same triangle drawn through the shader class.
    ShaderClass,
    /// Chapter 1, section 6.1: a textured quad under model, view and projection matrices.
    Coordinates,
}

/// The number by which a tutorial is chosen on the command line
/// (`1_3_2` stands for chapter 1, section 3.2).
pub open spec fn tutorial_id(t: Tutorial) -> Seq<char> {
    match t {
        Tutorial::Interpolation => "1_3_2"@,
        Tutorial::ShaderClass => "1_3_3"@,
        Tutorial::Coordinates => "1_6_1"@,
    }
}

/// Whether two strings hold the same characters.
pub fn same_chars(a: &str, b: &str) -> (r: bool)
    ensures
        r == (a@ == b@),
{
    let n = a.unicode_len();
    let m = b.unicode_len();
    if n != m {
        return false;
    }
    let mut i: usize = 0;
    while i < n
        invariant
            n == a@.len(),
            m == b@.len(),
            n == m,
            i <= n,
            forall|j: int| 0 <= j < i ==> a@[j] == b@[j],
        decreases n - i,
    {
        if a.get_char(i) != b.get_char(i) {
            return false;
        }
        i = i + 1;
    }
    assert(a@ =~= b@);
    true
}

impl Tutorial {
    /// The tutorial that the command-line number `id` selects, or `None`
    /// when no tutorial is chosen by that number (then "Unknown tutorial id"
    /// is printed). Only `1_3_2`, `1_3_3` and `1_6_1` choose a tutorial.
    pub fn from_id(id: &str) -> (r: Option<Tutorial>)
        ensures
            r matches Some(t) ==> id@ == tutorial_id(t),
            r is None <==> (forall|t: Tutorial| id@ != #[trigger] tutorial_id(t)),
    {
        if same_chars(id, "1_3_2") {
            assert(id@ == tutorial_id(Tutorial::Interpolation));
            Some(Tutorial::Interpolation)
        } else if same_chars(id, "1_3_3") {
            assert(id@ == tutorial_id(Tutorial::ShaderClass));
            Some(Tutorial::ShaderClass)
        } else if same_chars(id, "1_6_1") {
            assert(id@ == tutorial_id(Tutorial::Coordinates));
            Some(Tutorial::Coordinates)
        } else {
            proof {
                assert forall|t: Tutorial| id@ != #[trigger] tutorial_id(t) by {
                    match t {
                        Tutorial::Interpolation => {},
                        Tutorial::ShaderClass => {},
                        Tutorial::Coordinates => {},
                    }
                }
            }
            None
        }
    }
}

} // verus!
