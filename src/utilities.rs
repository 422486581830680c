use vstd::prelude::*;

verus! {

/// The queue families chosen on one physical device, each named by its
/// family id: the first that supports graphics and the first that can
/// present to the surface (possibly the same family).
#[derive(Clone, Copy, Debug, PartialEq, Eq, Structural)]
pub struct QueueFamilyIndices {
    pub graphics_family: Option<u32>,
    pub presentation_family: Option<u32>,
}

impl QueueFamilyIndices {
    /// Both roles are filled.
    pub open spec fn valid(self) -> bool {
        self.graphics_family.is_some() && self.presentation_family.is_some()
    }

    /// The distinct families to open queues on: nothing unless both roles
    /// are filled, then the graphics family, then the presentation family
    /// when it is another one.
    pub open spec fn family_list(self) -> Seq<u32> {
        if !self.valid() {
            Seq::empty()
        } else if self.graphics_family == self.presentation_family {
            seq![self.graphics_family->Some_0]
        } else {
            seq![self.graphics_family->Some_0, self.presentation_family->Some_0]
        }
    }

    pub fn new() -> (r: Self)
        ensures
            r.graphics_family is None,
            r.presentation_family is None,
    {
        QueueFamilyIndices { graphics_family: None, presentation_family: None }
    }

    pub fn is_valid(&self) -> (r: bool)
        ensures
            r == self.valid(),
    {
        self.graphics_family.is_some() && self.presentation_family.is_some()
    }

    pub fn into_vec(self) -> (r: Vec<u32>)
        ensures
            r@ == self.family_list(),
            forall|i: int, j: int| 0 <= i < j < r@.len() ==> r@[i] != r@[j],
    {
        match (self.graphics_family, self.presentation_family) {
            (Some(graphics), Some(presentation)) => {
                let mut result: Vec<u32> = Vec::new();
                result.push(graphics);
                if graphics != presentation {
                    result.push(presentation);
                }
                proof {
                    assert(result@ =~= self.family_list());
                }
                result
            },
            _ => Vec::new(),
        }
    }
}

} // verus!
