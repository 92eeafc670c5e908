use vstd::prelude::*;
use crate::error::SuitabilityError;
use crate::search::Search;

verus! {

/// `VK_QUEUE_GRAPHICS_BIT`.
pub const QUEUE_GRAPHICS_BIT: u32 = 0x1;

/// `VK_SHARING_MODE_EXCLUSIVE`.
pub const SHARING_MODE_EXCLUSIVE: i32 = 0;

/// `VK_SHARING_MODE_CONCURRENT`.
pub const SHARING_MODE_CONCURRENT: i32 = 1;

/// A queue family's flags say it can run graphics commands.
pub open spec fn supports_graphics(flags: u32) -> bool {
    flags & QUEUE_GRAPHICS_BIT != 0
}

/// `i` is the first family whose flags support graphics.
pub open spec fn is_first_graphics_family(queue_flags: Seq<u32>, i: int) -> bool {
    &&& 0 <= i < queue_flags.len()
    &&& supports_graphics(queue_flags[i])
    &&& forall|j: int| 0 <= j < i ==> !supports_graphics(queue_flags[j])
}

/// The queue families the app draws with and presents with.
#[derive(Clone, Copy, Debug, PartialEq, Eq, Structural)]
pub struct QueueFamilyIndices {
    pub graphics: u32,
    pub present: u32,
}

/// The text of the error for a device without the queue families the app needs.
pub open spec fn missing_queue_families() -> Seq<char> {
    "Missing required queue families."@
}

/// The families to create one queue each from: graphics, then present
/// when it is another family.
pub open spec fn distinct_families(indices: QueueFamilyIndices) -> Seq<u32> {
    if indices.graphics == indices.present {
        seq![indices.graphics]
    } else {
        seq![indices.graphics, indices.present]
    }
}

/// How swapchain images are shared: the sharing mode and the families named.
pub open spec fn sharing_of(indices: QueueFamilyIndices) -> (i32, Seq<u32>) {
    if indices.graphics != indices.present {
        (SHARING_MODE_CONCURRENT, seq![indices.graphics, indices.present])
    } else {
        (SHARING_MODE_EXCLUSIVE, Seq::empty())
    }
}

/// Law: images are shared concurrently exactly when the device gets queues
/// from two families, and then between exactly those families; a single
/// family keeps its images exclusively.
pub proof fn lemma_sharing_matches_queue_families(indices: QueueFamilyIndices)
    ensures
        (sharing_of(indices).0 == SHARING_MODE_CONCURRENT) <==> distinct_families(indices).len() == 2,
        sharing_of(indices).0 == SHARING_MODE_CONCURRENT ==> sharing_of(indices).1 == distinct_families(indices),
        sharing_of(indices).0 == SHARING_MODE_EXCLUSIVE <==> distinct_families(indices).len() == 1,
{
}

impl QueueFamilyIndices {
    /// The first family (by index) whose flags hold the graphics bit.
    pub fn graphics_family(queue_flags: &Vec<u32>) -> (family: Option<u32>)
        requires
            queue_flags.len() <= u32::MAX,
        ensures
            match family {
                Some(i) => is_first_graphics_family(queue_flags@, i as int),
                None => forall|j: int| 0 <= j < queue_flags.len() ==> !supports_graphics(queue_flags@[j]),
            },
    {
        let mut i: usize = 0;
        while i < queue_flags.len()
            invariant
                i <= queue_flags.len() <= u32::MAX,
                forall|j: int| 0 <= j < i ==> !supports_graphics(queue_flags@[j]),
            decreases queue_flags.len() - i,
        {
            if queue_flags[i] & QUEUE_GRAPHICS_BIT != 0 {
                return Some(i as u32);
            }
            i = i + 1;
        }
        None
    }

    /// Pairs the graphics family with the present family that the present
    /// search ended on; a device with either one missing is unsuitable.
    pub fn from_families(graphics: Option<u32>, present: Search) -> (indices: Result<Self, SuitabilityError>)
        ensures
            match (graphics, present) {
                (Some(g), Search::Found(p)) => indices == Ok::<Self, SuitabilityError>(QueueFamilyIndices { graphics: g, present: p }),
                _ => indices is Err && indices->Err_0.0@ == missing_queue_families(),
            },
    {
        match (graphics, present) {
            (Some(g), Search::Found(p)) => Ok(QueueFamilyIndices { graphics: g, present: p }),
            _ => {
                proof {
                    reveal_strlit("Missing required queue families.");
                }
                Err(SuitabilityError("Missing required queue families."))
            },
        }
    }

    /// The distinct families a logical device needs one queue from: the
    /// graphics family, then the present family when it is another one.
    pub fn unique_families(&self) -> (families: Vec<u32>)
        ensures
            families@ == distinct_families(*self),
            families@.no_duplicates(),
            families@.to_set() == set![self.graphics, self.present],
    {
        let mut families = Vec::new();
        families.push(self.graphics);
        if self.present != self.graphics {
            families.push(self.present);
        }
        proof {
            if self.graphics == self.present {
                assert(families@.to_set() =~= set![self.graphics, self.present]) by {
                    assert(families@[0] == self.graphics);
                }
            } else {
                assert(families@.to_set() =~= set![self.graphics, self.present]) by {
                    assert(families@[0] == self.graphics);
                    assert(families@[1] == self.present);
                }
            }
        }
        families
    }

    /// How swapchain images are shared between the two families: exclusively
    /// when one family does both, concurrently (naming both) otherwise.
    pub fn image_sharing(&self) -> (sharing: (i32, Vec<u32>))
        ensures
            (sharing.0, sharing.1@) == sharing_of(*self),
    {
        let mut families = Vec::new();
        if self.graphics != self.present {
            families.push(self.graphics);
            families.push(self.present);
            (SHARING_MODE_CONCURRENT, families)
        } else {
            (SHARING_MODE_EXCLUSIVE, families)
        }
    }
}

} // verus!
