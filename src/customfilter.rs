use vstd::prelude::*;

verus! {

/// A named collision group.
#[derive(Clone, Copy, Debug, PartialEq, Eq, Structural)]
pub enum CustomFilterTag {
    GroupA,
    GroupB,
    GroupC,
    GroupD,
}

impl CustomFilterTag {
    /// The group's bit: A, B, C and D are 1, 2, 4 and 8.
    pub fn bits(&self) -> (r: u32)
        ensures
            r == match *self {
                CustomFilterTag::GroupA => 1u32,
                CustomFilterTag::GroupB => 2u32,
                CustomFilterTag::GroupC => 4u32,
                CustomFilterTag::GroupD => 8u32,
            },
    {
        match *self {
            CustomFilterTag::GroupA => 1,
            CustomFilterTag::GroupB => 2,
            CustomFilterTag::GroupC => 4,
            CustomFilterTag::GroupD => 8,
        }
    }
}

} // verus!
