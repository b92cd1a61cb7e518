use vstd::prelude::*;

use crate::errors::ClientError;

verus! {

/// A chain height: an ordered pair of revision number (incremented on chain
/// forks) and height within the revision. The order is revision-major,
/// height-minor. A well-formed height has a height component of at least one.
#[derive(Clone, Copy, Debug, PartialEq, Eq, Structural)]
pub struct Height {
    pub revision_number: u64,
    pub revision_height: u64,
}

impl Height {
    /// A height constructed through `new` always satisfies this.
    pub open spec fn is_valid(self) -> bool {
        self.revision_height >= 1
    }

    /// The strict total order on heights: revision-major, height-minor.
    pub open spec fn lt_spec(self, other: Height) -> bool {
        self.revision_number < other.revision_number || (self.revision_number
            == other.revision_number && self.revision_height < other.revision_height)
    }

    /// Builds a height, rejecting a zero height component.
    pub fn new(revision_number: u64, revision_height: u64) -> (r: Result<Height, ClientError>)
        ensures
            revision_height == 0 ==> r == Err::<Height, ClientError>(ClientError::InvalidHeight),
            revision_height >= 1 ==> r == Ok::<Height, ClientError>(
                Height { revision_number, revision_height },
            ),
    {
        if revision_height == 0 {
            Err(ClientError::InvalidHeight)
        } else {
            Ok(Height { revision_number, revision_height })
        }
    }

    pub fn revision_number(&self) -> (r: u64)
        ensures
            r == self.revision_number,
    {
        self.revision_number
    }

    pub fn revision_height(&self) -> (r: u64)
        ensures
            r == self.revision_height,
    {
        self.revision_height
    }

    /// The next height in the same revision.
    pub fn increment(self) -> (r: Result<Height, ClientError>)
        ensures
            self.revision_height < u64::MAX ==> r == Ok::<Height, ClientError>(
                Height {
                    revision_number: self.revision_number,
                    revision_height: (self.revision_height + 1) as u64,
                },
            ),
            self.revision_height == u64::MAX ==> r == Err::<Height, ClientError>(
                ClientError::HeightOverflow,
            ),
    {
        if self.revision_height < u64::MAX {
            Ok(Height {
                revision_number: self.revision_number,
                revision_height: self.revision_height + 1,
            })
        } else {
            Err(ClientError::HeightOverflow)
        }
    }

    /// The previous height in the same revision; fails where the height
    /// component would reach zero.
    pub fn decrement(&self) -> (r: Result<Height, ClientError>)
        ensures
            self.revision_height >= 2 ==> r == Ok::<Height, ClientError>(
                Height {
                    revision_number: self.revision_number,
                    revision_height: (self.revision_height - 1) as u64,
                },
            ),
            self.revision_height < 2 ==> r == Err::<Height, ClientError>(
                ClientError::InvalidHeight,
            ),
    {
        if self.revision_height >= 2 {
            Ok(Height {
                revision_number: self.revision_number,
                revision_height: self.revision_height - 1,
            })
        } else {
            Err(ClientError::InvalidHeight)
        }
    }
}

impl PartialOrd for Height {
    fn partial_cmp(&self, other: &Height) -> (r: Option<core::cmp::Ordering>) {
        if self.revision_number < other.revision_number {
            Some(core::cmp::Ordering::Less)
        } else if self.revision_number > other.revision_number {
            Some(core::cmp::Ordering::Greater)
        } else if self.revision_height < other.revision_height {
            Some(core::cmp::Ordering::Less)
        } else if self.revision_height > other.revision_height {
            Some(core::cmp::Ordering::Greater)
        } else {
            Some(core::cmp::Ordering::Equal)
        }
    }
}

impl vstd::std_specs::cmp::PartialOrdSpecImpl for Height {
    open spec fn obeys_partial_cmp_spec() -> bool {
        true
    }

    open spec fn partial_cmp_spec(&self, other: &Height) -> Option<core::cmp::Ordering> {
        if self.lt_spec(*other) {
            Some(core::cmp::Ordering::Less)
        } else if other.lt_spec(*self) {
            Some(core::cmp::Ordering::Greater)
        } else {
            Some(core::cmp::Ordering::Equal)
        }
    }
}

/// Law: heights are totally ordered, revision-major, height-minor. Two
/// heights with equal revision compare by the height component alone; two
/// heights with different revisions compare by revision alone; and every pair
/// falls in exactly one of `<`, `==`, `>`.
pub proof fn lemma_height_total_order(h1: Height, h2: Height)
    ensures
        h1.revision_number == h2.revision_number ==> (h1.lt_spec(h2) <==> h1.revision_height
            < h2.revision_height),
        h1.revision_number < h2.revision_number ==> h1.lt_spec(h2),
        h2.revision_number < h1.revision_number ==> h2.lt_spec(h1),
        h1.lt_spec(h2) || h1 == h2 || h2.lt_spec(h1),
        h1.lt_spec(h2) ==> h1 != h2 && !h2.lt_spec(h1),
        h1 == h2 ==> !h1.lt_spec(h2),
{
}

/// Law: the order on heights is transitive, so a sequence of strict advances
/// never revisits or passes below an earlier height.
pub proof fn lemma_height_lt_transitive(h1: Height, h2: Height, h3: Height)
    requires
        h1.lt_spec(h2),
        h2.lt_spec(h3),
    ensures
        h1.lt_spec(h3),
{
}

} // verus!
