use vstd::prelude::*;

verus! {

/// Size in bytes of one memory page.
pub const PAGE_SIZE: usize = 4096;

/// The native machine word width in bytes: the size of the pointer-sized
/// integer type `usize` on the build target, either four or eight bytes.
pub open spec fn word_size() -> int {
    vstd::layout::size_of::<usize>() as int
}

/// Memory size specified in bytes.
#[derive(Debug, Clone, Copy, PartialEq, Eq, Structural, Ord)]
pub struct Bytes(pub usize);

/// Memory size specified in machine words.
#[derive(Debug, Clone, Copy, PartialEq, Eq, Structural, Ord)]
pub struct Words(pub usize);

/// Memory size specified in memory pages.
#[derive(Debug, Clone, Copy, PartialEq, Eq, Structural, Ord)]
pub struct Pages(pub usize);

/// Returns the size of a type in [`Bytes`].
pub fn size_of<T>() -> (r: Bytes)
    ensures
        r.0 == vstd::layout::size_of::<T>(),
{
    Bytes(core::mem::size_of::<T>())
}

/// Returns the native machine word width in bytes.
pub fn native_word_size() -> (w: usize)
    ensures
        w == word_size(),
{
    core::mem::size_of::<usize>()
}

/// The word width is four bytes on 32-bit targets and eight bytes on 64-bit
/// targets: one word holds one pointer.
pub proof fn lemma_word_size_is_native()
    ensures
        word_size() * 8 == usize::BITS,
        word_size() == 4 || word_size() == 8,
{
    broadcast use vstd::layout::layout_of_primitives;

}

/// A page consists of a whole number of machine words, so the exact
/// conversion from pages to words never discards a partial word.
pub proof fn lemma_page_size_is_whole_words()
    ensures
        (PAGE_SIZE as int) % word_size() == 0,
{
    lemma_word_size_is_native();
    assert((PAGE_SIZE as int) % 4 == 0);
    assert((PAGE_SIZE as int) % 8 == 0);
}

impl PartialOrd for Bytes {
    fn partial_cmp(&self, other: &Bytes) -> (r: Option<core::cmp::Ordering>) {
        if self.0 < other.0 {
            Some(core::cmp::Ordering::Less)
        } else if self.0 == other.0 {
            Some(core::cmp::Ordering::Equal)
        } else {
            Some(core::cmp::Ordering::Greater)
        }
    }
}

impl vstd::std_specs::cmp::PartialOrdSpecImpl for Bytes {
    open spec fn obeys_partial_cmp_spec() -> bool {
        true
    }

    open spec fn partial_cmp_spec(&self, other: &Bytes) -> Option<core::cmp::Ordering> {
        if self.0 < other.0 {
            Some(core::cmp::Ordering::Less)
        } else if self.0 == other.0 {
            Some(core::cmp::Ordering::Equal)
        } else {
            Some(core::cmp::Ordering::Greater)
        }
    }
}

impl PartialOrd for Words {
    fn partial_cmp(&self, other: &Words) -> (r: Option<core::cmp::Ordering>) {
        if self.0 < other.0 {
            Some(core::cmp::Ordering::Less)
        } else if self.0 == other.0 {
            Some(core::cmp::Ordering::Equal)
        } else {
            Some(core::cmp::Ordering::Greater)
        }
    }
}

impl vstd::std_specs::cmp::PartialOrdSpecImpl for Words {
    open spec fn obeys_partial_cmp_spec() -> bool {
        true
    }

    open spec fn partial_cmp_spec(&self, other: &Words) -> Option<core::cmp::Ordering> {
        if self.0 < other.0 {
            Some(core::cmp::Ordering::Less)
        } else if self.0 == other.0 {
            Some(core::cmp::Ordering::Equal)
        } else {
            Some(core::cmp::Ordering::Greater)
        }
    }
}

impl PartialOrd for Pages {
    fn partial_cmp(&self, other: &Pages) -> (r: Option<core::cmp::Ordering>) {
        if self.0 < other.0 {
            Some(core::cmp::Ordering::Less)
        } else if self.0 == other.0 {
            Some(core::cmp::Ordering::Equal)
        } else {
            Some(core::cmp::Ordering::Greater)
        }
    }
}

impl vstd::std_specs::cmp::PartialOrdSpecImpl for Pages {
    open spec fn obeys_partial_cmp_spec() -> bool {
        true
    }

    open spec fn partial_cmp_spec(&self, other: &Pages) -> Option<core::cmp::Ordering> {
        if self.0 < other.0 {
            Some(core::cmp::Ordering::Less)
        } else if self.0 == other.0 {
            Some(core::cmp::Ordering::Equal)
        } else {
            Some(core::cmp::Ordering::Greater)
        }
    }
}

} // verus!
