//! The scratch file that capture and text extraction share, as a value.
//! Both commands use one fixed path, so two invocations in flight at once
//! act on the same slot; this model makes that interference a provable
//! fact instead of a comment.

use vstd::prelude::*;

verus! {

/// What the fixed scratch path holds: nothing yet, or the bytes last
/// written, whoever wrote them.
pub struct ScratchSlot {
    content: Option<Vec<u8>>,
}

/// What the slot holds after a write: only the written bytes, whatever it
/// held before.
pub open spec fn slot_after_write(s: Option<Seq<u8>>, data: Seq<u8>) -> Option<Seq<u8>> {
    Some(data)
}

impl ScratchSlot {
    /// The slot's content.
    pub closed spec fn view(&self) -> Option<Seq<u8>> {
        self.content.deep_view()
    }

    /// A slot nothing has written yet.
    pub fn empty() -> (s: Self)
        ensures
            s@ is None,
    {
        ScratchSlot { content: None }
    }

    /// One command writing its intermediate file.
    pub fn write(&mut self, data: Vec<u8>)
        ensures
            final(self)@ == slot_after_write(old(self)@, data@),
    {
        self.content = Some(data);
    }

    /// One command reading the file back, whoever wrote it last.
    pub fn read(&self) -> (r: Option<&Vec<u8>>)
        ensures
            (match r {
                Some(v) => self@ == Some(v@),
                None => self@ is None,
            }),
    {
        match &self.content {
            Some(v) => Some(v),
            None => None,
        }
    }
}

/// Two captures interleaved on the shared slot corrupt the first: when both
/// have written before the first reads back, the first reads the second's
/// bytes and can never see its own.
pub proof fn lemma_shared_slot_interference(
    s: Option<Seq<u8>>,
    first: Seq<u8>,
    second: Seq<u8>,
)
    requires
        first != second,
    ensures
        slot_after_write(slot_after_write(s, first), second) == Some(second),
        slot_after_write(slot_after_write(s, first), second) != Some(first),
{
}

} // verus!
