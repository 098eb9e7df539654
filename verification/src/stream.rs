//! Model of the child's shared input stream and its write discipline.
//!
//! The tick driver and the input relay both write to the one stream, each
//! write a whole command line made under mutual exclusion, so the child can
//! never observe a partial or interleaved line. [`SharedInput`] captures that
//! discipline: its byte sequence is, by construction, the concatenation of
//! the command lines written so far, and [`lemma_stream_atomic`] shows the
//! converse — the observed bytes split into command lines in exactly one
//! way, namely the writes in order.

use vstd::prelude::*;

verus! {

use crate::protocol::NEWLINE_BYTE;
use crate::protocol::is_command_line;

/// The bytes a reader observes after the given whole-line writes.
pub open spec fn concat_lines(ls: Seq<Seq<u8>>) -> Seq<u8> {
    ls.flatten()
}

/// Every entry is a well-formed command line.
pub open spec fn all_command_lines(ls: Seq<Seq<u8>>) -> bool {
    forall|i: int| 0 <= i < ls.len() ==> is_command_line(#[trigger] ls[i])
}

/// Appending one write extends the observed bytes by exactly that line.
pub proof fn lemma_concat_lines_push(ls: Seq<Seq<u8>>, l: Seq<u8>)
    ensures
        concat_lines(ls.push(l)) == concat_lines(ls) + l,
{
    ls.lemma_flatten_push(l);
}

/// Two command lines that open the same byte sequence are the same line,
/// and leave the same remainder: a reader scanning for the terminator can
/// not split one write across a line boundary.
pub proof fn lemma_first_line_determined(l1: Seq<u8>, r1: Seq<u8>, l2: Seq<u8>, r2: Seq<u8>)
    requires
        is_command_line(l1),
        is_command_line(l2),
        l1 + r1 == l2 + r2,
    ensures
        l1 == l2,
        r1 == r2,
{
    assert((l1 + r1).len() == l1.len() + r1.len());
    assert((l2 + r2).len() == l2.len() + r2.len());
    if l1.len() < l2.len() {
        assert((l1 + r1)[l1.len() - 1] == l1[l1.len() - 1]);
        assert((l2 + r2)[l1.len() - 1] == l2[l1.len() - 1]);
        assert(l2[l1.len() - 1] != NEWLINE_BYTE);
        assert(false);
    }
    if l2.len() < l1.len() {
        assert((l2 + r2)[l2.len() - 1] == l2[l2.len() - 1]);
        assert((l1 + r1)[l2.len() - 1] == l1[l2.len() - 1]);
        assert(l1[l2.len() - 1] != NEWLINE_BYTE);
        assert(false);
    }
    assert(l1.len() == l2.len());
    assert forall|i: int| 0 <= i < l1.len() implies l1[i] == l2[i] by {
        assert((l1 + r1)[i] == l1[i]);
        assert((l2 + r2)[i] == l2[i]);
    }
    assert(l1 =~= l2);
    assert forall|i: int| 0 <= i < r1.len() implies r1[i] == r2[i] by {
        assert((l1 + r1)[l1.len() + i] == r1[i]);
        assert((l2 + r2)[l2.len() + i] == r2[i]);
    }
    assert(r1 =~= r2);
}

/// A byte sequence splits into command lines in at most one way.
pub proof fn lemma_lines_unique(ls1: Seq<Seq<u8>>, ls2: Seq<Seq<u8>>)
    requires
        all_command_lines(ls1),
        all_command_lines(ls2),
        concat_lines(ls1) == concat_lines(ls2),
    ensures
        ls1 == ls2,
    decreases ls1.len(),
{
    if ls1.len() == 0 {
        if ls2.len() > 0 {
            assert(is_command_line(ls2[0]));
            assert(concat_lines(ls2) == ls2.first() + concat_lines(ls2.drop_first()));
            assert(concat_lines(ls2).len() >= ls2.first().len());
            assert(false);
        }
        assert(ls1 =~= ls2);
    } else if ls2.len() == 0 {
        assert(is_command_line(ls1[0]));
        assert(concat_lines(ls1) == ls1.first() + concat_lines(ls1.drop_first()));
        assert(concat_lines(ls1).len() >= ls1.first().len());
        assert(false);
    } else {
        assert(is_command_line(ls1[0]));
        assert(is_command_line(ls2[0]));
        assert(concat_lines(ls1) == ls1.first() + concat_lines(ls1.drop_first()));
        assert(concat_lines(ls2) == ls2.first() + concat_lines(ls2.drop_first()));
        lemma_first_line_determined(
            ls1.first(),
            concat_lines(ls1.drop_first()),
            ls2.first(),
            concat_lines(ls2.drop_first()),
        );
        assert forall|i: int| 0 <= i < ls1.drop_first().len() implies is_command_line(
            #[trigger] ls1.drop_first()[i],
        ) by {
            assert(ls1.drop_first()[i] == ls1[i + 1]);
        }
        assert forall|i: int| 0 <= i < ls2.drop_first().len() implies is_command_line(
            #[trigger] ls2.drop_first()[i],
        ) by {
            assert(ls2.drop_first()[i] == ls2[i + 1]);
        }
        lemma_lines_unique(ls1.drop_first(), ls2.drop_first());
        assert forall|i: int| 0 <= i < ls1.len() implies ls1[i] == ls2[i] by {
            if i > 0 {
                assert(ls1[i] == ls1.drop_first()[i - 1]);
                assert(ls2[i] == ls2.drop_first()[i - 1]);
            }
        }
        assert(ls1 =~= ls2);
    }
}

/// The shared handle to the child's input stream, as the child observes it:
/// the bytes written so far, together with the (ghost) sequence of whole-line
/// writes they came from. One writer holds the handle per write, so each
/// write lands as one unbroken command line.
pub struct SharedInput {
    bytes: Vec<u8>,
    lines: Ghost<Seq<Seq<u8>>>,
}

impl SharedInput {
    /// The bytes the child has been handed so far.
    pub closed spec fn byte_view(self) -> Seq<u8> {
        self.bytes@
    }

    /// The whole-line writes made so far, in order.
    pub closed spec fn lines_view(self) -> Seq<Seq<u8>> {
        self.lines@
    }

    /// Well-formedness: every write was a command line, and the observed
    /// bytes are exactly their concatenation in write order.
    pub open spec fn wf(self) -> bool {
        &&& all_command_lines(self.lines_view())
        &&& self.byte_view() == concat_lines(self.lines_view())
    }

    /// A fresh stream with nothing written.
    pub fn new() -> (r: Self)
        ensures
            r.wf(),
            r.lines_view() == Seq::<Seq<u8>>::empty(),
            r.byte_view() == Seq::<u8>::empty(),
    {
        let r = SharedInput { bytes: Vec::new(), lines: Ghost(Seq::empty()) };
        proof {
            assert(r.byte_view() =~= concat_lines(r.lines_view()));
        }
        r
    }

    /// One atomic write: the whole command line lands at the end of the
    /// stream, with no other writer's bytes inside it.
    pub fn write_line(&mut self, line: &Vec<u8>)
        requires
            old(self).wf(),
            is_command_line(line@),
        ensures
            final(self).wf(),
            final(self).lines_view() == old(self).lines_view().push(line@),
            final(self).byte_view() == old(self).byte_view() + line@,
    {
        let ghost old_bytes = self.bytes@;
        let ghost old_lines = self.lines@;
        let mut i: usize = 0;
        while i < line.len()
            invariant
                i <= line.len(),
                self.bytes@ == old_bytes + line@.take(i as int),
                self.lines@ == old_lines,
            decreases line.len() - i,
        {
            let b: u8 = line[i];
            self.bytes.push(b);
            proof {
                assert(old_bytes + line@.take(i as int) + seq![line@[i as int]] =~= old_bytes
                    + line@.take(i as int + 1));
            }
            i = i + 1;
        }
        proof {
            assert(line@.take(line@.len() as int) =~= line@);
        }
        self.lines = Ghost(self.lines@.push(line@));
        proof {
            lemma_concat_lines_push(old_lines, line@);
        }
    }

    /// Read-only access to the bytes the child observes.
    pub fn observed(&self) -> (r: &Vec<u8>)
        ensures
            r@ == self.byte_view(),
    {
        &self.bytes
    }

    /// Law: writes are all-or-nothing from the child's side. Any way of
    /// reading the stream's bytes as a sequence of command lines yields
    /// exactly the lines that were written, each whole and in write order —
    /// no interleaved or partial line can ever be observed.
    pub proof fn lemma_stream_atomic(self, ls: Seq<Seq<u8>>)
        requires
            self.wf(),
            all_command_lines(ls),
            concat_lines(ls) == self.byte_view(),
        ensures
            ls == self.lines_view(),
    {
        lemma_lines_unique(ls, self.lines_view());
    }
}

} // verus!
