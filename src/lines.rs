use vstd::prelude::*;

verus! {

pub const NEWLINE: u8 = 10;

pub const CARRIAGE_RETURN: u8 = 13;

/// The lines of `s` that a newline has ended, each without its newline.
pub open spec fn complete_lines(s: Seq<u8>) -> Seq<Seq<u8>>
    decreases s.len(),
{
    if s.len() == 0 {
        seq![]
    } else {
        let p = s.drop_last();
        if s.last() == NEWLINE {
            complete_lines(p).push(pending_tail(p))
        } else {
            complete_lines(p)
        }
    }
}

/// The bytes of `s` after its last newline: a line that has not ended yet.
pub open spec fn pending_tail(s: Seq<u8>) -> Seq<u8>
    decreases s.len(),
{
    if s.len() == 0 {
        seq![]
    } else {
        let p = s.drop_last();
        if s.last() == NEWLINE {
            seq![]
        } else {
            pending_tail(p).push(s.last())
        }
    }
}

/// A line as it is logged: one carriage return before the newline is dropped
/// too, so that `\r\n` ends a line as `\n` does.
pub open spec fn strip_cr(l: Seq<u8>) -> Seq<u8> {
    if l.len() > 0 && l.last() == CARRIAGE_RETURN {
        l.drop_last()
    } else {
        l
    }
}

pub open spec fn stripped(ls: Seq<Seq<u8>>) -> Seq<Seq<u8>> {
    ls.map_values(|l: Seq<u8>| strip_cr(l))
}

pub open spec fn line_views(v: Seq<Vec<u8>>) -> Seq<Seq<u8>> {
    v.map_values(|l: Vec<u8>| l@)
}

/// Lines written back one after another, each followed by a newline.
pub open spec fn joined(ls: Seq<Seq<u8>>) -> Seq<u8>
    decreases ls.len(),
{
    if ls.len() == 0 {
        seq![]
    } else {
        joined(ls.drop_last()) + ls.last().push(NEWLINE)
    }
}

/// Cuts a byte stream, read in chunks of any size, into lines.
pub struct LineSplitter {
    pending: Vec<u8>,
    consumed: Ghost<Seq<u8>>,
}

impl View for LineSplitter {
    type V = Seq<u8>;

    /// Every byte pushed so far.
    closed spec fn view(&self) -> Seq<u8> {
        self.consumed@
    }
}

impl LineSplitter {
    pub closed spec fn wf(&self) -> bool {
        self.pending@ == pending_tail(self.consumed@)
    }

    pub fn new() -> (r: LineSplitter)
        ensures
            r.wf(),
            r@ == Seq::<u8>::empty(),
    {
        LineSplitter { pending: Vec::new(), consumed: Ghost(Seq::empty()) }
    }

    /// Takes the next chunk of the stream and returns the lines it completes,
    /// in order, without their line ends.
    pub fn push(&mut self, chunk: &[u8]) -> (r: Vec<Vec<u8>>)
        requires
            old(self).wf(),
        ensures
            final(self).wf(),
            final(self)@ == old(self)@ + chunk@,
            stripped(complete_lines(final(self)@)) == stripped(complete_lines(old(self)@))
                + line_views(r@),
    {
        let mut out: Vec<Vec<u8>> = Vec::new();
        let ghost start = self.consumed@;
        let mut i: usize = 0;
        while i < chunk.len()
            invariant
                i <= chunk@.len(),
                self.consumed@ == start + chunk@.subrange(0, i as int),
                self.pending@ == pending_tail(self.consumed@),
                stripped(complete_lines(self.consumed@)) == stripped(complete_lines(start))
                    + line_views(out@),
            decreases chunk.len() - i,
        {
            let b = chunk[i];
            let ghost before = self.consumed@;
            proof {
                let after = before.push(b);
                assert(after.drop_last() =~= before);
                assert(start + chunk@.subrange(0, i + 1) =~= after);
                self.consumed = Ghost(after);
            }
            if b == NEWLINE {
                let mut line = Vec::new();
                std::mem::swap(&mut line, &mut self.pending);
                let mut logged = line;
                if logged.len() > 0 && logged[logged.len() - 1] == CARRIAGE_RETURN {
                    logged.pop();
                }
                proof {
                    assert(logged@ == strip_cr(pending_tail(before)));
                    assert(stripped(complete_lines(before).push(pending_tail(before)))
                        =~= stripped(complete_lines(before)).push(strip_cr(pending_tail(before))));
                }
                out.push(logged);
                proof {
                    assert(line_views(out@) =~= line_views(out@.drop_last()).push(logged@));
                    assert(self.pending@ =~= pending_tail(self.consumed@));
                }
            } else {
                self.pending.push(b);
            }
            i = i + 1;
        }
        proof {
            assert(chunk@.subrange(0, chunk@.len() as int) =~= chunk@);
        }
        out
    }

    /// Ends the stream and returns its unfinished last line, if it holds any
    /// byte. Such a line keeps every byte, a final carriage return included.
    pub fn finish(self) -> (r: Option<Vec<u8>>)
        requires
            self.wf(),
        ensures
            pending_tail(self@).len() == 0 ==> r.is_none(),
            pending_tail(self@).len() > 0 ==> r.is_some() && r.unwrap()@ == pending_tail(self@),
    {
        if self.pending.len() == 0 {
            None
        } else {
            Some(self.pending)
        }
    }
}

/// What one read of an output stream gave back.
#[derive(Clone, Copy, Debug, PartialEq, Eq, Structural)]
pub enum StreamRead {
    /// Some bytes were read.
    Data,
    /// The read was interrupted before any byte came.
    Interrupted,
    /// The writing end has closed.
    EndOfInput,
    /// The read failed.
    Failed,
}

/// What an output logger does after one read.
#[derive(Clone, Copy, Debug, PartialEq, Eq, Structural)]
pub enum ReadStep {
    /// Hand the bytes, if any, to the splitter and read again.
    Continue,
    /// Log the read error with the service and stream, then read again.
    ReportAndContinue,
    /// Flush the unfinished last line and stop reading.
    End,
}

/// Decides an output logger's next step. Only the end of input ends the
/// loop; a failed read is logged and reading goes on.
pub fn read_step(r: StreamRead) -> (s: ReadStep)
    ensures
        s == ReadStep::End <==> r == StreamRead::EndOfInput,
        s == ReadStep::ReportAndContinue <==> r == StreamRead::Failed,
        s == ReadStep::Continue <==> (r == StreamRead::Data || r == StreamRead::Interrupted),
{
    match r {
        StreamRead::Data => ReadStep::Continue,
        StreamRead::Interrupted => ReadStep::Continue,
        StreamRead::EndOfInput => ReadStep::End,
        StreamRead::Failed => ReadStep::ReportAndContinue,
    }
}

/// No byte of a stream is lost or reordered by cutting it into lines: the
/// complete lines, each given back its newline, followed by the unfinished
/// tail, are the stream itself.
pub proof fn lemma_lines_keep_every_byte(s: Seq<u8>)
    ensures
        joined(complete_lines(s)) + pending_tail(s) == s,
    decreases s.len(),
{
    if s.len() > 0 {
        let p = s.drop_last();
        lemma_lines_keep_every_byte(p);
        assert(s =~= p.push(s.last()));
        if s.last() == NEWLINE {
            let ls = complete_lines(p).push(pending_tail(p));
            assert(ls.drop_last() =~= complete_lines(p));
            assert(joined(ls) == joined(complete_lines(p)) + pending_tail(p).push(NEWLINE));
            assert(joined(ls) + pending_tail(s) =~= (joined(complete_lines(p)) + pending_tail(
                p,
            )).push(NEWLINE));
        } else {
            assert(joined(complete_lines(s)) + pending_tail(s) =~= (joined(complete_lines(p))
                + pending_tail(p)).push(s.last()));
        }
    }
}

} // verus!
