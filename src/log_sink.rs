//! Bounded record of the lines that the sidecar writes, oldest evicted first.
use std::collections::VecDeque;
use vstd::prelude::*;
use vstd::string::StringExecFns;

verus! {

/// The most entries that a log buffer retains.
pub const MAX_LOG_ENTRIES: usize = 200;

/// The output stream that a line came from.
#[derive(Clone, Copy, PartialEq, Eq, Structural, Debug)]
pub enum StreamTag {
    Stdout,
    Stderr,
}

/// The text that marks an entry with its stream.
pub open spec fn tag_prefix(tag: StreamTag) -> Seq<char> {
    match tag {
        StreamTag::Stdout => "[stdout] "@,
        StreamTag::Stderr => "[stderr] "@,
    }
}

/// The entry recorded for `line` read from the stream `tag`.
pub open spec fn tagged_entry(tag: StreamTag, line: Seq<char>) -> Seq<char> {
    tag_prefix(tag) + line
}

/// The last `max` elements of `s`, or all of `s` when it has no more.
pub open spec fn keep_newest<A>(s: Seq<A>, max: nat) -> Seq<A> {
    if s.len() > max {
        s.subrange(s.len() - max, s.len() as int)
    } else {
        s
    }
}

/// All of `entries` written one after another.
pub open spec fn concat_all(entries: Seq<Seq<char>>) -> Seq<char>
    decreases entries.len(),
{
    if entries.len() == 0 {
        Seq::empty()
    } else {
        concat_all(entries.drop_last()) + entries.last()
    }
}

/// The entries of a buffer holding `start` after each of `lines` was
/// appended to it in turn.
pub open spec fn after_appends(start: Seq<Seq<char>>, lines: Seq<Seq<char>>) -> Seq<Seq<char>>
    decreases lines.len(),
{
    if lines.len() == 0 {
        start
    } else {
        keep_newest(after_appends(start, lines.drop_last()).push(lines.last()), MAX_LOG_ENTRIES as nat)
    }
}

/// What the text of a captured output line is, given its raw bytes.
pub uninterp spec fn lossy_text(bytes: Seq<u8>) -> Seq<char>;

/// Relies on `String::from_utf8_lossy`: the text of the bytes, each invalid
/// sequence replaced; it depends on the bytes alone, and no bytes give no text.
#[verifier::external_body]
fn decode_lossy(bytes: &[u8]) -> (r: String)
    ensures
        r@ == lossy_text(bytes@),
        bytes@.len() == 0 ==> r@.len() == 0,
{
    String::from_utf8_lossy(bytes).into_owned()
}

/// The captured lines, in the order they arrived, at most `MAX_LOG_ENTRIES` of them.
pub struct LogBuffer {
    entries: VecDeque<String>,
}

impl View for LogBuffer {
    type V = Seq<Seq<char>>;

    closed spec fn view(&self) -> Seq<Seq<char>> {
        self.entries@.map_values(|s: String| s@)
    }
}

impl LogBuffer {
    /// The buffer never holds more than `MAX_LOG_ENTRIES` entries.
    pub closed spec fn wf(&self) -> bool {
        self.entries@.len() <= MAX_LOG_ENTRIES
    }

    pub fn new() -> (r: LogBuffer)
        ensures
            r.wf(),
            r@ == Seq::<Seq<char>>::empty(),
    {
        let r = LogBuffer { entries: VecDeque::new() };
        assert(r@ =~= Seq::<Seq<char>>::empty());
        r
    }

    /// The number of retained entries.
    pub fn len(&self) -> (r: usize)
        ensures
            r == self@.len(),
    {
        self.entries.len()
    }

    /// Records `entry`, evicting the oldest entry once more than
    /// `MAX_LOG_ENTRIES` are held.
    pub fn push_entry(&mut self, entry: String)
        requires
            old(self).wf(),
        ensures
            final(self).wf(),
            final(self)@ == keep_newest(old(self)@.push(entry@), MAX_LOG_ENTRIES as nat),
    {
        let ghost e = entry@;
        self.entries.push_back(entry);
        assert(self@ =~= old(self)@.push(e));
        while self.entries.len() > MAX_LOG_ENTRIES
            invariant
                self.entries@.len() <= MAX_LOG_ENTRIES + 1,
                old(self).wf(),
                self@ == keep_newest(old(self)@.push(e), self.entries@.len() as nat),
                self.entries@.len() == old(self).entries@.len() + 1 || self.entries@.len()
                    == MAX_LOG_ENTRIES,
            decreases self.entries@.len(),
        {
            let ghost before = self@;
            let _ = self.entries.pop_front();
            assert(self@ =~= before.drop_first());
        }
        assert(self@ =~= keep_newest(old(self)@.push(e), MAX_LOG_ENTRIES as nat));
    }

    /// Records `line`, read from the stream `tag`, marked with its stream.
    pub fn append(&mut self, tag: StreamTag, line: &str)
        requires
            old(self).wf(),
        ensures
            final(self).wf(),
            final(self)@ == keep_newest(
                old(self)@.push(tagged_entry(tag, line@)),
                MAX_LOG_ENTRIES as nat,
            ),
    {
        let mut entry = match tag {
            StreamTag::Stdout => String::from_str("[stdout] "),
            StreamTag::Stderr => String::from_str("[stderr] "),
        };
        entry.append(line);
        self.push_entry(entry);
    }

    /// Records the raw bytes of one output line, read from the stream `tag`,
    /// and returns the line's text.
    pub fn append_bytes(&mut self, tag: StreamTag, bytes: &[u8]) -> (r: String)
        requires
            old(self).wf(),
        ensures
            final(self).wf(),
            r@ == lossy_text(bytes@),
            final(self)@ == keep_newest(
                old(self)@.push(tagged_entry(tag, lossy_text(bytes@))),
                MAX_LOG_ENTRIES as nat,
            ),
    {
        let line = decode_lossy(bytes);
        self.append(tag, line.as_str());
        line
    }

    /// All retained entries, oldest first, as one text.
    pub fn snapshot(&self) -> (r: String)
        ensures
            r@ == concat_all(self@),
    {
        let mut out = String::new();
        let n = self.entries.len();
        let mut i: usize = 0;
        while i < n
            invariant
                i <= n,
                n == self@.len(),
                out@ == concat_all(self@.subrange(0, i as int)),
            decreases n - i,
        {
            out.append(self.entries[i].as_str());
            assert(self@.subrange(0, i + 1).drop_last() =~= self@.subrange(0, i as int));
            i = i + 1;
        }
        assert(self@.subrange(0, n as int) =~= self@);
        out
    }
}

proof fn lemma_keep_newest_push<A>(s: Seq<A>, x: A, max: nat)
    requires
        max > 0,
    ensures
        keep_newest(keep_newest(s, max).push(x), max) == keep_newest(s.push(x), max),
{
    assert(keep_newest(keep_newest(s, max).push(x), max) =~= keep_newest(s.push(x), max));
}

/// Appending lines one by one to an empty buffer leaves exactly the newest
/// `MAX_LOG_ENTRIES` of them (all of them when there are fewer), in the
/// order they were appended: older lines are gone.
pub proof fn lemma_eviction_keeps_newest(lines: Seq<Seq<char>>)
    ensures
        after_appends(Seq::empty(), lines) == keep_newest(lines, MAX_LOG_ENTRIES as nat),
        lines.len() > MAX_LOG_ENTRIES ==> after_appends(Seq::empty(), lines).len()
            == MAX_LOG_ENTRIES,
        lines.len() > MAX_LOG_ENTRIES ==> after_appends(Seq::empty(), lines) == lines.subrange(
            lines.len() - MAX_LOG_ENTRIES,
            lines.len() as int,
        ),
    decreases lines.len(),
{
    if lines.len() > 0 {
        lemma_eviction_keeps_newest(lines.drop_last());
        lemma_keep_newest_push(lines.drop_last(), lines.last(), MAX_LOG_ENTRIES as nat);
        assert(lines.drop_last().push(lines.last()) =~= lines);
    }
}

/// One event of the sidecar's output channel.
pub enum OutputEvent {
    /// A line written to standard output, as raw bytes.
    Stdout(Vec<u8>),
    /// A line written to standard error, as raw bytes.
    Stderr(Vec<u8>),
    /// An error reported by the channel; the process may still be alive.
    Error(String),
    /// The process exited, with its exit code where it has one.
    Terminated(Option<i32>),
    /// Any other event, which is ignored.
    Other,
}

/// What a reader of the output channel does after an event.
pub enum ReaderStep {
    /// Mirror the line to the host's stream of the same tag, and read on.
    Echo(StreamTag, String),
    /// Report the channel's error on the host's standard error, and read on.
    ReportError(String),
    /// The process is gone: report its exit and stop reading.
    Finished(Option<i32>),
    /// Read on.
    Continue,
}

impl LogBuffer {
    /// Handles one output event: records each line with its stream tag and
    /// says what the reader does next.
    pub fn on_output(&mut self, event: OutputEvent) -> (r: ReaderStep)
        requires
            old(self).wf(),
        ensures
            final(self).wf(),
            match event {
                OutputEvent::Stdout(b) => {
                    &&& final(self)@ == keep_newest(
                        old(self)@.push(tagged_entry(StreamTag::Stdout, lossy_text(b@))),
                        MAX_LOG_ENTRIES as nat,
                    )
                    &&& r matches ReaderStep::Echo(t, s) && t == StreamTag::Stdout && s@
                        == lossy_text(b@)
                },
                OutputEvent::Stderr(b) => {
                    &&& final(self)@ == keep_newest(
                        old(self)@.push(tagged_entry(StreamTag::Stderr, lossy_text(b@))),
                        MAX_LOG_ENTRIES as nat,
                    )
                    &&& r matches ReaderStep::Echo(t, s) && t == StreamTag::Stderr && s@
                        == lossy_text(b@)
                },
                OutputEvent::Error(m) => {
                    &&& final(self)@ == old(self)@
                    &&& r matches ReaderStep::ReportError(m2) && m2@ == m@
                },
                OutputEvent::Terminated(c) => {
                    &&& final(self)@ == old(self)@
                    &&& r matches ReaderStep::Finished(c2) && c2 == c
                },
                OutputEvent::Other => final(self)@ == old(self)@ && r is Continue,
            },
    {
        match event {
            OutputEvent::Stdout(b) => {
                let line = self.append_bytes(StreamTag::Stdout, b.as_slice());
                ReaderStep::Echo(StreamTag::Stdout, line)
            },
            OutputEvent::Stderr(b) => {
                let line = self.append_bytes(StreamTag::Stderr, b.as_slice());
                ReaderStep::Echo(StreamTag::Stderr, line)
            },
            OutputEvent::Error(m) => ReaderStep::ReportError(m),
            OutputEvent::Terminated(c) => ReaderStep::Finished(c),
            OutputEvent::Other => ReaderStep::Continue,
        }
    }
}

} // verus!
