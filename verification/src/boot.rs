//! The handshake by which core 0 starts core 1.
//!
//! Core 0 sends six words through the inter-core FIFO: `0, 0, 1`, the address
//! of the vector table, the initial stack pointer and the entry point. Core 1
//! echoes each word back. A word that comes back different makes core 0 start
//! the sequence again from its first word. Before a `0` is sent, core 0 empties
//! its read FIFO and signals an event, since core 1 may be waiting for room.
use vstd::prelude::*;

verus! {

/// Number of words of the launch sequence.
pub const LAUNCH_SEQUENCE_LEN: usize = 6;

/// An address with bit 0 set, as the processor wants for a jump in Thumb state.
pub open spec fn thumb(addr: u32) -> u32 {
    if addr % 2 == 0 {
        (addr + 1) as u32
    } else {
        addr
    }
}

/// The six words of the launch sequence.
pub open spec fn launch_sequence(vector_table: u32, stack_pointer: u32, entry: u32) -> Seq<u32> {
    seq![0u32, 0u32, 1u32, vector_table, stack_pointer, thumb(entry)]
}

/// How far the handshake has come after one more response, from `pos` words
/// already confirmed: the echo of the word at `pos` confirms it, anything else
/// sends the handshake back to its first word.
pub open spec fn launch_step(cmds: Seq<u32>, pos: nat, response: u32) -> nat {
    if pos < cmds.len() && response == cmds[pos as int] {
        pos + 1
    } else if pos < cmds.len() {
        0
    } else {
        pos
    }
}

/// How many words are confirmed after the responses `responses`, from the start.
pub open spec fn launch_progress(cmds: Seq<u32>, responses: Seq<u32>) -> nat
    decreases responses.len(),
{
    if responses.len() == 0 {
        0
    } else {
        launch_step(cmds, launch_progress(cmds, responses.drop_last()), responses.last())
    }
}

/// No response was taken after the handshake was complete: before each of
/// them, some word was still unconfirmed.
pub open spec fn launch_trace_open(cmds: Seq<u32>, responses: Seq<u32>) -> bool {
    forall|k: int|
        0 <= k < responses.len() ==> #[trigger] launch_progress(cmds, responses.take(k))
            < cmds.len()
}

/// The address in Thumb state of the code at `addr`: `addr | 1`.
pub fn thumb_entry(addr: u32) -> (a: u32)
    ensures
        a == thumb(addr),
        a == addr | 1,
        a % 2 == 1,
{
    proof {
        assert((addr | 1u32) == (if addr % 2 == 0 { (addr + 1) as u32 } else { addr }))
            by (bit_vector);
        assert((addr | 1u32) % 2 == 1) by (bit_vector);
    }
    addr | 1
}

/// Initial stack pointer of a stack of `len` bytes at `base`: the stack grows
/// down from its end.
pub fn stack_top(base: u32, len: u32) -> (sp: u32)
    requires
        base + len <= u32::MAX,
    ensures
        sp == base + len,
{
    base + len
}

/// The word to send next, and whether the read FIFO must be emptied (followed
/// by an event) before it is sent.
#[derive(PartialEq, Eq, Structural, Clone, Copy, Debug)]
pub struct LaunchCommand {
    pub value: u32,
    pub drain_first: bool,
}

/// State of the handshake on core 0.
pub struct Core1Launch {
    cmds: Vec<u32>,
    pos: usize,
    received: Ghost<Seq<u32>>,
}

impl Core1Launch {
    /// The words of the sequence, in the order they are sent.
    pub closed spec fn commands(&self) -> Seq<u32> {
        self.cmds@
    }

    /// How many words, from the first, core 1 has echoed in a row.
    pub closed spec fn progress(&self) -> nat {
        self.pos as nat
    }

    /// Every response received so far, oldest first.
    pub closed spec fn responses(&self) -> Seq<u32> {
        self.received@
    }

    /// The state agrees with the responses received.
    pub closed spec fn wf(&self) -> bool {
        &&& self.cmds@.len() == LAUNCH_SEQUENCE_LEN
        &&& self.pos as nat == launch_progress(self.cmds@, self.received@)
        &&& launch_trace_open(self.cmds@, self.received@)
    }

    /// Starts a handshake that launches core 1 with the vector table at
    /// `vector_table`, the stack pointer `stack_pointer` and the code at `entry`.
    pub fn new(vector_table: u32, stack_pointer: u32, entry: u32) -> (l: Self)
        ensures
            l.wf(),
            l.commands() == launch_sequence(vector_table, stack_pointer, entry),
            l.commands() == seq![0u32, 0u32, 1u32, vector_table, stack_pointer, entry | 1u32],
            l.commands()[5] % 2 == 1,
            l.responses() == Seq::<u32>::empty(),
            l.progress() == 0,
    {
        let mut cmds: Vec<u32> = Vec::new();
        cmds.push(0);
        cmds.push(0);
        cmds.push(1);
        cmds.push(vector_table);
        cmds.push(stack_pointer);
        cmds.push(thumb_entry(entry));
        let l = Core1Launch { cmds, pos: 0, received: Ghost(Seq::empty()) };
        assert(l.cmds@ =~= launch_sequence(vector_table, stack_pointer, entry));
        proof {
            lemma_launch_sequence_words(vector_table, stack_pointer, entry);
        }
        l
    }

    /// The whole sequence has been echoed.
    pub fn is_done(&self) -> (done: bool)
        requires
            self.wf(),
        ensures
            done == (self.progress() == LAUNCH_SEQUENCE_LEN),
            done ==> self.responses().len() >= LAUNCH_SEQUENCE_LEN,
            done ==> self.responses().subrange(
                self.responses().len() - LAUNCH_SEQUENCE_LEN,
                self.responses().len() as int,
            ) == self.commands(),
    {
        proof {
            lemma_launch_progress_matches(self.cmds@, self.received@);
            assert(self.cmds@.subrange(0, self.cmds@.len() as int) =~= self.cmds@);
        }
        self.pos == LAUNCH_SEQUENCE_LEN
    }

    /// The word to send next, or `None` once the whole sequence is confirmed.
    pub fn next_command(&self) -> (c: Option<LaunchCommand>)
        requires
            self.wf(),
        ensures
            c is None <==> self.progress() == LAUNCH_SEQUENCE_LEN,
            c matches Some(cmd) ==> cmd.value == self.commands()[self.progress() as int]
                && cmd.drain_first == (cmd.value == 0),
    {
        proof {
            lemma_launch_progress_matches(self.cmds@, self.received@);
        }
        if self.pos < LAUNCH_SEQUENCE_LEN {
            let value = self.cmds[self.pos];
            Some(LaunchCommand { value, drain_first: value == 0 })
        } else {
            None
        }
    }

    /// Takes the word that core 1 sent back for the word last sent.
    pub fn on_response(&mut self, response: u32)
        requires
            old(self).wf(),
            old(self).progress() < LAUNCH_SEQUENCE_LEN,
        ensures
            final(self).wf(),
            final(self).commands() == old(self).commands(),
            final(self).responses() == old(self).responses().push(response),
            final(self).progress() == launch_step(old(self).commands(), old(self).progress(), response),
            response == old(self).commands()[old(self).progress() as int]
                ==> final(self).progress() == old(self).progress() + 1,
            response != old(self).commands()[old(self).progress() as int]
                ==> final(self).progress() == 0,
    {
        let ghost old_received = self.received@;
        let ghost cmds = self.cmds@;
        if response == self.cmds[self.pos] {
            self.pos = self.pos + 1;
        } else {
            self.pos = 0;
        }
        self.received = Ghost(old_received.push(response));
        proof {
            let rs = old_received.push(response);
            assert(rs.drop_last() =~= old_received);
            assert forall|k: int| 0 <= k < rs.len() implies #[trigger] launch_progress(
                cmds,
                rs.take(k),
            ) < cmds.len() by {
                if k < old_received.len() {
                    assert(rs.take(k) =~= old_received.take(k));
                } else {
                    assert(rs.take(k) =~= old_received);
                }
            }
        }
    }
}

/// Setting the Thumb bit: the result is `addr | 1`, it is odd, and it differs
/// from `addr` only in bit 0, which an odd address already has.
pub proof fn lemma_thumb_sets_bit_zero(addr: u32)
    ensures
        thumb(addr) == addr | 1u32,
        thumb(addr) % 2 == 1,
        addr % 2 == 1 ==> thumb(addr) == addr,
        addr % 2 == 0 ==> thumb(addr) == addr + 1,
{
    assert((addr | 1u32) == (if addr % 2 == 0 { (addr + 1) as u32 } else { addr }))
        by (bit_vector);
    assert((addr | 1u32) % 2 == 1) by (bit_vector);
}

/// The launch sequence is `0, 0, 1`, the vector table, the stack pointer and
/// the entry point with its Thumb bit set (`entry | 1`), for every input:
/// core 1 always starts in Thumb state, and an entry that already has the bit
/// is sent unchanged.
pub proof fn lemma_launch_sequence_words(vector_table: u32, stack_pointer: u32, entry: u32)
    ensures
        launch_sequence(vector_table, stack_pointer, entry).len() == LAUNCH_SEQUENCE_LEN,
        launch_sequence(vector_table, stack_pointer, entry) == seq![
            0u32,
            0u32,
            1u32,
            vector_table,
            stack_pointer,
            entry | 1u32,
        ],
        launch_sequence(vector_table, stack_pointer, entry)[5] % 2 == 1,
        entry % 2 == 1 ==> launch_sequence(vector_table, stack_pointer, entry)[5] == entry,
{
    lemma_thumb_sets_bit_zero(entry);
    assert(launch_sequence(vector_table, stack_pointer, entry) =~= seq![
        0u32,
        0u32,
        1u32,
        vector_table,
        stack_pointer,
        entry | 1u32,
    ]);
}

/// After any responses taken while the handshake was open, the number `p` of
/// confirmed words is at most the length of the sequence, and the last `p`
/// responses are exactly the first `p` words of the sequence.
pub proof fn lemma_launch_progress_matches(cmds: Seq<u32>, responses: Seq<u32>)
    requires
        launch_trace_open(cmds, responses),
    ensures
        launch_progress(cmds, responses) <= cmds.len(),
        launch_progress(cmds, responses) <= responses.len(),
        responses.subrange(
            responses.len() - launch_progress(cmds, responses),
            responses.len() as int,
        ) == cmds.subrange(0, launch_progress(cmds, responses) as int),
    decreases responses.len(),
{
    let n = responses.len() as int;
    if n == 0 {
        assert(responses.subrange(0, 0) =~= cmds.subrange(0, 0));
    } else {
        let prev = responses.drop_last();
        assert forall|k: int| 0 <= k < prev.len() implies #[trigger] launch_progress(
            cmds,
            prev.take(k),
        ) < cmds.len() by {
            assert(prev.take(k) =~= responses.take(k));
            assert(launch_progress(cmds, responses.take(k)) < cmds.len());
        }
        lemma_launch_progress_matches(cmds, prev);
        let p = launch_progress(cmds, prev);
        assert(responses.take(n - 1) =~= prev);
        assert(launch_progress(cmds, responses.take(n - 1)) < cmds.len());
        let r = responses.last();
        if r == cmds[p as int] {
            let q = p + 1int;
            assert(responses.subrange(n - q, n) =~= prev.subrange(n - 1 - p, n - 1).push(r));
            assert(cmds.subrange(0, q) =~= cmds.subrange(0, p as int).push(cmds[p as int]));
        } else {
            assert(responses.subrange(n, n) =~= cmds.subrange(0, 0));
        }
    }
}

/// A core 1 that echoes every word confirms the first `k` words with its
/// first `k` responses, and the handshake stays open until the last of them.
pub proof fn lemma_echo_confirms_prefix(cmds: Seq<u32>, k: nat)
    requires
        k <= cmds.len(),
    ensures
        launch_progress(cmds, cmds.take(k as int)) == k,
        launch_trace_open(cmds, cmds.take(k as int)),
    decreases k,
{
    if k > 0 {
        lemma_echo_confirms_prefix(cmds, (k - 1) as nat);
        let s = cmds.take(k as int);
        assert(s.drop_last() =~= cmds.take(k - 1));
        assert forall|j: int| 0 <= j < s.len() implies #[trigger] launch_progress(
            cmds,
            s.take(j),
        ) < cmds.len() by {
            if j < k - 1 {
                assert(s.take(j) =~= cmds.take(k - 1).take(j));
            } else {
                assert(s.take(j) =~= cmds.take(k - 1));
            }
        }
    } else {
        assert(cmds.take(0) =~= Seq::<u32>::empty());
    }
}

/// A core 1 that echoes every word completes the handshake with exactly the
/// six responses of the sequence itself.
pub proof fn lemma_echo_completes(vector_table: u32, stack_pointer: u32, entry: u32)
    ensures
        launch_progress(
            launch_sequence(vector_table, stack_pointer, entry),
            launch_sequence(vector_table, stack_pointer, entry),
        ) == LAUNCH_SEQUENCE_LEN,
        launch_trace_open(
            launch_sequence(vector_table, stack_pointer, entry),
            launch_sequence(vector_table, stack_pointer, entry),
        ),
{
    let cmds = launch_sequence(vector_table, stack_pointer, entry);
    lemma_echo_confirms_prefix(cmds, 6);
    assert(cmds.take(6) =~= cmds);
}

} // verus!
