//! Port access for the 8042 controller.
//!
//! The controller is driven through two I/O ports.  The host environment
//! supplies the actual port access by implementing [`PortIO`]; the trait
//! carries a ghost trace of every operation performed, and all driver
//! contracts are stated over that trace.  The central safety property is
//! [`guarded_extension`]: the driver never writes to a port without having
//! just observed an empty input buffer in the status register.

use vstd::prelude::*;

use crate::controller::raw::STATUS_INPUT_BUFFER_FULL;

verus! {

/// I/O port carrying data bytes in both directions.
pub const DATA_PORT_RAW: u16 = 0x60;
/// I/O port whose reads return the status register.
pub const STATUS_REGISTER_RAW: u16 = 0x64;
/// I/O port whose writes issue controller commands.
pub const COMMAND_REGISTER_RAW: u16 = 0x64;

/// One recorded port access.
#[derive(Clone, Copy, Debug, PartialEq, Eq, Structural)]
pub enum PortOp {
    Read { port: u16, value: u8 },
    Write { port: u16, value: u8 },
}

/// True of a status register read that observed an empty input buffer: the
/// only observation after which the controller may be written to.
pub open spec fn is_empty_status_read(op: PortOp) -> bool {
    op matches PortOp::Read { port, value }
        && port == STATUS_REGISTER_RAW
        && value & STATUS_INPUT_BUFFER_FULL == 0
}

/// The writes in a trace, oldest first, as (port, value) pairs.
pub open spec fn writes_of(trace: Seq<PortOp>) -> Seq<(u16, u8)>
    decreases trace.len(),
{
    if trace.len() == 0 {
        Seq::empty()
    } else {
        match trace.last() {
            PortOp::Write { port, value } => writes_of(trace.drop_last()).push((port, value)),
            PortOp::Read { .. } => writes_of(trace.drop_last()),
        }
    }
}

/// The values read from the data port, oldest first.
pub open spec fn data_reads_of(trace: Seq<PortOp>) -> Seq<u8>
    decreases trace.len(),
{
    if trace.len() == 0 {
        Seq::empty()
    } else {
        match trace.last() {
            PortOp::Read { port, value } => if port == DATA_PORT_RAW {
                data_reads_of(trace.drop_last()).push(value)
            } else {
                data_reads_of(trace.drop_last())
            },
            PortOp::Write { .. } => data_reads_of(trace.drop_last()),
        }
    }
}

/// `post` extends `pre`, and every write added after `pre` happens right
/// after a status read that showed an empty input buffer.  This is the
/// documented hardware precondition for writing to the controller.
pub open spec fn guarded_extension(pre: Seq<PortOp>, post: Seq<PortOp>) -> bool {
    &&& pre.len() <= post.len()
    &&& post.subrange(0, pre.len() as int) == pre
    &&& forall|i: int|
        pre.len() <= i < post.len() && (#[trigger] post[i]) is Write ==> i >= 1
            && is_empty_status_read(post[i - 1])
}

/// A trace extends itself.
pub proof fn lemma_guarded_refl(trace: Seq<PortOp>)
    ensures
        guarded_extension(trace, trace),
{
    assert(trace.subrange(0, trace.len() as int) =~= trace);
}

/// Guarded extensions compose.
pub proof fn lemma_guarded_trans(a: Seq<PortOp>, b: Seq<PortOp>, c: Seq<PortOp>)
    requires
        guarded_extension(a, b),
        guarded_extension(b, c),
    ensures
        guarded_extension(a, c),
{
    assert(b.subrange(0, a.len() as int) =~= b.subrange(0, b.len() as int).subrange(
        0,
        a.len() as int,
    ));
    assert(c.subrange(0, a.len() as int) =~= c.subrange(0, b.len() as int).subrange(
        0,
        a.len() as int,
    ));
    assert forall|i: int| a.len() <= i < c.len() && (#[trigger] c[i]) is Write implies i >= 1
        && is_empty_status_read(c[i - 1]) by {
        if i < b.len() {
            assert(b =~= c.subrange(0, b.len() as int));
            assert(c[i] == b[i]);
            assert(i >= 1 && is_empty_status_read(b[i - 1]));
            assert(c[i - 1] == b[i - 1]);
        }
    }
}

/// Appending a read keeps an extension guarded.
pub proof fn lemma_guarded_push_read(pre: Seq<PortOp>, post: Seq<PortOp>, port: u16, value: u8)
    requires
        guarded_extension(pre, post),
    ensures
        guarded_extension(pre, post.push(PortOp::Read { port, value })),
{
    let grown = post.push(PortOp::Read { port, value });
    assert(grown.subrange(0, pre.len() as int) =~= post.subrange(0, pre.len() as int));
    assert forall|i: int| pre.len() <= i < grown.len() && (#[trigger] grown[i]) is Write implies i
        >= 1 && is_empty_status_read(grown[i - 1]) by {
        assert(grown[i] == post[i]);
        if i - 1 < post.len() {
            assert(grown[i - 1] == post[i - 1]);
        }
    }
}

/// Appending a write right after an empty status read keeps an extension
/// guarded.
pub proof fn lemma_guarded_push_write(pre: Seq<PortOp>, post: Seq<PortOp>, port: u16, value: u8)
    requires
        guarded_extension(pre, post),
        post.len() >= 1,
        is_empty_status_read(post.last()),
    ensures
        guarded_extension(pre, post.push(PortOp::Write { port, value })),
{
    let grown = post.push(PortOp::Write { port, value });
    assert(grown.subrange(0, pre.len() as int) =~= post.subrange(0, pre.len() as int));
    assert forall|i: int| pre.len() <= i < grown.len() && (#[trigger] grown[i]) is Write implies i
        >= 1 && is_empty_status_read(grown[i - 1]) by {
        if i < post.len() {
            assert(grown[i] == post[i]);
            if i - 1 < post.len() {
                assert(grown[i - 1] == post[i - 1]);
            }
        } else {
            assert(grown[i - 1] == post.last());
        }
    }
}

/// Appending a write leaves exactly one new entry in `writes_of`.
pub proof fn lemma_writes_of_push_write(trace: Seq<PortOp>, port: u16, value: u8)
    ensures
        writes_of(trace.push(PortOp::Write { port, value })) == writes_of(trace).push(
            (port, value),
        ),
{
    assert(trace.push(PortOp::Write { port, value }).drop_last() =~= trace);
}

/// Appending a read leaves `writes_of` unchanged.
pub proof fn lemma_writes_of_push_read(trace: Seq<PortOp>, port: u16, value: u8)
    ensures
        writes_of(trace.push(PortOp::Read { port, value })) == writes_of(trace),
{
    assert(trace.push(PortOp::Read { port, value }).drop_last() =~= trace);
}

/// Appending a data port read appends its value to `data_reads_of`.
pub proof fn lemma_data_reads_of_push(trace: Seq<PortOp>, op: PortOp)
    ensures
        data_reads_of(trace.push(op)) == if op matches PortOp::Read { port, value } && port
            == DATA_PORT_RAW {
            data_reads_of(trace).push(op->Read_value)
        } else {
            data_reads_of(trace)
        },
{
    assert(trace.push(op).drop_last() =~= trace);
}

/// `post` is `pre` with at most one discarded byte and then `value`
/// appended: the shape of the data reads a single command response leaves
/// behind.  The discarded byte, if any, is a stale byte that was drained
/// from the output buffer before the command was issued.
pub open spec fn responded(pre: Seq<u8>, post: Seq<u8>, value: u8) -> bool {
    &&& pre.len() + 1 == post.len() || pre.len() + 2 == post.len()
    &&& post.subrange(0, pre.len() as int) == pre
    &&& post.len() >= 1 && post.last() == value
}

/// `post` extends `pre` with two command responses in order: first `v1`,
/// then `v2`, each preceded by at most one discarded stale byte.
pub open spec fn responded_twice(pre: Seq<u8>, post: Seq<u8>, v1: u8, v2: u8) -> bool {
    exists|mid: Seq<u8>| #[trigger] responded(pre, mid, v1) && responded(mid, post, v2)
}

/// The data reads of a run of consecutive command responses: `marks[k]`
/// is the data read trace after the first `k` responses, and each response
/// leaves `values[k]` behind it, preceded by at most one discarded stale
/// byte.
pub open spec fn response_chain(marks: Seq<Seq<u8>>, values: Seq<u8>, n: int) -> bool {
    &&& marks.len() == n + 1
    &&& forall|k: int| 0 <= k < n ==> #[trigger] responded(marks[k], marks[k + 1], values[k])
}

/// `post` extends `pre` with the command responses `values`, in order,
/// each preceded by at most one discarded stale byte.
pub open spec fn responded_seq(pre: Seq<u8>, post: Seq<u8>, values: Seq<u8>) -> bool {
    exists|marks: Seq<Seq<u8>>|
        #[trigger] response_chain(marks, values, values.len() as int) && marks[0] == pre && marks[
            values.len() as int
        ] == post
}

/// A single response is a one-element response sequence.
pub proof fn lemma_responded_seq_one(pre: Seq<u8>, post: Seq<u8>, value: u8)
    requires
        responded(pre, post, value),
    ensures
        responded_seq(pre, post, seq![value]),
{
    let marks = seq![pre, post];
    assert(response_chain(marks, seq![value], 1)) by {
        assert(forall|k: int|
            0 <= k < 1 ==> #[trigger] responded(marks[k], marks[k + 1], seq![value][k]));
    }
    assert(seq![value].len() == 1);
    assert(response_chain(marks, seq![value], seq![value].len() as int));
    assert(marks[0] == pre && marks[seq![value].len() as int] == post);
}

/// One more response extends a response sequence at its end.
pub proof fn lemma_responded_seq_push(
    pre: Seq<u8>,
    mid: Seq<u8>,
    post: Seq<u8>,
    values: Seq<u8>,
    value: u8,
)
    requires
        responded_seq(pre, mid, values),
        responded(mid, post, value),
    ensures
        responded_seq(pre, post, values.push(value)),
{
    let n = values.len() as int;
    let marks = choose|marks: Seq<Seq<u8>>|
        #[trigger] response_chain(marks, values, n) && marks[0] == pre && marks[n] == mid;
    let grown = marks.push(post);
    assert forall|k: int| 0 <= k < n + 1 implies #[trigger] responded(
        grown[k],
        grown[k + 1],
        values.push(value)[k],
    ) by {
        if k < n {
            assert(grown[k] == marks[k]);
            assert(grown[k + 1] == marks[k + 1]);
            assert(values.push(value)[k] == values[k]);
            assert(responded(marks[k], marks[k + 1], values[k]));
        } else {
            assert(grown[k] == marks[n]);
            assert(grown[k + 1] == post);
        }
    }
    assert(response_chain(grown, values.push(value), n + 1));
    assert(values.push(value).len() == n + 1);
    assert(response_chain(grown, values.push(value), values.push(value).len() as int));
    assert(grown[0] == pre);
    assert(grown[values.push(value).len() as int] == post);
}

/// Single byte port access, supplied by the host environment: actual x86
/// port instructions in a kernel, or a scripted double in tests.  The ghost
/// trace records every access; implementations outside this crate are not
/// verified against it.
pub trait PortIO: Sized {
    /// The trace of port operations performed so far.
    spec fn log(&self) -> Seq<PortOp>;

    /// Reads one byte from `port`.  Reading may change controller state.
    fn read(&mut self, port: u16) -> (r: u8)
        ensures
            final(self).log() == old(self).log().push(PortOp::Read { port, value: r }),
    ;

    /// Writes one byte to `port`.
    fn write(&mut self, port: u16, data: u8)
        ensures
            final(self).log() == old(self).log().push(PortOp::Write { port, value: data }),
    ;
}

/// A scripted port: the test double named by the [`PortIO`] documentation.
///
/// Reads of the status and data ports consume pre-arranged byte scripts, a
/// script position past its end reads as zero, and every operation is
/// recorded.  The recorded writes are proved equal to the writes of the
/// ghost trace, so a check against them exercises exactly what the driver
/// contracts say about the trace.
pub struct ScriptedPort {
    status_values: Vec<u8>,
    status_pos: usize,
    data_values: Vec<u8>,
    data_pos: usize,
    ops: Vec<PortOp>,
}

impl ScriptedPort {
    /// A port that will answer status reads and data reads from the two
    /// scripts, in order.
    pub fn new(status_values: Vec<u8>, data_values: Vec<u8>) -> (r: ScriptedPort)
        ensures
            r.log() == Seq::<PortOp>::empty(),
    {
        ScriptedPort { status_values, status_pos: 0, data_values, data_pos: 0, ops: Vec::new() }
    }

    /// The writes performed so far, oldest first.
    pub fn writes(&self) -> (r: Vec<(u16, u8)>)
        ensures
            r@ == writes_of(self.log()),
    {
        let mut r: Vec<(u16, u8)> = Vec::new();
        let mut i: usize = 0;
        proof {
            assert(self.ops@.take(0) =~= Seq::<PortOp>::empty());
        }
        while i < self.ops.len()
            invariant
                i <= self.ops@.len(),
                r@ == writes_of(self.ops@.take(i as int)),
            decreases self.ops@.len() - i,
        {
            proof {
                assert(self.ops@.take(i as int + 1).drop_last() =~= self.ops@.take(i as int));
                assert(self.ops@.take(i as int + 1).last() == self.ops@[i as int]);
            }
            match self.ops[i] {
                PortOp::Write { port, value } => r.push((port, value)),
                PortOp::Read { .. } => (),
            }
            i = i + 1;
        }
        proof {
            assert(self.ops@.take(self.ops@.len() as int) =~= self.ops@);
        }
        r
    }

    /// The values read from the data port so far, oldest first.
    pub fn data_reads(&self) -> (r: Vec<u8>)
        ensures
            r@ == data_reads_of(self.log()),
    {
        let mut r: Vec<u8> = Vec::new();
        let mut i: usize = 0;
        proof {
            assert(self.ops@.take(0) =~= Seq::<PortOp>::empty());
        }
        while i < self.ops.len()
            invariant
                i <= self.ops@.len(),
                r@ == data_reads_of(self.ops@.take(i as int)),
            decreases self.ops@.len() - i,
        {
            proof {
                assert(self.ops@.take(i as int + 1).drop_last() =~= self.ops@.take(i as int));
                assert(self.ops@.take(i as int + 1).last() == self.ops@[i as int]);
            }
            match self.ops[i] {
                PortOp::Read { port, value } => {
                    if port == DATA_PORT_RAW {
                        r.push(value);
                    }
                },
                PortOp::Write { .. } => (),
            }
            i = i + 1;
        }
        proof {
            assert(self.ops@.take(self.ops@.len() as int) =~= self.ops@);
        }
        r
    }
}

impl PortIO for ScriptedPort {
    closed spec fn log(&self) -> Seq<PortOp> {
        self.ops@
    }

    fn read(&mut self, port: u16) -> (r: u8) {
        let value: u8;
        if port == STATUS_REGISTER_RAW {
            if self.status_pos < self.status_values.len() {
                value = self.status_values[self.status_pos];
                self.status_pos = self.status_pos + 1;
            } else {
                value = 0;
            }
        } else if port == DATA_PORT_RAW {
            if self.data_pos < self.data_values.len() {
                value = self.data_values[self.data_pos];
                self.data_pos = self.data_pos + 1;
            } else {
                value = 0;
            }
        } else {
            value = 0;
        }
        self.ops.push(PortOp::Read { port, value });
        value
    }

    fn write(&mut self, port: u16, data: u8) {
        self.ops.push(PortOp::Write { port, value: data });
    }
}

} // verus!
