//! The serial command console of the LED board: received bytes are echoed,
//! collected into a command line that a carriage return ends, and answered
//! through a bounded transmit queue; and the echo-and-timer board that
//! only queues what it receives and a periodic message.

use vstd::prelude::*;

verus! {

/// How many bytes the transmit queue holds.
pub const TX_BUFFER_CAPACITY: usize = 32;

/// How many bytes a command line holds.
pub const CMD_BUFFER_CAPACITY: usize = 32;

/// A queue of bytes waiting to be sent, of fixed capacity, kept in a
/// `heapless::Deque`.
#[verifier::external_body]
pub struct TxQueue {
    inner: heapless::Deque<u8, 32>,
}

/// The bytes held by a transmit queue, oldest first.
pub uninterp spec fn tx_queue_contents(q: TxQueue) -> Seq<u8>;

impl TxQueue {
    /// An empty queue, made by `heapless::Deque::new`.
    #[verifier::external_body]
    pub(crate) fn new() -> (r: Self)
        ensures
            tx_queue_contents(r) == Seq::<u8>::empty(),
    {
        TxQueue { inner: heapless::Deque::new() }
    }

    /// `heapless::Deque::push_back`: appends `byte` unless the queue already
    /// holds its capacity of 32 bytes, in which case the queue is unchanged
    /// and the byte is handed back.
    #[verifier::external_body]
    pub(crate) fn push_back(queue: &mut TxQueue, byte: u8) -> (r: Result<(), u8>)
        ensures
            r == (if tx_queue_contents(*old(queue)).len() < 32 {
                Ok::<(), u8>(())
            } else {
                Err::<(), u8>(byte)
            }),
            tx_queue_contents(*final(queue)) == (if tx_queue_contents(*old(queue)).len() < 32 {
                tx_queue_contents(*old(queue)).push(byte)
            } else {
                tx_queue_contents(*old(queue))
            }),
    {
        queue.inner.push_back(byte)
    }

    /// `heapless::Deque::pop_front`: removes and returns the oldest byte, or
    /// returns `None` and leaves the queue unchanged when it is empty.
    #[verifier::external_body]
    pub(crate) fn pop_front(queue: &mut TxQueue) -> (r: Option<u8>)
        ensures
            r == (if tx_queue_contents(*old(queue)).len() == 0 {
                None
            } else {
                Some(tx_queue_contents(*old(queue))[0])
            }),
            tx_queue_contents(*final(queue)) == (if tx_queue_contents(*old(queue)).len() == 0 {
                tx_queue_contents(*old(queue))
            } else {
                tx_queue_contents(*old(queue)).drop_first()
            }),
    {
        queue.inner.pop_front()
    }
}

/// The queue after offering it `bytes` one by one: each byte is appended
/// while there is room and dropped once the queue is full.
pub open spec fn enqueue(q: Seq<u8>, bytes: Seq<u8>) -> Seq<u8> {
    let room: int = if q.len() >= TX_BUFFER_CAPACITY {
        0
    } else {
        TX_BUFFER_CAPACITY - q.len()
    };
    if bytes.len() <= room {
        q + bytes
    } else {
        q + bytes.take(room)
    }
}

proof fn lemma_enqueue_step(q: Seq<u8>, bytes: Seq<u8>, i: int)
    requires
        q.len() <= TX_BUFFER_CAPACITY,
        0 <= i < bytes.len(),
    ensures
        enqueue(q, bytes.take(i + 1)) == (if enqueue(q, bytes.take(i)).len() < TX_BUFFER_CAPACITY {
            enqueue(q, bytes.take(i)).push(bytes[i])
        } else {
            enqueue(q, bytes.take(i))
        }),
        enqueue(q, bytes.take(i)).len() <= TX_BUFFER_CAPACITY,
{
    let room: int = TX_BUFFER_CAPACITY - q.len();
    if i < room {
        assert(enqueue(q, bytes.take(i + 1)) =~= enqueue(q, bytes.take(i)).push(bytes[i]));
    } else {
        assert(bytes.take(i + 1).take(room) =~= bytes.take(i).take(room));
    }
}

/// Offering two byte sequences in turn is offering their concatenation.
pub proof fn lemma_enqueue_concat(q: Seq<u8>, a: Seq<u8>, b: Seq<u8>)
    requires
        q.len() <= TX_BUFFER_CAPACITY,
    ensures
        enqueue(enqueue(q, a), b) == enqueue(q, a + b),
        enqueue(q, a).len() <= TX_BUFFER_CAPACITY,
{
    let room: int = TX_BUFFER_CAPACITY - q.len();
    if a.len() <= room {
        if b.len() <= room - a.len() {
            assert(enqueue(enqueue(q, a), b) =~= enqueue(q, a + b));
        } else {
            assert((a + b).take(room) =~= a + b.take(room - a.len()));
            assert(enqueue(enqueue(q, a), b) =~= enqueue(q, a + b));
        }
    } else {
        assert((a + b).take(room) =~= a.take(room));
        assert(enqueue(enqueue(q, a), b) =~= enqueue(q, a + b));
    }
}

/// Offers the first `len` of `bytes` to the queue, one by one; bytes that
/// find it full are dropped.
fn queue_bytes(queue: &mut TxQueue, bytes: &[u8], len: usize)
    requires
        tx_queue_contents(*old(queue)).len() <= TX_BUFFER_CAPACITY,
        len <= bytes@.len(),
    ensures
        tx_queue_contents(*final(queue)) == enqueue(
            tx_queue_contents(*old(queue)),
            bytes@.take(len as int),
        ),
        tx_queue_contents(*final(queue)).len() <= TX_BUFFER_CAPACITY,
{
    let ghost q0 = tx_queue_contents(*queue);
    let ghost b = bytes@.take(len as int);
    for i in 0..len
        invariant
            q0 == tx_queue_contents(*old(queue)),
            q0.len() <= TX_BUFFER_CAPACITY,
            len <= bytes@.len(),
            b == bytes@.take(len as int),
            tx_queue_contents(*queue) == enqueue(q0, b.take(i as int)),
    {
        proof {
            lemma_enqueue_step(q0, b, i as int);
        }
        let _ = TxQueue::push_back(queue, bytes[i]);
    }
    proof {
        assert(b.take(len as int) =~= b);
        if len > 0 {
            lemma_enqueue_step(q0, b, (len - 1) as int);
        } else {
            assert(enqueue(q0, b) =~= q0);
        }
    }
}

/// The bytes of a line break (carriage return, line feed).
pub open spec fn crlf() -> Seq<u8> {
    seq![13u8, 10u8]
}

fn crlf_bytes() -> (r: [u8; 2])
    ensures
        r@ == crlf(),
{
    let r = [13u8, 10u8];
    assert(r@ =~= crlf());
    r
}

/// The bytes of `Error: command too long` and a line break.
pub open spec fn too_long_reply() -> Seq<u8> {
    seq![69u8, 114u8, 114u8, 111u8, 114u8, 58u8, 32u8, 99u8, 111u8, 109u8, 109u8, 97u8, 110u8, 100u8, 32u8, 116u8, 111u8, 111u8, 32u8, 108u8, 111u8, 110u8, 103u8, 13u8, 10u8]
}

fn too_long_reply_bytes() -> (r: [u8; 25])
    ensures
        r@ == too_long_reply(),
{
    let r = [69u8, 114u8, 114u8, 111u8, 114u8, 58u8, 32u8, 99u8, 111u8, 109u8, 109u8, 97u8, 110u8, 100u8, 32u8, 116u8, 111u8, 111u8, 32u8, 108u8, 111u8, 110u8, 103u8, 13u8, 10u8];
    assert(r@ =~= too_long_reply());
    r
}

/// The bytes of `CMD: LED ON RCVD` and a line break.
pub open spec fn led_on_reply() -> Seq<u8> {
    seq![67u8, 77u8, 68u8, 58u8, 32u8, 76u8, 69u8, 68u8, 32u8, 79u8, 78u8, 32u8, 82u8, 67u8, 86u8, 68u8, 13u8, 10u8]
}

fn led_on_reply_bytes() -> (r: [u8; 18])
    ensures
        r@ == led_on_reply(),
{
    let r = [67u8, 77u8, 68u8, 58u8, 32u8, 76u8, 69u8, 68u8, 32u8, 79u8, 78u8, 32u8, 82u8, 67u8, 86u8, 68u8, 13u8, 10u8];
    assert(r@ =~= led_on_reply());
    r
}

/// The bytes of `CMD: LED OFF RCVD` and a line break.
pub open spec fn led_off_reply() -> Seq<u8> {
    seq![67u8, 77u8, 68u8, 58u8, 32u8, 76u8, 69u8, 68u8, 32u8, 79u8, 70u8, 70u8, 32u8, 82u8, 67u8, 86u8, 68u8, 13u8, 10u8]
}

fn led_off_reply_bytes() -> (r: [u8; 19])
    ensures
        r@ == led_off_reply(),
{
    let r = [67u8, 77u8, 68u8, 58u8, 32u8, 76u8, 69u8, 68u8, 32u8, 79u8, 70u8, 70u8, 32u8, 82u8, 67u8, 86u8, 68u8, 13u8, 10u8];
    assert(r@ =~= led_off_reply());
    r
}

/// The bytes of `CMD: LED TOGGLE RCVD` and a line break.
pub open spec fn led_toggle_reply() -> Seq<u8> {
    seq![67u8, 77u8, 68u8, 58u8, 32u8, 76u8, 69u8, 68u8, 32u8, 84u8, 79u8, 71u8, 71u8, 76u8, 69u8, 32u8, 82u8, 67u8, 86u8, 68u8, 13u8, 10u8]
}

fn led_toggle_reply_bytes() -> (r: [u8; 22])
    ensures
        r@ == led_toggle_reply(),
{
    let r = [67u8, 77u8, 68u8, 58u8, 32u8, 76u8, 69u8, 68u8, 32u8, 84u8, 79u8, 71u8, 71u8, 76u8, 69u8, 32u8, 82u8, 67u8, 86u8, 68u8, 13u8, 10u8];
    assert(r@ =~= led_toggle_reply());
    r
}

/// The bytes of `CMD: LED STATE: LED is `.
pub open spec fn led_state_prefix() -> Seq<u8> {
    seq![67u8, 77u8, 68u8, 58u8, 32u8, 76u8, 69u8, 68u8, 32u8, 83u8, 84u8, 65u8, 84u8, 69u8, 58u8, 32u8, 76u8, 69u8, 68u8, 32u8, 105u8, 115u8, 32u8]
}

fn led_state_prefix_bytes() -> (r: [u8; 23])
    ensures
        r@ == led_state_prefix(),
{
    let r = [67u8, 77u8, 68u8, 58u8, 32u8, 76u8, 69u8, 68u8, 32u8, 83u8, 84u8, 65u8, 84u8, 69u8, 58u8, 32u8, 76u8, 69u8, 68u8, 32u8, 105u8, 115u8, 32u8];
    assert(r@ =~= led_state_prefix());
    r
}

/// The bytes of `ON`.
pub open spec fn on_text() -> Seq<u8> {
    seq![79u8, 78u8]
}

fn on_text_bytes() -> (r: [u8; 2])
    ensures
        r@ == on_text(),
{
    let r = [79u8, 78u8];
    assert(r@ =~= on_text());
    r
}

/// The bytes of `OFF`.
pub open spec fn off_text() -> Seq<u8> {
    seq![79u8, 70u8, 70u8]
}

fn off_text_bytes() -> (r: [u8; 3])
    ensures
        r@ == off_text(),
{
    let r = [79u8, 70u8, 70u8];
    assert(r@ =~= off_text());
    r
}

/// The bytes of `Unknown Command: `.
pub open spec fn unknown_prefix() -> Seq<u8> {
    seq![85u8, 110u8, 107u8, 110u8, 111u8, 119u8, 110u8, 32u8, 67u8, 111u8, 109u8, 109u8, 97u8, 110u8, 100u8, 58u8, 32u8]
}

fn unknown_prefix_bytes() -> (r: [u8; 17])
    ensures
        r@ == unknown_prefix(),
{
    let r = [85u8, 110u8, 107u8, 110u8, 111u8, 119u8, 110u8, 32u8, 67u8, 111u8, 109u8, 109u8, 97u8, 110u8, 100u8, 58u8, 32u8];
    assert(r@ =~= unknown_prefix());
    r
}

/// The bytes of a line break, `Timer!` and a line break.
pub open spec fn timer_message() -> Seq<u8> {
    seq![13u8, 10u8, 84u8, 105u8, 109u8, 101u8, 114u8, 33u8, 13u8, 10u8]
}

fn timer_message_bytes() -> (r: [u8; 10])
    ensures
        r@ == timer_message(),
{
    let r = [13u8, 10u8, 84u8, 105u8, 109u8, 101u8, 114u8, 33u8, 13u8, 10u8];
    assert(r@ =~= timer_message());
    r
}

/// The bytes of the command `on`.
pub open spec fn cmd_on() -> Seq<u8> {
    seq![111u8, 110u8]
}

fn cmd_on_bytes() -> (r: [u8; 2])
    ensures
        r@ == cmd_on(),
{
    let r = [111u8, 110u8];
    assert(r@ =~= cmd_on());
    r
}

/// The bytes of the command `off`.
pub open spec fn cmd_off() -> Seq<u8> {
    seq![111u8, 102u8, 102u8]
}

fn cmd_off_bytes() -> (r: [u8; 3])
    ensures
        r@ == cmd_off(),
{
    let r = [111u8, 102u8, 102u8];
    assert(r@ =~= cmd_off());
    r
}

/// The bytes of the command `toggle`.
pub open spec fn cmd_toggle() -> Seq<u8> {
    seq![116u8, 111u8, 103u8, 103u8, 108u8, 101u8]
}

fn cmd_toggle_bytes() -> (r: [u8; 6])
    ensures
        r@ == cmd_toggle(),
{
    let r = [116u8, 111u8, 103u8, 103u8, 108u8, 101u8];
    assert(r@ =~= cmd_toggle());
    r
}

/// The bytes of the command `status`.
pub open spec fn cmd_status() -> Seq<u8> {
    seq![115u8, 116u8, 97u8, 116u8, 117u8, 115u8]
}

fn cmd_status_bytes() -> (r: [u8; 6])
    ensures
        r@ == cmd_status(),
{
    let r = [115u8, 116u8, 97u8, 116u8, 117u8, 115u8];
    assert(r@ =~= cmd_status());
    r
}

/// What the board does with its LED after a command line.
#[derive(Debug, Clone, Copy, PartialEq, Eq, Structural)]
pub enum LedAction {
    Keep,
    On,
    Off,
    Toggle,
}

/// The answer to a complete command line that fitted the buffer.
pub open spec fn command_reply(line: Seq<u8>, led_is_on: bool) -> Seq<u8> {
    if line == cmd_on() {
        led_on_reply()
    } else if line == cmd_off() {
        led_off_reply()
    } else if line == cmd_toggle() {
        led_toggle_reply()
    } else if line == cmd_status() {
        led_state_prefix() + (if led_is_on {
            on_text()
        } else {
            off_text()
        }) + crlf()
    } else {
        unknown_prefix() + line + crlf()
    }
}

/// Everything queued when a command line ends: a line break, then either
/// the too-long error or the answer to the command.
pub open spec fn line_reply(line: Seq<u8>, overflow: bool, led_is_on: bool) -> Seq<u8> {
    crlf() + if overflow {
        too_long_reply()
    } else {
        command_reply(line, led_is_on)
    }
}

/// What a completed command line does to the LED.
pub open spec fn line_action(line: Seq<u8>, overflow: bool) -> LedAction {
    if overflow {
        LedAction::Keep
    } else if line == cmd_on() {
        LedAction::On
    } else if line == cmd_off() {
        LedAction::Off
    } else if line == cmd_toggle() {
        LedAction::Toggle
    } else {
        LedAction::Keep
    }
}

/// The command console: the command line being typed and the bytes waiting
/// to be sent.
pub struct CommandConsole {
    cmd_buffer: [u8; 32],
    cmd_buffer_count: usize,
    cmd_buffer_overflow: bool,
    tx_buffer: TxQueue,
}

impl CommandConsole {
    /// The command line fits its buffer and the queue holds at most its capacity.
    pub closed spec fn wf(self) -> bool {
        &&& self.cmd_buffer_count <= CMD_BUFFER_CAPACITY
        &&& tx_queue_contents(self.tx_buffer).len() <= TX_BUFFER_CAPACITY
    }

    /// The bytes of the command line typed so far (those that fitted).
    pub closed spec fn line(self) -> Seq<u8> {
        self.cmd_buffer@.take(self.cmd_buffer_count as int)
    }

    /// Whether the command line has overflowed its buffer.
    pub closed spec fn overflowed(self) -> bool {
        self.cmd_buffer_overflow
    }

    /// The bytes waiting to be sent, oldest first.
    pub closed spec fn pending_tx(self) -> Seq<u8> {
        tx_queue_contents(self.tx_buffer)
    }

    /// A well-formed console holds at most 32 bytes waiting to be sent and a
    /// command line of at most 32 bytes.
    pub proof fn lemma_wf_bounds(self)
        requires
            self.wf(),
        ensures
            self.pending_tx().len() <= TX_BUFFER_CAPACITY,
            self.line().len() <= CMD_BUFFER_CAPACITY,
    {
    }

    /// A console with an empty command line and nothing to send.
    pub fn new() -> (r: Self)
        ensures
            r.wf(),
            r.line() == Seq::<u8>::empty(),
            !r.overflowed(),
            r.pending_tx() == Seq::<u8>::empty(),
    {
        let r = CommandConsole {
            cmd_buffer: [0u8; 32],
            cmd_buffer_count: 0,
            cmd_buffer_overflow: false,
            tx_buffer: TxQueue::new(),
        };
        assert(r.line() =~= Seq::<u8>::empty());
        r
    }

    /// Queues a received byte to be sent back; it is dropped when the queue is full.
    pub fn echo_byte(&mut self, byte: u8)
        requires
            old(self).wf(),
        ensures
            final(self).wf(),
            final(self).pending_tx() == enqueue(old(self).pending_tx(), seq![byte]),
            final(self).line() == old(self).line(),
            final(self).overflowed() == old(self).overflowed(),
    {
        let _ = TxQueue::push_back(&mut self.tx_buffer, byte);
        assert(enqueue(old(self).pending_tx(), seq![byte]) =~= (if old(self).pending_tx().len() < 32 {
            old(self).pending_tx().push(byte)
        } else {
            old(self).pending_tx()
        }));
    }

    /// Queues `bytes` to be sent; bytes that find the queue full are dropped.
    pub fn buffer_tx_bytes(&mut self, bytes: &[u8])
        requires
            old(self).wf(),
        ensures
            final(self).wf(),
            final(self).pending_tx() == enqueue(old(self).pending_tx(), bytes@),
            final(self).line() == old(self).line(),
            final(self).overflowed() == old(self).overflowed(),
    {
        queue_bytes(&mut self.tx_buffer, bytes, bytes.len());
        assert(bytes@.take(bytes@.len() as int) =~= bytes@);
    }

    /// Takes the next byte to send, if any.
    pub fn next_tx_byte(&mut self) -> (r: Option<u8>)
        requires
            old(self).wf(),
        ensures
            final(self).wf(),
            old(self).pending_tx().len() == 0 ==> r is None && final(self).pending_tx() == old(
                self,
            ).pending_tx(),
            old(self).pending_tx().len() > 0 ==> r == Some(old(self).pending_tx()[0])
                && final(self).pending_tx() == old(self).pending_tx().drop_first(),
            final(self).line() == old(self).line(),
            final(self).overflowed() == old(self).overflowed(),
    {
        TxQueue::pop_front(&mut self.tx_buffer)
    }

    fn line_is(&self, cmd: &[u8]) -> (r: bool)
        requires
            self.wf(),
        ensures
            r == (self.line() == cmd@),
    {
        if self.cmd_buffer_count != cmd.len() {
            assert(self.line().len() != cmd@.len());
            return false;
        }
        for i in 0..cmd.len()
            invariant
                self.cmd_buffer_count == cmd@.len(),
                self.cmd_buffer_count <= 32,
                forall|j: int| 0 <= j < i ==> self.cmd_buffer@[j] == cmd@[j],
        {
            if self.cmd_buffer[i] != cmd[i] {
                assert(self.line()[i as int] != cmd@[i as int]);
                return false;
            }
        }
        assert(self.line() =~= cmd@);
        true
    }

    /// Handles one received byte. A carriage return ends the command line:
    /// a line break is queued, then the error for a line that was too long
    /// or the answer to the command (`on`, `off`, `toggle`, `status`, or the
    /// unknown-command message with the line), the returned action tells
    /// what to do with the LED, and the line starts over. `led_is_on` is the
    /// LED state reported by `status`. Any other byte is added to the line
    /// while it fits and marks the line as too long otherwise.
    pub fn handle_cmd_byte(&mut self, byte: u8, led_is_on: bool) -> (r: LedAction)
        requires
            old(self).wf(),
        ensures
            final(self).wf(),
            byte == 13 ==> {
                &&& final(self).pending_tx() == enqueue(
                    old(self).pending_tx(),
                    line_reply(old(self).line(), old(self).overflowed(), led_is_on),
                )
                &&& r == line_action(old(self).line(), old(self).overflowed())
                &&& final(self).line() == Seq::<u8>::empty()
                &&& !final(self).overflowed()
            },
            byte != 13 ==> {
                &&& final(self).pending_tx() == old(self).pending_tx()
                &&& r == LedAction::Keep
                &&& old(self).line().len() < CMD_BUFFER_CAPACITY ==> final(self).line() == old(
                    self,
                ).line().push(byte) && final(self).overflowed() == old(self).overflowed()
                &&& old(self).line().len() >= CMD_BUFFER_CAPACITY ==> final(self).line() == old(
                    self,
                ).line() && final(self).overflowed()
            },
    {
        let ghost q0 = self.pending_tx();
        let ghost line0 = self.line();
        let ghost over0 = self.overflowed();
        if byte == 13 {
            self.buffer_tx_bytes(&crlf_bytes());
            let mut action = LedAction::Keep;
            let ghost reply: Seq<u8>;
            if self.cmd_buffer_overflow {
                self.buffer_tx_bytes(&too_long_reply_bytes());
                proof {
                    reply = too_long_reply();
                }
            } else if self.line_is(&cmd_on_bytes()) {
                action = LedAction::On;
                self.buffer_tx_bytes(&led_on_reply_bytes());
                proof {
                    reply = led_on_reply();
                }
            } else if self.line_is(&cmd_off_bytes()) {
                action = LedAction::Off;
                self.buffer_tx_bytes(&led_off_reply_bytes());
                proof {
                    reply = led_off_reply();
                }
            } else if self.line_is(&cmd_toggle_bytes()) {
                action = LedAction::Toggle;
                self.buffer_tx_bytes(&led_toggle_reply_bytes());
                proof {
                    reply = led_toggle_reply();
                }
            } else if self.line_is(&cmd_status_bytes()) {
                self.buffer_tx_bytes(&led_state_prefix_bytes());
                let ghost q1 = self.pending_tx();
                if led_is_on {
                    self.buffer_tx_bytes(&on_text_bytes());
                } else {
                    self.buffer_tx_bytes(&off_text_bytes());
                }
                let ghost q2 = self.pending_tx();
                self.buffer_tx_bytes(&crlf_bytes());
                proof {
                    let state = if led_is_on { on_text() } else { off_text() };
                    reply = led_state_prefix() + state + crlf();
                    lemma_enqueue_concat(enqueue(q0, crlf()), led_state_prefix(), state);
                    lemma_enqueue_concat(enqueue(q0, crlf()), led_state_prefix() + state, crlf());
                }
            } else {
                self.buffer_tx_bytes(&unknown_prefix_bytes());
                let count = self.cmd_buffer_count;
                let buf = self.cmd_buffer;
                queue_bytes(&mut self.tx_buffer, &buf, count);
                self.buffer_tx_bytes(&crlf_bytes());
                proof {
                    reply = unknown_prefix() + line0 + crlf();
                    lemma_enqueue_concat(enqueue(q0, crlf()), unknown_prefix(), line0);
                    lemma_enqueue_concat(enqueue(q0, crlf()), unknown_prefix() + line0, crlf());
                }
            }
            proof {
                lemma_enqueue_concat(q0, crlf(), reply);
                assert(reply == (if over0 { too_long_reply() } else { command_reply(line0, led_is_on) }));
            }
            self.cmd_buffer_count = 0;
            self.cmd_buffer_overflow = false;
            assert(self.line() =~= Seq::<u8>::empty());
            return action;
        }
        if self.cmd_buffer_count < CMD_BUFFER_CAPACITY {
            let count = self.cmd_buffer_count;
            self.cmd_buffer[count] = byte;
            self.cmd_buffer_count = count + 1;
            assert(self.line() =~= line0.push(byte));
        } else {
            self.cmd_buffer_overflow = true;
        }
        LedAction::Keep
    }
}

/// The echo board's transmit buffer: received bytes and a periodic timer
/// message wait here until the transmitter takes them.
pub struct EchoBuffer {
    buffer: TxQueue,
}

impl EchoBuffer {
    /// The buffer holds at most its capacity.
    pub closed spec fn wf(self) -> bool {
        tx_queue_contents(self.buffer).len() <= TX_BUFFER_CAPACITY
    }

    /// The bytes waiting to be sent, oldest first.
    pub closed spec fn pending_tx(self) -> Seq<u8> {
        tx_queue_contents(self.buffer)
    }

    /// A well-formed buffer holds at most 32 bytes waiting to be sent.
    pub proof fn lemma_wf_bounds(self)
        requires
            self.wf(),
        ensures
            self.pending_tx().len() <= TX_BUFFER_CAPACITY,
    {
    }

    /// An empty buffer.
    pub fn new() -> (r: Self)
        ensures
            r.wf(),
            r.pending_tx() == Seq::<u8>::empty(),
    {
        EchoBuffer { buffer: TxQueue::new() }
    }

    /// The timer fired: queue the timer message (as far as it fits).
    pub fn timer_tick(&mut self)
        requires
            old(self).wf(),
        ensures
            final(self).wf(),
            final(self).pending_tx() == enqueue(old(self).pending_tx(), timer_message()),
    {
        let msg = timer_message_bytes();
        queue_bytes(&mut self.buffer, &msg, 10);
        assert(msg@.take(10) =~= msg@);
    }

    /// A byte arrived: queue it to be echoed (dropped when the buffer is full).
    pub fn received(&mut self, byte: u8)
        requires
            old(self).wf(),
        ensures
            final(self).wf(),
            final(self).pending_tx() == enqueue(old(self).pending_tx(), seq![byte]),
    {
        let b = [byte];
        queue_bytes(&mut self.buffer, &b, 1);
        assert(b@.take(1) =~= seq![byte]);
    }

    /// The transmitter is free: the next byte to send, or `None` when there
    /// is nothing left (and the transmitter can stop asking).
    pub fn next_tx_byte(&mut self) -> (r: Option<u8>)
        requires
            old(self).wf(),
        ensures
            final(self).wf(),
            r == (if old(self).pending_tx().len() == 0 {
                None
            } else {
                Some(old(self).pending_tx()[0])
            }),
            final(self).pending_tx() == (if old(self).pending_tx().len() == 0 {
                old(self).pending_tx()
            } else {
                old(self).pending_tx().drop_first()
            }),
    {
        TxQueue::pop_front(&mut self.buffer)
    }
}

} // verus!
