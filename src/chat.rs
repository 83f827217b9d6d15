//! The chat feed: messages handed over from the network task through a bounded
//! queue, drained without waiting into a buffer that keeps the latest ones.

use vstd::prelude::*;

use crate::config::Color;

use tokio::sync::mpsc::{Receiver, Sender};

verus! {

/// How many messages the queue between the network task and the display holds;
/// a producer facing a full queue waits.
pub const QUEUE_CAPACITY: usize = 100;

/// How many messages the buffer keeps at least, whatever the display's height.
pub const BUFFER_CAP: usize = 100;

/// The sending end of tokio's bounded queue, opaque here.
#[verifier::external_type_specification]
#[verifier::external_body]
#[verifier::reject_recursive_types(T)]
pub struct ExSender<T>(tokio::sync::mpsc::Sender<T>);

/// The receiving end of tokio's bounded queue, opaque here.
#[verifier::external_type_specification]
#[verifier::external_body]
#[verifier::reject_recursive_types(T)]
pub struct ExReceiver<T>(tokio::sync::mpsc::Receiver<T>);

/// The number of messages a queue was made to hold, seen from its receiving end.
pub uninterp spec fn queue_bound(rx: Receiver<TwitchMessage>) -> nat;

/// Relies on `tokio::sync::mpsc::channel`: a bounded queue of `bound` messages,
/// first in first out. It panics on a bound of zero and on one above the
/// semaphore's limit of `usize::MAX >> 3` permits; the bound here stays far
/// below that.
#[verifier::external_body]
fn bounded_queue(bound: usize) -> (r: (Sender<TwitchMessage>, Receiver<TwitchMessage>))
    requires
        0 < bound <= 0x1FFF_FFFF,
    ensures
        queue_bound(r.1) == bound,
{
    tokio::sync::mpsc::channel(bound)
}

/// Relies on `Sender::clone`: one more handle on the same queue.
#[verifier::external_body]
fn another_sender(tx: &Sender<TwitchMessage>) -> Sender<TwitchMessage> {
    tx.clone()
}

/// Relies on `Receiver::len`: how many messages are queued at the moment. The
/// network task may add more at any time, so nothing is said of the number.
#[verifier::external_body]
fn queued(rx: &Receiver<TwitchMessage>) -> usize {
    rx.len()
}

/// Relies on `Receiver::try_recv`: the oldest queued message, taken without
/// waiting; `None` when the queue is empty or closed. The queue's bound does
/// not change.
#[verifier::external_body]
fn take_queued(rx: &mut Receiver<TwitchMessage>) -> (r: Option<TwitchMessage>)
    ensures
        queue_bound(*final(rx)) == queue_bound(*old(rx)),
{
    rx.try_recv().ok()
}

/// A chat message: who sent it, in which color their name is shown, and its text.
#[derive(Clone, Debug)]
pub struct TwitchMessage {
    pub sender_color: Color,
    pub sender: String,
    pub message: String,
}

/// The color a sender's name is shown in when the feed gives none.
pub open spec fn default_name_color() -> Color {
    Color::Rgb(255, 255, 255)
}

impl TwitchMessage {
    pub fn new(sender_color: Color, sender: String, message: String) -> (r: TwitchMessage)
        ensures
            r.sender_color == sender_color,
            r.sender@ == sender@,
            r.message@ == message@,
    {
        TwitchMessage { sender_color, sender, message }
    }

    /// A message as the feed delivers it: the name color is optional and white
    /// when absent.
    pub fn from_feed(name_color: Option<(u8, u8, u8)>, sender: String, message: String) -> (r:
        TwitchMessage)
        ensures
            r.sender_color == (match name_color {
                Some((red, green, blue)) => Color::Rgb(red, green, blue),
                None => default_name_color(),
            }),
            r.sender@ == sender@,
            r.message@ == message@,
    {
        let color = match name_color {
            Some((red, green, blue)) => Color::Rgb(red, green, blue),
            None => Color::Rgb(255, 255, 255),
        };
        TwitchMessage::new(color, sender, message)
    }
}

/// The last `n` items of `s` in their order, or all of them when there are fewer.
pub open spec fn keep_last<T>(s: Seq<T>, n: nat) -> Seq<T> {
    if s.len() <= n {
        s
    } else {
        s.subrange(s.len() - n, s.len() as int)
    }
}

/// The buffer's contents after pushing the items of `ms` one at a time into a
/// buffer holding `start` that keeps at most `n`.
pub open spec fn pushed_one_by_one<T>(start: Seq<T>, ms: Seq<T>, n: nat) -> Seq<T>
    decreases ms.len(),
{
    if ms.len() == 0 {
        start
    } else {
        keep_last(pushed_one_by_one(start, ms.drop_last(), n).push(ms.last()), n)
    }
}

proof fn lemma_keep_last_push<T>(s: Seq<T>, m: T, n: nat)
    ensures
        keep_last(keep_last(s, n).push(m), n) == keep_last(s.push(m), n),
{
    assert(keep_last(keep_last(s, n).push(m), n) =~= keep_last(s.push(m), n));
}

/// A buffer that keeps at most `n` messages and receives them one at a time
/// holds, after any number of pushes, exactly the last `n` of everything it was
/// given, in arrival order.
pub proof fn lemma_pushes_keep_latest<T>(start: Seq<T>, ms: Seq<T>, n: nat)
    requires
        start.len() <= n,
    ensures
        pushed_one_by_one(start, ms, n) == keep_last(start + ms, n),
        pushed_one_by_one(start, ms, n).len() <= n,
    decreases ms.len(),
{
    if ms.len() == 0 {
        assert(start + ms =~= start);
    } else {
        lemma_pushes_keep_latest(start, ms.drop_last(), n);
        lemma_keep_last_push(start + ms.drop_last(), ms.last(), n);
        assert((start + ms.drop_last()).push(ms.last()) =~= start + ms);
    }
}

/// The messages kept for display, oldest first. It keeps at most the larger of
/// its configured cap and the tallest display area seen so far, evicting the
/// oldest first.
pub struct MessageBuffer {
    messages: Vec<TwitchMessage>,
    cap: usize,
    max_height: usize,
}

pub open spec fn max_usize(a: usize, b: usize) -> usize {
    if a >= b {
        a
    } else {
        b
    }
}

impl MessageBuffer {
    #[verifier::type_invariant]
    spec fn keeps_within_limit(&self) -> bool {
        self.messages@.len() <= max_usize(self.cap, self.max_height)
    }

    pub closed spec fn messages(&self) -> Seq<TwitchMessage> {
        self.messages@
    }

    pub closed spec fn cap(&self) -> usize {
        self.cap
    }

    pub closed spec fn max_height(&self) -> usize {
        self.max_height
    }

    /// How many messages the buffer keeps at most.
    pub open spec fn limit(&self) -> usize {
        max_usize(self.cap(), self.max_height())
    }

    /// An empty buffer that keeps at least `cap` messages.
    pub fn new(cap: usize) -> (r: MessageBuffer)
        ensures
            r.messages().len() == 0,
            r.cap() == cap,
            r.max_height() == 0,
    {
        MessageBuffer { messages: Vec::new(), cap, max_height: 0 }
    }

    /// Appends a message, evicting the oldest when the buffer is at its limit.
    pub fn push(&mut self, m: TwitchMessage)
        ensures
            final(self).messages() == keep_last(old(self).messages().push(m), old(self).limit() as nat),
            final(self).messages().len() <= final(self).limit(),
            final(self).cap() == old(self).cap(),
            final(self).max_height() == old(self).max_height(),
    {
        proof {
            use_type_invariant(&*self);
        }
        let limit = if self.cap >= self.max_height {
            self.cap
        } else {
            self.max_height
        };
        let ghost before = self.messages@;
        if limit == 0 {
            assert(keep_last(before.push(m), 0) =~= Seq::<TwitchMessage>::empty());
            return;
        }
        let mut list: Vec<TwitchMessage> = Vec::new();
        std::mem::swap(&mut self.messages, &mut list);
        if list.len() == limit {
            list.remove(0);
            assert(list@ =~= before.drop_first());
        }
        list.push(m);
        assert(list@ =~= keep_last(before.push(m), limit as nat));
        self.messages = list;
    }

    /// Appends messages in their order, as a sequence of `push` calls would:
    /// the buffer then holds the last `limit()` of its old contents followed by
    /// `ms`.
    pub fn push_all(&mut self, ms: Vec<TwitchMessage>)
        ensures
            final(self).messages() == keep_last(old(self).messages() + ms@, old(self).limit() as nat),
            final(self).messages().len() <= final(self).limit(),
            final(self).cap() == old(self).cap(),
            final(self).max_height() == old(self).max_height(),
    {
        proof {
            use_type_invariant(&*self);
        }
        let ghost start = self.messages();
        let ghost n = self.limit() as nat;
        let ghost all = ms@;
        let mut rest = ms;
        proof {
            assert(all.subrange(0, 0) =~= Seq::<TwitchMessage>::empty());
            assert(rest@ =~= all.subrange(0, all.len() as int));
        }
        while rest.len() > 0
            invariant
                rest@.len() <= all.len(),
                rest@ == all.subrange(all.len() - rest@.len(), all.len() as int),
                start == old(self).messages(),
                n == old(self).limit(),
                start.len() <= n,
                self.cap() == old(self).cap(),
                self.max_height() == old(self).max_height(),
                self.messages() == pushed_one_by_one(
                    start,
                    all.subrange(0, all.len() - rest@.len()),
                    n,
                ),
            decreases rest@.len(),
        {
            let ghost done = all.len() - rest@.len();
            let m = rest.remove(0);
            proof {
                assert(m == all[done]);
                assert(rest@ =~= all.subrange(done + 1, all.len() as int));
                assert(all.subrange(0, done + 1).drop_last() =~= all.subrange(0, done));
            }
            self.push(m);
        }
        proof {
            assert(all.subrange(0, all.len() as int) =~= all);
            lemma_pushes_keep_latest(start, all, n);
            use_type_invariant(&*self);
        }
    }

    /// Records the height of the display area. The largest height seen so far
    /// only grows, so the limit never shrinks and nothing is evicted.
    pub fn observe_height(&mut self, height: usize)
        ensures
            final(self).max_height() == max_usize(old(self).max_height(), height),
            final(self).cap() == old(self).cap(),
            final(self).messages() == old(self).messages(),
    {
        proof {
            use_type_invariant(&*self);
        }
        if height > self.max_height {
            self.max_height = height;
        }
    }

    /// The kept messages, oldest first.
    pub fn as_vec(&self) -> (r: &Vec<TwitchMessage>)
        ensures
            r@ == self.messages(),
    {
        &self.messages
    }

    pub fn len(&self) -> (r: usize)
        ensures
            r == self.messages().len(),
    {
        self.messages.len()
    }
}

/// The chat pane's state: its channel, accent color, kept messages, and the
/// receiving end of the queue that the network task fills.
pub struct TwitchChat {
    accent_color: Color,
    channel_name: String,
    buffer: MessageBuffer,
    tx: Sender<TwitchMessage>,
    rx: Receiver<TwitchMessage>,
}

impl TwitchChat {
    pub closed spec fn accent_color(&self) -> Color {
        self.accent_color
    }

    pub closed spec fn channel_name(&self) -> Seq<char> {
        self.channel_name@
    }

    pub closed spec fn buffer(&self) -> MessageBuffer {
        self.buffer
    }

    /// How many messages the queue from the network task holds before a
    /// producer has to wait.
    pub closed spec fn queue_capacity(&self) -> nat {
        queue_bound(self.rx)
    }

    /// A chat pane for `channel_name` with an empty buffer and an empty queue of
    /// `QUEUE_CAPACITY` messages.
    pub fn new(accent_color: Color, channel_name: String) -> (r: TwitchChat)
        ensures
            r.accent_color() == accent_color,
            r.channel_name() == channel_name@,
            r.buffer().messages().len() == 0,
            r.buffer().cap() == BUFFER_CAP,
            r.buffer().max_height() == 0,
            r.queue_capacity() == QUEUE_CAPACITY,
    {
        let (tx, rx) = bounded_queue(QUEUE_CAPACITY);
        TwitchChat { accent_color, channel_name, buffer: MessageBuffer::new(BUFFER_CAP), tx, rx }
    }

    /// A handle for the network task to queue messages with.
    pub fn sender(&self) -> Sender<TwitchMessage> {
        another_sender(&self.tx)
    }

    pub fn get_channel_name(&self) -> (r: String)
        ensures
            r@ == self.channel_name(),
    {
        self.channel_name.clone()
    }

    pub fn get_accent_color(&self) -> (r: Color)
        ensures
            r == self.accent_color(),
    {
        self.accent_color
    }

    /// Moves the messages queued at the time of the call into the buffer, in
    /// queue order, without waiting for more; returns how many it moved. When
    /// it moved none, nothing changed.
    pub fn poll_messages(&mut self) -> (moved: usize)
        ensures
            final(self).accent_color() == old(self).accent_color(),
            final(self).channel_name() == old(self).channel_name(),
            final(self).buffer().cap() == old(self).buffer().cap(),
            final(self).buffer().max_height() == old(self).buffer().max_height(),
            final(self).queue_capacity() == old(self).queue_capacity(),
            exists|received: Seq<TwitchMessage>|
                received.len() == moved && #[trigger] final(self).buffer().messages() == keep_last(
                    old(self).buffer().messages() + received,
                    old(self).buffer().limit() as nat,
                ),
            moved == 0 ==> final(self).buffer().messages() == old(self).buffer().messages(),
    {
        proof {
            use_type_invariant(&self.buffer);
        }
        let available = queued(&self.rx);
        let mut received: Vec<TwitchMessage> = Vec::new();
        while received.len() < available
            invariant
                received@.len() <= available,
                self.accent_color == old(self).accent_color(),
                self.channel_name@ == old(self).channel_name(),
                self.buffer == old(self).buffer(),
                queue_bound(self.rx) == old(self).queue_capacity(),
            decreases available - received@.len(),
        {
            match take_queued(&mut self.rx) {
                Some(m) => received.push(m),
                None => break,
            }
        }
        let moved = received.len();
        let ghost taken = received@;
        self.buffer.push_all(received);
        proof {
            if moved == 0 {
                assert(old(self).buffer().messages() + taken =~= old(self).buffer().messages());
            }
        }
        moved
    }

    /// Records the height of the chat's message area; the buffer's limit only
    /// grows (see `MessageBuffer::observe_height`).
    pub fn observe_height(&mut self, height: usize)
        ensures
            final(self).buffer().max_height() == max_usize(old(self).buffer().max_height(), height),
            final(self).buffer().cap() == old(self).buffer().cap(),
            final(self).buffer().messages() == old(self).buffer().messages(),
            final(self).accent_color() == old(self).accent_color(),
            final(self).channel_name() == old(self).channel_name(),
            final(self).queue_capacity() == old(self).queue_capacity(),
    {
        self.buffer.observe_height(height);
    }

    /// The kept messages, oldest first.
    pub fn messages(&self) -> (r: &Vec<TwitchMessage>)
        ensures
            r@ == self.buffer().messages(),
    {
        self.buffer.as_vec()
    }
}

/// The lines `textwrap::wrap` breaks a text into for a given width.
pub uninterp spec fn wrapped_of(text: Seq<char>, width: nat) -> Seq<Seq<char>>;

/// Relies on `textwrap::wrap`: the text broken into lines of at most `width`
/// columns where its words allow; the result depends on the text and the width
/// alone.
#[verifier::external_body]
fn wrap_text(text: &str, width: usize) -> (r: Vec<String>)
    ensures
        r.deep_view() == wrapped_of(text@, width as nat),
{
    textwrap::wrap(text, width).into_iter().map(|line| line.into_owned()).collect()
}

/// One wrapped line of a message, cut where the sender's name ends: the part
/// of the name on this line, whether the `": "` separator follows it here, and
/// the rest of the line's text.
#[derive(Clone, Debug)]
pub struct ChatLine {
    pub sender_part: String,
    pub separator: bool,
    pub rest: String,
}

/// The characters of `line` from `from` on; empty when `from` lies past its end.
pub open spec fn tail_from(line: Seq<char>, from: nat) -> Seq<char> {
    if from < line.len() {
        line.subrange(from as int, line.len() as int)
    } else {
        Seq::empty()
    }
}

pub open spec fn min_nat(a: nat, b: nat) -> nat {
    if a <= b {
        a
    } else {
        b
    }
}

/// How one wrapped line is cut when `left` characters of the name remain to be
/// shown: the name's part, whether the separator follows, the rest, and how
/// much of the name remains after the line.
pub open spec fn cut_line(line: Seq<char>, left: nat) -> (Seq<char>, bool, Seq<char>, nat) {
    if left > 0 {
        let take = min_nat(left, line.len());
        let remaining = (left - take) as nat;
        let separator = remaining == 0 && take < line.len();
        let from = if separator {
            take + 2
        } else {
            take
        };
        (line.subrange(0, take as int), separator, tail_from(line, from), remaining)
    } else {
        (Seq::empty(), false, line, 0)
    }
}

/// How much of the name remains to be shown before line `i`.
pub open spec fn name_left_before(lines: Seq<Seq<char>>, name_len: nat, i: nat) -> nat
    decreases i,
{
    if i == 0 {
        name_len
    } else {
        cut_line(lines[i - 1], name_left_before(lines, name_len, (i - 1) as nat)).3
    }
}

/// Whether `out` cuts each of `lines` as `cut_line` does, the name being
/// `name_len` characters long.
pub open spec fn lines_cut(lines: Seq<Seq<char>>, name_len: nat, out: Seq<ChatLine>) -> bool {
    &&& out.len() == lines.len()
    &&& forall|i: int|
        0 <= i < lines.len() ==> {
            let c = cut_line(lines[i], name_left_before(lines, name_len, i as nat));
            &&& (#[trigger] out[i]).sender_part@ == c.0
            &&& out[i].separator == c.1
            &&& out[i].rest@ == c.2
        }
}

/// The text of a message before wrapping: the sender, `": "`, the message.
pub open spec fn full_text(m: TwitchMessage) -> Seq<char> {
    m.sender@ + ": "@ + m.message@
}

/// Cuts the wrapped lines of a message whose sender's name is `name_len`
/// characters long, so the name can be colored apart from the text.
pub fn cut_lines(lines: &Vec<String>, name_len: usize) -> (r: Vec<ChatLine>)
    ensures
        lines_cut(lines.deep_view(), name_len as nat, r@),
{
    let ghost ls = lines.deep_view();
    let mut out: Vec<ChatLine> = Vec::new();
    let mut left: usize = name_len;
    let mut i: usize = 0;
    while i < lines.len()
        invariant
            ls == lines.deep_view(),
            i <= ls.len(),
            left as nat == name_left_before(ls, name_len as nat, i as nat),
            left <= name_len,
            lines_cut(ls.subrange(0, i as int), name_len as nat, out@),
            forall|k: nat| k <= i ==> name_left_before(ls.subrange(0, i as int), name_len as nat, k)
                == #[trigger] name_left_before(ls, name_len as nat, k),
        decreases ls.len() - i,
    {
        let line = lines[i].as_str();
        let len = line.unicode_len();
        assert(line@ == ls[i as int]);
        let piece = if left > 0 {
            let take = if left <= len {
                left
            } else {
                len
            };
            let sender_part = String::from_str(line.substring_char(0, take));
            left = left - take;
            let separator = left == 0 && take < len;
            let rest = if separator {
                if len - take > 2 {
                    String::from_str(line.substring_char(take + 2, len))
                } else {
                    String::new()
                }
            } else if take < len {
                String::from_str(line.substring_char(take, len))
            } else {
                String::new()
            };
            ChatLine { sender_part, separator, rest }
        } else {
            ChatLine { sender_part: String::new(), separator: false, rest: String::from_str(line) }
        };
        proof {
            let ghost next = ls.subrange(0, i + 1);
            assert forall|k: nat| k <= i + 1 implies name_left_before(next, name_len as nat, k)
                == #[trigger] name_left_before(ls, name_len as nat, k) by {
                lemma_left_prefix(ls, (i + 1) as nat, name_len as nat, k);
            }
            assert(piece.sender_part@ =~= cut_line(ls[i as int], name_left_before(ls, name_len as nat, i as nat)).0);
            assert(piece.rest@ =~= cut_line(ls[i as int], name_left_before(ls, name_len as nat, i as nat)).2);
        }
        out.push(piece);
        i = i + 1;
        proof {
            let ghost prev = ls.subrange(0, i - 1);
            let ghost next = ls.subrange(0, i as int);
            assert forall|j: int| 0 <= j < next.len() implies {
                let c = cut_line(next[j], name_left_before(next, name_len as nat, j as nat));
                &&& (#[trigger] out@[j]).sender_part@ == c.0
                &&& out@[j].separator == c.1
                &&& out@[j].rest@ == c.2
            } by {
                if j < i - 1 {
                    assert(next[j] == prev[j]);
                    lemma_left_prefix(ls, (i - 1) as nat, name_len as nat, j as nat);
                    lemma_left_prefix(ls, i as nat, name_len as nat, j as nat);
                }
            }
        }
    }
    assert(ls.subrange(0, i as int) =~= ls);
    out
}

proof fn lemma_left_prefix(ls: Seq<Seq<char>>, m: nat, name_len: nat, k: nat)
    requires
        m <= ls.len(),
        k <= m,
    ensures
        name_left_before(ls.subrange(0, m as int), name_len, k) == name_left_before(ls, name_len, k),
    decreases k,
{
    if k > 0 {
        lemma_left_prefix(ls, m, name_len, (k - 1) as nat);
    }
}

impl TwitchMessage {
    /// The message as `sender: message`, wrapped to `max_width` columns and cut
    /// where the sender's name ends on each line.
    pub fn to_wrapped(&self, max_width: usize) -> (r: Vec<ChatLine>)
        ensures
            lines_cut(wrapped_of(full_text(*self), max_width as nat), self.sender@.len(), r@),
    {
        let mut full = self.sender.clone();
        full.append(": ");
        full.append(self.message.as_str());
        let lines = wrap_text(full.as_str(), max_width);
        let name_len = self.sender.as_str().unicode_len();
        cut_lines(&lines, name_len)
    }
}

} // verus!
