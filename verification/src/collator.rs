//! What a collator decides when it turns parachain blocks into a
//! collation for the relay chain.
//!
//! The collator asks the runtime, block by block, for the collation info of
//! each block. This module holds what is done with the answers: whether a
//! block may be built upon, which call of the runtime yields the collation
//! info, and how the infos of several blocks become one collation.

use vstd::prelude::*;

verus! {

/// The most upward messages that one collation may carry.
pub const MAX_UPWARD_MESSAGE_NUM: u32 = 16384;

/// The most horizontal messages that one collation may carry.
pub const MAX_HORIZONTAL_MESSAGE_NUM: u32 = 16384;

/// What the client knows about a block.
#[derive(Clone, Copy, Debug, PartialEq, Eq, Structural)]
pub enum BlockStatus {
    /// Added to the import queue.
    Queued,
    /// Already in the blockchain and the state is available.
    InChainWithState,
    /// In the blockchain, but the state is not available.
    InChainPruned,
    /// Block or parent is known to be bad.
    KnownBad,
    /// Not in the queue or the blockchain.
    Unknown,
}

/// The call of the runtime that yields the collation info of a block.
#[derive(Clone, Copy, Debug, PartialEq, Eq, Structural)]
pub enum CollationInfoApi {
    /// The runtime does not say how to collect collation info.
    Unavailable,
    /// The call of the versions before 2. Its answer lacks the head data,
    /// which is the encoded header of the block.
    BeforeVersion2,
    /// The call of version 2 and later, which takes the header.
    Current,
}

/// How the blocks of a collation are encoded for the validators.
#[derive(Clone, Copy, Debug, PartialEq, Eq, Structural)]
pub enum BlockDataVersion {
    /// One block and its proof, as runtimes before version 3 read it.
    V0,
    /// Any number of blocks and their proof.
    V1,
}

/// A message to another parachain.
#[derive(Clone, Debug, PartialEq, Eq)]
pub struct OutboundHrmpMessage {
    /// The parachain that the message is for.
    pub recipient: u32,
    /// The message itself.
    pub data: Vec<u8>,
}

/// An [`OutboundHrmpMessage`] as plain values.
pub struct HrmpMessageView {
    pub recipient: u32,
    pub data: Seq<u8>,
}

impl View for OutboundHrmpMessage {
    type V = HrmpMessageView;

    open spec fn view(&self) -> HrmpMessageView {
        HrmpMessageView { recipient: self.recipient, data: self.data@ }
    }
}

/// What the runtime says about a block for its collation.
#[derive(Clone, Debug, PartialEq, Eq)]
pub struct CollationInfo {
    /// Messages to the relay chain. An empty message separates the
    /// messages proper from the signals that follow them.
    pub upward_messages: Vec<Vec<u8>>,
    /// Messages to other parachains.
    pub horizontal_messages: Vec<OutboundHrmpMessage>,
    /// New validation code, where the block scheduled an upgrade.
    pub new_validation_code: Option<Vec<u8>>,
    /// How many downward messages the block processed.
    pub processed_downward_messages: u32,
    /// The relay chain block up to which horizontal messages were processed.
    pub hrmp_watermark: u32,
    /// The head data that the block results in.
    pub head_data: Vec<u8>,
}

/// A [`CollationInfo`] as plain values.
pub struct CollationInfoView {
    pub upward_messages: Seq<Seq<u8>>,
    pub horizontal_messages: Seq<HrmpMessageView>,
    pub new_validation_code: Option<Seq<u8>>,
    pub processed_downward_messages: u32,
    pub hrmp_watermark: u32,
    pub head_data: Seq<u8>,
}

/// What runtimes before version 2 say about a block for its collation.
#[derive(Clone, Debug, PartialEq, Eq)]
pub struct CollationInfoV1 {
    /// Messages to the relay chain.
    pub upward_messages: Vec<Vec<u8>>,
    /// Messages to other parachains.
    pub horizontal_messages: Vec<OutboundHrmpMessage>,
    /// New validation code, where the block scheduled an upgrade.
    pub new_validation_code: Option<Vec<u8>>,
    /// How many downward messages the block processed.
    pub processed_downward_messages: u32,
    /// The relay chain block up to which horizontal messages were processed.
    pub hrmp_watermark: u32,
}

/// The views of byte strings.
pub open spec fn byte_views(messages: Seq<Vec<u8>>) -> Seq<Seq<u8>> {
    messages.map_values(|message: Vec<u8>| message@)
}

/// The views of horizontal messages.
pub open spec fn hrmp_views(messages: Seq<OutboundHrmpMessage>) -> Seq<HrmpMessageView> {
    messages.map_values(|message: OutboundHrmpMessage| message@)
}

/// The view of optional bytes.
pub open spec fn option_view(bytes: Option<Vec<u8>>) -> Option<Seq<u8>> {
    match bytes {
        Some(bytes) => Some(bytes@),
        None => None,
    }
}

impl View for CollationInfo {
    type V = CollationInfoView;

    open spec fn view(&self) -> CollationInfoView {
        CollationInfoView {
            upward_messages: byte_views(self.upward_messages@),
            horizontal_messages: hrmp_views(self.horizontal_messages@),
            new_validation_code: option_view(self.new_validation_code),
            processed_downward_messages: self.processed_downward_messages,
            hrmp_watermark: self.hrmp_watermark,
            head_data: self.head_data@,
        }
    }
}

/// Whether an upward message is the separator between messages and
/// signals: the empty message.
pub open spec fn is_separator(message: Seq<u8>) -> bool {
    message.len() == 0
}

/// How many messages stand before the first separator; all of them where
/// there is no separator.
pub open spec fn leading_messages(messages: Seq<Seq<u8>>) -> nat
    decreases messages.len(),
{
    if messages.len() == 0 || is_separator(messages.first()) {
        0
    } else {
        1 + leading_messages(messages.drop_first())
    }
}

/// How many messages stand behind the last separator; all of them where
/// there is no separator.
pub open spec fn trailing_messages(messages: Seq<Seq<u8>>) -> nat
    decreases messages.len(),
{
    if messages.len() == 0 || is_separator(messages.last()) {
        0
    } else {
        1 + trailing_messages(messages.drop_last())
    }
}

/// The signals with `signal` among them.
pub open spec fn with_signal(signals: Seq<Seq<u8>>, signal: Seq<u8>) -> Seq<Seq<u8>> {
    if signals.contains(signal) {
        signals
    } else {
        signals.push(signal)
    }
}

/// The signals after each of `new` was put among them, the last of `new`
/// first.
pub open spec fn with_signals(signals: Seq<Seq<u8>>, new: Seq<Seq<u8>>) -> Seq<Seq<u8>>
    decreases new.len(),
{
    if new.len() == 0 {
        signals
    } else {
        with_signal(with_signals(signals, new.drop_first()), new.first())
    }
}

/// No message of `messages` is the separator.
pub open spec fn separator_free(messages: Seq<Seq<u8>>) -> bool {
    forall|i: int| 0 <= i < messages.len() ==> !is_separator(#[trigger] messages[i])
}

/// The collation of some blocks, as far as their collation infos make it
/// up, as plain values.
pub struct CollationView {
    /// The upward messages proper of all blocks, in the order of the blocks.
    pub upward_messages: Seq<Seq<u8>>,
    /// The upward message signals of all blocks, each once.
    pub upward_message_signals: Seq<Seq<u8>>,
    /// The horizontal messages of all blocks, in the order of the blocks.
    pub horizontal_messages: Seq<HrmpMessageView>,
    /// The validation code of the first block that has one.
    pub new_validation_code: Option<Seq<u8>>,
    /// The downward messages that the blocks processed, all together.
    pub processed_downward_messages: int,
    /// The watermark of the last block.
    pub hrmp_watermark: Option<u32>,
    /// The head data of the last block.
    pub head_data: Option<Seq<u8>>,
}

impl CollationView {
    /// The collation of no block.
    pub open spec fn empty() -> CollationView {
        CollationView {
            upward_messages: Seq::empty(),
            upward_message_signals: Seq::empty(),
            horizontal_messages: Seq::empty(),
            new_validation_code: None,
            processed_downward_messages: 0,
            hrmp_watermark: None,
            head_data: None,
        }
    }

    /// The collation with one more block.
    ///
    /// The upward messages before the first separator are messages proper,
    /// those behind the last separator are signals. Of an upgrade that
    /// several blocks announce the first is kept. Watermark and head data
    /// are those of the last block.
    pub open spec fn add(self, info: CollationInfoView) -> CollationView {
        let messages = info.upward_messages;
        CollationView {
            upward_messages: self.upward_messages + messages.take(
                leading_messages(messages) as int,
            ),
            upward_message_signals: with_signals(
                self.upward_message_signals,
                messages.skip(messages.len() - trailing_messages(messages)),
            ),
            horizontal_messages: self.horizontal_messages + info.horizontal_messages,
            new_validation_code: if self.new_validation_code is Some {
                self.new_validation_code
            } else {
                info.new_validation_code
            },
            processed_downward_messages: self.processed_downward_messages
                + info.processed_downward_messages,
            hrmp_watermark: Some(info.hrmp_watermark),
            head_data: Some(info.head_data),
        }
    }

    /// The upward messages of the finished collation: the messages proper
    /// and, where there are signals, the separator and the signals.
    pub open spec fn all_upward_messages(self) -> Seq<Seq<u8>> {
        if self.upward_message_signals.len() > 0 {
            self.upward_messages.push(Seq::empty()) + self.upward_message_signals
        } else {
            self.upward_messages
        }
    }

    /// Whether a collation can be made: there is a block, and there are no
    /// more messages than a collation may carry.
    pub open spec fn complete(self) -> bool {
        &&& self.all_upward_messages().len() <= MAX_UPWARD_MESSAGE_NUM
        &&& self.horizontal_messages.len() <= MAX_HORIZONTAL_MESSAGE_NUM
        &&& self.hrmp_watermark is Some
        &&& self.head_data is Some
    }

    /// The information of the finished collation.
    pub open spec fn finished(self) -> CollationInfoView {
        CollationInfoView {
            upward_messages: self.all_upward_messages(),
            horizontal_messages: self.horizontal_messages,
            new_validation_code: self.new_validation_code,
            processed_downward_messages: self.processed_downward_messages as u32,
            hrmp_watermark: self.hrmp_watermark.unwrap(),
            head_data: self.head_data.unwrap(),
        }
    }
}

/// A copy of `bytes`.
fn copy_bytes(bytes: &Vec<u8>) -> (copy: Vec<u8>)
    ensures
        copy@ == bytes@,
{
    let copy = bytes.clone();
    assert(copy@ =~= bytes@);
    copy
}

/// Whether two byte strings hold the same bytes.
fn bytes_equal(first: &Vec<u8>, second: &Vec<u8>) -> (equal: bool)
    ensures
        equal == (first@ == second@),
{
    if first.len() != second.len() {
        return false;
    }
    let mut i: usize = 0;
    while i < first.len()
        invariant
            i <= first.len(),
            first.len() == second.len(),
            forall|k: int| 0 <= k < i ==> first@[k] == second@[k],
        decreases first.len() - i,
    {
        if first[i] != second[i] {
            return false;
        }
        i += 1;
    }
    assert(first@ =~= second@);
    true
}

/// Whether `message` is among `messages`.
fn contains_message(messages: &Vec<Vec<u8>>, message: &Vec<u8>) -> (found: bool)
    ensures
        found == byte_views(messages@).contains(message@),
{
    let mut i: usize = 0;
    while i < messages.len()
        invariant
            i <= messages.len(),
            forall|k: int| 0 <= k < i ==> byte_views(messages@)[k] != message@,
        decreases messages.len() - i,
    {
        if bytes_equal(&messages[i], message) {
            assert(byte_views(messages@)[i as int] == message@);
            return true;
        }
        i += 1;
    }
    false
}

/// The number of messages before the first separator is at most the number
/// of messages, and none of them is the separator.
pub proof fn lemma_leading_messages(messages: Seq<Seq<u8>>)
    ensures
        leading_messages(messages) <= messages.len(),
        separator_free(messages.take(leading_messages(messages) as int)),
        leading_messages(messages) < messages.len() ==> is_separator(
            messages[leading_messages(messages) as int],
        ),
    decreases messages.len(),
{
    if messages.len() == 0 || is_separator(messages.first()) {
    } else {
        let rest = messages.drop_first();
        lemma_leading_messages(rest);
        let n = leading_messages(rest) as int;
        assert forall|i: int| 0 <= i < n + 1 implies !is_separator(
            #[trigger] messages.take(n + 1)[i],
        ) by {
            if i > 0 {
                assert(messages.take(n + 1)[i] == rest.take(n)[i - 1]);
            }
        }
        if n < rest.len() {
            assert(messages[n + 1] == rest[n]);
        }
    }
}

/// The number of messages behind the last separator is at most the number
/// of messages, and none of them is the separator.
pub proof fn lemma_trailing_messages(messages: Seq<Seq<u8>>)
    ensures
        trailing_messages(messages) <= messages.len(),
        separator_free(messages.skip(messages.len() - trailing_messages(messages))),
        trailing_messages(messages) < messages.len() ==> is_separator(
            messages[messages.len() - trailing_messages(messages) - 1],
        ),
    decreases messages.len(),
{
    if messages.len() == 0 || is_separator(messages.last()) {
    } else {
        let rest = messages.drop_last();
        lemma_trailing_messages(rest);
        let n = trailing_messages(rest) as int;
        let from = rest.len() - n;
        assert(messages.len() - trailing_messages(messages) == from);
        assert forall|i: int| 0 <= i < n + 1 implies !is_separator(
            #[trigger] messages.skip(from)[i],
        ) by {
            if i < n {
                assert(messages.skip(from)[i] == rest.skip(from)[i]);
            }
        }
        if n < rest.len() {
            assert(messages[from - 1] == rest[from - 1]);
        }
    }
}

/// Signals stay without repetition and without separator when messages
/// other than the separator are put among them.
pub proof fn lemma_with_signals_keeps_signals_apart(signals: Seq<Seq<u8>>, new: Seq<Seq<u8>>)
    requires
        signals.no_duplicates(),
        separator_free(signals),
        separator_free(new),
    ensures
        with_signals(signals, new).no_duplicates(),
        separator_free(with_signals(signals, new)),
        forall|signal: Seq<u8>|
            with_signals(signals, new).contains(signal) <==> signals.contains(signal)
                || new.contains(signal),
    decreases new.len(),
{
    if new.len() > 0 {
        let rest = new.drop_first();
        assert forall|i: int| 0 <= i < rest.len() implies !is_separator(#[trigger] rest[i]) by {
            assert(rest[i] == new[i + 1]);
        }
        lemma_with_signals_keeps_signals_apart(signals, rest);
        let before = with_signals(signals, rest);
        let after = with_signal(before, new.first());
        assert(!is_separator(new[0]));
        assert forall|signal: Seq<u8>| after.contains(signal) <==> signals.contains(signal)
            || new.contains(signal) by {
            if after.contains(signal) {
                let i = choose|i: int| 0 <= i < after.len() && after[i] == signal;
                if i < before.len() {
                    assert(before.contains(signal));
                    if rest.contains(signal) {
                        let j = choose|j: int| 0 <= j < rest.len() && rest[j] == signal;
                        assert(new[j + 1] == signal);
                    }
                } else {
                    assert(new[0] == signal);
                }
            }
            if signals.contains(signal) {
                assert(before.contains(signal));
                let i = choose|i: int| 0 <= i < before.len() && before[i] == signal;
                assert(after[i] == signal);
            }
            if new.contains(signal) {
                let j = choose|j: int| 0 <= j < new.len() && new[j] == signal;
                if j == 0 {
                    if before.contains(signal) {
                    } else {
                        assert(after[before.len() as int] == signal);
                    }
                } else {
                    assert(rest[j - 1] == signal);
                    assert(before.contains(signal));
                    let i = choose|i: int| 0 <= i < before.len() && before[i] == signal;
                    assert(after[i] == signal);
                }
            }
        }
    }
}

/// Collects the collation infos of the blocks of one collation.
///
/// Blocks are added one after the other, in the order in which they were
/// built. The signals among the upward messages are kept once each, in the
/// order in which they were first seen.
#[derive(Clone, Debug)]
pub struct CollationBuilder {
    upward_messages: Vec<Vec<u8>>,
    upward_message_signals: Vec<Vec<u8>>,
    horizontal_messages: Vec<OutboundHrmpMessage>,
    new_validation_code: Option<Vec<u8>>,
    processed_downward_messages: u32,
    hrmp_watermark: Option<u32>,
    head_data: Option<Vec<u8>>,
}

impl View for CollationBuilder {
    type V = CollationView;

    closed spec fn view(&self) -> CollationView {
        CollationView {
            upward_messages: byte_views(self.upward_messages@),
            upward_message_signals: byte_views(self.upward_message_signals@),
            horizontal_messages: hrmp_views(self.horizontal_messages@),
            new_validation_code: option_view(self.new_validation_code),
            processed_downward_messages: self.processed_downward_messages as int,
            hrmp_watermark: self.hrmp_watermark,
            head_data: option_view(self.head_data),
        }
    }
}

/// What holds of every collation that was put together block by block: no
/// signal stands twice, the separator is neither message nor signal, and the
/// count of downward messages is that of a `u32`.
pub open spec fn well_formed(collation: CollationView) -> bool {
    &&& collation.upward_message_signals.no_duplicates()
    &&& separator_free(collation.upward_message_signals)
    &&& separator_free(collation.upward_messages)
    &&& 0 <= collation.processed_downward_messages <= u32::MAX
}

/// Adding a block keeps a collation well formed, as long as the downward
/// messages can still be counted.
pub proof fn lemma_add_keeps_well_formed(collation: CollationView, info: CollationInfoView)
    requires
        well_formed(collation),
        collation.processed_downward_messages + info.processed_downward_messages <= u32::MAX,
    ensures
        well_formed(collation.add(info)),
{
    let messages = info.upward_messages;
    lemma_leading_messages(messages);
    lemma_trailing_messages(messages);
    lemma_with_signals_keeps_signals_apart(
        collation.upward_message_signals,
        messages.skip(messages.len() - trailing_messages(messages)),
    );
    let leading = messages.take(leading_messages(messages) as int);
    let all = collation.upward_messages + leading;
    assert forall|i: int| 0 <= i < all.len() implies !is_separator(#[trigger] all[i]) by {
        if i >= collation.upward_messages.len() {
            assert(all[i] == leading[i - collation.upward_messages.len()]);
        } else {
            assert(all[i] == collation.upward_messages[i]);
        }
    }
}

impl CollationBuilder {
    /// Whether the builder holds a well formed collation.
    pub open spec fn wf(&self) -> bool {
        well_formed(self@)
    }

    /// The collation of no block.
    pub fn new() -> (builder: CollationBuilder)
        ensures
            builder.wf(),
            builder@ == CollationView::empty(),
    {
        let builder = CollationBuilder {
            upward_messages: Vec::new(),
            upward_message_signals: Vec::new(),
            horizontal_messages: Vec::new(),
            new_validation_code: None,
            processed_downward_messages: 0,
            hrmp_watermark: None,
            head_data: None,
        };
        assert(builder@.upward_messages =~= Seq::empty());
        assert(builder@.upward_message_signals =~= Seq::empty());
        assert(builder@.horizontal_messages =~= Seq::empty());
        builder
    }

    /// How many downward messages the blocks so far processed.
    pub fn processed_downward_messages(&self) -> (count: u32)
        ensures
            count == self@.processed_downward_messages,
    {
        self.processed_downward_messages
    }

    /// Adds the collation info of the next block.
    pub fn push(&mut self, info: &CollationInfo)
        requires
            old(self).wf(),
            old(self)@.processed_downward_messages + info.processed_downward_messages
                <= u32::MAX,
        ensures
            final(self).wf(),
            final(self)@ == old(self)@.add(info@),
    {
        let ghost before = self@;
        let ghost messages = info@.upward_messages;
        let count = info.upward_messages.len();

        // The signals: what stands behind the last separator.
        let mut i: usize = count;
        proof {
            assert(messages.take(count as int) =~= messages);
            assert(messages.skip(count as int) =~= Seq::<Seq<u8>>::empty());
        }
        while i > 0 && info.upward_messages[i - 1].len() != 0
            invariant
                0 <= i <= count,
                count == info.upward_messages.len(),
                messages == byte_views(info.upward_messages@),
                trailing_messages(messages) == (count - i) + trailing_messages(
                    messages.take(i as int),
                ),
                byte_views(self.upward_message_signals@) == with_signals(
                    before.upward_message_signals,
                    messages.skip(i as int),
                ),
                self.upward_messages == old(self).upward_messages,
                self.horizontal_messages == old(self).horizontal_messages,
                self.new_validation_code == old(self).new_validation_code,
                self.processed_downward_messages == old(self).processed_downward_messages,
                self.hrmp_watermark == old(self).hrmp_watermark,
                self.head_data == old(self).head_data,
            decreases i,
        {
            let signal = &info.upward_messages[i - 1];
            proof {
                assert(messages[i - 1] == signal@);
                assert(messages.take(i as int).last() == messages[i - 1]);
                assert(messages.take(i as int).drop_last() =~= messages.take(i - 1));
                assert(messages.skip(i - 1).first() == messages[i - 1]);
                assert(messages.skip(i - 1).drop_first() =~= messages.skip(i as int));
            }
            if !contains_message(&self.upward_message_signals, signal) {
                let ghost signals = self.upward_message_signals@;
                let copy = copy_bytes(signal);
                self.upward_message_signals.push(copy);
                assert(byte_views(signals.push(copy)) =~= byte_views(signals).push(signal@));
            }
            i -= 1;
        }
        proof {
            if i > 0 {
                assert(messages.take(i as int).last() == messages[i - 1]);
            }
            assert(trailing_messages(messages) == count - i);
        }

        // The messages proper: what stands before the first separator.
        let mut j: usize = 0;
        proof {
            assert(messages.skip(0) =~= messages);
            assert(messages.take(0) =~= Seq::<Seq<u8>>::empty());
            assert(byte_views(self.upward_messages@) + messages.take(0) =~= byte_views(
                self.upward_messages@,
            ));
        }
        while j < count && info.upward_messages[j].len() != 0
            invariant
                0 <= j <= count,
                count == info.upward_messages.len(),
                messages == byte_views(info.upward_messages@),
                leading_messages(messages) == j + leading_messages(messages.skip(j as int)),
                byte_views(self.upward_messages@) == before.upward_messages + messages.take(
                    j as int,
                ),
                byte_views(self.upward_message_signals@) == with_signals(
                    before.upward_message_signals,
                    messages.skip(messages.len() - trailing_messages(messages)),
                ),
                self.horizontal_messages == old(self).horizontal_messages,
                self.new_validation_code == old(self).new_validation_code,
                self.processed_downward_messages == old(self).processed_downward_messages,
                self.hrmp_watermark == old(self).hrmp_watermark,
                self.head_data == old(self).head_data,
            decreases count - j,
        {
            let message = &info.upward_messages[j];
            proof {
                assert(messages[j as int] == message@);
                assert(messages.skip(j as int).first() == messages[j as int]);
                assert(messages.skip(j as int).drop_first() =~= messages.skip(j + 1));
            }
            let ghost held = self.upward_messages@;
            let copy = copy_bytes(message);
            self.upward_messages.push(copy);
            proof {
                assert(byte_views(held.push(copy)) =~= byte_views(held).push(message@));
                assert(messages.take(j + 1) =~= messages.take(j as int).push(message@));
                assert(before.upward_messages + messages.take(j + 1) =~= (before.upward_messages
                    + messages.take(j as int)).push(message@));
            }
            j += 1;
        }
        proof {
            if j < count {
                assert(messages.skip(j as int).first() == messages[j as int]);
            }
            assert(leading_messages(messages) == j);
        }

        let mut k: usize = 0;
        proof {
            assert(info@.horizontal_messages.take(0) =~= Seq::<HrmpMessageView>::empty());
            assert(hrmp_views(self.horizontal_messages@) + info@.horizontal_messages.take(0)
                =~= hrmp_views(self.horizontal_messages@));
        }
        while k < info.horizontal_messages.len()
            invariant
                0 <= k <= info.horizontal_messages.len(),
                hrmp_views(self.horizontal_messages@) == before.horizontal_messages
                    + info@.horizontal_messages.take(k as int),
                byte_views(self.upward_messages@) == before.upward_messages + messages.take(
                    leading_messages(messages) as int,
                ),
                byte_views(self.upward_message_signals@) == with_signals(
                    before.upward_message_signals,
                    messages.skip(messages.len() - trailing_messages(messages)),
                ),
                self.new_validation_code == old(self).new_validation_code,
                self.processed_downward_messages == old(self).processed_downward_messages,
                self.hrmp_watermark == old(self).hrmp_watermark,
                self.head_data == old(self).head_data,
            decreases info.horizontal_messages.len() - k,
        {
            let message = &info.horizontal_messages[k];
            let ghost held = self.horizontal_messages@;
            let copy = OutboundHrmpMessage {
                recipient: message.recipient,
                data: copy_bytes(&message.data),
            };
            self.horizontal_messages.push(copy);
            proof {
                assert(copy@ == message@);
                assert(info@.horizontal_messages[k as int] == message@);
                assert(hrmp_views(held.push(copy)) =~= hrmp_views(held).push(message@));
                assert(info@.horizontal_messages.take(k + 1) =~= info@.horizontal_messages.take(
                    k as int,
                ).push(message@));
                assert(before.horizontal_messages + info@.horizontal_messages.take(k + 1) =~= (
                before.horizontal_messages + info@.horizontal_messages.take(k as int)).push(
                    message@,
                ));
            }
            k += 1;
        }
        proof {
            assert(info@.horizontal_messages.take(k as int) =~= info@.horizontal_messages);
        }

        // Of several upgrades the first is kept.
        if self.new_validation_code.is_none() {
            self.new_validation_code = match &info.new_validation_code {
                Some(code) => Some(copy_bytes(code)),
                None => None,
            };
        }
        self.processed_downward_messages = self.processed_downward_messages
            + info.processed_downward_messages;
        self.hrmp_watermark = Some(info.hrmp_watermark);
        self.head_data = Some(copy_bytes(&info.head_data));
        proof {
            lemma_add_keeps_well_formed(before, info@);
        }
    }

    /// The collation of the blocks that were added, but for its proof of
    /// validity.
    ///
    /// There is none without a block, and none with more upward or more
    /// horizontal messages than a collation may carry. Else the upward
    /// messages are the messages proper and, where there are signals, the
    /// separator and the signals.
    pub fn finish(self) -> (collation: Option<CollationInfo>)
        requires
            self.wf(),
        ensures
            match collation {
                Some(collation) => self@.complete() && collation@ == self@.finished(),
                None => !self@.complete(),
            },
    {
        let ghost view = self@;
        let mut upward_messages = self.upward_messages;
        let signals = self.upward_message_signals;

        // If there are signals, they follow the separator.
        if signals.len() > 0 {
            if upward_messages.len() >= MAX_UPWARD_MESSAGE_NUM as usize || signals.len()
                > MAX_UPWARD_MESSAGE_NUM as usize - upward_messages.len() - 1 {
                return None;
            }
            let separator: Vec<u8> = Vec::new();
            let ghost held = upward_messages@;
            upward_messages.push(separator);
            proof {
                assert(byte_views(held.push(separator)) =~= view.upward_messages.push(
                    Seq::<u8>::empty(),
                ));
                assert(byte_views(signals@).take(0) =~= Seq::<Seq<u8>>::empty());
                assert(byte_views(upward_messages@) + byte_views(signals@).take(0) =~= byte_views(
                    upward_messages@,
                ));
            }
            let mut i: usize = 0;
            while i < signals.len()
                invariant
                    0 <= i <= signals.len(),
                    byte_views(signals@) == view.upward_message_signals,
                    byte_views(upward_messages@) == view.upward_messages.push(Seq::<u8>::empty())
                        + view.upward_message_signals.take(i as int),
                decreases signals.len() - i,
            {
                let ghost held = upward_messages@;
                let copy = copy_bytes(&signals[i]);
                upward_messages.push(copy);
                proof {
                    let signal = view.upward_message_signals[i as int];
                    assert(byte_views(signals@)[i as int] == signals@[i as int]@);
                    assert(copy@ == signal);
                    assert(byte_views(held.push(copy)) =~= byte_views(held).push(signal));
                    assert(view.upward_message_signals.take(i + 1)
                        =~= view.upward_message_signals.take(i as int).push(signal));
                    assert(view.upward_messages.push(Seq::<u8>::empty())
                        + view.upward_message_signals.take(i + 1) =~= (view.upward_messages.push(
                        Seq::<u8>::empty(),
                    ) + view.upward_message_signals.take(i as int)).push(signal));
                }
                i += 1;
            }
            proof {
                assert(view.upward_message_signals.take(i as int) =~= view.upward_message_signals);
            }
        } else if upward_messages.len() > MAX_UPWARD_MESSAGE_NUM as usize {
            return None;
        }
        assert(byte_views(upward_messages@) == view.all_upward_messages());

        if self.horizontal_messages.len() > MAX_HORIZONTAL_MESSAGE_NUM as usize {
            return None;
        }
        // Without a block there is neither watermark nor head data.

        let hrmp_watermark = match self.hrmp_watermark {
            Some(hrmp_watermark) => hrmp_watermark,
            None => {
                return None;
            },
        };
        let head_data = match self.head_data {
            Some(head_data) => head_data,
            None => {
                return None;
            },
        };

        Some(
            CollationInfo {
                upward_messages,
                horizontal_messages: self.horizontal_messages,
                new_validation_code: self.new_validation_code,
                processed_downward_messages: self.processed_downward_messages,
                hrmp_watermark,
                head_data,
            },
        )
    }
}

impl CollationInfoV1 {
    /// The collation info with the head data that the old runtime call
    /// leaves out.
    pub fn into_latest(self, head_data: Vec<u8>) -> (info: CollationInfo)
        ensures
            info.upward_messages == self.upward_messages,
            info.horizontal_messages == self.horizontal_messages,
            info.new_validation_code == self.new_validation_code,
            info.processed_downward_messages == self.processed_downward_messages,
            info.hrmp_watermark == self.hrmp_watermark,
            info.head_data == head_data,
    {
        CollationInfo {
            upward_messages: self.upward_messages,
            horizontal_messages: self.horizontal_messages,
            new_validation_code: self.new_validation_code,
            processed_downward_messages: self.processed_downward_messages,
            hrmp_watermark: self.hrmp_watermark,
            head_data,
        }
    }
}

impl BlockDataVersion {
    /// The encoding that a runtime with the given version of the collation
    /// API reads: from version 3 on the one for any number of blocks.
    pub fn for_api_version(api_version: u32) -> (version: BlockDataVersion)
        ensures
            version == if api_version >= 3 {
                BlockDataVersion::V1
            } else {
                BlockDataVersion::V0
            },
    {
        if api_version >= 3 {
            BlockDataVersion::V1
        } else {
            BlockDataVersion::V0
        }
    }
}

/// Utilities for writing collators.
pub struct CollatorService;

impl CollatorService {
    /// Whether a block with the status that the client answered is good to
    /// be built upon: only one that is in the chain with its state.
    pub fn check_block_status<E>(status: &Result<BlockStatus, E>) -> (good: bool)
        ensures
            good == (*status == Ok::<_, E>(BlockStatus::InChainWithState)),
    {
        match status {
            Ok(BlockStatus::Queued) => false,
            Ok(BlockStatus::InChainWithState) => true,
            Ok(BlockStatus::InChainPruned) => false,
            Ok(BlockStatus::KnownBad) => false,
            Ok(BlockStatus::Unknown) => false,
            Err(_) => false,
        }
    }

    /// The runtime call by which the collation info is to be fetched,
    /// given the version of the collation API that the runtime answered.
    pub fn fetch_collation_info(api_version: Option<u32>) -> (api: CollationInfoApi)
        ensures
            api == match api_version {
                None => CollationInfoApi::Unavailable,
                Some(version) => if version < 2 {
                    CollationInfoApi::BeforeVersion2
                } else {
                    CollationInfoApi::Current
                },
            },
    {
        match api_version {
            Some(version) => if version < 2 {
                CollationInfoApi::BeforeVersion2
            } else {
                CollationInfoApi::Current
            },
            None => CollationInfoApi::Unavailable,
        }
    }

    /// The collation of `infos`, the collation infos of the blocks in the
    /// order in which they were built, but for its proof of validity.
    ///
    /// There is none where the downward messages of all blocks cannot be
    /// counted in a `u32`, and none where [`CollationBuilder::finish`] has
    /// none.
    pub fn build_multi_block_collation(infos: &Vec<CollationInfo>) -> (collation: Option<
        CollationInfo,
    >)
        ensures
            match collation {
                Some(collation) => {
                    &&& countable(info_views(infos@), infos@.len() as int)
                    &&& collation_of(info_views(infos@)).complete()
                    &&& collation@ == collation_of(info_views(infos@)).finished()
                },
                None => !countable(info_views(infos@), infos@.len() as int) || !collation_of(
                    info_views(infos@),
                ).complete(),
            },
    {
        let mut builder = CollationBuilder::new();
        let mut i: usize = 0;
        proof {
            assert(info_views(infos@).take(0) =~= Seq::<CollationInfoView>::empty());
        }
        while i < infos.len()
            invariant
                0 <= i <= infos.len(),
                builder.wf(),
                builder@ == collation_of(info_views(infos@).take(i as int)),
                countable(info_views(infos@), i as int),
            decreases infos.len() - i,
        {
            proof {
                let views = info_views(infos@);
                assert(views.take(i + 1).drop_last() =~= views.take(i as int));
                assert(views.take(i + 1).last() == infos@[i as int]@);
            }
            if infos[i].processed_downward_messages > u32::MAX
                - builder.processed_downward_messages() {
                proof {
                    lemma_countable_prefix(info_views(infos@), i + 1, infos@.len() as int);
                }
                return None;
            }
            builder.push(&infos[i]);
            i += 1;
        }
        proof {
            assert(info_views(infos@).take(i as int) =~= info_views(infos@));
        }
        builder.finish()
    }
}

/// The views of collation infos.
pub open spec fn info_views(infos: Seq<CollationInfo>) -> Seq<CollationInfoView> {
    infos.map_values(|info: CollationInfo| info@)
}

/// The collation of the blocks with the given collation infos.
pub open spec fn collation_of(infos: Seq<CollationInfoView>) -> CollationView
    decreases infos.len(),
{
    if infos.len() == 0 {
        CollationView::empty()
    } else {
        collation_of(infos.drop_last()).add(infos.last())
    }
}

/// Whether the downward messages of the first `n` blocks can be counted in
/// a `u32`.
pub open spec fn countable(infos: Seq<CollationInfoView>, n: int) -> bool {
    0 <= n <= infos.len() && collation_of(infos.take(n)).processed_downward_messages <= u32::MAX
}

/// Where the downward messages of some blocks cannot be counted, those of
/// more blocks cannot be counted either.
pub proof fn lemma_countable_prefix(infos: Seq<CollationInfoView>, n: int, m: int)
    requires
        0 <= n <= m <= infos.len(),
        !countable(infos, n),
    ensures
        !countable(infos, m),
    decreases m - n,
{
    if n < m {
        assert(infos.take(n + 1).drop_last() =~= infos.take(n));
        lemma_countable_prefix(infos, n + 1, m);
    }
}

} // verus!
