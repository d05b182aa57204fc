//! The digest of a block and the items that the controller reads from it
//! and writes to it.

use vstd::prelude::*;

verus! {

/// The relay cores that are assigned to the parachain for this block.
#[derive(Clone, Copy, Debug, PartialEq, Eq, Structural)]
pub struct CoreInfo {
    /// Picks the core on which the block is validated.
    pub selector: u8,
    /// How far ahead in the claim queue the core is looked up.
    pub claim_queue_offset: u8,
    /// Number of cores that the parachain holds.
    pub number_of_cores: u16,
}

/// The place of a block among the blocks that share one core.
#[derive(Clone, Copy, Debug, PartialEq, Eq, Structural)]
pub struct BundleInfo {
    /// Position of the block on its core; zero for the first block.
    pub index: u32,
}

/// The digest items that parachain block production defines.
#[derive(Clone, Copy, Debug, PartialEq, Eq, Structural)]
pub enum CumulusDigestItem {
    /// The core assignment of the block.
    CoreInfo(CoreInfo),
    /// The position of the block on its core.
    BundleInfo(BundleInfo),
    /// The block claims its whole core; no further block is built on it.
    UseFullCore,
}

/// One log item of a block digest.
#[derive(Clone, Copy, Debug, PartialEq, Eq, Structural)]
pub enum DigestItem {
    /// An item of parachain block production.
    Cumulus(CumulusDigestItem),
    /// Any other item; the controller neither reads nor writes these.
    Other,
}

/// The ordered log items in the header of a block.
#[derive(Clone, Debug)]
pub struct Digest {
    pub logs: Vec<DigestItem>,
}

impl View for Digest {
    type V = Seq<DigestItem>;

    open spec fn view(&self) -> Seq<DigestItem> {
        self.logs@
    }
}

/// The core info that `item` carries, if it is one.
pub open spec fn as_core_info(item: DigestItem) -> Option<CoreInfo> {
    match item {
        DigestItem::Cumulus(CumulusDigestItem::CoreInfo(info)) => Some(info),
        _ => None,
    }
}

/// The bundle info that `item` carries, if it is one.
pub open spec fn as_bundle_info(item: DigestItem) -> Option<BundleInfo> {
    match item {
        DigestItem::Cumulus(CumulusDigestItem::BundleInfo(info)) => Some(info),
        _ => None,
    }
}

/// Whether `item` claims the full core.
pub open spec fn is_use_full_core(item: DigestItem) -> bool {
    item == DigestItem::Cumulus(CumulusDigestItem::UseFullCore)
}

/// The core info of the first item of `logs` that carries one.
pub open spec fn first_core_info(logs: Seq<DigestItem>) -> Option<CoreInfo>
    decreases logs.len(),
{
    if logs.len() == 0 {
        None
    } else if as_core_info(logs[0]) is Some {
        as_core_info(logs[0])
    } else {
        first_core_info(logs.drop_first())
    }
}

/// The bundle info of the first item of `logs` that carries one.
pub open spec fn first_bundle_info(logs: Seq<DigestItem>) -> Option<BundleInfo>
    decreases logs.len(),
{
    if logs.len() == 0 {
        None
    } else if as_bundle_info(logs[0]) is Some {
        as_bundle_info(logs[0])
    } else {
        first_bundle_info(logs.drop_first())
    }
}

/// How many items of `logs` claim the full core.
pub open spec fn use_full_core_count(logs: Seq<DigestItem>) -> nat
    decreases logs.len(),
{
    if logs.len() == 0 {
        0
    } else {
        use_full_core_count(logs.drop_last()) + if is_use_full_core(logs.last()) {
            1nat
        } else {
            0nat
        }
    }
}

/// `first_core_info` is `None` exactly when no item carries a core info, and
/// otherwise it is the info of the item before which no other carries one.
pub proof fn lemma_first_core_info(logs: Seq<DigestItem>)
    ensures
        match first_core_info(logs) {
            Some(info) => exists|i: int|
                0 <= i < logs.len() && as_core_info(logs[i]) == Some(info) && forall|j: int|
                    0 <= j < i ==> as_core_info(#[trigger] logs[j]) is None,
            None => forall|j: int| 0 <= j < logs.len() ==> as_core_info(#[trigger] logs[j]) is None,
        },
    decreases logs.len(),
{
    if logs.len() == 0 {
    } else if as_core_info(logs[0]) is Some {
        assert(forall|j: int| 0 <= j < 0 ==> as_core_info(#[trigger] logs[j]) is None);
    } else {
        let rest = logs.drop_first();
        lemma_first_core_info(rest);
        match first_core_info(rest) {
            Some(info) => {
                let i = choose|i: int|
                    0 <= i < rest.len() && as_core_info(rest[i]) == Some(info) && forall|j: int|
                        0 <= j < i ==> as_core_info(#[trigger] rest[j]) is None;
                assert forall|j: int| 0 <= j < i + 1 implies as_core_info(
                    #[trigger] logs[j],
                ) is None by {
                    if j > 0 {
                        assert(logs[j] == rest[j - 1]);
                    }
                }
                assert(logs[i + 1] == rest[i]);
            },
            None => {
                assert forall|j: int| 0 <= j < logs.len() implies as_core_info(
                    #[trigger] logs[j],
                ) is None by {
                    if j > 0 {
                        assert(logs[j] == rest[j - 1]);
                    }
                }
            },
        }
    }
}

/// `first_bundle_info` is `None` exactly when no item carries a bundle info,
/// and otherwise it is the info of the item before which no other carries one.
pub proof fn lemma_first_bundle_info(logs: Seq<DigestItem>)
    ensures
        match first_bundle_info(logs) {
            Some(info) => exists|i: int|
                0 <= i < logs.len() && as_bundle_info(logs[i]) == Some(info) && forall|j: int|
                    0 <= j < i ==> as_bundle_info(#[trigger] logs[j]) is None,
            None => forall|j: int|
                0 <= j < logs.len() ==> as_bundle_info(#[trigger] logs[j]) is None,
        },
    decreases logs.len(),
{
    if logs.len() == 0 {
    } else if as_bundle_info(logs[0]) is Some {
        assert(forall|j: int| 0 <= j < 0 ==> as_bundle_info(#[trigger] logs[j]) is None);
    } else {
        let rest = logs.drop_first();
        lemma_first_bundle_info(rest);
        match first_bundle_info(rest) {
            Some(info) => {
                let i = choose|i: int|
                    0 <= i < rest.len() && as_bundle_info(rest[i]) == Some(info) && forall|j: int|
                        0 <= j < i ==> as_bundle_info(#[trigger] rest[j]) is None;
                assert forall|j: int| 0 <= j < i + 1 implies as_bundle_info(
                    #[trigger] logs[j],
                ) is None by {
                    if j > 0 {
                        assert(logs[j] == rest[j - 1]);
                    }
                }
                assert(logs[i + 1] == rest[i]);
            },
            None => {
                assert forall|j: int| 0 <= j < logs.len() implies as_bundle_info(
                    #[trigger] logs[j],
                ) is None by {
                    if j > 0 {
                        assert(logs[j] == rest[j - 1]);
                    }
                }
            },
        }
    }
}

/// Appending an item that carries no core info leaves the first core info
/// as it was; on a digest without one, an appended core info becomes it.
pub proof fn lemma_first_core_info_push(logs: Seq<DigestItem>, item: DigestItem)
    ensures
        first_core_info(logs.push(item)) == if first_core_info(logs) is Some {
            first_core_info(logs)
        } else {
            as_core_info(item)
        },
    decreases logs.len(),
{
    let pushed = logs.push(item);
    if logs.len() == 0 {
        assert(pushed.drop_first() =~= logs);
    } else {
        assert(pushed[0] == logs[0]);
        assert(pushed.drop_first() =~= logs.drop_first().push(item));
        lemma_first_core_info_push(logs.drop_first(), item);
    }
}

/// Appending an item that carries no bundle info leaves the first bundle
/// info as it was; on a digest without one, an appended bundle info becomes it.
pub proof fn lemma_first_bundle_info_push(logs: Seq<DigestItem>, item: DigestItem)
    ensures
        first_bundle_info(logs.push(item)) == if first_bundle_info(logs) is Some {
            first_bundle_info(logs)
        } else {
            as_bundle_info(item)
        },
    decreases logs.len(),
{
    let pushed = logs.push(item);
    if logs.len() == 0 {
        assert(pushed.drop_first() =~= logs);
    } else {
        assert(pushed[0] == logs[0]);
        assert(pushed.drop_first() =~= logs.drop_first().push(item));
        lemma_first_bundle_info_push(logs.drop_first(), item);
    }
}

/// Appending an item raises the count of full-core claims by one if the item
/// is such a claim, and leaves it otherwise.
pub proof fn lemma_use_full_core_count_push(logs: Seq<DigestItem>, item: DigestItem)
    ensures
        use_full_core_count(logs.push(item)) == use_full_core_count(logs) + if is_use_full_core(
            item,
        ) {
            1nat
        } else {
            0nat
        },
{
    assert(logs.push(item).drop_last() =~= logs);
}

impl CumulusDigestItem {
    pub open spec fn spec_to_digest_item(self) -> DigestItem {
        DigestItem::Cumulus(self)
    }

    /// The item as a log item of a block digest.
    #[verifier::when_used_as_spec(spec_to_digest_item)]
    pub fn to_digest_item(self) -> (item: DigestItem)
        ensures
            item == self.spec_to_digest_item(),
    {
        DigestItem::Cumulus(self)
    }

    /// The core assignment in `digest`: that of the first item that carries one.
    pub fn find_core_info(digest: &Digest) -> (found: Option<CoreInfo>)
        ensures
            found == first_core_info(digest@),
    {
        let mut i: usize = 0;
        assert(digest@.skip(0) =~= digest@);
        while i < digest.logs.len()
            invariant
                i <= digest.logs.len(),
                first_core_info(digest@) == first_core_info(digest@.skip(i as int)),
            decreases digest.logs.len() - i,
        {
            proof {
                assert(digest@.skip(i as int)[0] == digest@[i as int]);
                assert(digest@.skip(i as int).drop_first() =~= digest@.skip(i + 1));
            }
            if let DigestItem::Cumulus(CumulusDigestItem::CoreInfo(info)) = digest.logs[i] {
                return Some(info);
            }
            i += 1;
        }
        None
    }

    /// The bundle position in `digest`: that of the first item that carries one.
    pub fn find_bundle_info(digest: &Digest) -> (found: Option<BundleInfo>)
        ensures
            found == first_bundle_info(digest@),
    {
        let mut i: usize = 0;
        assert(digest@.skip(0) =~= digest@);
        while i < digest.logs.len()
            invariant
                i <= digest.logs.len(),
                first_bundle_info(digest@) == first_bundle_info(digest@.skip(i as int)),
            decreases digest.logs.len() - i,
        {
            proof {
                assert(digest@.skip(i as int)[0] == digest@[i as int]);
                assert(digest@.skip(i as int).drop_first() =~= digest@.skip(i + 1));
            }
            if let DigestItem::Cumulus(CumulusDigestItem::BundleInfo(info)) = digest.logs[i] {
                return Some(info);
            }
            i += 1;
        }
        None
    }
}

impl Digest {
    /// A digest without items.
    pub fn new() -> (digest: Digest)
        ensures
            digest@ == Seq::<DigestItem>::empty(),
    {
        Digest { logs: Vec::new() }
    }

    /// Appends `item`.
    pub fn push(&mut self, item: DigestItem)
        ensures
            final(self)@ == old(self)@.push(item),
    {
        self.logs.push(item);
    }

    /// The items, in the order in which they were deposited.
    pub fn logs(&self) -> (logs: &Vec<DigestItem>)
        ensures
            logs@ == self@,
    {
        &self.logs
    }

    /// How many items claim the full core.
    pub fn count_use_full_core(&self) -> (n: usize)
        ensures
            n == use_full_core_count(self@),
    {
        let mut n: usize = 0;
        let mut i: usize = 0;
        while i < self.logs.len()
            invariant
                i <= self.logs.len(),
                n <= i,
                n == use_full_core_count(self@.take(i as int)),
            decreases self.logs.len() - i,
        {
            proof {
                assert(self@.take(i + 1).drop_last() =~= self@.take(i as int));
                assert(self@.take(i + 1).last() == self@[i as int]);
            }
            if let DigestItem::Cumulus(CumulusDigestItem::UseFullCore) = self.logs[i] {
                n += 1;
            }
            i += 1;
        }
        proof {
            assert(self@.take(i as int) =~= self@);
        }
        n
    }
}

} // verus!
