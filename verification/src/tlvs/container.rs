//! The capability of a PDU to hold optional parameters.

use crate::tlvs::owned::tlv::Tlv;
use crate::tlvs::tag::TlvTag;
use vstd::prelude::*;

verus! {

/// Whether a record with tag `tag` is among `tlvs`.
pub open spec fn has_tag(tlvs: Seq<Tlv>, tag: TlvTag) -> bool {
    exists|at: int| 0 <= at < tlvs.len() && (#[trigger] tlvs[at])@.tag == tag
}

/// Whether the record at `at` has tag `tag` and no record before it has.
pub open spec fn is_first_with_tag(tlvs: Seq<Tlv>, tag: TlvTag, at: int) -> bool {
    &&& 0 <= at < tlvs.len()
    &&& tlvs[at]@.tag == tag
    &&& forall|before: int| 0 <= before < at ==> (#[trigger] tlvs[before])@.tag != tag
}

/// The position of the first record with tag `tag`, where there is one.
pub open spec fn first_index(tlvs: Seq<Tlv>, tag: TlvTag) -> int {
    choose|at: int| is_first_with_tag(tlvs, tag, at)
}

/// The first record with tag `tag`, if any.
pub open spec fn first_with_tag(tlvs: Seq<Tlv>, tag: TlvTag) -> Option<Tlv> {
    if has_tag(tlvs, tag) {
        Some(tlvs[first_index(tlvs, tag)])
    } else {
        None
    }
}

/// `tlvs` without its first record with tag `tag`; the records behind it
/// move up by one. `tlvs` itself where no record has the tag.
pub open spec fn without_first(tlvs: Seq<Tlv>, tag: TlvTag) -> Seq<Tlv> {
    if has_tag(tlvs, tag) {
        tlvs.remove(first_index(tlvs, tag))
    } else {
        tlvs
    }
}

/// The short-message field after a record was added and `tlvs` are now
/// held: empty where the PDU has the field and a message payload is among
/// the records, as it was elsewhere.
pub open spec fn short_message_after_push(before: Option<Seq<u8>>, tlvs: Seq<Tlv>) -> Option<
    Seq<u8>,
> {
    if before is Some && has_tag(tlvs, TlvTag::MessagePayload) {
        Some(Seq::empty())
    } else {
        before
    }
}

/// A position that is first with a tag is the one that `first_index` names.
pub proof fn lemma_first_index(tlvs: Seq<Tlv>, tag: TlvTag, at: int)
    requires
        is_first_with_tag(tlvs, tag, at),
    ensures
        has_tag(tlvs, tag),
        first_index(tlvs, tag) == at,
        first_with_tag(tlvs, tag) == Some(tlvs[at]),
        without_first(tlvs, tag) == tlvs.remove(at),
{
    let chosen = first_index(tlvs, tag);
    assert(is_first_with_tag(tlvs, tag, chosen));
    if chosen < at {
        assert(tlvs[chosen]@.tag != tag);
    } else if at < chosen {
        assert(tlvs[at]@.tag != tag);
    }
}

/// Below a record with tag `tag` stands a first one.
proof fn lemma_first_exists(tlvs: Seq<Tlv>, tag: TlvTag, at: int)
    requires
        0 <= at < tlvs.len(),
        tlvs[at]@.tag == tag,
    ensures
        exists|first: int| is_first_with_tag(tlvs, tag, first),
    decreases at,
{
    if exists|before: int| 0 <= before < at && (#[trigger] tlvs[before])@.tag == tag {
        let before = choose|before: int| 0 <= before < at && (#[trigger] tlvs[before])@.tag == tag;
        lemma_first_exists(tlvs, tag, before);
    } else {
        assert(is_first_with_tag(tlvs, tag, at));
    }
}

/// Where a tag is present, `first_index` names its first record.
pub proof fn law_present_tag_has_first(tlvs: Seq<Tlv>, tag: TlvTag)
    requires
        has_tag(tlvs, tag),
    ensures
        is_first_with_tag(tlvs, tag, first_index(tlvs, tag)),
        first_with_tag(tlvs, tag) matches Some(tlv) && tlv@.tag == tag,
        without_first(tlvs, tag).len() == tlvs.len() - 1,
{
    let at = choose|at: int| 0 <= at < tlvs.len() && (#[trigger] tlvs[at])@.tag == tag;
    lemma_first_exists(tlvs, tag, at);
}

/// Records come out in the order in which they were pushed.
pub proof fn law_push_keeps_order(tlvs: Seq<Tlv>, first: Tlv, second: Tlv, third: Tlv)
    ensures
        tlvs.push(first).push(second).push(third) == tlvs + seq![first, second, third],
        Seq::<Tlv>::empty().push(first).push(second).push(third) == seq![first, second, third],
{
    assert(tlvs.push(first).push(second).push(third) =~= tlvs + seq![first, second, third]);
    assert(Seq::<Tlv>::empty().push(first).push(second).push(third) =~= seq![
        first,
        second,
        third,
    ]);
}

/// After a record is pushed its tag is present. It is the record that a
/// lookup by its tag finds unless an earlier record has the same tag: then
/// the lookup still finds what it found before.
pub proof fn law_push_then_get(tlvs: Seq<Tlv>, tlv: Tlv)
    ensures
        has_tag(tlvs.push(tlv), tlv@.tag),
        !has_tag(tlvs, tlv@.tag) ==> first_with_tag(tlvs.push(tlv), tlv@.tag) == Some(tlv),
        has_tag(tlvs, tlv@.tag) ==> first_with_tag(tlvs.push(tlv), tlv@.tag) == first_with_tag(
            tlvs,
            tlv@.tag,
        ),
{
    let tag = tlv@.tag;
    let pushed = tlvs.push(tlv);
    if has_tag(tlvs, tag) {
        law_present_tag_has_first(tlvs, tag);
        let at = first_index(tlvs, tag);
        assert forall|before: int| 0 <= before < at implies (#[trigger] pushed[before])@.tag
            != tag by {
            assert(pushed[before] == tlvs[before]);
        }
        assert(pushed[at] == tlvs[at]);
        lemma_first_index(pushed, tag, at);
    } else {
        let at = tlvs.len() as int;
        assert(pushed[at] == tlv);
        assert forall|before: int| 0 <= before < at implies (#[trigger] pushed[before])@.tag
            != tag by {
            assert(pushed[before] == tlvs[before]);
        }
        lemma_first_index(pushed, tag, at);
    }
}

/// Where no record had the tag of the one pushed, removing by that tag gives
/// the pushed record back and leaves the records as they were: the tag is
/// absent again, and a second removal finds nothing.
pub proof fn law_push_then_remove(tlvs: Seq<Tlv>, tlv: Tlv)
    requires
        !has_tag(tlvs, tlv@.tag),
    ensures
        first_with_tag(tlvs.push(tlv), tlv@.tag) == Some(tlv),
        without_first(tlvs.push(tlv), tlv@.tag) == tlvs,
        !has_tag(without_first(tlvs.push(tlv), tlv@.tag), tlv@.tag),
        first_with_tag(without_first(tlvs.push(tlv), tlv@.tag), tlv@.tag) is None,
{
    law_push_then_get(tlvs, tlv);
    let tag = tlv@.tag;
    let pushed = tlvs.push(tlv);
    let at = tlvs.len() as int;
    assert(pushed[at] == tlv);
    assert forall|before: int| 0 <= before < at implies (#[trigger] pushed[before])@.tag
        != tag by {
        assert(pushed[before] == tlvs[before]);
    }
    lemma_first_index(pushed, tag, at);
    assert(pushed.remove(at) =~= tlvs);
}

/// Removing by a tag takes out one record with that tag and keeps the
/// others in their order; the tag is absent afterwards exactly if no second
/// record had it.
pub proof fn law_remove_takes_first(tlvs: Seq<Tlv>, tag: TlvTag)
    requires
        has_tag(tlvs, tag),
    ensures
        without_first(tlvs, tag) == tlvs.subrange(0, first_index(tlvs, tag)) + tlvs.subrange(
            first_index(tlvs, tag) + 1,
            tlvs.len() as int,
        ),
        has_tag(without_first(tlvs, tag), tag) <==> exists|later: int|
            first_index(tlvs, tag) < later < tlvs.len() && (#[trigger] tlvs[later])@.tag == tag,
{
    law_present_tag_has_first(tlvs, tag);
    let at = first_index(tlvs, tag);
    let rest = tlvs.remove(at);
    assert(rest =~= tlvs.subrange(0, at) + tlvs.subrange(at + 1, tlvs.len() as int));
    if has_tag(rest, tag) {
        let found = choose|found: int| 0 <= found < rest.len() && (#[trigger] rest[found])@.tag == tag;
        if found < at {
            assert(rest[found] == tlvs[found]);
        } else {
            assert(rest[found] == tlvs[found + 1]);
        }
    }
    if exists|later: int| at < later < tlvs.len() && (#[trigger] tlvs[later])@.tag == tag {
        let later = choose|later: int| at < later < tlvs.len() && (#[trigger] tlvs[later])@.tag == tag;
        assert(rest[later - 1] == tlvs[later]);
    }
}

/// No tag is present among no records.
pub proof fn law_empty_has_no_tag(tag: TlvTag)
    ensures
        !has_tag(Seq::<Tlv>::empty(), tag),
        first_with_tag(Seq::<Tlv>::empty(), tag) is None,
        without_first(Seq::<Tlv>::empty(), tag) == Seq::<Tlv>::empty(),
{
}

/// The position of the first record with tag `tag` among `tlvs`.
pub fn position_of_tag(tlvs: &[Tlv], tag: TlvTag) -> (position: Option<usize>)
    ensures
        match position {
            Some(at) => is_first_with_tag(tlvs@, tag, at as int),
            None => !has_tag(tlvs@, tag),
        },
{
    let mut at: usize = 0;
    while at < tlvs.len()
        invariant
            at <= tlvs@.len(),
            forall|before: int| 0 <= before < at ==> (#[trigger] tlvs@[before])@.tag != tag,
        decreases tlvs@.len() - at,
    {
        if tlvs[at].tag() == tag {
            return Some(at);
        }
        at = at + 1;
    }
    None
}

/// The first record with tag `tag` among `tlvs`.
pub fn find_tlv(tlvs: &[Tlv], tag: TlvTag) -> (found: Option<&Tlv>)
    ensures
        match found {
            Some(tlv) => first_with_tag(tlvs@, tag) == Some(*tlv) && tlv@.tag == tag,
            None => first_with_tag(tlvs@, tag) is None,
        },
        found is Some <==> has_tag(tlvs@, tag),
{
    match position_of_tag(tlvs, tag) {
        Some(at) => {
            proof {
                lemma_first_index(tlvs@, tag, at as int);
            }
            Some(&tlvs[at])
        },
        None => None,
    }
}

/// Takes the first record with tag `tag` out of `tlvs` and returns it; the
/// records behind it move up by one.
pub fn take_tlv(tlvs: &mut Vec<Tlv>, tag: TlvTag) -> (removed: Option<Tlv>)
    ensures
        removed == first_with_tag(old(tlvs)@, tag),
        removed is Some <==> has_tag(old(tlvs)@, tag),
        removed matches Some(tlv) ==> tlv@.tag == tag,
        final(tlvs)@ == without_first(old(tlvs)@, tag),
{
    match position_of_tag(tlvs.as_slice(), tag) {
        Some(at) => {
            proof {
                lemma_first_index(tlvs@, tag, at as int);
            }
            Some(tlvs.remove(at))
        },
        None => None,
    }
}

/// Whether a message payload is among `tlvs`.
pub fn holds_message_payload(tlvs: &[Tlv]) -> (holds: bool)
    ensures
        holds == has_tag(tlvs@, TlvTag::MessagePayload),
{
    position_of_tag(tlvs, TlvTag::MessagePayload).is_some()
}

/// What a PDU that carries optional parameters offers: an ordered sequence
/// of TLVs that tolerates duplicates, to which records are added at the end
/// and in which they are found and removed by tag, first match first.
///
/// A PDU kind that also has a short-message field keeps the two carriers of
/// message content apart: once a message payload is among its TLVs, adding a
/// record leaves the short message empty. Removing records never brings a
/// cleared short message back.
pub trait TlvContainer {
    /// The records held, in the order in which they were added.
    spec fn tlvs(&self) -> Seq<Tlv>;

    /// The short-message field, for a PDU kind that has one.
    spec fn spec_short_message(&self) -> Option<Seq<u8>>;

    /// Adds `tlv` behind the records held, whatever its tag.
    fn push_tlv_raw(&mut self, tlv: Tlv)
        ensures
            final(self).tlvs() == old(self).tlvs().push(tlv),
            has_tag(final(self).tlvs(), tlv@.tag),
            !has_tag(old(self).tlvs(), tlv@.tag) ==> first_with_tag(final(self).tlvs(), tlv@.tag)
                == Some(tlv),
            final(self).spec_short_message() == short_message_after_push(
                old(self).spec_short_message(),
                final(self).tlvs(),
            ),
            old(self).spec_short_message() is Some && tlv@.tag == TlvTag::MessagePayload
                ==> final(self).spec_short_message() == Some(Seq::<u8>::empty()),
    ;

    /// The first record with tag `tag`.
    fn get_tlv(&self, tag: TlvTag) -> (found: Option<&Tlv>)
        ensures
            match found {
                Some(tlv) => first_with_tag(self.tlvs(), tag) == Some(*tlv) && tlv@.tag == tag,
                None => first_with_tag(self.tlvs(), tag) is None,
            },
            found is Some <==> has_tag(self.tlvs(), tag),
    ;

    /// All records, in order.
    fn get_tlvs(&self) -> (all: &[Tlv])
        ensures
            all@ == self.tlvs(),
    ;

    /// The sequence itself, to be changed in place. What is done to it here
    /// has no side effect on the rest of the PDU.
    fn get_tlvs_mut(&mut self) -> (all: &mut Vec<Tlv>)
        ensures
            all@ == old(self).tlvs(),
            final(self).tlvs() == final(all)@,
            final(self).spec_short_message() == old(self).spec_short_message(),
    ;

    /// Takes out the first record with tag `tag` and returns it. The records
    /// behind it move up; the rest of the PDU stays as it is.
    fn remove_tlv(&mut self, tag: TlvTag) -> (removed: Option<Tlv>)
        ensures
            removed == first_with_tag(old(self).tlvs(), tag),
            removed is Some <==> has_tag(old(self).tlvs(), tag),
            removed matches Some(tlv) ==> tlv@.tag == tag,
            final(self).tlvs() == without_first(old(self).tlvs(), tag),
            final(self).spec_short_message() == old(self).spec_short_message(),
    ;

    /// Whether a record with tag `tag` is held.
    fn has_tlv(&self, tag: TlvTag) -> (held: bool)
        ensures
            held == has_tag(self.tlvs(), tag),
            held == (first_with_tag(self.tlvs(), tag) is Some),
    {
        self.get_tlv(tag).is_some()
    }

    /// Takes out all records. The rest of the PDU stays as it is.
    fn clear_tlvs(&mut self)
        ensures
            final(self).tlvs() == Seq::<Tlv>::empty(),
            forall|tag: TlvTag| !has_tag(final(self).tlvs(), tag),
            final(self).spec_short_message() == old(self).spec_short_message(),
    {
        self.get_tlvs_mut().clear();
    }
}

} // verus!
