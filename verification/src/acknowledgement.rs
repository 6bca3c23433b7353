use crate::error::{AMQPError, Error};
use crate::protocol::{precondition_failed_code, precondition_failed_id};
use vstd::prelude::*;

verus! {

pub type DeliveryTag = u64;

/// How a publish was settled.
#[derive(Clone, Copy, Debug, PartialEq, Eq, Structural)]
pub enum Confirmation {
    Ack,
    Nack,
    /// The channel failed or closed before the broker answered.
    ChannelError,
}

/// One settled publish.
#[derive(Clone, Copy, Debug, PartialEq, Eq, Structural)]
pub struct Resolution {
    pub delivery_tag: DeliveryTag,
    pub confirmation: Confirmation,
}

/// Which pending publishes an acknowledgement addresses.
#[derive(Clone, Copy, Debug, PartialEq, Eq, Structural)]
pub enum Selection {
    /// The publish with exactly this tag.
    Exactly(DeliveryTag),
    /// Every publish with a tag up to and including this one.
    UpTo(DeliveryTag),
    /// Every publish.
    All,
}

impl Selection {
    pub open spec fn selects(self, tag: DeliveryTag) -> bool {
        match self {
            Selection::Exactly(t) => tag == t,
            Selection::UpTo(t) => tag <= t,
            Selection::All => true,
        }
    }

    pub fn covers(&self, tag: DeliveryTag) -> (r: bool)
        ensures
            r == self.selects(tag),
    {
        match self {
            Selection::Exactly(t) => tag == *t,
            Selection::UpTo(t) => tag <= *t,
            Selection::All => true,
        }
    }
}

/// The tags of `pending` that `selection` leaves pending, in order.
pub open spec fn kept(pending: Seq<DeliveryTag>, selection: Selection) -> Seq<DeliveryTag>
    decreases pending.len(),
{
    if pending.len() == 0 {
        Seq::empty()
    } else if selection.selects(pending.last()) {
        kept(pending.drop_last(), selection)
    } else {
        kept(pending.drop_last(), selection).push(pending.last())
    }
}

/// The resolutions that `selection` makes of `pending`, in order, each with
/// `confirmation`.
pub open spec fn settled(
    pending: Seq<DeliveryTag>,
    selection: Selection,
    confirmation: Confirmation,
) -> Seq<Resolution>
    decreases pending.len(),
{
    if pending.len() == 0 {
        Seq::empty()
    } else if selection.selects(pending.last()) {
        settled(pending.drop_last(), selection, confirmation).push(
            Resolution { delivery_tag: pending.last(), confirmation },
        )
    } else {
        settled(pending.drop_last(), selection, confirmation)
    }
}

/// Publisher-confirm registry of one channel: the publishes that await the
/// broker's answer, and the log of those that were settled.
pub struct Acknowledgements {
    pub pending: Vec<DeliveryTag>,
    pub resolved: Vec<Resolution>,
    /// The error that closed the channel, once it has.
    pub channel_error: Option<Error>,
}

impl Acknowledgements {
    /// No tag is pending twice.
    pub open spec fn wf(self) -> bool {
        self.pending@.no_duplicates()
    }

    pub fn new() -> (r: Self)
        ensures
            r.pending@.len() == 0,
            r.resolved@.len() == 0,
            r.channel_error is None,
            r.wf(),
    {
        Acknowledgements { pending: Vec::new(), resolved: Vec::new(), channel_error: None }
    }

    /// Registers a publish that awaits its confirmation. A tag that is
    /// already pending is not registered twice.
    pub fn register_pending(&mut self, delivery_tag: DeliveryTag)
        ensures
            final(self).pending@ == if old(self).pending@.contains(delivery_tag) {
                old(self).pending@
            } else {
                old(self).pending@.push(delivery_tag)
            },
            final(self).resolved == old(self).resolved,
            final(self).channel_error == old(self).channel_error,
            old(self).wf() ==> final(self).wf(),
    {
        let mut i: usize = 0;
        while i < self.pending.len()
            invariant
                i <= self.pending.len(),
                *self == *old(self),
                forall|j: int| 0 <= j < i ==> self.pending@[j] != delivery_tag,
            decreases self.pending.len() - i,
        {
            if self.pending[i] == delivery_tag {
                return ;
            }
            i += 1;
        }
        self.pending.push(delivery_tag);
    }

    /// Whether a publish with this tag awaits its confirmation.
    pub fn is_pending(&self, delivery_tag: DeliveryTag) -> (r: bool)
        ensures
            r == self.pending@.contains(delivery_tag),
    {
        let mut i: usize = 0;
        while i < self.pending.len()
            invariant
                i <= self.pending.len(),
                forall|j: int| 0 <= j < i ==> self.pending@[j] != delivery_tag,
            decreases self.pending.len() - i,
        {
            if self.pending[i] == delivery_tag {
                return true;
            }
            i += 1;
        }
        false
    }

    /// The tag registered last among those still pending.
    pub fn get_last_pending(&self) -> (r: Option<DeliveryTag>)
        ensures
            r == if self.pending@.len() == 0 {
                None
            } else {
                Some(self.pending@.last())
            },
    {
        if self.pending.len() == 0 {
            None
        } else {
            Some(self.pending[self.pending.len() - 1])
        }
    }

    /// Settles every pending publish that `selection` addresses with
    /// `confirmation`, and returns how many there were.
    pub fn resolve(&mut self, selection: Selection, confirmation: Confirmation) -> (n: usize)
        ensures
            final(self).pending@ == kept(old(self).pending@, selection),
            final(self).resolved@ == old(self).resolved@ + settled(
                old(self).pending@,
                selection,
                confirmation,
            ),
            n == settled(old(self).pending@, selection, confirmation).len(),
            final(self).channel_error == old(self).channel_error,
            old(self).wf() ==> final(self).wf(),
    {
        let mut remaining: Vec<DeliveryTag> = Vec::new();
        let mut n: usize = 0;
        let mut i: usize = 0;
        while i < self.pending.len()
            invariant
                i <= self.pending.len(),
                self.pending == old(self).pending,
                self.channel_error == old(self).channel_error,
                remaining@ == kept(self.pending@.take(i as int), selection),
                self.resolved@ == old(self).resolved@ + settled(
                    self.pending@.take(i as int),
                    selection,
                    confirmation,
                ),
                n == settled(self.pending@.take(i as int), selection, confirmation).len(),
                n <= i,
            decreases self.pending.len() - i,
        {
            let tag = self.pending[i];
            proof {
                let next = self.pending@.take(i + 1);
                assert(next.drop_last() == self.pending@.take(i as int));
                assert(next.last() == tag);
            }
            if selection.covers(tag) {
                self.resolved.push(Resolution { delivery_tag: tag, confirmation });
                n += 1;
                proof {
                    let before = settled(self.pending@.take(i as int), selection, confirmation);
                    assert(self.resolved@ == old(self).resolved@ + before.push(
                        Resolution { delivery_tag: tag, confirmation },
                    ));
                }
            } else {
                remaining.push(tag);
            }
            i += 1;
        }
        proof {
            assert(self.pending@.take(i as int) == self.pending@);
            if old(self).wf() {
                lemma_settled_once(old(self).pending@, selection, confirmation);
            }
        }
        self.pending = remaining;
        n
    }

    /// The broker acknowledged the publish with this tag.
    pub fn ack(&mut self, delivery_tag: DeliveryTag) -> (r: Result<(), AMQPError>)
        ensures
            Self::settles(*old(self), *final(self), Selection::Exactly(delivery_tag), Confirmation::Ack),
            r is Ok == old(self).pending@.contains(delivery_tag),
            r is Err ==> r->Err_0.code == precondition_failed_code(),
    {
        let known = self.is_pending(delivery_tag);
        self.resolve(Selection::Exactly(delivery_tag), Confirmation::Ack);
        Self::known_or_error(known)
    }

    /// The broker refused the publish with this tag.
    pub fn nack(&mut self, delivery_tag: DeliveryTag) -> (r: Result<(), AMQPError>)
        ensures
            Self::settles(*old(self), *final(self), Selection::Exactly(delivery_tag), Confirmation::Nack),
            r is Ok == old(self).pending@.contains(delivery_tag),
            r is Err ==> r->Err_0.code == precondition_failed_code(),
    {
        let known = self.is_pending(delivery_tag);
        self.resolve(Selection::Exactly(delivery_tag), Confirmation::Nack);
        Self::known_or_error(known)
    }

    /// The broker acknowledged every publish up to this tag.
    pub fn ack_all_before(&mut self, delivery_tag: DeliveryTag)
        ensures
            Self::settles(*old(self), *final(self), Selection::UpTo(delivery_tag), Confirmation::Ack),
    {
        self.resolve(Selection::UpTo(delivery_tag), Confirmation::Ack);
    }

    /// The broker refused every publish up to this tag.
    pub fn nack_all_before(&mut self, delivery_tag: DeliveryTag)
        ensures
            Self::settles(*old(self), *final(self), Selection::UpTo(delivery_tag), Confirmation::Nack),
    {
        self.resolve(Selection::UpTo(delivery_tag), Confirmation::Nack);
    }

    /// The broker acknowledged every pending publish.
    pub fn ack_all_pending(&mut self)
        ensures
            Self::settles(*old(self), *final(self), Selection::All, Confirmation::Ack),
    {
        self.resolve(Selection::All, Confirmation::Ack);
    }

    /// The broker refused every pending publish.
    pub fn nack_all_pending(&mut self)
        ensures
            Self::settles(*old(self), *final(self), Selection::All, Confirmation::Nack),
    {
        self.resolve(Selection::All, Confirmation::Nack);
    }

    /// The channel failed or closed: every pending publish is settled with
    /// the channel's error, which is kept.
    pub fn on_channel_error(&mut self, error: Error)
        ensures
            final(self).pending@ == kept(old(self).pending@, Selection::All),
            final(self).resolved@ == old(self).resolved@ + settled(
                old(self).pending@,
                Selection::All,
                Confirmation::ChannelError,
            ),
            final(self).channel_error == Some(error),
            final(self).pending@.len() == 0,
    {
        proof {
            lemma_all_keeps_none(old(self).pending@, Confirmation::ChannelError);
        }
        self.resolve(Selection::All, Confirmation::ChannelError);
        self.channel_error = Some(error);
    }

    /// Hands out the log of settled publishes and empties it.
    pub fn drain_resolved(&mut self) -> (r: Vec<Resolution>)
        ensures
            r@ == old(self).resolved@,
            final(self).resolved@.len() == 0,
            final(self).pending == old(self).pending,
            final(self).channel_error == old(self).channel_error,
    {
        let mut out: Vec<Resolution> = Vec::new();
        std::mem::swap(&mut out, &mut self.resolved);
        out
    }

    /// `after` is `before` with the publishes that `selection` addresses
    /// moved from the pending ones to the log, each with `confirmation`.
    pub open spec fn settles(
        before: Self,
        after: Self,
        selection: Selection,
        confirmation: Confirmation,
    ) -> bool {
        &&& after.pending@ == kept(before.pending@, selection)
        &&& after.resolved@ == before.resolved@ + settled(before.pending@, selection, confirmation)
        &&& after.channel_error == before.channel_error
        &&& before.wf() ==> after.wf()
    }

    fn known_or_error(known: bool) -> (r: Result<(), AMQPError>)
        ensures
            r is Ok == known,
            r is Err ==> r->Err_0.code == precondition_failed_code(),
    {
        if known {
            Ok(())
        } else {
            Err(AMQPError { code: precondition_failed_id(), message: String::new() })
        }
    }
}

/// A tag is left pending exactly when it was pending and the selection
/// does not address it; it is settled exactly when it was pending and the
/// selection addresses it. So no pending publish is lost, and none is
/// both settled and left pending.
pub proof fn lemma_selection_partitions(
    pending: Seq<DeliveryTag>,
    selection: Selection,
    confirmation: Confirmation,
    tag: DeliveryTag,
)
    ensures
        kept(pending, selection).contains(tag) <==> pending.contains(tag) && !selection.selects(tag),
        settled(pending, selection, confirmation).contains(
            Resolution { delivery_tag: tag, confirmation },
        ) <==> pending.contains(tag) && selection.selects(tag),
        kept(pending, selection).len() + settled(pending, selection, confirmation).len()
            == pending.len(),
    decreases pending.len(),
{
    let k = kept(pending, selection);
    let s = settled(pending, selection, confirmation);
    let res = Resolution { delivery_tag: tag, confirmation };
    if pending.len() > 0 {
        let front = pending.drop_last();
        let last = pending.last();
        lemma_selection_partitions(front, selection, confirmation, tag);
        let kf = kept(front, selection);
        let sf = settled(front, selection, confirmation);
        assert(pending.contains(tag) <==> front.contains(tag) || last == tag) by {
            if pending.contains(tag) {
                let i = choose|i: int| 0 <= i < pending.len() && pending[i] == tag;
                if i < pending.len() - 1 {
                    assert(front[i] == tag);
                }
            }
            if front.contains(tag) {
                let i = choose|i: int| 0 <= i < front.len() && front[i] == tag;
                assert(pending[i] == tag);
            }
            if last == tag {
                assert(pending[pending.len() - 1] == tag);
            }
        }
        if selection.selects(last) {
            let r = Resolution { delivery_tag: last, confirmation };
            assert(s == sf.push(r));
            assert(s.contains(res) <==> sf.contains(res) || r == res) by {
                if s.contains(res) {
                    let i = choose|i: int| 0 <= i < s.len() && s[i] == res;
                    if i < sf.len() {
                        assert(sf[i] == res);
                    }
                }
                if sf.contains(res) {
                    let i = choose|i: int| 0 <= i < sf.len() && sf[i] == res;
                    assert(s[i] == res);
                }
                if r == res {
                    assert(s[s.len() - 1] == res);
                }
            }
        } else {
            assert(k == kf.push(last));
            assert(k.contains(tag) <==> kf.contains(tag) || last == tag) by {
                if k.contains(tag) {
                    let i = choose|i: int| 0 <= i < k.len() && k[i] == tag;
                    if i < kf.len() {
                        assert(kf[i] == tag);
                    }
                }
                if kf.contains(tag) {
                    let i = choose|i: int| 0 <= i < kf.len() && kf[i] == tag;
                    assert(k[i] == tag);
                }
                if last == tag {
                    assert(k[k.len() - 1] == tag);
                }
            }
        }
    }
}

/// While no tag is pending twice, which registering keeps so, no tag is
/// left pending twice and none is settled twice: together with
/// `lemma_selection_partitions`, every pending publish is either left
/// pending once or settled once, never both.
pub proof fn lemma_settled_once(
    pending: Seq<DeliveryTag>,
    selection: Selection,
    confirmation: Confirmation,
)
    requires
        pending.no_duplicates(),
    ensures
        kept(pending, selection).no_duplicates(),
        settled(pending, selection, confirmation).no_duplicates(),
    decreases pending.len(),
{
    if pending.len() > 0 {
        let front = pending.drop_last();
        let last = pending.last();
        assert(front.no_duplicates());
        assert(!front.contains(last)) by {
            if front.contains(last) {
                let i = choose|i: int| 0 <= i < front.len() && front[i] == last;
                assert(pending[i] == pending[pending.len() - 1]);
            }
        }
        lemma_settled_once(front, selection, confirmation);
        lemma_selection_partitions(front, selection, confirmation, last);
        let k = kept(pending, selection);
        let s = settled(pending, selection, confirmation);
        let kf = kept(front, selection);
        let sf = settled(front, selection, confirmation);
        if selection.selects(last) {
            let r = Resolution { delivery_tag: last, confirmation };
            assert(s == sf.push(r));
            assert forall|i: int, j: int| 0 <= i < s.len() && 0 <= j < s.len() && i != j implies s[i]
                != s[j] by {
                if i == sf.len() && sf[j] == r {
                    assert(sf.contains(r));
                }
                if j == sf.len() && sf[i] == r {
                    assert(sf.contains(r));
                }
            }
        } else {
            assert(k == kf.push(last));
            assert forall|i: int, j: int| 0 <= i < k.len() && 0 <= j < k.len() && i != j implies k[i]
                != k[j] by {
                if i == kf.len() && kf[j] == last {
                    assert(kf.contains(last));
                }
                if j == kf.len() && kf[i] == last {
                    assert(kf.contains(last));
                }
            }
        }
    }
}

/// A cumulative acknowledgement up to `tag` settles every pending publish
/// whose tag is at most `tag` and leaves none of them pending; one that
/// addresses all settles every pending publish and leaves none.
pub proof fn lemma_cumulative_settles_all_before(
    pending: Seq<DeliveryTag>,
    tag: DeliveryTag,
    confirmation: Confirmation,
)
    ensures
        forall|t: DeliveryTag| #[trigger]
            pending.contains(t) && t <= tag ==> settled(
                pending,
                Selection::UpTo(tag),
                confirmation,
            ).contains(Resolution { delivery_tag: t, confirmation }) && !kept(
                pending,
                Selection::UpTo(tag),
            ).contains(t),
        forall|t: DeliveryTag| #[trigger]
            pending.contains(t) ==> settled(pending, Selection::All, confirmation).contains(
                Resolution { delivery_tag: t, confirmation },
            ),
        kept(pending, Selection::All).len() == 0,
        settled(pending, Selection::All, confirmation).len() == pending.len(),
{
    assert forall|t: DeliveryTag| #[trigger] pending.contains(t) && t <= tag implies settled(
        pending,
        Selection::UpTo(tag),
        confirmation,
    ).contains(Resolution { delivery_tag: t, confirmation }) && !kept(
        pending,
        Selection::UpTo(tag),
    ).contains(t) by {
        lemma_selection_partitions(pending, Selection::UpTo(tag), confirmation, t);
    }
    assert forall|t: DeliveryTag| #[trigger] pending.contains(t) implies settled(
        pending,
        Selection::All,
        confirmation,
    ).contains(Resolution { delivery_tag: t, confirmation }) by {
        lemma_selection_partitions(pending, Selection::All, confirmation, t);
    }
    lemma_all_keeps_none(pending, confirmation);
}

/// Addressing all pending publishes leaves none pending and settles each
/// once, in the order in which they were registered.
pub proof fn lemma_all_keeps_none(pending: Seq<DeliveryTag>, confirmation: Confirmation)
    ensures
        kept(pending, Selection::All).len() == 0,
        settled(pending, Selection::All, confirmation).len() == pending.len(),
        forall|i: int|
            0 <= i < pending.len() ==> (#[trigger] settled(
                pending,
                Selection::All,
                confirmation,
            )[i]) == (Resolution { delivery_tag: pending[i], confirmation }),
    decreases pending.len(),
{
    if pending.len() > 0 {
        lemma_all_keeps_none(pending.drop_last(), confirmation);
    }
}

} // verus!
