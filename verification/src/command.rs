use vstd::prelude::*;

use core::marker::PhantomData;

use crate::error::ErrorKind;
use crate::object::{same_state, Bot, Object};

verus! {

/// The lifecycle state of one command instance. `Done` and `Failed` are
/// terminal: a command is single-use.
#[derive(Clone, Copy, Debug, PartialEq, Eq, Structural)]
pub enum Phase {
    Created,
    Locked,
    Done,
    Failed,
}

/// A single-use, two-phase unit of work over a source and a destination
/// entity: `initialize` acquires whatever exclusive access the command
/// needs, `consume` performs the effect exactly once and releases it.
///
/// The driver owns the entities and hands the command exclusive structural
/// access to them for the duration of each phase; the command's claim
/// between the phases is the entities' logical lock flag.
pub trait Command: Sized {
    type Src: Object;

    type Dst: Object;

    /// Whether the command is freshly created and may still be initialized.
    spec fn is_fresh(&self) -> bool;

    /// Whether initialization succeeded and the effect is still owed.
    spec fn is_ready(&self) -> bool;

    /// The endpoint pre-states from which acquisition succeeds.
    spec fn acquire_ok(from: Self::Src, to: Self::Dst) -> bool;

    /// The exact outcome of `initialize` on the endpoints.
    spec fn init_post(
        pre_from: Self::Src,
        pre_to: Self::Dst,
        post_from: Self::Src,
        post_to: Self::Dst,
        r: Result<(), ErrorKind>,
    ) -> bool;

    /// The exact outcome of `consume` on the endpoints.
    spec fn consume_post(
        pre_from: Self::Src,
        pre_to: Self::Dst,
        post_from: Self::Src,
        post_to: Self::Dst,
        r: Result<bool, ErrorKind>,
    ) -> bool;

    /// Acquires exclusive logical access to both endpoints. A failed
    /// acquisition leaves no observable effect on either endpoint.
    fn initialize(&mut self, from: &mut Self::Src, to: &mut Self::Dst) -> (r: Result<
        (),
        ErrorKind,
    >)
        requires
            old(self).is_fresh(),
        ensures
            Self::init_post(*old(from), *old(to), *final(from), *final(to), r),
            r is Ok <==> Self::acquire_ok(*old(from), *old(to)),
            r is Ok ==> final(self).is_ready() && final(from).is_locked() && final(to).is_locked(),
            r is Err ==> same_state(*final(from), *old(from)) && same_state(*final(to), *old(to))
                && !final(self).is_ready(),
            !final(self).is_fresh(),
    ;

    /// Performs the effect exactly once, releases both endpoints, and
    /// reports whether the command wishes to run again (`false` means the
    /// command is complete and must not be rescheduled).
    fn consume(&mut self, from: &mut Self::Src, to: &mut Self::Dst) -> (r: Result<bool, ErrorKind>)
        requires
            old(self).is_ready(),
            old(from).is_locked(),
            old(to).is_locked(),
        ensures
            Self::consume_post(*old(from), *old(to), *final(from), *final(to), r),
            r is Ok ==> !final(from).is_locked() && !final(to).is_locked(),
            !final(self).is_fresh() && !final(self).is_ready(),
    ;
}

/// The concrete command that locks a source and a destination entity and
/// atomically exchanges their full storage contents.
pub struct TransferCommand<F: Object, T: Object> {
    phase: Phase,
    endpoints: PhantomData<(F, T)>,
}

impl<F: Object, T: Object> TransferCommand<F, T> {
    /// A fresh transfer command between a source of type `F` and a
    /// destination of type `T`.
    pub fn new() -> (c: TransferCommand<F, T>)
        ensures
            c.is_fresh(),
    {
        TransferCommand { phase: Phase::Created, endpoints: PhantomData }
    }
}

impl<F: Object, T: Object> Command for TransferCommand<F, T> {
    type Src = F;

    type Dst = T;

    closed spec fn is_fresh(&self) -> bool {
        self.phase == Phase::Created
    }

    closed spec fn is_ready(&self) -> bool {
        self.phase == Phase::Locked
    }

    /// Acquisition succeeds exactly when neither endpoint is already held.
    open spec fn acquire_ok(from: F, to: T) -> bool {
        !from.is_locked() && !to.is_locked()
    }

    /// On success both endpoints come out locked and otherwise untouched;
    /// on contention the command reports `AlreadyLocked` and leaves both
    /// endpoints exactly as they were (a lock taken before the failure is
    /// rolled back).
    open spec fn init_post(
        pre_from: F,
        pre_to: T,
        post_from: F,
        post_to: T,
        r: Result<(), ErrorKind>,
    ) -> bool {
        if !pre_from.is_locked() && !pre_to.is_locked() {
            &&& r == Ok::<(), ErrorKind>(())
            &&& post_from.is_locked()
            &&& post_to.is_locked()
            &&& post_from.id_view() == pre_from.id_view()
            &&& post_from.items() == pre_from.items()
            &&& post_from.loc() == pre_from.loc()
            &&& post_to.id_view() == pre_to.id_view()
            &&& post_to.items() == pre_to.items()
            &&& post_to.loc() == pre_to.loc()
        } else {
            &&& r == Err::<(), ErrorKind>(ErrorKind::AlreadyLocked)
            &&& same_state(post_from, pre_from)
            &&& same_state(post_to, pre_to)
        }
    }

    /// A completed transfer always succeeds, never reschedules, swaps the
    /// two storages whole — order kept, nothing lost, nothing duplicated —
    /// and leaves both endpoints unlocked, with identity and location
    /// untouched.
    open spec fn consume_post(
        pre_from: F,
        pre_to: T,
        post_from: F,
        post_to: T,
        r: Result<bool, ErrorKind>,
    ) -> bool {
        &&& r == Ok::<bool, ErrorKind>(false)
        &&& post_from.items() == pre_to.items()
        &&& post_to.items() == pre_from.items()
        &&& !post_from.is_locked()
        &&& !post_to.is_locked()
        &&& post_from.id_view() == pre_from.id_view()
        &&& post_to.id_view() == pre_to.id_view()
        &&& post_from.loc() == pre_from.loc()
        &&& post_to.loc() == pre_to.loc()
    }

    fn initialize(&mut self, from: &mut F, to: &mut T) -> (r: Result<(), ErrorKind>) {
        match from.lock() {
            Ok(()) => {},
            Err(err) => {
                self.phase = Phase::Failed;
                return Err(err);
            },
        }
        match to.lock() {
            Ok(()) => {
                self.phase = Phase::Locked;
                Ok(())
            },
            Err(err) => {
                // The second acquisition failed: give the first endpoint
                // back, so that a failed initialize holds nothing.
                let _ = from.unlock();
                self.phase = Phase::Failed;
                Err(err)
            },
        }
    }

    fn consume(&mut self, from: &mut F, to: &mut T) -> (r: Result<bool, ErrorKind>) {
        {
            let from_storage = from.get_storage();
            let to_storage = to.get_storage();
            core::mem::swap(&mut from_storage.items, &mut to_storage.items);
        }
        from.unlock().unwrap();
        to.unlock().unwrap();
        self.phase = Phase::Done;
        Ok(false)
    }
}

/// Builds a transfer whose source is the mobile agent: the bot hands its
/// contents to the destination object. A naming convenience only; the
/// command behaves exactly as the generic constructor's.
pub struct BotTransferToCommand {}

impl BotTransferToCommand {
    /// A fresh transfer command from a bot to any object.
    pub fn new<T: Object>() -> (c: TransferCommand<Bot, T>)
        ensures
            c.is_fresh(),
    {
        TransferCommand::new()
    }
}

/// Builds a transfer whose destination is the mobile agent: the bot takes
/// the source object's contents. A naming convenience only.
pub struct BotTransferFromCommand {}

impl BotTransferFromCommand {
    /// A fresh transfer command from any object to a bot.
    pub fn new<F: Object>() -> (c: TransferCommand<F, Bot>)
        ensures
            c.is_fresh(),
    {
        TransferCommand::new()
    }
}

/// Round trip: a completed transfer from A to B followed by a completed
/// transfer from B back to A restores both entities' contents.
pub proof fn lemma_round_trip<F: Object, T: Object>(
    a0: F,
    b0: T,
    a1: F,
    b1: T,
    a2: F,
    b2: T,
    r1: Result<bool, ErrorKind>,
    r2: Result<bool, ErrorKind>,
)
    requires
        TransferCommand::<F, T>::consume_post(a0, b0, a1, b1, r1),
        TransferCommand::<T, F>::consume_post(b1, a1, b2, a2, r2),
    ensures
        a2.items() == a0.items(),
        b2.items() == b0.items(),
{
}

/// A completed transfer conserves the items across the two endpoints: the
/// multiset of all held items, and with it the total count, is the same
/// before and after.
pub proof fn lemma_transfer_conserves_items<F: Object, T: Object>(
    pre_from: F,
    pre_to: T,
    post_from: F,
    post_to: T,
    r: Result<bool, ErrorKind>,
)
    requires
        TransferCommand::<F, T>::consume_post(pre_from, pre_to, post_from, post_to, r),
    ensures
        post_from.items().to_multiset().add(post_to.items().to_multiset())
            == pre_from.items().to_multiset().add(pre_to.items().to_multiset()),
        post_from.items().len() + post_to.items().len() == pre_from.items().len()
            + pre_to.items().len(),
{
    assert(post_from.items().to_multiset().add(post_to.items().to_multiset())
        =~= pre_from.items().to_multiset().add(pre_to.items().to_multiset()));
}

} // verus!
