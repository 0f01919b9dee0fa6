use vstd::prelude::*;

verus! {

/// Every way an operation on a guild can fail.
#[derive(Debug, Clone, PartialEq, Eq)]
pub enum PlayerError {
    /// The guild has no live session.
    NotConnected,
    /// The guild already has a session, or one is being set up or torn down.
    AlreadyConnected,
    /// The operation needs a current track in a mode that it is not in.
    NotPlaying,
    /// Nothing to play: the queue is empty and no source was given.
    QueueEmpty,
    /// An index, a range or a page lies beyond what is there.
    OutOfBounds,
    /// Pages are numbered from one.
    InvalidPage,
    /// The guild has no archived tracks.
    NoHistory,
    /// The voice transport reported a failure.
    TransportError(String),
    /// Failures of single items, each with the id of the track it concerns.
    AggregateError(Vec<(u64, String)>),
}

/// Success where `ok` holds, else the failure `e`.
pub open spec fn granted(ok: bool, e: PlayerError) -> Result<(), PlayerError> {
    if ok { Ok(()) } else { Err(e) }
}

/// The failures among per-track outcomes, in order, each with its track's id.
pub open spec fn failures(outcomes: Seq<(u64, Result<(), String>)>) -> Seq<(u64, String)>
    decreases outcomes.len(),
{
    if outcomes.len() == 0 {
        Seq::empty()
    } else {
        let rest = failures(outcomes.drop_last());
        match outcomes.last().1 {
            Ok(_) => rest,
            Err(e) => rest.push((outcomes.last().0, e)),
        }
    }
}

/// Gathers what the transport answered for each track of a batch into one
/// result: success when every track succeeded, else every failure at once.
/// What succeeded stays done.
pub fn aggregate(outcomes: Vec<(u64, Result<(), String>)>) -> (r: Result<(), PlayerError>)
    ensures
        failures(outcomes@).len() == 0 ==> r == Ok::<(), PlayerError>(()),
        failures(outcomes@).len() > 0 ==> (r matches Err(PlayerError::AggregateError(v)) && v@ == failures(outcomes@)),
{
    let mut errs: Vec<(u64, String)> = Vec::new();
    let mut i: usize = 0;
    while i < outcomes.len()
        invariant
            0 <= i <= outcomes@.len(),
            errs@ == failures(outcomes@.subrange(0, i as int)),
        decreases outcomes@.len() - i,
    {
        assert(outcomes@.subrange(0, i + 1).drop_last() =~= outcomes@.subrange(0, i as int));
        let (id, outcome) = &outcomes[i];
        match outcome {
            Ok(_) => {},
            Err(e) => {
                errs.push((*id, e.clone()));
            },
        }
        i += 1;
    }
    assert(outcomes@.subrange(0, outcomes@.len() as int) =~= outcomes@);
    if errs.len() == 0 {
        Ok(())
    } else {
        Err(PlayerError::AggregateError(errs))
    }
}

} // verus!
