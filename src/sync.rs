use vstd::prelude::*;

verus! {

/// What the GPU side has been asked to signal: the completion of one frame's
/// presentation, or nothing at all (a token that is already satisfied).
#[derive(Clone, Copy, Debug, PartialEq, Eq, Structural)]
pub enum Token {
    /// Always satisfied; stands where a chain could not be completed.
    Fallback,
    /// Signals once the presentation requested for tick `frame` is done.
    Presented { frame: u64 },
}

/// What the queue and the presentation engine reported for one composed chain
/// of acquisition wait, submission and presentation.
#[derive(Clone, Copy, Debug, PartialEq, Eq, Structural)]
pub enum ChainOutcome {
    /// The chain was flushed and a fence will signal its end.
    Flushed,
    /// The presentation engine reported that the surface no longer matches.
    PresentOutOfDate,
    /// The queue rejected the submission (device lost, out of memory).
    SubmitRejected,
}

/// Why a chain was abandoned.
#[derive(Clone, Copy, Debug, PartialEq, Eq, Structural)]
pub enum ChainError {
    /// Fatal: the executing queue rejected the submission.
    SubmitFailed,
    /// Not fatal: the chain must be rebuilt, and a fallback token held.
    PresentOutOfDate,
}

impl Token {
    /// A token that is already satisfied.
    pub fn fallback_token() -> (r: Token)
        ensures
            r == Token::Fallback,
    {
        Token::Fallback
    }

    /// The frame whose presentation this token waits for, if any.
    pub open spec fn frame_spec(self) -> Option<u64> {
        match self {
            Token::Fallback => None,
            Token::Presented { frame } => Some(frame),
        }
    }

    pub fn frame(&self) -> (r: Option<u64>)
        ensures
            r == self.frame_spec(),
    {
        match self {
            Token::Fallback => None,
            Token::Presented { frame } => Some(*frame),
        }
    }

    /// The non-blocking reclamation pass at the start of a frame: the caller
    /// frees what the GPU-side token tracks of finished work, and the token
    /// goes on waiting for the same frame.
    pub fn begin_frame(self) -> (r: Token)
        ensures
            r == self,
    {
        self
    }
}

/// The token that the chain of tick `frame` leaves behind, given what the
/// queue and the presentation engine reported.
pub open spec fn chain_spec(frame: u64, outcome: ChainOutcome) -> Result<Token, ChainError> {
    match outcome {
        ChainOutcome::Flushed => Ok(Token::Presented { frame }),
        ChainOutcome::PresentOutOfDate => Err(ChainError::PresentOutOfDate),
        ChainOutcome::SubmitRejected => Err(ChainError::SubmitFailed),
    }
}

/// Composes the previous token with the chain of tick `frame`. The previous
/// token is consumed either way: on success the new token stands for this
/// frame's presentation, and on failure the caller holds a fallback token.
pub fn chain(previous: Token, frame: u64, outcome: ChainOutcome) -> (r: Result<Token, ChainError>)
    ensures
        r == chain_spec(frame, outcome),
{
    let _ = previous;
    match outcome {
        ChainOutcome::Flushed => Ok(Token::Presented { frame }),
        ChainOutcome::PresentOutOfDate => Err(ChainError::PresentOutOfDate),
        ChainOutcome::SubmitRejected => Err(ChainError::SubmitFailed),
    }
}

} // verus!
