//! What a verdict means for the person about to sign.

use vstd::prelude::*;

use crate::text::dec;
use crate::text::decimal;
use crate::text::model_of;
use crate::tx_builder::Preflight;
use crate::tx_builder::Verdict;

verus! {

/// Why a pass is not a clean one.
pub open spec fn pass_doubts(stale: bool, verified: bool) -> Seq<char> {
    if stale && !verified {
        "the chain has moved on since it ran"@ + " and "@
            + "some of the state it read couldn't be light-client-verified"@
    } else if stale {
        "the chain has moved on since it ran"@
    } else {
        "some of the state it read couldn't be light-client-verified"@
    }
}

impl Verdict {
    /// Whether the verdict is anything but a clean pass, on a network that
    /// could have given one.
    pub open spec fn doubtful(self) -> bool {
        match self {
            Verdict::Passed { stale, verified } => stale || !verified,
            Verdict::Unsupported => false,
            _ => true,
        }
    }

    /// The line the review adds.
    pub open spec fn warning(self) -> Option<Seq<char>> {
        match self {
            Verdict::Unsupported => None,
            Verdict::Passed { stale, verified } => if stale || !verified {
                Some(
                    "⚠ The preflight passed, but "@ + pass_doubts(stale, verified)
                        + " — re-run it before signing if this batch depends on balances or allowances that others can move."@,
                )
            } else {
                None
            },
            Verdict::TooMuchGas { gas_used, block_gas_limit } => Some(
                "⚠ This batch meters "@ + dec(gas_used as nat) + " gas against a block gas limit of "@
                    + dec(block_gas_limit as nat)
                    + ". No block can include a transaction this large, so it will never be mined however much you pay — and the real figure is higher still, since the preflight doesn't run the wrapper. Split it into smaller batches."@,
            ),
            Verdict::Fails { at, reason } => Some(
                "⚠ Preflight FAILED at "@ + at + ": "@ + reason
                    + ". The batch is atomic, so on-chain this reverts as a whole and costs gas for nothing."@,
            ),
            Verdict::Errored { reason } => Some(
                "⚠ The preflight couldn't run: "@ + reason
                    + ". That is a gap in what this wallet can predict, not a verdict on the batch — nothing here says whether it succeeds."@,
            ),
            Verdict::Missing => Some(
                "⚠ This batch has not been simulated. Go back and run the preflight to see whether it succeeds before committing a signature to it."@,
            ),
        }
    }
}

impl Preflight {
    /// Whether the confirm button should read as a deliberate override rather
    /// than a routine confirmation.
    pub fn softens_confirm(&self) -> (r: bool)
        ensures
            r == self@.doubtful(),
    {
        match self {
            Preflight::Passed { stale, verified } => *stale || !*verified,
            Preflight::Unsupported => false,
            _ => true,
        }
    }

    /// A line for the review when the verdict is something to weigh before
    /// signing.
    pub fn warning(&self) -> (r: Option<String>)
        ensures
            model_of(r) == self@.warning(),
    {
        match self {
            Preflight::Unsupported => None,
            Preflight::Passed { stale, verified } => {
                if !*stale && *verified {
                    return None;
                }
                let mut why: String = String::new();
                if *stale {
                    why = "the chain has moved on since it ran".to_owned();
                    if !*verified {
                        why.append(" and ");
                        why.append(
                            "some of the state it read couldn't be light-client-verified",
                        );
                    }
                } else {
                    why = "some of the state it read couldn't be light-client-verified".to_owned();
                }
                let mut s: String = "⚠ The preflight passed, but ".to_owned();
                s.append(why.as_str());
                s.append(
                    " — re-run it before signing if this batch depends on balances or allowances that others can move.",
                );
                Some(s)
            },
            Preflight::TooMuchGas { gas_used, block_gas_limit } => {
                let mut s: String = "⚠ This batch meters ".to_owned();
                s.append(decimal(*gas_used).as_str());
                s.append(" gas against a block gas limit of ");
                s.append(decimal(*block_gas_limit).as_str());
                s.append(
                    ". No block can include a transaction this large, so it will never be mined however much you pay — and the real figure is higher still, since the preflight doesn't run the wrapper. Split it into smaller batches.",
                );
                Some(s)
            },
            Preflight::Fails { at, reason } => {
                let mut s: String = "⚠ Preflight FAILED at ".to_owned();
                s.append(at.as_str());
                s.append(": ");
                s.append(reason.as_str());
                s.append(
                    ". The batch is atomic, so on-chain this reverts as a whole and costs gas for nothing.",
                );
                Some(s)
            },
            Preflight::Errored { reason } => {
                let mut s: String = "⚠ The preflight couldn't run: ".to_owned();
                s.append(reason.as_str());
                s.append(
                    ". That is a gap in what this wallet can predict, not a verdict on the batch — nothing here says whether it succeeds.",
                );
                Some(s)
            },
            Preflight::Missing => Some(
                "⚠ This batch has not been simulated. Go back and run the preflight to see whether it succeeds before committing a signature to it.".to_owned(),
            ),
        }
    }
}

} // verus!
