//! Admission of liquidation and settlement requests.
use crate::engine::CdpEngine;
use crate::fixed::Price;
use crate::scanner::ScanRequest;
use crate::types::{AccountId, CurrencyId, Position};
use vstd::prelude::*;

verus! {

/// Periods for which an admitted request stays valid.
pub const REQUEST_LONGEVITY: u64 = 64;

/// Why a request is not admitted.
#[derive(Clone, Copy, Debug, PartialEq, Eq, Structural)]
pub enum InvalidTransaction {
    /// The request no longer applies to the position or the system phase.
    Stale,
}

/// The tag under which a request is deduplicated.
#[derive(Clone, Copy, Debug, PartialEq, Eq, Structural)]
pub struct RequestTag {
    pub period: u64,
    pub currency_id: CurrencyId,
    pub owner: AccountId,
}

/// An admitted request.
#[derive(Clone, Copy, Debug, PartialEq, Eq, Structural)]
pub struct ValidTransaction {
    pub priority: u64,
    pub provides: RequestTag,
    pub longevity: u64,
    pub propagate: bool,
}

impl CdpEngine {
    /// Whether `request` is stale for a position that now stands at
    /// `position`: a liquidation of a position that is not unsafe at
    /// `feed_price` or after shutdown; a settlement of a position without
    /// debit or before shutdown.
    pub open spec fn is_stale(&self, request: ScanRequest, position: Position, feed_price: Option<Price>, is_shutdown: bool) -> bool {
        match request {
            ScanRequest::Liquidate(c, _) => !self.unsafe_at(c, position.collateral, position.debit, feed_price) || is_shutdown,
            ScanRequest::Settle(_, _) => position.debit == 0 || !is_shutdown,
        }
    }

    /// Admits `request` in `period` unless it is stale, with the base
    /// priority and a tag made of the period, the collateral type and the owner.
    pub fn validate_unsigned(
        &self,
        request: ScanRequest,
        position: Position,
        feed_price: Option<Price>,
        is_shutdown: bool,
        period: u64,
    ) -> (r: Result<ValidTransaction, InvalidTransaction>)
        requires
            self.wf(),
        ensures
            r is Err <==> self.is_stale(request, position, feed_price, is_shutdown),
            r matches Err(e) ==> e == InvalidTransaction::Stale,
            r matches Ok(v) ==> v == (ValidTransaction {
                priority: self.config.unsigned_priority,
                provides: match request {
                    ScanRequest::Liquidate(c, who) => RequestTag { period, currency_id: c, owner: who },
                    ScanRequest::Settle(c, who) => RequestTag { period, currency_id: c, owner: who },
                },
                longevity: REQUEST_LONGEVITY,
                propagate: true,
            }),
    {
        let (c, who) = match request {
            ScanRequest::Liquidate(c, who) => {
                if !self.is_cdp_unsafe(c, position.collateral, position.debit, feed_price) || is_shutdown {
                    return Err(InvalidTransaction::Stale);
                }
                (c, who)
            },
            ScanRequest::Settle(c, who) => {
                if position.debit == 0 || !is_shutdown {
                    return Err(InvalidTransaction::Stale);
                }
                (c, who)
            },
        };
        Ok(ValidTransaction {
            priority: self.config.unsigned_priority,
            provides: RequestTag { period, currency_id: c, owner: who },
            longevity: REQUEST_LONGEVITY,
            propagate: true,
        })
    }
}

} // verus!
