//! Records that the contract keeps in persistent storage, and their on-host
//! forms.

use vstd::prelude::*;
use crate::keys::{DailyLimitRecord, RemittanceRecord, TransferEntry};

verus! {

/// Where a remittance stands in its life cycle.
#[derive(Clone, Copy, Debug, PartialEq, Eq, Structural)]
pub enum RemittanceStatus {
    /// Created and awaiting payout by the agent.
    Pending,
    /// Paid out by the agent.
    Completed,
    /// Cancelled by the sender before payout.
    Cancelled,
}

/// A remittance from a sender, to be paid out by an agent.
#[derive(Debug, PartialEq, Eq)]
pub struct Remittance {
    pub id: u64,
    pub sender: soroban_sdk::Address,
    pub agent: soroban_sdk::Address,
    pub amount: i128,
    pub fee: i128,
    pub status: RemittanceStatus,
}

/// One transfer of a user, counted against the daily send limit.
#[derive(Clone, Copy, Debug, PartialEq, Eq, Structural)]
pub struct TransferRecord {
    pub amount: i128,
    pub timestamp: u64,
}

/// The daily send limit configured for a currency and a country.
#[derive(Debug, PartialEq, Eq)]
pub struct DailyLimit {
    pub currency: soroban_sdk::String,
    pub country: soroban_sdk::String,
    pub limit: i128,
}

impl RemittanceStatus {
    /// The code under which the status is stored.
    pub open spec fn code_spec(self) -> u32 {
        match self {
            RemittanceStatus::Pending => 0,
            RemittanceStatus::Completed => 1,
            RemittanceStatus::Cancelled => 2,
        }
    }

    /// The status stored under `code`; codes from 3 up stand for none.
    pub open spec fn from_code_spec(code: u32) -> Option<RemittanceStatus> {
        if code == 0 {
            Some(RemittanceStatus::Pending)
        } else if code == 1 {
            Some(RemittanceStatus::Completed)
        } else if code == 2 {
            Some(RemittanceStatus::Cancelled)
        } else {
            None
        }
    }

    /// The code under which the status is stored.
    pub fn code(&self) -> (c: u32)
        ensures
            c == self.code_spec(),
    {
        match self {
            RemittanceStatus::Pending => 0,
            RemittanceStatus::Completed => 1,
            RemittanceStatus::Cancelled => 2,
        }
    }

    /// The status stored under `code`, `None` for a code that stands for none.
    pub fn from_code(code: u32) -> (s: Option<RemittanceStatus>)
        ensures
            s == Self::from_code_spec(code),
    {
        if code == 0 {
            Some(RemittanceStatus::Pending)
        } else if code == 1 {
            Some(RemittanceStatus::Completed)
        } else if code == 2 {
            Some(RemittanceStatus::Cancelled)
        } else {
            None
        }
    }
}

impl Remittance {
    /// The on-host form of the remittance.
    pub open spec fn record_spec(self) -> RemittanceRecord {
        (self.id, self.sender, self.agent, self.amount, self.fee, self.status.code_spec())
    }

    /// The remittance of an on-host record whose status code stands for a status.
    pub open spec fn from_record_spec(r: RemittanceRecord) -> Remittance
        recommends
            r.5 < 3,
    {
        Remittance {
            id: r.0,
            sender: r.1,
            agent: r.2,
            amount: r.3,
            fee: r.4,
            status: RemittanceStatus::from_code_spec(r.5).unwrap(),
        }
    }

    /// The on-host form of the remittance.
    pub fn to_record(&self) -> (r: RemittanceRecord)
        ensures
            r == self.record_spec(),
    {
        (self.id, self.sender.clone(), self.agent.clone(), self.amount, self.fee, self.status.code())
    }

    /// The remittance of an on-host record; `None` where the status code
    /// stands for no status.
    pub fn from_record(r: RemittanceRecord) -> (rem: Option<Remittance>)
        ensures
            r.5 < 3 ==> rem == Some(Self::from_record_spec(r)),
            r.5 >= 3 ==> rem is None,
    {
        let (id, sender, agent, amount, fee, code): RemittanceRecord = r;
        match RemittanceStatus::from_code(code) {
            Some(status) => Some(Remittance { id, sender, agent, amount, fee, status }),
            None => None,
        }
    }
}

impl TransferRecord {
    /// The on-host form of the record.
    pub open spec fn entry_spec(self) -> TransferEntry {
        (self.amount, self.timestamp)
    }

    /// The record of an on-host entry.
    pub open spec fn from_entry_spec(e: TransferEntry) -> TransferRecord {
        TransferRecord { amount: e.0, timestamp: e.1 }
    }
}

impl DailyLimit {
    /// The daily limit of an on-host record.
    pub open spec fn from_record_spec(r: DailyLimitRecord) -> DailyLimit {
        DailyLimit { currency: r.0, country: r.1, limit: r.2 }
    }
}

} // verus!
