//! The records that a subscription query returns.

use crate::decode::FromJson;
use crate::json::{
    json_as_array, json_as_bool, json_as_str, json_as_u64, json_get, json_model, json_models, Json,
};
use serde_json::Value;
use vstd::prelude::*;

verus! {

/// One record of a subscription query.
#[derive(Debug, Clone, PartialEq, Eq)]
pub struct Subscription {
    pub id: String,
    pub name: String,
    pub version: u32,
}

/// The answer to a subscription query.
#[derive(Debug, Clone, PartialEq, Eq)]
pub struct ZuoraSubscriptionResponse {
    pub done: bool,
    pub records: Vec<Subscription>,
}

pub struct SubscriptionView {
    pub id: Seq<char>,
    pub name: Seq<char>,
    pub version: u32,
}

pub struct ZuoraSubscriptionResponseView {
    pub done: bool,
    pub records: Seq<SubscriptionView>,
}

impl View for Subscription {
    type V = SubscriptionView;

    open spec fn view(&self) -> SubscriptionView {
        SubscriptionView { id: self.id@, name: self.name@, version: self.version }
    }
}

impl View for ZuoraSubscriptionResponse {
    type V = ZuoraSubscriptionResponseView;

    open spec fn view(&self) -> ZuoraSubscriptionResponseView {
        ZuoraSubscriptionResponseView {
            done: self.done,
            records: Seq::new(self.records@.len(), |i: int| self.records@[i]@),
        }
    }
}

/// The records that the items of an array describe, in order; `None` where
/// one item is not a record.
pub open spec fn described_records(items: Seq<Json>) -> Option<Seq<SubscriptionView>> {
    if forall|i: int| 0 <= i < items.len() ==> (#[trigger] Subscription::described(items[i])) is Some {
        Some(Seq::new(items.len(), |i: int| Subscription::described(items[i])->Some_0))
    } else {
        None
    }
}

impl FromJson for Subscription {
    /// A record is an object with the texts `Id` and `Name` and a `Version`
    /// that is a non-negative integer of 32 bits; other members are ignored.
    open spec fn described(doc: Json) -> Option<SubscriptionView> {
        match (doc.text_member("Id"@), doc.text_member("Name"@), doc.unsigned_member("Version"@)) {
            (Some(id), Some(name), Some(version)) => if version <= u32::MAX {
                Some(SubscriptionView { id, name, version: version as u32 })
            } else {
                None
            },
            _ => None,
        }
    }

    fn from_json(v: &Value) -> (r: Option<Subscription>) {
        let id = match json_get(v, "Id") {
            Some(m) => match json_as_str(m) {
                Some(s) => s,
                None => { return None; },
            },
            None => { return None; },
        };
        let name = match json_get(v, "Name") {
            Some(m) => match json_as_str(m) {
                Some(s) => s,
                None => { return None; },
            },
            None => { return None; },
        };
        let version = match json_get(v, "Version") {
            Some(m) => match json_as_u64(m) {
                Some(n) => n,
                None => { return None; },
            },
            None => { return None; },
        };
        if version > 0xffff_ffff {
            return None;
        }
        Some(Subscription { id: id.to_owned(), name: name.to_owned(), version: version as u32 })
    }
}

impl FromJson for ZuoraSubscriptionResponse {
    /// An answer is an object with a boolean `done` and an array `records`
    /// of which every item is a record; other members are ignored.
    open spec fn described(doc: Json) -> Option<ZuoraSubscriptionResponseView> {
        match (doc.bool_member("done"@), doc.array_member("records"@)) {
            (Some(done), Some(items)) => match described_records(items) {
                Some(records) => Some(ZuoraSubscriptionResponseView { done, records }),
                None => None,
            },
            _ => None,
        }
    }

    fn from_json(v: &Value) -> (r: Option<ZuoraSubscriptionResponse>) {
        let done = match json_get(v, "done") {
            Some(m) => match json_as_bool(m) {
                Some(b) => b,
                None => { return None; },
            },
            None => { return None; },
        };
        let items = match json_get(v, "records") {
            Some(m) => match json_as_array(m) {
                Some(items) => items,
                None => { return None; },
            },
            None => { return None; },
        };
        let ghost docs = json_models(items@);
        let mut records: Vec<Subscription> = Vec::new();
        let mut i: usize = 0;
        while i < items.len()
            invariant
                i <= items.len(),
                docs == json_models(items@),
                json_model(*v).bool_member("done"@) == Some(done),
                json_model(*v).array_member("records"@) == Some(docs),
                records@.len() == i,
                forall|k: int|
                    0 <= k < i ==> Subscription::described(docs[k]) == Some(
                        (#[trigger] records@[k])@,
                    ),
            decreases items.len() - i,
        {
            match Subscription::from_json(&items[i]) {
                Some(record) => {
                    records.push(record);
                },
                None => {
                    assert(Subscription::described(docs[i as int]) is None);
                    return None;
                },
            }
            i += 1;
        }
        let r = ZuoraSubscriptionResponse { done, records };
        proof {
            assert forall|k: int| 0 <= k < docs.len() implies (#[trigger] Subscription::described(
                docs[k],
            )) is Some by {
                assert(Subscription::described(docs[k]) == Some(r.records@[k]@));
            }
            assert(described_records(docs)->Some_0 =~= r@.records);
        }
        Some(r)
    }
}

} // verus!
